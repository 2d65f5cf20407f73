//! Defaults of the connection settings.

use mus_uc_devtools::settings::MarionetteSettings;

#[test]
fn default_settings_point_at_the_local_automation_port() {
    let s = MarionetteSettings::new();
    assert_eq!(s.host, "localhost");
    assert_eq!(s.port, 2828);
}
