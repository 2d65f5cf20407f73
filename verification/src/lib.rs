//! Client-side core of a length-prefixed browser automation protocol, together
//! with a privileged stylesheet lifecycle manager layered on top of it.
//!
//! The crate is written sans-I/O: every byte that goes to or comes from the
//! peer passes through a caller-supplied transport. The modules here frame
//! messages, allocate monotonically increasing message identifiers, validate
//! the server handshake, interpret responses, and keep a client-side registry
//! of injected stylesheets in sync with the registry the browser holds.

pub mod digits;
pub mod errors;
pub mod escape;
pub mod frame;
pub mod imports;
pub mod manager;
pub mod manifest;
pub mod registry;
pub mod reply;
pub mod request;
pub mod screenshot;
pub mod search;
pub mod session;
pub mod settings;
pub mod watch;

pub use manager::ChromeCSSManager;
pub use manifest::ChromeManifestRegistrar;
pub use session::Session;
pub use settings::MarionetteSettings;
