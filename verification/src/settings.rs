//! Connection settings: where the automation server listens.

use vstd::prelude::*;

verus! {

/// The default host.
pub const DEFAULT_HOST: &'static str = "localhost";

/// The default port.
pub const DEFAULT_PORT: u16 = 2828;

/// Host and port of the automation server.
pub struct MarionetteSettings {
    pub host: String,
    pub port: u16,
}

impl MarionetteSettings {
    /// The default settings: the local machine's well-known automation port.
    pub fn new() -> (r: MarionetteSettings)
        ensures
            r.host@ == DEFAULT_HOST@,
            r.port == DEFAULT_PORT,
    {
        MarionetteSettings { host: DEFAULT_HOST.to_owned(), port: DEFAULT_PORT }
    }
}

} // verus!
