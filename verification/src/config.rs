//! The startup settings: listening port, backend list, and the paths of the
//! TLS material files.
//!
//! Reading and decoding the settings file is plain startup I/O done by the
//! program around the library; the one structural rule on the result — the
//! backend list must not be empty — is checked here.

use vstd::prelude::*;

verus! {

/// The settings the proxy starts with.
pub struct Config {
    /// The port the TLS listener binds.
    pub port: u16,
    /// The ordered list of backend base addresses, cycled through per
    /// request.
    pub backends: Vec<String>,
    /// Where the PEM certificate chain lies.
    pub cert_path: String,
    /// Where the PEM private key lies.
    pub key_path: String,
}

impl Config {
    /// A configuration must name at least one backend: an empty list would
    /// leave the selector nothing to cycle through.
    pub open spec fn valid(&self) -> bool {
        self.backends@.len() >= 1
    }

    /// Checks the structural rule on a decoded configuration; a
    /// configuration that fails it is rejected at startup.
    pub fn is_valid(&self) -> (r: bool)
        ensures
            r == self.valid(),
    {
        self.backends.len() >= 1
    }
}

} // verus!
