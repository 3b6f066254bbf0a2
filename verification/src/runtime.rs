//! Configuration for the local inference backend.  The backend adapter
//! itself performs network I/O and lives with the hosting application.

use vstd::prelude::*;
use vstd::string::StringExecFns;

verus! {

/// Local inference backend configuration.
#[derive(Clone, Debug)]
pub struct OllamaConfig {
    /// Host URL
    pub host: String,
    /// Port
    pub port: u16,
    /// Connection timeout in seconds
    pub timeout_secs: u64,
}

impl Default for OllamaConfig {
    /// Local defaults: the standard localhost endpoint.
    fn default() -> (r: Self)
        ensures
            r.host@ == "http://localhost"@,
            r.port == 11434,
            r.timeout_secs == 120,
    {
        OllamaConfig { host: String::from_str("http://localhost"), port: 11434, timeout_secs: 120 }
    }
}

} // verus!
