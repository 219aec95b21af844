use vstd::prelude::*;
use vstd::string::StringExecFns;

verus! {

/// The server's bind configuration: host and port, both overridable by
/// the startup code from the environment or the command line.
#[derive(Debug, Clone)]
pub struct ProgramArgs {
    pub http_host: String,
    pub http_port: u16,
}

impl Default for ProgramArgs {
    /// The defaults used when nothing overrides them.
    fn default() -> (r: ProgramArgs)
        ensures
            r.http_host@ == "0.0.0.0"@,
            r.http_port == 8080,
    {
        ProgramArgs { http_host: String::from_str("0.0.0.0"), http_port: 8080 }
    }
}

} // verus!
