//! The command-line options the service starts with, as plain data.
use vstd::prelude::*;
use vstd::string::*;

verus! {

/// The service's start-up options: the port to listen on and the path of
/// the configuration file.
#[derive(Debug, Clone)]
pub struct Args {
    pub port: u16,
    pub conf_path: String,
}

impl core::default::Default for Args {
    /// The values the command line assumes when an option is omitted.
    fn default() -> (r: Args)
        ensures
            r.port == 3000,
            r.conf_path@ == "./config.yml"@,
    {
        Args { port: 3000, conf_path: String::from_str("./config.yml") }
    }
}

} // verus!
