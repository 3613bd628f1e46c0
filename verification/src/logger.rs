//! Instrumentation settings, as already-resolved plain values.
//!
//! Setting the tracing subscriber up is the surrounding process's business;
//! what the core owns is the choice of logger and the mapping from the
//! counted verbosity flag to a level name.

use vstd::prelude::*;
use vstd::string::StringExecFns;

verus! {

/// Which logger the process writes through.
#[derive(Clone, Copy, Debug, PartialEq, Eq, Structural)]
pub enum Logger {
    Pretty,
}

impl Default for Logger {
    fn default() -> (r: Self)
        ensures
            r == Logger::Pretty,
    {
        Logger::Pretty
    }
}

impl Logger {
    /// The logger's display name.
    pub fn name(&self) -> (r: String)
        ensures
            r@ == "pretty"@,
    {
        String::from_str("pretty")
    }
}

/// Verbosity and logger choice of one process.
pub struct Instrumentation {
    /// How many times the verbosity flag was given.
    pub verbose: u8,
    /// Which logger to use.
    pub logger: Logger,
}

impl Instrumentation {
    /// The default log level for this verbosity: info, then debug, and trace
    /// from two flags up.
    pub fn log_level(&self) -> (r: String)
        ensures
            self.verbose == 0 ==> r@ == "info"@,
            self.verbose == 1 ==> r@ == "debug"@,
            self.verbose >= 2 ==> r@ == "trace"@,
    {
        if self.verbose == 0 {
            String::from_str("info")
        } else if self.verbose == 1 {
            String::from_str("debug")
        } else {
            String::from_str("trace")
        }
    }
}

} // verus!
