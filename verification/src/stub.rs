//! The build configuration with logging switched off entirely.
//!
//! When logging is compiled out, every logging entry point must still accept
//! and evaluate its arguments exactly once, then discard them, so that the
//! calling code compiles unchanged and unused-value diagnostics stay quiet.
//! That configuration is modelled by a sink with the same call shape as the
//! real backend whose emission provably does nothing: it hands out no line,
//! and it has no state to change.

use crate::severity::Severity;
use vstd::prelude::*;

verus! {

/// The no-op stand-in for the logger backend in a build without logging.
pub struct NopLogger;

impl NopLogger {
    /// Accepts a record and discards it: no line is ever produced, no
    /// hardware is ever touched.
    pub fn emit(&self, severity: Severity, target: &str, message: &str) -> (line: Option<String>)
        ensures
            line is None,
    {
        let _ = severity;
        let _ = target;
        let _ = message;
        None
    }
}

} // verus!
