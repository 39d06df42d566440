//! The severity order of log records.

use vstd::prelude::*;

verus! {

/// Severity of a log record. `Error` is the most severe and has the lowest
/// ordinal; `Trace` is the least severe (most verbose) and has the highest.
#[derive(Clone, Copy, Debug, PartialEq, Eq, Structural)]
pub enum Severity {
    Error,
    Warn,
    Info,
    Debug,
    Trace,
}

impl Severity {
    /// Position in the severity order: 0 for `Error` up to 4 for `Trace`.
    pub open spec fn ordinal(self) -> int {
        match self {
            Severity::Error => 0,
            Severity::Warn => 1,
            Severity::Info => 2,
            Severity::Debug => 3,
            Severity::Trace => 4,
        }
    }

    /// `self` is at least as severe as `other` (its ordinal is no greater).
    pub open spec fn at_least_as_severe_as(self, other: Severity) -> bool {
        self.ordinal() <= other.ordinal()
    }

    /// The ordinal as a machine integer.
    pub fn rank(self) -> (n: u8)
        ensures
            n as int == self.ordinal(),
    {
        match self {
            Severity::Error => 0,
            Severity::Warn => 1,
            Severity::Info => 2,
            Severity::Debug => 3,
            Severity::Trace => 4,
        }
    }

    /// Decides the filtering order: true when `self` is at least as severe as
    /// `other`.
    pub fn is_at_least_as_severe_as(self, other: Severity) -> (r: bool)
        ensures
            r == self.at_least_as_severe_as(other),
    {
        self.rank() <= other.rank()
    }
}

} // verus!
