//! The severity that the logging façade attaches to each event.

use vstd::prelude::*;

verus! {

/// The level of a log event, from the most verbose to the most severe.
#[derive(Clone, Copy, Debug, PartialEq, Eq, Structural)]
pub enum Severity {
    Trace,
    Debug,
    Info,
    Warn,
    Error,
}

impl Severity {
    /// The position of the level in the order of severity: `Trace` is the
    /// lowest, `Error` the highest.
    pub open spec fn rank(self) -> nat {
        match self {
            Severity::Trace => 0,
            Severity::Debug => 1,
            Severity::Info => 2,
            Severity::Warn => 3,
            Severity::Error => 4,
        }
    }

    /// Whether the event reports an error.
    pub fn is_error(self) -> (b: bool)
        ensures
            b == (self == Severity::Error),
            b == (self.rank() == Severity::Error.rank()),
            !b == (self.rank() < Severity::Error.rank()),
    {
        match self {
            Severity::Error => true,
            _ => false,
        }
    }
}

} // verus!
