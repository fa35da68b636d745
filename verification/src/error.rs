//! Errors raised while validating arguments before they reach the
//! instrument.

use vstd::prelude::*;

verus! {

/// An argument handed to the binding surface was rejected before any call
/// could reach the instrument.
#[derive(Clone, Copy, Debug, PartialEq, Eq, Structural)]
pub enum DirectiveError {
    /// A voltage was requested from a read-out directive that carries none.
    NoVoltage,
    /// A read-out timing directive was parsed from an unrecognised string.
    UnknownReadAfter,
    /// A cluster timing list did not hold one entry per cluster.
    ClusterTimingCount,
}

impl DirectiveError {
    /// The diagnostic text for this error.
    pub open spec fn message_view(&self) -> Seq<char> {
        match self {
            DirectiveError::NoVoltage => "No voltage associated"@,
            DirectiveError::UnknownReadAfter => "Unknown ReadAfter"@,
            DirectiveError::ClusterTimingCount => "Need 8 arguments for cluster timings"@,
        }
    }

    /// The diagnostic text for this error, as shown to the host runtime.
    pub fn message(&self) -> (r: &'static str)
        ensures
            r@ == self.message_view(),
    {
        match self {
            DirectiveError::NoVoltage => "No voltage associated",
            DirectiveError::UnknownReadAfter => "Unknown ReadAfter",
            DirectiveError::ClusterTimingCount => "Need 8 arguments for cluster timings",
        }
    }
}

} // verus!
