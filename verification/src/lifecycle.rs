//! The life of a background component.

use vstd::prelude::*;

verus! {

/// Where a background component stands between construction and its end.
///
/// A component only ever moves forward: `Created`, `Running`, `Stopping`,
/// `Stopped`. A stopped component is never started again.
#[derive(Clone, Copy, Debug, PartialEq, Eq, Structural)]
pub enum Phase {
    Created,
    Running,
    Stopping,
    Stopped,
}

impl Phase {
    /// The position of the phase in the order in which phases are passed.
    pub open spec fn rank(self) -> nat {
        match self {
            Phase::Created => 0,
            Phase::Running => 1,
            Phase::Stopping => 2,
            Phase::Stopped => 3,
        }
    }

    /// Whether a component in phase `self` may be found in phase `later` afterwards.
    pub open spec fn leads_to(self, later: Phase) -> bool {
        self.rank() <= later.rank()
    }
}

} // verus!
