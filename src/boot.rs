//! Record of whether system initialization has completed.
use vstd::prelude::*;

verus! {

/// Initialization status, owned by the boot sequence and handed by reference
/// to whoever asks.
#[derive(Clone, Copy, Debug, PartialEq, Eq, Structural)]
pub struct InitStatus {
    pub completed: bool,
}

impl InitStatus {
    /// A status for a system whose initialization has not completed.
    pub fn new() -> (r: InitStatus)
        ensures
            !r.completed,
    {
        InitStatus { completed: false }
    }

    /// Records that initialization has completed.
    pub fn mark_completed(&mut self)
        ensures
            final(self).completed,
    {
        self.completed = true;
    }
}

/// Whether initialization has completed.
pub fn init_ok(status: &InitStatus) -> (r: bool)
    ensures
        r == status.completed,
{
    status.completed
}

} // verus!
