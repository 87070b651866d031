use vstd::prelude::*;

verus! {

/// A notification target whose every operation does nothing. Stepping is
/// driven by the caller, so no readiness notice ever needs delivering.
#[derive(Clone, Copy, Debug, PartialEq, Eq)]
pub struct NullWaker {}

/// Returns a notification target that ignores every notice.
pub fn create() -> (r: NullWaker)
    ensures
        r == (NullWaker {}),
{
    NullWaker {}
}

impl NullWaker {
    /// Notifies the target, consuming it: nothing happens.
    pub fn wake(self) {
    }

    /// Notifies the target through a reference: nothing happens.
    pub fn wake_by_ref(&self) {
    }
}

} // verus!
