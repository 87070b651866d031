use vstd::prelude::*;

verus! {

/// The contract violations that a container and its coroutine report.
#[derive(Clone, Copy, Debug, PartialEq, Eq, Structural)]
pub enum CoroutineError {
    /// `init` was called on a container that already holds a coroutine.
    AlreadyInitialized,
    /// `poll` was called on a container that holds no coroutine.
    NotInitialized,
    /// `poll` was called after the coroutine had run to its end.
    Completed,
    /// The coroutine suspended while it still held the data lock.
    LockHeld,
    /// The data lock was requested while it was already held.
    AlreadyLocked,
}

/// The data shared between a coroutine and its caller, with the flag that
/// tells whether the coroutine currently holds the lock on it.
#[derive(Debug)]
pub struct PointerWrapper<T> {
    pub data: T,
    pub data_locked: bool,
}

/// Proof of holding the lock of a `PointerWrapper`. It grants access to the
/// data until it is released.
#[derive(Debug)]
pub struct PointerGuard {
    token: (),
}

impl<T> PointerWrapper<T> {
    /// Wraps `data`, unlocked.
    pub fn new(data: T) -> (r: Self)
        ensures
            r.data == data,
            !r.data_locked,
    {
        PointerWrapper { data, data_locked: false }
    }

    /// Takes the lock. Fails, changing nothing, when it is already held.
    pub fn lock(&mut self) -> (r: Result<PointerGuard, CoroutineError>)
        ensures
            final(self).data == old(self).data,
            final(self).data_locked,
            match r {
                Ok(_) => !old(self).data_locked,
                Err(e) => old(self).data_locked && e == CoroutineError::AlreadyLocked,
            },
    {
        if self.data_locked {
            Err(CoroutineError::AlreadyLocked)
        } else {
            self.data_locked = true;
            Ok(PointerGuard { token: () })
        }
    }
}

impl PointerGuard {
    /// Reads the data through the lock.
    pub fn deref<'a, T>(&self, w: &'a PointerWrapper<T>) -> (r: &'a T)
        ensures
            *r == w.data,
    {
        &w.data
    }

    /// Gives write access to the data through the lock.
    pub fn deref_mut<'a, T>(&self, w: &'a mut PointerWrapper<T>) -> (r: &'a mut T)
        ensures
            *r == old(w).data,
            final(w).data == *final(r),
            final(w).data_locked == old(w).data_locked,
    {
        &mut w.data
    }

    /// Gives the lock back.
    pub fn release<T>(self, w: &mut PointerWrapper<T>)
        ensures
            final(w).data == old(w).data,
            !final(w).data_locked,
    {
        w.data_locked = false;
    }
}

} // verus!
