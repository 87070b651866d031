use vstd::prelude::*;
use crate::waker::NullWaker;

verus! {

/// What one poll of a suspendable computation reports.
#[derive(Clone, Copy, Debug, PartialEq, Eq, Structural)]
pub enum Poll {
    /// The computation has run to its end.
    Ready,
    /// The computation stopped at a suspension point and wants another poll.
    Pending,
}

/// A single-use suspension point: the first poll reports `Pending`, every
/// later poll reports `Ready`.
#[derive(Debug)]
pub struct YieldFuture {
    first: bool,
}

/// Outcome of one poll of a suspension point whose armed flag is `armed`:
/// what it reports, and its armed flag afterwards.
pub open spec fn yield_poll(armed: bool) -> (Poll, bool) {
    if armed {
        (Poll::Pending, false)
    } else {
        (Poll::Ready, false)
    }
}

/// What `n` successive polls report, starting from the armed flag `armed`.
pub open spec fn yield_trace(armed: bool, n: nat) -> Seq<Poll>
    decreases n,
{
    if n == 0 {
        Seq::empty()
    } else {
        seq![yield_poll(armed).0] + yield_trace(yield_poll(armed).1, (n - 1) as nat)
    }
}

impl View for YieldFuture {
    /// Whether the point will still suspend on its next poll.
    type V = bool;

    closed spec fn view(&self) -> bool {
        self.first
    }
}

impl YieldFuture {
    /// Polls the suspension point; the waker is never notified.
    pub fn poll(&mut self, _cx: &NullWaker) -> (r: Poll)
        ensures
            (r, final(self)@) == yield_poll(old(self)@),
    {
        if self.first {
            self.first = false;
            Poll::Pending
        } else {
            Poll::Ready
        }
    }
}

/// Returns a fresh suspension point, armed to suspend once.
pub fn fyield() -> (r: YieldFuture)
    ensures
        r@,
{
    YieldFuture { first: true }
}

} // verus!
