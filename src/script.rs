use vstd::prelude::*;
use crate::guard::{CoroutineError, PointerGuard, PointerWrapper};
use crate::waker::NullWaker;
use crate::yield_future::{fyield, Poll, YieldFuture};

verus! {

/// One operation of a coroutine body.
#[derive(Clone, Copy, Debug, PartialEq, Eq, Structural)]
pub enum Op<T> {
    /// Reads the shared data and records the value seen.
    Read,
    /// Stores a value into the shared data.
    Write(T),
    /// Takes the data lock and keeps it until `Release`.
    Acquire,
    /// Gives back the data lock, if the body holds it.
    Release,
    /// A suspension point: control goes back to the caller once.
    Yield,
}

/// How one resumption of a body ends.
pub enum Outcome<T> {
    /// The body ran to its end, holding no lock.
    Done { data: T, seen: Seq<T> },
    /// The body suspended at the `Yield` at index `pc`.
    Suspended { pc: nat, held: bool, data: T, seen: Seq<T> },
    /// The body broke the lock discipline.
    Failed { error: CoroutineError, data: T },
}

/// Runs `ops` from index `pc` until the next suspension or the end.
/// `waiting` tells that the body is resuming at the suspension point where it
/// last stopped, `held` that it holds the data lock, `data` is the shared
/// value and `seen` the values the body has read so far.
pub open spec fn resume<T>(
    ops: Seq<Op<T>>,
    pc: nat,
    waiting: bool,
    held: bool,
    data: T,
    seen: Seq<T>,
) -> Outcome<T>
    decreases ops.len() - pc,
{
    if pc >= ops.len() {
        Outcome::Done { data, seen }
    } else {
        match ops[pc as int] {
            Op::Read => resume(ops, pc + 1, false, held, data, seen.push(data)),
            Op::Write(v) => resume(ops, pc + 1, false, held, v, seen),
            Op::Acquire => if held {
                Outcome::Failed { error: CoroutineError::AlreadyLocked, data }
            } else {
                resume(ops, pc + 1, false, true, data, seen)
            },
            Op::Release => resume(ops, pc + 1, false, false, data, seen),
            Op::Yield => if waiting {
                resume(ops, pc + 1, false, held, data, seen)
            } else {
                Outcome::Suspended { pc, held, data, seen }
            },
        }
    }
}

/// The number of suspension points in `ops` at index `from` or later.
pub open spec fn count_yields<T>(ops: Seq<Op<T>>, from: nat) -> nat
    decreases ops.len() - from,
{
    if from >= ops.len() {
        0
    } else {
        (if ops[from as int] is Yield { 1nat } else { 0nat }) + count_yields(ops, from + 1)
    }
}

/// Whether `ops`, run from index `from` with the lock held or not as `held`
/// says, never takes the lock twice and never reaches a suspension point
/// while holding it.
pub open spec fn lock_disciplined<T>(ops: Seq<Op<T>>, from: nat, held: bool) -> bool
    decreases ops.len() - from,
{
    if from >= ops.len() {
        true
    } else {
        match ops[from as int] {
            Op::Acquire => !held && lock_disciplined(ops, from + 1, true),
            Op::Release => lock_disciplined(ops, from + 1, false),
            Op::Yield => !held && lock_disciplined(ops, from + 1, held),
            _ => lock_disciplined(ops, from + 1, held),
        }
    }
}

/// Whether an operation touches neither the lock nor the control flow.
pub open spec fn is_plain<T>(op: Op<T>) -> bool {
    op is Read || op is Write
}

/// The state of a running body.
pub struct ScriptModel<T> {
    pub ops: Seq<Op<T>>,
    pub pc: nat,
    pub waiting: bool,
    pub held: bool,
    pub seen: Seq<T>,
    pub finished: bool,
}

/// A coroutine instance: a body together with the point it has reached.
#[derive(Debug)]
pub struct ScriptFuture<T> {
    ops: Vec<Op<T>>,
    pc: usize,
    waiting: Option<YieldFuture>,
    guard: Option<PointerGuard>,
    seen: Vec<T>,
    finished: bool,
}

impl<T> View for ScriptFuture<T> {
    type V = ScriptModel<T>;

    closed spec fn view(&self) -> ScriptModel<T> {
        ScriptModel {
            ops: self.ops@,
            pc: self.pc as nat,
            waiting: self.waiting is Some,
            held: self.guard is Some,
            seen: self.seen@,
            finished: self.finished,
        }
    }
}

impl<T: Copy> ScriptFuture<T> {
    /// Well-formedness: the position lies within the body, and a suspension
    /// point that is being waited on stands at it and has already suspended.
    pub closed spec fn wf(&self) -> bool {
        &&& self.pc <= self.ops.len()
        &&& self.waiting matches Some(y) ==> {
            &&& self.pc < self.ops.len()
            &&& self.ops@[self.pc as int] is Yield
            &&& !y@
        }
    }

    /// A body at its start, with nothing read yet.
    pub fn new(ops: Vec<Op<T>>) -> (r: Self)
        ensures
            r.wf(),
            r@ == (ScriptModel {
                ops: ops@,
                pc: 0,
                waiting: false,
                held: false,
                seen: Seq::<T>::empty(),
                finished: false,
            }),
    {
        ScriptFuture { ops, pc: 0, waiting: None, guard: None, seen: Vec::new(), finished: false }
    }

    /// The values the body has read so far.
    pub fn seen(&self) -> (r: &Vec<T>)
        ensures
            r@ == self@.seen,
    {
        &self.seen
    }

    /// Whether the body has run to its end.
    pub fn is_finished(&self) -> (r: bool)
        ensures
            r == self@.finished,
    {
        self.finished
    }

    /// Drops the body, giving back the data lock if it holds it.
    pub fn abandon(self, w: &mut PointerWrapper<T>)
        requires
            old(w).data_locked == self@.held,
        ensures
            final(w).data == old(w).data,
            !final(w).data_locked,
    {
        match self.guard {
            Some(g) => g.release(w),
            None => {},
        }
    }

    /// Resumes the body until its next suspension point or its end.
    pub fn poll(&mut self, w: &mut PointerWrapper<T>, cx: &NullWaker) -> (r: Result<
        Poll,
        CoroutineError,
    >)
        requires
            old(self).wf(),
            !old(self)@.finished,
            old(w).data_locked == old(self)@.held,
        ensures
            final(self).wf(),
            final(self)@.ops == old(self)@.ops,
            final(w).data_locked == final(self)@.held,
            match resume(
                old(self)@.ops,
                old(self)@.pc,
                old(self)@.waiting,
                old(self)@.held,
                old(w).data,
                old(self)@.seen,
            ) {
                Outcome::Done { data, seen } => {
                    &&& r == Ok::<Poll, CoroutineError>(Poll::Ready)
                    &&& final(w).data == data
                    &&& !final(self)@.held
                    &&& final(self)@.seen == seen
                    &&& final(self)@.finished
                },
                Outcome::Suspended { pc, held, data, seen } => {
                    &&& r == Ok::<Poll, CoroutineError>(Poll::Pending)
                    &&& final(w).data == data
                    &&& final(self)@.held == held
                    &&& final(self)@.seen == seen
                    &&& final(self)@.pc == pc
                    &&& final(self)@.waiting
                    &&& !final(self)@.finished
                },
                Outcome::Failed { error, data } => {
                    &&& r == Err::<Poll, CoroutineError>(error)
                    &&& final(w).data == data
                },
            },
    {
        let ghost goal = resume(
            self@.ops,
            self@.pc,
            self@.waiting,
            self@.held,
            w.data,
            self@.seen,
        );
        while self.pc < self.ops.len()
            invariant
                self.wf(),
                !self@.finished,
                self@.ops == old(self)@.ops,
                w.data_locked == self@.held,
                goal == resume(self@.ops, self@.pc, self@.waiting, self@.held, w.data, self@.seen),
                goal == resume(
                    old(self)@.ops,
                    old(self)@.pc,
                    old(self)@.waiting,
                    old(self)@.held,
                    old(w).data,
                    old(self)@.seen,
                ),
            decreases self.ops.len() - self.pc,
        {
            let op = self.ops[self.pc];
            match op {
                Op::Read => {
                    let v: T = match &self.guard {
                        Some(g) => *g.deref(w),
                        None => match w.lock() {
                            Ok(g) => {
                                let v: T = *g.deref(w);
                                g.release(w);
                                v
                            },
                            Err(e) => {
                                return Err(e);
                            },
                        },
                    };
                    self.seen.push(v);
                },
                Op::Write(v) => {
                    match &self.guard {
                        Some(g) => {
                            *g.deref_mut(w) = v;
                        },
                        None => match w.lock() {
                            Ok(g) => {
                                *g.deref_mut(w) = v;
                                g.release(w);
                            },
                            Err(e) => {
                                return Err(e);
                            },
                        },
                    }
                },
                Op::Acquire => {
                    match w.lock() {
                        Ok(g) => {
                            self.guard = Some(g);
                        },
                        Err(e) => {
                            return Err(e);
                        },
                    }
                },
                Op::Release => {
                    match self.guard.take() {
                        Some(g) => g.release(w),
                        None => {},
                    }
                },
                Op::Yield => {
                    let mut y = match self.waiting.take() {
                        Some(y) => y,
                        None => fyield(),
                    };
                    match y.poll(cx) {
                        Poll::Pending => {
                            self.waiting = Some(y);
                            return Ok(Poll::Pending);
                        },
                        Poll::Ready => {},
                    }
                },
            }
            self.pc = self.pc + 1;
        }
        match self.guard.take() {
            Some(g) => g.release(w),
            None => {},
        }
        self.finished = true;
        Ok(Poll::Ready)
    }
}

} // verus!
