use vstd::prelude::*;
use crate::guard::{CoroutineError, PointerWrapper};
use crate::script::{resume, Op, Outcome, ScriptFuture};
use crate::waker::create;
use crate::yield_future::Poll;

verus! {

/// Where a container stands in its lifecycle.
pub enum Phase<T> {
    /// No coroutine: before `init`, after `clear`, or after a failure.
    Empty,
    /// A coroutine that has not run to its end. `pc` is the index of the next
    /// operation, `waiting` tells that it is suspended at that index, and
    /// `seen` holds the values it has read.
    Running { pc: nat, waiting: bool, seen: Seq<T> },
    /// A coroutine that has run to its end, having read `seen`.
    Completed { seen: Seq<T> },
}

/// The abstract state of a container: the shared data, the body that `init`
/// starts, and the lifecycle phase.
pub struct ContainerModel<T> {
    pub data: T,
    pub body: Seq<Op<T>>,
    pub phase: Phase<T>,
}

/// The model of a container that holds no coroutine.
pub open spec fn empty_model<T>(data: T, body: Seq<Op<T>>) -> ContainerModel<T> {
    ContainerModel { data, body, phase: Phase::Empty }
}

/// What `init` returns and the state it leaves.
pub open spec fn init_spec<T>(m: ContainerModel<T>) -> (Result<(), CoroutineError>, ContainerModel<T>) {
    if m.phase is Empty {
        (Ok(()), ContainerModel { phase: Phase::Running { pc: 0, waiting: false, seen: Seq::empty() }, ..m })
    } else {
        (Err(CoroutineError::AlreadyInitialized), m)
    }
}

/// What one `poll` returns and the state it leaves. A coroutine that breaks
/// the lock discipline is dropped, and its lock with it.
pub open spec fn step_spec<T>(m: ContainerModel<T>) -> (Result<Poll, CoroutineError>, ContainerModel<T>) {
    match m.phase {
        Phase::Empty => (Err(CoroutineError::NotInitialized), m),
        Phase::Completed { .. } => (Err(CoroutineError::Completed), m),
        Phase::Running { pc, waiting, seen } => match resume(m.body, pc, waiting, false, m.data, seen) {
            Outcome::Done { data, seen } => (
                Ok(Poll::Ready),
                ContainerModel { data, body: m.body, phase: Phase::Completed { seen } },
            ),
            Outcome::Suspended { pc, held, data, seen } => if held {
                (Err(CoroutineError::LockHeld), empty_model(data, m.body))
            } else {
                (
                    Ok(Poll::Pending),
                    ContainerModel {
                        data,
                        body: m.body,
                        phase: Phase::Running { pc, waiting: true, seen },
                    },
                )
            },
            Outcome::Failed { error, data } => (Err(error), empty_model(data, m.body)),
        },
    }
}

/// What `k` successive calls of `poll` return, starting from `m`.
pub open spec fn run_steps<T>(m: ContainerModel<T>, k: nat) -> Seq<Result<Poll, CoroutineError>>
    decreases k,
{
    if k == 0 {
        Seq::empty()
    } else {
        seq![step_spec(m).0] + run_steps(step_spec(m).1, (k - 1) as nat)
    }
}

/// What the call at index `i` returns when a body with `n` suspension
/// points and no lock misuse is stepped from its start.
pub open spec fn clean_outcome(i: int, n: nat) -> Result<Poll, CoroutineError> {
    if i < n {
        Ok(Poll::Pending)
    } else if i == n {
        Ok(Poll::Ready)
    } else {
        Err(CoroutineError::Completed)
    }
}

/// The values the coroutine has read, none when there is no coroutine.
pub open spec fn seen_of<T>(p: Phase<T>) -> Seq<T> {
    match p {
        Phase::Empty => Seq::empty(),
        Phase::Running { seen, .. } => seen,
        Phase::Completed { seen } => seen,
    }
}

/// Owns the data shared with a coroutine, the body the coroutine runs, and
/// the coroutine once it is initialized. The coroutine reaches the data
/// through the container's lock on each resumption; between steps the
/// caller reaches it directly.
#[derive(Debug)]
pub struct FutureContainer<T> {
    shared: PointerWrapper<T>,
    future: Option<ScriptFuture<T>>,
    init_func: Vec<Op<T>>,
}

impl<T> View for FutureContainer<T> {
    type V = ContainerModel<T>;

    closed spec fn view(&self) -> ContainerModel<T> {
        ContainerModel {
            data: self.shared.data,
            body: self.init_func@,
            phase: match self.future {
                None => Phase::Empty,
                Some(f) => if f@.finished {
                    Phase::Completed { seen: f@.seen }
                } else {
                    Phase::Running { pc: f@.pc, waiting: f@.waiting, seen: f@.seen }
                },
            },
        }
    }
}

impl<T: Copy> FutureContainer<T> {
    /// Well-formedness: between calls the lock is free, and a coroutine runs
    /// the container's body without holding the lock.
    pub closed spec fn wf(&self) -> bool {
        &&& !self.shared.data_locked
        &&& self.future matches Some(f) ==> {
            &&& f.wf()
            &&& f@.ops == self.init_func@
            &&& !f@.held
        }
    }

    /// A container holding `data` and the body `init_func`, with no
    /// coroutine yet.
    pub fn new(data: T, init_func: Vec<Op<T>>) -> (r: Self)
        ensures
            r.wf(),
            r@ == empty_model(data, init_func@),
    {
        FutureContainer { shared: PointerWrapper::new(data), future: None, init_func }
    }

    /// Starts a coroutine on the container's body. Fails, changing nothing,
    /// when the container already holds one.
    pub fn init(&mut self) -> (r: Result<(), CoroutineError>)
        requires
            old(self).wf(),
        ensures
            final(self).wf(),
            (r, final(self)@) == init_spec(old(self)@),
    {
        if self.future.is_some() {
            return Err(CoroutineError::AlreadyInitialized);
        }
        let mut ops: Vec<Op<T>> = Vec::new();
        let mut i: usize = 0;
        while i < self.init_func.len()
            invariant
                i <= self.init_func.len(),
                ops@ == self.init_func@.subrange(0, i as int),
            decreases self.init_func.len() - i,
        {
            ops.push(self.init_func[i]);
            i = i + 1;
        }
        assert(ops@ == self.init_func@);
        self.future = Some(ScriptFuture::new(ops));
        Ok(())
    }

    /// Drops the coroutine, if any, so that `init` may start a new one.
    pub fn clear(&mut self)
        requires
            old(self).wf(),
        ensures
            final(self).wf(),
            final(self)@ == empty_model(old(self)@.data, old(self)@.body),
    {
        self.future = None;
    }

    /// Whether the container holds a coroutine, running or completed.
    pub fn is_init(&self) -> (r: bool)
        ensures
            r == !(self@.phase is Empty),
    {
        self.future.is_some()
    }

    /// Resumes the coroutine until its next suspension point or its end.
    pub fn poll(&mut self) -> (r: Result<Poll, CoroutineError>)
        requires
            old(self).wf(),
        ensures
            final(self).wf(),
            (r, final(self)@) == step_spec(old(self)@),
    {
        let cx = create();
        match self.future.take() {
            None => Err(CoroutineError::NotInitialized),
            Some(mut f) => {
                if f.is_finished() {
                    self.future = Some(f);
                    return Err(CoroutineError::Completed);
                }
                match f.poll(&mut self.shared, &cx) {
                    Err(e) => {
                        f.abandon(&mut self.shared);
                        Err(e)
                    },
                    Ok(p) => {
                        if self.shared.data_locked {
                            f.abandon(&mut self.shared);
                            Err(CoroutineError::LockHeld)
                        } else {
                            self.future = Some(f);
                            Ok(p)
                        }
                    },
                }
            },
        }
    }

    /// Direct access to the shared data, for use between steps.
    pub fn data(&mut self) -> (r: &mut T)
        requires
            old(self).wf(),
        ensures
            *r == old(self)@.data,
            final(self).wf(),
            final(self)@ == (ContainerModel { data: *final(r), ..old(self)@ }),
    {
        &mut self.shared.data
    }

    /// The values the coroutine has read so far; none without a coroutine.
    pub fn observed(&self) -> (r: Vec<T>)
        ensures
            r@ == seen_of(self@.phase),
    {
        match &self.future {
            None => Vec::new(),
            Some(f) => {
                let seen = f.seen();
                let mut out: Vec<T> = Vec::new();
                let mut i: usize = 0;
                while i < seen.len()
                    invariant
                        i <= seen.len(),
                        out@ == seen@.subrange(0, i as int),
                    decreases seen.len() - i,
                {
                    out.push(seen[i]);
                    i = i + 1;
                }
                assert(out@ == seen@);
                out
            },
        }
    }
}

} // verus!
