use vstd::prelude::*;
use crate::container::{
    clean_outcome, empty_model, init_spec, run_steps, seen_of, step_spec, ContainerModel,
    Phase,
};
use crate::guard::CoroutineError;
use crate::script::{count_yields, is_plain, lock_disciplined, resume, Op, Outcome};
use crate::yield_future::{yield_trace, Poll};

verus! {

/// Stepping a container that was never initialized fails, and so does
/// initializing one a second time.
pub proof fn uninitialized_step_and_double_init_fail<T>(m: ContainerModel<T>)
    ensures
        m.phase is Empty ==> step_spec(m) == (
            Err::<Poll, CoroutineError>(CoroutineError::NotInitialized),
            m,
        ),
        init_spec(init_spec(m).1).0 == Err::<(), CoroutineError>(
            CoroutineError::AlreadyInitialized,
        ),
{
}

proof fn disarmed_point_stays_ready(n: nat)
    ensures
        yield_trace(false, n).len() == n,
        forall|i: int| 0 <= i < n ==> yield_trace(false, n)[i] == Poll::Ready,
    decreases n,
{
    if n > 0 {
        disarmed_point_stays_ready((n - 1) as nat);
    }
}

/// A fresh suspension point reports `Pending` on its first poll and `Ready`
/// on every later one.
pub proof fn suspension_point_suspends_once(n: nat)
    ensures
        yield_trace(true, n).len() == n,
        forall|i: int|
            0 <= i < n ==> yield_trace(true, n)[i] == (if i == 0 {
                Poll::Pending
            } else {
                Poll::Ready
            }),
{
    if n > 0 {
        disarmed_point_stays_ready((n - 1) as nat);
    }
}

/// The suspension points still ahead of a body at `pc`, not counting the one
/// it is suspended at.
spec fn yields_left<T>(ops: Seq<Op<T>>, pc: nat, waiting: bool) -> int {
    count_yields(ops, pc) - (if waiting { 1int } else { 0int })
}

/// One resumption of a disciplined body either ends with no suspension
/// point left, or stops at the next one, free of the lock.
proof fn segment_ends_at_next_yield<T>(
    ops: Seq<Op<T>>,
    pc: nat,
    waiting: bool,
    held: bool,
    data: T,
    seen: Seq<T>,
)
    requires
        pc <= ops.len(),
        lock_disciplined(ops, pc, held),
        waiting ==> pc < ops.len() && ops[pc as int] is Yield,
    ensures
        match resume(ops, pc, waiting, held, data, seen) {
            Outcome::Done { .. } => yields_left(ops, pc, waiting) == 0,
            Outcome::Suspended { pc: p, held: h, .. } => {
                &&& !h
                &&& p < ops.len()
                &&& ops[p as int] is Yield
                &&& lock_disciplined(ops, p, false)
                &&& yields_left(ops, p, true) + 1 == yields_left(ops, pc, waiting)
            },
            Outcome::Failed { .. } => false,
        },
    decreases ops.len() - pc,
{
    if pc < ops.len() {
        match ops[pc as int] {
            Op::Read => segment_ends_at_next_yield(ops, pc + 1, false, held, data, seen.push(data)),
            Op::Write(v) => segment_ends_at_next_yield(ops, pc + 1, false, held, v, seen),
            Op::Acquire => segment_ends_at_next_yield(ops, pc + 1, false, true, data, seen),
            Op::Release => segment_ends_at_next_yield(ops, pc + 1, false, false, data, seen),
            Op::Yield => {
                if waiting {
                    segment_ends_at_next_yield(ops, pc + 1, false, held, data, seen);
                }
            },
        }
    }
}

proof fn completed_stays_completed<T>(m: ContainerModel<T>, k: nat)
    requires
        m.phase is Completed,
    ensures
        run_steps(m, k).len() == k,
        forall|i: int|
            0 <= i < k ==> run_steps(m, k)[i] == Err::<Poll, CoroutineError>(
                CoroutineError::Completed,
            ),
    decreases k,
{
    if k > 0 {
        completed_stays_completed(m, (k - 1) as nat);
    }
}

proof fn running_trace<T>(m: ContainerModel<T>, k: nat)
    requires
        m.phase matches Phase::Running { pc, waiting, .. } && {
            &&& pc <= m.body.len()
            &&& lock_disciplined(m.body, pc, false)
            &&& waiting ==> pc < m.body.len() && m.body[pc as int] is Yield
        },
    ensures
        run_steps(m, k).len() == k,
        forall|i: int|
            0 <= i < k ==> run_steps(m, k)[i] == clean_outcome(
                i,
                yields_left(m.body, m.phase->pc, m.phase->waiting) as nat,
            ),
    decreases k,
{
    if k > 0 {
        let (pc, waiting, seen) = (m.phase->pc, m.phase->waiting, seen_of(m.phase));
        segment_ends_at_next_yield(m.body, pc, waiting, false, m.data, seen);
        let n = yields_left(m.body, pc, waiting);
        let m2 = step_spec(m).1;
        if n == 0 {
            completed_stays_completed(m2, (k - 1) as nat);
        } else {
            running_trace(m2, (k - 1) as nat);
        }
        assert forall|i: int| 0 <= i < k implies run_steps(m, k)[i] == clean_outcome(
            i,
            n as nat,
        ) by {
            if i > 0 {
                assert(run_steps(m, k)[i] == run_steps(m2, (k - 1) as nat)[i - 1]);
            }
        }
    }
}

/// A body that takes the lock only when it is free and releases it before
/// each suspension point, stepped from its start, suspends once for each of
/// its suspension points, then reports completion once, then reports that
/// it has completed.
pub proof fn steps_follow_suspension_points<T>(data: T, body: Seq<Op<T>>, k: nat)
    requires
        lock_disciplined(body, 0, false),
    ensures
        run_steps(init_spec(empty_model(data, body)).1, k) == Seq::new(
            k,
            |i: int| clean_outcome(i, count_yields(body, 0)),
        ),
{
    let m = init_spec(empty_model(data, body)).1;
    running_trace(m, k);
    assert(run_steps(m, k) =~= Seq::new(k, |i: int| clean_outcome(i, count_yields(body, 0))));
}

proof fn plain_prefix_runs_through<T>(
    ops: Seq<Op<T>>,
    pc: nat,
    k: nat,
    held: bool,
    data: T,
    seen: Seq<T>,
)
    requires
        pc <= k <= ops.len(),
        forall|j: int| pc <= j < k ==> is_plain(#[trigger] ops[j]),
    ensures
        exists|d: T, s: Seq<T>|
            resume(ops, pc, false, held, data, seen) == resume(ops, k, false, held, d, s),
    decreases k - pc,
{
    if pc < k {
        match ops[pc as int] {
            Op::Read => {
                plain_prefix_runs_through(ops, pc + 1, k, held, data, seen.push(data));
                let (d, s) = choose|d: T, s: Seq<T>|
                    resume(ops, pc + 1, false, held, data, seen.push(data)) == resume(
                        ops,
                        k,
                        false,
                        held,
                        d,
                        s,
                    );
                assert(resume(ops, pc, false, held, data, seen) == resume(ops, k, false, held, d, s));
            },
            Op::Write(v) => {
                plain_prefix_runs_through(ops, pc + 1, k, held, v, seen);
                let (d, s) = choose|d: T, s: Seq<T>|
                    resume(ops, pc + 1, false, held, v, seen) == resume(ops, k, false, held, d, s);
                assert(resume(ops, pc, false, held, data, seen) == resume(ops, k, false, held, d, s));
            },
            _ => {
                assert(is_plain(ops[pc as int]));
            },
        }
    } else {
        assert(resume(ops, pc, false, held, data, seen) == resume(ops, k, false, held, data, seen));
    }
}

/// A body that takes the lock and reaches a suspension point without giving
/// it back fails on that step; one that gives it back first suspends
/// normally.
pub proof fn lock_across_suspension_fails<T>(
    data: T,
    before: Seq<Op<T>>,
    after: Seq<Op<T>>,
)
    requires
        forall|j: int| 0 <= j < before.len() ==> is_plain(#[trigger] before[j]),
    ensures
        step_spec(
            init_spec(
                empty_model(data, before + seq![Op::Acquire, Op::Yield] + after),
            ).1,
        ).0 == Err::<Poll, CoroutineError>(CoroutineError::LockHeld),
        step_spec(
            init_spec(
                empty_model(data, before + seq![Op::Acquire, Op::Release, Op::Yield] + after),
            ).1,
        ).0 == Ok::<Poll, CoroutineError>(Poll::Pending),
{
    let k = before.len();
    let held_body = before + seq![Op::Acquire, Op::Yield] + after;
    let freed_body = before + seq![Op::Acquire, Op::Release, Op::Yield] + after;
    assert forall|j: int| 0 <= j < k implies is_plain(#[trigger] held_body[j]) by {
        assert(held_body[j] == before[j]);
    }
    assert forall|j: int| 0 <= j < k implies is_plain(#[trigger] freed_body[j]) by {
        assert(freed_body[j] == before[j]);
    }
    plain_prefix_runs_through(held_body, 0, k, false, data, Seq::empty());
    let (d1, s1) = choose|d: T, s: Seq<T>|
        resume(held_body, 0, false, false, data, Seq::empty()) == resume(
            held_body,
            k,
            false,
            false,
            d,
            s,
        );
    assert(held_body[k as int] is Acquire);
    assert(held_body[k + 1 as int] is Yield);
    assert(resume(held_body, k + 1, false, true, d1, s1) is Suspended);
    plain_prefix_runs_through(freed_body, 0, k, false, data, Seq::empty());
    let (d2, s2) = choose|d: T, s: Seq<T>|
        resume(freed_body, 0, false, false, data, Seq::empty()) == resume(
            freed_body,
            k,
            false,
            false,
            d,
            s,
        );
    assert(freed_body[k as int] is Acquire);
    assert(freed_body[k + 1 as int] is Release);
    assert(freed_body[k + 2 as int] is Yield);
    assert(resume(freed_body, k + 2, false, false, d2, s2) matches Outcome::Suspended {
        held: false,
        ..
    });
    assert(resume(freed_body, k + 1, false, true, d2, s2) == resume(
        freed_body,
        k + 2,
        false,
        false,
        d2,
        s2,
    ));
    assert(resume(freed_body, k, false, false, d2, s2) == resume(
        freed_body,
        k + 1,
        false,
        true,
        d2,
        s2,
    ));
}

/// A value the caller writes while the coroutine is suspended is the value
/// the coroutine reads when it resumes.
pub proof fn caller_writes_reach_body<T>(m: ContainerModel<T>, v: T)
    requires
        m.phase matches Phase::Running { pc, waiting, .. } && {
            &&& waiting
            &&& pc + 2 < m.body.len()
            &&& m.body[pc as int] is Yield
            &&& m.body[pc + 1 as int] is Read
            &&& m.body[pc + 2 as int] is Yield
        },
    ensures
        step_spec(ContainerModel { data: v, ..m }) == (
            Ok::<Poll, CoroutineError>(Poll::Pending),
            ContainerModel {
                data: v,
                body: m.body,
                phase: Phase::Running {
                    pc: m.phase->pc + 2,
                    waiting: true,
                    seen: seen_of(m.phase).push(v),
                },
            },
        ),
{
    let pc = m.phase->pc;
    let seen = seen_of(m.phase);
    assert(resume(m.body, pc + 2, false, false, v, seen.push(v)) is Suspended);
    assert(resume(m.body, pc + 1, false, false, v, seen) is Suspended);
}

/// A value the coroutine writes before it suspends is the value the caller
/// reads from the container.
pub proof fn body_writes_reach_caller<T>(m: ContainerModel<T>, v: T)
    requires
        m.phase matches Phase::Running { pc, waiting, .. } && {
            &&& waiting
            &&& pc + 2 < m.body.len()
            &&& m.body[pc as int] is Yield
            &&& m.body[pc + 1 as int] == Op::Write(v)
            &&& m.body[pc + 2 as int] is Yield
        },
    ensures
        step_spec(m).0 == Ok::<Poll, CoroutineError>(Poll::Pending),
        step_spec(m).1.data == v,
{
    let pc = m.phase->pc;
    let seen = seen_of(m.phase);
    assert(resume(m.body, pc + 2, false, false, v, seen) is Suspended);
    assert(resume(m.body, pc + 1, false, false, m.data, seen) is Suspended);
}

} // verus!
