use sharing_coroutines::waker::create;
use sharing_coroutines::{
    fyield, CoroutineError, FutureContainer, NullWaker, Op, Poll, PointerWrapper, ScriptFuture,
};

fn demo_body() -> Vec<Op<u32>> {
    vec![Op::Read, Op::Write(42), Op::Yield, Op::Read, Op::Yield, Op::Read]
}

#[test]
fn main() {
    let mut future_container = FutureContainer::new(1u32, demo_body());
    future_container.init().unwrap();

    println!("poll {}", *future_container.data());
    assert_eq!(*future_container.data(), 1);
    assert_eq!(future_container.poll(), Ok(Poll::Pending));
    println!("poll {}", *future_container.data());
    assert_eq!(*future_container.data(), 42);
    assert_eq!(future_container.poll(), Ok(Poll::Pending));
    println!("poll {}", *future_container.data());
    assert_eq!(*future_container.data(), 42);
    *future_container.data() = 1337;
    assert_eq!(future_container.poll(), Ok(Poll::Ready));
    assert_eq!(future_container.observed(), vec![1, 42, 1337]);
}

#[test]
fn step_before_init_fails() {
    let mut c = FutureContainer::new(5u32, demo_body());
    assert!(!c.is_init());
    assert_eq!(c.poll(), Err(CoroutineError::NotInitialized));
    assert_eq!(*c.data(), 5);
    assert!(!c.is_init());
}

#[test]
fn init_twice_fails() {
    let mut c = FutureContainer::new(5u32, demo_body());
    assert_eq!(c.init(), Ok(()));
    assert!(c.is_init());
    assert_eq!(c.init(), Err(CoroutineError::AlreadyInitialized));
    assert_eq!(c.poll(), Ok(Poll::Pending));
    assert_eq!(c.init(), Err(CoroutineError::AlreadyInitialized));
}

#[test]
fn suspension_point_suspends_once() {
    let cx = create();
    let mut y = fyield();
    assert_eq!(y.poll(&cx), Poll::Pending);
    assert_eq!(y.poll(&cx), Poll::Ready);
    assert_eq!(y.poll(&cx), Poll::Ready);
    assert_eq!(y.poll(&cx), Poll::Ready);
}

#[test]
fn suspensions_match_yield_count() {
    let body = vec![Op::Yield, Op::Read, Op::Yield, Op::Write(3), Op::Yield];
    let mut c = FutureContainer::new(0u64, body);
    c.init().unwrap();
    let mut pending: u32 = 0;
    let mut ready: u32 = 0;
    for _ in 0..6 {
        match c.poll() {
            Ok(Poll::Pending) => pending += 1,
            Ok(Poll::Ready) => ready += 1,
            Err(e) => assert_eq!(e, CoroutineError::Completed),
        }
    }
    assert_eq!(pending, 3);
    assert_eq!(ready, 1);
    assert_eq!(*c.data(), 3);
}

#[test]
fn body_without_yield_completes_on_first_step() {
    let mut c = FutureContainer::new(7u32, vec![Op::Read]);
    c.init().unwrap();
    assert_eq!(c.poll(), Ok(Poll::Ready));
    assert_eq!(c.poll(), Err(CoroutineError::Completed));
    assert_eq!(c.observed(), vec![7]);
}

#[test]
fn empty_body_completes_at_once() {
    let mut c = FutureContainer::new(7u32, Vec::new());
    c.init().unwrap();
    assert_eq!(c.poll(), Ok(Poll::Ready));
    assert!(c.is_init());
    assert_eq!(c.observed(), Vec::<u32>::new());
}

#[test]
fn lock_held_across_yield_fails() {
    let body = vec![Op::Read, Op::Acquire, Op::Write(9), Op::Yield, Op::Release];
    let mut c = FutureContainer::new(1u32, body);
    c.init().unwrap();
    assert_eq!(c.poll(), Err(CoroutineError::LockHeld));
    assert!(!c.is_init());
    assert_eq!(*c.data(), 9);
    assert_eq!(c.poll(), Err(CoroutineError::NotInitialized));
}

#[test]
fn lock_released_before_yield_succeeds() {
    let body = vec![Op::Acquire, Op::Write(9), Op::Release, Op::Yield, Op::Read];
    let mut c = FutureContainer::new(1u32, body);
    c.init().unwrap();
    assert_eq!(c.poll(), Ok(Poll::Pending));
    assert_eq!(*c.data(), 9);
    assert_eq!(c.poll(), Ok(Poll::Ready));
    assert_eq!(c.observed(), vec![9]);
}

#[test]
fn lock_taken_twice_fails() {
    let body = vec![Op::Acquire, Op::Read, Op::Acquire, Op::Yield];
    let mut c = FutureContainer::new(4u32, body);
    c.init().unwrap();
    assert_eq!(c.poll(), Err(CoroutineError::AlreadyLocked));
    assert!(!c.is_init());
}

#[test]
fn held_lock_is_released_at_completion() {
    let body = vec![Op::Yield, Op::Acquire, Op::Write(2)];
    let mut c = FutureContainer::new(0u32, body);
    c.init().unwrap();
    assert_eq!(c.poll(), Ok(Poll::Pending));
    assert_eq!(c.poll(), Ok(Poll::Ready));
    assert_eq!(*c.data(), 2);
}

#[test]
fn caller_write_seen_by_body() {
    let body = vec![Op::Yield, Op::Read, Op::Yield];
    let mut c = FutureContainer::new(0u32, body);
    c.init().unwrap();
    assert_eq!(c.poll(), Ok(Poll::Pending));
    *c.data() = 77;
    assert_eq!(c.poll(), Ok(Poll::Pending));
    assert_eq!(c.observed(), vec![77]);
}

#[test]
fn body_write_seen_by_caller() {
    let body = vec![Op::Yield, Op::Write(55), Op::Yield];
    let mut c = FutureContainer::new(0u32, body);
    c.init().unwrap();
    assert_eq!(c.poll(), Ok(Poll::Pending));
    assert_eq!(*c.data(), 0);
    assert_eq!(c.poll(), Ok(Poll::Pending));
    assert_eq!(*c.data(), 55);
}

#[test]
fn end_to_end_trace() {
    let mut c = FutureContainer::new(1u32, demo_body());
    c.init().unwrap();
    assert_eq!(*c.data(), 1);
    assert_eq!(c.poll(), Ok(Poll::Pending));
    assert_eq!(*c.data(), 42);
    assert_eq!(c.observed(), vec![1]);
    assert_eq!(c.poll(), Ok(Poll::Pending));
    assert_eq!(c.observed(), vec![1, 42]);
    *c.data() = 1337;
    assert_eq!(c.poll(), Ok(Poll::Ready));
    assert_eq!(c.observed(), vec![1, 42, 1337]);
}

#[test]
fn fourth_step_after_completion_fails() {
    let mut c = FutureContainer::new(1u32, demo_body());
    c.init().unwrap();
    assert_eq!(c.poll(), Ok(Poll::Pending));
    assert_eq!(c.poll(), Ok(Poll::Pending));
    *c.data() = 1337;
    assert_eq!(c.poll(), Ok(Poll::Ready));
    assert_eq!(c.poll(), Err(CoroutineError::Completed));
    assert_eq!(c.poll(), Err(CoroutineError::Completed));
    assert_eq!(*c.data(), 1337);
}

#[test]
fn clear_allows_reinit() {
    let mut c = FutureContainer::new(1u32, demo_body());
    c.init().unwrap();
    assert_eq!(c.poll(), Ok(Poll::Pending));
    c.clear();
    assert!(!c.is_init());
    assert_eq!(c.observed(), Vec::<u32>::new());
    assert_eq!(c.init(), Ok(()));
    assert_eq!(c.poll(), Ok(Poll::Pending));
    assert_eq!(c.observed(), vec![42]);
}

#[test]
fn pointer_wrapper_lock_discipline() {
    let mut w = PointerWrapper::new(10i32);
    let g = w.lock().unwrap();
    assert!(w.data_locked);
    assert!(matches!(w.lock(), Err(CoroutineError::AlreadyLocked)));
    *g.deref_mut(&mut w) = 11;
    assert_eq!(*g.deref(&w), 11);
    g.release(&mut w);
    assert!(!w.data_locked);
    assert_eq!(w.data, 11);
    assert!(w.lock().is_ok());
}

#[test]
fn script_future_runs_segments() {
    let cx = create();
    let mut w = PointerWrapper::new(3u8);
    let mut f = ScriptFuture::new(vec![Op::Read, Op::Yield, Op::Write(8), Op::Read]);
    assert_eq!(f.poll(&mut w, &cx), Ok(Poll::Pending));
    assert!(!f.is_finished());
    assert_eq!(f.poll(&mut w, &cx), Ok(Poll::Ready));
    assert!(f.is_finished());
    assert_eq!(f.seen().clone(), vec![3, 8]);
    assert_eq!(w.data, 8);
}

#[test]
fn null_waker_does_nothing() {
    let w: NullWaker = create();
    w.wake_by_ref();
    let copy = w;
    copy.wake();
    assert_eq!(w, create());
}
