use std::sync::atomic::{AtomicUsize, Ordering};
use std::sync::Arc;
use std::task::{Context, Wake, Waker};
use std::time::{Duration, Instant};

use async_lock::text::debug_frame;
use async_lock::mutex::exceeds_starvation_limit;
use async_lock::{Mutex, Step};

struct WakeCount(AtomicUsize);

impl Wake for WakeCount {
    fn wake(self: Arc<Self>) {
        self.0.fetch_add(1, Ordering::SeqCst);
    }
}

fn waker() -> Waker {
    Waker::from(Arc::new(WakeCount(AtomicUsize::new(0))))
}

/// Runs turns of an acquisition until it completes (`Some`) or has to wait (`None`).
fn turns<G>(mut turn: impl FnMut(&mut Context<'_>) -> Step<G>) -> Option<G> {
    let waker = waker();
    let mut cx = Context::from_waker(&waker);
    for _ in 0..100 {
        match turn(&mut cx) {
            Step::Ready(guard) => return Some(guard),
            Step::Pending => return None,
            Step::Again => {}
        }
    }
    None
}

#[test]
fn mutex_smoke() {
    let mut m = Mutex::new(());
    let mut l = m.lock();
    let guard = turns(|cx| l.poll_step(&mut m, cx)).unwrap();
    guard.release(&mut m);
    let mut l = m.lock();
    let guard = turns(|cx| l.poll_step(&mut m, cx)).unwrap();
    guard.release(&mut m);
}

#[test]
fn mutex_try_lock() {
    let mut m = Mutex::new(());
    let guard = m.try_lock().unwrap();
    *guard.deref_mut(&mut m) = ();
}

#[test]
fn mutex_into_inner() {
    let m = Mutex::new(10i32);
    assert_eq!(m.into_inner(), 10);
}

#[test]
fn mutex_get_mut() {
    let mut m = Mutex::new(10i32);
    *m.get_mut() = 20;
    assert_eq!(m.into_inner(), 20);
}

#[test]
fn lock_then_try_lock() {
    let mut m = Mutex::new(1);
    let mut l = m.lock();
    let guard = turns(|cx| l.poll_step(&mut m, cx)).unwrap();
    *guard.deref_mut(&mut m) = 2;
    assert!(m.try_lock().is_none());
    guard.release(&mut m);
    let guard = m.try_lock().unwrap();
    assert_eq!(*guard.deref(&m), 2);
}

#[test]
fn waiting_lock_is_woken_by_unlock() {
    let mut m = Mutex::new(0);
    let holder = m.try_lock().unwrap();
    let mut l = m.lock();
    // The fast path fails, the slow path listens and waits.
    assert!(turns(|cx| l.poll_step(&mut m, cx)).is_none());
    holder.release(&mut m);
    let guard = turns(|cx| l.poll_step(&mut m, cx)).unwrap();
    *guard.deref_mut(&mut m) += 1;
    guard.release(&mut m);
    assert_eq!(m.into_inner(), 1);
}

#[test]
fn starved_lock_is_served_first() {
    let mut m = Mutex::new(0);
    let holder = m.try_lock().unwrap();
    let mut l = m.lock();
    assert!(turns(|cx| l.poll_step(&mut m, cx)).is_none());
    // The holder leaves, which notifies the waiting operation, but a newcomer
    // takes the mutex on the fast path first.
    holder.release(&mut m);
    let newcomer = m.try_lock().unwrap();
    // After losing for longer than 0.5 ms, the waiting operation starves.
    let start = Instant::now();
    while start.elapsed() < Duration::from_millis(2) {}
    assert!(turns(|cx| l.poll_step(&mut m, cx)).is_none());
    newcomer.release(&mut m);
    // With a starved operation around, the fast path is closed...
    assert!(m.try_lock().is_none());
    // ...and the starved operation takes the mutex.
    let guard = turns(|cx| l.poll_step(&mut m, cx)).unwrap();
    guard.release(&mut m);
    // Once served, the starved count is back to zero.
    assert!(m.try_lock().is_some());
}

#[test]
fn cancelled_lock_leaves_mutex_usable() {
    let mut m = Mutex::new(0);
    let holder = m.try_lock().unwrap();
    let mut l = m.lock();
    assert!(turns(|cx| l.poll_step(&mut m, cx)).is_none());
    l.cancel(&mut m);
    holder.release(&mut m);
    assert!(m.try_lock().is_some());
}

#[test]
fn default_mutex_is_unlocked() {
    let mut m: Mutex<u32> = Mutex::default();
    let guard = m.try_lock().unwrap();
    assert_eq!(*guard.deref(&m), 0);
}

#[test]
fn mutex_contention() {
    let mut mutex = Mutex::new(0i32);
    let num_tasks = 100;

    // Every task starts locking; they are then polled in turn until done.
    let mut ops: Vec<_> = (0..num_tasks).map(|_| Some(mutex.lock())).collect();
    let mut done = 0;
    while done < num_tasks {
        for op in ops.iter_mut() {
            if let Some(lock) = op {
                if let Some(guard) = turns(|cx| lock.poll_step(&mut mutex, cx)) {
                    *guard.deref_mut(&mut mutex) += 1;
                    guard.release(&mut mutex);
                    *op = None;
                    done += 1;
                }
            }
        }
    }

    let guard = mutex.try_lock().unwrap();
    assert_eq!(num_tasks, *guard.deref(&mutex));
}

#[test]
fn mutex_debug_text() {
    let mut m = Mutex::new(10);
    assert_eq!(m.debug_string(), "Mutex { data: 10 }");
    let guard = m.try_lock().unwrap();
    assert_eq!(m.debug_string(), "Mutex { data: <locked> }");
    guard.release(&mut m);
    assert_eq!(m.debug_string(), "Mutex { data: 10 }");
}

#[test]
fn debug_frame_text() {
    assert_eq!(debug_frame("Mutex", "data", Some("10")), "Mutex { data: 10 }");
    assert_eq!(debug_frame("RwLock", "value", None), "RwLock { value: <locked> }");
}

#[test]
fn starvation_room_on_fresh_mutex() {
    let m = Mutex::new(());
    assert!(m.starvation_room());
}

#[test]
fn starvation_limit_is_half_a_millisecond() {
    assert!(!exceeds_starvation_limit(0));
    assert!(!exceeds_starvation_limit(500_000));
    assert!(exceeds_starvation_limit(500_001));
}

#[test]
fn mutex_from_value() {
    let mut m = Mutex::from(7u32);
    let guard = m.try_lock().unwrap();
    assert_eq!(*guard.deref(&m), 7);
    guard.release(&mut m);
    assert_eq!(m.into_inner(), 7);
}
