use std::sync::atomic::{AtomicUsize, Ordering};
use std::sync::Arc;
use std::task::{Context, Wake, Waker};

use async_lock::{Barrier, BarrierWaitResult, Step};

struct WakeCount(AtomicUsize);

impl Wake for WakeCount {
    fn wake(self: Arc<Self>) {
        self.0.fetch_add(1, Ordering::SeqCst);
    }
}

fn waker() -> Waker {
    Waker::from(Arc::new(WakeCount(AtomicUsize::new(0))))
}

/// Runs turns of a wait until it completes (`Some`) or has to wait (`None`).
fn turns(mut turn: impl FnMut(&mut Context<'_>) -> Step<BarrierWaitResult>) -> Option<BarrierWaitResult> {
    let waker = waker();
    let mut cx = Context::from_waker(&waker);
    for _ in 0..100 {
        match turn(&mut cx) {
            Step::Ready(r) => return Some(r),
            Step::Pending => return None,
            Step::Again => {}
        }
    }
    None
}

#[test]
fn single_task_barrier_leads() {
    let mut barrier = Barrier::new(1);
    let mut w = barrier.wait();
    let r = turns(|cx| w.poll_step(&mut barrier, cx)).unwrap();
    assert!(r.is_leader());
}

#[test]
fn two_tasks_last_one_leads() {
    let mut barrier = Barrier::new(2);
    let mut a = barrier.wait();
    let mut b = barrier.wait();
    assert!(turns(|cx| a.poll_step(&mut barrier, cx)).is_none());
    let rb = turns(|cx| b.poll_step(&mut barrier, cx)).unwrap();
    let ra = turns(|cx| a.poll_step(&mut barrier, cx)).unwrap();
    assert_eq!(ra.is_leader(), false);
    assert_eq!(rb.is_leader(), true);
}

#[test]
fn barrier_is_reusable() {
    let mut barrier = Barrier::new(3);
    for _ in 0..2 {
        let mut a = barrier.wait();
        let mut b = barrier.wait();
        let mut c = barrier.wait();
        assert!(turns(|cx| a.poll_step(&mut barrier, cx)).is_none());
        assert!(turns(|cx| b.poll_step(&mut barrier, cx)).is_none());
        let rc = turns(|cx| c.poll_step(&mut barrier, cx)).unwrap();
        assert!(rc.is_leader());
        assert!(!turns(|cx| a.poll_step(&mut barrier, cx)).unwrap().is_leader());
        assert!(!turns(|cx| b.poll_step(&mut barrier, cx)).unwrap().is_leader());
    }
}

#[test]
fn zero_task_barrier_releases_at_once() {
    let mut barrier = Barrier::new(0);
    let mut w = barrier.wait();
    assert!(turns(|cx| w.poll_step(&mut barrier, cx)).unwrap().is_leader());
}

#[test]
fn cancelled_wait_still_counts_its_arrival() {
    let mut barrier = Barrier::new(2);
    let mut a = barrier.wait();
    assert!(turns(|cx| a.poll_step(&mut barrier, cx)).is_none());
    a.cancel(&mut barrier);
    let mut b = barrier.wait();
    assert!(turns(|cx| b.poll_step(&mut barrier, cx)).unwrap().is_leader());
}

#[test]
fn leader_wakes_the_waiting_task() {
    let count = Arc::new(WakeCount(AtomicUsize::new(0)));
    let waiting = Waker::from(count.clone());
    let mut barrier = Barrier::new(2);
    let mut a = barrier.wait();
    let mut b = barrier.wait();
    {
        let mut cx = Context::from_waker(&waiting);
        let mut pending = false;
        for _ in 0..100 {
            match a.poll_step(&mut barrier, &mut cx) {
                Step::Pending => {
                    pending = true;
                    break;
                }
                Step::Again => {}
                Step::Ready(_) => panic!("the first task cannot finish alone"),
            }
        }
        assert!(pending);
    }
    assert_eq!(count.0.load(Ordering::SeqCst), 0);
    let rb = turns(|cx| b.poll_step(&mut barrier, cx)).unwrap();
    assert!(rb.is_leader());
    assert_eq!(count.0.load(Ordering::SeqCst), 1);
    let ra = turns(|cx| a.poll_step(&mut barrier, cx)).unwrap();
    assert!(!ra.is_leader());
}
