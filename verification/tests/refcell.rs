use std::sync::atomic::{AtomicUsize, Ordering};
use std::sync::Arc;
use std::task::{Context, Wake, Waker};

use async_lock::refcell::raw::RawRefCell;
use async_lock::{RefCell, Step};

struct WakeCount(AtomicUsize);

impl Wake for WakeCount {
    fn wake(self: Arc<Self>) {
        self.0.fetch_add(1, Ordering::SeqCst);
    }
}

fn counted_waker() -> (Arc<WakeCount>, Waker) {
    let count = Arc::new(WakeCount(AtomicUsize::new(0)));
    (count.clone(), Waker::from(count))
}

#[test]
fn test_refcell() {
    let (_, waker) = counted_waker();
    let mut cx = Context::from_waker(&waker);
    let mut vec = RefCell::new(Vec::new());

    let mut idx = 1;
    loop {
        {
            let fut = vec.borrow_mut();
            let guard = match fut.poll(&mut vec, &mut cx) {
                Step::Ready(guard) => guard,
                _ => panic!("the cell is free"),
            };
            let new_val = (((idx + 10) * 4) + idx + 3) / 3;
            guard.deref_mut(&mut vec).push(new_val);
            guard.release(&mut vec);
        }
        {
            let fut = vec.borrow();
            let guard = match fut.poll(&mut vec, &mut cx) {
                Step::Ready(guard) => guard,
                _ => panic!("no mutable borrow is active"),
            };
            assert_eq!(guard.deref(&vec).len(), idx as usize);
            guard.release(&mut vec);
        }
        idx += 1;
        if idx == 10 {
            break;
        }
    }

    let fut = vec.borrow_mut();
    let guard = match fut.poll(&mut vec, &mut cx) {
        Step::Ready(guard) => guard,
        _ => panic!("the cell is free"),
    };
    assert_eq!(*guard.deref(&vec), vec![16, 17, 19, 21, 22, 24, 26, 27, 29]);
    guard.deref_mut(&mut vec).clear();
    guard.release(&mut vec);

    let r = vec.try_borrow().unwrap();
    assert!(r.deref(&vec).is_empty());
    r.release(&mut vec);
}

#[test]
fn borrows_exclude_mutable_borrow() {
    let mut cell = RefCell::new(3);
    let a = cell.try_borrow().unwrap();
    let b = cell.try_borrow().unwrap();
    assert!(cell.try_borrow_mut().is_none());
    a.release(&mut cell);
    assert!(cell.try_borrow_mut().is_none());
    b.release(&mut cell);
    let m = cell.try_borrow_mut().unwrap();
    assert!(cell.try_borrow().is_none());
    assert!(cell.try_borrow_mut().is_none());
    *m.deref_mut(&mut cell) = 4;
    m.release(&mut cell);
    let a = cell.try_borrow().unwrap();
    assert_eq!(*a.deref(&cell), 4);
}

#[test]
fn waiting_borrows_are_woken() {
    let (count, waker) = counted_waker();
    let mut cx = Context::from_waker(&waker);
    let mut cell = RefCell::new(0);
    let m = cell.try_borrow_mut().unwrap();
    let b1 = cell.borrow();
    let b2 = cell.borrow();
    assert!(b1.poll(&mut cell, &mut cx).is_pending());
    assert!(b2.poll(&mut cell, &mut cx).is_pending());
    assert_eq!(count.0.load(Ordering::SeqCst), 0);
    // Ending the mutable borrow wakes every waiting shared borrow.
    m.release(&mut cell);
    assert_eq!(count.0.load(Ordering::SeqCst), 2);
    assert!(b1.poll(&mut cell, &mut cx).is_ready());
    assert!(b2.poll(&mut cell, &mut cx).is_ready());
}

#[test]
fn last_borrow_wakes_a_waiting_mutable_borrow() {
    let (count, waker) = counted_waker();
    let mut cx = Context::from_waker(&waker);
    let mut cell = RefCell::new(0);
    let a = cell.try_borrow().unwrap();
    let b = cell.try_borrow().unwrap();
    let m = cell.borrow_mut();
    assert!(m.poll(&mut cell, &mut cx).is_pending());
    a.release(&mut cell);
    assert_eq!(count.0.load(Ordering::SeqCst), 0);
    b.release(&mut cell);
    assert_eq!(count.0.load(Ordering::SeqCst), 1);
    assert!(m.poll(&mut cell, &mut cx).is_ready());
}

#[test]
fn mutable_borrow_is_handed_over() {
    let (count, waker) = counted_waker();
    let mut cx = Context::from_waker(&waker);
    let mut cell = RefCell::new(0);
    let m = cell.try_borrow_mut().unwrap();
    let next = cell.borrow_mut();
    assert!(next.poll(&mut cell, &mut cx).is_pending());
    // The waiting mutable borrow is woken and the borrow passes on to it.
    m.release(&mut cell);
    assert_eq!(count.0.load(Ordering::SeqCst), 1);
    assert!(cell.try_borrow().is_none());
    assert!(cell.try_borrow_mut().is_none());
    let m2 = match next.poll(&mut cell, &mut cx) {
        Step::Ready(guard) => guard,
        _ => panic!("the mutable borrow was handed over"),
    };
    *m2.deref_mut(&mut cell) = 5;
    m2.release(&mut cell);
    let r = cell.try_borrow().unwrap();
    assert_eq!(*r.deref(&cell), 5);
    r.release(&mut cell);
    assert!(cell.try_borrow_mut().is_some());
}

#[test]
fn raw_borrow_futures() {
    let mut raw = RawRefCell::new();
    let borrow = raw.borrow();
    let borrow_mut = raw.borrow_mut();
    assert!(borrow.try_borrow(&mut raw));
    assert!(!borrow_mut.try_borrow_mut(&mut raw));
    raw.borrow_unlock();
    assert!(borrow_mut.try_borrow_mut(&mut raw));
    assert!(!borrow.try_borrow(&mut raw));
    raw.borrow_mut_unlock();
    assert!(borrow.try_borrow(&mut raw));
}

#[test]
fn refcell_debug_text() {
    let mut cell = RefCell::new(vec![1, 2]);
    assert_eq!(cell.debug_string(), "RefCell { value: [1, 2] }");
    let m = cell.try_borrow_mut().unwrap();
    assert_eq!(cell.debug_string(), "RefCell { value: <locked> }");
    m.release(&mut cell);
}

#[test]
fn borrow_room_on_a_fresh_cell() {
    let mut cell = RefCell::new(3u8);
    assert!(cell.borrow_room());
    let guard = cell.try_borrow_mut().unwrap();
    assert!(cell.borrow_room());
    guard.release(&mut cell);
    assert!(cell.borrow_room());
}
