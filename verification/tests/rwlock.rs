use std::sync::atomic::{AtomicUsize, Ordering};
use std::sync::Arc;
use std::task::{Context, Wake, Waker};

use async_lock::{RwLock, RwLockUpgradableReadGuard, RwLockWriteGuard, Step};

struct WakeCount(AtomicUsize);

impl Wake for WakeCount {
    fn wake(self: Arc<Self>) {
        self.0.fetch_add(1, Ordering::SeqCst);
    }
}

fn waker() -> Waker {
    Waker::from(Arc::new(WakeCount(AtomicUsize::new(0))))
}

/// Runs turns of an acquisition until it completes (`Some`) or has to wait (`None`).
fn turns<G>(mut turn: impl FnMut(&mut Context<'_>) -> Step<G>) -> Option<G> {
    let waker = waker();
    let mut cx = Context::from_waker(&waker);
    for _ in 0..100 {
        match turn(&mut cx) {
            Step::Ready(guard) => return Some(guard),
            Step::Pending => return None,
            Step::Again => {}
        }
    }
    None
}

#[test]
fn std_smoke() {
    let mut lock = RwLock::new(());
    let mut read = lock.read();
    let guard = turns(|cx| read.poll_step(&mut lock, cx)).unwrap();
    guard.release(&mut lock);
    let mut write = lock.write();
    let guard = turns(|cx| write.poll_step(&mut lock, cx)).unwrap();
    guard.release(&mut lock);
    let mut r1 = lock.read();
    let g1 = turns(|cx| r1.poll_step(&mut lock, cx)).unwrap();
    let mut r2 = lock.read();
    let g2 = turns(|cx| r2.poll_step(&mut lock, cx)).unwrap();
    g1.release(&mut lock);
    g2.release(&mut lock);
    let mut write = lock.write();
    let guard = turns(|cx| write.poll_step(&mut lock, cx)).unwrap();
    guard.release(&mut lock);
}

#[test]
fn try_write() {
    let mut lock = RwLock::new(0isize);
    let mut read = lock.read();
    let read_guard = turns(|cx| read.poll_step(&mut lock, cx)).unwrap();
    assert!(lock.try_write().is_none());
    read_guard.release(&mut lock);
}

#[test]
fn std_into_inner() {
    let lock = RwLock::new(10);
    assert_eq!(lock.into_inner(), 10);
}

#[test]
fn into_inner_and_drop() {
    struct Counter(Arc<AtomicUsize>);

    impl Drop for Counter {
        fn drop(&mut self) {
            self.0.fetch_add(1, Ordering::SeqCst);
        }
    }

    let cnt = Arc::new(AtomicUsize::new(0));
    let lock = RwLock::new(Counter(cnt.clone()));
    assert_eq!(cnt.load(Ordering::SeqCst), 0);

    {
        let _inner = lock.into_inner();
        assert_eq!(cnt.load(Ordering::SeqCst), 0);
    }

    assert_eq!(cnt.load(Ordering::SeqCst), 1);
}

#[test]
fn std_get_mut() {
    let mut lock = RwLock::new(10);
    *lock.get_mut() = 20;
    assert_eq!(lock.into_inner(), 20);
}

#[test]
fn upgrade() {
    let mut lock: RwLock<i32> = RwLock::new(0);

    let mut r = lock.read();
    let read_guard = turns(|cx| r.poll_step(&mut lock, cx)).unwrap();
    let mut r = lock.read();
    let read_guard2 = turns(|cx| r.poll_step(&mut lock, cx)).unwrap();
    // Should be able to obtain an upgradable lock.
    let mut u = lock.upgradable_read();
    let upgradable_guard = turns(|cx| u.poll_step(&mut lock, cx)).unwrap();
    // Should be able to obtain a read lock when an upgradable lock is active.
    let mut r = lock.read();
    let read_guard3 = turns(|cx| r.poll_step(&mut lock, cx)).unwrap();
    assert_eq!(0, *read_guard3.deref(&lock));
    read_guard.release(&mut lock);
    read_guard2.release(&mut lock);
    read_guard3.release(&mut lock);

    // Writers should not pass.
    assert!(lock.try_write().is_none());

    let write_guard = match RwLockUpgradableReadGuard::try_upgrade(upgradable_guard, &mut lock) {
        Ok(guard) => guard,
        Err(_) => panic!("should be able to upgrade an upgradable lock because there are no more readers"),
    };
    *write_guard.deref_mut(&mut lock) += 1;
    write_guard.release(&mut lock);

    let mut r = lock.read();
    let read_guard = turns(|cx| r.poll_step(&mut lock, cx)).unwrap();
    assert_eq!(1, *read_guard.deref(&lock));
}

#[test]
fn not_upgrade() {
    let mut mutex: RwLock<i32> = RwLock::new(0);

    let mut r = mutex.read();
    let read_guard = turns(|cx| r.poll_step(&mut mutex, cx)).unwrap();
    let mut r = mutex.read();
    let read_guard2 = turns(|cx| r.poll_step(&mut mutex, cx)).unwrap();
    // Should be able to obtain an upgradable lock.
    let mut u = mutex.upgradable_read();
    let upgradable_guard = turns(|cx| u.poll_step(&mut mutex, cx)).unwrap();
    // Should be able to obtain a shared lock when an upgradable lock is active.
    let mut r = mutex.read();
    let read_guard3 = turns(|cx| r.poll_step(&mut mutex, cx)).unwrap();
    assert_eq!(0, *read_guard3.deref(&mutex));
    read_guard.release(&mut mutex);
    read_guard2.release(&mut mutex);
    read_guard3.release(&mut mutex);

    // Drop the upgradable lock.
    upgradable_guard.release(&mut mutex);

    let mut r = mutex.read();
    let read_guard = turns(|cx| r.poll_step(&mut mutex, cx)).unwrap();
    assert_eq!(0, *read_guard.deref(&mutex));
    read_guard.release(&mut mutex);

    // Should be able to acquire a write lock because there are no more readers.
    let mut w = mutex.write();
    let write_guard = turns(|cx| w.poll_step(&mut mutex, cx)).unwrap();
    *write_guard.deref_mut(&mut mutex) += 1;
    write_guard.release(&mut mutex);

    let mut r = mutex.read();
    let read_guard = turns(|cx| r.poll_step(&mut mutex, cx)).unwrap();
    assert_eq!(1, *read_guard.deref(&mutex));
}

#[test]
fn upgradable_with_concurrent_writer() {
    let mut lock: RwLock<i32> = RwLock::new(0);

    let mut u = lock.upgradable_read();
    let upgradable_guard = turns(|cx| u.poll_step(&mut lock, cx)).unwrap();

    // The writer goes first and has to wait for the upgradable reader.
    let mut w = lock.write();
    assert!(turns(|cx| w.poll_step(&mut lock, cx)).is_none());

    // The upgrade completes at once: no other readers.
    let mut up = RwLockUpgradableReadGuard::upgrade(upgradable_guard, &mut lock);
    let write_guard = turns(|cx| up.poll_step(&mut lock, cx)).unwrap();
    assert_eq!(*write_guard.deref(&lock), 0);
    *write_guard.deref_mut(&mut lock) = 2;
    write_guard.release(&mut lock);

    // The race is over: the waiting writer is abandoned.
    w.cancel(&mut lock);

    let mut w = lock.write();
    let write_guard = turns(|cx| w.poll_step(&mut lock, cx)).unwrap();
    assert_eq!(2, *write_guard.deref(&lock));
    write_guard.release(&mut lock);

    let mut r = lock.read();
    let read_guard = turns(|cx| r.poll_step(&mut lock, cx)).unwrap();
    assert_eq!(2, *read_guard.deref(&lock));
}

#[test]
fn readers_share_writer_excludes() {
    let mut lock = RwLock::new(5);
    let r1 = lock.try_read().unwrap();
    let r2 = lock.try_read().unwrap();
    assert_eq!(*r1.deref(&lock), 5);
    assert_eq!(*r2.deref(&lock), 5);
    assert!(lock.try_write().is_none());
    r1.release(&mut lock);
    r2.release(&mut lock);
    let w = lock.try_write().unwrap();
    *w.deref_mut(&mut lock) += 1;
    assert_eq!(*w.deref(&lock), 6);
    assert!(lock.try_read().is_none());
    assert!(lock.try_upgradable_read().is_none());
    assert!(lock.try_write().is_none());
    w.release(&mut lock);
    assert!(lock.try_read().is_some());
}

#[test]
fn writer_waits_for_readers_and_blocks_new_ones() {
    let mut lock = RwLock::new(1);
    let reader = lock.try_read().unwrap();
    let mut w = lock.write();
    // The writer takes the mutex, announces itself and waits for the reader.
    assert!(turns(|cx| w.poll_step(&mut lock, cx)).is_none());
    // Write-preferring: no new reader comes in while the writer waits.
    assert!(lock.try_read().is_none());
    let mut r = lock.read();
    assert!(turns(|cx| r.poll_step(&mut lock, cx)).is_none());
    reader.release(&mut lock);
    let writer = turns(|cx| w.poll_step(&mut lock, cx)).unwrap();
    *writer.deref_mut(&mut lock) = 7;
    writer.release(&mut lock);
    let reader = turns(|cx| r.poll_step(&mut lock, cx)).unwrap();
    assert_eq!(*reader.deref(&lock), 7);
}

#[test]
fn write_downgrade() {
    let mut lock = RwLock::new(1);
    let writer = lock.try_write().unwrap();
    *writer.deref_mut(&mut lock) += 1;
    assert!(lock.try_read().is_none());
    let reader = RwLockWriteGuard::downgrade(writer, &mut lock);
    assert_eq!(*reader.deref(&lock), 2);
    let other = lock.try_read().unwrap();
    other.release(&mut lock);
    reader.release(&mut lock);
    assert!(lock.try_write().is_some());
}

#[test]
fn write_downgrade_to_upgradable() {
    let mut lock = RwLock::new(1);
    let writer = lock.try_write().unwrap();
    *writer.deref_mut(&mut lock) += 1;
    let reader = RwLockWriteGuard::downgrade_to_upgradable(writer, &mut lock);
    assert_eq!(*reader.deref(&lock), 2);
    assert!(lock.try_write().is_none());
    let other = lock.try_read().unwrap();
    other.release(&mut lock);
    assert!(RwLockUpgradableReadGuard::try_upgrade(reader, &mut lock).is_ok());
}

#[test]
fn upgradable_downgrade_and_try_upgrade_failure() {
    let mut lock = RwLock::new(1);
    let reader = lock.try_upgradable_read().unwrap();
    assert!(lock.try_upgradable_read().is_none());
    let reader2 = lock.try_read().unwrap();
    let reader = match RwLockUpgradableReadGuard::try_upgrade(reader, &mut lock) {
        Ok(_) => panic!("another reader is active"),
        Err(guard) => guard,
    };
    reader2.release(&mut lock);
    let reader = RwLockUpgradableReadGuard::downgrade(reader, &mut lock);
    let again = lock.try_upgradable_read().unwrap();
    again.release(&mut lock);
    reader.release(&mut lock);
    assert!(lock.try_write().is_some());
}

#[test]
fn upgrade_waits_for_readers() {
    let mut lock = RwLock::new(3);
    let up = lock.try_upgradable_read().unwrap();
    let reader = lock.try_read().unwrap();
    let mut upgrade = RwLockUpgradableReadGuard::upgrade(up, &mut lock);
    assert!(turns(|cx| upgrade.poll_step(&mut lock, cx)).is_none());
    // The announced writer keeps new readers out.
    assert!(lock.try_read().is_none());
    reader.release(&mut lock);
    let writer = turns(|cx| upgrade.poll_step(&mut lock, cx)).unwrap();
    *writer.deref_mut(&mut lock) = 4;
    writer.release(&mut lock);
    assert_eq!(lock.into_inner(), 4);
}

#[test]
fn default_lock_is_free() {
    let mut lock: RwLock<u8> = RwLock::default();
    assert!(lock.try_write().is_some());
}

#[test]
fn std_contention() {
    const N: u32 = 10;
    const M: usize = 1000;

    let mut rw = RwLock::new(());
    // A small linear congruential generator stands in for random choices.
    let mut seed: u32 = 12345;
    let mut next = move || {
        seed = seed.wrapping_mul(1_103_515_245).wrapping_add(12_345);
        (seed >> 16) % N
    };

    // N tasks that acquire the lock M times, for writing once in N times.
    let mut remaining = vec![M; N as usize];
    while remaining.iter().any(|&m| m > 0) {
        for task in 0..N as usize {
            if remaining[task] == 0 {
                continue;
            }
            if next() == 0 {
                let mut w = rw.write();
                let guard = turns(|cx| w.poll_step(&mut rw, cx)).unwrap();
                guard.release(&mut rw);
            } else {
                let mut r = rw.read();
                let guard = turns(|cx| r.poll_step(&mut rw, cx)).unwrap();
                guard.release(&mut rw);
            }
            remaining[task] -= 1;
        }
    }
}

#[test]
fn writer_and_readers() {
    let mut lock = RwLock::new(0i32);

    // The writer takes the lock and works in 1000 steps, leaving the value
    // at -1 between them.
    let mut w = lock.write();
    let writer = turns(|cx| w.poll_step(&mut lock, cx)).unwrap();

    // Readers try to catch the writer in the act.
    let mut readers: Vec<_> = (0..5).map(|_| lock.read()).collect();
    for _ in 0..1000 {
        let tmp = *writer.deref(&lock);
        *writer.deref_mut(&mut lock) = -1;
        for r in readers.iter_mut() {
            assert!(turns(|cx| r.poll_step(&mut lock, cx)).is_none());
        }
        *writer.deref_mut(&mut lock) = tmp + 1;
    }
    writer.release(&mut lock);

    for r in readers.iter_mut() {
        for _ in 0..1000 {
            let guard = turns(|cx| r.poll_step(&mut lock, cx)).unwrap();
            assert!(*guard.deref(&lock) >= 0);
            guard.release(&mut lock);
            *r = lock.read();
        }
    }

    let mut r = lock.read();
    let guard = turns(|cx| r.poll_step(&mut lock, cx)).unwrap();
    assert_eq!(*guard.deref(&lock), 1000);
}

#[test]
fn rwlock_debug_text() {
    let mut lock = RwLock::new("a");
    assert_eq!(lock.debug_string(), "RwLock { value: \"a\" }");
    let reader = lock.try_read().unwrap();
    assert_eq!(lock.debug_string(), "RwLock { value: \"a\" }");
    reader.release(&mut lock);
    let writer = lock.try_write().unwrap();
    assert_eq!(lock.debug_string(), "RwLock { value: <locked> }");
    writer.release(&mut lock);
}

#[test]
fn rwlock_from_value() {
    let mut lock = RwLock::from(4u8);
    let guard = lock.try_write().unwrap();
    assert_eq!(*guard.deref(&lock), 4);
    guard.release(&mut lock);
    assert_eq!(lock.into_inner(), 4);
}
