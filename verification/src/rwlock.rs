//! An async reader-writer lock: any number of readers or a single writer,
//! write-preferring, with at most one upgradable reader.
pub mod raw;

use vstd::prelude::*;
use std::task::Context;
use crate::step::Step;
use crate::text::{debug_frame, debug_frame_text, debug_text};
use std::fmt::Debug;
use self::raw::{RawRead, RawRwLock, RawUpgradableRead, RawUpgrade, RawWrite, RwState};

verus! {

/// An async reader-writer lock.
///
/// This type of lock allows multiple readers or one writer at any point in
/// time. The locking strategy is write-preferring: once a writer is waiting,
/// no new readers come in. An upgradable reader coexists with readers but not
/// with writers or another upgradable reader, and can become the writer.
pub struct RwLock<T> {
    raw: RawRwLock,
    value: T,
}

impl<T> RwLock<T> {
    /// The number of readers (upgradable ones included).
    pub closed spec fn readers(&self) -> nat {
        self.raw.readers()
    }

    /// Whether a writer holds the lock or waits for the readers to leave.
    pub closed spec fn writer(&self) -> bool {
        self.raw.writer()
    }

    /// Whether a writer or the upgradable reader holds the writers' mutex.
    pub closed spec fn writer_locked(&self) -> bool {
        self.raw.mutex_locked()
    }

    /// The number of acquisitions registered as starved on that mutex.
    pub closed spec fn starved(&self) -> nat {
        self.raw.mutex_starved()
    }

    /// The protected value.
    pub closed spec fn value(&self) -> T {
        self.value
    }

    /// The lock state.
    pub open spec fn lock_state(&self) -> RwState {
        RwState {
            readers: self.readers(),
            writer: self.writer(),
            mutex_locked: self.writer_locked(),
            mutex_starved: self.starved(),
        }
    }

    /// The lock's invariant: a writer always holds the writers' mutex.
    pub open spec fn wf(&self) -> bool {
        self.lock_state().wf()
    }

    /// Whether one more reader fits in the state word.
    pub open spec fn fits_reader(&self) -> bool {
        2 * self.readers() + (if self.writer() { 1int } else { 0int }) <= isize::MAX
    }

    /// Whether `self` and `other` have the same lock state.
    pub open spec fn same_lock_state(&self, other: &Self) -> bool {
        &&& self.readers() == other.readers()
        &&& self.writer() == other.writer()
        &&& self.writer_locked() == other.writer_locked()
        &&& self.starved() == other.starved()
    }

    /// The counts of the notifications sent to acquisitions waiting for the
    /// writers' mutex, oldest first.
    pub closed spec fn writer_notifications(&self) -> Seq<usize> {
        self.raw.mutex_notifications()
    }

    /// The counts of the notifications sent when the last reader left,
    /// oldest first.
    pub closed spec fn no_readers_sent(&self) -> Seq<usize> {
        self.raw.no_readers_sent()
    }

    /// The counts of the notifications sent when a writer left, oldest first.
    pub closed spec fn no_writer_sent(&self) -> Seq<usize> {
        self.raw.no_writer_sent()
    }

    /// Whether `self` and `other` have sent the same notifications.
    pub open spec fn same_signals(&self, other: &Self) -> bool {
        &&& self.writer_notifications() == other.writer_notifications()
        &&& self.no_readers_sent() == other.no_readers_sent()
        &&& self.no_writer_sent() == other.no_writer_sent()
    }

    /// Creates a new, unlocked reader-writer lock holding `t`.
    pub fn new(t: T) -> (r: RwLock<T>)
        ensures
            r.wf(),
            r.value() == t,
            r.readers() == 0,
            !r.writer(),
            !r.writer_locked(),
            r.starved() == 0,
            r.writer_notifications() == Seq::<usize>::empty(),
            r.no_readers_sent() == Seq::<usize>::empty(),
            r.no_writer_sent() == Seq::<usize>::empty(),
    {
        RwLock { raw: RawRwLock::new(), value: t }
    }

    /// Unwraps the lock and returns the inner value.
    pub fn into_inner(self) -> (r: T)
        ensures
            r == self.value(),
    {
        self.value
    }

    /// Whether one more acquisition can register as starved on the writers'
    /// mutex: the process is aborted when the count would pass `usize::MAX / 4`.
    pub fn starvation_room(&self) -> (r: bool)
        ensures
            r == (self.starved() <= usize::MAX / 4),
    {
        self.raw.starvation_room()
    }

    /// Whether one more reader fits in the state word: the process is
    /// aborted when a reader is added beyond it.
    pub fn reader_room(&self) -> (r: bool)
        ensures
            r == self.fits_reader(),
    {
        self.raw.reader_room()
    }

    /// Takes a read lock unless a writer holds the lock or is acquiring it.
    pub fn try_read(&mut self) -> (r: Option<RwLockReadGuard>)
        requires
            old(self).writer() || old(self).fits_reader(),
        ensures
            final(self).lock_state() == old(self).lock_state().after_try_read(),
            old(self).wf() ==> final(self).wf(),
            r is Some <==> !old(self).writer(),
            final(self).readers() == old(self).readers() + if r is Some { 1nat } else { 0nat },
            final(self).writer() == old(self).writer(),
            final(self).writer_locked() == old(self).writer_locked(),
            final(self).starved() == old(self).starved(),
            final(self).value() == old(self).value(),
            final(self).same_signals(old(self)),
    {
        if self.raw.try_read() {
            Some(RwLockReadGuard { _private: () })
        } else {
            None
        }
    }

    /// Starts acquiring a read lock; poll the returned future.
    pub fn read(&self) -> (r: Read)
        ensures
            r.up_to_date(self),
            !r.listening(),
    {
        Read { raw: self.raw.read() }
    }

    /// Takes the upgradable read lock unless a writer or another upgradable
    /// reader holds the writers' mutex or an acquisition starves on it.
    pub fn try_upgradable_read(&mut self) -> (r: Option<RwLockUpgradableReadGuard>)
        requires
            old(self).writer_locked() || old(self).starved() > 0 || old(self).fits_reader(),
        ensures
            final(self).lock_state() == old(self).lock_state().after_try_upgradable_read(),
            old(self).wf() ==> final(self).wf(),
            r is Some <==> (!old(self).writer_locked() && old(self).starved() == 0),
            r is Some ==> final(self).readers() == old(self).readers() + 1 && final(self).writer_locked()
                && final(self).writer() == old(self).writer() && final(self).starved() == 0,
            r is None ==> final(self).same_lock_state(old(self)),
            final(self).value() == old(self).value(),
            final(self).same_signals(old(self)),
    {
        if self.raw.try_upgradable_read() {
            Some(RwLockUpgradableReadGuard { _private: () })
        } else {
            None
        }
    }

    /// Starts acquiring the upgradable read lock; poll the returned future.
    pub fn upgradable_read(&self) -> (r: UpgradableRead)
        ensures
            self.starved() <= usize::MAX / 4 ==> r.pollable(self),
            !r.started(),
            !r.starving(),
    {
        UpgradableRead { raw: self.raw.upgradable_read() }
    }

    /// Takes the write lock if nobody holds the lock in any way and no
    /// acquisition starves on the writers' mutex.
    pub fn try_write(&mut self) -> (r: Option<RwLockWriteGuard>)
        requires
            old(self).wf(),
        ensures
            final(self).lock_state() == old(self).lock_state().after_try_write(),
            final(self).wf(),
            r is Some <==> (!old(self).writer_locked() && old(self).starved() == 0
                && old(self).readers() == 0),
            r is Some ==> final(self).writer() && final(self).readers() == 0
                && final(self).writer_locked() && final(self).starved() == 0,
            r is None ==> final(self).same_lock_state(old(self)),
            final(self).value() == old(self).value(),
            final(self).writer_notifications() == if !old(self).writer_locked() && old(self).starved() == 0 && old(self).readers() > 0 {
                old(self).writer_notifications().push(1)
            } else {
                old(self).writer_notifications()
            },
            final(self).no_readers_sent() == old(self).no_readers_sent(),
            final(self).no_writer_sent() == old(self).no_writer_sent(),
    {
        if self.raw.try_write() {
            Some(RwLockWriteGuard { _private: () })
        } else {
            None
        }
    }

    /// Starts acquiring the write lock; poll the returned future.
    pub fn write(&self) -> (r: Write)
        ensures
            self.starved() <= usize::MAX / 4 ==> r.pollable(self),
            r.fresh(),
            !r.done(),
            !r.starving(),
    {
        Write { raw: self.raw.write() }
    }

    /// Returns a mutable reference to the inner value; the exclusive borrow
    /// of the lock guarantees that no guard is in use.
    pub fn get_mut(&mut self) -> (r: &mut T)
        ensures
            *r == old(self).value(),
            final(self).value() == *final(r),
            final(self).same_lock_state(old(self)),
            final(self).same_signals(old(self)),
    {
        &mut self.value
    }
}

impl<T: Debug> RwLock<T> {
    /// The `Debug` text of the lock: `RwLock { value: <locked> }` while a
    /// writer holds it or waits for it, and otherwise the text of the value,
    /// read under a read lock taken for that moment.
    pub fn debug_string(&mut self) -> (r: String)
        requires
            old(self).writer() || old(self).fits_reader(),
        ensures
            final(self).same_lock_state(old(self)),
            final(self).value() == old(self).value(),
            old(self).writer() ==> r@ == debug_frame_text("RwLock"@, "value"@, None),
            !old(self).writer() ==> exists|text: Seq<char>|
                r@ == debug_frame_text("RwLock"@, "value"@, Some(text)),
            final(self).writer_notifications() == old(self).writer_notifications(),
            final(self).no_readers_sent() == if !old(self).writer() && old(self).readers() == 0 {
                old(self).no_readers_sent().push(1)
            } else {
                old(self).no_readers_sent()
            },
            final(self).no_writer_sent() == old(self).no_writer_sent(),
    {
        match self.try_read() {
            None => debug_frame("RwLock", "value", None),
            Some(guard) => {
                let text = debug_text(guard.deref(self));
                guard.release(self);
                debug_frame("RwLock", "value", Some(text.as_str()))
            },
        }
    }
}

impl<T: Default> Default for RwLock<T> {
    /// An unlocked lock holding `T::default()`.
    fn default() -> (r: RwLock<T>)
        ensures
            r.wf(),
            r.readers() == 0,
            !r.writer(),
            !r.writer_locked(),
            r.starved() == 0,
            r.writer_notifications() == Seq::<usize>::empty(),
            r.no_readers_sent() == Seq::<usize>::empty(),
            r.no_writer_sent() == Seq::<usize>::empty(),
    {
        RwLock::new(T::default())
    }
}

impl<T> From<T> for RwLock<T> {
    /// An unlocked lock holding `val`.
    fn from(val: T) -> (r: RwLock<T>)
        ensures
            r.wf(),
            r.value() == val,
            r.readers() == 0,
            !r.writer(),
            !r.writer_locked(),
            r.starved() == 0,
            r.writer_notifications() == Seq::<usize>::empty(),
            r.no_readers_sent() == Seq::<usize>::empty(),
            r.no_writer_sent() == Seq::<usize>::empty(),
    {
        RwLock::new(val)
    }
}

impl<T> vstd::std_specs::convert::FromSpecImpl<T> for RwLock<T> {
    /// A new lock holds events of its own, which no value of `T`
    /// determines; `from` is specified by its own `ensures` instead.
    open spec fn obeys_from_spec() -> bool {
        false
    }

    open spec fn from_spec(v: T) -> RwLock<T> {
        vstd::pervasive::arbitrary()
    }
}

/// The future returned by [`RwLock::read`].
pub struct Read {
    raw: RawRead,
}

impl Read {
    /// Whether the acquisition waits for the writer to leave with the polling task's
    /// waker registered where that notification arrives.
    pub closed spec fn registered(&self) -> bool {
        self.raw.registered()
    }

    /// Whether the last state the acquisition saw is the lock's current one.
    pub closed spec fn up_to_date<T>(&self, lock: &RwLock<T>) -> bool {
        self.raw.up_to_date(&lock.raw)
    }

    /// Whether the last state seen shows a writer.
    pub closed spec fn saw_writer(&self) -> bool {
        self.raw.saw_writer()
    }

    /// Whether one more reader fits in the last state seen.
    pub closed spec fn saw_room(&self) -> bool {
        self.raw.saw_room()
    }

    /// Whether the acquisition waits for the writer to leave.
    pub closed spec fn listening(&self) -> bool {
        self.raw.listening()
    }

    /// An up-to-date acquisition sees what the lock holds.
    pub proof fn lemma_up_to_date<T>(&self, lock: &RwLock<T>)
        requires
            self.up_to_date(lock),
        ensures
            self.saw_writer() == lock.writer(),
            self.saw_room() == lock.fits_reader(),
    {
        self.raw.lemma_up_to_date(&lock.raw);
    }

    /// Runs one turn of the acquisition: join the readers if no writer is
    /// in sight and the state seen is current; otherwise reload the state,
    /// waiting for the writer to leave while there is one.
    pub fn poll_step<T>(&mut self, lock: &mut RwLock<T>, cx: &mut Context<'_>) -> (r: Step<RwLockReadGuard>)
        requires
            old(self).saw_writer() || old(self).saw_room(),
        ensures
            r is Ready ==> final(lock).lock_state() == old(lock).lock_state().after_try_read(),
            !(r is Ready) ==> final(lock).lock_state() == old(lock).lock_state(),
            old(lock).wf() ==> final(lock).wf(),
            final(lock).writer() == old(lock).writer(),
            final(lock).writer_locked() == old(lock).writer_locked(),
            final(lock).starved() == old(lock).starved(),
            final(lock).value() == old(lock).value(),
            r is Ready ==> !old(lock).writer() && old(self).up_to_date(old(lock))
                && final(lock).readers() == old(lock).readers() + 1,
            !(r is Ready) ==> final(lock).readers() == old(lock).readers(),
            r is Again ==> final(self).up_to_date(final(lock)),
            r is Pending ==> final(self).listening() && old(self).saw_writer()
                && final(self).saw_writer() && final(self).saw_room() == old(self).saw_room(),
            !old(self).saw_writer() ==> (r is Ready <==> old(self).up_to_date(old(lock))),
            !old(self).saw_writer() ==> !(r is Pending),
            old(self).saw_writer() && !old(self).listening() ==> r is Again && final(self).listening(),
            final(lock).writer_notifications() == old(lock).writer_notifications(),
            final(lock).no_readers_sent() == old(lock).no_readers_sent(),
            final(lock).no_writer_sent() == if old(self).saw_writer() && old(self).listening() && !(r is Pending) {
                old(lock).no_writer_sent().push(1)
            } else {
                old(lock).no_writer_sent()
            },
            r is Pending ==> final(self).registered(),
    {
        match self.raw.poll_step(&mut lock.raw, cx) {
            Step::Ready(()) => Step::Ready(RwLockReadGuard { _private: () }),
            Step::Pending => Step::Pending,
            Step::Again => Step::Again,
        }
    }
}

/// The future returned by [`RwLock::upgradable_read`].
pub struct UpgradableRead {
    raw: RawUpgradableRead,
}

impl UpgradableRead {
    /// Whether the acquisition waits for the writers' mutex with the polling task's
    /// waker registered where that notification arrives.
    pub closed spec fn registered(&self) -> bool {
        self.raw.registered()
    }

    /// Whether the acquisition can be polled on `lock`.
    pub closed spec fn pollable<T>(&self, lock: &RwLock<T>) -> bool {
        self.raw.pollable(&lock.raw)
    }

    /// Whether the acquisition has been polled.
    pub closed spec fn started(&self) -> bool {
        self.raw.started()
    }

    /// Whether the acquisition waits for an unlock notification of the
    /// writers' mutex.
    pub closed spec fn listening(&self) -> bool {
        self.raw.listening()
    }

    /// Whether a turn that ends pending (`pending`) or not passes an unlock
    /// notification of the writers' mutex on to the next waiting acquisition:
    /// one notified while others starve, and a starving one that finds the
    /// mutex free but shared with other starving acquisitions.
    pub open spec fn turn_notifies<T>(&self, lock: &RwLock<T>, pending: bool) -> bool {
        ||| self.listening() && !pending && !self.starving() && lock.starved() > 0
        ||| self.started() && !self.listening() && self.starving() && !lock.writer_locked()
            && lock.starved() != 1
    }

    /// Runs one turn: acquire the writers' mutex, and once it is held, join
    /// the readers.
    pub fn poll_step<T>(&mut self, lock: &mut RwLock<T>, cx: &mut Context<'_>)
        -> (r: Step<RwLockUpgradableReadGuard>)
        requires
            old(self).pollable(old(lock)),
            old(lock).wf(),
            old(lock).fits_reader(),
        ensures
            final(lock).wf(),
            final(lock).writer() == old(lock).writer(),
            final(lock).value() == old(lock).value(),
            r is Ready ==> !old(lock).writer_locked() && final(lock).writer_locked()
                && !final(lock).writer()
                && final(lock).readers() == old(lock).readers() + 1,
            !(r is Ready) ==> final(lock).readers() == old(lock).readers()
                && final(lock).writer_locked() == old(lock).writer_locked()
                && final(self).pollable(final(lock)),
            !old(self).started() ==> (r is Ready <==> old(lock).lock_state().can_upgradable_read()),
            old(self).listening() && !(r is Pending) ==> (r is Ready <==> (!old(lock).writer_locked()
                && (old(self).starving() || old(lock).starved() == 0))),
            final(lock).writer_notifications() == if old(self).turn_notifies(old(lock), r is Pending) {
                old(lock).writer_notifications().push(1)
            } else {
                old(lock).writer_notifications()
            },
            final(lock).no_readers_sent() == old(lock).no_readers_sent(),
            final(lock).no_writer_sent() == old(lock).no_writer_sent(),
            // The starved count counts the starving acquisitions.
            final(lock).starved() + (if old(self).starving() { 1nat } else { 0nat })
                == old(lock).starved() + (if final(self).starving() { 1nat } else { 0nat }),
            r is Ready ==> !final(self).starving(),
            // Eventual fairness: a slow turn that does not wait and sees a
            // starved acquisition registers as starved itself.
            old(self).started() && !old(self).starving() && !(r is Pending) && old(lock).starved() > 0
                ==> r is Again && final(self).starving(),
            r is Pending ==> final(self).registered(),
    {
        match self.raw.poll_step(&mut lock.raw, cx) {
            Step::Ready(()) => Step::Ready(RwLockUpgradableReadGuard { _private: () }),
            Step::Pending => Step::Pending,
            Step::Again => Step::Again,
        }
    }

    /// Whether the acquisition is registered as starved on the writers' mutex.
    pub closed spec fn starving(&self) -> bool {
        self.raw.starving()
    }

    /// Abandons the acquisition, withdrawing it from the writers' mutex.
    pub fn cancel<T>(self, lock: &mut RwLock<T>)
        requires
            self.pollable(old(lock)),
        ensures
            final(lock).readers() == old(lock).readers(),
            final(lock).writer() == old(lock).writer(),
            final(lock).writer_locked() == old(lock).writer_locked(),
            final(lock).starved() == old(lock).starved() - if self.starving() { 1nat } else { 0nat },
            final(lock).value() == old(lock).value(),
            final(lock).same_signals(old(lock)),
    {
        self.raw.cancel(&mut lock.raw);
    }
}

/// The future returned by [`RwLock::write`].
pub struct Write {
    raw: RawWrite,
}

impl Write {
    /// Whether the acquisition waits for the writers' mutex or for the readers to leave with the polling task's
    /// waker registered where that notification arrives.
    pub closed spec fn registered(&self) -> bool {
        self.raw.registered()
    }

    /// Whether the acquisition can be polled on `lock`.
    pub closed spec fn pollable<T>(&self, lock: &RwLock<T>) -> bool {
        self.raw.pollable(&lock.raw)
    }

    /// Whether the acquisition completed.
    pub closed spec fn done(&self) -> bool {
        self.raw.acquired()
    }

    /// Whether the acquisition holds the writers' mutex and waits for the
    /// readers to leave.
    pub closed spec fn waiting_readers(&self) -> bool {
        self.raw.waiting_readers()
    }

    /// Whether the acquisition still waits for the writers' mutex.
    pub closed spec fn acquiring(&self) -> bool {
        self.raw.acquiring()
    }

    /// Whether the acquisition is registered as starved on the writers' mutex.
    pub closed spec fn starving(&self) -> bool {
        self.raw.starving()
    }

    /// Whether the acquisition has not been polled yet.
    pub closed spec fn fresh(&self) -> bool {
        self.raw.fresh()
    }

    /// Whether the acquisition waits for an unlock notification of the
    /// writers' mutex.
    pub closed spec fn listening_for_mutex(&self) -> bool {
        self.raw.listening_for_mutex()
    }

    /// Whether a turn that ends pending (`pending`) or not passes an unlock
    /// notification of the writers' mutex on (see `UpgradableRead::turn_notifies`).
    pub open spec fn turn_notifies<T>(&self, lock: &RwLock<T>, pending: bool) -> bool {
        ||| self.listening_for_mutex() && !pending && !self.starving() && lock.starved() > 0
        ||| self.acquiring() && !self.fresh() && !self.listening_for_mutex() && self.starving()
            && !lock.writer_locked() && lock.starved() != 1
    }

    /// Runs one turn: acquire the writers' mutex, then announce the writer
    /// so that no new readers come in, and wait for the readers to leave.
    pub fn poll_step<T>(&mut self, lock: &mut RwLock<T>, cx: &mut Context<'_>) -> (r: Step<RwLockWriteGuard>)
        requires
            old(self).pollable(old(lock)),
            old(lock).wf(),
        ensures
            final(lock).wf(),
            final(lock).readers() == old(lock).readers(),
            final(lock).value() == old(lock).value(),
            r is Ready ==> final(self).done() && final(lock).writer() && final(lock).readers() == 0
                && final(lock).writer_locked(),
            !(r is Ready) ==> final(self).pollable(final(lock)),
            final(self).waiting_readers() ==> final(lock).writer(),
            !old(self).acquiring() ==> final(lock).same_lock_state(old(lock)) && !final(self).acquiring(),
            old(self).waiting_readers() && old(lock).readers() == 0 ==> r is Ready,
            old(self).acquiring() && (r is Ready || final(self).waiting_readers())
                ==> !old(lock).writer_locked(),
            old(self).acquiring() && final(self).acquiring() ==> final(lock).writer() == old(lock).writer()
                && final(lock).writer_locked() == old(lock).writer_locked(),
            old(self).fresh() ==> (r is Ready <==> old(lock).lock_state().can_write()),
            old(self).fresh() && old(lock).lock_state().can_upgradable_read()
                ==> r is Ready || final(self).waiting_readers(),
            old(self).listening_for_mutex() && !(r is Pending) ==> ((r is Ready || final(self).waiting_readers())
                <==> (!old(lock).writer_locked() && (old(self).starving() || old(lock).starved() == 0))),
            old(self).acquiring() && (r is Ready || final(self).waiting_readers())
                ==> (r is Ready <==> old(lock).readers() == 0),
            final(lock).writer_notifications() == if old(self).turn_notifies(old(lock), r is Pending) {
                old(lock).writer_notifications().push(1)
            } else {
                old(lock).writer_notifications()
            },
            final(lock).no_readers_sent() == old(lock).no_readers_sent(),
            final(lock).no_writer_sent() == old(lock).no_writer_sent(),
            // The starved count counts the starving acquisitions.
            final(lock).starved() + (if old(self).starving() { 1nat } else { 0nat })
                == old(lock).starved() + (if final(self).starving() { 1nat } else { 0nat }),
            !final(self).acquiring() ==> !final(self).starving(),
            // Eventual fairness: a slow turn that does not wait and sees a
            // starved acquisition registers as starved itself.
            old(self).acquiring() && !old(self).fresh() && !old(self).starving() && !(r is Pending) && old(lock).starved() > 0
                ==> r is Again && final(self).starving(),
            r is Pending ==> final(self).registered(),
    {
        match self.raw.poll_step(&mut lock.raw, cx) {
            Step::Ready(()) => Step::Ready(RwLockWriteGuard { _private: () }),
            Step::Pending => Step::Pending,
            Step::Again => Step::Again,
        }
    }

    /// Abandons the acquisition: a writer waiting for the readers withdraws
    /// and releases the writers' mutex; one still waiting for the mutex
    /// withdraws from it.
    pub fn cancel<T>(self, lock: &mut RwLock<T>)
        requires
            self.pollable(old(lock)),
            old(lock).wf(),
        ensures
            final(lock).wf(),
            final(lock).readers() == old(lock).readers(),
            final(lock).value() == old(lock).value(),
            self.waiting_readers() ==> !final(lock).writer() && !final(lock).writer_locked()
                && final(lock).starved() == old(lock).starved(),
            self.acquiring() ==> final(lock).writer() == old(lock).writer()
                && final(lock).writer_locked() == old(lock).writer_locked()
                && final(lock).starved() == old(lock).starved() - if self.starving() { 1nat } else { 0nat },
            self.waiting_readers() ==> final(lock).writer_notifications() == old(lock).writer_notifications().push(1)
                && final(lock).no_readers_sent() == old(lock).no_readers_sent()
                && final(lock).no_writer_sent() == old(lock).no_writer_sent().push(1),
            !self.waiting_readers() ==> final(lock).same_signals(old(lock)),
    {
        self.raw.cancel(&mut lock.raw);
    }
}

/// A read lock; release it with [`RwLockReadGuard::release`].
pub struct RwLockReadGuard {
    _private: (),
}

impl RwLockReadGuard {
    /// The protected value.
    pub fn deref<'a, T>(&self, lock: &'a RwLock<T>) -> (r: &'a T)
        requires
            lock.readers() > 0,
        ensures
            *r == lock.value(),
    {
        &lock.value
    }

    /// Leaves the readers; the last one to leave notifies a waiting writer.
    pub fn release<T>(self, lock: &mut RwLock<T>)
        requires
            old(lock).readers() > 0,
        ensures
            final(lock).lock_state() == old(lock).lock_state().after_read_unlock(),
            old(lock).wf() ==> final(lock).wf(),
            final(lock).readers() == old(lock).readers() - 1,
            final(lock).writer() == old(lock).writer(),
            final(lock).writer_locked() == old(lock).writer_locked(),
            final(lock).starved() == old(lock).starved(),
            final(lock).value() == old(lock).value(),
            final(lock).writer_notifications() == old(lock).writer_notifications(),
            final(lock).no_readers_sent() == if old(lock).readers() == 1 {
                old(lock).no_readers_sent().push(1)
            } else {
                old(lock).no_readers_sent()
            },
            final(lock).no_writer_sent() == old(lock).no_writer_sent(),
    {
        lock.raw.read_unlock();
    }
}

/// The upgradable read lock: a reader that holds the writers' mutex.
pub struct RwLockUpgradableReadGuard {
    _private: (),
}

impl RwLockUpgradableReadGuard {
    /// The protected value.
    pub fn deref<'a, T>(&self, lock: &'a RwLock<T>) -> (r: &'a T)
        requires
            lock.readers() > 0,
        ensures
            *r == lock.value(),
    {
        &lock.value
    }

    /// Leaves the readers and releases the writers' mutex.
    pub fn release<T>(self, lock: &mut RwLock<T>)
        requires
            old(lock).readers() > 0,
            !old(lock).writer(),
            old(lock).writer_locked(),
        ensures
            final(lock).lock_state() == old(lock).lock_state().after_upgradable_read_unlock(),
            final(lock).wf(),
            final(lock).readers() == old(lock).readers() - 1,
            !final(lock).writer(),
            !final(lock).writer_locked(),
            final(lock).starved() == old(lock).starved(),
            final(lock).value() == old(lock).value(),
            final(lock).writer_notifications() == old(lock).writer_notifications().push(1),
            final(lock).no_readers_sent() == if old(lock).readers() == 1 {
                old(lock).no_readers_sent().push(1)
            } else {
                old(lock).no_readers_sent()
            },
            final(lock).no_writer_sent() == old(lock).no_writer_sent(),
    {
        lock.raw.upgradable_read_unlock();
    }

    /// Downgrades into a regular reader guard, releasing the writers' mutex.
    pub fn downgrade<T>(guard: Self, lock: &mut RwLock<T>) -> (r: RwLockReadGuard)
        requires
            old(lock).writer_locked(),
            !old(lock).writer(),
        ensures
            final(lock).lock_state() == old(lock).lock_state().after_downgrade_upgradable_read(),
            final(lock).wf(),
            !final(lock).writer_locked(),
            final(lock).readers() == old(lock).readers(),
            !final(lock).writer(),
            final(lock).starved() == old(lock).starved(),
            final(lock).value() == old(lock).value(),
            final(lock).writer_notifications() == old(lock).writer_notifications().push(1),
            final(lock).no_readers_sent() == old(lock).no_readers_sent(),
            final(lock).no_writer_sent() == old(lock).no_writer_sent(),
    {
        lock.raw.downgrade_upgradable_read();
        RwLockReadGuard { _private: () }
    }

    /// Upgrades into the write lock if no other reader is present, and
    /// otherwise hands the guard back.
    pub fn try_upgrade<T>(guard: Self, lock: &mut RwLock<T>) -> (r: Result<RwLockWriteGuard, Self>)
        requires
            old(lock).readers() > 0,
            old(lock).writer_locked(),
        ensures
            r is Ok <==> old(lock).lock_state().can_upgrade(),
            final(lock).lock_state() == old(lock).lock_state().after_try_upgrade(),
            old(lock).wf() ==> final(lock).wf(),
            r is Ok <==> (old(lock).readers() == 1 && !old(lock).writer()),
            r is Ok ==> final(lock).writer() && final(lock).readers() == 0,
            r is Err ==> final(lock).readers() == old(lock).readers()
                && final(lock).writer() == old(lock).writer(),
            final(lock).writer_locked() == old(lock).writer_locked(),
            final(lock).starved() == old(lock).starved(),
            final(lock).value() == old(lock).value(),
            final(lock).same_signals(old(lock)),
    {
        if lock.raw.try_upgrade() {
            Ok(RwLockWriteGuard { _private: () })
        } else {
            Err(guard)
        }
    }

    /// Announces the upgrade, so that no new readers come in, and returns the
    /// future that waits for the other readers to leave.
    pub fn upgrade<T>(guard: Self, lock: &mut RwLock<T>) -> (r: Upgrade)
        requires
            old(lock).readers() > 0,
            !old(lock).writer(),
            old(lock).writer_locked(),
        ensures
            final(lock).lock_state() == old(lock).lock_state().after_upgrade(),
            final(lock).wf(),
            final(lock).writer(),
            final(lock).readers() == old(lock).readers() - 1,
            final(lock).writer_locked(),
            final(lock).starved() == old(lock).starved(),
            final(lock).value() == old(lock).value(),
            r.pollable(final(lock)),
            !r.listening(),
            final(lock).same_signals(old(lock)),
    {
        Upgrade { raw: lock.raw.upgrade() }
    }
}

/// The future returned by [`RwLockUpgradableReadGuard::upgrade`].
pub struct Upgrade {
    raw: RawUpgrade,
}

impl Upgrade {
    /// Whether the acquisition waits for the readers to leave with the polling task's
    /// waker registered where that notification arrives.
    pub closed spec fn registered(&self) -> bool {
        self.raw.registered()
    }

    /// Whether the upgrade can be polled on `lock`.
    pub closed spec fn pollable<T>(&self, lock: &RwLock<T>) -> bool {
        self.raw.pollable(&lock.raw)
    }

    /// Whether the upgrade waits for the readers to leave.
    pub closed spec fn listening(&self) -> bool {
        self.raw.listening()
    }

    /// Runs one turn: complete once no reader is left, and otherwise wait
    /// for the last reader to leave.
    pub fn poll_step<T>(&mut self, lock: &mut RwLock<T>, cx: &mut Context<'_>) -> (r: Step<RwLockWriteGuard>)
        requires
            old(self).pollable(old(lock)),
        ensures
            final(lock).same_lock_state(old(lock)),
            final(lock).value() == old(lock).value(),
            r is Ready <==> (old(lock).readers() == 0),
            !(r is Ready) ==> final(self).pollable(final(lock)),
            !old(self).listening() ==> !(r is Pending),
            final(lock).same_signals(old(lock)),
            r is Pending ==> final(self).registered(),
    {
        match self.raw.poll_step(&mut lock.raw, cx) {
            Step::Ready(()) => Step::Ready(RwLockWriteGuard { _private: () }),
            Step::Pending => Step::Pending,
            Step::Again => Step::Again,
        }
    }

    /// Abandons an upgrade that has not completed: the writer withdraws and
    /// releases the writers' mutex.
    pub fn cancel<T>(self, lock: &mut RwLock<T>)
        requires
            self.pollable(old(lock)),
        ensures
            final(lock).lock_state() == old(lock).lock_state().after_write_unlock(),
            final(lock).value() == old(lock).value(),
            final(lock).writer_notifications() == old(lock).writer_notifications().push(1),
            final(lock).no_readers_sent() == old(lock).no_readers_sent(),
            final(lock).no_writer_sent() == old(lock).no_writer_sent().push(1),
    {
        self.raw.cancel(&mut lock.raw);
    }
}

/// The write lock; release it with [`RwLockWriteGuard::release`].
pub struct RwLockWriteGuard {
    _private: (),
}

impl RwLockWriteGuard {
    /// The protected value.
    pub fn deref<'a, T>(&self, lock: &'a RwLock<T>) -> (r: &'a T)
        requires
            lock.writer(),
        ensures
            *r == lock.value(),
    {
        &lock.value
    }

    /// The protected value, for writing.
    pub fn deref_mut<'a, T>(&self, lock: &'a mut RwLock<T>) -> (r: &'a mut T)
        requires
            old(lock).writer(),
        ensures
            *r == old(lock).value(),
            final(lock).value() == *final(r),
            final(lock).same_lock_state(old(lock)),
            final(lock).same_signals(old(lock)),
    {
        &mut lock.value
    }

    /// Releases the write lock: clears the writer, notifies a waiting reader
    /// and releases the writers' mutex.
    pub fn release<T>(self, lock: &mut RwLock<T>)
        requires
            old(lock).writer(),
            old(lock).writer_locked(),
        ensures
            final(lock).lock_state() == old(lock).lock_state().after_write_unlock(),
            final(lock).wf(),
            !final(lock).writer(),
            final(lock).readers() == old(lock).readers(),
            !final(lock).writer_locked(),
            final(lock).starved() == old(lock).starved(),
            final(lock).value() == old(lock).value(),
            final(lock).writer_notifications() == old(lock).writer_notifications().push(1),
            final(lock).no_readers_sent() == old(lock).no_readers_sent(),
            final(lock).no_writer_sent() == old(lock).no_writer_sent().push(1),
    {
        lock.raw.write_unlock();
    }

    /// Downgrades into a regular reader guard.
    pub fn downgrade<T>(guard: Self, lock: &mut RwLock<T>) -> (r: RwLockReadGuard)
        requires
            old(lock).writer(),
            old(lock).readers() == 0,
            old(lock).writer_locked(),
        ensures
            final(lock).lock_state() == old(lock).lock_state().after_downgrade_write(),
            final(lock).wf(),
            !final(lock).writer(),
            final(lock).readers() == 1,
            !final(lock).writer_locked(),
            final(lock).starved() == old(lock).starved(),
            final(lock).value() == old(lock).value(),
            final(lock).writer_notifications() == old(lock).writer_notifications().push(1),
            final(lock).no_readers_sent() == old(lock).no_readers_sent(),
            final(lock).no_writer_sent() == old(lock).no_writer_sent().push(1),
    {
        lock.raw.downgrade_write();
        RwLockReadGuard { _private: () }
    }

    /// Downgrades into the upgradable reader guard; the writers' mutex stays held.
    pub fn downgrade_to_upgradable<T>(guard: Self, lock: &mut RwLock<T>) -> (r: RwLockUpgradableReadGuard)
        requires
            old(lock).writer(),
            old(lock).readers() == 0,
            old(lock).writer_locked(),
        ensures
            final(lock).lock_state() == old(lock).lock_state().after_downgrade_to_upgradable(),
            final(lock).wf(),
            !final(lock).writer(),
            final(lock).readers() == 1,
            final(lock).writer_locked(),
            final(lock).starved() == old(lock).starved(),
            final(lock).value() == old(lock).value(),
            final(lock).same_signals(old(lock)),
    {
        lock.raw.downgrade_to_upgradable();
        RwLockUpgradableReadGuard { _private: () }
    }
}

} // verus!
