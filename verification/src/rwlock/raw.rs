//! The lock-state machine behind `RwLock`, independent of the protected value.
//!
//! The state word holds `WRITER_BIT` while a writer holds the lock or waits
//! for the readers to leave, and `ONE_READER` times the number of readers
//! above it. Writers and upgradable readers also hold `mutex`, so at most one
//! of them is active at a time.
use vstd::prelude::*;
use std::task::Context;
use crate::mutex::{Lock, Mutex};
use crate::signal::{poll_listener, signal_notify, Listener, Signal, NO_READERS, NO_WRITER};
use crate::step::Step;
use crate::word::lemma_low_bit;

verus! {

/// Set in the state word while a writer holds the lock or is acquiring it.
pub const WRITER_BIT: usize = 1;

/// What each reader adds to the state word.
pub const ONE_READER: usize = 2;

/// The state of a reader-writer lock, as numbers.
pub struct RwState {
    /// The number of readers (upgradable ones included).
    pub readers: nat,
    /// Whether a writer holds the lock or waits for the readers to leave.
    pub writer: bool,
    /// Whether a writer or the upgradable reader holds the writers' mutex.
    pub mutex_locked: bool,
    /// The number of acquisitions registered as starved on that mutex.
    pub mutex_starved: nat,
}

impl RwState {
    /// A writer always holds the writers' mutex.
    pub open spec fn wf(self) -> bool {
        self.writer ==> self.mutex_locked
    }

    /// A reader can join now: no writer holds the lock or waits for it.
    pub open spec fn can_read(self) -> bool {
        !self.writer
    }

    /// The upgradable read lock can be taken now.
    pub open spec fn can_upgradable_read(self) -> bool {
        !self.mutex_locked && self.mutex_starved == 0
    }

    /// The write lock can be taken now.
    pub open spec fn can_write(self) -> bool {
        !self.mutex_locked && self.mutex_starved == 0 && self.readers == 0
    }

    /// The upgradable reader can become the writer now: it is the only reader.
    pub open spec fn can_upgrade(self) -> bool {
        self.readers == 1 && !self.writer
    }

    pub open spec fn after_try_read(self) -> RwState {
        if self.can_read() { RwState { readers: self.readers + 1, ..self } } else { self }
    }

    pub open spec fn after_read_unlock(self) -> RwState {
        RwState { readers: (self.readers - 1) as nat, ..self }
    }

    pub open spec fn after_try_upgradable_read(self) -> RwState {
        if self.can_upgradable_read() {
            RwState { readers: self.readers + 1, mutex_locked: true, ..self }
        } else {
            self
        }
    }

    pub open spec fn after_upgradable_read_unlock(self) -> RwState {
        RwState { readers: (self.readers - 1) as nat, mutex_locked: false, ..self }
    }

    pub open spec fn after_try_write(self) -> RwState {
        if self.can_write() { RwState { writer: true, mutex_locked: true, ..self } } else { self }
    }

    pub open spec fn after_write_unlock(self) -> RwState {
        RwState { writer: false, mutex_locked: false, ..self }
    }

    pub open spec fn after_try_upgrade(self) -> RwState {
        if self.can_upgrade() { RwState { readers: 0, writer: true, ..self } } else { self }
    }

    /// The upgradable reader announces the upgrade and stops counting as a reader.
    pub open spec fn after_upgrade(self) -> RwState {
        RwState { readers: (self.readers - 1) as nat, writer: true, ..self }
    }

    pub open spec fn after_downgrade_upgradable_read(self) -> RwState {
        RwState { mutex_locked: false, ..self }
    }

    pub open spec fn after_downgrade_write(self) -> RwState {
        RwState { readers: self.readers + 1, writer: false, mutex_locked: false, ..self }
    }

    pub open spec fn after_downgrade_to_upgradable(self) -> RwState {
        RwState { readers: self.readers + 1, writer: false, ..self }
    }
}

/// Every transition keeps the invariant, under the conditions in which the
/// guards call it.
pub proof fn lemma_rw_state_wf(s: RwState)
    requires
        s.wf(),
    ensures
        s.after_try_read().wf(),
        s.readers > 0 ==> s.after_read_unlock().wf(),
        s.after_try_upgradable_read().wf(),
        !s.writer ==> s.after_upgradable_read_unlock().wf(),
        s.after_try_write().wf(),
        s.after_write_unlock().wf(),
        s.mutex_locked ==> s.after_try_upgrade().wf(),
        s.mutex_locked ==> s.after_upgrade().wf(),
        !s.writer ==> s.after_downgrade_upgradable_read().wf(),
        s.after_downgrade_write().wf(),
        s.after_downgrade_to_upgradable().wf(),
{
}

/// The lock is write-preferring: once a writer holds the lock or waits for
/// it, no new reader comes in.
pub proof fn lemma_writer_blocks_readers(s: RwState)
    requires
        s.writer,
    ensures
        !s.can_read(),
        s.after_try_read() == s,
{
}

/// Readers do not exclude each other.
pub proof fn lemma_readers_coexist(s: RwState)
    requires
        s.can_read(),
    ensures
        s.after_try_read().can_read(),
        s.after_try_read().readers == s.readers + 1,
{
}

/// The upgradable reader excludes another one until it leaves or downgrades.
pub proof fn lemma_single_upgradable(s: RwState)
    requires
        s.wf(),
        s.can_upgradable_read(),
        !s.writer,
    ensures
        !s.after_try_upgradable_read().can_upgradable_read(),
        s.after_try_upgradable_read().after_upgradable_read_unlock().can_upgradable_read(),
        s.after_try_upgradable_read().after_downgrade_upgradable_read().can_upgradable_read(),
{
}

/// What readers do while a writer waits: attempt to join, or leave.
pub enum ReaderEvent {
    /// An attempt to add a reader (`try_read`, `Read::poll_step`).
    TryRead,
    /// A reader leaves.
    ReadUnlock,
}

impl RwState {
    /// The state after one reader event.
    pub open spec fn after_reader_event(self, e: ReaderEvent) -> RwState {
        match e {
            ReaderEvent::TryRead => self.after_try_read(),
            ReaderEvent::ReadUnlock => self.after_read_unlock(),
        }
    }

    /// The state after a sequence of reader events, oldest first.
    pub open spec fn after_reader_events(self, es: Seq<ReaderEvent>) -> RwState
        decreases es.len(),
    {
        if es.len() == 0 {
            self
        } else {
            self.after_reader_events(es.drop_last()).after_reader_event(es.last())
        }
    }
}

/// Once a writer holds the lock or waits for it, no reader comes in,
/// whatever readers try meanwhile: the writer stays, the readers only
/// leave, and every read attempt fails. So a waiting writer completes as
/// soon as the readers it waits for have left (see `RawWrite::poll_step`).
pub proof fn lemma_writer_preferred(s: RwState, es: Seq<ReaderEvent>)
    requires
        s.writer,
        forall|i: int| 0 <= i < es.len() && es[i] is ReadUnlock
            ==> #[trigger] s.after_reader_events(es.take(i)).readers > 0,
    ensures
        s.after_reader_events(es).writer,
        s.after_reader_events(es).readers <= s.readers,
        s.after_reader_events(es).mutex_locked == s.mutex_locked,
        !s.after_reader_events(es).can_read(),
    decreases es.len(),
{
    if es.len() > 0 {
        let prefix = es.drop_last();
        assert forall|i: int| 0 <= i < prefix.len() && prefix[i] is ReadUnlock
            implies #[trigger] s.after_reader_events(prefix.take(i)).readers > 0 by {
            assert(prefix.take(i) == es.take(i));
            assert(es[i] is ReadUnlock);
        }
        lemma_writer_preferred(s, prefix);
        let last = es.len() - 1;
        assert(es.take(last) == prefix);
        if es.last() is ReadUnlock {
            assert(es[last] is ReadUnlock);
            assert(s.after_reader_events(es.take(last)).readers > 0);
        }
    }
}

/// A held write lock excludes every other lock.
pub proof fn lemma_writer_exclusive(s: RwState)
    requires
        s.wf(),
        s.can_write(),
    ensures
        !s.after_try_write().can_read(),
        !s.after_try_write().can_write(),
        !s.after_try_write().can_upgradable_read(),
{
}

/// Readers coexist, and coexist with the upgradable reader; there is at most
/// one upgradable reader, and it excludes writers.
pub proof fn lemma_upgradable_with_readers(s: RwState)
    requires
        s.wf(),
        s.can_upgradable_read(),
    ensures
        s.after_try_upgradable_read().can_read(),
        s.after_try_upgradable_read().after_try_read().readers == s.readers + 2,
        !s.after_try_upgradable_read().can_upgradable_read(),
        !s.after_try_upgradable_read().can_write(),
{
}

/// Releasing a lock undoes acquiring it.
pub proof fn lemma_rw_roundtrips(s: RwState)
    requires
        s.wf(),
    ensures
        s.can_read() ==> s.after_try_read().after_read_unlock() == s,
        s.can_upgradable_read() ==> s.after_try_upgradable_read().after_upgradable_read_unlock() == s,
        s.can_write() ==> s.after_try_write().after_write_unlock() == s,
{
}

/// Upgrading the upgradable reader fails only while other readers are present.
pub proof fn lemma_try_upgrade(s: RwState)
    requires
        s.wf(),
        s.mutex_locked,
        s.readers > 0,
        !s.writer,
    ensures
        s.can_upgrade() <==> s.readers == 1,
        s.readers == 1 ==> s.after_try_upgrade() == s.after_upgrade(),
{
}

/// A writer that downgrades to the upgradable reader can upgrade back at
/// once, and one that downgrades to a reader lets other readers in.
pub proof fn lemma_downgrades(s: RwState)
    requires
        s.wf(),
        s.writer,
        s.readers == 0,
    ensures
        s.after_downgrade_to_upgradable().can_upgrade(),
        s.after_downgrade_to_upgradable().after_try_upgrade() == s,
        s.after_downgrade_write().can_read(),
        s.after_downgrade_write().readers == 1,
        s.after_downgrade_write().after_read_unlock() == s.after_write_unlock(),
{
}

pub struct RawRwLock {
    /// Held by writers and upgradable readers.
    mutex: Mutex<()>,
    /// Notified when the last reader leaves.
    no_readers: Signal<NO_READERS>,
    /// Notified when the writer leaves.
    no_writer: Signal<NO_WRITER>,
    /// The state word.
    state: usize,
}

impl RawRwLock {
    /// The number of readers (upgradable ones included).
    pub closed spec fn readers(&self) -> nat {
        (self.state / 2) as nat
    }

    /// Whether a writer holds the lock or is waiting for the readers to leave.
    pub closed spec fn writer(&self) -> bool {
        self.state % 2 == 1
    }

    /// Whether the mutex of writers and upgradable readers is held.
    pub closed spec fn mutex_locked(&self) -> bool {
        self.mutex.locked()
    }

    /// The number of operations registered as starved on that mutex.
    pub closed spec fn mutex_starved(&self) -> nat {
        self.mutex.starved()
    }

    /// The lock state.
    pub open spec fn lock_state(&self) -> RwState {
        RwState {
            readers: self.readers(),
            writer: self.writer(),
            mutex_locked: self.mutex_locked(),
            mutex_starved: self.mutex_starved(),
        }
    }

    /// The lock's invariant: a writer always holds the mutex.
    pub open spec fn wf(&self) -> bool {
        self.lock_state().wf()
    }

    /// Whether one more reader fits in the state word (the process aborts
    /// when a reader is added to a word above `isize::MAX`).
    pub open spec fn fits_reader(&self) -> bool {
        2 * self.readers() + (if self.writer() { 1int } else { 0int }) <= isize::MAX
    }

    /// Whether `self` and `other` are in the same state.
    pub open spec fn same_state(&self, other: &Self) -> bool {
        &&& self.readers() == other.readers()
        &&& self.writer() == other.writer()
        &&& self.mutex_locked() == other.mutex_locked()
        &&& self.mutex_starved() == other.mutex_starved()
    }

    /// The counts of the notifications sent to acquisitions waiting for the
    /// mutex, oldest first.
    pub closed spec fn mutex_notifications(&self) -> Seq<usize> {
        self.mutex.notifications()
    }

    /// The counts of the notifications sent when the last reader left,
    /// oldest first.
    pub closed spec fn no_readers_sent(&self) -> Seq<usize> {
        self.no_readers.sent()
    }

    /// The counts of the notifications sent when a writer left, oldest first.
    pub closed spec fn no_writer_sent(&self) -> Seq<usize> {
        self.no_writer.sent()
    }

    /// Whether `self` and `other` have sent the same notifications.
    pub open spec fn same_signals(&self, other: &Self) -> bool {
        &&& self.mutex_notifications() == other.mutex_notifications()
        &&& self.no_readers_sent() == other.no_readers_sent()
        &&& self.no_writer_sent() == other.no_writer_sent()
    }

    /// Creates an unlocked lock.
    pub fn new() -> (r: Self)
        ensures
            r.wf(),
            r.readers() == 0,
            !r.writer(),
            !r.mutex_locked(),
            r.mutex_starved() == 0,
            r.mutex_notifications() == Seq::<usize>::empty(),
            r.no_readers_sent() == Seq::<usize>::empty(),
            r.no_writer_sent() == Seq::<usize>::empty(),
    {
        RawRwLock { mutex: Mutex::new(()), no_readers: Signal::new(), no_writer: Signal::new(), state: 0 }
    }

    /// Whether one more acquisition can register as starved on the mutex.
    pub fn starvation_room(&self) -> (r: bool)
        ensures
            r == (self.mutex_starved() <= usize::MAX / 4),
    {
        self.mutex.starvation_room()
    }

    /// Whether one more reader fits in the state word.
    pub fn reader_room(&self) -> (r: bool)
        ensures
            r == self.fits_reader(),
    {
        self.state <= isize::MAX as usize
    }

    /// Adds a reader unless a writer holds the lock or is acquiring it.
    pub fn try_read(&mut self) -> (r: bool)
        requires
            old(self).writer() || old(self).fits_reader(),
        ensures
            r == old(self).lock_state().can_read(),
            final(self).lock_state() == old(self).lock_state().after_try_read(),
            old(self).wf() ==> final(self).wf(),
            r == !old(self).writer(),
            final(self).readers() == old(self).readers() + if r { 1nat } else { 0nat },
            final(self).writer() == old(self).writer(),
            final(self).mutex_locked() == old(self).mutex_locked(),
            final(self).mutex_starved() == old(self).mutex_starved(),
            final(self).same_signals(old(self)),
    {
        let state = self.state;
        proof { lemma_low_bit(state); }
        // A writer holds the lock or is acquiring it: no new readers.
        if state & WRITER_BIT != 0 {
            return false;
        }
        self.state = state + ONE_READER;
        true
    }

    /// Starts acquiring a read lock; poll the returned future.
    pub fn read(&self) -> (r: RawRead)
        ensures
            r.up_to_date(self),
            !r.listening(),
    {
        RawRead { state: self.state, listener: None }
    }

    /// Takes the mutex and adds a reader, unless another writer or
    /// upgradable reader holds the mutex or an operation starves on it.
    pub fn try_upgradable_read(&mut self) -> (r: bool)
        requires
            old(self).mutex_locked() || old(self).mutex_starved() > 0 || old(self).fits_reader(),
        ensures
            r == old(self).lock_state().can_upgradable_read(),
            final(self).lock_state() == old(self).lock_state().after_try_upgradable_read(),
            old(self).wf() ==> final(self).wf(),
            r == (!old(self).mutex_locked() && old(self).mutex_starved() == 0),
            r ==> final(self).readers() == old(self).readers() + 1 && final(self).mutex_locked()
                && final(self).writer() == old(self).writer() && final(self).mutex_starved() == 0,
            !r ==> final(self).same_state(old(self)),
            final(self).same_signals(old(self)),
    {
        // First try grabbing the mutex.
        let guard = self.mutex.try_lock();
        match guard {
            None => false,
            Some(_guard) => {
                // The guard is kept: the upgradable reader holds the mutex.
                self.state = self.state + ONE_READER;
                true
            },
        }
    }

    /// Starts acquiring an upgradable read lock; poll the returned future.
    pub fn upgradable_read(&self) -> (r: RawUpgradableRead)
        ensures
            self.mutex_starved() <= usize::MAX / 4 ==> r.pollable(self),
            !r.started(),
            !r.starving(),
    {
        RawUpgradableRead { acquire: self.mutex.lock() }
    }

    /// Takes the write lock if the mutex is free (nobody starving on it)
    /// and there are no readers.
    pub fn try_write(&mut self) -> (r: bool)
        requires
            old(self).wf(),
        ensures
            r == old(self).lock_state().can_write(),
            final(self).lock_state() == old(self).lock_state().after_try_write(),
            final(self).wf(),
            r == (!old(self).mutex_locked() && old(self).mutex_starved() == 0
                && old(self).readers() == 0),
            r ==> final(self).writer() && final(self).readers() == 0 && final(self).mutex_locked()
                && final(self).mutex_starved() == 0,
            !r ==> final(self).same_state(old(self)),
            final(self).mutex_notifications() == if !old(self).mutex_locked() && old(self).mutex_starved() == 0
                && old(self).readers() > 0 {
                old(self).mutex_notifications().push(1)
            } else {
                old(self).mutex_notifications()
            },
            final(self).no_readers_sent() == old(self).no_readers_sent(),
            final(self).no_writer_sent() == old(self).no_writer_sent(),
    {
        // First try grabbing the mutex.
        let guard = self.mutex.try_lock();
        match guard {
            None => false,
            Some(guard) => {
                // If there are no readers, grab the write lock.
                if self.state == 0 {
                    self.state = WRITER_BIT;
                    true
                } else {
                    guard.release(&mut self.mutex);
                    false
                }
            },
        }
    }

    /// Starts acquiring the write lock; poll the returned future.
    pub fn write(&self) -> (r: RawWrite)
        ensures
            self.mutex_starved() <= usize::MAX / 4 ==> r.pollable(self),
            r.acquiring(),
            r.fresh(),
            !r.acquired(),
            !r.starving(),
    {
        RawWrite { no_readers: None, state: WriteState::Acquiring(self.mutex.lock()) }
    }

    /// Turns the single reader, which holds the mutex as the upgradable
    /// reader, into the writer. Fails if other readers are present.
    pub fn try_upgrade(&mut self) -> (r: bool)
        requires
            old(self).readers() > 0,
            old(self).mutex_locked(),
        ensures
            r == old(self).lock_state().can_upgrade(),
            final(self).lock_state() == old(self).lock_state().after_try_upgrade(),
            old(self).wf() ==> final(self).wf(),
            r == (old(self).readers() == 1 && !old(self).writer()),
            r ==> final(self).writer() && final(self).readers() == 0,
            !r ==> final(self).readers() == old(self).readers() && final(self).writer() == old(self).writer(),
            final(self).mutex_locked() == old(self).mutex_locked(),
            final(self).mutex_starved() == old(self).mutex_starved(),
            final(self).same_signals(old(self)),
    {
        if self.state == ONE_READER {
            self.state = WRITER_BIT;
            true
        } else {
            false
        }
    }

    /// Turns the upgradable reader into a writer that waits for the other
    /// readers to leave; poll the returned future.
    pub fn upgrade(&mut self) -> (r: RawUpgrade)
        requires
            old(self).readers() > 0,
            !old(self).writer(),
            old(self).mutex_locked(),
        ensures
            final(self).lock_state() == old(self).lock_state().after_upgrade(),
            final(self).wf(),
            final(self).writer(),
            final(self).readers() == old(self).readers() - 1,
            final(self).mutex_locked(),
            final(self).mutex_starved() == old(self).mutex_starved(),
            r.pollable(final(self)),
            !r.listening(),
            final(self).same_signals(old(self)),
    {
        // Set `WRITER_BIT` and remove this reader at the same time.
        self.state = self.state - (ONE_READER - WRITER_BIT);
        RawUpgrade { listener: None, done: false }
    }

    /// Turns the upgradable reader into a plain reader, releasing the mutex.
    pub fn downgrade_upgradable_read(&mut self)
        requires
            old(self).mutex_locked(),
            !old(self).writer(),
        ensures
            final(self).lock_state() == old(self).lock_state().after_downgrade_upgradable_read(),
            final(self).wf(),
            !final(self).mutex_locked(),
            final(self).readers() == old(self).readers(),
            !final(self).writer(),
            final(self).mutex_starved() == old(self).mutex_starved(),
            final(self).mutex_notifications() == old(self).mutex_notifications().push(1),
            final(self).no_readers_sent() == old(self).no_readers_sent(),
            final(self).no_writer_sent() == old(self).no_writer_sent(),
    {
        self.mutex.unlock_unchecked();
    }

    /// Turns the writer into a reader, releasing the mutex and notifying a
    /// reader that waits for the writer to leave.
    pub fn downgrade_write(&mut self)
        requires
            old(self).writer(),
            old(self).readers() == 0,
            old(self).mutex_locked(),
        ensures
            final(self).lock_state() == old(self).lock_state().after_downgrade_write(),
            final(self).wf(),
            !final(self).writer(),
            final(self).readers() == 1,
            !final(self).mutex_locked(),
            final(self).mutex_starved() == old(self).mutex_starved(),
            final(self).mutex_notifications() == old(self).mutex_notifications().push(1),
            final(self).no_readers_sent() == old(self).no_readers_sent(),
            final(self).no_writer_sent() == old(self).no_writer_sent().push(1),
    {
        self.state = self.state + (ONE_READER - WRITER_BIT);
        self.mutex.unlock_unchecked();
        signal_notify(&mut self.no_writer, 1);
    }

    /// Turns the writer into the upgradable reader; the mutex stays held.
    pub fn downgrade_to_upgradable(&mut self)
        requires
            old(self).writer(),
            old(self).readers() == 0,
            old(self).mutex_locked(),
        ensures
            final(self).lock_state() == old(self).lock_state().after_downgrade_to_upgradable(),
            final(self).wf(),
            !final(self).writer(),
            final(self).readers() == 1,
            final(self).mutex_locked(),
            final(self).mutex_starved() == old(self).mutex_starved(),
            final(self).same_signals(old(self)),
    {
        self.state = self.state + (ONE_READER - WRITER_BIT);
    }

    /// Removes a reader; the last one to leave notifies a waiting writer.
    pub fn read_unlock(&mut self)
        requires
            old(self).readers() > 0,
        ensures
            final(self).lock_state() == old(self).lock_state().after_read_unlock(),
            old(self).wf() ==> final(self).wf(),
            final(self).readers() == old(self).readers() - 1,
            final(self).writer() == old(self).writer(),
            final(self).mutex_locked() == old(self).mutex_locked(),
            final(self).mutex_starved() == old(self).mutex_starved(),
            final(self).mutex_notifications() == old(self).mutex_notifications(),
            final(self).no_readers_sent() == if old(self).readers() == 1 {
                old(self).no_readers_sent().push(1)
            } else {
                old(self).no_readers_sent()
            },
            final(self).no_writer_sent() == old(self).no_writer_sent(),
    {
        let state = self.state;
        self.state = state - ONE_READER;
        proof { lemma_low_bit(state); }
        // If this was the last reader, trigger the "no readers" event.
        if state & !WRITER_BIT == ONE_READER {
            signal_notify(&mut self.no_readers, 1);
        }
    }

    /// Removes the upgradable reader and releases the mutex.
    pub fn upgradable_read_unlock(&mut self)
        requires
            old(self).readers() > 0,
            !old(self).writer(),
            old(self).mutex_locked(),
        ensures
            final(self).lock_state() == old(self).lock_state().after_upgradable_read_unlock(),
            final(self).wf(),
            final(self).readers() == old(self).readers() - 1,
            !final(self).writer(),
            !final(self).mutex_locked(),
            final(self).mutex_starved() == old(self).mutex_starved(),
            final(self).mutex_notifications() == old(self).mutex_notifications().push(1),
            final(self).no_readers_sent() == if old(self).readers() == 1 {
                old(self).no_readers_sent().push(1)
            } else {
                old(self).no_readers_sent()
            },
            final(self).no_writer_sent() == old(self).no_writer_sent(),
    {
        let state = self.state;
        self.state = state - ONE_READER;
        proof { lemma_low_bit(state); }
        // If this was the last reader, trigger the "no readers" event.
        if state & !WRITER_BIT == ONE_READER {
            signal_notify(&mut self.no_readers, 1);
        }
        self.mutex.unlock_unchecked();
    }

    /// Removes the writer, notifies a reader that waits for it to leave, and
    /// releases the mutex.
    pub fn write_unlock(&mut self)
        requires
            old(self).writer(),
            old(self).mutex_locked(),
        ensures
            final(self).lock_state() == old(self).lock_state().after_write_unlock(),
            final(self).wf(),
            !final(self).writer(),
            final(self).readers() == old(self).readers(),
            !final(self).mutex_locked(),
            final(self).mutex_starved() == old(self).mutex_starved(),
            final(self).mutex_notifications() == old(self).mutex_notifications().push(1),
            final(self).no_readers_sent() == old(self).no_readers_sent(),
            final(self).no_writer_sent() == old(self).no_writer_sent().push(1),
    {
        let state = self.state;
        proof { lemma_low_bit(state); }
        self.state = state & !WRITER_BIT;
        signal_notify(&mut self.no_writer, 1);
        self.mutex.unlock_unchecked();
    }
}

/// An acquisition of a read lock that has not completed yet.
pub struct RawRead {
    /// The last state word seen.
    state: usize,
    /// The listener waiting for the writer to leave.
    listener: Option<Listener<NO_WRITER>>,
}

impl RawRead {
    /// Whether the last state word seen is the lock's current one.
    pub closed spec fn up_to_date(&self, lock: &RawRwLock) -> bool {
        self.state == lock.state
    }

    /// Whether the acquisition waits on a listener.
    pub closed spec fn listening(&self) -> bool {
        self.listener is Some
    }

    /// Whether the acquisition waits on a listener of the lock's "no writer"
    /// signal in which the polling task's waker is registered.
    pub closed spec fn registered(&self) -> bool {
        self.listener matches Some(l) && l.registered()
    }

    /// Whether the last state word seen shows a writer.
    pub closed spec fn saw_writer(&self) -> bool {
        self.state % 2 == 1
    }

    /// Whether one more reader fits in the last state word seen.
    pub closed spec fn saw_room(&self) -> bool {
        self.state <= isize::MAX
    }

    /// An up-to-date acquisition sees what the lock holds.
    pub proof fn lemma_up_to_date(&self, lock: &RawRwLock)
        requires
            self.up_to_date(lock),
        ensures
            self.saw_writer() == lock.writer(),
            self.saw_room() == lock.fits_reader(),
    {
    }

    /// Runs one turn of the read acquisition loop: join the readers if the
    /// state word seen shows no writer and is still current; otherwise
    /// reload it, listening for the writer to leave while there is one.
    pub fn poll_step(&mut self, lock: &mut RawRwLock, cx: &mut Context<'_>) -> (r: Step<()>)
        requires
            old(self).saw_writer() || old(self).saw_room(),
        ensures
            old(lock).wf() ==> final(lock).wf(),
            final(lock).writer() == old(lock).writer(),
            final(lock).mutex_locked() == old(lock).mutex_locked(),
            final(lock).mutex_starved() == old(lock).mutex_starved(),
            r is Ready ==> !old(lock).writer() && old(self).up_to_date(old(lock))
                && final(lock).readers() == old(lock).readers() + 1,
            !(r is Ready) ==> final(lock).readers() == old(lock).readers(),
            r is Again ==> final(self).up_to_date(final(lock)),
            r is Pending ==> final(self).listening() && old(self).saw_writer()
                && final(self).saw_writer() && final(self).saw_room() == old(self).saw_room(),
            // Without a writer in sight, the turn decides.
            !old(self).saw_writer() ==> (r is Ready <==> old(self).up_to_date(old(lock))),
            !old(self).saw_writer() ==> !(r is Pending),
            old(self).saw_writer() && !old(self).listening() ==> r is Again && final(self).listening(),
            // A reader woken by a leaving writer passes the notification on.
            final(lock).no_writer_sent() == if old(self).saw_writer() && old(self).listening() && !(r is Pending) {
                old(lock).no_writer_sent().push(1)
            } else {
                old(lock).no_writer_sent()
            },
            final(lock).mutex_notifications() == old(lock).mutex_notifications(),
            final(lock).no_readers_sent() == old(lock).no_readers_sent(),
            // A pending turn waits for the writer to leave with the task's waker.
            r is Pending ==> final(self).registered(),
    {
        let state = self.state;
        proof { lemma_low_bit(state); }
        if state & WRITER_BIT == 0 {
            // Nobody holds or acquires the write lock: join the readers if
            // the state has not changed meanwhile.
            if lock.state == state {
                lock.state = state + ONE_READER;
                Step::Ready(())
            } else {
                self.state = lock.state;
                Step::Again
            }
        } else {
            match self.listener.take() {
                None => {
                    // Start listening for "no writer" events.
                    self.listener = Some(lock.no_writer.listen());
                },
                Some(listener) => {
                    match poll_listener(listener, cx) {
                        Err(listener) => {
                            self.listener = Some(listener);
                            return Step::Pending;
                        },
                        Ok(()) => {},
                    }
                    // Other readers may be waiting too: pass the notification on.
                    signal_notify(&mut lock.no_writer, 1);
                },
            }
            // Reload the state.
            self.state = lock.state;
            Step::Again
        }
    }
}

/// An acquisition of the upgradable read lock that has not completed yet.
pub struct RawUpgradableRead {
    /// Acquisition of the mutex.
    acquire: Lock,
}

impl RawUpgradableRead {
    /// Whether the acquisition can be polled on `lock`.
    pub closed spec fn pollable(&self, lock: &RawRwLock) -> bool {
        self.acquire.pollable(&lock.mutex)
    }

    /// Whether the acquisition has been polled.
    pub closed spec fn started(&self) -> bool {
        self.acquire.started()
    }

    /// Whether the acquisition waits for an unlock notification of the mutex.
    pub closed spec fn listening(&self) -> bool {
        self.acquire.listening()
    }

    /// Whether the acquisition waits on a listener of the mutex's unlock
    /// notifications in which the polling task's waker is registered.
    pub closed spec fn registered(&self) -> bool {
        self.acquire.registered()
    }

    /// Whether a turn that ends pending (`pending`) or not passes an unlock
    /// notification of the mutex on (see `Lock::turn_notifies`).
    pub open spec fn turn_notifies(&self, lock: &RawRwLock, pending: bool) -> bool {
        ||| self.listening() && !pending && !self.starving() && lock.mutex_starved() > 0
        ||| self.started() && !self.listening() && self.starving() && !lock.mutex_locked()
            && lock.mutex_starved() != 1
    }

    /// Runs one turn: acquire the mutex (see `Lock::poll_step`), and once it
    /// is held, join the readers.
    pub fn poll_step(&mut self, lock: &mut RawRwLock, cx: &mut Context<'_>) -> (r: Step<()>)
        requires
            old(self).pollable(old(lock)),
            old(lock).wf(),
            old(lock).fits_reader(),
        ensures
            final(lock).wf(),
            final(lock).writer() == old(lock).writer(),
            r is Ready ==> !old(lock).mutex_locked() && final(lock).mutex_locked()
                && !final(lock).writer()
                && final(lock).readers() == old(lock).readers() + 1,
            !(r is Ready) ==> final(lock).readers() == old(lock).readers()
                && final(lock).mutex_locked() == old(lock).mutex_locked()
                && final(self).pollable(final(lock)),
            // The first turn takes the mutex at once if it is free.
            !old(self).started() ==> (r is Ready <==> old(lock).lock_state().can_upgradable_read()),
            // Once a notification arrived, the turn takes the mutex if it is
            // free and the acquisition may take it.
            old(self).listening() && !(r is Pending) ==> (r is Ready <==> (!old(lock).mutex_locked()
                && (old(self).starving() || old(lock).mutex_starved() == 0))),
            final(lock).mutex_notifications() == if old(self).turn_notifies(old(lock), r is Pending) {
                old(lock).mutex_notifications().push(1)
            } else {
                old(lock).mutex_notifications()
            },
            final(lock).no_readers_sent() == old(lock).no_readers_sent(),
            final(lock).no_writer_sent() == old(lock).no_writer_sent(),
            // The starved count counts the starving acquisitions.
            final(lock).mutex_starved() + (if old(self).starving() { 1nat } else { 0nat })
                == old(lock).mutex_starved() + (if final(self).starving() { 1nat } else { 0nat }),
            r is Ready ==> !final(self).starving(),
            // A slow turn that does not wait and sees a starved acquisition
            // registers as starved itself.
            old(self).started() && !old(self).starving() && !(r is Pending) && old(lock).mutex_starved() > 0
                ==> r is Again && final(self).starving(),
            r is Pending ==> final(self).registered(),
    {
        match self.acquire.poll_step(&mut lock.mutex, cx) {
            Step::Ready(_guard) => {
                // The guard is kept: the upgradable reader holds the mutex.
                lock.state = lock.state + ONE_READER;
                Step::Ready(())
            },
            Step::Pending => Step::Pending,
            Step::Again => Step::Again,
        }
    }

    /// Whether the acquisition is registered as starved on the mutex.
    pub closed spec fn starving(&self) -> bool {
        self.acquire.starving()
    }

    /// Abandons the acquisition, withdrawing it from the mutex.
    pub fn cancel(self, lock: &mut RawRwLock)
        requires
            self.pollable(old(lock)),
        ensures
            final(lock).readers() == old(lock).readers(),
            final(lock).writer() == old(lock).writer(),
            final(lock).mutex_locked() == old(lock).mutex_locked(),
            final(lock).mutex_starved() == old(lock).mutex_starved() - if self.starving() { 1nat } else { 0nat },
            final(lock).same_signals(old(lock)),
    {
        self.acquire.cancel(&mut lock.mutex);
    }
}

/// Where a write acquisition stands.
enum WriteState {
    /// Waiting for the mutex.
    Acquiring(Lock),
    /// Holding the mutex with `WRITER_BIT` set, waiting for readers to leave.
    WaitingReaders,
    /// The write lock is held.
    Acquired,
}

/// An acquisition of the write lock that has not completed yet.
pub struct RawWrite {
    /// The listener waiting for the readers to leave.
    no_readers: Option<Listener<NO_READERS>>,
    /// Where the acquisition stands.
    state: WriteState,
}

impl RawWrite {
    /// Whether the acquisition still waits for the mutex.
    pub closed spec fn acquiring(&self) -> bool {
        self.state is Acquiring
    }

    /// Whether the acquisition holds the mutex and waits for readers to leave.
    pub closed spec fn waiting_readers(&self) -> bool {
        self.state is WaitingReaders
    }

    /// Whether the acquisition completed.
    pub closed spec fn acquired(&self) -> bool {
        self.state is Acquired
    }

    /// Whether the acquisition can be polled on `lock`.
    pub closed spec fn pollable(&self, lock: &RawRwLock) -> bool {
        match self.state {
            WriteState::Acquiring(l) => l.pollable(&lock.mutex),
            WriteState::WaitingReaders => lock.writer() && lock.mutex_locked(),
            WriteState::Acquired => false,
        }
    }

    /// Whether the acquisition is registered as starved on the mutex.
    pub closed spec fn starving(&self) -> bool {
        self.state matches WriteState::Acquiring(l) && l.starving()
    }

    /// Whether the acquisition waits with the polling task's waker
    /// registered: on the mutex's unlock notifications while it acquires the
    /// mutex, and on the lock's "no readers" signal while it waits for the
    /// readers to leave.
    pub closed spec fn registered(&self) -> bool {
        match self.state {
            WriteState::Acquiring(l) => l.registered(),
            WriteState::WaitingReaders => self.no_readers matches Some(l) && l.registered(),
            WriteState::Acquired => false,
        }
    }

    /// Whether the acquisition has not been polled yet.
    pub closed spec fn fresh(&self) -> bool {
        self.state matches WriteState::Acquiring(l) && !l.started()
    }

    /// Whether the acquisition waits for an unlock notification of the mutex.
    pub closed spec fn listening_for_mutex(&self) -> bool {
        self.state matches WriteState::Acquiring(l) && l.listening()
    }

    /// Whether a turn that ends pending (`pending`) or not passes an unlock
    /// notification of the mutex on (see `Lock::turn_notifies`).
    pub open spec fn turn_notifies(&self, lock: &RawRwLock, pending: bool) -> bool {
        ||| self.listening_for_mutex() && !pending && !self.starving() && lock.mutex_starved() > 0
        ||| self.acquiring() && !self.fresh() && !self.listening_for_mutex() && self.starving()
            && !lock.mutex_locked() && lock.mutex_starved() != 1
    }

    /// Runs one turn of the write acquisition: take the mutex (see
    /// `Lock::poll_step`), then set `WRITER_BIT` so that no new readers
    /// come in, and wait until the readers have left.
    pub fn poll_step(&mut self, lock: &mut RawRwLock, cx: &mut Context<'_>) -> (r: Step<()>)
        requires
            old(self).pollable(old(lock)),
            old(lock).wf(),
        ensures
            final(lock).wf(),
            final(lock).readers() == old(lock).readers(),
            r is Ready ==> final(self).acquired() && final(lock).writer() && final(lock).readers() == 0
                && final(lock).mutex_locked(),
            !(r is Ready) ==> final(self).pollable(final(lock)),
            final(self).waiting_readers() ==> final(lock).writer(),
            !old(self).acquiring() ==> final(lock).same_state(old(lock)) && !final(self).acquiring(),
            old(self).waiting_readers() && old(lock).readers() == 0 ==> r is Ready,
            old(self).acquiring() && (r is Ready || final(self).waiting_readers()) ==> !old(lock).mutex_locked(),
            old(self).acquiring() && final(self).acquiring() ==> final(lock).writer() == old(lock).writer()
                && final(lock).mutex_locked() == old(lock).mutex_locked(),
            // The first turn takes a free mutex at once, and the lock too if
            // there are no readers.
            old(self).fresh() ==> (r is Ready <==> old(lock).lock_state().can_write()),
            old(self).fresh() && old(lock).lock_state().can_upgradable_read()
                ==> r is Ready || final(self).waiting_readers(),
            // Once a notification arrived, the turn takes the mutex if it is
            // free and the acquisition may take it; holding it, the writer
            // has the lock at once if there are no readers.
            old(self).listening_for_mutex() && !(r is Pending) ==> ((r is Ready || final(self).waiting_readers())
                <==> (!old(lock).mutex_locked() && (old(self).starving() || old(lock).mutex_starved() == 0))),
            old(self).acquiring() && (r is Ready || final(self).waiting_readers())
                ==> (r is Ready <==> old(lock).readers() == 0),
            final(lock).mutex_notifications() == if old(self).turn_notifies(old(lock), r is Pending) {
                old(lock).mutex_notifications().push(1)
            } else {
                old(lock).mutex_notifications()
            },
            final(lock).no_readers_sent() == old(lock).no_readers_sent(),
            final(lock).no_writer_sent() == old(lock).no_writer_sent(),
            // The starved count counts the starving acquisitions.
            final(lock).mutex_starved() + (if old(self).starving() { 1nat } else { 0nat })
                == old(lock).mutex_starved() + (if final(self).starving() { 1nat } else { 0nat }),
            !final(self).acquiring() ==> !final(self).starving(),
            // A slow turn that does not wait and sees a starved acquisition
            // registers as starved itself.
            old(self).acquiring() && !old(self).fresh() && !old(self).starving() && !(r is Pending)
                && old(lock).mutex_starved() > 0 ==> r is Again && final(self).starving(),
            r is Pending ==> final(self).registered(),
    {
        let mut st = WriteState::Acquired;
        std::mem::swap(&mut st, &mut self.state);
        match st {
            WriteState::Acquiring(mut acquire) => {
                let polled = acquire.poll_step(&mut lock.mutex, cx);
                match polled {
                    Step::Pending => {
                        self.state = WriteState::Acquiring(acquire);
                        Step::Pending
                    },
                    Step::Again => {
                        self.state = WriteState::Acquiring(acquire);
                        Step::Again
                    },
                    Step::Ready(_guard) => {
                        // The guard is kept: the writer holds the mutex.
                        let prev = lock.state;
                        proof { lemma_low_bit(prev); }
                        // Set `WRITER_BIT` so that no new readers come in.
                        lock.state = prev | WRITER_BIT;
                        if lock.state == WRITER_BIT {
                            // No readers: the write lock is ours.
                            self.state = WriteState::Acquired;
                            Step::Ready(())
                        } else {
                            // Start waiting for the readers to finish.
                            self.no_readers = Some(lock.no_readers.listen());
                            self.state = WriteState::WaitingReaders;
                            Step::Again
                        }
                    },
                }
            },
            WriteState::WaitingReaders => {
                if lock.state == WRITER_BIT {
                    // We are the only ones holding the lock.
                    self.state = WriteState::Acquired;
                    return Step::Ready(());
                }
                self.state = WriteState::WaitingReaders;
                // Wait for the readers to finish.
                match self.no_readers.take() {
                    None => {
                        self.no_readers = Some(lock.no_readers.listen());
                        Step::Again
                    },
                    Some(listener) => {
                        match poll_listener(listener, cx) {
                            Err(listener) => {
                                self.no_readers = Some(listener);
                                Step::Pending
                            },
                            Ok(()) => Step::Again,
                        }
                    },
                }
            },
            WriteState::Acquired => {
                // Excluded by `pollable`.
                Step::Pending
            },
        }
    }

    /// Abandons the acquisition: a writer waiting for readers withdraws
    /// (clearing `WRITER_BIT` and releasing the mutex), and one still
    /// waiting for the mutex withdraws from it.
    pub fn cancel(self, lock: &mut RawRwLock)
        requires
            self.pollable(old(lock)),
            old(lock).wf(),
        ensures
            final(lock).wf(),
            final(lock).readers() == old(lock).readers(),
            self.waiting_readers() ==> !final(lock).writer() && !final(lock).mutex_locked()
                && final(lock).mutex_starved() == old(lock).mutex_starved(),
            self.acquiring() ==> final(lock).writer() == old(lock).writer()
                && final(lock).mutex_locked() == old(lock).mutex_locked()
                && final(lock).mutex_starved() == old(lock).mutex_starved()
                    - if self.starving() { 1nat } else { 0nat },
            self.waiting_readers() ==> final(lock).mutex_notifications() == old(lock).mutex_notifications().push(1)
                && final(lock).no_readers_sent() == old(lock).no_readers_sent()
                && final(lock).no_writer_sent() == old(lock).no_writer_sent().push(1),
            !self.waiting_readers() ==> final(lock).same_signals(old(lock)),
    {
        match self.state {
            WriteState::Acquiring(acquire) => acquire.cancel(&mut lock.mutex),
            WriteState::WaitingReaders => lock.write_unlock(),
            WriteState::Acquired => {},
        }
    }
}

/// An upgrade of the upgradable reader to the writer, waiting for the other
/// readers to leave.
pub struct RawUpgrade {
    /// The listener waiting for the readers to leave.
    listener: Option<Listener<NO_READERS>>,
    /// Whether the upgrade completed.
    done: bool,
}

impl RawUpgrade {
    /// Whether the upgrade can be polled on `lock`.
    pub closed spec fn pollable(&self, lock: &RawRwLock) -> bool {
        !self.done && lock.writer() && lock.mutex_locked()
    }

    /// Whether the upgrade waits on a listener.
    pub closed spec fn listening(&self) -> bool {
        self.listener is Some
    }

    /// Whether the upgrade waits on a listener of the lock's "no readers"
    /// signal in which the polling task's waker is registered.
    pub closed spec fn registered(&self) -> bool {
        self.listener matches Some(l) && l.registered()
    }

    /// Runs one turn: complete once no reader is left, and otherwise listen
    /// for the last reader to leave.
    pub fn poll_step(&mut self, lock: &mut RawRwLock, cx: &mut Context<'_>) -> (r: Step<()>)
        requires
            old(self).pollable(old(lock)),
        ensures
            final(lock).same_state(old(lock)),
            r is Ready <==> (old(lock).readers() == 0),
            !(r is Ready) ==> final(self).pollable(final(lock)),
            !old(self).listening() ==> !(r is Pending),
            final(lock).same_signals(old(lock)),
            r is Pending ==> final(self).registered(),
    {
        if lock.state == WRITER_BIT {
            self.done = true;
            return Step::Ready(());
        }
        // There are readers: wait for them to finish.
        match self.listener.take() {
            None => {
                self.listener = Some(lock.no_readers.listen());
                Step::Again
            },
            Some(listener) => {
                match poll_listener(listener, cx) {
                    Err(listener) => {
                        self.listener = Some(listener);
                        Step::Pending
                    },
                    Ok(()) => Step::Again,
                }
            },
        }
    }

    /// Abandons an upgrade that has not completed: the writer withdraws,
    /// which also releases the mutex.
    pub fn cancel(self, lock: &mut RawRwLock)
        requires
            self.pollable(old(lock)),
        ensures
            final(lock).lock_state() == old(lock).lock_state().after_write_unlock(),
            final(lock).mutex_notifications() == old(lock).mutex_notifications().push(1),
            final(lock).no_readers_sent() == old(lock).no_readers_sent(),
            final(lock).no_writer_sent() == old(lock).no_writer_sent().push(1),
    {
        lock.write_unlock();
    }
}

} // verus!
