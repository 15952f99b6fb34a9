//! An async mutex with eventual fairness.
use vstd::prelude::*;
use std::task::Context;
use std::time::Instant;
use crate::signal::{poll_listener, signal_notify, Listener, Signal, LOCK_OPS};
use crate::step::Step;
use crate::task::{duration_nanos, elapsed_since, instant_now};
use crate::text::{debug_frame, debug_frame_text, debug_text};
use std::fmt::Debug;
use crate::word::lemma_low_bit;

verus! {

/// How long, in nanoseconds, a lock operation may lose the race for the
/// mutex before it switches to the fair strategy.
pub const STARVATION_NANOS: u128 = 500_000;

/// The lock state of a mutex, as numbers.
pub struct MutexState {
    /// Whether the mutex is locked.
    pub locked: bool,
    /// The number of lock operations registered as starved.
    pub starved: nat,
}

impl MutexState {
    /// The fast path can take the mutex: it is unlocked and nobody starves.
    pub open spec fn can_try_lock(self) -> bool {
        !self.locked && self.starved == 0
    }

    /// The state after an attempt to take the mutex on the fast path.
    pub open spec fn after_try_lock(self) -> MutexState {
        if self.can_try_lock() { MutexState { locked: true, ..self } } else { self }
    }

    /// The state after the mutex is unlocked.
    pub open spec fn after_unlock(self) -> MutexState {
        MutexState { locked: false, ..self }
    }

    /// The state after a lock operation registers as starved.
    pub open spec fn after_starve(self) -> MutexState {
        MutexState { starved: self.starved + 1, ..self }
    }

    /// The state after a starved operation takes the mutex and leaves the
    /// starved count.
    pub open spec fn after_starved_acquire(self) -> MutexState {
        MutexState { locked: true, starved: (self.starved - 1) as nat }
    }

    /// The state after a starved operation is abandoned.
    pub open spec fn after_withdraw(self) -> MutexState {
        MutexState { starved: (self.starved - 1) as nat, ..self }
    }

    /// The state after one event.
    pub open spec fn after_event(self, e: MutexEvent) -> MutexState {
        match e {
            MutexEvent::TryLock => self.after_try_lock(),
            MutexEvent::Unlock => self.after_unlock(),
            MutexEvent::Starve => self.after_starve(),
            MutexEvent::StarvedAcquire => self.after_starved_acquire(),
            MutexEvent::Withdraw => self.after_withdraw(),
        }
    }

    /// The state after a sequence of events, oldest first.
    pub open spec fn after_events(self, es: Seq<MutexEvent>) -> MutexState
        decreases es.len(),
    {
        if es.len() == 0 {
            self
        } else {
            self.after_events(es.drop_last()).after_event(es.last())
        }
    }
}

/// What happens to a mutex's state: the transitions that `Mutex::try_lock`,
/// `MutexGuard::release`, `Lock::poll_step` and `Lock::cancel` make.
pub enum MutexEvent {
    /// A fast-path attempt to take the mutex.
    TryLock,
    /// The holder unlocks the mutex.
    Unlock,
    /// A lock operation registers as starved.
    Starve,
    /// A starved operation takes the mutex.
    StarvedAcquire,
    /// A starved operation is abandoned.
    Withdraw,
}

/// The number of operations that a sequence of events left starving: those
/// that registered, less those that were served or abandoned.
pub open spec fn starving_ops(es: Seq<MutexEvent>) -> int
    decreases es.len(),
{
    if es.len() == 0 {
        0
    } else {
        starving_ops(es.drop_last()) + match es.last() {
            MutexEvent::Starve => 1int,
            MutexEvent::StarvedAcquire => -1int,
            MutexEvent::Withdraw => -1int,
            _ => 0int,
        }
    }
}

/// The starved count always equals the number of operations that
/// registered as starved and are still live, whatever events happen, as long
/// as only registered operations are served or abandoned.
pub proof fn lemma_starved_counts_live_ops(s: MutexState, es: Seq<MutexEvent>)
    requires
        forall|i: int| 0 <= i <= es.len() ==> s.starved + starving_ops(#[trigger] es.take(i)) >= 0,
    ensures
        s.after_events(es).starved == s.starved + starving_ops(es),
    decreases es.len(),
{
    if es.len() > 0 {
        let prefix = es.drop_last();
        assert forall|i: int| 0 <= i <= prefix.len() implies
            s.starved + starving_ops(#[trigger] prefix.take(i)) >= 0 by {
            assert(prefix.take(i) == es.take(i));
        }
        lemma_starved_counts_live_ops(s, prefix);
        assert(es.take(es.len() as int) == es);
    }
}

/// A locked mutex cannot be taken again until it is unlocked.
pub proof fn lemma_mutex_exclusive(s: MutexState)
    requires
        s.locked,
    ensures
        !s.can_try_lock(),
        s.after_try_lock() == s,
{
}

/// While a lock operation starves, the fast path cannot take the mutex, even
/// when it is unlocked: the starved operations are served first.
pub proof fn lemma_starved_served_first(s: MutexState)
    requires
        s.starved > 0,
    ensures
        !s.can_try_lock(),
        s.after_try_lock() == s,
{
}

/// Unlocking undoes a successful fast-path lock.
pub proof fn lemma_mutex_roundtrip(s: MutexState)
    requires
        s.can_try_lock(),
    ensures
        s.after_try_lock().locked,
        s.after_try_lock().after_unlock() == s,
{
}

/// An async mutex.
///
/// The locking mechanism uses eventual fairness: a lock operation that keeps
/// losing the race for longer than 0.5 milliseconds registers itself as
/// starved, and while any operation is starved, newcomers cannot take the
/// mutex on the fast path.
///
/// The state word holds 1 in its lowest bit while the mutex is locked and
/// twice the number of starved lock operations above it.
pub struct Mutex<T> {
    state: usize,
    lock_ops: Signal<LOCK_OPS>,
    data: T,
}

impl<T> Mutex<T> {
    /// Whether the mutex is locked.
    pub closed spec fn locked(&self) -> bool {
        self.state % 2 == 1
    }

    /// The number of lock operations registered as starved.
    pub closed spec fn starved(&self) -> nat {
        (self.state / 2) as nat
    }

    /// The protected value.
    pub closed spec fn value(&self) -> T {
        self.data
    }

    /// The counts of the notifications sent to waiting lock operations,
    /// oldest first.
    pub closed spec fn notifications(&self) -> Seq<usize> {
        self.lock_ops.sent()
    }

    /// The lock state.
    pub open spec fn mutex_state(&self) -> MutexState {
        MutexState { locked: self.locked(), starved: self.starved() }
    }

    /// Whether `self` and `other` have the same lock state and value.
    pub open spec fn same_state(&self, other: &Self) -> bool {
        &&& self.locked() == other.locked()
        &&& self.starved() == other.starved()
        &&& self.value() == other.value()
    }

    /// Creates a new, unlocked mutex holding `data`.
    pub fn new(data: T) -> (r: Mutex<T>)
        ensures
            !r.locked(),
            r.starved() == 0,
            r.value() == data,
            r.notifications() == Seq::<usize>::empty(),
    {
        Mutex { state: 0, lock_ops: Signal::new(), data }
    }

    /// Consumes the mutex, returning the underlying data.
    pub fn into_inner(self) -> (r: T)
        ensures
            r == self.value(),
    {
        self.data
    }

    /// Starts acquiring the mutex; poll the returned future.
    pub fn lock(&self) -> (r: Lock)
        ensures
            !r.started(),
            !r.finished(),
            !r.starving(),
            !r.listening(),
    {
        Lock { acquire_slow: None }
    }

    /// Takes the mutex if it is unlocked and no lock operation is starved.
    pub fn try_lock(&mut self) -> (r: Option<MutexGuard>)
        ensures
            r is Some <==> old(self).mutex_state().can_try_lock(),
            final(self).mutex_state() == old(self).mutex_state().after_try_lock(),
            r is Some <==> (!old(self).locked() && old(self).starved() == 0),
            r is Some ==> final(self).locked() && final(self).starved() == 0,
            r is None ==> final(self).locked() == old(self).locked()
                && final(self).starved() == old(self).starved(),
            final(self).value() == old(self).value(),
            final(self).notifications() == old(self).notifications(),
    {
        if self.state == 0 {
            self.state = 1;
            Some(MutexGuard { _private: () })
        } else {
            None
        }
    }

    /// Returns a mutable reference to the underlying data; the exclusive
    /// borrow of the mutex guarantees that it is not locked elsewhere.
    pub fn get_mut(&mut self) -> (r: &mut T)
        ensures
            *r == old(self).value(),
            final(self).value() == *final(r),
            final(self).locked() == old(self).locked(),
            final(self).starved() == old(self).starved(),
            final(self).notifications() == old(self).notifications(),
    {
        &mut self.data
    }

    /// Whether one more lock operation can register as starved: the process
    /// is aborted when the starved count would pass `usize::MAX / 4`.
    pub fn starvation_room(&self) -> (r: bool)
        ensures
            r == (self.starved() <= usize::MAX / 4),
    {
        self.state / 2 <= usize::MAX / 4
    }

    /// Unlocks the mutex and notifies one waiting lock operation.
    pub(crate) fn unlock_unchecked(&mut self)
        requires
            old(self).locked(),
        ensures
            final(self).mutex_state() == old(self).mutex_state().after_unlock(),
            !final(self).locked(),
            final(self).starved() == old(self).starved(),
            final(self).value() == old(self).value(),
            final(self).notifications() == old(self).notifications().push(1),
    {
        self.state = self.state - 1;
        signal_notify(&mut self.lock_ops, 1);
    }
}

impl<T: Debug> Mutex<T> {
    /// The `Debug` text of the mutex: `Mutex { data: <locked> }` if it cannot
    /// be taken at once, and otherwise the text of the data, read while the
    /// mutex is taken for that moment.
    pub fn debug_string(&mut self) -> (r: String)
        ensures
            final(self).same_state(old(self)),
            !old(self).mutex_state().can_try_lock() ==> r@ == debug_frame_text("Mutex"@, "data"@, None),
            old(self).mutex_state().can_try_lock() ==> exists|text: Seq<char>|
                r@ == debug_frame_text("Mutex"@, "data"@, Some(text)),
            final(self).notifications() == if old(self).mutex_state().can_try_lock() {
                old(self).notifications().push(1)
            } else {
                old(self).notifications()
            },
    {
        match self.try_lock() {
            None => debug_frame("Mutex", "data", None),
            Some(guard) => {
                let text = debug_text(guard.deref(self));
                guard.release(self);
                debug_frame("Mutex", "data", Some(text.as_str()))
            },
        }
    }
}

impl<T: Default> Default for Mutex<T> {
    /// An unlocked mutex holding `T::default()`.
    fn default() -> (r: Mutex<T>)
        ensures
            !r.locked(),
            r.starved() == 0,
            r.notifications() == Seq::<usize>::empty(),
    {
        Mutex::new(T::default())
    }
}

impl<T> From<T> for Mutex<T> {
    /// An unlocked mutex holding `val`.
    fn from(val: T) -> (r: Mutex<T>)
        ensures
            !r.locked(),
            r.starved() == 0,
            r.value() == val,
            r.notifications() == Seq::<usize>::empty(),
    {
        Mutex::new(val)
    }
}

impl<T> vstd::std_specs::convert::FromSpecImpl<T> for Mutex<T> {
    /// A new mutex holds an event of its own, which no value of `T`
    /// determines; `from` is specified by its own `ensures` instead.
    open spec fn obeys_from_spec() -> bool {
        false
    }

    open spec fn from_spec(v: T) -> Mutex<T> {
        vstd::pervasive::arbitrary()
    }
}

/// The future returned by [`Mutex::lock`].
pub struct Lock {
    acquire_slow: Option<AcquireSlow>,
}

impl Lock {
    /// Whether the operation went past the fast path into the slow one.
    pub closed spec fn started(&self) -> bool {
        self.acquire_slow is Some
    }

    /// Whether the slow path handed out the mutex (the future is spent).
    pub closed spec fn finished(&self) -> bool {
        self.acquire_slow matches Some(a) && !a.active
    }

    /// Whether the operation is registered as starved.
    pub closed spec fn starving(&self) -> bool {
        self.acquire_slow matches Some(a) && a.active && a.starved
    }

    /// Whether the operation waits on a listener of the mutex's event.
    pub closed spec fn listening(&self) -> bool {
        self.acquire_slow matches Some(a) && a.listener is Some
    }

    /// Whether the operation waits on a listener of the mutex's unlock
    /// notifications in which the polling task's waker is registered, so
    /// that the next notification that reaches it wakes the task.
    pub closed spec fn registered(&self) -> bool {
        self.acquire_slow matches Some(a) && a.listener matches Some(l) && l.registered()
    }

    /// What polling needs of the future and the mutex: the future is not
    /// spent, a starving operation is counted in the mutex, and registering
    /// as starved cannot overflow the counter (the process aborts otherwise).
    pub open spec fn pollable<T>(&self, mutex: &Mutex<T>) -> bool {
        &&& !self.finished()
        &&& self.starving() ==> mutex.starved() >= 1
        &&& self.starving() || mutex.starved() <= usize::MAX / 4
    }

    /// Whether a turn of this operation that ends pending (`pending`) or not
    /// passes an unlock notification on to the next waiting operation: one
    /// that was notified while it cannot take the mutex because others
    /// starve, and a starving one that finds the mutex free but shared with
    /// other starving operations.
    pub open spec fn turn_notifies<T>(&self, mutex: &Mutex<T>, pending: bool) -> bool {
        ||| self.listening() && !pending && !self.starving() && mutex.starved() > 0
        ||| self.started() && !self.listening() && self.starving() && !mutex.locked() && mutex.starved() != 1
    }

    /// Runs one turn of the acquisition loop.
    ///
    /// The first turn tries the fast path; after that, the slow path runs
    /// (see `AcquireSlow`): it listens for unlock notifications, retries, and
    /// after losing for 0.5 ms registers as starved and switches to the fair
    /// strategy, under which only starved operations take the mutex.
    pub fn poll_step<T>(&mut self, mutex: &mut Mutex<T>, cx: &mut Context<'_>) -> (r: Step<MutexGuard>)
        requires
            old(self).pollable(old(mutex)),
        ensures
            final(mutex).value() == old(mutex).value(),
            // What a completed turn did to the mutex.
            r is Ready ==> {
                &&& !old(mutex).locked()
                &&& final(mutex).locked()
                &&& final(mutex).starved() == old(mutex).starved() - if old(self).starving() { 1nat } else { 0nat }
                &&& !old(self).starving() ==> old(mutex).starved() == 0
                &&& !final(self).starving()
            },
            r is Pending ==> final(mutex).locked() == old(mutex).locked()
                && final(mutex).starved() == old(mutex).starved()
                && final(self).starving() == old(self).starving()
                && final(self).listening(),
            r is Again ==> final(mutex).locked() == old(mutex).locked() && {
                ||| final(self).starving() == old(self).starving()
                    && final(mutex).starved() == old(mutex).starved()
                ||| !old(self).starving() && final(self).starving()
                    && final(mutex).starved() == old(mutex).starved() + 1
            },
            !(r is Ready) ==> final(self).pollable(final(mutex)) && final(self).started(),
            // The fast path decides without waiting.
            !old(self).started() ==> (r is Ready <==> (!old(mutex).locked() && old(mutex).starved() == 0)),
            !old(self).started() && r is Ready ==> !final(self).started(),
            !old(self).started() && !(r is Ready) ==> r is Again && !final(self).listening()
                && !final(self).starving() && final(mutex).same_state(old(mutex)),
            // A slow path with no listener decides without waiting.
            old(self).started() && !old(self).listening() ==> !(r is Pending),
            old(self).started() && !old(self).listening() && !old(self).starving()
                ==> (r is Ready <==> (!old(mutex).locked() && old(mutex).starved() == 0)),
            old(self).started() && !old(self).listening() && old(self).starving()
                ==> (r is Ready <==> (!old(mutex).locked() && old(mutex).starved() == 1)),
            // Once a notification arrived, the turn takes the mutex if it is
            // free and the operation may take it (it starves, or nobody does).
            old(self).listening() && !(r is Pending) ==> (r is Ready <==> (!old(mutex).locked()
                && (old(self).starving() || old(mutex).starved() == 0))),
            // Each turn is one event of the mutex, or none.
            r is Ready ==> final(mutex).mutex_state() == old(mutex).mutex_state().after_event(
                if old(self).starving() { MutexEvent::StarvedAcquire } else { MutexEvent::TryLock }),
            !(r is Ready) && !old(self).starving() && final(self).starving()
                ==> final(mutex).mutex_state() == old(mutex).mutex_state().after_event(MutexEvent::Starve),
            !(r is Ready) && old(self).starving() == final(self).starving()
                ==> final(mutex).mutex_state() == old(mutex).mutex_state(),
            // The starved count counts the starving operations.
            final(mutex).starved() + (if old(self).starving() { 1nat } else { 0nat })
                == old(mutex).starved() + (if final(self).starving() { 1nat } else { 0nat }),
            // Eventual fairness: a slow turn that does not wait and sees a
            // starved operation registers as starved itself.
            old(self).started() && !old(self).starving() && !(r is Pending) && old(mutex).starved() > 0
                ==> r is Again && final(self).starving() && final(mutex).starved() == old(mutex).starved() + 1,
            old(self).started() && !old(self).listening() && !old(self).starving() && old(mutex).locked()
                && old(mutex).starved() == 0 ==> r is Again && !final(self).starving() && final(self).listening(),
            final(mutex).notifications() == if old(self).turn_notifies(old(mutex), r is Pending) {
                old(mutex).notifications().push(1)
            } else {
                old(mutex).notifications()
            },
            // A pending turn leaves the task's waker with the unlock notifications.
            r is Pending ==> final(self).registered(),
    {
        match self.acquire_slow.take() {
            None => {
                // Try the fast path before registering slowly.
                match mutex.try_lock() {
                    Some(guard) => {
                        Step::Ready(guard)
                    },
                    None => {
                        self.acquire_slow = Some(AcquireSlow::new());
                        Step::Again
                    },
                }
            },
            Some(mut acquire_slow) => {
                let r = acquire_slow.poll_step(mutex, cx);
                self.acquire_slow = Some(acquire_slow);
                match r {
                    Step::Ready(()) => Step::Ready(MutexGuard { _private: () }),
                    Step::Pending => Step::Pending,
                    Step::Again => Step::Again,
                }
            },
        }
    }

    /// Abandons the acquisition. A starving operation withdraws from the
    /// mutex's starved count.
    pub fn cancel<T>(self, mutex: &mut Mutex<T>)
        requires
            self.starving() ==> old(mutex).starved() >= 1,
        ensures
            final(mutex).locked() == old(mutex).locked(),
            final(mutex).starved() == old(mutex).starved() - if self.starving() { 1nat } else { 0nat },
            final(mutex).value() == old(mutex).value(),
            final(mutex).notifications() == old(mutex).notifications(),
            final(mutex).mutex_state() == if self.starving() {
                old(mutex).mutex_state().after_event(MutexEvent::Withdraw)
            } else {
                old(mutex).mutex_state()
            },
    {
        if let Some(mut acquire_slow) = self.acquire_slow {
            let _ = acquire_slow.take_mutex(mutex);
        }
    }
}

/// Whether a lock operation that has been losing the race for `nanos`
/// nanoseconds has waited too long and switches to the fair strategy.
pub fn exceeds_starvation_limit(nanos: u128) -> (r: bool)
    ensures
        r == (nanos > STARVATION_NANOS),
{
    nanos > STARVATION_NANOS
}

/// What one turn of the slow path's optimistic loop ended with.
enum HotTurn {
    Acquired,
    Pending,
    Continue,
    Starving,
}

/// The slow path of a lock operation.
struct AcquireSlow {
    /// Whether the operation still waits for the mutex (it has not been handed out).
    active: bool,
    /// The listener waiting for an unlock notification.
    listener: Option<Listener<LOCK_OPS>>,
    /// When the slow path started.
    start: Option<Instant>,
    /// Whether the operation is registered as starved.
    starved: bool,
}

impl AcquireSlow {
    fn new() -> (r: AcquireSlow)
        ensures
            r.active,
            r.listener is None,
            !r.starved,
    {
        AcquireSlow { active: true, listener: None, start: None, starved: false }
    }

    /// Marks the mutex as handed out, withdrawing from the starved count if
    /// the operation had registered there. Returns whether it was still active.
    fn take_mutex<T>(&mut self, mutex: &mut Mutex<T>) -> (r: bool)
        requires
            old(self).active && old(self).starved ==> old(mutex).starved() >= 1,
        ensures
            r == old(self).active,
            !final(self).active,
            final(self).starved == old(self).starved,
            final(self).listener == old(self).listener,
            final(mutex).locked() == old(mutex).locked(),
            final(mutex).starved() == old(mutex).starved() - if old(self).active && old(self).starved { 1nat } else { 0nat },
            final(mutex).value() == old(mutex).value(),
            final(mutex).notifications() == old(mutex).notifications(),
    {
        let active = self.active;
        self.active = false;
        if self.starved && active {
            // Withdraw from the starved count before leaving.
            mutex.state = mutex.state - 2;
        }
        active
    }

    /// Whether the slow path has been losing the race for too long: never
    /// before its start is recorded, and afterwards as the clock says.
    fn waited_too_long(&self) -> (r: bool)
        ensures
            self.start is None ==> !r,
    {
        match &self.start {
            Some(start) => {
                let elapsed = elapsed_since(start);
                exceeds_starvation_limit(duration_nanos(&elapsed))
            },
            None => false,
        }
    }

    /// One turn of the optimistic loop: listen for unlocks and race for the
    /// mutex while nobody is starved.
    fn hot_turn<T>(&mut self, mutex: &mut Mutex<T>, cx: &mut Context<'_>) -> (r: HotTurn)
        requires
            old(self).active,
            !old(self).starved,
        ensures
            !final(self).starved,
            final(mutex).value() == old(mutex).value(),
            r is Acquired ==> !old(mutex).locked() && old(mutex).starved() == 0
                && final(mutex).locked() && final(mutex).starved() == 0 && !final(self).active,
            !(r is Acquired) ==> final(mutex).same_state(old(mutex)) && final(self).active,
            r is Pending ==> final(self).listener is Some,
            old(self).listener is None ==> {
                &&& (r is Acquired <==> (!old(mutex).locked() && old(mutex).starved() == 0))
                &&& (r is Continue <==> (old(mutex).locked() && old(mutex).starved() == 0))
                &&& (r is Starving <==> old(mutex).starved() > 0)
            },
            r is Continue && old(self).listener is None ==> final(self).listener is Some,
            // Once a notification arrived, the turn races for the mutex.
            old(self).listener is Some && !(r is Pending)
                ==> (r is Acquired <==> (!old(mutex).locked() && old(mutex).starved() == 0)),
            // A notification seen while others starve is passed on.
            old(self).listener is Some && !(r is Pending) && old(mutex).starved() > 0 ==> r is Starving,
            final(mutex).notifications() == if old(self).listener is Some && !(r is Pending)
                && old(mutex).starved() > 0 {
                old(mutex).notifications().push(1)
            } else {
                old(mutex).notifications()
            },
            r is Pending ==> (final(self).listener matches Some(l) && l.registered()),
    {
        match self.listener.take() {
            None => {
                // Start listening for events.
                self.listener = Some(mutex.lock_ops.listen());
                proof { lemma_low_bit(mutex.state); }
                // Try locking if nobody is being starved.
                if mutex.state == 0 {
                    mutex.state = 1;
                    let _ = self.take_mutex(mutex);
                    HotTurn::Acquired
                } else if mutex.state == 1 {
                    // The lock is held and nobody is starved.
                    HotTurn::Continue
                } else {
                    // Somebody is starved.
                    HotTurn::Starving
                }
            },
            Some(listener) => {
                // Wait for a notification.
                match poll_listener(listener, cx) {
                    Err(listener) => {
                        self.listener = Some(listener);
                        return HotTurn::Pending;
                    },
                    Ok(()) => {},
                }
                proof { lemma_low_bit(mutex.state); }
                // Try locking if nobody is being starved.
                if mutex.state == 0 {
                    mutex.state = 1;
                    let _ = self.take_mutex(mutex);
                    HotTurn::Acquired
                } else if mutex.state == 1 {
                    // The lock is held and nobody is starved. If this goes on
                    // for too long, switch to the fair strategy.
                    if self.waited_too_long() {
                        HotTurn::Starving
                    } else {
                        HotTurn::Continue
                    }
                } else {
                    // Pass on the notification: it was probably meant for a
                    // starved operation.
                    signal_notify(&mut mutex.lock_ops, 1);
                    HotTurn::Starving
                }
            },
        }
    }

    /// One turn of the fair loop, run once the operation is starved: only a
    /// starved operation may take the mutex, and a notification is passed on
    /// when the mutex is free but not ours to take.
    fn fair_turn<T>(&mut self, mutex: &mut Mutex<T>, cx: &mut Context<'_>) -> (r: Step<()>)
        requires
            old(self).active,
            old(self).starved,
            old(mutex).starved() >= 1,
        ensures
            final(self).starved,
            final(mutex).value() == old(mutex).value(),
            r is Ready ==> !old(mutex).locked() && final(mutex).locked()
                && final(mutex).starved() == old(mutex).starved() - 1 && !final(self).active,
            !(r is Ready) ==> final(mutex).same_state(old(mutex)) && final(self).active,
            r is Pending ==> final(self).listener is Some,
            old(self).listener is None ==> !(r is Pending)
                && (r is Ready <==> (!old(mutex).locked() && old(mutex).starved() == 1)),
            // Once a notification arrived, the turn takes a free mutex.
            old(self).listener is Some && !(r is Pending) ==> (r is Ready <==> !old(mutex).locked()),
            final(mutex).notifications() == if old(self).listener is None && !old(mutex).locked()
                && old(mutex).starved() != 1 {
                old(mutex).notifications().push(1)
            } else {
                old(mutex).notifications()
            },
            r is Pending ==> (final(self).listener matches Some(l) && l.registered()),
    {
        match self.listener.take() {
            None => {
                // Start listening for events.
                self.listener = Some(mutex.lock_ops.listen());
                let s = mutex.state;
                proof { lemma_low_bit(s); }
                // Try locking if nobody else is being starved.
                if s == 2 {
                    mutex.state = 2 | 1;
                    assert(2usize | 1usize == 3usize) by (bit_vector);
                    let _ = self.take_mutex(mutex);
                    Step::Ready(())
                } else if s % 2 == 1 {
                    // The lock is held by someone.
                    Step::Again
                } else {
                    // The lock is free but others are starved too: be fair,
                    // notify the first listener and wait in line.
                    signal_notify(&mut mutex.lock_ops, 1);
                    Step::Again
                }
            },
            Some(listener) => {
                // Wait for a notification.
                match poll_listener(listener, cx) {
                    Err(listener) => {
                        self.listener = Some(listener);
                        return Step::Pending;
                    },
                    Ok(()) => {},
                }
                // Try acquiring the lock without waiting for others.
                let s = mutex.state;
                proof { lemma_low_bit(s); }
                mutex.state = s | 1;
                if s % 2 == 0 {
                    let _ = self.take_mutex(mutex);
                    Step::Ready(())
                } else {
                    Step::Again
                }
            },
        }
    }

    /// One turn of the slow path. The turn that leaves the optimistic loop
    /// registers the operation as starved.
    fn poll_step<T>(&mut self, mutex: &mut Mutex<T>, cx: &mut Context<'_>) -> (r: Step<()>)
        requires
            old(self).active,
            old(self).starved ==> old(mutex).starved() >= 1,
            old(self).starved || old(mutex).starved() <= usize::MAX / 4,
        ensures
            final(mutex).value() == old(mutex).value(),
            final(self).active == !(r is Ready),
            final(self).active && final(self).starved ==> final(mutex).starved() >= 1,
            !final(self).starved ==> !old(self).starved,
            r is Ready ==> {
                &&& !old(mutex).locked()
                &&& final(mutex).locked()
                &&& final(mutex).starved() == old(mutex).starved() - if old(self).starved { 1nat } else { 0nat }
                &&& !old(self).starved ==> old(mutex).starved() == 0
            },
            r is Pending ==> final(mutex).same_state(old(mutex))
                && final(self).starved == old(self).starved
                && final(self).listener is Some,
            r is Again ==> final(mutex).locked() == old(mutex).locked() && {
                ||| final(self).starved == old(self).starved
                    && final(mutex).starved() == old(mutex).starved()
                ||| !old(self).starved && final(self).starved
                    && final(mutex).starved() == old(mutex).starved() + 1
            },
            old(self).listener is None ==> !(r is Pending),
            old(self).listener is Some && !(r is Pending) ==> (r is Ready <==> (!old(mutex).locked()
                && (old(self).starved || old(mutex).starved() == 0))),
            old(self).listener is None && !old(self).starved
                ==> (r is Ready <==> (!old(mutex).locked() && old(mutex).starved() == 0)),
            old(self).listener is None && old(self).starved
                ==> (r is Ready <==> (!old(mutex).locked() && old(mutex).starved() == 1)),
            final(mutex).starved() + (if old(self).starved { 1nat } else { 0nat })
                == old(mutex).starved() + (if final(self).active && final(self).starved { 1nat } else { 0nat }),
            !old(self).starved && !(r is Pending) && old(mutex).starved() > 0
                ==> r is Again && final(self).starved && final(mutex).starved() == old(mutex).starved() + 1,
            !old(self).starved && old(self).listener is None && old(mutex).locked() && old(mutex).starved() == 0
                ==> r is Again && !final(self).starved && final(self).listener is Some,
            final(mutex).notifications() == if (old(self).listener is Some && !(r is Pending)
                && !old(self).starved && old(mutex).starved() > 0) || (old(self).listener is None
                && old(self).starved && !old(mutex).locked() && old(mutex).starved() != 1) {
                old(mutex).notifications().push(1)
            } else {
                old(mutex).notifications()
            },
            r is Pending ==> (final(self).listener matches Some(l) && l.registered()),
    {
        if self.start.is_none() {
            self.start = Some(instant_now());
        }
        if !self.starved {
            match self.hot_turn(mutex, cx) {
                HotTurn::Acquired => Step::Ready(()),
                HotTurn::Pending => Step::Pending,
                HotTurn::Continue => Step::Again,
                HotTurn::Starving => {
                    // Register as starved; the fair loop takes over.
                    mutex.state = mutex.state + 2;
                    self.starved = true;
                    Step::Again
                },
            }
        } else {
            self.fair_turn(mutex, cx)
        }
    }
}

/// Holds the mutex; release it with [`MutexGuard::release`].
pub struct MutexGuard {
    _private: (),
}

impl MutexGuard {
    /// The protected value.
    pub fn deref<'a, T>(&self, mutex: &'a Mutex<T>) -> (r: &'a T)
        requires
            mutex.locked(),
        ensures
            *r == mutex.value(),
    {
        &mutex.data
    }

    /// The protected value, for writing.
    pub fn deref_mut<'a, T>(&self, mutex: &'a mut Mutex<T>) -> (r: &'a mut T)
        requires
            old(mutex).locked(),
        ensures
            *r == old(mutex).value(),
            final(mutex).value() == *final(r),
            final(mutex).locked() == old(mutex).locked(),
            final(mutex).starved() == old(mutex).starved(),
            final(mutex).notifications() == old(mutex).notifications(),
    {
        &mut mutex.data
    }

    /// Unlocks the mutex and notifies one waiting lock operation.
    pub fn release<T>(self, mutex: &mut Mutex<T>)
        requires
            old(mutex).locked(),
        ensures
            final(mutex).mutex_state() == old(mutex).mutex_state().after_unlock(),
            !final(mutex).locked(),
            final(mutex).starved() == old(mutex).starved(),
            final(mutex).value() == old(mutex).value(),
            final(mutex).notifications() == old(mutex).notifications().push(1),
    {
        mutex.unlock_unchecked();
    }
}

} // verus!
