//! A barrier: `n` tasks wait until all of them have arrived.
use vstd::prelude::*;
use std::task::Context;
use crate::mutex::{Lock, Mutex};
use crate::signal::{poll_listener, signal_notify, Listener, Signal, BARRIER_RELEASE};
use crate::step::Step;

verus! {

/// The generation that follows `g`; generation numbers wrap around.
pub open spec fn next_generation(g: u64) -> u64 {
    if g == u64::MAX { 0 } else { (g + 1) as u64 }
}

/// The counters of a barrier, as numbers.
pub struct BarrierState {
    /// The number of tasks that the barrier gathers.
    pub n: nat,
    /// How many tasks of the current generation have arrived.
    pub count: nat,
    /// The current generation.
    pub generation: u64,
}

impl BarrierState {
    /// The count of arrived tasks stays below `n`.
    pub open spec fn wf(self) -> bool {
        self.count == 0 || self.count < self.n
    }

    /// Whether the next arrival completes the generation (that task leads).
    pub open spec fn arrival_completes(self) -> bool {
        self.count + 1 >= self.n
    }

    /// The counters after one more task arrives.
    pub open spec fn after_arrival(self) -> BarrierState {
        if self.arrival_completes() {
            BarrierState { count: 0, generation: next_generation(self.generation), ..self }
        } else {
            BarrierState { count: self.count + 1, ..self }
        }
    }

    /// Whether a waiter that arrived in generation `local_gen` is released:
    /// its generation is over (or the count is already full).
    pub open spec fn releases(self, local_gen: u64) -> bool {
        local_gen != self.generation || self.count >= self.n
    }

    /// The counters after `k` more tasks arrive.
    pub open spec fn after_arrivals(self, k: nat) -> BarrierState
        decreases k,
    {
        if k == 0 { self } else { self.after_arrivals((k - 1) as nat).after_arrival() }
    }
}

/// Arrivals keep the invariant.
pub proof fn lemma_arrival_wf(s: BarrierState)
    requires
        s.wf(),
    ensures
        s.after_arrival().wf(),
{
}

/// In a generation of a barrier for `n >= 1` tasks, the first `n - 1`
/// arrivals wait and the `n`th one leads: it resets the count and advances
/// the generation, so the barrier can be used again.
pub proof fn lemma_generation_round(s: BarrierState, k: nat)
    requires
        s.count == 0,
        s.n >= 1,
        k < s.n,
    ensures
        s.after_arrivals(k).count == k,
        s.after_arrivals(k).generation == s.generation,
        s.after_arrivals(k).n == s.n,
        s.after_arrivals(k).arrival_completes() <==> k == s.n - 1,
        k == s.n - 1 ==> s.after_arrivals(s.n) == (BarrierState {
            n: s.n,
            count: 0,
            generation: next_generation(s.generation),
        }),
    decreases k,
{
    if k > 0 {
        lemma_generation_round(s, (k - 1) as nat);
    }
    if k == s.n - 1 {
        assert(s.after_arrivals(s.n) == s.after_arrivals(k).after_arrival());
    }
}

/// The arrival that completes a generation releases every waiter of that
/// generation, and they stay released while the next generation gathers.
pub proof fn lemma_generation_releases_waiters(s: BarrierState, k: nat)
    requires
        s.wf(),
        s.arrival_completes(),
        s.n >= 1,
        k < s.n,
    ensures
        s.after_arrival().releases(s.generation),
        s.after_arrival().after_arrivals(k).releases(s.generation),
{
    lemma_generation_round(s.after_arrival(), k);
}

/// A generation of a barrier for `n >= 1` tasks has exactly one leader: of
/// the `n` arrivals that start from an empty count, the last one and no
/// other completes the generation, and after all `n` the count is empty
/// again and the generation has advanced.
pub proof fn lemma_one_leader_per_generation(s: BarrierState)
    requires
        s.count == 0,
        s.n >= 1,
    ensures
        forall|k: nat| k < s.n ==> (#[trigger] s.after_arrivals(k).arrival_completes() <==> k == s.n - 1),
        s.after_arrivals(s.n) == (BarrierState { n: s.n, count: 0, generation: next_generation(s.generation) }),
{
    assert forall|k: nat| k < s.n implies (#[trigger] s.after_arrivals(k).arrival_completes() <==> k == s.n - 1) by {
        lemma_generation_round(s, k);
    }
    lemma_generation_round(s, (s.n - 1) as nat);
}

/// A counter to synchronize multiple tasks at the same time.
pub struct Barrier {
    n: usize,
    state: Mutex<State>,
    event: Signal<BARRIER_RELEASE>,
}

/// The barrier's counters, protected by its mutex.
struct State {
    count: usize,
    generation_id: u64,
}

impl Barrier {
    /// The number of tasks that the barrier gathers.
    pub closed spec fn n(&self) -> nat {
        self.n as nat
    }

    /// How many tasks of the current generation have arrived.
    pub closed spec fn count(&self) -> nat {
        self.state.value().count as nat
    }

    /// The current generation; it advances each time all tasks have arrived.
    pub closed spec fn generation(&self) -> u64 {
        self.state.value().generation_id
    }

    /// Whether the barrier's mutex is held.
    pub closed spec fn locked(&self) -> bool {
        self.state.locked()
    }

    /// The number of acquisitions starved on the barrier's mutex.
    pub closed spec fn starved(&self) -> nat {
        self.state.starved()
    }

    /// The counts of the notifications that released waiting tasks, oldest
    /// first.
    pub closed spec fn released(&self) -> Seq<usize> {
        self.event.sent()
    }

    /// The counts of the notifications sent to acquisitions waiting for the
    /// barrier's mutex, oldest first.
    pub closed spec fn mutex_notifications(&self) -> Seq<usize> {
        self.state.notifications()
    }

    /// The barrier's counters.
    pub open spec fn barrier_state(&self) -> BarrierState {
        BarrierState { n: self.n(), count: self.count(), generation: self.generation() }
    }

    /// The barrier's invariant: the count of arrived tasks stays below `n`
    /// (a barrier for no task releases every task at once).
    pub open spec fn wf(&self) -> bool {
        self.barrier_state().wf()
    }

    /// Creates a barrier that can block the given number of tasks.
    ///
    /// A barrier will block `n`-1 tasks which wait on it and then release all
    /// of them at once when the `n`th task arrives.
    pub fn new(n: usize) -> (r: Barrier)
        ensures
            r.wf(),
            r.n() == n,
            r.count() == 0,
            r.generation() == 0,
            !r.locked(),
            r.starved() == 0,
            r.released() == Seq::<usize>::empty(),
            r.mutex_notifications() == Seq::<usize>::empty(),
    {
        Barrier { n, state: Mutex::new(State { count: 0, generation_id: 0 }), event: Signal::new() }
    }

    /// Whether one more acquisition can register as starved on the barrier's
    /// mutex: the process is aborted when the count would pass `usize::MAX / 4`.
    pub fn starvation_room(&self) -> (r: bool)
        ensures
            r == (self.starved() <= usize::MAX / 4),
    {
        self.state.starvation_room()
    }

    /// Starts waiting on the barrier; poll the returned future.
    pub fn wait(&self) -> (r: BarrierWait)
        ensures
            r.initial(),
            r.fresh(),
            self.starved() <= usize::MAX / 4 ==> r.pollable(self),
    {
        BarrierWait { lock: Some(self.state.lock()), evl: None, state: WaitState::Initial }
    }
}

/// Where a wait on the barrier stands.
enum WaitState {
    /// Acquiring the mutex to register the arrival.
    Initial,
    /// Waiting for the generation to complete.
    Waiting { local_gen: u64 },
    /// Re-acquiring the mutex to check the generation again.
    Reacquiring { local_gen: u64 },
}

/// The future returned by [`Barrier::wait`].
pub struct BarrierWait {
    /// The ongoing acquisition of the barrier's mutex.
    lock: Option<Lock>,
    /// The listener waiting for the generation to complete.
    evl: Option<Listener<BARRIER_RELEASE>>,
    /// Where the wait stands.
    state: WaitState,
}

impl BarrierWait {
    /// Whether the task has not registered its arrival yet.
    pub closed spec fn initial(&self) -> bool {
        self.state is Initial
    }

    /// Whether the task waits for the generation to complete.
    pub closed spec fn waiting(&self) -> bool {
        self.state is Waiting
    }

    /// Whether the task re-acquires the mutex to check the generation.
    pub closed spec fn reacquiring(&self) -> bool {
        self.state is Reacquiring
    }

    /// The generation in which the task arrived.
    pub closed spec fn local_generation(&self) -> u64 {
        match self.state {
            WaitState::Initial => 0,
            WaitState::Waiting { local_gen } => local_gen,
            WaitState::Reacquiring { local_gen } => local_gen,
        }
    }

    /// Whether the wait has not been polled yet.
    pub closed spec fn fresh(&self) -> bool {
        &&& self.state is Initial
        &&& self.lock matches Some(l) && !l.started()
    }

    /// Whether the ongoing acquisition of the mutex has not been polled yet.
    pub closed spec fn lock_fresh(&self) -> bool {
        &&& !(self.state is Waiting)
        &&& self.lock matches Some(l) && !l.started()
    }

    /// Whether the wait has the polling task's waker registered where the
    /// next wake-up comes from: on the barrier's release signal while it
    /// waits for the generation, and otherwise on the mutex's unlock
    /// notifications.
    pub closed spec fn registered(&self) -> bool {
        match self.state {
            WaitState::Waiting { .. } => self.evl matches Some(l) && l.registered(),
            _ => self.lock matches Some(l) && l.registered(),
        }
    }

    /// Whether the ongoing acquisition of the mutex has been polled.
    pub closed spec fn lock_started(&self) -> bool {
        &&& !(self.state is Waiting)
        &&& self.lock matches Some(l) && l.started()
    }

    /// Whether a turn that ends pending (`pending`) or not passes an unlock
    /// notification of the barrier's mutex on to the next waiting
    /// acquisition: one notified while others starve, and a starving one
    /// that finds the mutex free but shared with other starving acquisitions.
    pub open spec fn turn_notifies(&self, barrier: &Barrier, pending: bool) -> bool {
        ||| self.lock_listening() && !pending && !self.starving() && barrier.starved() > 0
        ||| self.lock_started() && !self.lock_listening() && self.starving() && !barrier.locked()
            && barrier.starved() != 1
    }

    /// Whether the ongoing acquisition of the mutex waits for an unlock
    /// notification.
    pub closed spec fn lock_listening(&self) -> bool {
        &&& !(self.state is Waiting)
        &&& self.lock matches Some(l) && l.listening()
    }

    /// Whether the wait can be polled on `barrier`.
    pub closed spec fn pollable(&self, barrier: &Barrier) -> bool {
        match self.state {
            WaitState::Waiting { .. } => self.evl is Some,
            _ => self.lock matches Some(l) && l.pollable(&barrier.state),
        }
    }

    /// Runs one turn of the wait.
    ///
    /// The first turns take the barrier's mutex and register the arrival:
    /// the `n`th task resets the count, advances the generation, releases
    /// every waiting task and finishes as the leader; the others start
    /// waiting. A waiting task that is woken takes the mutex again and
    /// finishes once its generation is complete; otherwise it waits again.
    pub fn poll_step(&mut self, barrier: &mut Barrier, cx: &mut Context<'_>) -> (r: Step<BarrierWaitResult>)
        requires
            old(self).pollable(old(barrier)),
            old(barrier).wf(),
            !old(barrier).locked(),
            old(self).waiting() ==> old(barrier).starved() <= usize::MAX / 4,
        ensures
            final(barrier).wf(),
            final(barrier).n() == old(barrier).n(),
            !final(barrier).locked(),
            !(r is Ready) ==> final(self).pollable(final(barrier)),
            // Registering an arrival is `after_arrival`; the task that
            // completes the generation leads.
            old(self).initial() && (r is Ready || final(self).waiting()) ==> {
                &&& final(barrier).barrier_state() == old(barrier).barrier_state().after_arrival()
                &&& (r is Ready <==> old(barrier).barrier_state().arrival_completes())
            },
            // The arrival of the last task completes the generation.
            r is Ready && old(self).initial() ==> {
                &&& r->0.leader()
                &&& old(barrier).count() + 1 >= old(barrier).n()
                &&& final(barrier).count() == 0
                &&& final(barrier).generation() == next_generation(old(barrier).generation())
            },
            // The arrival of another task is counted.
            old(self).initial() && final(self).waiting() ==> {
                &&& old(barrier).count() + 1 < old(barrier).n()
                &&& final(barrier).count() == old(barrier).count() + 1
                &&& final(barrier).generation() == old(barrier).generation()
                &&& final(self).local_generation() == old(barrier).generation()
            },
            // A woken task finishes once its generation is over.
            r is Ready && !old(self).initial() ==> {
                &&& !r->0.leader()
                &&& old(self).reacquiring()
                &&& (old(self).local_generation() != old(barrier).generation()
                    || old(barrier).count() >= old(barrier).n())
            },
            old(self).reacquiring() && final(self).waiting() ==> {
                &&& old(self).local_generation() == old(barrier).generation()
                &&& old(barrier).count() < old(barrier).n()
                &&& final(self).local_generation() == old(self).local_generation()
            },
            !(old(self).initial() && (r is Ready || final(self).waiting())) ==> {
                &&& final(barrier).count() == old(barrier).count()
                &&& final(barrier).generation() == old(barrier).generation()
            },
            old(self).waiting() && !(r is Pending) ==> final(self).reacquiring()
                && final(self).lock_fresh()
                && final(self).local_generation() == old(self).local_generation(),
            // A woken waiter that holds the mutex finishes exactly when its
            // generation is over.
            old(self).reacquiring() && (r is Ready || final(self).waiting())
                ==> (r is Ready <==> old(barrier).barrier_state().releases(old(self).local_generation())),
            // An acquisition of the mutex that has not been polled yet takes
            // it at once when nobody starves on it (the mutex is free here).
            !old(self).waiting() && old(self).lock_fresh() && old(barrier).starved() == 0
                ==> r is Ready || final(self).waiting(),
            // Once an unlock notification arrived, the turn takes the free
            // mutex if the acquisition may take it.
            !old(self).waiting() && old(self).lock_listening() && !(r is Pending)
                ==> ((r is Ready || final(self).waiting()) <==> (old(self).starving() || old(barrier).starved() == 0)),
            old(self).waiting() ==> !(r is Ready),
            // The first turn registers the arrival at once if the mutex is
            // free and nobody starves on it.
            old(self).fresh() && old(barrier).starved() == 0 ==> r is Ready || final(self).waiting(),
            (r is Pending) ==> final(self).local_generation() == old(self).local_generation()
                && final(self).initial() == old(self).initial()
                && final(self).waiting() == old(self).waiting()
                && final(self).reacquiring() == old(self).reacquiring(),
            // The leader releases every waiting task.
            final(barrier).released() == if old(self).initial() && r is Ready {
                old(barrier).released().push(usize::MAX)
            } else {
                old(barrier).released()
            },
            // A turn that took the mutex unlocks it again, notifying one
            // waiting acquisition; a turn may also pass a notification on.
            final(barrier).mutex_notifications() == if (!old(self).waiting() && (r is Ready || final(self).waiting()))
                || old(self).turn_notifies(old(barrier), r is Pending) {
                old(barrier).mutex_notifications().push(1)
            } else {
                old(barrier).mutex_notifications()
            },
            // The starved count counts the starving waits.
            final(barrier).starved() + (if old(self).starving() { 1nat } else { 0nat })
                == old(barrier).starved() + (if final(self).starving() { 1nat } else { 0nat }),
            r is Ready || final(self).waiting() ==> !final(self).starving(),
            // Eventual fairness: a slow turn that does not wait and sees a
            // starved acquisition registers as starved itself.
            old(self).lock_started() && !old(self).starving() && !(r is Pending) && old(barrier).starved() > 0
                ==> r is Again && final(self).starving(),
            r is Pending ==> final(self).registered(),
    {
        let mut st = WaitState::Initial;
        std::mem::swap(&mut st, &mut self.state);
        match st {
            WaitState::Initial => {
                let mut lock = self.lock.take().unwrap();
                match lock.poll_step(&mut barrier.state, cx) {
                    Step::Pending => {
                        self.lock = Some(lock);
                        self.state = WaitState::Initial;
                        Step::Pending
                    },
                    Step::Again => {
                        self.lock = Some(lock);
                        self.state = WaitState::Initial;
                        Step::Again
                    },
                    Step::Ready(guard) => {
                        let count = guard.deref(&barrier.state).count;
                        let local_gen = guard.deref(&barrier.state).generation_id;
                        let count = count + 1;
                        if count < barrier.n {
                            // We need to wait for the event.
                            *guard.deref_mut(&mut barrier.state) = State { count, generation_id: local_gen };
                            self.evl = Some(barrier.event.listen());
                            self.state = WaitState::Waiting { local_gen };
                            guard.release(&mut barrier.state);
                            Step::Again
                        } else {
                            // We are the last one.
                            let next = local_gen.wrapping_add(1);
                            *guard.deref_mut(&mut barrier.state) = State { count: 0, generation_id: next };
                            signal_notify(&mut barrier.event, usize::MAX);
                            guard.release(&mut barrier.state);
                            Step::Ready(BarrierWaitResult { is_leader: true })
                        }
                    },
                }
            },
            WaitState::Waiting { local_gen } => {
                let evl = self.evl.take().unwrap();
                match poll_listener(evl, cx) {
                    Err(evl) => {
                        self.evl = Some(evl);
                        self.state = WaitState::Waiting { local_gen };
                        Step::Pending
                    },
                    Ok(()) => {
                        // We are now re-acquiring the mutex.
                        self.lock = Some(barrier.state.lock());
                        self.state = WaitState::Reacquiring { local_gen };
                        Step::Again
                    },
                }
            },
            WaitState::Reacquiring { local_gen } => {
                let mut lock = self.lock.take().unwrap();
                match lock.poll_step(&mut barrier.state, cx) {
                    Step::Pending => {
                        self.lock = Some(lock);
                        self.state = WaitState::Reacquiring { local_gen };
                        Step::Pending
                    },
                    Step::Again => {
                        self.lock = Some(lock);
                        self.state = WaitState::Reacquiring { local_gen };
                        Step::Again
                    },
                    Step::Ready(guard) => {
                        let count = guard.deref(&barrier.state).count;
                        let generation_id = guard.deref(&barrier.state).generation_id;
                        if local_gen == generation_id && count < barrier.n {
                            // We need to wait for the event again.
                            self.evl = Some(barrier.event.listen());
                            self.state = WaitState::Waiting { local_gen };
                            guard.release(&mut barrier.state);
                            Step::Again
                        } else {
                            // We are ready, but not the leader.
                            self.state = WaitState::Reacquiring { local_gen };
                            guard.release(&mut barrier.state);
                            Step::Ready(BarrierWaitResult { is_leader: false })
                        }
                    },
                }
            },
        }
    }
}

impl BarrierWait {
    /// Whether the wait is registered as starved on the barrier's mutex.
    pub closed spec fn starving(&self) -> bool {
        &&& !(self.state is Waiting)
        &&& self.lock matches Some(l) && l.starving()
    }

    /// Abandons the wait; an ongoing acquisition of the barrier's mutex
    /// withdraws from it. An arrival already registered stays counted.
    pub fn cancel(self, barrier: &mut Barrier)
        requires
            self.pollable(old(barrier)),
        ensures
            final(barrier).barrier_state() == old(barrier).barrier_state(),
            final(barrier).locked() == old(barrier).locked(),
            final(barrier).starved() == old(barrier).starved() - if self.starving() { 1nat } else { 0nat },
            final(barrier).released() == old(barrier).released(),
            final(barrier).mutex_notifications() == old(barrier).mutex_notifications(),
    {
        match self.state {
            WaitState::Waiting { .. } => {},
            _ => {
                if let Some(lock) = self.lock {
                    lock.cancel(&mut barrier.state);
                }
            },
        }
    }
}

/// Returned by [`Barrier::wait`] when all tasks have called it.
#[derive(Debug, Clone)]
pub struct BarrierWaitResult {
    is_leader: bool,
}

impl BarrierWaitResult {
    /// Whether the waiter was the last to arrive.
    pub closed spec fn leader(&self) -> bool {
        self.is_leader
    }

    /// Returns `true` if the waiter was the last to call [`Barrier::wait`].
    pub fn is_leader(&self) -> (r: bool)
        ensures
            r == self.leader(),
    {
        self.is_leader
    }
}

} // verus!
