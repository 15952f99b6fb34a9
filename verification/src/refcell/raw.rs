//! The borrow-state machine behind `RefCell`.
use vstd::prelude::*;
use std::collections::VecDeque;
use std::task::Waker;
use crate::task::{wake, Wakes};
use crate::word::lemma_low_bit;

verus! {

/// Set in the state word while a mutable borrow holds the cell.
pub const BORROW_MUT_BIT: usize = 1;

/// What each shared borrow adds to the state word.
pub const ONE_BORROW: usize = 2;

/// The borrow state of a cell, as numbers.
pub struct BorrowState {
    /// The number of active shared borrows.
    pub borrows: nat,
    /// Whether a mutable borrow is active.
    pub mut_borrowed: bool,
    /// Whether the mutable borrow was handed over to a waiting acquisition
    /// that has not claimed it yet.
    pub reserved: bool,
}

impl BorrowState {
    /// A mutable borrow never coexists with shared borrows.
    pub open spec fn wf(self) -> bool {
        &&& self.mut_borrowed ==> self.borrows == 0
        &&& self.reserved ==> self.mut_borrowed
    }

    /// A shared borrow can be taken now.
    pub open spec fn can_borrow(self) -> bool {
        !self.mut_borrowed
    }

    /// The mutable borrow can be taken now.
    pub open spec fn can_borrow_mut(self) -> bool {
        self.borrows == 0 && !self.mut_borrowed
    }

    /// The state after an attempt to take a shared borrow.
    pub open spec fn after_try_borrow(self) -> BorrowState {
        if self.can_borrow() { BorrowState { borrows: self.borrows + 1, ..self } } else { self }
    }

    /// The state after a shared borrow ends.
    pub open spec fn after_borrow_unlock(self) -> BorrowState {
        BorrowState { borrows: (self.borrows - 1) as nat, ..self }
    }

    /// The state after an attempt to take the mutable borrow.
    pub open spec fn after_try_borrow_mut(self) -> BorrowState {
        if self.can_borrow_mut() { BorrowState { mut_borrowed: true, ..self } } else { self }
    }

    /// A waiting acquisition of the mutable borrow completes now: the cell is
    /// free, or the mutable borrow was handed over and awaits its claim.
    pub open spec fn can_acquire_mut(self) -> bool {
        self.can_borrow_mut() || self.reserved
    }

    /// The state after a waiting acquisition of the mutable borrow tries to
    /// complete: it takes a free cell, or claims a handed-over borrow.
    pub open spec fn after_acquire_mut(self) -> BorrowState {
        if self.can_borrow_mut() {
            self.after_try_borrow_mut()
        } else if self.reserved {
            BorrowState { reserved: false, ..self }
        } else {
            self
        }
    }

    /// The state after the mutable borrow ends; `handed_over` tells whether
    /// a task waiting for the mutable borrow takes it over, in which case the
    /// borrow stays held and is reserved for that acquisition.
    pub open spec fn after_borrow_mut_unlock(self, handed_over: bool) -> BorrowState {
        if handed_over {
            BorrowState { reserved: self.mut_borrowed, ..self }
        } else {
            BorrowState { mut_borrowed: false, reserved: false, ..self }
        }
    }
}

/// What happens to a cell's borrow state: the transitions that the borrow
/// attempts and releases of `RefCell` make.
pub enum BorrowEvent {
    /// An attempt to take a shared borrow (`try_borrow`, `Borrow::poll`).
    TryBorrow,
    /// A shared borrow ends.
    Unborrow,
    /// An attempt to take the mutable borrow on a free cell (`try_borrow_mut`).
    TryBorrowMut,
    /// A waiting acquisition of the mutable borrow tries to complete (`BorrowMut::poll`).
    AcquireMut,
    /// The mutable borrow ends; the flag tells whether it is handed over.
    ReleaseMut(bool),
}

impl BorrowState {
    /// The state after one event.
    pub open spec fn after_event(self, e: BorrowEvent) -> BorrowState {
        match e {
            BorrowEvent::TryBorrow => self.after_try_borrow(),
            BorrowEvent::Unborrow => self.after_borrow_unlock(),
            BorrowEvent::TryBorrowMut => self.after_try_borrow_mut(),
            BorrowEvent::AcquireMut => self.after_acquire_mut(),
            BorrowEvent::ReleaseMut(handed_over) => self.after_borrow_mut_unlock(handed_over),
        }
    }

    /// Whether the event can happen in this state: a shared borrow ends only
    /// while there is one.
    pub open spec fn allows(self, e: BorrowEvent) -> bool {
        e is Unborrow ==> self.borrows > 0
    }

    /// The state after a sequence of events, oldest first.
    pub open spec fn after_events(self, es: Seq<BorrowEvent>) -> BorrowState
        decreases es.len(),
    {
        if es.len() == 0 {
            self
        } else {
            self.after_events(es.drop_last()).after_event(es.last())
        }
    }

    /// Whether every event of the sequence can happen where it happens.
    pub open spec fn allows_all(self, es: Seq<BorrowEvent>) -> bool {
        forall|i: int| 0 <= i < es.len() ==> #[trigger] self.after_events(es.take(i)).allows(es[i])
    }
}

/// Whatever happens to a cell, it is always borrowed by many readers or by
/// one writer, never both.
pub proof fn lemma_borrow_events_wf(s: BorrowState, es: Seq<BorrowEvent>)
    requires
        s.wf(),
        s.allows_all(es),
    ensures
        s.after_events(es).wf(),
    decreases es.len(),
{
    if es.len() > 0 {
        let prefix = es.drop_last();
        assert forall|i: int| 0 <= i < prefix.len() implies
            #[trigger] s.after_events(prefix.take(i)).allows(prefix[i]) by {
            assert(prefix.take(i) == es.take(i));
            assert(s.after_events(es.take(i)).allows(es[i]));
        }
        lemma_borrow_events_wf(s, prefix);
        let last = es.len() - 1;
        assert(es.take(last) == prefix);
        assert(s.after_events(es.take(last)).allows(es[last]));
        lemma_borrow_state_wf(s.after_events(prefix), match es.last() {
            BorrowEvent::ReleaseMut(h) => h,
            _ => false,
        });
    }
}

/// Every transition of the borrow state keeps its invariant.
pub proof fn lemma_borrow_state_wf(s: BorrowState, handed_over: bool)
    requires
        s.wf(),
    ensures
        s.after_try_borrow().wf(),
        s.borrows > 0 ==> s.after_borrow_unlock().wf(),
        s.after_try_borrow_mut().wf(),
        s.after_borrow_mut_unlock(handed_over).wf(),
        s.after_acquire_mut().wf(),
{
}

/// A mutable borrow that ends while another acquisition waits for it is
/// handed over: that acquisition completes at its next attempt, and holds
/// the cell exactly as a mutable borrow taken on a free cell would.
pub proof fn lemma_borrow_mut_handover(s: BorrowState)
    requires
        s.wf(),
        s.mut_borrowed,
    ensures
        s.after_borrow_mut_unlock(true).can_acquire_mut(),
        s.after_borrow_mut_unlock(true).after_acquire_mut()
            == (BorrowState { borrows: 0, mut_borrowed: true, reserved: false }),
        !s.after_borrow_mut_unlock(true).can_borrow(),
        !s.after_borrow_mut_unlock(true).can_borrow_mut(),
{
}

/// A mutable borrow excludes every other borrow, shared or mutable.
pub proof fn lemma_mut_borrow_exclusive(s: BorrowState)
    requires
        s.wf(),
        s.mut_borrowed,
    ensures
        !s.can_borrow(),
        !s.can_borrow_mut(),
        s.after_try_borrow() == s,
        s.after_try_borrow_mut() == s,
{
}

/// Shared borrows exclude the mutable borrow but not each other.
pub proof fn lemma_shared_borrows_coexist(s: BorrowState)
    requires
        s.wf(),
        s.borrows > 0,
    ensures
        s.can_borrow(),
        !s.can_borrow_mut(),
        s.after_try_borrow().borrows == s.borrows + 1,
{
}

/// Ending a shared borrow undoes taking it.
pub proof fn lemma_borrow_roundtrip(s: BorrowState)
    requires
        s.can_borrow(),
    ensures
        s.after_try_borrow().after_borrow_unlock() == s,
{
}

/// Ending the mutable borrow, with no task to take it over, undoes taking it.
pub proof fn lemma_borrow_mut_roundtrip(s: BorrowState)
    requires
        s.can_borrow_mut(),
    ensures
        !s.reserved ==> s.after_try_borrow_mut().after_borrow_mut_unlock(false) == s,
{
}

/// The borrow state of a single-threaded async cell, with the queues of the
/// tasks that wait for it.
///
/// The state word holds `BORROW_MUT_BIT` while a mutable borrow is active and
/// `ONE_BORROW` times the number of active shared borrows above it.
pub struct RawRefCell {
    /// Tasks waiting for a shared borrow; woken when the mutable borrow ends.
    borrow_wakes: VecDeque<Waker>,
    /// Tasks waiting for a mutable borrow; woken when the cell becomes free
    /// or the mutable borrow is handed over.
    borrow_mut_wakes: VecDeque<Waker>,
    /// Whether the mutable borrow was handed over to a woken acquisition
    /// that has not claimed it yet.
    reserved: bool,
    /// The state word.
    state: usize,
    /// The wakers woken so far.
    woken: Wakes,
}

impl RawRefCell {
    /// The number of active shared borrows.
    pub closed spec fn borrows(&self) -> nat {
        (self.state / 2) as nat
    }

    /// Whether a mutable borrow is active.
    pub closed spec fn mut_borrowed(&self) -> bool {
        self.state % 2 == 1
    }

    /// Whether the mutable borrow was handed over and awaits its claim.
    pub closed spec fn reserved(&self) -> bool {
        self.reserved
    }

    /// The borrow state.
    pub open spec fn borrow_state(&self) -> BorrowState {
        BorrowState { borrows: self.borrows(), mut_borrowed: self.mut_borrowed(), reserved: self.reserved() }
    }

    /// The wakers of tasks waiting for a shared borrow, oldest first.
    pub closed spec fn borrow_wakes(&self) -> Seq<Waker> {
        self.borrow_wakes@
    }

    /// The wakers of tasks waiting for a mutable borrow, oldest first.
    pub closed spec fn borrow_mut_wakes(&self) -> Seq<Waker> {
        self.borrow_mut_wakes@
    }

    /// The wakers of waiting tasks that the cell has woken, oldest first.
    pub closed spec fn woken(&self) -> Seq<Waker> {
        self.woken.woken()
    }

    /// The cell's invariant: a mutable borrow never coexists with shared borrows.
    pub open spec fn wf(&self) -> bool {
        self.borrow_state().wf()
    }

    /// Creates a cell with no borrows and no waiting tasks.
    pub fn new() -> (r: Self)
        ensures
            r.wf(),
            r.borrows() == 0,
            !r.mut_borrowed(),
            r.borrow_wakes() == Seq::<Waker>::empty(),
            r.borrow_mut_wakes() == Seq::<Waker>::empty(),
            !r.reserved(),
            r.woken() == Seq::<Waker>::empty(),
    {
        RawRefCell {
            borrow_wakes: VecDeque::new(),
            borrow_mut_wakes: VecDeque::new(),
            reserved: false,
            state: 0,
            woken: Wakes::new(),
        }
    }

    /// Starts a shared-borrow acquisition on this cell.
    pub fn borrow(&self) -> RawBorrow {
        RawBorrow { _private: () }
    }

    /// Queues the waker of a task that waits for a shared borrow.
    pub fn borrow_wake(&mut self, waker: Waker)
        ensures
            final(self).reserved() == old(self).reserved(),
            old(self).wf() ==> final(self).wf(),
            final(self).borrow_wakes() == old(self).borrow_wakes().push(waker),
            final(self).borrow_mut_wakes() == old(self).borrow_mut_wakes(),
            final(self).borrows() == old(self).borrows(),
            final(self).mut_borrowed() == old(self).mut_borrowed(),
            final(self).woken() == old(self).woken(),
    {
        self.borrow_wakes.push_back(waker);
    }

    /// Whether a shared borrow can be taken without overflowing the borrow
    /// count, or a mutable borrow is active.
    pub fn borrow_room(&self) -> (r: bool)
        ensures
            r == (self.mut_borrowed() || 2 * self.borrows() <= isize::MAX),
    {
        let state = self.state;
        proof { lemma_low_bit(state); }
        state & BORROW_MUT_BIT != 0 || state <= isize::MAX as usize
    }

    /// Takes a shared borrow unless a mutable borrow is active.
    ///
    /// The number of borrows must stay below `isize::MAX / 2`, beyond which
    /// the process is aborted.
    pub fn try_borrow(&mut self) -> (r: bool)
        requires
            old(self).mut_borrowed() || 2 * old(self).borrows() <= isize::MAX,
        ensures
            r == old(self).borrow_state().can_borrow(),
            final(self).borrow_state() == old(self).borrow_state().after_try_borrow(),
            old(self).wf() ==> final(self).wf(),
            r == !old(self).mut_borrowed(),
            final(self).borrows() == old(self).borrows() + if r { 1nat } else { 0nat },
            final(self).mut_borrowed() == old(self).mut_borrowed(),
            final(self).borrow_wakes() == old(self).borrow_wakes(),
            final(self).borrow_mut_wakes() == old(self).borrow_mut_wakes(),
            final(self).woken() == old(self).woken(),
    {
        let state = self.state;
        proof { lemma_low_bit(state); }
        // A mutable borrow holds the cell: no shared borrow now.
        if state & BORROW_MUT_BIT != 0 {
            return false;
        }
        self.state = state + ONE_BORROW;
        true
    }

    /// Ends a shared borrow. When the cell becomes entirely free, the oldest
    /// task waiting for a mutable borrow is dequeued and woken.
    pub fn borrow_unlock(&mut self)
        requires
            old(self).borrows() > 0,
        ensures
            final(self).borrow_state() == old(self).borrow_state().after_borrow_unlock(),
            old(self).wf() ==> final(self).wf(),
            final(self).borrows() == old(self).borrows() - 1,
            final(self).mut_borrowed() == old(self).mut_borrowed(),
            final(self).borrow_wakes() == old(self).borrow_wakes(),
            final(self).borrow_mut_wakes() == if final(self).borrows() == 0
                && !final(self).mut_borrowed() && old(self).borrow_mut_wakes().len() > 0 {
                old(self).borrow_mut_wakes().drop_first()
            } else {
                old(self).borrow_mut_wakes()
            },
            final(self).woken() == if final(self).borrows() == 0
                && !final(self).mut_borrowed() && old(self).borrow_mut_wakes().len() > 0 {
                old(self).woken().push(old(self).borrow_mut_wakes()[0])
            } else {
                old(self).woken()
            },
    {
        let state = self.state;
        self.state = state - ONE_BORROW;
        if self.state == 0 {
            // The last borrow is gone: let a waiting mutable borrow in.
            if let Some(borrow_mut_wake) = self.borrow_mut_wakes.pop_front() {
                wake(&mut self.woken, borrow_mut_wake);
            }
        }
    }

    /// Starts a mutable-borrow acquisition on this cell.
    pub fn borrow_mut(&self) -> RawBorrowMut {
        RawBorrowMut { _private: () }
    }

    /// Queues the waker of a task that waits for a mutable borrow.
    pub fn borrow_mut_wake(&mut self, waker: Waker)
        ensures
            final(self).reserved() == old(self).reserved(),
            old(self).wf() ==> final(self).wf(),
            final(self).borrow_mut_wakes() == old(self).borrow_mut_wakes().push(waker),
            final(self).borrow_wakes() == old(self).borrow_wakes(),
            final(self).borrows() == old(self).borrows(),
            final(self).mut_borrowed() == old(self).mut_borrowed(),
            final(self).woken() == old(self).woken(),
    {
        self.borrow_mut_wakes.push_back(waker);
    }

    /// Takes the mutable borrow if the cell has no borrow of either kind.
    pub fn try_borrow_mut(&mut self) -> (r: bool)
        ensures
            r == old(self).borrow_state().can_borrow_mut(),
            final(self).borrow_state() == old(self).borrow_state().after_try_borrow_mut(),
            old(self).wf() ==> final(self).wf(),
            r == (old(self).borrows() == 0 && !old(self).mut_borrowed()),
            r ==> final(self).mut_borrowed() && final(self).borrows() == 0,
            !r ==> final(self).borrows() == old(self).borrows()
                && final(self).mut_borrowed() == old(self).mut_borrowed(),
            final(self).borrow_wakes() == old(self).borrow_wakes(),
            final(self).borrow_mut_wakes() == old(self).borrow_mut_wakes(),
            final(self).woken() == old(self).woken(),
    {
        let state = self.state;
        proof { lemma_low_bit(state); }
        // A mutable borrow already holds the cell.
        if state & BORROW_MUT_BIT != 0 {
            return false;
        }
        // Shared borrows hold the cell.
        if state & !BORROW_MUT_BIT != 0 {
            return false;
        }
        self.state = BORROW_MUT_BIT;
        true
    }

    /// Ends the mutable borrow.
    ///
    /// If a task waits for a mutable borrow, the oldest one is dequeued and
    /// woken, and the borrow passes on to it: the cell stays mutably borrowed
    /// and the borrow is reserved until a waiting acquisition claims it (see
    /// `RawBorrowMut::try_borrow_mut`). Otherwise the mutable-borrow flag is
    /// cleared and every task waiting for a shared borrow is dequeued and woken.
    pub fn borrow_mut_unlock(&mut self)
        ensures
            final(self).borrow_state() == old(self).borrow_state().after_borrow_mut_unlock(
                old(self).borrow_mut_wakes().len() > 0),
            old(self).wf() ==> final(self).wf(),
            old(self).borrow_mut_wakes().len() > 0 ==> {
                &&& final(self).borrow_mut_wakes() == old(self).borrow_mut_wakes().drop_first()
                &&& final(self).borrows() == old(self).borrows()
                &&& final(self).mut_borrowed() == old(self).mut_borrowed()
                &&& final(self).borrow_wakes() == old(self).borrow_wakes()
                &&& final(self).woken() == old(self).woken().push(old(self).borrow_mut_wakes()[0])
            },
            old(self).borrow_mut_wakes().len() == 0 ==> {
                &&& !final(self).mut_borrowed()
                &&& final(self).borrows() == old(self).borrows()
                &&& final(self).borrow_wakes() == Seq::<Waker>::empty()
                &&& final(self).borrow_mut_wakes() == old(self).borrow_mut_wakes()
                &&& final(self).woken() == old(self).woken() + old(self).borrow_wakes()
            },
    {
        if let Some(borrow_mut_wake) = self.borrow_mut_wakes.pop_front() {
            // Hand the mutable borrow over to the woken acquisition.
            let state = self.state;
            proof { lemma_low_bit(state); }
            self.reserved = state & BORROW_MUT_BIT != 0;
            wake(&mut self.woken, borrow_mut_wake);
        } else {
            let state = self.state;
            proof { lemma_low_bit(state); }
            self.state = state & !BORROW_MUT_BIT;
            self.reserved = false;
            while self.borrow_wakes.len() > 0
                invariant
                    !self.mut_borrowed(),
                    !self.reserved(),
                    self.borrows() == old(self).borrows(),
                    self.borrow_mut_wakes() == old(self).borrow_mut_wakes(),
                    old(self).borrow_mut_wakes().len() == 0,
                    self.woken() + self.borrow_wakes() == old(self).woken() + old(self).borrow_wakes(),
                decreases self.borrow_wakes@.len(),
            {
                let ghost queue = self.borrow_wakes();
                if let Some(waiting_borrow) = self.borrow_wakes.pop_front() {
                    let ghost before = self.woken();
                    wake(&mut self.woken, waiting_borrow);
                    assert(self.woken() + self.borrow_wakes() =~= before + queue);
                }
            }
            assert(self.borrow_wakes() =~= Seq::<Waker>::empty());
            assert(self.woken() + self.borrow_wakes() =~= self.woken());
        }
    }
}

impl RawRefCell {
    /// Claims a mutable borrow that was handed over, if there is one.
    pub fn claim_handover(&mut self) -> (r: bool)
        ensures
            r == old(self).reserved(),
            !final(self).reserved(),
            final(self).borrows() == old(self).borrows(),
            final(self).mut_borrowed() == old(self).mut_borrowed(),
            final(self).borrow_wakes() == old(self).borrow_wakes(),
            final(self).borrow_mut_wakes() == old(self).borrow_mut_wakes(),
            old(self).wf() ==> final(self).wf(),
            final(self).woken() == old(self).woken(),
    {
        if self.reserved {
            self.reserved = false;
            true
        } else {
            false
        }
    }
}

/// An acquisition of a shared borrow that has not completed yet.
pub struct RawBorrow {
    _private: (),
}

impl RawBorrow {
    /// Tries to take a shared borrow of `lock`.
    pub fn try_borrow(&self, lock: &mut RawRefCell) -> (r: bool)
        requires
            old(lock).mut_borrowed() || 2 * old(lock).borrows() <= isize::MAX,
        ensures
            old(lock).wf() ==> final(lock).wf(),
            r == !old(lock).mut_borrowed(),
            final(lock).borrows() == old(lock).borrows() + if r { 1nat } else { 0nat },
            final(lock).mut_borrowed() == old(lock).mut_borrowed(),
            final(lock).reserved() == old(lock).reserved(),
            final(lock).borrow_wakes() == old(lock).borrow_wakes(),
            final(lock).borrow_mut_wakes() == old(lock).borrow_mut_wakes(),
            final(lock).woken() == old(lock).woken(),
    {
        lock.try_borrow()
    }
}

/// An acquisition of the mutable borrow that has not completed yet.
pub struct RawBorrowMut {
    _private: (),
}

impl RawBorrowMut {
    /// Tries to complete the acquisition of the mutable borrow of `lock`:
    /// takes the cell if it is free, and otherwise claims a mutable borrow
    /// that was handed over.
    pub fn try_borrow_mut(&self, lock: &mut RawRefCell) -> (r: bool)
        ensures
            old(lock).wf() ==> final(lock).wf(),
            r == old(lock).borrow_state().can_acquire_mut(),
            final(lock).borrow_state() == old(lock).borrow_state().after_acquire_mut(),
            old(lock).wf() && r ==> final(lock).mut_borrowed() && final(lock).borrows() == 0
                && !final(lock).reserved(),
            !r ==> final(lock).borrow_state() == old(lock).borrow_state(),
            final(lock).borrow_wakes() == old(lock).borrow_wakes(),
            final(lock).borrow_mut_wakes() == old(lock).borrow_mut_wakes(),
            final(lock).woken() == old(lock).woken(),
    {
        if lock.try_borrow_mut() {
            true
        } else {
            lock.claim_handover()
        }
    }
}

} // verus!
