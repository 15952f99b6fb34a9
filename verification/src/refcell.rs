//! A single-threaded async cell: any number of shared borrows or one
//! mutable borrow, with tasks waiting in line for the cell to free up.
pub mod raw;

use vstd::prelude::*;
use std::task::{Context, Waker};
use crate::step::Step;
use crate::text::{debug_frame, debug_frame_text, debug_text};
use std::fmt::Debug;
use crate::task::{clone_waker, context_waker};
use self::raw::{BorrowState, RawBorrow, RawBorrowMut, RawRefCell};

verus! {

/// A single-threaded async mutable memory location.
///
/// It allows any number of shared borrows or one mutable borrow at a time.
/// The cell's state and value are passed to the futures and guards that work
/// on it.
pub struct RefCell<T> {
    raw: RawRefCell,
    value: T,
}

impl<T> RefCell<T> {
    /// The number of active shared borrows.
    pub closed spec fn borrows(&self) -> nat {
        self.raw.borrows()
    }

    /// Whether a mutable borrow is active.
    pub closed spec fn mut_borrowed(&self) -> bool {
        self.raw.mut_borrowed()
    }

    /// Whether the mutable borrow was handed over to a woken acquisition
    /// that has not claimed it yet.
    pub closed spec fn reserved(&self) -> bool {
        self.raw.reserved()
    }

    /// The wakers of tasks waiting for a shared borrow, oldest first.
    pub closed spec fn borrow_wakes(&self) -> Seq<Waker> {
        self.raw.borrow_wakes()
    }

    /// The wakers of tasks waiting for a mutable borrow, oldest first.
    pub closed spec fn borrow_mut_wakes(&self) -> Seq<Waker> {
        self.raw.borrow_mut_wakes()
    }

    /// The wakers of waiting tasks that the cell has woken, oldest first.
    pub closed spec fn woken(&self) -> Seq<Waker> {
        self.raw.woken()
    }

    /// The wrapped value.
    pub closed spec fn value(&self) -> T {
        self.value
    }

    /// The borrow state.
    pub open spec fn borrow_state(&self) -> BorrowState {
        BorrowState { borrows: self.borrows(), mut_borrowed: self.mut_borrowed(), reserved: self.reserved() }
    }

    /// The cell's invariant: a mutable borrow never coexists with shared borrows.
    pub open spec fn wf(&self) -> bool {
        self.borrow_state().wf()
    }

    /// Whether the two cells are in the same borrow state, with the same queues.
    pub open spec fn same_borrow_state(&self, other: &Self) -> bool {
        &&& self.borrows() == other.borrows()
        &&& self.mut_borrowed() == other.mut_borrowed()
        &&& self.reserved() == other.reserved()
        &&& self.borrow_wakes() == other.borrow_wakes()
        &&& self.borrow_mut_wakes() == other.borrow_mut_wakes()
        &&& self.woken() == other.woken()
    }

    /// Creates a new cell holding `value`, with no borrows and no waiting tasks.
    pub fn new(value: T) -> (r: RefCell<T>)
        ensures
            r.wf(),
            r.value() == value,
            r.borrows() == 0,
            !r.mut_borrowed(),
            r.borrow_wakes() == Seq::<Waker>::empty(),
            r.borrow_mut_wakes() == Seq::<Waker>::empty(),
            r.woken() == Seq::<Waker>::empty(),
    {
        RefCell { raw: RawRefCell::new(), value }
    }

    /// Starts acquiring a shared borrow; poll the returned future.
    pub fn borrow(&self) -> Borrow {
        Borrow { raw: self.raw.borrow() }
    }

    /// Takes a shared borrow now, or returns `None` if a mutable borrow is active.
    pub fn try_borrow(&mut self) -> (r: Option<Ref>)
        requires
            old(self).wf(),
            old(self).mut_borrowed() || 2 * old(self).borrows() <= isize::MAX,
        ensures
            final(self).borrow_state() == old(self).borrow_state().after_try_borrow(),
            final(self).wf(),
            r is Some <==> !old(self).mut_borrowed(),
            final(self).borrows() == old(self).borrows() + if r is Some { 1nat } else { 0nat },
            final(self).mut_borrowed() == old(self).mut_borrowed(),
            final(self).borrow_wakes() == old(self).borrow_wakes(),
            final(self).borrow_mut_wakes() == old(self).borrow_mut_wakes(),
            final(self).value() == old(self).value(),
            final(self).woken() == old(self).woken(),
    {
        if self.raw.try_borrow() {
            Some(Ref { _private: () })
        } else {
            None
        }
    }

    /// Whether one more shared borrow can be taken without overflowing the
    /// borrow count, or a mutable borrow is active (then none is taken). The
    /// process is aborted when a shared borrow would pass that count.
    pub fn borrow_room(&self) -> (r: bool)
        ensures
            r == (self.mut_borrowed() || 2 * self.borrows() <= isize::MAX),
    {
        self.raw.borrow_room()
    }

    /// Starts acquiring the mutable borrow; poll the returned future.
    pub fn borrow_mut(&self) -> BorrowMut {
        BorrowMut { raw: self.raw.borrow_mut() }
    }

    /// Takes the mutable borrow now, or returns `None` if any borrow is active.
    pub fn try_borrow_mut(&mut self) -> (r: Option<RefMut>)
        requires
            old(self).wf(),
        ensures
            final(self).borrow_state() == old(self).borrow_state().after_try_borrow_mut(),
            final(self).wf(),
            r is Some <==> (old(self).borrows() == 0 && !old(self).mut_borrowed()),
            r is Some ==> final(self).mut_borrowed() && final(self).borrows() == 0,
            r is None ==> final(self).same_borrow_state(old(self)),
            final(self).borrow_wakes() == old(self).borrow_wakes(),
            final(self).borrow_mut_wakes() == old(self).borrow_mut_wakes(),
            final(self).value() == old(self).value(),
            final(self).woken() == old(self).woken(),
    {
        if self.raw.try_borrow_mut() {
            Some(RefMut { _private: () })
        } else {
            None
        }
    }
}

impl<T: Debug> RefCell<T> {
    /// The `Debug` text of the cell: `RefCell { value: <locked> }` while a
    /// mutable borrow is active, and otherwise the text of the value, read
    /// under a shared borrow taken for that moment.
    pub fn debug_string(&mut self) -> (r: String)
        requires
            old(self).wf(),
            old(self).mut_borrowed() || 2 * old(self).borrows() <= isize::MAX,
        ensures
            final(self).wf(),
            final(self).borrows() == old(self).borrows(),
            final(self).mut_borrowed() == old(self).mut_borrowed(),
            final(self).reserved() == old(self).reserved(),
            final(self).borrow_wakes() == old(self).borrow_wakes(),
            final(self).borrow_mut_wakes() == if !old(self).mut_borrowed() && old(self).borrows() == 0
                && old(self).borrow_mut_wakes().len() > 0 {
                old(self).borrow_mut_wakes().drop_first()
            } else {
                old(self).borrow_mut_wakes()
            },
            final(self).woken() == if !old(self).mut_borrowed() && old(self).borrows() == 0
                && old(self).borrow_mut_wakes().len() > 0 {
                old(self).woken().push(old(self).borrow_mut_wakes()[0])
            } else {
                old(self).woken()
            },
            final(self).value() == old(self).value(),
            old(self).mut_borrowed() ==> r@ == debug_frame_text("RefCell"@, "value"@, None),
            !old(self).mut_borrowed() ==> exists|text: Seq<char>|
                r@ == debug_frame_text("RefCell"@, "value"@, Some(text)),
    {
        match self.try_borrow() {
            None => debug_frame("RefCell", "value", None),
            Some(guard) => {
                let text = debug_text(guard.deref(self));
                guard.release(self);
                debug_frame("RefCell", "value", Some(text.as_str()))
            },
        }
    }
}

/// The future returned by [`RefCell::borrow`].
pub struct Borrow {
    raw: RawBorrow,
}

impl Borrow {
    /// Polls the acquisition once: takes a shared borrow if no mutable borrow
    /// is active, and otherwise queues the polling task's waker.
    pub fn poll<T>(&self, cell: &mut RefCell<T>, cx: &mut Context<'_>) -> (r: Step<Ref>)
        requires
            old(cell).wf(),
            old(cell).mut_borrowed() || 2 * old(cell).borrows() <= isize::MAX,
        ensures
            final(cell).borrow_state() == old(cell).borrow_state().after_try_borrow(),
            final(cell).wf(),
            r is Ready <==> !old(cell).mut_borrowed(),
            !(r is Again),
            r is Ready ==> final(cell).borrows() == old(cell).borrows() + 1
                && final(cell).borrow_wakes() == old(cell).borrow_wakes(),
            r is Pending ==> final(cell).borrows() == old(cell).borrows()
                && final(cell).borrow_wakes().len() == old(cell).borrow_wakes().len() + 1
                && final(cell).borrow_wakes().drop_last() == old(cell).borrow_wakes(),
            final(cell).mut_borrowed() == old(cell).mut_borrowed(),
            final(cell).borrow_mut_wakes() == old(cell).borrow_mut_wakes(),
            final(cell).value() == old(cell).value(),
            final(cell).woken() == old(cell).woken(),
    {
        if self.raw.try_borrow(&mut cell.raw) {
            Step::Ready(Ref { _private: () })
        } else {
            let waker = clone_waker(context_waker(cx));
            cell.raw.borrow_wake(waker);
            assert(cell.raw.borrow_wakes().drop_last() =~= old(cell).raw.borrow_wakes());
            Step::Pending
        }
    }
}

/// The future returned by [`RefCell::borrow_mut`].
pub struct BorrowMut {
    raw: RawBorrowMut,
}

impl BorrowMut {
    /// Polls the acquisition once: takes the mutable borrow if the cell is
    /// free or claims a mutable borrow handed over by its last holder, and
    /// otherwise queues the polling task's waker.
    pub fn poll<T>(&self, cell: &mut RefCell<T>, cx: &mut Context<'_>) -> (r: Step<RefMut>)
        requires
            old(cell).wf(),
        ensures
            final(cell).borrow_state() == old(cell).borrow_state().after_acquire_mut(),
            final(cell).wf(),
            r is Ready <==> old(cell).borrow_state().can_acquire_mut(),
            !(r is Again),
            r is Ready ==> final(cell).mut_borrowed() && final(cell).borrows() == 0
                && !final(cell).reserved()
                && final(cell).borrow_mut_wakes() == old(cell).borrow_mut_wakes(),
            r is Pending ==> final(cell).borrow_state() == old(cell).borrow_state()
                && final(cell).borrow_mut_wakes().len() == old(cell).borrow_mut_wakes().len() + 1
                && final(cell).borrow_mut_wakes().drop_last() == old(cell).borrow_mut_wakes(),
            final(cell).borrow_wakes() == old(cell).borrow_wakes(),
            final(cell).value() == old(cell).value(),
            final(cell).woken() == old(cell).woken(),
    {
        if self.raw.try_borrow_mut(&mut cell.raw) {
            Step::Ready(RefMut { _private: () })
        } else {
            let waker = clone_waker(context_waker(cx));
            cell.raw.borrow_mut_wake(waker);
            assert(cell.raw.borrow_mut_wakes().drop_last() =~= old(cell).raw.borrow_mut_wakes());
            Step::Pending
        }
    }
}

/// A shared borrow of a `RefCell`'s value; release it with [`Ref::release`].
pub struct Ref {
    _private: (),
}

impl Ref {
    /// The borrowed value.
    pub fn deref<'a, T>(&self, cell: &'a RefCell<T>) -> (r: &'a T)
        requires
            cell.borrows() > 0,
        ensures
            *r == cell.value(),
    {
        &cell.value
    }

    /// Ends the shared borrow. When the cell becomes free, the oldest task
    /// waiting for the mutable borrow is dequeued and woken.
    pub fn release<T>(self, cell: &mut RefCell<T>)
        requires
            old(cell).wf(),
            old(cell).borrows() > 0,
        ensures
            final(cell).borrow_state() == old(cell).borrow_state().after_borrow_unlock(),
            final(cell).wf(),
            final(cell).borrows() == old(cell).borrows() - 1,
            final(cell).mut_borrowed() == old(cell).mut_borrowed(),
            final(cell).borrow_wakes() == old(cell).borrow_wakes(),
            final(cell).borrow_mut_wakes() == if final(cell).borrows() == 0
                && !final(cell).mut_borrowed() && old(cell).borrow_mut_wakes().len() > 0 {
                old(cell).borrow_mut_wakes().drop_first()
            } else {
                old(cell).borrow_mut_wakes()
            },
            final(cell).woken() == if final(cell).borrows() == 0
                && !final(cell).mut_borrowed() && old(cell).borrow_mut_wakes().len() > 0 {
                old(cell).woken().push(old(cell).borrow_mut_wakes()[0])
            } else {
                old(cell).woken()
            },
            final(cell).value() == old(cell).value(),
    {
        cell.raw.borrow_unlock();
    }
}

/// The mutable borrow of a `RefCell`'s value; release it with [`RefMut::release`].
pub struct RefMut {
    _private: (),
}

impl RefMut {
    /// The borrowed value.
    pub fn deref<'a, T>(&self, cell: &'a RefCell<T>) -> (r: &'a T)
        requires
            cell.mut_borrowed(),
        ensures
            *r == cell.value(),
    {
        &cell.value
    }

    /// The borrowed value, for writing.
    pub fn deref_mut<'a, T>(&self, cell: &'a mut RefCell<T>) -> (r: &'a mut T)
        requires
            old(cell).mut_borrowed(),
        ensures
            *r == old(cell).value(),
            final(cell).value() == *final(r),
            final(cell).same_borrow_state(old(cell)),
            final(cell).wf() == old(cell).wf(),
    {
        &mut cell.value
    }

    /// Ends the mutable borrow. A task waiting for the mutable borrow takes
    /// it over: the oldest is dequeued and woken, and the cell stays mutably
    /// borrowed with the borrow reserved, so that the next poll of a waiting
    /// `BorrowMut` completes. If no task waits for it, the cell is freed and
    /// every task waiting for a shared borrow is dequeued and woken.
    pub fn release<T>(self, cell: &mut RefCell<T>)
        requires
            old(cell).wf(),
        ensures
            final(cell).borrow_state() == old(cell).borrow_state().after_borrow_mut_unlock(
                old(cell).borrow_mut_wakes().len() > 0),
            final(cell).wf(),
            old(cell).borrow_mut_wakes().len() > 0 ==> {
                &&& final(cell).borrow_mut_wakes() == old(cell).borrow_mut_wakes().drop_first()
                &&& final(cell).borrows() == old(cell).borrows()
                &&& final(cell).mut_borrowed() == old(cell).mut_borrowed()
                &&& final(cell).reserved() == old(cell).mut_borrowed()
                &&& final(cell).borrow_wakes() == old(cell).borrow_wakes()
                &&& final(cell).woken() == old(cell).woken().push(old(cell).borrow_mut_wakes()[0])
            },
            old(cell).borrow_mut_wakes().len() == 0 ==> {
                &&& !final(cell).reserved()
                &&& !final(cell).mut_borrowed()
                &&& final(cell).borrows() == old(cell).borrows()
                &&& final(cell).borrow_wakes() == Seq::<Waker>::empty()
                &&& final(cell).borrow_mut_wakes() == old(cell).borrow_mut_wakes()
                &&& final(cell).woken() == old(cell).woken() + old(cell).borrow_wakes()
            },
            final(cell).value() == old(cell).value(),
    {
        cell.raw.borrow_mut_unlock();
    }
}

} // verus!
