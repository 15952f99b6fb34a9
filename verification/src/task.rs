//! Items of `std::task` and `std::time` that the locks use.
use vstd::prelude::*;
use std::task::{Context, Waker};
use std::time::{Duration, Instant};

verus! {

#[verifier::external_type_specification]
#[verifier::external_body]
pub struct ExWaker(Waker);

#[verifier::external_type_specification]
#[verifier::external_body]
pub struct ExContext<'a>(Context<'a>);

#[verifier::external_type_specification]
#[verifier::external_body]
pub struct ExInstant(Instant);

/// The record of the wakers woken through [`wake`], oldest first. It is
/// ghost, and nothing else changes it.
pub struct Wakes {
    woken: Ghost<Seq<Waker>>,
}

impl Wakes {
    /// The wakers woken so far, oldest first.
    pub closed spec fn woken(&self) -> Seq<Waker> {
        self.woken@
    }

    /// A record with nothing woken yet.
    pub fn new() -> (r: Wakes)
        ensures
            r.woken() == Seq::<Waker>::empty(),
    {
        Wakes { woken: Ghost(Seq::empty()) }
    }
}

/// Calls `Waker::wake`, which schedules the task that the waker belongs to.
/// What is claimed is the bookkeeping: the waker is appended to the record.
#[verifier::external_body]
#[allow(unused_variables)]
pub(crate) fn wake(wakes: &mut Wakes, waker: Waker)
    ensures
        final(wakes).woken() == old(wakes).woken().push(waker),
{
    waker.wake()
}

/// Calls `Context::waker`, the waker of the task being polled. Nothing is
/// claimed of it.
#[verifier::external_body]
pub(crate) fn context_waker<'a>(cx: &'a Context<'_>) -> &'a Waker {
    cx.waker()
}

/// Calls `Waker::clone`, a new handle that wakes the same task. Nothing is
/// claimed of it, as `Waker` is opaque here.
#[verifier::external_body]
pub(crate) fn clone_waker(waker: &Waker) -> Waker {
    waker.clone()
}

/// Calls `Instant::now`. The result depends on the clock; nothing is claimed.
#[verifier::external_body]
pub(crate) fn instant_now() -> Instant {
    Instant::now()
}

/// Calls `Instant::elapsed`. The result depends on the clock; nothing is claimed.
#[verifier::external_body]
pub(crate) fn elapsed_since(start: &Instant) -> Duration {
    start.elapsed()
}

/// Calls `Duration::as_nanos`. Nothing is claimed, as `Duration` is opaque here.
#[verifier::external_body]
pub(crate) fn duration_nanos(d: &Duration) -> u128 {
    d.as_nanos()
}

} // verus!
