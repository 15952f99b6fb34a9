//! The notification primitives of `event_listener`, as the locks use them.
use vstd::prelude::*;
use event_listener::{Event, EventListener};

verus! {

#[verifier::external_type_specification]
#[verifier::external_body]
pub struct ExEvent(Event);

#[verifier::external_type_specification]
#[verifier::external_body]
pub struct ExEventListener(EventListener);

/// Calls `Event::new`, which creates an event with no registered listeners.
/// Nothing is claimed of the opaque result.
#[verifier::external_body]
fn event_new() -> Event {
    Event::new()
}

/// Calls `Event::listen`, which registers a new listener at the back of the
/// event's queue and returns it. Nothing is claimed of the opaque result.
#[verifier::external_body]
fn event_listen(event: &Event) -> EventListener {
    event.listen()
}

/// The role of the signal that notifies acquisitions waiting for a mutex.
pub const LOCK_OPS: u8 = 0;

/// The role of the signal that the last reader to leave a lock notifies.
pub const NO_READERS: u8 = 1;

/// The role of the signal that a leaving writer notifies.
pub const NO_WRITER: u8 = 2;

/// The role of the signal that releases the tasks waiting on a barrier.
pub const BARRIER_RELEASE: u8 = 3;

/// An event together with the record of the notifications sent through it.
///
/// `ROLE` says what the event announces; a listener of the event carries the
/// same role in its type, so that it can only be kept where a listener of
/// that event is expected.
///
/// The record is ghost: it lists the count of each `notify` call made on the
/// event through [`signal_notify`], oldest first, and nothing else changes it.
pub struct Signal<const ROLE: u8> {
    event: Event,
    sent: Ghost<Seq<usize>>,
}

impl<const ROLE: u8> Signal<ROLE> {
    /// The counts of the notifications sent so far, oldest first.
    pub closed spec fn sent(&self) -> Seq<usize> {
        self.sent@
    }

    /// A signal on a new event, with nothing sent yet.
    pub fn new() -> (r: Signal<ROLE>)
        ensures
            r.sent() == Seq::<usize>::empty(),
    {
        Signal { event: event_new(), sent: Ghost(Seq::empty()) }
    }

    /// Registers a listener for the next notifications. No task's waker is
    /// in it until it is polled.
    pub fn listen(&self) -> (r: Listener<ROLE>)
        ensures
            !r.registered(),
    {
        Listener { inner: event_listen(&self.event), registered: Ghost(false) }
    }
}

/// A listener of a [`Signal`] with role `ROLE`.
///
/// Its ghost flag `registered` records that a poll of the listener came back
/// pending, which leaves the polling task's waker in the listener's entry of
/// the event, to be woken by a notification that reaches it. Only
/// [`poll_listener`] sets it.
pub struct Listener<const ROLE: u8> {
    inner: EventListener,
    registered: Ghost<bool>,
}

impl<const ROLE: u8> Listener<ROLE> {
    /// Whether a pending poll left the polling task's waker in the listener.
    pub closed spec fn registered(&self) -> bool {
        self.registered@
    }
}

/// Calls `Event::notify(n)` on the signal's event, which wakes up to `n` of
/// the listeners that are registered and not yet notified; which ones, and
/// whether any, is not claimed. What is claimed is the bookkeeping: the call
/// is appended to the signal's record of notifications.
#[verifier::external_body]
pub(crate) fn signal_notify<const ROLE: u8>(signal: &mut Signal<ROLE>, n: usize)
    ensures
        final(signal).sent() == old(signal).sent().push(n),
{
    signal.event.notify(n)
}

/// Polls the `EventListener` of a listener once as a future.
///
/// `Ok(())` means that the listener had received its notification (and is
/// consumed); `Err(listener)` hands the still-waiting listener back. Which of
/// the two happens depends on other tasks, so nothing is claimed of it. What
/// is claimed is what the pending case leaves behind: `EventListener::poll`
/// stores the waker of `cx` in the listener's entry before it returns
/// `Poll::Pending`, and the returned listener records that in `registered`.
#[verifier::external_body]
pub(crate) fn poll_listener<const ROLE: u8>(
    listener: Listener<ROLE>,
    cx: &mut std::task::Context<'_>,
) -> (r: Result<(), Listener<ROLE>>)
    ensures
        r matches Err(l) ==> l.registered(),
{
    let mut listener = listener;
    match std::future::Future::poll(std::pin::Pin::new(&mut listener.inner), cx) {
        std::task::Poll::Ready(()) => Ok(()),
        std::task::Poll::Pending => Err(listener),
    }
}

} // verus!
