use vstd::prelude::*;

verus! {

/// What one turn of a lock-acquisition state machine produced.
///
/// `Ready` and `Pending` mean what they mean for a future's `poll`; `Again` says
/// that the acquisition loop has more work to do right away, so the caller
/// should run another turn before returning to its executor.
pub enum Step<T> {
    Ready(T),
    Pending,
    Again,
}

impl<T> Step<T> {
    /// Returns `true` if the turn completed the acquisition.
    pub fn is_ready(&self) -> (r: bool)
        ensures
            r == (self is Ready),
    {
        match self {
            Step::Ready(_) => true,
            _ => false,
        }
    }

    /// Returns `true` if the turn is waiting for a wake-up.
    pub fn is_pending(&self) -> (r: bool)
        ensures
            r == (self is Pending),
    {
        match self {
            Step::Pending => true,
            _ => false,
        }
    }
}

} // verus!
