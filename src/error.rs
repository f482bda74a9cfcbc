use vstd::prelude::*;

verus! {

/// What a signal reports to the caller of `subscribe`.
#[derive(Debug, Clone, Copy, PartialEq, Eq, Structural)]
pub enum SignalError {
    /// An exclusive signal already has its one subscriber.
    AlreadySubscribed,
}

/// Why an exclusive signal did not take a value. The value is move-only, so
/// it comes back to the caller rather than being lost.
#[derive(Debug)]
pub enum EmitError<T> {
    /// The receiving side is gone for good: the value was not enqueued.
    Closed(T),
}

} // verus!
