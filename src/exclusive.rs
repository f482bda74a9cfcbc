//! Exclusive delivery: one subscriber, ever; values are moved to it in
//! order, and producers wait while the queue is full.
use crate::bindings::{queue_channel, random_token};
use crate::broadcast::{Subscription, SIGNAL_CAPACITY};
use crate::error::{EmitError, SignalError};
use tokio::sync::mpsc;
use vstd::prelude::*;

verus! {

/// A typed channel whose values go, each exactly once, to a single
/// subscriber.
#[verifier::reject_recursive_types(T)]
pub struct SignalNoClone<T> {
    sender: mpsc::Sender<T>,
    receiver: Option<mpsc::Receiver<T>>,
    capacity: usize,
}

/// What a signal in state `s` becomes on a call of `subscribe_named`: the
/// receiving half is taken if it is still there.
pub open spec fn after_subscribe<T>(s: SignalNoClone<T>) -> SignalNoClone<T> {
    s.claimed()
}

/// What an enqueue attempt's outcome means to the producer: a refused value
/// comes back inside `Closed`.
pub open spec fn emit_outcome_spec<T>(sent: Result<(), mpsc::error::SendError<T>>) -> Result<(), EmitError<T>> {
    match sent {
        Ok(()) => Ok(()),
        Err(e) => Err(EmitError::Closed(e.0)),
    }
}

impl<T> SignalNoClone<T> {
    /// Whether the one subscriber has already been attached.
    pub closed spec fn is_connected(&self) -> bool {
        self.receiver is None
    }

    /// The receiving half while no subscriber has taken it.
    pub closed spec fn unclaimed(&self) -> Option<mpsc::Receiver<T>> {
        self.receiver
    }

    /// The bound the queue was made with.
    pub closed spec fn capacity(&self) -> nat {
        self.capacity as nat
    }

    /// The same signal with its receiving half taken.
    pub closed spec fn claimed(self) -> SignalNoClone<T> {
        SignalNoClone { sender: self.sender, receiver: None, capacity: self.capacity }
    }

    /// A taken signal stays taken.
    pub proof fn lemma_claimed(self)
        ensures
            self.claimed().is_connected(),
            self.claimed().claimed() == self.claimed(),
            self.is_connected() ==> self.claimed() == self,
            self.claimed().capacity() == self.capacity(),
            self.is_connected() <==> self.unclaimed() is None,
    {
    }
}

impl<T: Send + 'static> SignalNoClone<T> {
    /// A signal with a producer handle, its receiving half not yet taken,
    /// and a queue bounded by the fixed capacity.
    pub fn new() -> (r: Self)
        ensures
            !r.is_connected(),
            r.capacity() == SIGNAL_CAPACITY,
    {
        let (sender, receiver) = queue_channel(SIGNAL_CAPACITY);
        SignalNoClone { sender, receiver: Some(receiver), capacity: SIGNAL_CAPACITY }
    }

    /// The bound the queue was made with.
    pub fn capacity_of(&self) -> (r: usize)
        ensures
            r == self.capacity(),
    {
        self.capacity
    }

    /// Whether the one subscriber has already been attached.
    pub fn has_subscriber(&self) -> (r: bool)
        ensures
            r == self.is_connected(),
    {
        self.receiver.is_none()
    }

    /// Takes the receiving half for the one subscriber, under a generated
    /// name; fails if it was taken before.
    pub fn subscribe(&mut self) -> (r: Result<Subscription<mpsc::Receiver<T>>, SignalError>)
        ensures
            *final(self) == after_subscribe(*old(self)),
            final(self).is_connected(),
            r is Err <==> old(self).is_connected(),
            r matches Err(e) ==> e == SignalError::AlreadySubscribed,
            r matches Ok(sub) ==> old(self).unclaimed() == Some(sub.receiver),
            r matches Ok(sub) ==> sub.name@.len() == 36,
    {
        proof {
            old(self).lemma_claimed();
        }
        self.subscribe_named(random_token())
    }

    /// Takes the receiving half for the one subscriber, under `name`. A
    /// second call fails with `AlreadySubscribed` and changes nothing.
    pub fn subscribe_named(&mut self, name: String) -> (r: Result<Subscription<mpsc::Receiver<T>>, SignalError>)
        ensures
            *final(self) == after_subscribe(*old(self)),
            final(self).is_connected(),
            r is Err <==> old(self).is_connected(),
            r matches Err(e) ==> e == SignalError::AlreadySubscribed,
            r matches Ok(sub) ==> old(self).unclaimed() == Some(sub.receiver),
            r matches Ok(sub) ==> sub.name == name,
    {
        proof {
            old(self).lemma_claimed();
        }
        match self.receiver.take() {
            Some(receiver) => Ok(Subscription { name, receiver }),
            None => Err(SignalError::AlreadySubscribed),
        }
    }

    /// A producer handle on this signal's queue; any number may exist.
    pub fn sender(&self) -> (r: mpsc::Sender<T>) {
        self.sender.clone()
    }
}

/// Maps the outcome of an enqueue onto the signal's errors: a refused value
/// means the receiving side is gone for good, and the value is handed back.
pub fn emit_outcome<T>(sent: Result<(), mpsc::error::SendError<T>>) -> (r: Result<(), EmitError<T>>)
    ensures
        r == emit_outcome_spec(sent),
{
    match sent {
        Ok(()) => Ok(()),
        Err(e) => Err(EmitError::Closed(e.0)),
    }
}

/// On an exclusive signal, the first subscription takes the receiving half
/// and every later one is refused with `AlreadySubscribed`, leaving the signal
/// (and so the first subscription) as it was.
pub proof fn law_second_subscribe_refused<T>(s: SignalNoClone<T>)
    ensures
        after_subscribe(s).is_connected(),
        after_subscribe(after_subscribe(s)) == after_subscribe(s),
{
    s.lemma_claimed();
}

} // verus!
