//! Broadcast delivery: every subscriber gets its own copy of every value
//! emitted after it subscribed, as long as it keeps within the buffer.
use crate::bindings::{broadcast_send, broadcast_sender, broadcast_subscribe, random_token};
use tokio::sync::broadcast;
use vstd::prelude::*;

verus! {

/// The capacity each signal asks of its queue. A broadcast queue rounds it
/// up to the next power of two.
pub const SIGNAL_CAPACITY: usize = 100;

/// A subscriber's end of a queue, with the name its dispatch loop is known by.
pub struct Subscription<R> {
    pub name: String,
    pub receiver: R,
}

/// A typed publish channel with any number of subscribers, each of which
/// receives a copy of every value.
#[derive(Clone)]
#[verifier::reject_recursive_types(T)]
pub struct Signal<T> {
    sender: broadcast::Sender<T>,
    capacity: usize,
}

impl<T: Send + Clone + 'static> Signal<T> {
    /// The capacity requested for the shared buffer (the queue rounds it up
    /// to the next power of two).
    pub closed spec fn capacity(&self) -> nat {
        self.capacity as nat
    }

    /// A signal with no subscriber and an empty buffer, made with the fixed
    /// requested capacity.
    pub fn new() -> (r: Self)
        ensures
            r.capacity() == SIGNAL_CAPACITY,
    {
        Signal { sender: broadcast_sender(SIGNAL_CAPACITY), capacity: SIGNAL_CAPACITY }
    }

    /// The capacity requested for the buffer.
    pub fn capacity_of(&self) -> (r: usize)
        ensures
            r == self.capacity(),
    {
        self.capacity
    }

    /// A new subscriber, under a generated name, that will read every value
    /// emitted from now on.
    pub fn subscribe(&self) -> (r: Subscription<broadcast::Receiver<T>>)
        ensures
            r.name@.len() == 36,
    {
        self.subscribe_named(random_token())
    }

    /// A new subscriber, under `name`, that will read every value emitted
    /// from now on.
    pub fn subscribe_named(&self, name: String) -> (r: Subscription<broadcast::Receiver<T>>)
        ensures
            r.name == name,
    {
        Subscription { name, receiver: broadcast_subscribe(&self.sender) }
    }

    /// Queues `message` for every current subscriber without waiting. On
    /// success, the number of subscribers it was queued for; with none, the
    /// message comes back in the error.
    pub fn emit_result(&self, message: T) -> (r: Result<usize, broadcast::error::SendError<T>>)
        ensures
            r matches Ok(n) ==> n >= 1,
            r matches Err(e) ==> e.0 == message,
    {
        broadcast_send(&self.sender, message)
    }

    /// Queues `message` for every current subscriber; with none, the message
    /// is dropped.
    pub fn emit(&self, message: T) {
        let _ = self.emit_result(message);
    }
}

} // verus!
