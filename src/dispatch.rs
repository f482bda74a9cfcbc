//! The decisions of a subscription's dispatch loop. The loop itself reads
//! from the queue and awaits; after each read it asks this state machine
//! whether to hand a value to the slot, skip, or stop.
use tokio::sync::broadcast::error::RecvError;
use vstd::prelude::*;

verus! {

/// Where a dispatch loop stands.
#[derive(Debug, Clone, Copy, PartialEq, Eq, Structural)]
pub enum LoopState {
    /// Created, not yet reading.
    Idle,
    /// Reading and delivering.
    Running,
    /// The queue is closed and drained: the loop has ended.
    Terminated,
}

/// What one read from a broadcast queue reported.
pub enum BroadcastEvent<T> {
    /// The next value for this subscriber.
    Value(T),
    /// The subscriber fell behind and this many values were overwritten.
    Lagged(u64),
    /// No producer remains and every buffered value has been read.
    Closed,
}

/// The loop's state after one broadcast read, and the value for the slot.
pub open spec fn broadcast_step_spec<T>(event: BroadcastEvent<T>) -> (LoopState, Option<T>) {
    match event {
        BroadcastEvent::Value(v) => (LoopState::Running, Some(v)),
        BroadcastEvent::Lagged(_) => (LoopState::Running, None),
        BroadcastEvent::Closed => (LoopState::Terminated, None),
    }
}

/// The loop's state after one exclusive read (`None`: closed and drained),
/// and the value for the slot.
pub open spec fn exclusive_step_spec<T>(read: Option<T>) -> (LoopState, Option<T>) {
    match read {
        Some(v) => (LoopState::Running, Some(v)),
        None => (LoopState::Terminated, None),
    }
}

/// The values a running loop hands to its slot over a series of broadcast
/// reads: one per read, in order, until the first closure.
pub open spec fn broadcast_delivered<T>(events: Seq<BroadcastEvent<T>>) -> Seq<T>
    decreases events.len(),
{
    if events.len() == 0 {
        Seq::empty()
    } else {
        let (state, out) = broadcast_step_spec(events[0]);
        let rest = if state == LoopState::Running {
            broadcast_delivered(events.drop_first())
        } else {
            Seq::empty()
        };
        match out {
            Some(v) => seq![v] + rest,
            None => rest,
        }
    }
}

/// The values a running loop hands to its slot over a series of exclusive
/// reads: every value read, in order, until the queue reports its end.
pub open spec fn exclusive_delivered<T>(reads: Seq<Option<T>>) -> Seq<T>
    decreases reads.len(),
{
    if reads.len() == 0 {
        Seq::empty()
    } else {
        match reads[0] {
            Some(v) => seq![v] + exclusive_delivered(reads.drop_first()),
            None => Seq::empty(),
        }
    }
}

/// The index of the first closure among broadcast reads, or their number if
/// there is none.
pub open spec fn first_close<T>(events: Seq<BroadcastEvent<T>>) -> nat
    decreases events.len(),
{
    if events.len() == 0 {
        0
    } else if events[0] is Closed {
        0
    } else {
        1 + first_close(events.drop_first())
    }
}

/// The values carried by broadcast reads, lag notices left out.
pub open spec fn values_of<T>(events: Seq<BroadcastEvent<T>>) -> Seq<T>
    decreases events.len(),
{
    if events.len() == 0 {
        Seq::empty()
    } else {
        let rest = values_of(events.drop_first());
        match events[0] {
            BroadcastEvent::Value(v) => seq![v] + rest,
            _ => rest,
        }
    }
}

impl<T> BroadcastEvent<T> {
    /// The event that a receiver's read result stands for.
    pub fn from_read(read: Result<T, RecvError>) -> (r: BroadcastEvent<T>)
        ensures
            read matches Ok(v) ==> r == BroadcastEvent::Value(v),
            read matches Err(RecvError::Lagged(n)) ==> r == BroadcastEvent::<T>::Lagged(n),
            read matches Err(RecvError::Closed) ==> r is Closed,
    {
        match read {
            Ok(v) => BroadcastEvent::Value(v),
            Err(RecvError::Lagged(n)) => BroadcastEvent::Lagged(n),
            Err(RecvError::Closed) => BroadcastEvent::Closed,
        }
    }
}

impl LoopState {
    /// A loop that has not started reading.
    pub fn new() -> (r: LoopState)
        ensures
            r == LoopState::Idle,
    {
        LoopState::Idle
    }

    /// Moves an idle loop to reading.
    pub fn start(&mut self)
        requires
            *old(self) == LoopState::Idle,
        ensures
            *final(self) == LoopState::Running,
    {
        *self = LoopState::Running;
    }

    /// Whether the loop should read again.
    pub fn is_running(&self) -> (r: bool)
        ensures
            r == (*self == LoopState::Running),
    {
        match self {
            LoopState::Running => true,
            _ => false,
        }
    }

    /// Takes one broadcast read: a value goes to the slot, a lag notice is
    /// passed over in silence, a closure ends the loop.
    pub fn on_broadcast<T>(&mut self, event: BroadcastEvent<T>) -> (r: Option<T>)
        requires
            *old(self) == LoopState::Running,
        ensures
            (*final(self), r) == broadcast_step_spec(event),
    {
        match event {
            BroadcastEvent::Value(v) => Some(v),
            BroadcastEvent::Lagged(_) => None,
            BroadcastEvent::Closed => {
                *self = LoopState::Terminated;
                None
            },
        }
    }

    /// Takes one exclusive read: a value goes to the slot; the end of the
    /// queue ends the loop.
    pub fn on_exclusive<T>(&mut self, read: Option<T>) -> (r: Option<T>)
        requires
            *old(self) == LoopState::Running,
        ensures
            (*final(self), r) == exclusive_step_spec(read),
    {
        match read {
            Some(v) => Some(v),
            None => {
                *self = LoopState::Terminated;
                None
            },
        }
    }
}

proof fn lemma_first_close_bounded<T>(events: Seq<BroadcastEvent<T>>)
    ensures
        first_close(events) <= events.len(),
    decreases events.len(),
{
    if events.len() > 0 {
        lemma_first_close_bounded(events.drop_first());
    }
}

/// A broadcast dispatch loop hands its slot exactly the values it read, in
/// the order it read them, up to the first closure: lag notices add nothing,
/// and nothing is repeated or made up.
pub proof fn law_broadcast_delivers_reads_in_order<T>(events: Seq<BroadcastEvent<T>>)
    ensures
        broadcast_delivered(events) == values_of(events.take(first_close(events) as int)),
    decreases events.len(),
{
    if events.len() > 0 {
        let rest = events.drop_first();
        law_broadcast_delivers_reads_in_order(rest);
        lemma_first_close_bounded(rest);
        if !(events[0] is Closed) {
            let k = first_close(rest) as int;
            assert(events.take(k + 1).drop_first() =~= rest.take(k));
            assert(events.take(k + 1)[0] == events[0]);
        } else {
            assert(events.take(0) =~= Seq::<BroadcastEvent<T>>::empty());
        }
    } else {
        assert(events.take(0) =~= events);
    }
}

/// A broadcast dispatch loop that never lags hands its slot every value it
/// read, in order, exactly once, and stops at the closure that follows them.
pub proof fn law_broadcast_delivers_every_value<T>(values: Seq<T>)
    ensures
        broadcast_delivered(values.map_values(|v: T| BroadcastEvent::Value(v)).push(BroadcastEvent::Closed))
            == values,
    decreases values.len(),
{
    let events = values.map_values(|v: T| BroadcastEvent::Value(v)).push(BroadcastEvent::Closed);
    if values.len() > 0 {
        law_broadcast_delivers_every_value(values.drop_first());
        assert(events.drop_first() =~= values.drop_first().map_values(|v: T| BroadcastEvent::Value(v)).push(
            BroadcastEvent::Closed,
        ));
        assert(broadcast_delivered(events) =~= values);
    } else {
        assert(events.drop_first() =~= Seq::<BroadcastEvent<T>>::empty());
        assert(broadcast_delivered(events) =~= values);
    }
}

/// An exclusive dispatch loop over reads in which the queue never reports its
/// end hands its slot every value read, in order, exactly once.
pub proof fn law_exclusive_delivers_every_value<T>(values: Seq<T>)
    ensures
        exclusive_delivered(values.map_values(|v: T| Some(v))) == values,
    decreases values.len(),
{
    let reads = values.map_values(|v: T| Some(v));
    if values.len() > 0 {
        law_exclusive_delivers_every_value(values.drop_first());
        assert(reads.drop_first() =~= values.drop_first().map_values(|v: T| Some(v)));
        assert(exclusive_delivered(reads) =~= values);
    } else {
        assert(exclusive_delivered(reads) =~= values);
    }
}

} // verus!
