//! The broadcast hub: one shared fan-out point with a bounded queue per
//! subscriber, built on tokio's broadcast channel. A subscriber that falls
//! more than the queue's capacity behind loses the oldest events and is told
//! how many it missed.

use vstd::prelude::*;

use crate::event::ChatEvent;

verus! {

#[verifier::external_type_specification]
#[verifier::external_body]
#[verifier::reject_recursive_types(T)]
pub struct ExSender<T>(tokio::sync::broadcast::Sender<T>);

#[verifier::external_type_specification]
#[verifier::external_body]
#[verifier::reject_recursive_types(T)]
pub struct ExReceiver<T>(tokio::sync::broadcast::Receiver<T>);

/// The largest per-subscriber capacity the channel accepts.
pub const MAX_CAPACITY: usize = usize::MAX / 2;

/// Why a publish reached nobody.
#[derive(Clone, Copy, Debug, PartialEq, Eq, Structural)]
pub enum PublishError {
    /// No subscription was live when the event was published.
    NoSubscribers,
}

/// What a subscription yields when polled.
#[derive(Clone, Debug, PartialEq, Eq)]
pub enum Delivery {
    /// The next event, in publish order.
    Event(ChatEvent),
    /// This many events were dropped from the subscriber's queue; the next
    /// poll resumes after them.
    Lagged(u64),
    /// Nothing has been published since the last event delivered.
    Empty,
    /// The hub is gone and no further event will come.
    Closed,
}

/// Relies on `tokio::sync::broadcast::Sender::new`, which panics on a zero
/// capacity or one above `usize::MAX / 2`.
#[verifier::external_body]
fn open_sender(capacity: usize) -> (r: tokio::sync::broadcast::Sender<ChatEvent>)
    requires
        0 < capacity <= MAX_CAPACITY,
{
    tokio::sync::broadcast::Sender::new(capacity)
}

/// Relies on `tokio::sync::broadcast::Sender::send`: it reports how many
/// receivers were live, or hands the value back when there were none.
#[verifier::external_body]
fn send_event(sender: &tokio::sync::broadcast::Sender<ChatEvent>, event: ChatEvent) -> (r: Result<
    usize,
    ChatEvent,
>)
    ensures
        r matches Ok(n) ==> n > 0,
        r matches Err(v) ==> v == event,
{
    sender.send(event).map_err(|e| e.0)
}

/// Relies on `tokio::sync::broadcast::Sender::subscribe`: a new receiver that
/// sees only what is sent after this call. (It panics only once
/// `usize::MAX / 4` receivers are live, which no process has memory for.)
#[verifier::external_body]
fn subscribe_to(sender: &tokio::sync::broadcast::Sender<ChatEvent>) -> (r:
    tokio::sync::broadcast::Receiver<ChatEvent>)
{
    sender.subscribe()
}

/// Relies on `tokio::sync::broadcast::Receiver::try_recv`, which never
/// waits; a lag it reports always counts at least one missed value.
#[verifier::external_body]
fn try_receive(receiver: &mut tokio::sync::broadcast::Receiver<ChatEvent>) -> (r: Delivery)
    ensures
        r matches Delivery::Lagged(n) ==> n > 0,
{
    match receiver.try_recv() {
        Ok(event) => Delivery::Event(event),
        Err(tokio::sync::broadcast::error::TryRecvError::Lagged(n)) => Delivery::Lagged(n),
        Err(tokio::sync::broadcast::error::TryRecvError::Empty) => Delivery::Empty,
        Err(tokio::sync::broadcast::error::TryRecvError::Closed) => Delivery::Closed,
    }
}

/// The process-wide fan-out point for chat events.
pub struct Hub {
    sender: tokio::sync::broadcast::Sender<ChatEvent>,
    capacity: usize,
}

/// A subscriber's own ordered view of the events published after it
/// subscribed.
pub struct Subscription {
    pub receiver: tokio::sync::broadcast::Receiver<ChatEvent>,
}

impl Hub {
    /// The capacity the hub was asked for.
    pub closed spec fn capacity_spec(&self) -> usize {
        self.capacity
    }

    /// A hub whose subscribers each queue up to `capacity` events (tokio
    /// rounds it up to a power of two); `None` for a capacity of zero or one
    /// above [`MAX_CAPACITY`].
    pub fn new(capacity: usize) -> (r: Option<Hub>)
        ensures
            r is Some <==> 0 < capacity <= MAX_CAPACITY,
            r matches Some(h) ==> h.capacity_spec() == capacity,
    {
        if capacity == 0 || capacity > MAX_CAPACITY {
            None
        } else {
            Some(Hub { sender: open_sender(capacity), capacity })
        }
    }

    pub fn capacity(&self) -> (r: usize)
        ensures
            r == self.capacity_spec(),
    {
        self.capacity
    }

    /// Broadcasts an event to every subscription live at this moment,
    /// without waiting for any of them; reports how many there were.
    pub fn publish(&self, event: ChatEvent) -> (r: Result<usize, PublishError>)
        ensures
            r matches Ok(n) ==> n > 0,
    {
        match send_event(&self.sender, event) {
            Ok(n) => Ok(n),
            Err(_) => Err(PublishError::NoSubscribers),
        }
    }

    /// Registers a new subscription, which sees only later publishes.
    pub fn subscribe(&self) -> (r: Subscription) {
        Subscription { receiver: subscribe_to(&self.sender) }
    }
}

impl Subscription {
    /// The next delivery for this subscriber, without waiting.
    pub fn poll(&mut self) -> (r: Delivery)
        ensures
            r matches Delivery::Lagged(n) ==> n > 0,
    {
        try_receive(&mut self.receiver)
    }
}

} // verus!
