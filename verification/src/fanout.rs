//! The fan-out channel: one process-wide broadcast point. Every envelope
//! published is queued for every subscriber there is at that moment.

use crate::msg::Msg;
use std::sync::Arc;
use tokio::sync::broadcast::error::TryRecvError;
use tokio::sync::broadcast::{Receiver, Sender};
use vstd::prelude::*;

verus! {

/// How many envelopes the channel retains for a subscriber that has fallen
/// behind, before that subscriber loses the oldest of them.
pub const CAPACITY: usize = 64;

/// `tokio::sync::broadcast::Sender`, the publishing half of a channel.
#[verifier::external_type_specification]
#[verifier::external_body]
#[verifier::reject_recursive_types(T)]
pub struct ExSender<T>(Sender<T>);

/// `tokio::sync::broadcast::Receiver`, one subscriber's end of a channel.
#[verifier::external_type_specification]
#[verifier::external_body]
#[verifier::reject_recursive_types(T)]
pub struct ExReceiver<T>(Receiver<T>);

/// How many values the channel of a sender retains for a receiver that has
/// fallen behind. A channel keeps this limit for as long as it lives.
pub uninterp spec fn sender_slots(tx: Sender<Arc<Msg>>) -> nat;

/// How many values the channel of a receiver retains for it when it has
/// fallen behind.
pub uninterp spec fn receiver_slots(rx: Receiver<Arc<Msg>>) -> nat;

/// How far `power` is below `least`.
pub open spec fn shortfall(power: nat, least: nat) -> nat {
    if power < least {
        (least - power) as nat
    } else {
        0
    }
}

/// The first of `power`, its double, the double of that and so on that is
/// no less than `least`.
pub open spec fn doubled_until(power: nat, least: nat) -> nat
    decreases shortfall(power, least),
{
    if 0 < power < least {
        doubled_until(2 * power, least)
    } else {
        power
    }
}

/// The limit of a channel that was asked to retain `capacity` values: the
/// least power of two that is no less than `capacity`.
pub open spec fn ring_size(capacity: nat) -> nat {
    doubled_until(1, capacity)
}

/// `tokio::sync::broadcast::channel`, keeping the sender and dropping the
/// receiver that comes with it, so that the channel starts without
/// subscribers. The channel retains as many values as the capacity rounded
/// up to a power of two. The call panics on a capacity of zero or above half
/// of `usize::MAX`, which the precondition leaves out.
#[verifier::external_body]
fn open_channel(capacity: usize) -> (tx: Sender<Arc<Msg>>)
    requires
        0 < capacity <= usize::MAX / 2,
    ensures
        sender_slots(tx) == ring_size(capacity as nat),
{
    tokio::sync::broadcast::channel(capacity).0
}

/// `Sender::send`: the value is queued for every receiver alive at the call,
/// and the answer is their number, which is not zero; with no receiver the
/// value comes back unsent. How many receivers there are is for the rest of
/// the process to decide.
#[verifier::external_body]
fn send_shared(tx: &Sender<Arc<Msg>>, msg: Arc<Msg>) -> (sent: Result<usize, Arc<Msg>>)
    ensures
        sent matches Ok(receivers) ==> receivers > 0,
        sent matches Err(unsent) ==> unsent == msg,
{
    tx.send(msg).map_err(|refused| refused.0)
}

/// `Sender::subscribe`: a new receiver on the sender's channel, and so under
/// the channel's limit, which will see the values sent after this call.
/// What it will see is for the rest of the process to decide. (The call
/// panics once a quarter of `usize::MAX` receivers are alive at the same
/// time.)
#[verifier::external_body]
fn subscribe_to(tx: &Sender<Arc<Msg>>) -> (rx: Receiver<Arc<Msg>>)
    ensures
        receiver_slots(rx) == sender_slots(*tx),
{
    tx.subscribe()
}

/// `Receiver::try_recv`: the next value queued for this receiver, or why
/// there is none. What comes depends on what the rest of the process has
/// sent; whatever comes, the receiver stays on its channel, and a gap that
/// it is told of is a gap of at least one value.
#[verifier::external_body]
fn try_receive(rx: &mut Receiver<Arc<Msg>>) -> (polled: Delivery)
    ensures
        receiver_slots(*final(rx)) == receiver_slots(*old(rx)),
        polled.tells_a_gap(),
{
    match rx.try_recv() {
        Ok(msg) => Delivery::Message(msg),
        Err(TryRecvError::Empty) => Delivery::Empty,
        Err(TryRecvError::Lagged(missed)) => Delivery::Lagged(missed),
        Err(TryRecvError::Closed) => Delivery::Closed,
    }
}

/// What a subscriber finds when it looks for its next envelope.
#[derive(Debug, PartialEq, Eq)]
pub enum Delivery {
    /// The next envelope, in publish order.
    Message(Arc<Msg>),
    /// Nothing is queued at the moment.
    Empty,
    /// The subscriber fell behind and this many envelopes were dropped for
    /// it; no other subscriber is affected.
    Lagged(u64),
    /// The channel is gone: nothing more will ever be published.
    Closed,
}

impl Delivery {
    /// A subscriber that is told it fell behind has lost at least one
    /// envelope.
    pub open spec fn tells_a_gap(self) -> bool {
        self matches Delivery::Lagged(missed) ==> missed > 0
    }
}

/// How a publish ended.
#[derive(Debug, Clone, Copy, PartialEq, Eq)]
pub enum Publication {
    /// The envelope was queued for this many subscribers.
    Delivered { subscribers: usize },
    /// Nobody was subscribed. This is a condition to log, not a failure.
    NoSubscribers,
}

impl Publication {
    /// A delivery counts at least one subscriber.
    pub open spec fn counts_someone(self) -> bool {
        self matches Publication::Delivered { subscribers } ==> subscribers > 0
    }
}

/// The outcome of a publish, read off what the channel answered.
pub open spec fn publication_of(sent: Result<usize, Arc<Msg>>) -> Publication {
    match sent {
        Ok(subscribers) => Publication::Delivered { subscribers },
        Err(_) => Publication::NoSubscribers,
    }
}

/// Reads the outcome of a publish off what the channel answered.
pub fn publication(sent: Result<usize, Arc<Msg>>) -> (outcome: Publication)
    ensures
        outcome == publication_of(sent),
{
    match sent {
        Ok(subscribers) => Publication::Delivered { subscribers },
        Err(_) => Publication::NoSubscribers,
    }
}

/// The publishing side of the channel.
pub struct FanOut {
    tx: Sender<Arc<Msg>>,
}

/// One subscriber's queue into the channel.
pub struct Subscription {
    rx: Receiver<Arc<Msg>>,
}

impl FanOut {
    #[verifier::type_invariant]
    spec fn inv(self) -> bool {
        sender_slots(self.tx) == CAPACITY
    }

    /// How many envelopes the channel retains for a subscriber that has
    /// fallen behind.
    pub closed spec fn capacity(&self) -> nat {
        sender_slots(self.tx)
    }

    /// A channel of capacity [`CAPACITY`], without subscribers yet.
    pub fn new() -> (fanout: FanOut)
        ensures
            fanout.capacity() == CAPACITY,
    {
        proof {
            reveal_with_fuel(doubled_until, 8);
        }
        FanOut { tx: open_channel(CAPACITY) }
    }

    /// Publishes `msg` once, to every subscriber there is. Never blocks. With
    /// no subscriber the envelope is dropped and the outcome says so.
    pub fn publish(&self, msg: Msg) -> (outcome: Publication)
        ensures
            outcome.counts_someone(),
    {
        publication(send_shared(&self.tx, Arc::new(msg)))
    }

    /// Registers a new subscriber, which will see what is published from now
    /// on. Its queue is its own, bounded by the channel's capacity.
    pub fn subscribe(&self) -> (subscription: Subscription)
        ensures
            subscription.capacity() == self.capacity(),
            subscription.capacity() == CAPACITY,
    {
        proof {
            use_type_invariant(self);
        }
        Subscription { rx: subscribe_to(&self.tx) }
    }
}

impl Subscription {
    /// How many envelopes the channel retains for this subscriber when it
    /// has fallen behind.
    pub closed spec fn capacity(&self) -> nat {
        receiver_slots(self.rx)
    }

    /// The receiver that the subscription holds.
    pub closed spec fn receiver(self) -> Receiver<Arc<Msg>> {
        self.rx
    }

    /// Looks for the next envelope without waiting. Whatever is found, the
    /// subscription stays on its channel; a subscriber that is told of a gap
    /// has lost at least one envelope.
    pub fn poll(&mut self) -> (polled: Delivery)
        ensures
            final(self).capacity() == old(self).capacity(),
            polled.tells_a_gap(),
    {
        try_receive(&mut self.rx)
    }

    /// Gives up the subscription for the receiver inside it, for a caller
    /// that waits on it.
    pub fn into_receiver(self) -> (receiver: Receiver<Arc<Msg>>)
        ensures
            receiver == self.receiver(),
            receiver_slots(receiver) == self.capacity(),
    {
        self.rx
    }
}

} // verus!
