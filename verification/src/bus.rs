//! The event bus of one device.
//!
//! A bus is a broadcast channel: a run publishes events on it, and every
//! subscriber receives the events published after it subscribed, in the order
//! in which they were published. The channel keeps a bounded number of events.
//! A subscriber that falls behind by more than that loses the oldest events it
//! has not read, is told how many it lost, and goes on with the oldest event
//! still kept; the publisher never waits. An event published while nobody is
//! subscribed is lost.
//!
//! The channel is `tokio`'s, and the delivery just described is its doing:
//! nothing here proves it. A bus is known to the proofs by the serial number
//! that its registry gave it, which all handles of the bus share.

use vstd::prelude::*;
use tokio::sync::broadcast::{Receiver, Sender};
use crate::event::AssistantEvent;
use crate::outside::{channel_handle, channel_open, channel_send, channel_subscribe, channel_try_recv};

verus! {

/// The number of events that a bus keeps for its subscribers.
pub const MAX_EVENTS: usize = 128;

/// A handle of the bus of one device.
pub struct Bus {
    id: u64,
    sender: Sender<AssistantEvent>,
}

/// One subscriber of a bus, which it knows by the bus's serial number.
pub struct Subscription {
    bus: u64,
    receiver: Receiver<AssistantEvent>,
}

/// What a subscriber finds when it looks for its next event.
#[derive(Clone, Debug, PartialEq, Eq)]
pub enum Received {
    /// The next event.
    Event(AssistantEvent),
    /// The subscriber fell behind and missed this many events; the next look
    /// goes on with the oldest event still kept.
    Lagged(u64),
    /// Nothing has been published since the last event received.
    Empty,
    /// Nothing is left to receive, and no handle of the bus is left to publish
    /// more.
    Closed,
}

/// The number of subscribers reached by a publication, from what the channel
/// said of it: the number it queued the event for, and none where it dropped
/// the event for want of a subscriber.
pub open spec fn reached_count(queued: Option<usize>) -> usize {
    match queued {
        Some(subscribers) => subscribers,
        None => 0,
    }
}

/// The number of subscribers reached by a publication.
pub fn reached(queued: Option<usize>) -> (count: usize)
    ensures
        count == reached_count(queued),
{
    match queued {
        Some(subscribers) => subscribers,
        None => 0,
    }
}

impl Bus {
    /// The serial number of the bus.
    pub closed spec fn serial(&self) -> u64 {
        self.id
    }

    /// A handle of a new bus with the serial number `id`.
    pub(crate) fn open(id: u64) -> (bus: Bus)
        ensures
            bus.serial() == id,
    {
        Bus { id, sender: channel_open(MAX_EVENTS) }
    }

    /// The serial number of the bus.
    pub fn id(&self) -> (id: u64)
        ensures
            id == self.serial(),
    {
        self.id
    }

    /// Another handle of this bus.
    pub fn handle(&self) -> (bus: Bus)
        ensures
            bus.serial() == self.serial(),
    {
        Bus { id: self.id, sender: channel_handle(&self.sender) }
    }

    /// Publishes `event` to the subscribers of the bus and returns how many
    /// there are. Without a subscriber the event is lost, which is no error:
    /// the count is then zero.
    pub fn publish(&self, event: AssistantEvent) -> usize {
        reached(channel_send(&self.sender, event))
    }

    /// Publishes `events` one after the other, in their order, and returns
    /// for each of them, in the same order, how many subscribers it reached.
    pub fn publish_all(&self, events: Vec<AssistantEvent>) -> (reached: Vec<usize>)
        ensures
            reached@.len() == events@.len(),
    {
        // What the counts are is the channel's to say: they depend on who is
        // subscribed when each event is published.
        let mut events = events;
        let mut reached: Vec<usize> = Vec::new();
        let ghost total = events@.len();
        while events.len() > 0
            invariant
                reached@.len() + events@.len() == total,
            decreases events@.len(),
        {
            // The first event left goes out next, so the order is kept.
            let event = events.remove(0);
            let count = self.publish(event);
            reached.push(count);
        }
        reached
    }

    /// Subscribes to the bus: the subscription is one of this bus, and
    /// receives what is published on it from now on.
    pub fn subscribe(&self) -> (subscription: Subscription)
        ensures
            subscription.serial() == self.serial(),
    {
        Subscription { bus: self.id, receiver: channel_subscribe(&self.sender) }
    }
}

impl Subscription {
    /// Looks for the next event without waiting. A count of missed events is
    /// never zero, and whatever is found, the subscription stays with its bus.
    pub fn poll(&mut self) -> (received: Received)
        ensures
            received matches Received::Lagged(missed) ==> missed >= 1,
            final(self).serial() == old(self).serial(),
    {
        channel_try_recv(&mut self.receiver)
    }

    /// The receiving end that the subscription holds, as it stands, for a
    /// caller that waits for events.
    pub fn into_receiver(self) -> (receiver: Receiver<AssistantEvent>)
        ensures
            receiver == self.channel_end(),
    {
        self.receiver
    }

    /// The serial number of the bus that the subscription was taken from.
    pub closed spec fn serial(&self) -> u64 {
        self.bus
    }

    /// The receiving end of the channel that the subscription holds.
    pub closed spec fn channel_end(&self) -> Receiver<AssistantEvent> {
        self.receiver
    }

    /// The serial number of the bus that the subscription was taken from.
    pub fn bus_id(&self) -> (id: u64)
        ensures
            id == self.serial(),
    {
        self.bus
    }
}

} // verus!
