//! The fan-out from a bus to a live stream: the record that carries an event
//! to a subscriber's connection.
//!
//! A record has a label, taken from the event's variant, an identifier, which
//! is the event's turn where it has one and empty where it has none, and the
//! event's body. The adapter that feeds a connection turns what its
//! subscription finds into what the stream does next: an event is sent as its
//! record, events missed by a subscriber that lagged are passed over in
//! silence, and only a closed bus ends the stream. Between events the
//! connection is kept alive by a marker sent at a fixed interval.

use vstd::prelude::*;
use crate::bus::Received;
use crate::event::{AssistantEvent, EventView};
use crate::render::body_text;

verus! {

/// The number of seconds between two keep-alive markers.
pub const KEEP_ALIVE_SECONDS: u64 = 1;

/// The text of a keep-alive marker.
pub const KEEP_ALIVE_TEXT: &'static str = "keep-alive-text";

/// A record of a live stream.
#[derive(Clone, Debug, PartialEq, Eq)]
pub struct WireRecord {
    /// The label of the event's variant.
    pub event: String,
    /// The event's turn, or nothing.
    pub id: String,
    /// The event's body.
    pub data: String,
}

/// A record as a mathematical value.
pub struct WireView {
    pub event: Seq<char>,
    pub id: Seq<char>,
    pub data: Seq<char>,
}

impl View for WireRecord {
    type V = WireView;

    open spec fn view(&self) -> WireView {
        WireView { event: self.event@, id: self.id@, data: self.data@ }
    }
}

/// The label under which an event travels.
pub open spec fn label_text(event: EventView) -> Seq<char> {
    match event {
        EventView::Input { .. } => "input"@,
        EventView::InputSkeleton { .. } => "input_skeleton"@,
        EventView::Reply { .. } => "reply"@,
        EventView::ReplySkeleton { .. } => "reply_skeleton"@,
        _ => "signal"@,
    }
}

/// The identifier under which an event travels: its turn, or nothing.
pub open spec fn id_text(event: EventView) -> Seq<char> {
    match event.turn_id() {
        Some(id) => id,
        None => Seq::empty(),
    }
}

/// The record of an event.
pub open spec fn record_of(event: EventView) -> WireView {
    WireView { event: label_text(event), id: id_text(event), data: body_text(event) }
}

/// The label under which `event` travels.
pub fn wire_label(event: &AssistantEvent) -> (label: &'static str)
    ensures
        label@ == label_text(event@),
{
    match event {
        AssistantEvent::Signal(_) => "signal",
        AssistantEvent::Input(_) => "input",
        AssistantEvent::InputSkeleton(_) => "input_skeleton",
        AssistantEvent::Reply(_) => "reply",
        AssistantEvent::ReplySkeleton(_) => "reply_skeleton",
    }
}

/// The identifier under which `event` travels.
pub fn wire_id(event: &AssistantEvent) -> (id: String)
    ensures
        id@ == id_text(event@),
{
    match event {
        AssistantEvent::Signal(_) => String::new(),
        AssistantEvent::Input(input) => input.id.clone(),
        AssistantEvent::InputSkeleton(skeleton) => skeleton.id.clone(),
        AssistantEvent::Reply(reply) => reply.id.clone(),
        AssistantEvent::ReplySkeleton(skeleton) => skeleton.id.clone(),
    }
}

/// The record of `event`.
pub fn wire_record(event: &AssistantEvent) -> (record: WireRecord)
    ensures
        record@ == record_of(event@),
{
    WireRecord { event: wire_label(event).to_owned(), id: wire_id(event), data: event.render() }
}

/// What a live stream does next.
#[derive(Clone, Debug, PartialEq, Eq)]
pub enum Forward {
    /// Send the record.
    Send(WireRecord),
    /// Send nothing and look again at once: events were missed.
    Skip,
    /// Send nothing and wait for the next event.
    Wait,
    /// End the stream.
    End,
}

/// What a subscription found, as a mathematical value.
pub enum ReceivedView {
    Event(EventView),
    Lagged(u64),
    Empty,
    Closed,
}

/// What a live stream does next, as a mathematical value.
pub enum ForwardView {
    Send(WireView),
    Skip,
    Wait,
    End,
}

impl View for Received {
    type V = ReceivedView;

    open spec fn view(&self) -> ReceivedView {
        match self {
            Received::Event(event) => ReceivedView::Event(event@),
            Received::Lagged(missed) => ReceivedView::Lagged(*missed),
            Received::Empty => ReceivedView::Empty,
            Received::Closed => ReceivedView::Closed,
        }
    }
}

impl View for Forward {
    type V = ForwardView;

    open spec fn view(&self) -> ForwardView {
        match self {
            Forward::Send(record) => ForwardView::Send(record@),
            Forward::Skip => ForwardView::Skip,
            Forward::Wait => ForwardView::Wait,
            Forward::End => ForwardView::End,
        }
    }
}

/// What a live stream does on what its subscription found.
pub open spec fn forward_of(received: ReceivedView) -> ForwardView {
    match received {
        ReceivedView::Event(event) => ForwardView::Send(record_of(event)),
        ReceivedView::Lagged(_) => ForwardView::Skip,
        ReceivedView::Empty => ForwardView::Wait,
        ReceivedView::Closed => ForwardView::End,
    }
}

/// What a live stream does on what its subscription found.
pub fn forward(received: &Received) -> (next: Forward)
    ensures
        next@ == forward_of(received@),
{
    match received {
        Received::Event(event) => Forward::Send(wire_record(event)),
        Received::Lagged(_) => Forward::Skip,
        Received::Empty => Forward::Wait,
        Received::Closed => Forward::End,
    }
}

/// The records that a live stream sends for what its subscription finds, one
/// find after the other.
pub open spec fn records_sent(found: Seq<ReceivedView>) -> Seq<WireView>
    decreases found.len(),
{
    if found.len() == 0 {
        Seq::empty()
    } else {
        match forward_of(found.last()) {
            ForwardView::Send(record) => records_sent(found.drop_last()).push(record),
            _ => records_sent(found.drop_last()),
        }
    }
}

/// The events among what a subscription finds, in the order found.
pub open spec fn events_found(found: Seq<ReceivedView>) -> Seq<EventView>
    decreases found.len(),
{
    if found.len() == 0 {
        Seq::empty()
    } else {
        match found.last() {
            ReceivedView::Event(event) => events_found(found.drop_last()).push(event),
            _ => events_found(found.drop_last()),
        }
    }
}

/// The fan-out neither drops, nor repeats, nor reorders: the records sent are
/// the records of the events found, one for one and in the order found. A
/// subscriber that lagged loses what the bus dropped, and nothing else.
pub proof fn stream_follows_subscription(found: Seq<ReceivedView>)
    ensures
        records_sent(found).len() == events_found(found).len(),
        forall|i: int|
            0 <= i < events_found(found).len() ==> #[trigger] records_sent(found)[i]
                == record_of(events_found(found)[i]),
    decreases found.len(),
{
    if found.len() > 0 {
        stream_follows_subscription(found.drop_last());
    }
}

/// Lag does not end a stream: while the bus is open, the stream goes on
/// whatever its subscription finds.
pub proof fn only_a_closed_bus_ends_the_stream(received: ReceivedView)
    ensures
        forward_of(received) is End <==> received is Closed,
{
}

} // verus!
