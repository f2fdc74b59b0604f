use crate::event::EventType;
use crate::event::types::lemma_name_reads_back;
use crate::json::{lemma_member_at, member, JsonObject, JsonView, ObjectView};
use crate::packet::command_request::{
    client_header, lemma_client_header, required_message_type, take_message_type,
    write_client_header,
};
use crate::packet::wire::{
    frame_of, holds_frame, lemma_held_frame_reads_back, open_frame, purpose_of,
    required_event_type,
    take_event_type, text_value, Frame, FrameView, SchemaError, SchemaErrorView,
};
use vstd::prelude::*;

verus! {

/// The request to be told of events of one kind.
#[derive(Clone, Copy, Debug, PartialEq, Eq, Structural)]
pub struct SubscribePacket {
    pub event_name: EventType,
}

impl Default for SubscribePacket {
    fn default() -> (r: SubscribePacket)
        ensures
            r.event_name == EventType::PlayerMessage,
    {
        SubscribePacket { event_name: EventType::PlayerMessage }
    }
}

/// The body of a subscription packet: the name of the kind of event.
pub open spec fn subscription_body(event_name: EventType) -> ObjectView {
    seq![("eventName"@, JsonView::Text(event_name.name_spec()))]
}

/// The kind of event that a subscription document of a given purpose names.
pub open spec fn subscription_of(document: ObjectView, purpose: Seq<char>) -> Result<
    EventType,
    SchemaErrorView,
> {
    match frame_of(document, purpose) {
        Err(e) => Err(e),
        Ok(frame) => match required_event_type(frame.body, "eventName"@, "body.eventName"@) {
            Err(e) => Err(e),
            Ok(event_name) => match required_message_type(frame.header) {
                Err(e) => Err(e),
                Ok(()) => Ok(event_name),
            },
        },
    }
}

/// The frame that a subscription packet of a given purpose is written as.
pub open spec fn subscription_frame(
    purpose: Seq<char>,
    event_name: EventType,
    request_id: u128,
) -> FrameView {
    FrameView {
        header: client_header(purpose, request_id),
        body: subscription_body(event_name),
    }
}

/// A document that holds the frame that a subscription packet is written
/// as declares the packet's purpose, and is read as the kind of event the
/// packet names, in whatever order its members stand.
pub proof fn lemma_subscription_reads_back(
    purpose: Seq<char>,
    event_name: EventType,
    request_id: u128,
    document: ObjectView,
)
    requires
        holds_frame(document, subscription_frame(purpose, event_name, request_id)),
    ensures
        purpose_of(document) == Ok::<Seq<char>, SchemaErrorView>(purpose),
        subscription_of(document, purpose) == Ok::<EventType, SchemaErrorView>(event_name),
{
    let frame = subscription_frame(purpose, event_name, request_id);
    lemma_client_header(purpose, request_id);
    lemma_held_frame_reads_back(document, frame, purpose);
    lemma_member_at(frame.body, 0, "eventName"@);
    lemma_name_reads_back(event_name);
    let read = frame_of(document, purpose)->Ok_0;
    assert(member(read.body, "eventName"@) == member(frame.body, "eventName"@));
    assert(member(read.header, "messageType"@) == member(frame.header, "messageType"@));
}

/// Writes the frame of a subscription packet of a given purpose.
pub fn write_subscription(purpose: &'static str, event_name: EventType, request_id: u128) -> (r:
    Frame)
    ensures
        r@ == subscription_frame(purpose@, event_name, request_id),
{
    let header = write_client_header(purpose, request_id);
    let mut body = JsonObject::new();
    body.push("eventName", text_value(event_name.name()));
    Frame { header, body }
}

/// Reads the kind of event from a subscription document of a given purpose.
pub fn read_subscription(document: JsonObject, purpose: &'static str) -> (r: Result<
    EventType,
    SchemaError,
>)
    ensures
        match r {
            Ok(event_name) => subscription_of(document@, purpose@) == Ok::<
                EventType,
                SchemaErrorView,
            >(event_name),
            Err(e) => subscription_of(document@, purpose@) == Err::<EventType, SchemaErrorView>(
                e@,
            ),
        },
{
    let frame = open_frame(document, purpose)?;
    let mut header = frame.header;
    let mut body = frame.body;
    let event_name = take_event_type(&mut body, "eventName", "body.eventName")?;
    take_message_type(&mut header)?;
    Ok(event_name)
}

impl SubscribePacket {
    /// The frame that the packet is written as, under a given request id.
    pub open spec fn frame_spec(packet: SubscribePacket, request_id: u128) -> FrameView {
        subscription_frame("subscribe"@, packet.event_name, request_id)
    }

    /// Writes the packet as a frame whose header carries the request id.
    pub fn encode(&self, request_id: u128) -> (r: Frame)
        ensures
            r@ == SubscribePacket::frame_spec(*self, request_id),
    {
        write_subscription("subscribe", self.event_name, request_id)
    }

    /// Reads the packet from a document.
    pub fn decode(document: JsonObject) -> (r: Result<SubscribePacket, SchemaError>)
        ensures
            match r {
                Ok(packet) => subscription_of(document@, "subscribe"@) == Ok::<
                    EventType,
                    SchemaErrorView,
                >(packet.event_name),
                Err(e) => subscription_of(document@, "subscribe"@) == Err::<
                    EventType,
                    SchemaErrorView,
                >(e@),
            },
    {
        let event_name = read_subscription(document, "subscribe")?;
        Ok(SubscribePacket { event_name })
    }
}

} // verus!
