use crate::event::EventType;
use crate::json::{JsonObject, ObjectView};
use crate::packet::wire::{
    frame_of, open_frame, required_event_type, take_event_type, SchemaError, SchemaErrorView,
};
use vstd::prelude::*;

verus! {

/// An event that the server reports.
#[derive(Clone, Debug, PartialEq)]
pub struct EventPacket {
    pub event_name: EventType,
    pub properties: JsonObject,
}

/// The mathematical value of an `EventPacket`.
pub struct EventPacketView {
    pub event_name: EventType,
    pub properties: ObjectView,
}

impl View for EventPacket {
    type V = EventPacketView;

    open spec fn view(&self) -> EventPacketView {
        EventPacketView { event_name: self.event_name, properties: self.properties@ }
    }
}

impl Default for EventPacket {
    fn default() -> (r: EventPacket)
        ensures
            r@ == EventPacket::default_view(),
    {
        EventPacket { event_name: EventType::PlayerMessage, properties: JsonObject::new() }
    }
}

impl EventPacket {
    /// The event that stands in a slot before any was received: no
    /// properties, under the first kind of event.
    pub open spec fn default_view() -> EventPacketView {
        EventPacketView {
            event_name: EventType::PlayerMessage,
            properties: Seq::<(Seq<char>, crate::json::JsonView)>::empty(),
        }
    }

    /// The event that a document holds: the kind that its header names, and
    /// its whole body as the properties.
    pub open spec fn decode_spec(document: ObjectView) -> Result<EventPacketView, SchemaErrorView> {
        match frame_of(document, "event"@) {
            Err(e) => Err(e),
            Ok(frame) => match required_event_type(
                frame.header,
                "eventName"@,
                "header.eventName"@,
            ) {
                Err(e) => Err(e),
                Ok(event_name) => Ok(EventPacketView { event_name, properties: frame.body }),
            },
        }
    }

    /// A copy of the event.
    pub fn copy(&self) -> (r: EventPacket)
        ensures
            r@ == self@,
    {
        EventPacket { event_name: self.event_name, properties: self.properties.copy() }
    }

    /// Reads an event from a document.
    pub fn decode(document: JsonObject) -> (r: Result<EventPacket, SchemaError>)
        ensures
            match r {
                Ok(packet) => EventPacket::decode_spec(document@) == Ok::<
                    EventPacketView,
                    SchemaErrorView,
                >(packet@),
                Err(e) => EventPacket::decode_spec(document@) == Err::<
                    EventPacketView,
                    SchemaErrorView,
                >(e@),
            },
    {
        let frame = open_frame(document, "event")?;
        let mut header = frame.header;
        let event_name = take_event_type(&mut header, "eventName", "header.eventName")?;
        Ok(EventPacket { event_name, properties: frame.body })
    }
}

} // verus!
