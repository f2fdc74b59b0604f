use crate::event::EventType;
use crate::json::JsonObject;
use crate::packet::subscribe::{
    read_subscription, subscription_frame, subscription_of, write_subscription,
};
use crate::packet::wire::{Frame, FrameView, SchemaError, SchemaErrorView};
use vstd::prelude::*;

verus! {

/// The request to be told no more of events of one kind.
#[derive(Clone, Copy, Debug, PartialEq, Eq, Structural)]
pub struct UnsubscribePacket {
    pub event_name: EventType,
}

impl Default for UnsubscribePacket {
    fn default() -> (r: UnsubscribePacket)
        ensures
            r.event_name == EventType::PlayerMessage,
    {
        UnsubscribePacket { event_name: EventType::PlayerMessage }
    }
}

impl UnsubscribePacket {
    /// The frame that the packet is written as, under a given request id.
    pub open spec fn frame_spec(packet: UnsubscribePacket, request_id: u128) -> FrameView {
        subscription_frame("unsubscribe"@, packet.event_name, request_id)
    }

    /// Writes the packet as a frame whose header carries the request id.
    pub fn encode(&self, request_id: u128) -> (r: Frame)
        ensures
            r@ == UnsubscribePacket::frame_spec(*self, request_id),
    {
        write_subscription("unsubscribe", self.event_name, request_id)
    }

    /// Reads the packet from a document.
    pub fn decode(document: JsonObject) -> (r: Result<UnsubscribePacket, SchemaError>)
        ensures
            match r {
                Ok(packet) => subscription_of(document@, "unsubscribe"@) == Ok::<
                    EventType,
                    SchemaErrorView,
                >(packet.event_name),
                Err(e) => subscription_of(document@, "unsubscribe"@) == Err::<
                    EventType,
                    SchemaErrorView,
                >(e@),
            },
    {
        let event_name = read_subscription(document, "unsubscribe")?;
        Ok(UnsubscribePacket { event_name })
    }
}

} // verus!
