use crate::json::{object_writable, json_text_value, lemma_object_view, same_text, Json, JsonView, SyntaxError};
use crate::packet::command_request::{
    client_header, lemma_request_document, CommandRequestPacket, CommandRequestView,
};
use crate::packet::command_response::{CommandResponsePacket, CommandResponseView};
use crate::packet::error::{ErrorPacket, ErrorPacketView};
use crate::packet::event::{EventPacket, EventPacketView};
use crate::packet::subscribe::{lemma_subscription_reads_back, subscription_of, SubscribePacket};
use crate::packet::unsubscribe::UnsubscribePacket;
use crate::packet::wire::{
    frame_text, get_unexpected, holds_frame, purpose_of, read_purpose,
    unexpected_of, Frame, FrameView, SchemaError, SchemaErrorView, Unexpected, UnexpectedView,
};
use crate::request_id::{is_random_id, mint_request_id};
use vstd::prelude::*;

verus! {

/// One message of the protocol.
#[derive(Clone, Debug, PartialEq)]
pub enum Packet {
    Error(ErrorPacket),
    Subscribe(SubscribePacket),
    Unsubscribe(UnsubscribePacket),
    Event(EventPacket),
    CommandRequest(CommandRequestPacket),
    CommandResponse(CommandResponsePacket),
}

/// The mathematical value of a `Packet`.
pub enum PacketView {
    Error(ErrorPacketView),
    Subscribe(SubscribePacket),
    Unsubscribe(UnsubscribePacket),
    Event(EventPacketView),
    CommandRequest(CommandRequestView),
    CommandResponse(CommandResponseView),
}

impl View for Packet {
    type V = PacketView;

    open spec fn view(&self) -> PacketView {
        match self {
            Packet::Error(p) => PacketView::Error(p@),
            Packet::Subscribe(p) => PacketView::Subscribe(*p),
            Packet::Unsubscribe(p) => PacketView::Unsubscribe(*p),
            Packet::Event(p) => PacketView::Event(p@),
            Packet::CommandRequest(p) => PacketView::CommandRequest(p@),
            Packet::CommandResponse(p) => PacketView::CommandResponse(p@),
        }
    }
}

/// Whether a document holds the frame that a packet is written as under a
/// request id, in whatever order its members stand.
pub open spec fn written_as(packet: PacketView, request_id: u128, document: JsonView) -> bool {
    Packet::encode_spec(packet, request_id) matches Ok(frame) && document matches JsonView::Object(
        object,
    ) && holds_frame(object, frame)
}

/// The frame that a packet is written as can be written as text: it holds
/// texts and the version number only.
pub proof fn lemma_written_frame_is_writable(packet: PacketView, request_id: u128)
    ensures
        Packet::encode_spec(packet, request_id) is Ok ==> Packet::encode_spec(
            packet,
            request_id,
        )->Ok_0.writable(),
{
    match packet {
        PacketView::CommandRequest(p) => {
            let frame = CommandRequestPacket::frame_spec(p);
            let origin = seq![("origin"@, JsonView::Text("player"@))];
            assert(object_writable(origin)) by {
                assert forall|i: int| 0 <= i < origin.len() implies (#[trigger] origin[i]).1.writable() by {
                    assert(origin[0].1.writable());
                }
            }
            assert(frame.body[0].1.writable());
            assert(frame.body[1].1.writable());
            lemma_client_header_is_writable("commandRequest"@, p.request_id);
        },
        PacketView::Subscribe(p) => {
            let frame = SubscribePacket::frame_spec(p, request_id);
            assert(frame.body[0].1.writable());
            lemma_client_header_is_writable("subscribe"@, request_id);
        },
        PacketView::Unsubscribe(p) => {
            let frame = UnsubscribePacket::frame_spec(p, request_id);
            assert(frame.body[0].1.writable());
            lemma_client_header_is_writable("unsubscribe"@, request_id);
        },
        _ => {},
    }
}

/// The header of a packet that the client writes can be written as text.
pub proof fn lemma_client_header_is_writable(purpose: Seq<char>, request_id: u128)
    ensures
        object_writable(client_header(purpose, request_id)),
{
    let header = client_header(purpose, request_id);
    assert(header[0].1.writable());
    assert(header[1].1.writable());
    assert(header[2].1.writable());
    assert(header[3].1.writable());
}

/// The six message purposes differ from one another.
pub proof fn lemma_purposes_differ()
    ensures
        "commandResponse"@ != "error"@,
        "commandResponse"@ != "event"@,
        "commandResponse"@ != "commandRequest"@,
        "commandResponse"@ != "subscribe"@,
        "commandResponse"@ != "unsubscribe"@,
        "error"@ != "event"@,
        "error"@ != "commandRequest"@,
        "error"@ != "subscribe"@,
        "error"@ != "unsubscribe"@,
        "event"@ != "commandRequest"@,
        "event"@ != "subscribe"@,
        "event"@ != "unsubscribe"@,
        "commandRequest"@ != "subscribe"@,
        "commandRequest"@ != "unsubscribe"@,
        "subscribe"@ != "unsubscribe"@,
{
    reveal_strlit("commandResponse");
    reveal_strlit("error");
    reveal_strlit("event");
    reveal_strlit("commandRequest");
    reveal_strlit("subscribe");
    reveal_strlit("unsubscribe");
    assert("commandResponse"@.len() == 15);
    assert("error"@.len() == 5);
    assert("event"@.len() == 5);
    assert("commandRequest"@.len() == 14);
    assert("subscribe"@.len() == 9);
    assert("unsubscribe"@.len() == 11);
    assert("error"@[1] == 'r');
    assert("event"@[1] == 'v');
}

impl Packet {
    /// The message purpose of the packet.
    pub open spec fn purpose_spec(self) -> Seq<char> {
        match self {
            Packet::Error(_) => "error"@,
            Packet::Subscribe(_) => "subscribe"@,
            Packet::Unsubscribe(_) => "unsubscribe"@,
            Packet::Event(_) => "event"@,
            Packet::CommandRequest(_) => "commandRequest"@,
            Packet::CommandResponse(_) => "commandResponse"@,
        }
    }

    /// The message purpose of the packet.
    pub fn purpose(&self) -> (r: &'static str)
        ensures
            r@ == self.purpose_spec(),
    {
        match self {
            Packet::Error(_) => "error",
            Packet::Subscribe(_) => "subscribe",
            Packet::Unsubscribe(_) => "unsubscribe",
            Packet::Event(_) => "event",
            Packet::CommandRequest(_) => "commandRequest",
            Packet::CommandResponse(_) => "commandResponse",
        }
    }

    /// A copy of the packet.
    pub fn copy(&self) -> (r: Packet)
        ensures
            r@ == self@,
    {
        match self {
            Packet::Error(p) => Packet::Error(p.copy()),
            Packet::Subscribe(p) => Packet::Subscribe(*p),
            Packet::Unsubscribe(p) => Packet::Unsubscribe(*p),
            Packet::Event(p) => Packet::Event(p.copy()),
            Packet::CommandRequest(p) => Packet::CommandRequest(p.copy()),
            Packet::CommandResponse(p) => Packet::CommandResponse(p.copy()),
        }
    }

    /// The frame that a packet is written as. Only what a client sends can
    /// be written; a subscription travels under the request id given.
    pub open spec fn encode_spec(packet: PacketView, request_id: u128) -> Result<
        FrameView,
        SchemaErrorView,
    > {
        match packet {
            PacketView::Subscribe(p) => Ok(SubscribePacket::frame_spec(p, request_id)),
            PacketView::Unsubscribe(p) => Ok(UnsubscribePacket::frame_spec(p, request_id)),
            PacketView::CommandRequest(p) => Ok(CommandRequestPacket::frame_spec(p)),
            _ => Err(SchemaErrorView::Unserializable),
        }
    }

    /// The packet that a document holds: the purpose that its header
    /// declares says which kind it is read as.
    pub open spec fn decode_spec(document: JsonView) -> Result<PacketView, SchemaErrorView> {
        match document {
            JsonView::Object(object) => match purpose_of(object) {
                Err(e) => Err(e),
                Ok(purpose) => if purpose == "commandResponse"@ {
                    match CommandResponsePacket::decode_spec(object) {
                        Ok(p) => Ok(PacketView::CommandResponse(p)),
                        Err(e) => Err(e),
                    }
                } else if purpose == "error"@ {
                    match ErrorPacket::decode_spec(object) {
                        Ok(p) => Ok(PacketView::Error(p)),
                        Err(e) => Err(e),
                    }
                } else if purpose == "event"@ {
                    match EventPacket::decode_spec(object) {
                        Ok(p) => Ok(PacketView::Event(p)),
                        Err(e) => Err(e),
                    }
                } else if purpose == "commandRequest"@ {
                    match CommandRequestPacket::decode_spec(object) {
                        Ok(p) => Ok(PacketView::CommandRequest(p)),
                        Err(e) => Err(e),
                    }
                } else if purpose == "subscribe"@ {
                    match subscription_of(object, "subscribe"@) {
                        Ok(event_name) => Ok(PacketView::Subscribe(SubscribePacket { event_name })),
                        Err(e) => Err(e),
                    }
                } else if purpose == "unsubscribe"@ {
                    match subscription_of(object, "unsubscribe"@) {
                        Ok(event_name) => Ok(
                            PacketView::Unsubscribe(UnsubscribePacket { event_name }),
                        ),
                        Err(e) => Err(e),
                    }
                } else {
                    Err(
                        SchemaErrorView::InvalidValue(
                            UnexpectedView::Text(purpose),
                            "packet type"@,
                        ),
                    )
                },
            },
            other => Err(SchemaErrorView::InvalidType(unexpected_of(other), "packet"@)),
        }
    }

    /// The packet that a text holds.
    pub open spec fn text_spec(text: Seq<char>) -> Result<PacketView, SchemaErrorView> {
        match json_text_value(text) {
            None => Err(SchemaErrorView::Syntax(SyntaxError::Malformed)),
            Some(document) => Packet::decode_spec(document),
        }
    }

    /// Writes the packet as a frame; a subscription travels under the
    /// request id given.
    pub fn encode_with(&self, request_id: u128) -> (r: Result<Frame, SchemaError>)
        ensures
            match r {
                Ok(frame) => Packet::encode_spec(self@, request_id) == Ok::<
                    FrameView,
                    SchemaErrorView,
                >(frame@),
                Err(e) => Packet::encode_spec(self@, request_id) == Err::<
                    FrameView,
                    SchemaErrorView,
                >(e@),
            },
    {
        match self {
            Packet::Subscribe(p) => Ok(p.encode(request_id)),
            Packet::Unsubscribe(p) => Ok(p.encode(request_id)),
            Packet::CommandRequest(p) => Ok(p.encode()),
            _ => Err(SchemaError::Unserializable),
        }
    }

    /// Writes the packet as a frame; a subscription travels under a freshly
    /// minted random request id.
    pub fn encode(&self) -> (r: Result<Frame, SchemaError>)
        ensures
            match r {
                Ok(frame) => exists|id: u128|
                    is_random_id(id) && #[trigger] Packet::encode_spec(self@, id) == Ok::<
                        FrameView,
                        SchemaErrorView,
                    >(frame@),
                Err(e) => e == SchemaError::Unserializable && !(self is Subscribe) && !(self
                    is Unsubscribe) && !(self is CommandRequest),
            },
    {
        match self {
            Packet::Subscribe(_) | Packet::Unsubscribe(_) | Packet::CommandRequest(_) => {
                let id = mint_request_id();
                let r = self.encode_with(id);
                r
            },
            _ => Err(SchemaError::Unserializable),
        }
    }

    /// Reads a packet from a document. The document of the frame that a
    /// packet is written as is read as that packet, as is every document
    /// that holds that frame, in whatever order its members stand.
    pub fn decode(document: Json) -> (r: Result<Packet, SchemaError>)
        ensures
            match r {
                Ok(packet) => Packet::decode_spec(document@) == Ok::<PacketView, SchemaErrorView>(
                    packet@,
                ),
                Err(e) => Packet::decode_spec(document@) == Err::<PacketView, SchemaErrorView>(
                    e@,
                ),
            },
            forall|packet: PacketView, request_id: u128|
                written_as(packet, request_id, document@) ==> (r matches Ok(read) && read@
                    == packet),
    {
        proof {
            lemma_purposes_differ();
            assert forall|packet: PacketView, request_id: u128| #[trigger]
                written_as(packet, request_id, document@) implies match packet {
                PacketView::CommandRequest(p) => holds_frame(
                    document@->Object_0,
                    CommandRequestPacket::frame_spec(p),
                ) && purpose_of(document@->Object_0) == Ok::<Seq<char>, SchemaErrorView>(
                    "commandRequest"@,
                ),
                PacketView::Subscribe(p) => purpose_of(document@->Object_0) == Ok::<
                    Seq<char>,
                    SchemaErrorView,
                >("subscribe"@) && subscription_of(document@->Object_0, "subscribe"@) == Ok::<
                    crate::event::EventType,
                    SchemaErrorView,
                >(p.event_name),
                PacketView::Unsubscribe(p) => purpose_of(document@->Object_0) == Ok::<
                    Seq<char>,
                    SchemaErrorView,
                >("unsubscribe"@) && subscription_of(document@->Object_0, "unsubscribe"@) == Ok::<
                    crate::event::EventType,
                    SchemaErrorView,
                >(p.event_name),
                _ => false,
            } by {
                match packet {
                    PacketView::CommandRequest(p) => {
                        lemma_request_document(p, document@->Object_0);
                    },
                    PacketView::Subscribe(p) => {
                        lemma_subscription_reads_back(
                            "subscribe"@,
                            p.event_name,
                            request_id,
                            document@->Object_0,
                        );
                    },
                    PacketView::Unsubscribe(p) => {
                        lemma_subscription_reads_back(
                            "unsubscribe"@,
                            p.event_name,
                            request_id,
                            document@->Object_0,
                        );
                    },
                    _ => {},
                }
            }
        }
        let object = match document {
            Json::Object(object) => {
                proof {
                    lemma_object_view(object);
                }
                object
            },
            other => {
                return Err(SchemaError::InvalidType(get_unexpected(&other), "packet"));
            },
        };
        let purpose = read_purpose(&object)?;
        if same_text(purpose.as_str(), "commandResponse") {
            Ok(Packet::CommandResponse(CommandResponsePacket::decode(object)?))
        } else if same_text(purpose.as_str(), "error") {
            Ok(Packet::Error(ErrorPacket::decode(object)?))
        } else if same_text(purpose.as_str(), "event") {
            Ok(Packet::Event(EventPacket::decode(object)?))
        } else if same_text(purpose.as_str(), "commandRequest") {
            Ok(Packet::CommandRequest(CommandRequestPacket::decode(object)?))
        } else if same_text(purpose.as_str(), "subscribe") {
            Ok(Packet::Subscribe(SubscribePacket::decode(object)?))
        } else if same_text(purpose.as_str(), "unsubscribe") {
            Ok(Packet::Unsubscribe(UnsubscribePacket::decode(object)?))
        } else {
            Err(SchemaError::InvalidValue(Unexpected::Text(purpose), "packet type"))
        }
    }

    /// Reads a packet from a text.
    pub fn from_text(text: &str) -> (r: Result<Packet, SchemaError>)
        ensures
            match r {
                Ok(packet) => Packet::text_spec(text@) == Ok::<PacketView, SchemaErrorView>(
                    packet@,
                ),
                Err(e) => Packet::text_spec(text@) == Err::<PacketView, SchemaErrorView>(e@),
            },
    {
        match Json::parse(text) {
            Ok(document) => Packet::decode(document),
            Err(e) => Err(SchemaError::Syntax(e)),
        }
    }

    /// Writes the packet as text; a subscription travels under the request
    /// id given. A packet that a client sends is written, and the text is
    /// that of its frame; no other packet is written.
    pub fn to_text_with(&self, request_id: u128) -> (r: Result<String, SchemaError>)
        ensures
            match Packet::encode_spec(self@, request_id) {
                Ok(frame) => r matches Ok(text) && text@ == frame_text(frame),
                Err(e) => r matches Err(found) && found@ == e,
            },
    {
        proof {
            lemma_written_frame_is_writable(self@, request_id);
        }
        match self.encode_with(request_id) {
            Ok(frame) => frame.render(),
            Err(e) => Err(e),
        }
    }

    /// Writes the packet as text; a subscription travels under a freshly
    /// minted random request id. A packet that a client sends is written;
    /// no other packet is.
    pub fn to_text(&self) -> (r: Result<String, SchemaError>)
        ensures
            match r {
                Ok(text) => exists|id: u128|
                    is_random_id(id) && (#[trigger] Packet::encode_spec(self@, id) matches Ok(
                        frame,
                    ) && text@ == frame_text(frame)),
                Err(e) => e == SchemaError::Unserializable && !(self is Subscribe) && !(self
                    is Unsubscribe) && !(self is CommandRequest),
            },
    {
        proof {
            assert forall|id: u128| #[trigger]
                Packet::encode_spec(self@, id) is Ok implies Packet::encode_spec(
                self@,
                id,
            )->Ok_0.writable() by {
                lemma_written_frame_is_writable(self@, id);
            }
        }
        match self.encode() {
            Ok(frame) => frame.render(),
            Err(e) => Err(e),
        }
    }
}

} // verus!
