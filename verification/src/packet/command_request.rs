use crate::json::{
    lemma_member_at, lemma_member_without, lemma_object_view, member, without, Json, JsonObject,
    JsonView, NumberView, ObjectView,
};
use crate::packet::wire::{
    check_header, frame_of, get_unexpected, holds_frame, lemma_held_frame_reads_back,
    open_frame, purpose_of,
    required_id, required_text, take_id, take_text, text_value, unexpected_of, Frame, FrameView,
    SchemaError, SchemaErrorView,
};
use crate::request_id::{hyphenated, is_random_id, mint_request_id, render_request_id};
use vstd::prelude::*;

verus! {

/// Who a command is issued as.
#[derive(Clone, Copy, Debug, PartialEq, Eq, Structural)]
pub enum OriginType {
    Player,
}

/// The origin descriptor of a command.
#[derive(Clone, Copy, Debug, PartialEq, Eq, Structural)]
pub struct Origin {
    pub origin_type: OriginType,
}

impl Default for Origin {
    fn default() -> (r: Origin)
        ensures
            r == (Origin { origin_type: OriginType::Player }),
    {
        Origin { origin_type: OriginType::Player }
    }
}

/// A command sent to the server.
#[derive(Clone, Debug, PartialEq)]
pub struct CommandRequestPacket {
    pub origin: Origin,
    pub command_line: String,
    pub request_id: u128,
}

/// The mathematical value of a `CommandRequestPacket`.
pub struct CommandRequestView {
    pub origin: Origin,
    pub command_line: Seq<char>,
    pub request_id: u128,
}

impl View for CommandRequestPacket {
    type V = CommandRequestView;

    open spec fn view(&self) -> CommandRequestView {
        CommandRequestView {
            origin: self.origin,
            command_line: self.command_line@,
            request_id: self.request_id,
        }
    }
}

/// The wire form of an origin descriptor.
pub open spec fn origin_value() -> JsonView {
    JsonView::Object(seq![("origin"@, JsonView::Text("player"@))])
}

/// Whether a value is an origin descriptor: an object that holds the text
/// `player` under `origin`.
pub open spec fn read_origin(value: JsonView) -> Option<Origin> {
    match value {
        JsonView::Object(object) => if member(object, "origin"@) == Some(
            JsonView::Text("player"@),
        ) {
            Some(Origin { origin_type: OriginType::Player })
        } else {
            None
        },
        _ => None,
    }
}

/// What reading a required origin descriptor from an object gives.
pub open spec fn required_origin(object: ObjectView, key: Seq<char>, path: Seq<char>) -> Result<
    Origin,
    SchemaErrorView,
> {
    match member(object, key) {
        None => Err(SchemaErrorView::MissingField(path)),
        Some(value) => match read_origin(value) {
            Some(origin) => Ok(origin),
            None => Err(SchemaErrorView::FieldFailed(key, "Origin"@)),
        },
    }
}

/// What reading the message type from a header gives: it must be there, and
/// be the text `commandRequest`.
pub open spec fn required_message_type(header: ObjectView) -> Result<(), SchemaErrorView> {
    match member(header, "messageType"@) {
        None => Err(SchemaErrorView::MissingField("header.messageType"@)),
        Some(value) => if value == JsonView::Text("commandRequest"@) {
            Ok(())
        } else {
            Err(SchemaErrorView::InvalidValue(unexpected_of(value), "commandRequest"@))
        },
    }
}

/// The header of a packet that the client writes.
pub open spec fn client_header(purpose: Seq<char>, request_id: u128) -> ObjectView {
    seq![
        ("messageType"@, JsonView::Text("commandRequest"@)),
        ("requestId"@, JsonView::Text(hyphenated(request_id))),
        ("version"@, JsonView::Number(NumberView::Unsigned(1))),
        ("messagePurpose"@, JsonView::Text(purpose)),
    ]
}

/// What the header of a packet that the client writes holds: it passes the
/// checks of its purpose and of its message type, and holds the request id
/// in hyphenated form.
pub proof fn lemma_client_header(purpose: Seq<char>, request_id: u128)
    ensures
        check_header(client_header(purpose, request_id), purpose) == Ok::<(), SchemaErrorView>(()),
        required_message_type(client_header(purpose, request_id)) == Ok::<(), SchemaErrorView>(
            (),
        ),
        member(client_header(purpose, request_id), "requestId"@) == Some(
            JsonView::Text(hyphenated(request_id)),
        ),
{
    lemma_request_names();
    let header = client_header(purpose, request_id);
    lemma_member_at(header, 0, "messageType"@);
    lemma_member_at(header, 1, "requestId"@);
    lemma_member_at(header, 2, "version"@);
    lemma_member_at(header, 3, "messagePurpose"@);
}

/// What reading a document that holds the frame of a command request finds
/// at each step, in whatever order the members of the document stand: a
/// frame, the origin, the command line and the message type, and the
/// request id in hyphenated form; and the purpose that the document
/// declares.
pub proof fn lemma_request_document(packet: CommandRequestView, document: ObjectView)
    requires
        holds_frame(document, CommandRequestPacket::frame_spec(packet)),
    ensures
        purpose_of(document) == Ok::<Seq<char>, SchemaErrorView>("commandRequest"@),
        frame_of(document, "commandRequest"@) matches Ok(read) && required_origin(
            read.body,
            "origin"@,
            "body.origin"@,
        ) == Ok::<Origin, SchemaErrorView>(Origin { origin_type: OriginType::Player })
            && required_text(read.body, "commandLine"@, "body.commandLine"@) == Ok::<
            Seq<char>,
            SchemaErrorView,
        >(packet.command_line) && required_message_type(read.header) == Ok::<
            (),
            SchemaErrorView,
        >(()) && member(read.header, "requestId"@) == Some(
            JsonView::Text(hyphenated(packet.request_id)),
        ),
{
    let frame = CommandRequestPacket::frame_spec(packet);
    lemma_request_names();
    lemma_client_header("commandRequest"@, packet.request_id);
    lemma_held_frame_reads_back(document, frame, "commandRequest"@);
    lemma_member_at(frame.body, 0, "origin"@);
    lemma_member_at(frame.body, 1, "commandLine"@);
    lemma_member_at(seq![("origin"@, JsonView::Text("player"@))], 0, "origin"@);
    let read = frame_of(document, "commandRequest"@)->Ok_0;
    assert(member(read.body, "origin"@) == member(frame.body, "origin"@));
    assert(member(read.body, "commandLine"@) == member(frame.body, "commandLine"@));
    assert(member(read.header, "messageType"@) == member(frame.header, "messageType"@));
    assert(member(read.header, "requestId"@) == member(frame.header, "requestId"@));
}

/// Writes the header of a packet that the client sends. The message type is
/// `commandRequest` whatever the purpose: that is how the protocol is spoken.
pub fn write_client_header(purpose: &'static str, request_id: u128) -> (r: JsonObject)
    ensures
        r@ == client_header(purpose@, request_id),
{
    let mut header = JsonObject::new();
    header.push("messageType", text_value("commandRequest"));
    let id = render_request_id(request_id);
    header.push("requestId", Json::Text(id));
    header.push("version", Json::Number(crate::json::JsonNumber::Unsigned(1)));
    header.push("messagePurpose", text_value(purpose));
    header
}

/// Checks that a header declares the message type `commandRequest`.
pub fn take_message_type(header: &mut JsonObject) -> (r: Result<(), SchemaError>)
    ensures
        final(header)@ == without(old(header)@, "messageType"@),
        match r {
            Ok(()) => required_message_type(old(header)@) == Ok::<(), SchemaErrorView>(()),
            Err(e) => required_message_type(old(header)@) == Err::<(), SchemaErrorView>(e@),
        },
{
    match header.take("messageType") {
        None => Err(SchemaError::MissingField("header.messageType")),
        Some(value) => {
            let matches = match &value {
                Json::Text(t) => crate::json::same_text(t.as_str(), "commandRequest"),
                _ => false,
            };
            if matches {
                Ok(())
            } else {
                Err(SchemaError::InvalidValue(get_unexpected(&value), "commandRequest"))
            }
        },
    }
}

/// Takes a required origin descriptor out of an object.
pub fn take_origin(object: &mut JsonObject, key: &'static str, path: &'static str) -> (r: Result<
    Origin,
    SchemaError,
>)
    ensures
        final(object)@ == without(old(object)@, key@),
        match r {
            Ok(origin) => required_origin(old(object)@, key@, path@) == Ok::<
                Origin,
                SchemaErrorView,
            >(origin),
            Err(e) => required_origin(old(object)@, key@, path@) == Err::<Origin, SchemaErrorView>(
                e@,
            ),
        },
{
    match object.take(key) {
        None => Err(SchemaError::MissingField(path)),
        Some(Json::Object(inner)) => {
            proof {
                lemma_object_view(inner);
            }
            match inner.get("origin") {
                Some(Json::Text(t)) => if crate::json::same_text(t.as_str(), "player") {
                    Ok(Origin { origin_type: OriginType::Player })
                } else {
                    Err(SchemaError::FieldFailed(key, "Origin"))
                },
                _ => Err(SchemaError::FieldFailed(key, "Origin")),
            }
        },
        Some(_) => Err(SchemaError::FieldFailed(key, "Origin")),
    }
}

impl CommandRequestPacket {
    /// The frame that a command request is written as.
    pub open spec fn frame_spec(packet: CommandRequestView) -> FrameView {
        FrameView {
            header: client_header("commandRequest"@, packet.request_id),
            body: seq![
                ("origin"@, origin_value()),
                ("commandLine"@, JsonView::Text(packet.command_line)),
            ],
        }
    }

    /// The command request that a document holds.
    pub open spec fn decode_spec(document: ObjectView) -> Result<
        CommandRequestView,
        SchemaErrorView,
    > {
        match frame_of(document, "commandRequest"@) {
            Err(e) => Err(e),
            Ok(frame) => match required_origin(frame.body, "origin"@, "body.origin"@) {
                Err(e) => Err(e),
                Ok(origin) => match required_text(
                    frame.body,
                    "commandLine"@,
                    "body.commandLine"@,
                ) {
                    Err(e) => Err(e),
                    Ok(command_line) => match required_message_type(frame.header) {
                        Err(e) => Err(e),
                        Ok(()) => match required_id(
                            frame.header,
                            "requestId"@,
                            "header.requestId"@,
                        ) {
                            Err(e) => Err(e),
                            Ok(request_id) => Ok(
                                CommandRequestView { origin, command_line, request_id },
                            ),
                        },
                    },
                },
            },
        }
    }

    /// A request for a command line, under a request id of the caller's.
    pub fn with_id(command_line: &str, request_id: u128) -> (r: CommandRequestPacket)
        ensures
            r@ == (CommandRequestView {
                origin: Origin { origin_type: OriginType::Player },
                command_line: command_line@,
                request_id,
            }),
    {
        CommandRequestPacket {
            origin: Origin { origin_type: OriginType::Player },
            command_line: command_line.to_owned(),
            request_id,
        }
    }

    /// A copy of the packet.
    pub fn copy(&self) -> (r: CommandRequestPacket)
        ensures
            r@ == self@,
    {
        CommandRequestPacket {
            origin: self.origin,
            command_line: self.command_line.clone(),
            request_id: self.request_id,
        }
    }

    /// A request for a command line, under a freshly minted random id.
    pub fn new(command_line: &str) -> (r: CommandRequestPacket)
        ensures
            r.origin == (Origin { origin_type: OriginType::Player }),
            r.command_line@ == command_line@,
            is_random_id(r.request_id),
    {
        CommandRequestPacket::with_id(command_line, mint_request_id())
    }

    /// Writes the request as a frame.
    pub fn encode(&self) -> (r: Frame)
        ensures
            r@ == CommandRequestPacket::frame_spec(self@),
    {
        let header = write_client_header("commandRequest", self.request_id);
        let mut origin = JsonObject::new();
        origin.push("origin", text_value("player"));
        proof {
            lemma_object_view(origin);
        }
        let mut body = JsonObject::new();
        body.push("origin", Json::Object(origin));
        body.push("commandLine", text_value(self.command_line.as_str()));
        assert(body@ =~= CommandRequestPacket::frame_spec(self@).body);
        Frame { header, body }
    }

    /// Reads a command request from a document. A document that holds the
    /// frame that a request is written as is read as that request, in
    /// whatever order its members stand.
    pub fn decode(document: JsonObject) -> (r: Result<CommandRequestPacket, SchemaError>)
        ensures
            match r {
                Ok(packet) => CommandRequestPacket::decode_spec(document@) == Ok::<
                    CommandRequestView,
                    SchemaErrorView,
                >(packet@),
                Err(e) => CommandRequestPacket::decode_spec(document@) == Err::<
                    CommandRequestView,
                    SchemaErrorView,
                >(e@),
            },
            forall|packet: CommandRequestView| #[trigger]
                holds_frame(document@, CommandRequestPacket::frame_spec(packet)) ==> (r matches Ok(
                    read,
                ) && read@ == packet),
    {
        proof {
            assert forall|packet: CommandRequestView| #[trigger]
                holds_frame(document@, CommandRequestPacket::frame_spec(packet)) implies frame_of(
                document@,
                "commandRequest"@,
            ) is Ok by {
                lemma_request_document(packet, document@);
            }
        }
        let frame = open_frame(document, "commandRequest")?;
        proof {
            assert forall|packet: CommandRequestView| #[trigger]
                holds_frame(document@, CommandRequestPacket::frame_spec(packet))
                implies required_origin(frame@.body, "origin"@, "body.origin"@) == Ok::<
                Origin,
                SchemaErrorView,
            >(packet.origin) && required_text(
                frame@.body,
                "commandLine"@,
                "body.commandLine"@,
            ) == Ok::<Seq<char>, SchemaErrorView>(packet.command_line) && required_message_type(
                frame@.header,
            ) == Ok::<(), SchemaErrorView>(()) && member(frame@.header, "requestId"@) == Some(
                JsonView::Text(hyphenated(packet.request_id)),
            ) by {
                lemma_request_document(packet, document@);
            }
        }
        let mut header = frame.header;
        let mut body = frame.body;
        proof {
            lemma_request_names();
            lemma_member_without(body@, "origin"@, "commandLine"@);
            lemma_member_without(header@, "messageType"@, "requestId"@);
        }
        let origin = take_origin(&mut body, "origin", "body.origin")?;
        let command_line = take_text(&mut body, "commandLine", "body.commandLine")?;
        take_message_type(&mut header)?;
        let request_id = take_id(&mut header, "requestId", "header.requestId")?;
        Ok(CommandRequestPacket { origin, command_line, request_id })
    }
}

/// The member names of a command request differ from one another.
pub proof fn lemma_request_names()
    ensures
        "origin"@ != "commandLine"@,
        "messageType"@ != "requestId"@,
        "messageType"@ != "version"@,
        "messageType"@ != "messagePurpose"@,
        "requestId"@ != "version"@,
        "requestId"@ != "messagePurpose"@,
        "version"@ != "messagePurpose"@,
        "header"@ != "body"@,
{
    reveal_strlit("origin");
    reveal_strlit("commandLine");
    reveal_strlit("messageType");
    reveal_strlit("requestId");
    reveal_strlit("version");
    reveal_strlit("messagePurpose");
    reveal_strlit("header");
    reveal_strlit("body");
    assert("origin"@.len() == 6);
    assert("commandLine"@.len() == 11);
    assert("messageType"@.len() == 11);
    assert("requestId"@.len() == 9);
    assert("version"@.len() == 7);
    assert("messagePurpose"@.len() == 14);
    assert("header"@.len() == 6);
    assert("body"@.len() == 4);
}

} // verus!
