use crate::json::{lemma_member_without, without, JsonObject, ObjectView};
use crate::packet::wire::{
    frame_of, open_frame, optional_text, required_i32, required_id, take_i32, take_id,
    take_optional_text, SchemaError, SchemaErrorView,
};
use vstd::prelude::*;

verus! {

/// The server's answer to a command.
#[derive(Clone, Debug, PartialEq)]
pub struct CommandResponsePacket {
    pub status_code: i32,
    pub status_message: Option<String>,
    pub request_id: u128,
    pub extra_data: JsonObject,
}

/// The mathematical value of a `CommandResponsePacket`.
pub struct CommandResponseView {
    pub status_code: i32,
    pub status_message: Option<Seq<char>>,
    pub request_id: u128,
    pub extra_data: ObjectView,
}

/// The characters of an optional text.
pub open spec fn optional_view(text: Option<String>) -> Option<Seq<char>> {
    match text {
        Some(t) => Some(t@),
        None => None,
    }
}

impl View for CommandResponsePacket {
    type V = CommandResponseView;

    open spec fn view(&self) -> CommandResponseView {
        CommandResponseView {
            status_code: self.status_code,
            status_message: optional_view(self.status_message),
            request_id: self.request_id,
            extra_data: self.extra_data@,
        }
    }
}

impl CommandResponsePacket {
    /// The command response that a document holds. The extra data is the
    /// body without the status code and the status message.
    pub open spec fn decode_spec(document: ObjectView) -> Result<
        CommandResponseView,
        SchemaErrorView,
    > {
        match frame_of(document, "commandResponse"@) {
            Err(e) => Err(e),
            Ok(frame) => match required_i32(frame.body, "statusCode"@, "body.statusCode"@) {
                Err(e) => Err(e),
                Ok(status_code) => match optional_text(frame.body, "statusMessage"@) {
                    Err(e) => Err(e),
                    Ok(status_message) => match required_id(
                        frame.header,
                        "requestId"@,
                        "header.requestId"@,
                    ) {
                        Err(e) => Err(e),
                        Ok(request_id) => Ok(
                            CommandResponseView {
                                status_code,
                                status_message,
                                request_id,
                                extra_data: without(
                                    without(frame.body, "statusCode"@),
                                    "statusMessage"@,
                                ),
                            },
                        ),
                    },
                },
            },
        }
    }

    /// A copy of the packet.
    pub fn copy(&self) -> (r: CommandResponsePacket)
        ensures
            r@ == self@,
    {
        CommandResponsePacket {
            status_code: self.status_code,
            status_message: match &self.status_message {
                Some(text) => Some(text.clone()),
                None => None,
            },
            request_id: self.request_id,
            extra_data: self.extra_data.copy(),
        }
    }

    /// Reads a command response from a document.
    pub fn decode(document: JsonObject) -> (r: Result<CommandResponsePacket, SchemaError>)
        ensures
            match r {
                Ok(packet) => CommandResponsePacket::decode_spec(document@) == Ok::<
                    CommandResponseView,
                    SchemaErrorView,
                >(packet@),
                Err(e) => CommandResponsePacket::decode_spec(document@) == Err::<
                    CommandResponseView,
                    SchemaErrorView,
                >(e@),
            },
    {
        let frame = open_frame(document, "commandResponse")?;
        let mut header = frame.header;
        let mut body = frame.body;
        proof {
            reveal_strlit("statusCode");
            reveal_strlit("statusMessage");
            assert("statusCode"@.len() != "statusMessage"@.len());
            lemma_member_without(body@, "statusCode"@, "statusMessage"@);
        }
        let status_code = take_i32(&mut body, "statusCode", "body.statusCode")?;
        let status_message = take_optional_text(&mut body, "statusMessage")?;
        let request_id = take_id(&mut header, "requestId", "header.requestId")?;
        Ok(CommandResponsePacket { status_code, status_message, request_id, extra_data: body })
    }
}

} // verus!
