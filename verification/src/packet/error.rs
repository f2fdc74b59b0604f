use crate::json::{lemma_member_without, JsonObject, ObjectView};
use crate::packet::wire::{
    frame_of, open_frame, required_i32, required_text, take_i32, take_text, SchemaError,
    SchemaErrorView,
};
use vstd::prelude::*;

verus! {

/// The server's report that it gives the session up.
#[derive(Clone, Debug, PartialEq)]
pub struct ErrorPacket {
    pub status_message: String,
    pub status_code: i32,
}

/// The mathematical value of an `ErrorPacket`.
pub struct ErrorPacketView {
    pub status_message: Seq<char>,
    pub status_code: i32,
}

impl View for ErrorPacket {
    type V = ErrorPacketView;

    open spec fn view(&self) -> ErrorPacketView {
        ErrorPacketView { status_message: self.status_message@, status_code: self.status_code }
    }
}

impl ErrorPacket {
    /// The error packet that a document holds.
    pub open spec fn decode_spec(document: ObjectView) -> Result<ErrorPacketView, SchemaErrorView> {
        match frame_of(document, "error"@) {
            Err(e) => Err(e),
            Ok(frame) => match required_text(frame.body, "statusMessage"@, "body.statusMessage"@) {
                Err(e) => Err(e),
                Ok(status_message) => match required_i32(
                    frame.body,
                    "statusCode"@,
                    "body.statusCode"@,
                ) {
                    Err(e) => Err(e),
                    Ok(status_code) => Ok(ErrorPacketView { status_message, status_code }),
                },
            },
        }
    }

    /// A copy of the packet.
    pub fn copy(&self) -> (r: ErrorPacket)
        ensures
            r@ == self@,
    {
        ErrorPacket { status_message: self.status_message.clone(), status_code: self.status_code }
    }

    /// Reads an error packet from a document.
    pub fn decode(document: JsonObject) -> (r: Result<ErrorPacket, SchemaError>)
        ensures
            match r {
                Ok(packet) => ErrorPacket::decode_spec(document@) == Ok::<
                    ErrorPacketView,
                    SchemaErrorView,
                >(packet@),
                Err(e) => ErrorPacket::decode_spec(document@) == Err::<
                    ErrorPacketView,
                    SchemaErrorView,
                >(e@),
            },
    {
        let frame = open_frame(document, "error")?;
        let mut body = frame.body;
        proof {
            reveal_strlit("statusCode");
            reveal_strlit("statusMessage");
            assert("statusCode"@.len() != "statusMessage"@.len());
            lemma_member_without(body@, "statusMessage"@, "statusCode"@);
        }
        let status_message = take_text(&mut body, "statusMessage", "body.statusMessage")?;
        let status_code = take_i32(&mut body, "statusCode", "body.statusCode")?;
        Ok(ErrorPacket { status_message, status_code })
    }
}

} // verus!
