pub mod grammar;
pub mod help;
pub mod local_player_name;
pub mod say;

pub use help::{HelpCommand, HelpCommandResponse};
pub use local_player_name::{LocalPlayerNameCommand, LocalPlayerNameCommandResponse};
pub use say::{SayCommand, SayCommandResponse};

use crate::error::Error;
use crate::json::{member, Json, JsonNumber, JsonObject, JsonView, NumberView, ObjectView};
use crate::packet::command_request::{CommandRequestPacket, CommandRequestView, Origin, OriginType};
use crate::packet::command_response::{CommandResponsePacket, CommandResponseView};
use crate::request_id::is_random_id;
use vstd::prelude::*;

verus! {

/// A command with its typed answer: the command line it is sent as, and how
/// its answer is read from the extra data of a successful response.
pub trait Command: Sized {
    type Response;

    /// The command line that the command is sent as.
    spec fn line_spec(&self) -> Seq<char>;

    /// Whether a result is what reading the answer from a response gives.
    spec fn response_spec(
        response: CommandResponseView,
        result: Result<Self::Response, Error>,
    ) -> bool;

    /// Writes the command line.
    fn command_line(&self) -> (r: String)
        ensures
            r@ == self.line_spec(),
    ;

    /// Reads the typed answer from a response.
    fn read_response(response: &CommandResponsePacket) -> (r: Result<Self::Response, Error>)
        ensures
            Self::response_spec(response@, r),
    ;
}

/// The request that a command is sent as, under a request id of the
/// caller's.
pub fn request_with_id<T: Command>(command: &T, request_id: u128) -> (r: CommandRequestPacket)
    ensures
        r@ == (CommandRequestView {
            origin: Origin { origin_type: OriginType::Player },
            command_line: command.line_spec(),
            request_id,
        }),
{
    let line = command.command_line();
    CommandRequestPacket::with_id(line.as_str(), request_id)
}

/// The request that a command is sent as, under a freshly minted random id.
pub fn request_of<T: Command>(command: &T) -> (r: CommandRequestPacket)
    ensures
        r.origin == (Origin { origin_type: OriginType::Player }),
        r.command_line@ == command.line_spec(),
        is_random_id(r.request_id),
{
    let line = command.command_line();
    CommandRequestPacket::new(line.as_str())
}

/// The text that the extra data of a response holds under a name.
pub open spec fn text_field(data: ObjectView, name: &'static str) -> Result<Seq<char>, Error> {
    match member(data, name@) {
        None => Err(Error::MissingField(name)),
        Some(JsonView::Text(t)) => Ok(t),
        Some(_) => Err(Error::InvalidType),
    }
}

/// The unsigned integer that a value holds, if it holds one.
pub open spec fn read_u64(value: JsonView) -> Option<u64> {
    match value {
        JsonView::Number(NumberView::Unsigned(n)) => Some(n),
        JsonView::Number(NumberView::Signed(n)) => if n >= 0 {
            Some(n as u64)
        } else {
            None
        },
        _ => None,
    }
}

/// The unsigned integer that the extra data of a response holds under a
/// name.
pub open spec fn u64_field(data: ObjectView, name: &'static str) -> Result<u64, Error> {
    match member(data, name@) {
        None => Err(Error::MissingField(name)),
        Some(value) => match read_u64(value) {
            Some(n) => Ok(n),
            None => Err(Error::InvalidType),
        },
    }
}

/// Reads the text that the extra data of a response holds under a name.
pub fn read_text_field(data: &JsonObject, name: &'static str) -> (r: Result<String, Error>)
    ensures
        match r {
            Ok(t) => text_field(data@, name) == Ok::<Seq<char>, Error>(t@),
            Err(e) => text_field(data@, name) == Err::<Seq<char>, Error>(e),
        },
{
    match data.get(name) {
        None => Err(Error::MissingField(name)),
        Some(Json::Text(t)) => Ok(t.clone()),
        Some(_) => Err(Error::InvalidType),
    }
}

/// Reads the unsigned integer that the extra data of a response holds under
/// a name.
pub fn read_u64_field(data: &JsonObject, name: &'static str) -> (r: Result<u64, Error>)
    ensures
        match r {
            Ok(n) => u64_field(data@, name) == Ok::<u64, Error>(n),
            Err(e) => u64_field(data@, name) == Err::<u64, Error>(e),
        },
{
    match data.get(name) {
        None => Err(Error::MissingField(name)),
        Some(Json::Number(JsonNumber::Unsigned(n))) => Ok(*n),
        Some(Json::Number(JsonNumber::Signed(n))) => if *n >= 0 {
            Ok(*n as u64)
        } else {
            Err(Error::InvalidType)
        },
        Some(_) => Err(Error::InvalidType),
    }
}

} // verus!
