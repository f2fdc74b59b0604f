use crate::command::{read_text_field, text_field, Command};
use crate::error::Error;
use crate::json::ObjectView;
use crate::packet::command_response::{CommandResponsePacket, CommandResponseView};
use vstd::prelude::*;

verus! {

/// The command that asks for the name of the local player.
#[derive(Clone, Copy, Debug, PartialEq, Eq, Structural)]
pub struct LocalPlayerNameCommand;

/// The answer to a `LocalPlayerNameCommand`.
#[derive(Clone, Debug, PartialEq)]
pub struct LocalPlayerNameCommandResponse {
    pub name: String,
}

impl LocalPlayerNameCommandResponse {
    /// The name that the extra data of a response holds.
    pub open spec fn parse_spec(data: ObjectView) -> Result<Seq<char>, Error> {
        text_field(data, "localplayername")
    }

    /// Reads the answer from a response.
    pub fn from_response(response: &CommandResponsePacket) -> (r: Result<
        LocalPlayerNameCommandResponse,
        Error,
    >)
        ensures
            match r {
                Ok(answer) => LocalPlayerNameCommandResponse::parse_spec(response@.extra_data)
                    == Ok::<Seq<char>, Error>(answer.name@),
                Err(e) => LocalPlayerNameCommandResponse::parse_spec(response@.extra_data)
                    == Err::<Seq<char>, Error>(e),
            },
    {
        let name = read_text_field(&response.extra_data, "localplayername")?;
        Ok(LocalPlayerNameCommandResponse { name })
    }
}

impl Command for LocalPlayerNameCommand {
    type Response = LocalPlayerNameCommandResponse;

    open spec fn line_spec(&self) -> Seq<char> {
        "getlocalplayername"@
    }

    open spec fn response_spec(
        response: CommandResponseView,
        result: Result<LocalPlayerNameCommandResponse, Error>,
    ) -> bool {
        match result {
            Ok(answer) => LocalPlayerNameCommandResponse::parse_spec(response.extra_data) == Ok::<
                Seq<char>,
                Error,
            >(answer.name@),
            Err(e) => LocalPlayerNameCommandResponse::parse_spec(response.extra_data) == Err::<
                Seq<char>,
                Error,
            >(e),
        }
    }

    fn command_line(&self) -> (r: String) {
        "getlocalplayername".to_owned()
    }

    fn read_response(response: &CommandResponsePacket) -> (r: Result<
        LocalPlayerNameCommandResponse,
        Error,
    >) {
        LocalPlayerNameCommandResponse::from_response(response)
    }
}

} // verus!
