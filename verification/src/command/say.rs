use crate::command::{read_text_field, text_field, Command};
use crate::error::Error;
use crate::json::ObjectView;
use crate::packet::command_response::{CommandResponsePacket, CommandResponseView};
use vstd::prelude::*;

verus! {

/// The command that says a message in the chat.
#[derive(Clone, Debug, PartialEq)]
pub struct SayCommand {
    pub message: String,
}

impl SayCommand {
    /// The command that says a given message.
    pub fn new(message: &str) -> (r: SayCommand)
        ensures
            r.message@ == message@,
    {
        SayCommand { message: message.to_owned() }
    }
}

/// The answer to a `SayCommand`.
#[derive(Clone, Debug, PartialEq)]
pub struct SayCommandResponse {
    pub message: String,
}

impl SayCommandResponse {
    /// The message that the extra data of a response holds.
    pub open spec fn parse_spec(data: ObjectView) -> Result<Seq<char>, Error> {
        text_field(data, "message")
    }

    /// Reads the answer from a response.
    pub fn from_response(response: &CommandResponsePacket) -> (r: Result<
        SayCommandResponse,
        Error,
    >)
        ensures
            match r {
                Ok(answer) => SayCommandResponse::parse_spec(response@.extra_data) == Ok::<
                    Seq<char>,
                    Error,
                >(answer.message@),
                Err(e) => SayCommandResponse::parse_spec(response@.extra_data) == Err::<
                    Seq<char>,
                    Error,
                >(e),
            },
    {
        let message = read_text_field(&response.extra_data, "message")?;
        Ok(SayCommandResponse { message })
    }
}

impl Command for SayCommand {
    type Response = SayCommandResponse;

    open spec fn line_spec(&self) -> Seq<char> {
        "say "@ + self.message@
    }

    open spec fn response_spec(
        response: CommandResponseView,
        result: Result<SayCommandResponse, Error>,
    ) -> bool {
        match result {
            Ok(answer) => SayCommandResponse::parse_spec(response.extra_data) == Ok::<
                Seq<char>,
                Error,
            >(answer.message@),
            Err(e) => SayCommandResponse::parse_spec(response.extra_data) == Err::<
                Seq<char>,
                Error,
            >(e),
        }
    }

    fn command_line(&self) -> (r: String) {
        let mut line = "say ".to_owned();
        line.append(self.message.as_str());
        line
    }

    fn read_response(response: &CommandResponsePacket) -> (r: Result<SayCommandResponse, Error>) {
        SayCommandResponse::from_response(response)
    }
}

} // verus!
