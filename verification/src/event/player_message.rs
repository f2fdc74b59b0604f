use crate::command::{read_text_field, text_field};
use crate::error::Error;
use crate::event::{Event, EventType};
use crate::json::{same_text, JsonObject, ObjectView};
use vstd::prelude::*;

verus! {

/// How a message was sent.
#[derive(Clone, Copy, Debug, PartialEq, Eq, Structural)]
pub enum MessageType {
    Chat,
    Say,
    Tell,
}

impl MessageType {
    /// The way of sending that a wire name denotes, if any.
    pub open spec fn from_name_spec(name: Seq<char>) -> Option<MessageType> {
        if name == "chat"@ {
            Some(MessageType::Chat)
        } else if name == "say"@ {
            Some(MessageType::Say)
        } else if name == "tell"@ {
            Some(MessageType::Tell)
        } else {
            None
        }
    }

    /// The way of sending that a wire name denotes, if any.
    pub fn from_name(name: &str) -> (r: Option<MessageType>)
        ensures
            r == MessageType::from_name_spec(name@),
    {
        if same_text(name, "chat") {
            Some(MessageType::Chat)
        } else if same_text(name, "say") {
            Some(MessageType::Say)
        } else if same_text(name, "tell") {
            Some(MessageType::Tell)
        } else {
            None
        }
    }
}

/// The event that a player sent a message.
#[derive(Clone, Debug, PartialEq)]
pub struct PlayerMessage {
    pub message: String,
    pub message_type: MessageType,
    pub sender: String,
    pub receiver: String,
}

/// The mathematical value of a `PlayerMessage`.
pub struct PlayerMessageView {
    pub message: Seq<char>,
    pub message_type: MessageType,
    pub sender: Seq<char>,
    pub receiver: Seq<char>,
}

impl View for PlayerMessage {
    type V = PlayerMessageView;

    open spec fn view(&self) -> PlayerMessageView {
        PlayerMessageView {
            message: self.message@,
            message_type: self.message_type,
            sender: self.sender@,
            receiver: self.receiver@,
        }
    }
}

impl PlayerMessage {
    /// The event that a property map holds: the texts under `message`,
    /// `sender` and `receiver`, and under `type` the name of a way of
    /// sending. The first of these, in this order, that is missing or of
    /// another type decides the error.
    pub open spec fn parse_spec(properties: ObjectView) -> Result<PlayerMessageView, Error> {
        match text_field(properties, "message") {
            Err(e) => Err(e),
            Ok(message) => match text_field(properties, "type") {
                Err(e) => Err(e),
                Ok(name) => match MessageType::from_name_spec(name) {
                    None => Err(Error::InvalidType),
                    Some(message_type) => match text_field(properties, "sender") {
                        Err(e) => Err(e),
                        Ok(sender) => match text_field(properties, "receiver") {
                            Err(e) => Err(e),
                            Ok(receiver) => Ok(
                                PlayerMessageView { message, message_type, sender, receiver },
                            ),
                        },
                    },
                },
            },
        }
    }

    /// Reads the event from a property map.
    pub fn from_properties(properties: &JsonObject) -> (r: Result<PlayerMessage, Error>)
        ensures
            match r {
                Ok(event) => PlayerMessage::parse_spec(properties@) == Ok::<
                    PlayerMessageView,
                    Error,
                >(event@),
                Err(e) => PlayerMessage::parse_spec(properties@) == Err::<PlayerMessageView, Error>(
                    e,
                ),
            },
    {
        let message = read_text_field(properties, "message")?;
        let name = read_text_field(properties, "type")?;
        let message_type = match MessageType::from_name(name.as_str()) {
            Some(message_type) => message_type,
            None => {
                return Err(Error::InvalidType);
            },
        };
        let sender = read_text_field(properties, "sender")?;
        let receiver = read_text_field(properties, "receiver")?;
        Ok(PlayerMessage { message, message_type, sender, receiver })
    }
}

impl Event for PlayerMessage {
    open spec fn type_spec() -> EventType {
        EventType::PlayerMessage
    }

    open spec fn parse_ok(properties: ObjectView, result: Result<PlayerMessage, Error>) -> bool {
        match result {
            Ok(event) => PlayerMessage::parse_spec(properties) == Ok::<PlayerMessageView, Error>(
                event@,
            ),
            Err(e) => PlayerMessage::parse_spec(properties) == Err::<PlayerMessageView, Error>(e),
        }
    }

    fn get_type() -> (r: EventType) {
        EventType::PlayerMessage
    }

    fn read(properties: &JsonObject) -> (r: Result<PlayerMessage, Error>) {
        PlayerMessage::from_properties(properties)
    }
}

} // verus!
