use crate::packet::command_response::optional_view;
use crate::packet::packet::PacketView;
use crate::packet::wire::SchemaErrorView;
use crate::packet::{Packet, SchemaError};
use crate::text::{signed_decimal, signed_decimal_text};
use vstd::prelude::*;

verus! {

/// Everything that can go wrong in a session.
#[derive(Clone, Debug, PartialEq)]
pub enum Error {
    /// The transport failed; the text says how.
    WebsocketError(String),
    /// A wire message is no JSON, or not the packet it declares to be.
    JsonParseError(SchemaError),
    /// The named channel, queue or transport ended.
    StreamExhausted(&'static str),
    /// The server reported a failure: in an error packet, or in the status
    /// of a command.
    MinecraftError { status_message: Option<String>, status_code: i32 },
    /// The event loop has ended.
    LoopNotRunning,
    /// An event could not be handed to the listeners.
    EventBroadcastFailed,
    /// The source of events is gone.
    EventReceiveFailed,
    /// A packet could not be queued for sending.
    PacketSendFailed,
    /// A pending command could not be registered.
    CommandSendFailed,
    /// A packet arrived that nothing was waiting for.
    UnexpectedPacket(Packet),
    /// The concurrency limiter is closed.
    AcquireError,
    /// The loop ended before the response to a command arrived.
    CommandResponseNeverBroadcasted,
    /// A typed response or event lacks the named field.
    MissingField(&'static str),
    /// A field of a typed response or event holds a value of another type.
    InvalidType,
}

/// How a run of a session with a handler ended, where it did not end well.
#[derive(Clone, Debug, PartialEq)]
pub enum MultiError {
    LoopErrored(Error),
    HandlerErrored(Error),
    BothErrored { loop_error: Error, handler_error: Error },
}

/// The mathematical value of an `Error`.
pub enum ErrorView {
    WebsocketError(Seq<char>),
    JsonParseError(SchemaErrorView),
    StreamExhausted(Seq<char>),
    MinecraftError { status_message: Option<Seq<char>>, status_code: i32 },
    LoopNotRunning,
    EventBroadcastFailed,
    EventReceiveFailed,
    PacketSendFailed,
    CommandSendFailed,
    UnexpectedPacket(PacketView),
    AcquireError,
    CommandResponseNeverBroadcasted,
    MissingField(Seq<char>),
    InvalidType,
}

impl View for Error {
    type V = ErrorView;

    open spec fn view(&self) -> ErrorView {
        match self {
            Error::WebsocketError(text) => ErrorView::WebsocketError(text@),
            Error::JsonParseError(e) => ErrorView::JsonParseError(e@),
            Error::StreamExhausted(name) => ErrorView::StreamExhausted(name@),
            Error::MinecraftError { status_message, status_code } => ErrorView::MinecraftError {
                status_message: optional_view(*status_message),
                status_code: *status_code,
            },
            Error::LoopNotRunning => ErrorView::LoopNotRunning,
            Error::EventBroadcastFailed => ErrorView::EventBroadcastFailed,
            Error::EventReceiveFailed => ErrorView::EventReceiveFailed,
            Error::PacketSendFailed => ErrorView::PacketSendFailed,
            Error::CommandSendFailed => ErrorView::CommandSendFailed,
            Error::UnexpectedPacket(packet) => ErrorView::UnexpectedPacket(packet@),
            Error::AcquireError => ErrorView::AcquireError,
            Error::CommandResponseNeverBroadcasted => ErrorView::CommandResponseNeverBroadcasted,
            Error::MissingField(name) => ErrorView::MissingField(name@),
            Error::InvalidType => ErrorView::InvalidType,
        }
    }
}

impl Error {
    /// A copy of the error.
    pub fn copy(&self) -> (r: Error)
        ensures
            r@ == self@,
    {
        match self {
            Error::WebsocketError(text) => Error::WebsocketError(text.clone()),
            Error::JsonParseError(e) => Error::JsonParseError(e.copy()),
            Error::StreamExhausted(name) => Error::StreamExhausted(name),
            Error::MinecraftError { status_message, status_code } => Error::MinecraftError {
                status_message: match status_message {
                    Some(text) => Some(text.clone()),
                    None => None,
                },
                status_code: *status_code,
            },
            Error::LoopNotRunning => Error::LoopNotRunning,
            Error::EventBroadcastFailed => Error::EventBroadcastFailed,
            Error::EventReceiveFailed => Error::EventReceiveFailed,
            Error::PacketSendFailed => Error::PacketSendFailed,
            Error::CommandSendFailed => Error::CommandSendFailed,
            Error::UnexpectedPacket(packet) => Error::UnexpectedPacket(packet.copy()),
            Error::AcquireError => Error::AcquireError,
            Error::CommandResponseNeverBroadcasted => Error::CommandResponseNeverBroadcasted,
            Error::MissingField(name) => Error::MissingField(name),
            Error::InvalidType => Error::InvalidType,
        }
    }

    /// The text that describes the error.
    pub open spec fn message_spec(self) -> Seq<char> {
        match self {
            Error::WebsocketError(_) => "websocket error"@,
            Error::JsonParseError(_) => "json parsing error"@,
            Error::StreamExhausted(name) => name@ + " stream exhausted"@,
            Error::MinecraftError { status_message, status_code } => {
                let head = "minecraft error with status: "@ + signed_decimal(status_code as int);
                match status_message {
                    Some(text) => head + " "@ + text@,
                    None => head,
                }
            },
            Error::LoopNotRunning => "event loop not running"@,
            Error::EventBroadcastFailed => "failed to broadcast event"@,
            Error::EventReceiveFailed => "failed to receive event"@,
            Error::PacketSendFailed => "failed to send packet"@,
            Error::CommandSendFailed => "failed to send command"@,
            Error::UnexpectedPacket(packet) => "unexpected packet: "@ + packet.purpose_spec(),
            Error::AcquireError => "failed to obtain semaphore"@,
            Error::CommandResponseNeverBroadcasted => "command response never broadcasted"@,
            Error::MissingField(name) => "missing field: "@ + name@,
            Error::InvalidType => "invalid type"@,
        }
    }

    /// Writes the text that describes the error.
    pub fn message(&self) -> (r: String)
        ensures
            r@ == self.message_spec(),
    {
        match self {
            Error::WebsocketError(_) => "websocket error".to_owned(),
            Error::JsonParseError(_) => "json parsing error".to_owned(),
            Error::StreamExhausted(name) => {
                let mut text = (*name).to_owned();
                text.append(" stream exhausted");
                text
            },
            Error::MinecraftError { status_message, status_code } => {
                let mut text = "minecraft error with status: ".to_owned();
                let code = signed_decimal_text(*status_code as i64);
                text.append(code.as_str());
                match status_message {
                    Some(message) => {
                        text.append(" ");
                        text.append(message.as_str());
                    },
                    None => {},
                }
                text
            },
            Error::LoopNotRunning => "event loop not running".to_owned(),
            Error::EventBroadcastFailed => "failed to broadcast event".to_owned(),
            Error::EventReceiveFailed => "failed to receive event".to_owned(),
            Error::PacketSendFailed => "failed to send packet".to_owned(),
            Error::CommandSendFailed => "failed to send command".to_owned(),
            Error::UnexpectedPacket(packet) => {
                let mut text = "unexpected packet: ".to_owned();
                text.append(packet.purpose());
                text
            },
            Error::AcquireError => "failed to obtain semaphore".to_owned(),
            Error::CommandResponseNeverBroadcasted => {
                "command response never broadcasted".to_owned()
            },
            Error::MissingField(name) => {
                let mut text = "missing field: ".to_owned();
                text.append(name);
                text
            },
            Error::InvalidType => "invalid type".to_owned(),
        }
    }
}

impl MultiError {
    /// The text that describes the errors: a line for each.
    pub open spec fn message_spec(self) -> Seq<char> {
        match self {
            MultiError::LoopErrored(loop_error) => "loop error: "@ + loop_error.message_spec(),
            MultiError::HandlerErrored(handler_error) => "handler error: "@
                + handler_error.message_spec(),
            MultiError::BothErrored { loop_error, handler_error } => "loop error: "@
                + loop_error.message_spec() + "\n"@ + "handler error: "@
                + handler_error.message_spec(),
        }
    }

    /// Writes the text that describes the errors.
    pub fn message(&self) -> (r: String)
        ensures
            r@ == self.message_spec(),
    {
        match self {
            MultiError::LoopErrored(loop_error) => {
                let mut text = "loop error: ".to_owned();
                text.append(loop_error.message().as_str());
                text
            },
            MultiError::HandlerErrored(handler_error) => {
                let mut text = "handler error: ".to_owned();
                text.append(handler_error.message().as_str());
                text
            },
            MultiError::BothErrored { loop_error, handler_error } => {
                let mut text = "loop error: ".to_owned();
                text.append(loop_error.message().as_str());
                text.append("\n");
                text.append("handler error: ");
                text.append(handler_error.message().as_str());
                text
            },
        }
    }
}

} // verus!
