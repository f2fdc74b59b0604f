pub mod command_request;
pub mod command_response;
pub mod error;
pub mod event;
pub mod packet;
pub mod subscribe;
pub mod unsubscribe;
pub mod wire;

pub use command_request::{CommandRequestPacket, Origin, OriginType};
pub use command_response::CommandResponsePacket;
pub use error::ErrorPacket;
pub use event::EventPacket;
pub use packet::Packet;
pub use subscribe::SubscribePacket;
pub use unsubscribe::UnsubscribePacket;
pub use wire::{Frame, SchemaError, Unexpected};
