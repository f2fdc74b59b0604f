//! The session engine of a client for the remote-control protocol that a
//! Bedrock server speaks over one WebSocket connection.
//!
//! Everything here is a function of plain values: the packets and how they
//! are read from and written to JSON text, the typed commands and events,
//! and the state machines of the session. The event loop decides what an
//! inbound packet leads to and to which caller a response belongs; the
//! session counts listeners and commands in flight; the bus hands the
//! latest event to the listeners. Tasks, channels and the transport are
//! left to the caller.

pub mod command;
pub mod error;
pub mod event;
pub mod json;
pub mod packet;
pub mod request_id;
pub mod server;
pub mod text;

pub use error::{Error, MultiError};
pub use server::Server;
