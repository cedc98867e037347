//! Client for the compositor's control sockets: the event-stream grammar and
//! framing, and the command request/response protocol.
pub mod decoder;
pub mod dispatch;
pub mod error;
pub mod event;
pub mod params;
pub mod text;

pub use decoder::EventDecoder;
pub use dispatch::{Client, Dispatcher, Workspace};
pub use error::Error;
pub use event::Event;
