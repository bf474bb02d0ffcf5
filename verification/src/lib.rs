//! A handle to a websocket that talks to the socket through channels.
//!
//! The library holds the message and error types, the handle that sends
//! commands over one channel and receives messages on another, and the
//! decisions of the manager at the far ends of the two channels.

pub mod channel;
mod convert;
pub mod error;
pub mod handle;
pub mod delivery;
pub mod laws;
pub mod manager;
pub mod message;

pub use channel::LoggedSender;
pub use error::{ErrorView, WsError, WsResult};
pub use handle::WsHandle;
pub use manager::{SocketAction, SocketEvent, WsCommand, WsManager};
pub use message::{MessageView, WsMessage};
