//! WebSocket client and server building blocks: close codes, messages,
//! delivery signals, heartbeat and reconnection rules, the client
//! configuration, and the decision logic of the client, session and server
//! actors.

pub mod client;
pub mod close;
pub mod config;
pub mod heartbeat;
pub mod message;
pub mod server;
pub mod session;
pub mod signal;

pub use client::ClientCloseMode;
pub use close::CloseCode;
pub use close::CloseFrame;
pub use config::ClientConfig;
pub use message::Message;
pub use message::RawMessage;
pub use server::GracefulShutdownError;
pub use signal::InMessage;
pub use signal::InRawMessage;
pub use signal::MessageSignal;
pub use signal::MessageStatus;
