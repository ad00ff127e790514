//! A blocking call interface over a message-passing worker.
//!
//! A caller hands a request to a background worker, suspends itself, and is
//! woken once the worker has written the framed response into a
//! fixed-capacity slot buffer that the two share. This crate holds the
//! protocol: the slot framing, the buffer discipline around each call, the
//! outbound message envelope and the connection status.
//!
//! - [`framing`] is the mathematical account of the slot layout, with the
//!   laws that hold of it.
//! - [`buffer`] and [`utils`] are the response buffer and the codec that
//!   reads and writes it.
//! - [`types`] holds the connection status and the messages to the worker.
//! - [`client`] is the call dispatcher. It decides what is sent and what a
//!   finished wait means; posting a message and suspending the caller are
//!   left to the embedding program, which hands the outcomes back in.
//! - [`shared`] carries the dispatcher's buffer operations through to the
//!   memory that a browser shares with the worker.

pub mod buffer;
pub mod client;
pub mod error;
pub mod framing;
pub mod shared;
pub mod types;
pub mod utils;

pub use buffer::ResponseBuffer;
pub use client::WsClient;
pub use error::ClientError;
pub use types::{WebSocketMessage, WorkerMessage, WsMessage, WsStatus};
