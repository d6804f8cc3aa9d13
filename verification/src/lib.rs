//! The core of a client for Apache Kafka on top of a native engine.
//!
//! The engine runs its own threads, owns its own buffers and calls back on threads of its
//! own. This library holds what a client decides around the engine: which of the engine's
//! resources is destroyed when, what a message in the engine's buffers shows and what
//! becomes of it once it is detached, and what the engine's callbacks hand to the
//! application's context. The calls into the engine themselves are the caller's.

pub mod client;
pub mod config;
pub mod error;
pub mod handle;
pub mod logging;
pub mod message;
pub mod statistics;
pub mod util;

pub use client::Context;
pub use message::{Message, Timestamp};
