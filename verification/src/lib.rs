//! Core logic of an HTTP gateway that exposes a single conversational-agent
//! turn as a Server-Sent-Events stream.
//!
//! The crate holds the decision logic of the gateway: configuration
//! resolution from defaults, an on-disk file and environment overrides;
//! the translation of agent events into SSE frames; the streaming state
//! machine that decides when the stream ends; and the endpoint state
//! machine that sequences one request from body parsing to stream close.
//! The surrounding process (the HTTP listener, the agent engine, reads of
//! the environment) drives these functions and performs the I/O.

pub mod config;
pub mod endpoint;
pub mod protocol;
pub mod sse;
pub mod stream;
pub mod text;
