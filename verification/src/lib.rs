//! A Modbus-over-TCP master client core: MBAP framing, request encoding,
//! response validation and decoding, and the connection-state bookkeeping.
//! The socket itself lives with the caller; this crate holds the protocol
//! and failure-handling logic.
pub mod base;
pub mod client;
pub mod codec;
pub mod converter;
