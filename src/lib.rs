//! Client-side connection engine for a multiplexed HTTP/2-style transport:
//! the per-stream lifecycle, the stream table, and the decisions that the
//! write and read halves of one connection take on each message or frame.

pub mod state;
pub mod stream;
pub mod connection;
pub mod read;
pub mod write;
pub mod frame;
pub mod chars;
