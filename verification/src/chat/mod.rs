//! Chat: UI event topics and long-conversation digests.
pub mod emit;
pub mod memory_digest;
