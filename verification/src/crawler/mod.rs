//! Crawler: UI event topics.
pub mod emit;
