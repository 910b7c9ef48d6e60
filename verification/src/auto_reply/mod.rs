//! Auto-reply decision chain: classify → pause → dedup → filter → keyword → AI → default.
pub mod classify;
pub mod dedup;
pub mod default_reply;
pub mod filter;
pub mod filter_store;
pub mod keyword;
pub mod keyword_store;
pub mod log_store;
pub mod pipeline;
