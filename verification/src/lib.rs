//! Business rules of a desktop sales workbench: auto-reply decisions,
//! delivery-blocking rules and card delivery, promotion rules and materials,
//! notification channels, mail tracking and related record services.
use vstd::prelude::*;

pub mod auto_reply;
pub mod auto_reply_handle;
pub mod blacklist;
pub mod chat;
pub mod config;
pub mod crawler;
pub mod card;
pub mod delivery;
pub mod feedback;
pub mod json;
pub mod knowledge;
pub mod mail;
pub mod monitor;
pub mod notification;
pub mod params;
pub mod promotion;
pub mod records;
pub mod seqs;
pub mod text;

verus! {

/// Result of the record services; errors are user-facing messages.
pub type OpenDeskResult<T> = Result<T, String>;

/// Same as [`OpenDeskResult`].
pub type DingDaResult<T> = Result<T, String>;

} // verus!
