//! Mail: open tracking of outbound mail and persistence of IMAP inbound mail.
pub mod imap_inbound;
pub mod tracking;
