//! Results handed back by the delivery gateway (the platform and storage
//! operations run by the application).
use vstd::prelude::*;

verus! {

/// Result of a shipping confirmation.
#[derive(Debug)]
pub struct ConfirmResult {
    pub success: bool,
    /// The order had already been shipped (no card is sent again).
    pub already_delivered: bool,
    /// The account only sends cards (confirmation skipped).
    pub skipped_only_send_card: bool,
    pub message: String,
}

} // verus!
