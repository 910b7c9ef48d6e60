//! The delivery-blocking rules.
pub mod buyer_credit;
pub mod buyer_has_order;
pub mod buyer_has_order_global;
pub mod buyer_unconfirmed;
pub mod personal_blacklist;
