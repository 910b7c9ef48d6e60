//! Delivery execution: card selection, content generation and the delivery flow.
pub mod card;
pub mod content;
pub mod executor;
pub mod gateway;
