//! Delivery-blocking rule engine and card delivery.
pub mod base;
pub mod context;
pub mod data;
pub mod engine;
pub mod execution;
pub mod registry;
pub mod rules;
