//! Commission system: product-selection rules, publish rules and the
//! material library.

pub mod material;
pub mod rule;
pub mod service;
pub mod store;
