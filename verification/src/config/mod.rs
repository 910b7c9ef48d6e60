//! Application configuration.
pub mod plugins;
