//! The configuration.

pub mod types;
