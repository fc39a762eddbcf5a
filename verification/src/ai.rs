//! Asking a model for documentation: the prompts, the providers and the
//! client.

pub mod client;
pub mod prompts;
pub mod providers;
