//! Documents: how they are framed, kept and written.

pub mod generator;
pub mod providers;
pub mod templates;
pub mod writers;
