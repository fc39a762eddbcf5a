//! Changes as they are read from a repository.

pub mod diff;
pub mod providers;
pub mod reader;
