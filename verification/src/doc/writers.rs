//! Where documents are written.

pub mod confluence;
pub mod markdown;
