//! The hosts of repositories.

pub mod github;
pub mod gitlab;
