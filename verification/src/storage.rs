//! What is kept of services and of their documentation.

pub mod database;
pub mod discovery;
pub mod mapping;
pub mod models;
