//! One module per command.

pub mod extract;
pub mod generate;
pub mod init;
pub mod mapping;
pub mod mcp;
