//! The server of the Model Context Protocol: the catalog of tools, the
//! handler of messages, and the two transports.

pub mod catalog;
pub mod client;
pub mod http;
pub mod protocol;
pub mod server;
pub mod stdio_server;
pub mod tools;
