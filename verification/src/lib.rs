//! ktme - Knowledge Transfer Me
//!
//! The rules of a tool that writes documentation from code changes and
//! serves its tools over the Model Context Protocol. The heart of the
//! library is the protocol engine in [`mcp`]: it reads one JSON-RPC 2.0
//! message, tells requests from notifications, routes by method and says
//! what goes back, for a stream of lines and for single connections alike.
//!
//! The library decides and computes; it reads no file and opens no
//! connection. Every function states what it returns, and the statements
//! are proved.

pub mod ai;
pub mod cli;
pub mod config;
pub mod doc;
pub mod error;
pub mod git;
pub mod json;
pub mod mcp;
pub mod service_detector;
pub mod storage;
pub mod text;
