//! The server on the standard streams, under its fixed name.

use vstd::prelude::*;
use crate::json::Json;
use crate::mcp::protocol::Response;
use crate::mcp::server::document_step;
use crate::mcp::server::response_line;
use crate::mcp::server::stream_step;
use crate::mcp::server::McpServer;
use crate::mcp::server::ReadOutcome;
use crate::mcp::server::ServerConfig;
use crate::mcp::server::StreamStep;
use crate::mcp::server::SERVER_VERSION;

verus! {

/// The server that reads one message per line from the standard input and
/// writes one response per line to the standard output.
#[derive(Debug)]
pub struct StdioServer {
    server: McpServer,
}

impl StdioServer {
    /// The name that the server gives as its own.
    pub closed spec fn name(&self) -> Seq<char> {
        self.server.name()
    }

    /// The version that the server gives as its own.
    pub closed spec fn version(&self) -> Seq<char> {
        self.server.version()
    }

    /// The server, under the name `ktme-mcp-server`.
    pub fn new() -> (server: Self)
        ensures
            server.name() == "ktme-mcp-server"@,
            server.version() == SERVER_VERSION@,
    {
        Self { server: McpServer::with_config(ServerConfig::default()) }
    }

    /// One turn of the loop: what to do with what was read. The loop ends
    /// with the stream. A line of white space is skipped, so is a line that
    /// is no JSON document and a notification; every request is answered
    /// with one line.
    pub fn run(&self, read: &ReadOutcome) -> (step: StreamStep)
        ensures
            step@ == stream_step(self.name(), self.version(), *read),
    {
        self.server.run_stdio_server(read)
    }

    /// What to do with one message that is read already.
    pub fn handle_message(&self, request: &Json) -> (step: StreamStep)
        ensures
            step@ == document_step(self.name(), self.version(), request@),
    {
        self.server.handle_document(request)
    }

    /// The text to write for a response.
    pub fn send_response(&self, response: &Response) -> (line: String)
        ensures
            line@ == response_line(response@),
    {
        McpServer::send_response(response)
    }
}

} // verus!
