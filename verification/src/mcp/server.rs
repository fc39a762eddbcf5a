//! The server: which transport it runs, and what each transport does with
//! what it reads. Reading and writing are the caller's part; every decision
//! is made here.

use vstd::prelude::*;
use vstd::string::StringExecFns;
use crate::error::KtmeError;
use crate::error::KtmeErrorModel;
use crate::json::entry;
use crate::json::json_text;
use crate::json::parsed_json;
use crate::json::Json;
use crate::json::JsonModel;
use crate::json::Member;
use crate::mcp::catalog::catalog;
use crate::mcp::http::Endpoint;
use crate::mcp::http::HttpResponse;
use crate::mcp::http::RequestHead;
use crate::mcp::http::route;
use crate::mcp::protocol::answer_to_text;
use crate::mcp::protocol::failure;
use crate::mcp::protocol::outcome_model;
use crate::mcp::protocol::request_id;
use crate::mcp::protocol::response_document;
use crate::mcp::protocol::response_model;
use crate::mcp::protocol::tool_response;
use crate::mcp::protocol::McpProtocolHandler;
use crate::mcp::protocol::PendingCall;
use crate::mcp::protocol::Reply;
use crate::mcp::protocol::ReplyModel;
use crate::mcp::protocol::Response;
use crate::mcp::protocol::ResponseModel;
use crate::mcp::protocol::ToolCallModel;
use crate::mcp::protocol::INTERNAL_ERROR;
use crate::text::concat;
use crate::text::str_eq;
use crate::text::trim;
use crate::text::trim_spaces;

verus! {

/// The version that the server gives as its own.
pub const SERVER_VERSION: &'static str = "0.1.0";

/// How a server is set up: its name, its transport and, for the network
/// transport, its port.
#[derive(Debug, Clone)]
pub struct ServerConfig {
    pub server_name: String,
    pub transport: String,
    pub port: Option<u16>,
}

impl Default for ServerConfig {
    fn default() -> (config: Self)
        ensures
            config.server_name@ == "ktme-mcp-server"@,
            config.transport@ == "stdio"@,
            config.port is None,
    {
        Self {
            server_name: "ktme-mcp-server".to_string(),
            transport: "stdio".to_string(),
            port: None,
        }
    }
}

/// The transport that a server runs.
#[derive(Debug, Clone, Copy, PartialEq, Eq, Structural)]
pub enum Transport {
    /// Lines on the standard streams.
    Stdio,
    /// Connections on a port of this machine.
    Network(u16),
}

/// The transport that a configuration asks for, or why it asks for none.
pub open spec fn chosen_transport(transport: Seq<char>, port: Option<u16>) -> Result<
    Transport,
    KtmeErrorModel,
> {
    if transport == "stdio"@ {
        Ok(Transport::Stdio)
    } else if transport == "sse"@ || transport == "http"@ {
        match port {
            Some(p) => Ok(Transport::Network(p)),
            None => Err(
                KtmeErrorModel::Config("HTTP/SSE transport requires port configuration"@),
            ),
        }
    } else {
        Err(KtmeErrorModel::Config("Unsupported transport: "@ + transport))
    }
}

/// What a chosen transport, or the refusal, stands for.
pub open spec fn transport_model(choice: Result<Transport, KtmeError>) -> Result<
    Transport,
    KtmeErrorModel,
> {
    match choice {
        Ok(t) => Ok(t),
        Err(e) => Err(e@),
    }
}

/// The flag that all the connections of a server share. It is set when the
/// server starts and cleared once, by the shutdown endpoint.
#[derive(Debug, Clone, Copy)]
pub struct ServerRuntimeState {
    running: bool,
}

impl ServerRuntimeState {
    /// Whether the server still accepts connections.
    pub closed spec fn running(&self) -> bool {
        self.running
    }

    /// The state of a server that has just started.
    pub fn new() -> (state: Self)
        ensures
            state.running(),
    {
        Self { running: true }
    }

    /// Whether the server still accepts connections.
    pub fn is_running(&self) -> (r: bool)
        ensures
            r == self.running(),
    {
        self.running
    }

    /// Clears the flag. Nothing sets it again.
    pub fn shutdown(&mut self)
        ensures
            !final(self).running(),
    {
        self.running = false;
    }
}

/// What woke the accept loop.
#[derive(Debug, Clone, Copy, PartialEq, Eq, Structural)]
pub enum AcceptEvent {
    /// A connection came in.
    Connection,
    /// The time to look at the flag came.
    Tick,
}

/// What the accept loop does next.
#[derive(Debug, Clone, Copy, PartialEq, Eq, Structural)]
pub enum AcceptAction {
    /// Hand the connection to a task of its own and go on accepting.
    Serve,
    /// Go on accepting.
    Wait,
    /// Accept no more and return.
    Stop,
}

/// What the accept loop does: it stops once the flag is cleared, whatever
/// woke it.
pub open spec fn accept_action(running: bool, event: AcceptEvent) -> AcceptAction {
    if !running {
        AcceptAction::Stop
    } else {
        match event {
            AcceptEvent::Connection => AcceptAction::Serve,
            AcceptEvent::Tick => AcceptAction::Wait,
        }
    }
}

/// Once the flag is cleared the accept loop stops at its next turn,
/// whatever wakes it; and while the flag is set it never stops.
pub proof fn lemma_shutdown_stops_accepting(running: bool, event: AcceptEvent)
    ensures
        accept_action(running, event) == AcceptAction::Stop <==> !running,
{
}

/// What was read from the input stream.
#[derive(Debug)]
pub enum ReadOutcome {
    /// One line, with or without its line end.
    Line(String),
    /// The stream has ended.
    EndOfStream,
    /// Reading failed.
    Failed,
}

/// What the stream transport does next.
#[derive(Debug)]
pub enum StreamStep {
    /// Leave the loop.
    Stop,
    /// Write nothing and read on.
    Skip,
    /// Write this text, flush, and read on.
    Write(String),
    /// Run this call, write the line of its outcome, flush, and read on.
    Run(PendingCall),
}

/// What a [`StreamStep`] stands for.
pub ghost enum StreamStepModel {
    Stop,
    Skip,
    Write(Seq<char>),
    Run { id: JsonModel, call: ToolCallModel },
}

impl View for StreamStep {
    type V = StreamStepModel;

    open spec fn view(&self) -> StreamStepModel {
        match self {
            StreamStep::Stop => StreamStepModel::Stop,
            StreamStep::Skip => StreamStepModel::Skip,
            StreamStep::Write(text) => StreamStepModel::Write(text@),
            StreamStep::Run(pending) => StreamStepModel::Run {
                id: pending.id@,
                call: pending.call@,
            },
        }
    }
}

/// The text of a response.
pub open spec fn response_text(response: ResponseModel) -> Seq<char> {
    json_text(response_document(response))
}

/// The line of a response: its text and a line end.
pub open spec fn response_line(response: ResponseModel) -> Seq<char> {
    response_text(response) + "\n"@
}

/// What the stream transport does with one line: it skips a line of white
/// space and a message that gets no answer, and writes the line of the
/// response to any other.
pub open spec fn line_step(name: Seq<char>, version: Seq<char>, line: Seq<char>) -> StreamStepModel {
    let message = trim_spaces(line);
    if message.len() == 0 {
        StreamStepModel::Skip
    } else {
        match answer_to_text(name, version, message) {
            None => StreamStepModel::Skip,
            Some(ReplyModel::Ready(response)) => StreamStepModel::Write(response_line(response)),
            Some(ReplyModel::Pending { id, call }) => StreamStepModel::Run { id, call },
        }
    }
}

/// What the stream transport does with one message that is read already.
pub open spec fn document_step(name: Seq<char>, version: Seq<char>, message: JsonModel) -> StreamStepModel {
    match crate::mcp::protocol::answer(name, version, message) {
        None => StreamStepModel::Skip,
        Some(ReplyModel::Ready(response)) => StreamStepModel::Write(response_line(response)),
        Some(ReplyModel::Pending { id, call }) => StreamStepModel::Run { id, call },
    }
}

/// What the stream transport does with what it read: it stops at the end of
/// the stream and where reading failed.
pub open spec fn stream_step(name: Seq<char>, version: Seq<char>, read: ReadOutcome) -> StreamStepModel {
    match read {
        ReadOutcome::Line(line) => line_step(name, version, line@),
        ReadOutcome::EndOfStream => StreamStepModel::Stop,
        ReadOutcome::Failed => StreamStepModel::Stop,
    }
}

/// The stream transport writes a line, or runs a tool to write one, only
/// for a line that holds a request: a JSON document with an `id`.
pub proof fn lemma_stream_answers_requests_only(name: Seq<char>, version: Seq<char>, line: Seq<char>)
    ensures
        line_step(name, version, line) is Write || line_step(name, version, line) is Run <==> {
            &&& trim_spaces(line).len() > 0
            &&& parsed_json(trim_spaces(line)) is Some
            &&& request_id(parsed_json(trim_spaces(line))->0) is Some
        },
        line_step(name, version, line) !is Stop,
{
    let message = trim_spaces(line);
    if message.len() > 0 && parsed_json(message) is Some {
        crate::mcp::protocol::lemma_answer_obeys_the_rules(name, version, parsed_json(message)->0);
    }
}

/// The best answer to a message whose handling broke down: the internal
/// error for the `id` of the message, and nothing where the message cannot
/// be read or has no `id`.
pub open spec fn internal_error(message: Seq<char>, detail: Seq<char>) -> Option<ResponseModel> {
    match parsed_json(message) {
        None => None,
        Some(document) => match request_id(document) {
            None => None,
            Some(id) => Some(failure(id, INTERNAL_ERROR as int, "Internal error"@, Some(detail))),
        },
    }
}

/// What a [`HttpResponse`] stands for.
pub ghost struct HttpResponseModel {
    pub status: nat,
    pub reason: Seq<char>,
    pub body: Seq<char>,
}

impl View for HttpResponse {
    type V = HttpResponseModel;

    open spec fn view(&self) -> HttpResponseModel {
        HttpResponseModel { status: self.status as nat, reason: self.reason@, body: self.body@ }
    }
}

/// What serving one connection comes to.
#[derive(Debug)]
pub enum ConnectionStep {
    /// Write this response and close.
    Respond(HttpResponse),
    /// Run this call, write the response of its outcome and close.
    Run(PendingCall),
}

/// What a [`ConnectionStep`] stands for.
pub ghost enum ConnectionStepModel {
    Respond(HttpResponseModel),
    Run { id: JsonModel, call: ToolCallModel },
}

impl View for ConnectionStep {
    type V = ConnectionStepModel;

    open spec fn view(&self) -> ConnectionStepModel {
        match self {
            ConnectionStep::Respond(response) => ConnectionStepModel::Respond(response@),
            ConnectionStep::Run(pending) => ConnectionStepModel::Run {
                id: pending.id@,
                call: pending.call@,
            },
        }
    }
}

/// The response `200 OK` with a body.
pub open spec fn ok(body: Seq<char>) -> HttpResponseModel {
    HttpResponseModel { status: 200, reason: "OK"@, body }
}

/// The response `204 No Content`.
pub open spec fn no_content() -> HttpResponseModel {
    HttpResponseModel { status: 204, reason: "No Content"@, body: Seq::empty() }
}

/// The response `404 Not Found`.
pub open spec fn not_found() -> HttpResponseModel {
    HttpResponseModel { status: 404, reason: "Not Found"@, body: Seq::empty() }
}

/// The document of the status endpoint.
pub open spec fn status_document(version: Seq<char>) -> JsonModel {
    JsonModel::Object(
        seq![
            entry("status"@, JsonModel::String("running"@)),
            entry("version"@, JsonModel::String(version)),
            entry("tools_count"@, JsonModel::Int(catalog().len() as int)),
        ],
    )
}

/// The document of the shutdown endpoint.
pub open spec fn shutdown_document() -> JsonModel {
    JsonModel::Object(
        seq![
            entry("status"@, JsonModel::String("shutdown"@)),
            entry("message"@, JsonModel::String("Server shutting down"@)),
        ],
    )
}

/// The document of an internal failure.
pub open spec fn failure_document(detail: Seq<char>) -> JsonModel {
    JsonModel::Object(seq![entry("error"@, JsonModel::String(detail))])
}

/// What the protocol endpoint does with a body: no content for a message
/// that gets no answer, which a body that is no JSON document is too; else
/// the response, at once or once the tool has run.
pub open spec fn protocol_step(name: Seq<char>, version: Seq<char>, body: Seq<u8>) -> ConnectionStepModel {
    match crate::mcp::protocol::answer_to_bytes(name, version, body) {
        None => ConnectionStepModel::Respond(no_content()),
        Some(ReplyModel::Ready(response)) => ConnectionStepModel::Respond(
            ok(response_text(response)),
        ),
        Some(ReplyModel::Pending { id, call }) => ConnectionStepModel::Run { id, call },
    }
}

/// The protocol endpoint answers with no content exactly where the body
/// holds no request: where it is no JSON document, or one without an `id`.
pub proof fn lemma_no_content_for_what_is_no_request(name: Seq<char>, version: Seq<char>, body: Seq<u8>)
    ensures
        protocol_step(name, version, body) == ConnectionStepModel::Respond(no_content()) <==> !(
        vstd::utf8::valid_utf8(body) && parsed_json(vstd::utf8::decode_utf8(body)) is Some
            && request_id(parsed_json(vstd::utf8::decode_utf8(body))->0) is Some),
{
    if vstd::utf8::valid_utf8(body) && parsed_json(vstd::utf8::decode_utf8(body)) is Some {
        crate::mcp::protocol::lemma_answer_obeys_the_rules(
            name,
            version,
            parsed_json(vstd::utf8::decode_utf8(body))->0,
        );
    }
}

/// What serving a request comes to.
pub open spec fn connection_step(
    name: Seq<char>,
    version: Seq<char>,
    endpoint: Endpoint,
    body: Seq<u8>,
) -> ConnectionStepModel {
    match endpoint {
        Endpoint::Status => ConnectionStepModel::Respond(ok(json_text(status_document(version)))),
        Endpoint::Shutdown => ConnectionStepModel::Respond(ok(json_text(shutdown_document()))),
        Endpoint::Mcp => protocol_step(name, version, body),
        Endpoint::NotFound => ConnectionStepModel::Respond(not_found()),
    }
}

/// A server: its configuration and the handler of its messages.
#[derive(Debug)]
pub struct McpServer {
    config: ServerConfig,
    handler: McpProtocolHandler,
}

impl McpServer {
    /// The name that the server gives as its own.
    pub closed spec fn name(&self) -> Seq<char> {
        self.handler.name()
    }

    /// The version that the server gives as its own.
    pub closed spec fn version(&self) -> Seq<char> {
        self.handler.version()
    }

    /// The transport that the configuration names.
    pub closed spec fn transport(&self) -> Seq<char> {
        self.config.transport@
    }

    /// The port that the configuration names.
    pub closed spec fn port(&self) -> Option<u16> {
        self.config.port
    }

    /// A server with this configuration. It answers under the configured
    /// name and the version of this library.
    pub fn new(config: ServerConfig) -> (server: Result<Self, KtmeError>)
        ensures
            server is Ok,
            server->Ok_0.name() == config.server_name@,
            server->Ok_0.version() == SERVER_VERSION@,
            server->Ok_0.transport() == config.transport@,
            server->Ok_0.port() == config.port,
    {
        Ok(Self::with_config(config))
    }

    /// A server with this configuration.
    pub fn with_config(config: ServerConfig) -> (server: Self)
        ensures
            server.name() == config.server_name@,
            server.version() == SERVER_VERSION@,
            server.transport() == config.transport@,
            server.port() == config.port,
    {
        let handler = McpProtocolHandler::new(
            config.server_name.clone(),
            SERVER_VERSION.to_string(),
        );
        Self { config, handler }
    }

    /// The handler of the server's messages.
    pub fn handler(&self) -> (handler: &McpProtocolHandler)
        ensures
            handler.name() == self.name(),
            handler.version() == self.version(),
    {
        &self.handler
    }

    /// The transport to run: the standard streams for `stdio`, the
    /// configured port for `sse` and `http`. Those two need a port, and any
    /// other transport is refused.
    pub fn start(&self) -> (choice: Result<Transport, KtmeError>)
        ensures
            transport_model(choice) == chosen_transport(self.transport(), self.port()),
    {
        let transport = self.config.transport.as_str();
        if str_eq(transport, "stdio") {
            Ok(Transport::Stdio)
        } else if str_eq(transport, "sse") || str_eq(transport, "http") {
            match self.config.port {
                Some(port) => Ok(Transport::Network(port)),
                None => Err(
                    KtmeError::Config(
                        "HTTP/SSE transport requires port configuration".to_string(),
                    ),
                ),
            }
        } else {
            Err(KtmeError::Config(concat("Unsupported transport: ", transport)))
        }
    }

    /// Answers the text of one message, as the protocol handler does.
    pub fn handle_message(&self, message: &str) -> (reply: Option<Reply>)
        ensures
            crate::mcp::protocol::reply_model(reply) == answer_to_text(
                self.name(),
                self.version(),
                message@,
            ),
    {
        self.handler.handle_message(message)
    }

    /// What the stream transport does with one line that it read.
    pub fn handle_line(&self, line: &str) -> (step: StreamStep)
        ensures
            step@ == line_step(self.name(), self.version(), line@),
    {
        let message = trim(line);
        if message.as_str().is_empty() {
            return StreamStep::Skip;
        }
        match self.handler.handle_message(message.as_str()) {
            None => StreamStep::Skip,
            Some(Reply::Ready(response)) => StreamStep::Write(Self::send_response(&response)),
            Some(Reply::Pending(pending)) => StreamStep::Run(pending),
        }
    }

    /// What the stream transport does with one message that is read already.
    pub fn handle_document(&self, message: &Json) -> (step: StreamStep)
        ensures
            step@ == document_step(self.name(), self.version(), message@),
    {
        match self.handler.handle_document(message) {
            None => StreamStep::Skip,
            Some(Reply::Ready(response)) => StreamStep::Write(Self::send_response(&response)),
            Some(Reply::Pending(pending)) => StreamStep::Run(pending),
        }
    }

    /// What the stream transport does with each of `lines`, one for one and
    /// in their order.
    pub fn handle_lines(&self, lines: &Vec<String>) -> (steps: Vec<StreamStep>)
        ensures
            steps.len() == lines.len(),
            forall|i: int|
                0 <= i < lines.len() ==> (#[trigger] steps@[i])@ == line_step(
                    self.name(),
                    self.version(),
                    lines@[i]@,
                ),
    {
        let mut steps: Vec<StreamStep> = Vec::new();
        let mut i: usize = 0;
        while i < lines.len()
            invariant
                i <= lines.len(),
                steps.len() == i,
                forall|k: int|
                    0 <= k < i ==> (#[trigger] steps@[k])@ == line_step(
                        self.name(),
                        self.version(),
                        lines@[k]@,
                    ),
            decreases lines.len() - i,
        {
            steps.push(self.handle_line(lines[i].as_str()));
            i += 1;
        }
        steps
    }

    /// One turn of the stream transport's loop: what to do with what was
    /// read. Lines are answered one by one in the order in which they are
    /// read, so the responses leave in the order of the requests.
    pub fn run_stdio_server(&self, read: &ReadOutcome) -> (step: StreamStep)
        ensures
            step@ == stream_step(self.name(), self.version(), *read),
    {
        match read {
            ReadOutcome::Line(line) => self.handle_line(line.as_str()),
            ReadOutcome::EndOfStream => StreamStep::Stop,
            ReadOutcome::Failed => StreamStep::Stop,
        }
    }

    /// The text to write for a response: its JSON form on one line, and a
    /// line end.
    pub fn send_response(response: &Response) -> (line: String)
        ensures
            line@ == response_line(response@),
    {
        let mut line = response.to_text();
        line.append("\n");
        line
    }

    /// The stream transport writes a line, or runs a tool to write one, only
/// for a line that holds a request: a JSON document with an `id`.
pub proof fn lemma_stream_answers_requests_only(name: Seq<char>, version: Seq<char>, line: Seq<char>)
    ensures
        line_step(name, version, line) is Write || line_step(name, version, line) is Run <==> {
            &&& trim_spaces(line).len() > 0
            &&& parsed_json(trim_spaces(line)) is Some
            &&& request_id(parsed_json(trim_spaces(line))->0) is Some
        },
        line_step(name, version, line) !is Stop,
{
    let message = trim_spaces(line);
    if message.len() > 0 && parsed_json(message) is Some {
        crate::mcp::protocol::lemma_answer_obeys_the_rules(name, version, parsed_json(message)->0);
    }
}

/// The best answer to a message whose handling broke down with the
    /// failure `detail`.
    pub fn internal_error(message: &str, detail: &str) -> (response: Option<Response>)
        ensures
            response_model(response) == internal_error(message@, detail@),
    {
        let document = match Json::parse(message) {
            Some(document) => document,
            None => {
                return None;
            },
        };
        match document.get("id") {
            Some(id) => Some(
                Response::failure(id.clone(), INTERNAL_ERROR, "Internal error", detail.to_string()),
            ),
            None => None,
        }
    }

    /// One turn of the accept loop: what to do after an event.
    pub fn run_sse_server(state: &ServerRuntimeState, event: AcceptEvent) -> (action: AcceptAction)
        ensures
            action == accept_action(state.running(), event),
    {
        if !state.is_running() {
            AcceptAction::Stop
        } else {
            match event {
                AcceptEvent::Connection => AcceptAction::Serve,
                AcceptEvent::Tick => AcceptAction::Wait,
            }
        }
    }

    /// The response of the status endpoint: that the server runs, its
    /// version and the number of tools in the catalog.
    pub fn status(&self) -> (response: HttpResponse)
        ensures
            response@ == ok(json_text(status_document(self.version()))),
    {
        let count = self.handler.catalog().len();
        let document = Json::object3(
            Member::new("status", Json::string("running")),
            Member::new("version", Json::string(self.handler.server_version())),
            Member::new("tools_count", Json::Int(count as i64)),
        );
        HttpResponse::ok(document.to_text())
    }

    /// Serves one request whose head and body are read. Only the shutdown
    /// endpoint changes the state: it clears the flag.
    pub fn serve(&self, state: &mut ServerRuntimeState, head: &RequestHead, body: &[u8]) -> (step:
        ConnectionStep)
        ensures
            step@ == connection_step(
                self.name(),
                self.version(),
                route(head.method@, head.path@),
                body@,
            ),
            final(state).running() == (old(state).running() && route(head.method@, head.path@)
                != Endpoint::Shutdown),
    {
        match head.endpoint() {
            Endpoint::Status => ConnectionStep::Respond(self.status()),
            Endpoint::Shutdown => {
                state.shutdown();
                let document = Json::object2(
                    Member::new("status", Json::string("shutdown")),
                    Member::new("message", Json::string("Server shutting down")),
                );
                ConnectionStep::Respond(HttpResponse::ok(document.to_text()))
            },
            Endpoint::Mcp => match self.handler.handle_bytes(body) {
                None => ConnectionStep::Respond(HttpResponse::no_content()),
                Some(Reply::Ready(response)) => ConnectionStep::Respond(
                    HttpResponse::ok(response.to_text()),
                ),
                Some(Reply::Pending(pending)) => ConnectionStep::Run(pending),
            },
            Endpoint::NotFound => ConnectionStep::Respond(HttpResponse::not_found()),
        }
    }

    /// The response to a request whose handling broke down with the failure
    /// `detail`.
    pub fn failure_response(detail: &str) -> (response: HttpResponse)
        ensures
            response.status == 500,
            response.body@ == json_text(failure_document(detail@)),
    {
        let document = Json::object1(Member::new("error", Json::string(detail)));
        HttpResponse::internal_server_error(document.to_text())
    }
}

impl PendingCall {
    /// The line that the stream transport writes once the tool has run.
    pub fn complete_line(self, outcome: Result<String, KtmeError>) -> (line: String)
        ensures
            line@ == response_line(tool_response(self.id@, outcome_model(outcome))),
    {
        let response = self.complete(outcome);
        McpServer::send_response(&response)
    }

    /// The response that the network transport writes once the tool has run.
    pub fn complete_response(self, outcome: Result<String, KtmeError>) -> (response: HttpResponse)
        ensures
            response@ == ok(response_text(tool_response(self.id@, outcome_model(outcome)))),
    {
        let response = self.complete(outcome);
        HttpResponse::ok(response.to_text())
    }
}

} // verus!
