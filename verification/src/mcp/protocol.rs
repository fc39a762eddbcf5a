//! The protocol handler: one JSON-RPC 2.0 message in, at most one response
//! out.
//!
//! A message without an `id` member is a notification and is never answered.
//! A message whose `id` member is there, be it `null`, is a request and is
//! always answered. Running a tool is left to the caller: for a call of a
//! registered tool the handler hands back what is to run, and turns the
//! outcome into the response afterwards.

use vstd::prelude::*;
use crate::error::KtmeError;
use crate::error::KtmeErrorModel;
use crate::json::entry;
use crate::json::json_text;
use crate::json::lookup_from;
use crate::json::parsed_json;
use crate::json::Json;
use crate::json::JsonModel;
use crate::json::Member;
use crate::mcp::catalog::catalog;
use crate::mcp::catalog::descriptor_models;
use crate::mcp::catalog::has_tool;
use crate::mcp::catalog::is_registered;
use crate::mcp::catalog::tools;
use crate::mcp::catalog::tools_document;
use crate::mcp::catalog::tools_result;
use crate::mcp::catalog::ToolDescriptor;
use crate::text::concat;
use crate::text::str_eq;

verus! {

/// The code of a message that could not be read.
pub const PARSE_ERROR: i64 = -32700;

/// The code of a request without a method.
pub const INVALID_REQUEST: i64 = -32600;

/// The code of an unknown method or an unknown tool.
pub const METHOD_NOT_FOUND: i64 = -32601;

/// The code of a failure of the handler itself.
pub const INTERNAL_ERROR: i64 = -32603;

/// The code of a tool that failed.
pub const TOOL_EXECUTION_FAILED: i64 = -32000;

/// The error of a response: a code, a message and, optionally, more detail.
#[derive(Debug)]
pub struct ErrorEnvelope {
    pub code: i64,
    pub message: String,
    pub data: Option<String>,
}

/// What an [`ErrorEnvelope`] stands for.
pub ghost struct ErrorModel {
    pub code: int,
    pub message: Seq<char>,
    pub data: Option<Seq<char>>,
}

impl View for ErrorEnvelope {
    type V = ErrorModel;

    open spec fn view(&self) -> ErrorModel {
        ErrorModel {
            code: self.code as int,
            message: self.message@,
            data: match self.data {
                Some(d) => Some(d@),
                None => None,
            },
        }
    }
}

/// What a response carries: a result or an error.
#[derive(Debug)]
pub enum Payload {
    Success(Json),
    Failure(ErrorEnvelope),
}

/// What a [`Payload`] stands for.
pub ghost enum PayloadModel {
    Success(JsonModel),
    Failure(ErrorModel),
}

impl View for Payload {
    type V = PayloadModel;

    open spec fn view(&self) -> PayloadModel {
        match self {
            Payload::Success(result) => PayloadModel::Success(result@),
            Payload::Failure(error) => PayloadModel::Failure(error@),
        }
    }
}

/// The response to one request. It carries the request's `id`.
#[derive(Debug)]
pub struct Response {
    pub id: Json,
    pub payload: Payload,
}

/// What a [`Response`] stands for.
pub ghost struct ResponseModel {
    pub id: JsonModel,
    pub payload: PayloadModel,
}

impl View for Response {
    type V = ResponseModel;

    open spec fn view(&self) -> ResponseModel {
        ResponseModel { id: self.id@, payload: self.payload@ }
    }
}

/// The response that carries `result`.
pub open spec fn success(id: JsonModel, result: JsonModel) -> ResponseModel {
    ResponseModel { id, payload: PayloadModel::Success(result) }
}

/// The response that carries an error.
pub open spec fn failure(
    id: JsonModel,
    code: int,
    message: Seq<char>,
    data: Option<Seq<char>>,
) -> ResponseModel {
    ResponseModel { id, payload: PayloadModel::Failure(ErrorModel { code, message, data }) }
}

impl Response {
    /// The response to the request `id` that carries `result`.
    pub fn success(id: Json, result: Json) -> (response: Response)
        ensures
            response@ == success(id@, result@),
    {
        Response { id, payload: Payload::Success(result) }
    }

    /// The response to the request `id` that carries an error with detail.
    pub fn failure(id: Json, code: i64, message: &str, data: String) -> (response: Response)
        ensures
            response@ == failure(id@, code as int, message@, Some(data@)),
    {
        Response {
            id,
            payload: Payload::Failure(
                ErrorEnvelope { code, message: message.to_string(), data: Some(data) },
            ),
        }
    }

    /// Whether this response carries an error.
    pub fn is_error(&self) -> (r: bool)
        ensures
            r == (self@.payload is Failure),
    {
        match &self.payload {
            Payload::Failure(_) => true,
            Payload::Success(_) => false,
        }
    }

    /// The code of the error that this response carries, if it carries one.
    pub fn error_code(&self) -> (code: Option<i64>)
        ensures
            match code {
                Some(c) => self@.payload is Failure && self@.payload->Failure_0.code == c,
                None => self@.payload is Success,
            },
    {
        match &self.payload {
            Payload::Failure(error) => Some(error.code),
            Payload::Success(_) => None,
        }
    }
}

/// One tool with the arguments of one call, ready to run.
#[derive(Debug)]
pub enum ToolCall {
    ReadChanges { source: String },
    GetServiceMapping { service: String },
    ListServices,
    GenerateDocumentation { service: String, changes: String, format: Option<String> },
    UpdateDocumentation { service: String, doc_path: String, content: String },
    SearchServices { query: String },
    SearchByFeature { feature: String },
    SearchByKeyword { keyword: String },
    AutomatedDocumentationWorkflow { service: String, source: String },
    DetectServiceName,
    GetRepositoryInfo,
}

/// What a [`ToolCall`] stands for.
pub ghost enum ToolCallModel {
    ReadChanges { source: Seq<char> },
    GetServiceMapping { service: Seq<char> },
    ListServices,
    GenerateDocumentation { service: Seq<char>, changes: Seq<char>, format: Option<Seq<char>> },
    UpdateDocumentation { service: Seq<char>, doc_path: Seq<char>, content: Seq<char> },
    SearchServices { query: Seq<char> },
    SearchByFeature { feature: Seq<char> },
    SearchByKeyword { keyword: Seq<char> },
    AutomatedDocumentationWorkflow { service: Seq<char>, source: Seq<char> },
    DetectServiceName,
    GetRepositoryInfo,
}

impl View for ToolCall {
    type V = ToolCallModel;

    open spec fn view(&self) -> ToolCallModel {
        match self {
            ToolCall::ReadChanges { source } => ToolCallModel::ReadChanges { source: source@ },
            ToolCall::GetServiceMapping { service } => ToolCallModel::GetServiceMapping {
                service: service@,
            },
            ToolCall::ListServices => ToolCallModel::ListServices,
            ToolCall::GenerateDocumentation {
                service,
                changes,
                format,
            } => ToolCallModel::GenerateDocumentation {
                service: service@,
                changes: changes@,
                format: match format {
                    Some(f) => Some(f@),
                    None => None,
                },
            },
            ToolCall::UpdateDocumentation {
                service,
                doc_path,
                content,
            } => ToolCallModel::UpdateDocumentation {
                service: service@,
                doc_path: doc_path@,
                content: content@,
            },
            ToolCall::SearchServices { query } => ToolCallModel::SearchServices { query: query@ },
            ToolCall::SearchByFeature { feature } => ToolCallModel::SearchByFeature {
                feature: feature@,
            },
            ToolCall::SearchByKeyword { keyword } => ToolCallModel::SearchByKeyword {
                keyword: keyword@,
            },
            ToolCall::AutomatedDocumentationWorkflow {
                service,
                source,
            } => ToolCallModel::AutomatedDocumentationWorkflow {
                service: service@,
                source: source@,
            },
            ToolCall::DetectServiceName => ToolCallModel::DetectServiceName,
            ToolCall::GetRepositoryInfo => ToolCallModel::GetRepositoryInfo,
        }
    }
}

/// The string argument `key`, or the empty text where `arguments` gives no
/// string under that name.
pub open spec fn text_or_empty(arguments: JsonModel, key: Seq<char>) -> Seq<char> {
    match arguments.text_field(key) {
        Some(t) => t,
        None => Seq::empty(),
    }
}

/// The failure of a call that lacks a string argument which the tool cannot
/// do without.
pub open spec fn missing(what: Seq<char>) -> KtmeErrorModel {
    KtmeErrorModel::InvalidInput(what)
}

/// The call that a tool name and the arguments of a call make, or the failure
/// where the name is not a tool's or a needed argument is not given as a
/// string.
pub open spec fn planned(name: Seq<char>, arguments: JsonModel) -> Result<
    ToolCallModel,
    KtmeErrorModel,
> {
    if name == "read_changes"@ {
        match arguments.text_field("source"@) {
            Some(source) => Ok(ToolCallModel::ReadChanges { source }),
            None => Err(missing("Missing 'source' parameter"@)),
        }
    } else if name == "get_service_mapping"@ {
        match arguments.text_field("service"@) {
            Some(service) => Ok(ToolCallModel::GetServiceMapping { service }),
            None => Err(missing("Missing 'service' parameter"@)),
        }
    } else if name == "list_services"@ {
        Ok(ToolCallModel::ListServices)
    } else if name == "generate_documentation"@ {
        Ok(
            ToolCallModel::GenerateDocumentation {
                service: text_or_empty(arguments, "service"@),
                changes: text_or_empty(arguments, "changes"@),
                format: arguments.text_field("format"@),
            },
        )
    } else if name == "update_documentation"@ {
        Ok(
            ToolCallModel::UpdateDocumentation {
                service: text_or_empty(arguments, "service"@),
                doc_path: text_or_empty(arguments, "doc_path"@),
                content: text_or_empty(arguments, "content"@),
            },
        )
    } else if name == "search_services"@ {
        match arguments.text_field("query"@) {
            Some(query) => Ok(ToolCallModel::SearchServices { query }),
            None => Err(missing("Missing 'query' parameter"@)),
        }
    } else if name == "search_by_feature"@ {
        match arguments.text_field("feature"@) {
            Some(feature) => Ok(ToolCallModel::SearchByFeature { feature }),
            None => Err(missing("Missing 'feature' parameter"@)),
        }
    } else if name == "search_by_keyword"@ {
        match arguments.text_field("keyword"@) {
            Some(keyword) => Ok(ToolCallModel::SearchByKeyword { keyword }),
            None => Err(missing("Missing 'keyword' parameter"@)),
        }
    } else if name == "automated_documentation_workflow"@ {
        Ok(
            ToolCallModel::AutomatedDocumentationWorkflow {
                service: text_or_empty(arguments, "service"@),
                source: text_or_empty(arguments, "source"@),
            },
        )
    } else if name == "detect_service_name"@ {
        Ok(ToolCallModel::DetectServiceName)
    } else if name == "get_repository_info"@ {
        Ok(ToolCallModel::GetRepositoryInfo)
    } else {
        Err(KtmeErrorModel::InvalidInput("Unknown tool: "@ + name))
    }
}

/// What a planned call, or its failure, stands for.
pub open spec fn plan_model(plan: Result<ToolCall, KtmeError>) -> Result<
    ToolCallModel,
    KtmeErrorModel,
> {
    match plan {
        Ok(call) => Ok(call@),
        Err(error) => Err(error@),
    }
}

/// The string argument `key`, or the empty string.
fn argument_or_empty(arguments: &Json, key: &str) -> (text: String)
    ensures
        text@ == text_or_empty(arguments@, key@),
{
    match arguments.get_str(key) {
        Some(t) => t.to_string(),
        None => String::new(),
    }
}

/// The string argument `key`, or the failure that says `what` is missing.
fn argument(arguments: &Json, key: &str, what: &str) -> (text: Result<String, KtmeError>)
    ensures
        match text {
            Ok(t) => arguments@.text_field(key@) == Some(t@),
            Err(e) => arguments@.text_field(key@) is None && e@ == missing(what@),
        },
{
    match arguments.get_str(key) {
        Some(t) => Ok(t.to_string()),
        None => Err(KtmeError::InvalidInput(what.to_string())),
    }
}

/// The string argument `key`, if there is one.
fn optional_argument(arguments: &Json, key: &str) -> (text: Option<String>)
    ensures
        match text {
            Some(t) => arguments@.text_field(key@) == Some(t@),
            None => arguments@.text_field(key@) is None,
        },
{
    match arguments.get_str(key) {
        Some(t) => Some(t.to_string()),
        None => None,
    }
}

/// What the handler decided for one request.
#[derive(Debug)]
pub enum Reply {
    /// The response is ready.
    Ready(Response),
    /// A tool has to run first. Its outcome makes the response.
    Pending(PendingCall),
}

/// A call of a registered tool that waits to be run, with the `id` of the
/// request that asked for it.
#[derive(Debug)]
pub struct PendingCall {
    pub id: Json,
    pub call: ToolCall,
}

/// What a [`Reply`] stands for.
pub ghost enum ReplyModel {
    Ready(ResponseModel),
    Pending { id: JsonModel, call: ToolCallModel },
}

impl View for Reply {
    type V = ReplyModel;

    open spec fn view(&self) -> ReplyModel {
        match self {
            Reply::Ready(response) => ReplyModel::Ready(response@),
            Reply::Pending(pending) => ReplyModel::Pending {
                id: pending.id@,
                call: pending.call@,
            },
        }
    }
}

/// What the answer to one message stands for: `None` where nothing is sent
/// back.
pub open spec fn reply_model(reply: Option<Reply>) -> Option<ReplyModel> {
    match reply {
        Some(r) => Some(r@),
        None => None,
    }
}

/// What an optional response stands for.
pub open spec fn response_model(response: Option<Response>) -> Option<ResponseModel> {
    match response {
        Some(r) => Some(r@),
        None => None,
    }
}

/// The `id` of a message, where it has one. A message without one is a
/// notification.
pub open spec fn request_id(message: JsonModel) -> Option<JsonModel> {
    message.field("id"@)
}

/// The method of a message: the empty text where the member `method` is
/// missing or is no string.
pub open spec fn request_method(message: JsonModel) -> Seq<char> {
    text_or_empty(message, "method"@)
}

/// Whether the handler knows the method.
pub open spec fn is_known_method(method: Seq<char>) -> bool {
    method == "initialize"@ || method == "tools/list"@ || method == "tools/call"@ || method
        == "ping"@
}

/// The member `key` of `document`, or the empty object where there is none.
pub open spec fn field_or_empty(document: JsonModel, key: Seq<char>) -> JsonModel {
    match document.field(key) {
        Some(value) => value,
        None => JsonModel::Object(Seq::empty()),
    }
}

/// The result of `initialize`: the protocol version, what the server can do,
/// and its name and version.
pub open spec fn initialize_result(name: Seq<char>, version: Seq<char>) -> JsonModel {
    JsonModel::Object(
        seq![
            entry("protocolVersion"@, JsonModel::String("2024-11-05"@)),
            entry(
                "capabilities"@,
                JsonModel::Object(
                    seq![
                        entry(
                            "tools"@,
                            JsonModel::Object(seq![entry("listChanged"@, JsonModel::Bool(false))]),
                        ),
                        entry("logging"@, JsonModel::Object(Seq::empty())),
                    ],
                ),
            ),
            entry(
                "serverInfo"@,
                JsonModel::Object(
                    seq![
                        entry("name"@, JsonModel::String(name)),
                        entry("version"@, JsonModel::String(version)),
                    ],
                ),
            ),
        ],
    )
}

/// The result of a tool that ran: one block of text.
pub open spec fn tool_result(text: Seq<char>) -> JsonModel {
    JsonModel::Object(
        seq![
            entry(
                "content"@,
                JsonModel::Array(
                    seq![
                        JsonModel::Object(
                            seq![
                                entry("type"@, JsonModel::String("text"@)),
                                entry("text"@, JsonModel::String(text)),
                            ],
                        ),
                    ],
                ),
            ),
        ],
    )
}

/// The response to a request without a method.
pub open spec fn invalid_request(id: JsonModel) -> ResponseModel {
    failure(id, INVALID_REQUEST as int, "Invalid Request"@, Some("Missing 'method' field"@))
}

/// The response to a request for a method that the handler does not know.
pub open spec fn unknown_method(id: JsonModel, method: Seq<char>) -> ResponseModel {
    failure(id, METHOD_NOT_FOUND as int, "Method not found"@, Some("Unknown method: "@ + method))
}

/// The response to a call of a tool that the catalog does not hold.
pub open spec fn unknown_tool(id: JsonModel, tool: Seq<char>) -> ResponseModel {
    failure(id, METHOD_NOT_FOUND as int, "Method not found"@, Some("Unknown tool: "@ + tool))
}

/// The response to a call of a tool that failed. Its `data` is the message of
/// the failure.
pub open spec fn tool_failure(id: JsonModel, error: KtmeErrorModel) -> ResponseModel {
    failure(id, TOOL_EXECUTION_FAILED as int, "Tool execution failed"@, Some(error.message()))
}

/// The response that the outcome of a tool makes.
pub open spec fn tool_response(id: JsonModel, outcome: Result<Seq<char>, KtmeErrorModel>) -> ResponseModel {
    match outcome {
        Ok(text) => success(id, tool_result(text)),
        Err(error) => tool_failure(id, error),
    }
}

/// What the outcome of a tool stands for.
pub open spec fn outcome_model(outcome: Result<String, KtmeError>) -> Result<
    Seq<char>,
    KtmeErrorModel,
> {
    match outcome {
        Ok(text) => Ok(text@),
        Err(error) => Err(error@),
    }
}

/// The name of the tool that a `tools/call` request asks for: the empty
/// text where `params.name` is missing or is no string.
pub open spec fn called_tool(message: JsonModel) -> Seq<char> {
    text_or_empty(field_or_empty(message, "params"@), "name"@)
}

/// The arguments of a `tools/call` request: the empty object where
/// `params.arguments` is missing.
pub open spec fn call_arguments(message: JsonModel) -> JsonModel {
    field_or_empty(field_or_empty(message, "params"@), "arguments"@)
}

/// The answer to the request `message` with this `id` for `tools/call`.
pub open spec fn call_answer(id: JsonModel, message: JsonModel) -> ReplyModel {
    let tool = called_tool(message);
    if !is_registered(tool) {
        ReplyModel::Ready(unknown_tool(id, tool))
    } else {
        match planned(tool, call_arguments(message)) {
            Ok(call) => ReplyModel::Pending { id, call },
            Err(error) => ReplyModel::Ready(tool_failure(id, error)),
        }
    }
}

/// The answer of a server with this name and version to one message:
/// nothing for a notification, else what the method asks for.
pub open spec fn answer(name: Seq<char>, version: Seq<char>, message: JsonModel) -> Option<
    ReplyModel,
> {
    match request_id(message) {
        None => None,
        Some(id) => {
            let method = request_method(message);
            if method.len() == 0 {
                Some(ReplyModel::Ready(invalid_request(id)))
            } else if method == "initialize"@ {
                Some(ReplyModel::Ready(success(id, initialize_result(name, version))))
            } else if method == "tools/list"@ {
                Some(ReplyModel::Ready(success(id, tools_document(catalog()))))
            } else if method == "tools/call"@ {
                Some(call_answer(id, message))
            } else if method == "ping"@ {
                Some(ReplyModel::Ready(success(id, JsonModel::Object(Seq::empty()))))
            } else {
                Some(ReplyModel::Ready(unknown_method(id, method)))
            }
        },
    }
}

/// The answer to the text of one message: nothing where the text is no JSON
/// document.
pub open spec fn answer_to_text(name: Seq<char>, version: Seq<char>, text: Seq<char>) -> Option<
    ReplyModel,
> {
    match parsed_json(text) {
        None => None,
        Some(message) => answer(name, version, message),
    }
}

/// What holds of the answer `reply` to every message, whoever the server is.
pub open spec fn answers(message: JsonModel, reply: Option<ReplyModel>) -> bool {
    let method = request_method(message);
    match request_id(message) {
        None => reply is None,
        Some(id) => {
            &&& reply is Some
            &&& method.len() == 0 ==> reply == Some(ReplyModel::Ready(invalid_request(id)))
            &&& method.len() > 0 && !is_known_method(method) ==> reply == Some(
                ReplyModel::Ready(unknown_method(id, method)),
            )
            &&& method == "tools/list"@ ==> reply == Some(
                ReplyModel::Ready(success(id, tools_document(catalog()))),
            )
            &&& method == "tools/call"@ && !is_registered(called_tool(message)) ==> reply == Some(
                ReplyModel::Ready(unknown_tool(id, called_tool(message))),
            )
            &&& method == "tools/call"@ && is_registered(called_tool(message)) ==> reply == Some(
                match planned(called_tool(message), call_arguments(message)) {
                    Ok(call) => ReplyModel::Pending { id, call },
                    Err(error) => ReplyModel::Ready(tool_failure(id, error)),
                },
            )
        },
    }
}

/// The names of the handler's methods differ from each other, and none is
/// empty.
pub proof fn lemma_method_names_differ()
    ensures
        "initialize"@.len() == 10,
        "tools/list"@.len() == 10,
        "tools/call"@.len() == 10,
        "ping"@.len() == 4,
        "initialize"@ != "tools/list"@,
        "initialize"@ != "tools/call"@,
        "tools/list"@ != "tools/call"@,
{
    reveal_strlit("initialize");
    reveal_strlit("tools/list");
    reveal_strlit("tools/call");
    reveal_strlit("ping");
    assert("initialize"@[0] == 'i');
    assert("tools/list"@[0] == 't');
    assert("tools/call"@[0] == 't');
    assert("tools/list"@[6] == 'l');
    assert("tools/call"@[6] == 'c');
}

/// The answer that the handler gives obeys the rules of [`answers`], for
/// every server and every message.
pub proof fn lemma_answer_obeys_the_rules(name: Seq<char>, version: Seq<char>, message: JsonModel)
    ensures
        answers(message, answer(name, version, message)),
{
    lemma_method_names_differ();
}

/// The answer to the bytes of one message: nothing where the bytes are no
/// valid UTF-8, which makes them no JSON document.
pub open spec fn answer_to_bytes(name: Seq<char>, version: Seq<char>, bytes: Seq<u8>) -> Option<
    ReplyModel,
> {
    if vstd::utf8::valid_utf8(bytes) {
        answer_to_text(name, version, vstd::utf8::decode_utf8(bytes))
    } else {
        None
    }
}

/// The shared handler of JSON-RPC 2.0 messages. It owns the catalog of
/// tools, which is made with it and never changes.
#[derive(Debug)]
pub struct McpProtocolHandler {
    server_name: String,
    server_version: String,
    tools: Vec<ToolDescriptor>,
}

impl McpProtocolHandler {
    /// The tools that the handler holds are the catalog.
    #[verifier::type_invariant]
    spec fn holds_the_catalog(&self) -> bool {
        descriptor_models(self.tools@) == catalog()
    }

    /// The name that the handler gives as the server's.
    pub closed spec fn name(&self) -> Seq<char> {
        self.server_name@
    }

    /// The version that the handler gives as the server's.
    pub closed spec fn version(&self) -> Seq<char> {
        self.server_version@
    }

    /// A handler for a server of this name and version.
    pub fn new(server_name: String, server_version: String) -> (handler: Self)
        ensures
            handler.name() == server_name@,
            handler.version() == server_version@,
    {
        Self { server_name, server_version, tools: tools() }
    }

    /// The server's name.
    pub fn server_name(&self) -> (name: &str)
        ensures
            name@ == self.name(),
    {
        self.server_name.as_str()
    }

    /// The server's version.
    pub fn server_version(&self) -> (version: &str)
        ensures
            version@ == self.version(),
    {
        self.server_version.as_str()
    }

    /// A handler for the same server.
    pub fn duplicate(&self) -> (copy: Self)
        ensures
            copy.name() == self.name(),
            copy.version() == self.version(),
    {
        Self::new(self.server_name.clone(), self.server_version.clone())
    }

    /// Answers the text of one message.
    ///
    /// Text that is no JSON document is never answered, as nothing shows that
    /// it was a request. A message without an `id` is never answered,
    /// whatever its method. A message with an `id` is always answered: with
    /// the error for an invalid request where it has no method, with the
    /// error for an unknown method where the method is none of the
    /// handler's, with the whole catalog for `tools/list`, and with the
    /// error for an unknown tool where `tools/call` names none of the
    /// catalog.
    pub fn handle_message(&self, message: &str) -> (reply: Option<Reply>)
        ensures
            reply_model(reply) == answer_to_text(self.name(), self.version(), message@),
            parsed_json(message@) is None ==> reply is None,
            parsed_json(message@) is Some ==> answers(
                parsed_json(message@)->0,
                reply_model(reply),
            ),
    {
        match Json::parse(message) {
            Some(document) => self.handle_document(&document),
            None => None,
        }
    }

    /// Answers the bytes of one message. Bytes that are no valid UTF-8 are
    /// never answered.
    pub fn handle_bytes(&self, message: &[u8]) -> (reply: Option<Reply>)
        ensures
            reply_model(reply) == answer_to_bytes(self.name(), self.version(), message@),
            !vstd::utf8::valid_utf8(message@) ==> reply is None,
    {
        match crate::text::text_of(message) {
            Some(text) => self.handle_message(text),
            None => None,
        }
    }

    /// Answers one message. See [`McpProtocolHandler::handle_message`].
    pub fn handle_document(&self, message: &Json) -> (reply: Option<Reply>)
        ensures
            reply_model(reply) == answer(self.name(), self.version(), message@),
            answers(message@, reply_model(reply)),
    {
        proof {
            lemma_answer_obeys_the_rules(self.name(), self.version(), message@);
        }
        let id = match message.get("id") {
            Some(id) => id.clone(),
            None => {
                return None;
            },
        };
        let method = match message.get_str("method") {
            Some(m) => m,
            None => "",
        };
        proof {
            reveal_strlit("");
        }
        if method.is_empty() {
            let data = "Missing 'method' field".to_string();
            return Some(Reply::Ready(Response::failure(id, INVALID_REQUEST, "Invalid Request", data)));
        }
        if str_eq(method, "initialize") {
            Some(Reply::Ready(self.handle_initialize(id)))
        } else if str_eq(method, "tools/list") {
            Some(Reply::Ready(self.handle_tools_list(id)))
        } else if str_eq(method, "tools/call") {
            Some(self.handle_tools_call(message, id))
        } else if str_eq(method, "ping") {
            Some(Reply::Ready(self.handle_ping(id)))
        } else {
            Some(Reply::Ready(self.handle_unknown_method(method, id)))
        }
    }

    /// The response to `initialize`.
    pub fn handle_initialize(&self, id: Json) -> (response: Response)
        ensures
            response@ == success(id@, initialize_result(self.name(), self.version())),
    {
        let tools = Json::object1(Member::new("listChanged", Json::Bool(false)));
        let capabilities = Json::object2(
            Member::new("tools", tools),
            Member::new("logging", Json::empty_object()),
        );
        let server_info = Json::object2(
            Member::new("name", Json::string(self.server_name.as_str())),
            Member::new("version", Json::string(self.server_version.as_str())),
        );
        let result = Json::object3(
            Member::new("protocolVersion", Json::string("2024-11-05")),
            Member::new("capabilities", capabilities),
            Member::new("serverInfo", server_info),
        );
        Response::success(id, result)
    }

    /// The response to `tools/list`: the whole catalog, in its order, the
    /// same on every call.
    pub fn handle_tools_list(&self, id: Json) -> (response: Response)
        ensures
            response@ == success(id@, tools_document(catalog())),
    {
        proof {
            use_type_invariant(self);
        }
        Response::success(id, tools_result(&self.tools))
    }

    /// The answer to `tools/call`: an error for a tool that the catalog does
    /// not hold or a call that lacks a needed argument, else the call to run.
    pub fn handle_tools_call(&self, message: &Json, id: Json) -> (reply: Reply)
        ensures
            reply@ == call_answer(id@, message@),
    {
        let empty = Json::empty_object();
        let params = match message.get("params") {
            Some(p) => p,
            None => &empty,
        };
        let tool = match params.get_str("name") {
            Some(n) => n,
            None => "",
        };
        proof {
            reveal_strlit("");
            assert(tool@ == called_tool(message@));
        }
        let arguments = match params.get("arguments") {
            Some(a) => a,
            None => &empty,
        };
        proof {
            use_type_invariant(self);
        }
        if !has_tool(&self.tools, tool) {
            let data = concat("Unknown tool: ", tool);
            return Reply::Ready(Response::failure(id, METHOD_NOT_FOUND, "Method not found", data));
        }
        match Self::execute_tool(tool, arguments) {
            Ok(call) => Reply::Pending(PendingCall { id, call }),
            Err(error) => Reply::Ready(Self::tool_response(id, Err(error))),
        }
    }

    /// The response to `ping`: an empty result.
    pub fn handle_ping(&self, id: Json) -> (response: Response)
        ensures
            response@ == success(id@, JsonModel::Object(Seq::empty())),
    {
        Response::success(id, Json::empty_object())
    }

    /// The response to a method that the handler does not know.
    pub fn handle_unknown_method(&self, method: &str, id: Json) -> (response: Response)
        ensures
            response@ == unknown_method(id@, method@),
    {
        let data = concat("Unknown method: ", method);
        Response::failure(id, METHOD_NOT_FOUND, "Method not found", data)
    }

    /// The catalog of tools that the handler holds.
    pub fn catalog(&self) -> (list: &Vec<ToolDescriptor>)
        ensures
            descriptor_models(list@) == catalog(),
            list.len() == 11,
    {
        proof {
            use_type_invariant(self);
            crate::mcp::catalog::lemma_tool_names_differ();
        }
        &self.tools
    }

    /// The catalog of tools.
    pub fn get_tools_list() -> (list: Vec<ToolDescriptor>)
        ensures
            descriptor_models(list@) == catalog(),
            list.len() == 11,
    {
        tools()
    }

    /// Reads the arguments of a call of the tool `tool_name` and says what is
    /// to run. It fails where the name is not a tool's, and where a tool that
    /// cannot do without an argument is not given it as a string.
    pub fn execute_tool(tool_name: &str, arguments: &Json) -> (plan: Result<ToolCall, KtmeError>)
        ensures
            plan_model(plan) == planned(tool_name@, arguments@),
    {
        if str_eq(tool_name, "read_changes") {
            match argument(arguments, "source", "Missing 'source' parameter") {
                Ok(source) => Ok(ToolCall::ReadChanges { source }),
                Err(e) => Err(e),
            }
        } else if str_eq(tool_name, "get_service_mapping") {
            match argument(arguments, "service", "Missing 'service' parameter") {
                Ok(service) => Ok(ToolCall::GetServiceMapping { service }),
                Err(e) => Err(e),
            }
        } else if str_eq(tool_name, "list_services") {
            Ok(ToolCall::ListServices)
        } else if str_eq(tool_name, "generate_documentation") {
            Ok(
                ToolCall::GenerateDocumentation {
                    service: argument_or_empty(arguments, "service"),
                    changes: argument_or_empty(arguments, "changes"),
                    format: optional_argument(arguments, "format"),
                },
            )
        } else if str_eq(tool_name, "update_documentation") {
            Ok(
                ToolCall::UpdateDocumentation {
                    service: argument_or_empty(arguments, "service"),
                    doc_path: argument_or_empty(arguments, "doc_path"),
                    content: argument_or_empty(arguments, "content"),
                },
            )
        } else if str_eq(tool_name, "search_services") {
            match argument(arguments, "query", "Missing 'query' parameter") {
                Ok(query) => Ok(ToolCall::SearchServices { query }),
                Err(e) => Err(e),
            }
        } else if str_eq(tool_name, "search_by_feature") {
            match argument(arguments, "feature", "Missing 'feature' parameter") {
                Ok(feature) => Ok(ToolCall::SearchByFeature { feature }),
                Err(e) => Err(e),
            }
        } else if str_eq(tool_name, "search_by_keyword") {
            match argument(arguments, "keyword", "Missing 'keyword' parameter") {
                Ok(keyword) => Ok(ToolCall::SearchByKeyword { keyword }),
                Err(e) => Err(e),
            }
        } else if str_eq(tool_name, "automated_documentation_workflow") {
            Ok(
                ToolCall::AutomatedDocumentationWorkflow {
                    service: argument_or_empty(arguments, "service"),
                    source: argument_or_empty(arguments, "source"),
                },
            )
        } else if str_eq(tool_name, "detect_service_name") {
            Ok(ToolCall::DetectServiceName)
        } else if str_eq(tool_name, "get_repository_info") {
            Ok(ToolCall::GetRepositoryInfo)
        } else {
            Err(KtmeError::InvalidInput(concat("Unknown tool: ", tool_name)))
        }
    }

    /// The response that the outcome of a tool makes: the text as the one
    /// block of content, or the error whose `data` is the failure's message,
    /// letter for letter.
    pub fn tool_response(id: Json, outcome: Result<String, KtmeError>) -> (response: Response)
        ensures
            response@ == tool_response(id@, outcome_model(outcome)),
    {
        match outcome {
            Ok(text) => {
                let block = Json::object2(
                    Member::new("type", Json::string("text")),
                    Member::new("text", Json::String(text)),
                );
                let mut blocks: Vec<Json> = Vec::new();
                blocks.push(block);
                let content = Json::array(blocks);
                proof {
                    assert(content@->Array_0 =~= seq![block@]);
                }
                Response::success(id, Json::object1(Member::new("content", content)))
            },
            Err(error) => Response::failure(
                id,
                TOOL_EXECUTION_FAILED,
                "Tool execution failed",
                error.message(),
            ),
        }
    }
}

impl PendingCall {
    /// The response to the request, once the tool has run.
    pub fn complete(self, outcome: Result<String, KtmeError>) -> (response: Response)
        ensures
            response@ == tool_response(self.id@, outcome_model(outcome)),
    {
        McpProtocolHandler::tool_response(self.id, outcome)
    }
}

/// The JSON form of an error: `code`, `message` and, where there is detail,
/// `data`.
pub open spec fn error_document(error: ErrorModel) -> JsonModel {
    match error.data {
        Some(data) => JsonModel::Object(
            seq![
                entry("code"@, JsonModel::Int(error.code)),
                entry("message"@, JsonModel::String(error.message)),
                entry("data"@, JsonModel::String(data)),
            ],
        ),
        None => JsonModel::Object(
            seq![
                entry("code"@, JsonModel::Int(error.code)),
                entry("message"@, JsonModel::String(error.message)),
            ],
        ),
    }
}

/// The JSON form of a response: the version mark, the `id` and either
/// `result` or `error`.
pub open spec fn response_document(response: ResponseModel) -> JsonModel {
    match response.payload {
        PayloadModel::Success(result) => JsonModel::Object(
            seq![
                entry("jsonrpc"@, JsonModel::String("2.0"@)),
                entry("id"@, response.id),
                entry("result"@, result),
            ],
        ),
        PayloadModel::Failure(error) => JsonModel::Object(
            seq![
                entry("jsonrpc"@, JsonModel::String("2.0"@)),
                entry("id"@, response.id),
                entry("error"@, error_document(error)),
            ],
        ),
    }
}

/// The error that a JSON document holds: it needs an integer `code` and a
/// string `message`; `data` counts where it is a string.
pub open spec fn decoded_error(document: JsonModel) -> Option<ErrorModel> {
    match (document.field("code"@), document.text_field("message"@)) {
        (Some(JsonModel::Int(code)), Some(message)) => Some(
            ErrorModel { code, message, data: document.text_field("data"@) },
        ),
        _ => None,
    }
}

/// The response that a JSON document holds: it needs the version mark, an
/// `id` and either an `error` that can be read or a `result`.
pub open spec fn decoded(document: JsonModel) -> Option<ResponseModel> {
    if document.text_field("jsonrpc"@) != Some("2.0"@) {
        None
    } else {
        match document.field("id"@) {
            None => None,
            Some(id) => match document.field("error"@) {
                Some(error) => match decoded_error(error) {
                    Some(e) => Some(ResponseModel { id, payload: PayloadModel::Failure(e) }),
                    None => None,
                },
                None => match document.field("result"@) {
                    Some(result) => Some(success(id, result)),
                    None => None,
                },
            },
        }
    }
}

/// The response that a text holds, where the text is a JSON document that
/// holds one.
pub open spec fn decoded_text(text: Seq<char>) -> Option<ResponseModel> {
    match parsed_json(text) {
        Some(document) => decoded(document),
        None => None,
    }
}

impl ErrorEnvelope {
    /// The JSON form of this error.
    pub fn to_json(&self) -> (document: Json)
        ensures
            document@ == error_document(self@),
    {
        let code = Member::new("code", Json::Int(self.code));
        let message = Member::new("message", Json::string(self.message.as_str()));
        match &self.data {
            Some(data) => Json::object3(code, message, Member::new("data", Json::string(data.as_str()))),
            None => Json::object2(code, message),
        }
    }

    /// The error that a JSON document holds.
    pub fn from_json(document: &Json) -> (error: Option<ErrorEnvelope>)
        ensures
            match error {
                Some(e) => decoded_error(document@) == Some(e@),
                None => decoded_error(document@) is None,
            },
    {
        let code = match document.get("code") {
            Some(c) => match c.as_i64() {
                Some(i) => i,
                None => {
                    return None;
                },
            },
            None => {
                return None;
            },
        };
        let message = match document.get_str("message") {
            Some(m) => m.to_string(),
            None => {
                return None;
            },
        };
        let data = match document.get_str("data") {
            Some(d) => Some(d.to_string()),
            None => None,
        };
        Some(ErrorEnvelope { code, message, data })
    }
}

impl Response {
    /// The JSON form of this response.
    pub fn to_json(&self) -> (document: Json)
        ensures
            document@ == response_document(self@),
    {
        let mark = Member::new("jsonrpc", Json::string("2.0"));
        let id = Member::new("id", self.id.clone());
        match &self.payload {
            Payload::Success(result) => Json::object3(mark, id, Member::new("result", result.clone())),
            Payload::Failure(error) => Json::object3(mark, id, Member::new("error", error.to_json())),
        }
    }

    /// The text of this response: its JSON form on one line.
    pub fn to_text(&self) -> (text: String)
        ensures
            text@ == json_text(response_document(self@)),
    {
        self.to_json().to_text()
    }

    /// The response that a JSON document holds.
    pub fn from_json(document: &Json) -> (response: Option<Response>)
        ensures
            response_model(response) == decoded(document@),
    {
        match document.get_str("jsonrpc") {
            Some(mark) => {
                if !str_eq(mark, "2.0") {
                    return None;
                }
            },
            None => {
                return None;
            },
        }
        let id = match document.get("id") {
            Some(id) => id.clone(),
            None => {
                return None;
            },
        };
        match document.get("error") {
            Some(error) => match ErrorEnvelope::from_json(error) {
                Some(e) => Some(Response { id, payload: Payload::Failure(e) }),
                None => None,
            },
            None => match document.get("result") {
                Some(result) => Some(Response::success(id, result.clone())),
                None => None,
            },
        }
    }

    /// The response that a text holds.
    pub fn parse(text: &str) -> (response: Option<Response>)
        ensures
            response_model(response) == decoded_text(text@),
    {
        match Json::parse(text) {
            Some(document) => Response::from_json(&document),
            None => None,
        }
    }
}

/// The names of the members of a response and of an error differ where they
/// stand in one object.
proof fn lemma_member_names_differ()
    ensures
        "jsonrpc"@ != "id"@,
        "jsonrpc"@ != "error"@,
        "jsonrpc"@ != "result"@,
        "id"@ != "error"@,
        "id"@ != "result"@,
        "result"@ != "error"@,
        "code"@ != "message"@,
        "code"@ != "data"@,
        "message"@ != "data"@,
{
    reveal_strlit("jsonrpc");
    reveal_strlit("id");
    reveal_strlit("error");
    reveal_strlit("result");
    reveal_strlit("code");
    reveal_strlit("message");
    reveal_strlit("data");
    assert("jsonrpc"@.len() == 7);
    assert("id"@.len() == 2);
    assert("error"@.len() == 5);
    assert("result"@.len() == 6);
    assert("code"@.len() == 4);
    assert("message"@.len() == 7);
    assert("data"@.len() == 4);
    assert("code"@[0] == 'c');
    assert("data"@[0] == 'd');
}

/// Reading the JSON form of an error gives the error back.
pub proof fn lemma_error_round_trip(error: ErrorModel)
    ensures
        decoded_error(error_document(error)) == Some(error),
{
    lemma_member_names_differ();
    reveal_with_fuel(lookup_from, 4);
}

/// Reading the JSON form of a response gives the response back: the same
/// `id` and the same result or error.
pub proof fn lemma_response_round_trip(response: ResponseModel)
    ensures
        decoded(response_document(response)) == Some(response),
{
    lemma_member_names_differ();
    reveal_with_fuel(lookup_from, 4);
    match response.payload {
        PayloadModel::Success(result) => {},
        PayloadModel::Failure(error) => {
            lemma_error_round_trip(error);
        },
    }
}

/// The dispatcher knows exactly the tools of the catalog: a call is refused
/// as one of an unknown tool exactly where the name is not registered.
pub proof fn lemma_dispatch_knows_the_catalog(name: Seq<char>, arguments: JsonModel)
    ensures
        is_registered(name) <==> planned(name, arguments) != Err::<ToolCallModel, KtmeErrorModel>(
            KtmeErrorModel::InvalidInput("Unknown tool: "@ + name),
        ),
{
    crate::mcp::catalog::lemma_registered_names(name);
    reveal_strlit("Unknown tool: ");
    reveal_strlit("Missing 'source' parameter");
    reveal_strlit("Missing 'service' parameter");
    reveal_strlit("Missing 'query' parameter");
    reveal_strlit("Missing 'feature' parameter");
    reveal_strlit("Missing 'keyword' parameter");
    let unknown = "Unknown tool: "@ + name;
    assert(unknown[0] == 'U');
    assert("Missing 'source' parameter"@[0] == 'M');
    assert("Missing 'service' parameter"@[0] == 'M');
    assert("Missing 'query' parameter"@[0] == 'M');
    assert("Missing 'feature' parameter"@[0] == 'M');
    assert("Missing 'keyword' parameter"@[0] == 'M');
}

/// Whether a code is one of those that the handler and the transports give.
pub open spec fn is_known_code(code: int) -> bool {
    code == PARSE_ERROR || code == INVALID_REQUEST || code == METHOD_NOT_FOUND || code
        == INTERNAL_ERROR || code == TOOL_EXECUTION_FAILED
}

/// Every error that the handler answers with, at once or once a tool has
/// run, carries one of the known codes.
pub proof fn lemma_error_codes_are_known(
    name: Seq<char>,
    version: Seq<char>,
    message: JsonModel,
    outcome: Result<Seq<char>, KtmeErrorModel>,
)
    ensures
        match answer(name, version, message) {
            Some(ReplyModel::Ready(response)) => response.payload is Failure ==> is_known_code(
                response.payload->Failure_0.code,
            ),
            Some(ReplyModel::Pending { id, call }) => tool_response(id, outcome).payload
                is Failure ==> tool_response(id, outcome).payload->Failure_0.code
                == TOOL_EXECUTION_FAILED,
            None => true,
        },
{
}

/// A response carries the `id` of the request that it answers.
pub proof fn lemma_response_carries_the_id(
    name: Seq<char>,
    version: Seq<char>,
    message: JsonModel,
    outcome: Result<Seq<char>, KtmeErrorModel>,
)
    requires
        request_id(message) is Some,
    ensures
        match answer(name, version, message) {
            Some(ReplyModel::Ready(response)) => response.id == request_id(message)->0,
            Some(ReplyModel::Pending { id, call }) => id == request_id(message)->0 && tool_response(
                id,
                outcome,
            ).id == id,
            None => false,
        },
{
}

} // verus!
