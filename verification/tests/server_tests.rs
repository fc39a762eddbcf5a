use ktme::error::KtmeError;
use ktme::json::Json;
use ktme::mcp::client::McpClient;
use ktme::mcp::http::content_length;
use ktme::mcp::http::ends_headers;
use ktme::mcp::http::Endpoint;
use ktme::mcp::http::HttpResponse;
use ktme::mcp::http::RequestHead;
use ktme::mcp::http::RequestLine;
use ktme::mcp::protocol::McpProtocolHandler;
use ktme::mcp::server::AcceptAction;
use ktme::mcp::server::AcceptEvent;
use ktme::mcp::server::ConnectionStep;
use ktme::mcp::server::McpServer;
use ktme::mcp::server::ReadOutcome;
use ktme::mcp::server::ServerConfig;
use ktme::mcp::server::ServerRuntimeState;
use ktme::mcp::server::StreamStep;
use ktme::mcp::server::Transport;
use ktme::mcp::stdio_server::StdioServer;
use ktme::mcp::tools::ChangeSource;
use ktme::mcp::tools::McpTools;

fn server(transport: &str, port: Option<u16>) -> McpServer {
    McpServer::new(ServerConfig {
        server_name: "ktme-mcp-server".to_string(),
        transport: transport.to_string(),
        port,
    })
    .unwrap()
}

fn head(method: &str, path: &str) -> RequestHead {
    RequestHead::new(RequestLine::parse(&format!("{} {} HTTP/1.1\r\n", method, path)).unwrap())
}

fn respond(step: ConnectionStep) -> HttpResponse {
    match step {
        ConnectionStep::Respond(response) => response,
        ConnectionStep::Run(_) => panic!("the request waits for a tool"),
    }
}

#[test]
fn the_default_configuration_is_stdio() {
    let config = ServerConfig::default();
    assert_eq!(config.server_name, "ktme-mcp-server");
    assert_eq!(config.transport, "stdio");
    assert_eq!(config.port, None);
}

#[test]
fn start_picks_the_transport() {
    assert!(matches!(server("stdio", None).start(), Ok(Transport::Stdio)));
    assert!(matches!(server("http", Some(3000)).start(), Ok(Transport::Network(3000))));
    assert!(matches!(server("sse", Some(1)).start(), Ok(Transport::Network(1))));
    match server("http", None).start() {
        Err(error) => assert_eq!(
            error.message(),
            "Configuration error: HTTP/SSE transport requires port configuration"
        ),
        Ok(_) => panic!("a transport without a port"),
    }
    match server("pigeon", Some(1)).start() {
        Err(KtmeError::Config(detail)) => assert_eq!(detail, "Unsupported transport: pigeon"),
        _ => panic!("an unknown transport"),
    }
}

#[test]
fn the_stream_answers_a_request_with_one_line() {
    let server = server("stdio", None);
    let step = server.run_stdio_server(&ReadOutcome::Line(
        "  {\"jsonrpc\":\"2.0\",\"id\":1,\"method\":\"initialize\"}\r\n".to_string(),
    ));
    let line = match step {
        StreamStep::Write(line) => line,
        _ => panic!("nothing is written"),
    };
    assert!(line.ends_with('\n'));
    assert_eq!(line.matches('\n').count(), 1);
    let value: serde_json::Value = serde_json::from_str(line.trim_end()).unwrap();
    assert_eq!(value["id"], 1);
    assert_eq!(value["result"]["serverInfo"]["name"], "ktme-mcp-server");
    assert_eq!(value["result"]["serverInfo"]["version"], "0.1.0");
}

#[test]
fn the_stream_writes_nothing_for_a_notification() {
    let server = server("stdio", None);
    let step = server.handle_line("{\"jsonrpc\":\"2.0\",\"method\":\"initialize\"}\n");
    assert!(matches!(step, StreamStep::Skip));
}

#[test]
fn the_stream_writes_nothing_for_what_is_not_json() {
    let server = server("stdio", None);
    assert!(matches!(server.handle_line("not json\n"), StreamStep::Skip));
}

#[test]
fn the_stream_skips_blank_lines_and_stops_at_the_end() {
    let server = server("stdio", None);
    assert!(matches!(server.handle_line(""), StreamStep::Skip));
    assert!(matches!(server.handle_line(" \t\r\n"), StreamStep::Skip));
    assert!(matches!(server.run_stdio_server(&ReadOutcome::EndOfStream), StreamStep::Stop));
    assert!(matches!(server.run_stdio_server(&ReadOutcome::Failed), StreamStep::Stop));
}

#[test]
fn the_stream_answers_an_unknown_method_with_an_error() {
    let server = server("stdio", None);
    let line = match server.handle_line("{\"jsonrpc\":\"2.0\",\"id\":4,\"method\":\"unknown_method\"}") {
        StreamStep::Write(line) => line,
        _ => panic!("nothing is written"),
    };
    let value: serde_json::Value = serde_json::from_str(&line).unwrap();
    assert_eq!(value["error"]["code"], -32601);
}

#[test]
fn the_stream_hands_a_tool_call_out_and_writes_its_outcome() {
    let server = server("stdio", None);
    let step = server.handle_line(
        "{\"jsonrpc\":\"2.0\",\"id\":2,\"method\":\"tools/call\",\"params\":{\"name\":\"list_services\"}}",
    );
    let pending = match step {
        StreamStep::Run(pending) => pending,
        _ => panic!("no tool is to run"),
    };
    let line = pending.complete_line(Ok(McpTools::list_services(&vec!["a".to_string(), "b".to_string()])));
    assert_eq!(
        line,
        "{\"id\":2,\"jsonrpc\":\"2.0\",\"result\":{\"content\":[{\"text\":\"Services: a, b\",\"type\":\"text\"}]}}\n"
    );
}

#[test]
fn an_internal_error_needs_an_id() {
    let response = McpServer::internal_error("{\"id\":3,\"method\":\"ping\"}", "broken pipe").unwrap();
    let value: serde_json::Value = serde_json::from_str(&response.to_text()).unwrap();
    assert_eq!(value["id"], 3);
    assert_eq!(value["error"]["code"], -32603);
    assert_eq!(value["error"]["message"], "Internal error");
    assert_eq!(value["error"]["data"], "broken pipe");
    assert!(McpServer::internal_error("{\"method\":\"ping\"}", "x").is_none());
    assert!(McpServer::internal_error("{{", "x").is_none());
}

#[test]
fn the_stdio_server_has_its_fixed_name() {
    let server = StdioServer::new();
    let step = server.run(&ReadOutcome::Line("{\"id\":1,\"method\":\"initialize\"}".to_string()));
    let line = match step {
        StreamStep::Write(line) => line,
        _ => panic!("nothing is written"),
    };
    let value: serde_json::Value = serde_json::from_str(&line).unwrap();
    assert_eq!(value["result"]["serverInfo"]["name"], "ktme-mcp-server");
    let request = Json::parse("{\"method\":\"ping\"}").unwrap();
    assert!(matches!(server.handle_message(&request), StreamStep::Skip));
    let request = Json::parse("{\"id\":0,\"method\":\"ping\"}").unwrap();
    assert!(matches!(server.handle_message(&request), StreamStep::Write(_)));
}

#[test]
fn status_reports_the_number_of_tools() {
    let server = server("http", Some(3000));
    let mut state = ServerRuntimeState::new();
    let response = respond(server.serve(&mut state, &head("GET", "/status"), b""));
    assert_eq!(response.status, 200);
    let value: serde_json::Value = serde_json::from_str(&response.body).unwrap();
    assert_eq!(value["status"], "running");
    assert_eq!(value["version"], "0.1.0");
    assert_eq!(value["tools_count"], McpProtocolHandler::get_tools_list().len());
    assert_eq!(value["tools_count"], 11);
    assert!(state.is_running());
}

#[test]
fn shutdown_stops_the_accept_loop() {
    let server = server("http", Some(3000));
    let mut state = ServerRuntimeState::new();
    assert_eq!(McpServer::run_sse_server(&state, AcceptEvent::Connection), AcceptAction::Serve);
    assert_eq!(McpServer::run_sse_server(&state, AcceptEvent::Tick), AcceptAction::Wait);
    let response = respond(server.serve(&mut state, &head("POST", "/shutdown"), b""));
    assert_eq!(response.status, 200);
    let value: serde_json::Value = serde_json::from_str(&response.body).unwrap();
    assert_eq!(value["status"], "shutdown");
    assert!(value["message"].is_string());
    assert!(!state.is_running());
    assert_eq!(McpServer::run_sse_server(&state, AcceptEvent::Connection), AcceptAction::Stop);
    assert_eq!(McpServer::run_sse_server(&state, AcceptEvent::Tick), AcceptAction::Stop);
    let again = respond(server.serve(&mut state, &head("GET", "/status"), b""));
    assert_eq!(again.status, 200);
    assert!(!state.is_running());
}

#[test]
fn the_protocol_endpoint_answers_requests_and_not_notifications() {
    let server = server("http", Some(3000));
    let mut state = ServerRuntimeState::new();
    let response = respond(server.serve(
        &mut state,
        &head("POST", "/mcp"),
        b"{\"jsonrpc\":\"2.0\",\"id\":1,\"method\":\"ping\"}",
    ));
    assert_eq!(response.status, 200);
    assert_eq!(response.body, "{\"id\":1,\"jsonrpc\":\"2.0\",\"result\":{}}");
    let response = respond(server.serve(&mut state, &head("POST", "/mcp"), b"{\"method\":\"ping\"}"));
    assert_eq!(response.status, 204);
    assert!(response.body.is_empty());
    let response = respond(server.serve(&mut state, &head("POST", "/mcp"), b"not json"));
    assert_eq!(response.status, 204);
    let response = respond(server.serve(
        &mut state,
        &head("POST", "/mcp"),
        b"{\"id\":1,\"method\":\"ping\",\"x\":\"\xff\"}",
    ));
    assert_eq!(response.status, 204);
    let response = respond(server.serve(
        &mut state,
        &head("POST", "/mcp"),
        "{\"id\":\"é\",\"method\":\"ping\"}".as_bytes(),
    ));
    assert_eq!(response.status, 200);
    assert_eq!(response.body, "{\"id\":\"é\",\"jsonrpc\":\"2.0\",\"result\":{}}");
    assert!(state.is_running());
}

#[test]
fn the_protocol_endpoint_hands_a_tool_call_out() {
    let server = server("http", Some(3000));
    let mut state = ServerRuntimeState::new();
    let step = server.serve(
        &mut state,
        &head("POST", "/mcp"),
        b"{\"id\":5,\"method\":\"tools/call\",\"params\":{\"name\":\"detect_service_name\"}}",
    );
    let pending = match step {
        ConnectionStep::Run(pending) => pending,
        ConnectionStep::Respond(_) => panic!("no tool is to run"),
    };
    let response = pending.complete_response(Err(KtmeError::Io("gone".to_string())));
    assert_eq!(response.status, 200);
    let value: serde_json::Value = serde_json::from_str(&response.body).unwrap();
    assert_eq!(value["error"]["code"], -32000);
    assert_eq!(value["error"]["data"], "I/O error: gone");
}

#[test]
fn anything_else_is_not_found() {
    let server = server("http", Some(3000));
    let mut state = ServerRuntimeState::new();
    for (method, path) in [("GET", "/"), ("POST", "/status"), ("GET", "/mcp"), ("GET", "/shutdown"), ("PUT", "/mcp")] {
        let response = respond(server.serve(&mut state, &head(method, path), b""));
        assert_eq!(response.status, 404);
        assert_eq!(Endpoint::of(method, path), Endpoint::NotFound);
    }
    assert!(state.is_running());
    assert_eq!(Endpoint::of("GET", "/status"), Endpoint::Status);
    assert_eq!(Endpoint::of("POST", "/shutdown"), Endpoint::Shutdown);
    assert_eq!(Endpoint::of("POST", "/mcp"), Endpoint::Mcp);
}

#[test]
fn an_internal_failure_is_a_500() {
    let response = McpServer::failure_response("it \"broke\"");
    assert_eq!(response.status, 500);
    let value: serde_json::Value = serde_json::from_str(&response.body).unwrap();
    assert_eq!(value["error"], "it \"broke\"");
}

#[test]
fn a_request_line_needs_two_words() {
    let line = RequestLine::parse("POST /mcp HTTP/1.1\r\n").unwrap();
    assert_eq!(line.method, "POST");
    assert_eq!(line.path, "/mcp");
    let line = RequestLine::parse("  GET\t/status").unwrap();
    assert_eq!(line.method, "GET");
    assert_eq!(line.path, "/status");
    assert!(RequestLine::parse("GET").is_none());
    assert!(RequestLine::parse("GET \r\n").is_none());
    assert!(RequestLine::parse("").is_none());
    assert!(RequestLine::parse("   ").is_none());
}

#[test]
fn the_content_length_is_read_from_its_header() {
    assert_eq!(content_length("Content-Length: 42\r\n"), Some(42));
    assert_eq!(content_length("content-length:7"), Some(7));
    assert_eq!(content_length("CONTENT-LENGTH :  0  "), Some(0));
    assert_eq!(content_length("Content-Length: 007"), Some(7));
    assert_eq!(content_length("Content-Type: application/json"), None);
    assert_eq!(content_length("Content-Length: -1"), None);
    assert_eq!(content_length("Content-Length: 12a"), None);
    assert_eq!(content_length("Content-Length:"), None);
    assert_eq!(content_length("Content-Length 5"), None);
    assert_eq!(content_length("Content-Length: 99999999999999999999999999"), None);
    assert_eq!(content_length("X-Content-Length: 5"), None);
    assert!(ends_headers("\r\n"));
    assert!(ends_headers(""));
    assert!(!ends_headers("Host: x\r\n"));
}

#[test]
fn the_head_takes_the_length_and_reads_a_body_only_for_the_protocol() {
    let mut request = head("POST", "/mcp");
    assert_eq!(request.content_length, 0);
    assert_eq!(request.body_length(), 0);
    request.header("Host: localhost\r\n");
    assert_eq!(request.content_length, 0);
    request.header("Content-Length: 12\r\n");
    assert_eq!(request.content_length, 12);
    request.header("Accept: */*\r\n");
    assert_eq!(request.body_length(), 12);
    assert_eq!(request.endpoint(), Endpoint::Mcp);
    let mut other = head("GET", "/status");
    other.header("Content-Length: 12\r\n");
    assert_eq!(other.body_length(), 0);
}

#[test]
fn a_response_is_framed_with_its_length() {
    assert_eq!(
        HttpResponse::ok("{\"a\":\"é\"}".to_string()).render(),
        "HTTP/1.1 200 OK\r\nContent-Type: application/json\r\nContent-Length: 10\r\nConnection: close\r\n\r\n{\"a\":\"é\"}"
    );
    assert_eq!(
        HttpResponse::no_content().render(),
        "HTTP/1.1 204 No Content\r\nContent-Length: 0\r\nConnection: close\r\n\r\n"
    );
    assert_eq!(
        HttpResponse::not_found().render(),
        "HTTP/1.1 404 Not Found\r\nContent-Length: 0\r\nConnection: close\r\n\r\n"
    );
    assert!(HttpResponse::internal_server_error("{}".to_string())
        .render()
        .starts_with("HTTP/1.1 500 Internal Server Error\r\n"));
}

#[test]
fn read_changes_tells_the_sources_apart() {
    assert!(matches!(McpTools::read_changes("commit:abc"), ChangeSource::Commit(r) if r == "abc"));
    assert!(matches!(McpTools::read_changes("commit:"), ChangeSource::Commit(r) if r.is_empty()));
    assert!(matches!(McpTools::read_changes("staged"), ChangeSource::Staged));
    assert!(matches!(McpTools::read_changes("a..b"), ChangeSource::Range(r) if r == "a..b"));
    assert!(matches!(McpTools::read_changes("../x"), ChangeSource::Range(r) if r == "../x"));
    assert!(matches!(McpTools::read_changes("diff.json"), ChangeSource::File(p) if p == "diff.json"));
    assert!(matches!(McpTools::read_changes("commit"), ChangeSource::File(_)));
}

#[test]
fn the_tools_write_their_answers() {
    assert_eq!(McpTools::list_services(&vec![]), "Services: ");
    assert_eq!(McpTools::list_services(&vec!["one".to_string()]), "Services: one");
    let write = McpTools::update_documentation("svc", "docs/a.md", "text");
    assert_eq!(write.path, "docs/a.md");
    assert_eq!(write.content, "text");
    assert_eq!(write.confirmation, "Documentation updated at docs/a.md");
    assert_eq!(McpClient::new("m".to_string()).model(), "m");
}
