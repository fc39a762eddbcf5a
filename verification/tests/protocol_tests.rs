use ktme::error::KtmeError;
use ktme::json::Json;
use ktme::json::Member;
use ktme::mcp::protocol::McpProtocolHandler;
use ktme::mcp::protocol::Payload;
use ktme::mcp::protocol::Reply;
use ktme::mcp::protocol::Response;
use ktme::mcp::protocol::ToolCall;

fn handler() -> McpProtocolHandler {
    McpProtocolHandler::new("test-server".to_string(), "0.1.0".to_string())
}

fn ready(reply: Option<Reply>) -> serde_json::Value {
    match reply {
        Some(Reply::Ready(response)) => serde_json::from_str(&response.to_text()).unwrap(),
        Some(Reply::Pending(_)) => panic!("the request waits for a tool"),
        None => panic!("the message got no answer"),
    }
}

#[test]
fn test_handle_initialize() {
    let handler = handler();
    let message = r#"{"jsonrpc":"2.0","id":1,"method":"initialize"}"#;

    let response = handler.handle_message(message);
    assert!(response.is_some());

    let resp = ready(response);
    assert_eq!(resp["jsonrpc"], "2.0");
    assert_eq!(resp["id"], 1);
    assert_eq!(resp["result"]["serverInfo"]["name"], "test-server");
}

#[test]
fn test_handle_tools_list() {
    let handler = handler();
    let message = r#"{"jsonrpc":"2.0","id":2,"method":"tools/list"}"#;

    let response = handler.handle_message(message);
    assert!(response.is_some());

    let resp = ready(response);
    assert_eq!(resp["jsonrpc"], "2.0");
    assert!(resp["result"]["tools"].is_array());
    assert!(resp["result"]["tools"].as_array().unwrap().len() > 0);
}

#[test]
fn test_handle_ping() {
    let handler = handler();
    let message = r#"{"jsonrpc":"2.0","id":3,"method":"ping"}"#;

    let response = handler.handle_message(message);
    assert!(response.is_some());

    let resp = ready(response);
    assert_eq!(resp["jsonrpc"], "2.0");
    assert_eq!(resp["id"], 3);
}

#[test]
fn test_handle_notification() {
    let handler = handler();
    let message = r#"{"jsonrpc":"2.0","method":"initialize"}"#;

    let response = handler.handle_message(message);
    assert!(response.is_none());
}

#[test]
fn test_handle_invalid_json() {
    let handler = handler();
    let message = r#"invalid json"#;

    let response = handler.handle_message(message);
    assert!(response.is_none());
}

#[test]
fn test_handle_unknown_method() {
    let handler = handler();
    let message = r#"{"jsonrpc":"2.0","id":4,"method":"unknown_method"}"#;

    let response = handler.handle_message(message);
    assert!(response.is_some());

    let resp = ready(response);
    assert_eq!(resp["jsonrpc"], "2.0");
    assert_eq!(resp["error"]["code"], -32601);
}

#[test]
fn not_json_gets_no_answer() {
    assert!(handler().handle_message("not json").is_none());
    assert!(handler().handle_message("").is_none());
    assert!(handler().handle_message("{\"id\":1,\"method\":\"ping\"").is_none());
    assert!(handler().handle_bytes(b"\xff\xfe").is_none());
    assert!(handler().handle_bytes(b"{\"id\":1,\"method\":\"ping\",\"x\":\"\xc3\"}").is_none());
    assert!(handler().handle_bytes(b"{\"id\":1,\"method\":\"ping\"}").is_some());
    assert!(handler().handle_bytes("{\"method\":\"ping\",\"x\":\"é\"}".as_bytes()).is_none());
}

#[test]
fn initialize_reports_protocol_and_capabilities() {
    let resp = ready(handler().handle_message(r#"{"jsonrpc":"2.0","id":"a","method":"initialize"}"#));
    assert_eq!(resp["id"], "a");
    assert_eq!(resp["result"]["protocolVersion"], "2024-11-05");
    assert_eq!(resp["result"]["capabilities"]["tools"]["listChanged"], false);
    assert!(resp["result"]["capabilities"]["logging"].as_object().unwrap().is_empty());
    assert_eq!(resp["result"]["serverInfo"]["version"], "0.1.0");
}

#[test]
fn notifications_are_silent_whatever_the_method() {
    let handler = handler();
    for message in [
        r#"{"jsonrpc":"2.0","method":"tools/list"}"#,
        r#"{"jsonrpc":"2.0","method":"tools/call","params":{"name":"list_services"}}"#,
        r#"{"jsonrpc":"2.0","method":"ping"}"#,
        r#"{"jsonrpc":"2.0","method":"no_such_method"}"#,
        r#"{"jsonrpc":"2.0","method":""}"#,
        r#"{"jsonrpc":"2.0"}"#,
        r#"{"jsonrpc":"2.0","method":7}"#,
        r#"[1,2,3]"#,
        r#""text""#,
    ] {
        assert!(handler.handle_message(message).is_none());
    }
}

#[test]
fn a_request_without_method_is_invalid() {
    let handler = handler();
    for message in [
        r#"{"jsonrpc":"2.0","id":7}"#,
        r#"{"jsonrpc":"2.0","id":7,"method":""}"#,
        r#"{"jsonrpc":"2.0","id":7,"method":12}"#,
    ] {
        let resp = ready(handler.handle_message(message));
        assert_eq!(resp["id"], 7);
        assert_eq!(resp["error"]["code"], -32600);
        assert_eq!(resp["error"]["message"], "Invalid Request");
        assert_eq!(resp["error"]["data"], "Missing 'method' field");
        assert!(resp.get("result").is_none());
    }
}

#[test]
fn a_null_id_is_an_id() {
    let resp = ready(handler().handle_message(r#"{"jsonrpc":"2.0","id":null,"method":"ping"}"#));
    assert!(resp["id"].is_null());
    assert!(resp["result"].as_object().unwrap().is_empty());
}

#[test]
fn the_id_comes_back_as_it_was() {
    let handler = handler();
    let resp = ready(handler.handle_message(r#"{"jsonrpc":"2.0","id":1.5,"method":"ping"}"#));
    assert_eq!(resp["id"].as_f64(), Some(1.5));
    let resp = ready(handler.handle_message(
        r#"{"jsonrpc":"2.0","id":18446744073709551615,"method":"ping"}"#,
    ));
    assert_eq!(resp["id"].as_u64(), Some(u64::MAX));
    let resp = ready(handler.handle_message(r#"{"jsonrpc":"2.0","id":{"a":[1,"b"]},"method":"ping"}"#));
    assert_eq!(resp["id"]["a"][1], "b");
}

#[test]
fn unknown_method_names_the_method() {
    let resp = ready(handler().handle_message(r#"{"jsonrpc":"2.0","id":4,"method":"unknown_method"}"#));
    assert_eq!(resp["id"], 4);
    assert_eq!(resp["error"]["message"], "Method not found");
    assert_eq!(resp["error"]["data"], "Unknown method: unknown_method");
}

#[test]
fn tools_list_is_the_catalog_in_order_every_time() {
    let handler = handler();
    let names = [
        "read_changes",
        "get_service_mapping",
        "list_services",
        "generate_documentation",
        "update_documentation",
        "search_services",
        "search_by_feature",
        "search_by_keyword",
        "automated_documentation_workflow",
        "detect_service_name",
        "get_repository_info",
    ];
    let first = ready(handler.handle_message(r#"{"jsonrpc":"2.0","id":2,"method":"tools/list"}"#));
    let second = ready(handler.handle_message(r#"{"jsonrpc":"2.0","id":2,"method":"tools/list"}"#));
    assert_eq!(first, second);
    let tools = first["result"]["tools"].as_array().unwrap();
    assert_eq!(tools.len(), names.len());
    for (tool, name) in tools.iter().zip(names) {
        assert_eq!(tool["name"], name);
        assert!(tool["description"].is_string());
        assert_eq!(tool["inputSchema"]["type"], "object");
        assert!(tool["inputSchema"]["properties"].is_object());
    }
    assert_eq!(McpProtocolHandler::get_tools_list().len(), names.len());
}

#[test]
fn tools_list_describes_the_arguments() {
    let resp = ready(handler().handle_message(r#"{"jsonrpc":"2.0","id":2,"method":"tools/list"}"#));
    let tools = resp["result"]["tools"].as_array().unwrap();
    let read = &tools[0];
    assert_eq!(read["description"], "Read extracted code changes from Git");
    assert_eq!(read["inputSchema"]["properties"]["source"]["type"], "string");
    assert_eq!(
        read["inputSchema"]["properties"]["source"]["description"],
        "Source identifier (commit hash, 'staged', or file path)"
    );
    assert_eq!(read["inputSchema"]["required"][0], "source");
    let list = &tools[2];
    assert!(list["inputSchema"]["properties"].as_object().unwrap().is_empty());
    assert!(list["inputSchema"].get("required").is_none());
    let generate = &tools[3];
    assert_eq!(generate["inputSchema"]["properties"]["format"]["enum"][0], "markdown");
    assert_eq!(generate["inputSchema"]["properties"]["format"]["enum"][1], "json");
    assert_eq!(generate["inputSchema"]["required"].as_array().unwrap().len(), 2);
    assert!(generate["inputSchema"]["properties"]["service"].get("enum").is_none());
}

#[test]
fn a_call_of_an_unknown_tool_is_method_not_found() {
    let handler = handler();
    let resp = ready(handler.handle_message(
        r#"{"jsonrpc":"2.0","id":5,"method":"tools/call","params":{"name":"no_such_tool","arguments":{}}}"#,
    ));
    assert_eq!(resp["id"], 5);
    assert_eq!(resp["error"]["code"], -32601);
    assert_eq!(resp["error"]["data"], "Unknown tool: no_such_tool");
    let resp = ready(handler.handle_message(r#"{"jsonrpc":"2.0","id":5,"method":"tools/call"}"#));
    assert_eq!(resp["error"]["code"], -32601);
    assert_eq!(resp["error"]["data"], "Unknown tool: ");
}

#[test]
fn a_call_that_lacks_an_argument_fails() {
    let resp = ready(handler().handle_message(
        r#"{"jsonrpc":"2.0","id":6,"method":"tools/call","params":{"name":"read_changes","arguments":{"source":3}}}"#,
    ));
    assert_eq!(resp["id"], 6);
    assert_eq!(resp["error"]["code"], -32000);
    assert_eq!(resp["error"]["message"], "Tool execution failed");
    assert_eq!(resp["error"]["data"], "Invalid input: Missing 'source' parameter");
}

#[test]
fn a_call_of_a_tool_waits_for_the_tool() {
    let reply = handler().handle_message(
        r#"{"jsonrpc":"2.0","id":8,"method":"tools/call","params":{"name":"read_changes","arguments":{"source":"staged"}}}"#,
    );
    let pending = match reply {
        Some(Reply::Pending(pending)) => pending,
        _ => panic!("the call does not wait"),
    };
    match &pending.call {
        ToolCall::ReadChanges { source } => assert_eq!(source, "staged"),
        _ => panic!("another tool"),
    }
    let response = pending.complete(Ok("done".to_string()));
    let value: serde_json::Value = serde_json::from_str(&response.to_text()).unwrap();
    assert_eq!(value["id"], 8);
    assert_eq!(value["result"]["content"][0]["type"], "text");
    assert_eq!(value["result"]["content"][0]["text"], "done");
    assert_eq!(value["result"]["content"].as_array().unwrap().len(), 1);
}

#[test]
fn a_failed_tool_gives_its_message_as_data() {
    let reply = handler().handle_message(
        r#"{"jsonrpc":"2.0","id":9,"method":"tools/call","params":{"name":"list_services"}}"#,
    );
    let pending = match reply {
        Some(Reply::Pending(pending)) => pending,
        _ => panic!("the call does not wait"),
    };
    assert!(matches!(pending.call, ToolCall::ListServices));
    let failure = KtmeError::Storage("disk is full".to_string());
    let message = failure.message();
    let response = pending.complete(Err(failure));
    let value: serde_json::Value = serde_json::from_str(&response.to_text()).unwrap();
    assert_eq!(value["id"], 9);
    assert_eq!(value["error"]["code"], -32000);
    assert_eq!(value["error"]["message"], "Tool execution failed");
    assert_eq!(value["error"]["data"], "Storage operation failed: disk is full");
    assert_eq!(value["error"]["data"], message.as_str());
}

#[test]
fn execute_tool_reads_the_arguments_of_each_tool() {
    let arguments = Json::parse(
        r#"{"service":"s","changes":"c","format":"json","doc_path":"p","content":"t","query":"q","feature":"f","keyword":"k","source":"x"}"#,
    )
    .unwrap();
    assert!(matches!(
        McpProtocolHandler::execute_tool("get_service_mapping", &arguments),
        Ok(ToolCall::GetServiceMapping { service }) if service == "s"
    ));
    assert!(matches!(
        McpProtocolHandler::execute_tool("generate_documentation", &arguments),
        Ok(ToolCall::GenerateDocumentation { service, changes, format })
            if service == "s" && changes == "c" && format.as_deref() == Some("json")
    ));
    assert!(matches!(
        McpProtocolHandler::execute_tool("update_documentation", &arguments),
        Ok(ToolCall::UpdateDocumentation { service, doc_path, content })
            if service == "s" && doc_path == "p" && content == "t"
    ));
    assert!(matches!(
        McpProtocolHandler::execute_tool("search_services", &arguments),
        Ok(ToolCall::SearchServices { query }) if query == "q"
    ));
    assert!(matches!(
        McpProtocolHandler::execute_tool("search_by_feature", &arguments),
        Ok(ToolCall::SearchByFeature { feature }) if feature == "f"
    ));
    assert!(matches!(
        McpProtocolHandler::execute_tool("search_by_keyword", &arguments),
        Ok(ToolCall::SearchByKeyword { keyword }) if keyword == "k"
    ));
    assert!(matches!(
        McpProtocolHandler::execute_tool("automated_documentation_workflow", &arguments),
        Ok(ToolCall::AutomatedDocumentationWorkflow { service, source }) if service == "s" && source == "x"
    ));
    assert!(matches!(
        McpProtocolHandler::execute_tool("detect_service_name", &arguments),
        Ok(ToolCall::DetectServiceName)
    ));
    assert!(matches!(
        McpProtocolHandler::execute_tool("get_repository_info", &arguments),
        Ok(ToolCall::GetRepositoryInfo)
    ));
}

#[test]
fn execute_tool_fills_in_and_refuses() {
    let empty = Json::empty_object();
    assert!(matches!(
        McpProtocolHandler::execute_tool("generate_documentation", &empty),
        Ok(ToolCall::GenerateDocumentation { service, changes, format })
            if service.is_empty() && changes.is_empty() && format.is_none()
    ));
    for (tool, what) in [
        ("read_changes", "Missing 'source' parameter"),
        ("get_service_mapping", "Missing 'service' parameter"),
        ("search_services", "Missing 'query' parameter"),
        ("search_by_feature", "Missing 'feature' parameter"),
        ("search_by_keyword", "Missing 'keyword' parameter"),
    ] {
        match McpProtocolHandler::execute_tool(tool, &empty) {
            Err(KtmeError::InvalidInput(detail)) => assert_eq!(detail, what),
            _ => panic!("the call is not refused"),
        }
    }
    match McpProtocolHandler::execute_tool("nothing", &empty) {
        Err(error) => assert_eq!(error.message(), "Invalid input: Unknown tool: nothing"),
        Ok(_) => panic!("the call is not refused"),
    }
}

#[test]
fn a_response_comes_back_from_its_text() {
    let id = Json::object1(Member::new("k", Json::Int(3)));
    let result = Json::array(vec![Json::Null, Json::Bool(true), Json::string("x")]);
    let response = Response::success(id, result);
    let back = Response::parse(&response.to_text()).unwrap();
    assert_eq!(back.to_text(), response.to_text());
    assert_eq!(back.id.get("k").and_then(|k| k.as_i64()), Some(3));
    assert!(matches!(back.payload, Payload::Success(Json::Array(items)) if items.len() == 3));

    let failure = Response::failure(Json::Int(-7), -32000, "Tool execution failed", "why".to_string());
    let back = Response::parse(&failure.to_text()).unwrap();
    assert_eq!(back.id.as_i64(), Some(-7));
    assert_eq!(back.error_code(), Some(-32000));
    match back.payload {
        Payload::Failure(error) => {
            assert_eq!(error.message, "Tool execution failed");
            assert_eq!(error.data.as_deref(), Some("why"));
        }
        Payload::Success(_) => panic!("no error came back"),
    }
}

#[test]
fn a_response_is_written_with_sorted_members() {
    let response = Response::success(Json::Int(1), Json::empty_object());
    assert_eq!(response.to_text(), r#"{"id":1,"jsonrpc":"2.0","result":{}}"#);
    let failure = Response::failure(Json::Null, -32601, "Method not found", "d".to_string());
    assert_eq!(
        failure.to_text(),
        r#"{"error":{"code":-32601,"data":"d","message":"Method not found"},"id":null,"jsonrpc":"2.0"}"#
    );
    assert!(failure.is_error());
    assert!(!response.is_error());
}

#[test]
fn what_is_no_response_is_not_read_as_one() {
    assert!(Response::parse("not json").is_none());
    assert!(Response::parse(r#"{"id":1,"result":{}}"#).is_none());
    assert!(Response::parse(r#"{"jsonrpc":"2.0","result":{}}"#).is_none());
    assert!(Response::parse(r#"{"jsonrpc":"2.0","id":1}"#).is_none());
    assert!(Response::parse(r#"{"jsonrpc":"2.0","id":1,"error":{"code":"x","message":"m"}}"#).is_none());
    assert!(Response::parse(r#"{"jsonrpc":"1.0","id":1,"result":{}}"#).is_none());
}

#[test]
fn json_is_read_and_written() {
    let doc = Json::parse(r#" {"b":[1,2.5,"x",null,true],"a":{"c":-3}} "#).unwrap();
    assert_eq!(doc.to_text(), r#"{"a":{"c":-3},"b":[1,2.5,"x",null,true]}"#);
    assert_eq!(doc.get("a").and_then(|a| a.get("c")).and_then(|c| c.as_i64()), Some(-3));
    assert!(doc.get("z").is_none());
    assert!(doc.get("b").unwrap().get("a").is_none());
    assert_eq!(doc.get_str("b"), None);
    assert!(Json::parse("null").unwrap().is_null());
    assert!(!Json::parse("0").unwrap().is_null());
    assert!(Json::parse("{").is_none());
    assert!(Json::parse("").is_none());
    assert_eq!(Json::parse(r#""a\nb""#).unwrap().as_str(), Some("a\nb"));
    let copy = doc.clone();
    assert_eq!(copy.to_text(), doc.to_text());
}

#[test]
fn error_messages_have_their_headings() {
    assert_eq!(KtmeError::Git("g".to_string()).message(), "Git operation failed: g");
    assert_eq!(KtmeError::Mcp("m".to_string()).message(), "MCP communication failed: m");
    assert_eq!(KtmeError::Config("c".to_string()).message(), "Configuration error: c");
    assert_eq!(KtmeError::MappingNotFound("s".to_string()).message(), "Service mapping not found: s");
    assert_eq!(KtmeError::InvalidInput("i".to_string()).message(), "Invalid input: i");
    assert_eq!(KtmeError::Io("e".to_string()).message(), "I/O error: e");
    assert_eq!(KtmeError::DocumentExists("d".to_string()).message(), "Document already exists: d");
    assert_eq!(KtmeError::Unknown("".to_string()).message(), "Unknown error: ");
    assert_eq!(KtmeError::ApiError("a".to_string()).duplicate().message(), "API error: a");
}
