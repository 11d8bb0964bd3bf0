use sqlite_mcp::connection::{finish_disconnect, Connection, Disconnect};
use sqlite_mcp::error::BridgeError;
use sqlite_mcp::headers::{bearer_token_of, plan_connect, plan_headers};
use sqlite_mcp::payload::{error_json, escape_json_text, is_blank, version};
use sqlite_mcp::reply::{call_reply, call_result_json, call_tool_reply, list_tools_reply, tools_reply};
use sqlite_mcp::request::{plan_call, prepare_call};
use rmcp::model::{CallToolResult, Content, ListToolsResult};

fn input_error_text<T>(r: Result<T, BridgeError>) -> String {
    match r {
        Err(BridgeError::InvalidInput(m)) => m,
        _ => panic!("expected an input error"),
    }
}

#[test]
fn list_tools_before_connect_reports_not_connected() {
    let conn: Connection<u32> = Connection::new();
    let err = conn.session().err().unwrap();
    assert!(matches!(err, BridgeError::NotConnected));
    assert_eq!(err.to_json(), r#"{"error":"Not connected. Call connect() first"}"#);
    assert!(!conn.is_connected());
}

#[test]
fn call_tool_while_idle_reports_not_connected_whatever_the_inputs() {
    let conn: Connection<u32> = Connection::new();
    assert!(matches!(prepare_call(&conn, "echo", r#"{"msg":"hi"}"#), Err(BridgeError::NotConnected)));
    assert!(matches!(prepare_call(&conn, "", "not json"), Err(BridgeError::NotConnected)));
    assert!(!conn.is_connected());
}

#[test]
fn connect_success_replaces_the_previous_session() {
    let mut conn: Connection<u32> = Connection::new();
    let (previous, plan) = conn.begin_connect("http://test/sse", None, true);
    assert!(previous.is_none());
    assert!(plan.is_ok());
    assert!(conn.finish_connect(Ok(1)).is_ok());
    assert_eq!(conn.session().ok(), Some(&1));
    let (previous, _) = conn.begin_connect("http://test/mcp", None, false);
    assert_eq!(previous, Some(1));
    assert!(!conn.is_connected());
    assert!(conn.finish_connect(Ok(2)).is_ok());
    assert_eq!(conn.session().ok(), Some(&2));
}

#[test]
fn failed_connect_leaves_no_session() {
    let mut conn: Connection<u32> = Connection::new();
    conn.finish_connect(Ok(1)).unwrap();
    let (previous, _) = conn.begin_connect("http://test/sse", None, true);
    assert_eq!(previous, Some(1));
    let r = conn.finish_connect(Err(BridgeError::Protocol("Failed to connect to MCP server".to_string())));
    assert!(matches!(r, Err(BridgeError::Protocol(_))));
    assert!(!conn.is_connected());
    assert!(matches!(conn.session(), Err(BridgeError::NotConnected)));
}

#[test]
fn disconnect_takes_the_session_and_reports_cancel_failures() {
    let mut conn: Connection<u32> = Connection::new();
    conn.finish_connect(Ok(3)).unwrap();
    assert!(matches!(conn.begin_disconnect(), Disconnect::Cancel(3)));
    assert!(!conn.is_connected());
    assert!(finish_disconnect(Some(Ok(()))).is_ok());
    match finish_disconnect(Some(Err("join failed".to_string()))) {
        Err(BridgeError::Protocol(m)) => assert_eq!(m, "Failed to disconnect: join failed"),
        _ => panic!("expected a protocol error"),
    }
}

#[test]
fn disconnect_while_idle_and_repeated_disconnect_succeed() {
    let mut conn: Connection<u32> = Connection::new();
    assert!(matches!(conn.begin_disconnect(), Disconnect::AlreadyIdle));
    assert!(finish_disconnect(None).is_ok());
    conn.finish_connect(Ok(5)).unwrap();
    assert!(matches!(conn.begin_disconnect(), Disconnect::Cancel(5)));
    assert!(finish_disconnect(Some(Ok(()))).is_ok());
    assert!(matches!(conn.begin_disconnect(), Disconnect::AlreadyIdle));
    assert!(finish_disconnect(None).is_ok());
    assert!(!conn.is_connected());
}

#[test]
fn authorization_goes_to_its_own_field_for_http_transport() {
    let plan = plan_connect(
        "http://test/mcp",
        Some(r#"{"Authorization":"Bearer T","X-Team":"blue"}"#),
        false,
    )
    .unwrap();
    assert_eq!(plan.url, "http://test/mcp");
    assert!(!plan.legacy_transport);
    assert_eq!(plan.authorization.as_deref(), Some("T"));
    assert_eq!(plan.headers, vec![("X-Team".to_string(), "blue".to_string())]);
}

#[test]
fn authorization_in_another_scheme_stays_a_header() {
    let plan = plan_connect("http://test/mcp", Some(r#"{"Authorization":"Basic dTpw"}"#), false).unwrap();
    assert_eq!(plan.authorization, None);
    assert_eq!(plan.headers, vec![("Authorization".to_string(), "Basic dTpw".to_string())]);
}

#[test]
fn bearer_token_is_split_off() {
    assert_eq!(bearer_token_of("Bearer T").as_deref(), Some("T"));
    assert_eq!(bearer_token_of("Bearer ").as_deref(), Some(""));
    assert_eq!(bearer_token_of("Bearer"), None);
    assert_eq!(bearer_token_of("bearer T"), None);
    assert_eq!(bearer_token_of("Basic T"), None);
}

#[test]
fn legacy_transport_keeps_authorization_as_a_header() {
    let plan = plan_connect(
        "http://test/sse",
        Some(r#"{"X-Team":"blue","Authorization":"Bearer T"}"#),
        true,
    )
    .unwrap();
    assert!(plan.legacy_transport);
    assert_eq!(plan.authorization, None);
    assert_eq!(
        plan.headers,
        vec![
            ("Authorization".to_string(), "Bearer T".to_string()),
            ("X-Team".to_string(), "blue".to_string()),
        ]
    );
}

#[test]
fn blank_or_missing_headers_give_no_headers() {
    let plan = plan_connect("http://test/sse", Some("   "), true).unwrap();
    assert!(plan.headers.is_empty());
    let plan = plan_connect("http://test/sse", None, false).unwrap();
    assert!(plan.headers.is_empty());
    assert_eq!(plan.authorization, None);
}

#[test]
fn malformed_headers_are_an_input_error() {
    assert_eq!(input_error_text(plan_connect("http://test/sse", Some("{not json"), true)), "Invalid headers JSON");
    assert_eq!(input_error_text(plan_connect("http://test/sse", Some(r#"{"A":1}"#), true)), "Invalid headers JSON");
    assert_eq!(input_error_text(plan_connect("http://test/sse", Some(r#"["A"]"#), true)), "Invalid headers JSON");
}

#[test]
fn empty_url_is_an_input_error() {
    assert_eq!(input_error_text(plan_connect("", None, true)), "Server URL is empty");
}

#[test]
fn invalid_header_names_and_values_are_left_out() {
    let entries = vec![
        ("bad name".to_string(), "x".to_string()),
        ("X-Ok".to_string(), "fine\tvalue".to_string()),
        ("X-Newline".to_string(), "a\nb".to_string()),
        ("".to_string(), "x".to_string()),
        ("X-Del".to_string(), "a\u{7f}".to_string()),
        ("X-Utf".to_string(), "caf\u{e9}".to_string()),
        ("X-Caf\u{e9}".to_string(), "x".to_string()),
        ("x".repeat(65536), "x".to_string()),
        ("Accept".to_string(), "*/*".to_string()),
    ];
    let (auth, kept) = plan_headers(&entries, true);
    assert_eq!(auth, None);
    assert_eq!(
        kept,
        vec![
            ("X-Ok".to_string(), "fine\tvalue".to_string()),
            ("X-Utf".to_string(), "caf\u{e9}".to_string()),
            ("Accept".to_string(), "*/*".to_string()),
        ]
    );
}

#[test]
fn call_arguments_are_parsed_into_an_object() {
    let plan = plan_call("echo", r#"{"msg":"hi","n":2}"#).unwrap();
    assert_eq!(plan.name, "echo");
    let args = plan.arguments.unwrap();
    assert_eq!(args.len(), 2);
    assert_eq!(args["msg"], "hi");
    assert_eq!(args["n"], 2);
    assert_eq!(serde_json::to_string(&args).unwrap(), r#"{"msg":"hi","n":2}"#);
}

#[test]
fn blank_call_arguments_mean_none() {
    assert!(plan_call("echo", "").unwrap().arguments.is_none());
    assert!(plan_call("echo", " \n ").unwrap().arguments.is_none());
}

#[test]
fn bad_call_inputs_are_input_errors() {
    assert_eq!(input_error_text(plan_call("", "{}")), "Tool name is empty");
    assert_eq!(input_error_text(plan_call("echo", "{oops")), "Invalid JSON arguments");
    assert_eq!(input_error_text(plan_call("echo", "[1,2]")), "Invalid JSON arguments");
    assert_eq!(input_error_text(plan_call("echo", "\"text\"")), "Invalid JSON arguments");
}

#[test]
fn connected_call_is_prepared_with_the_session() {
    let mut conn: Connection<u32> = Connection::new();
    conn.finish_connect(Ok(9)).unwrap();
    let (session, plan) = prepare_call(&conn, "echo", r#"{"msg":"hi"}"#).unwrap();
    assert_eq!(*session, 9);
    assert_eq!(plan.arguments.unwrap()["msg"], "hi");
    assert_eq!(input_error_text(prepare_call(&conn, "echo", "nope")), "Invalid JSON arguments");
}

#[test]
fn empty_tool_list_reply() {
    assert_eq!(list_tools_reply(Ok(ListToolsResult::default())).unwrap(), r#"{"tools":[]}"#);
}

#[test]
fn echo_tool_reply_is_wrapped_in_result() {
    let result = CallToolResult {
        content: vec![Content::text("hi")],
        structured_content: None,
        is_error: None,
        meta: None,
    };
    assert_eq!(
        call_tool_reply(Ok(result)).unwrap(),
        r#"{"result":{"content":[{"type":"text","text":"hi"}]}}"#
    );
}

#[test]
fn tool_reported_errors_stay_in_the_result() {
    let reply = call_tool_reply(Ok(CallToolResult::error(vec![Content::text("boom")]))).unwrap();
    assert_eq!(reply, r#"{"result":{"content":[{"type":"text","text":"boom"}],"isError":true}}"#);
}

#[test]
fn failed_requests_are_protocol_errors() {
    match list_tools_reply(Err(rmcp::ServiceError::TransportClosed)) {
        Err(BridgeError::Protocol(m)) => assert_eq!(m, "Failed to list tools: Transport closed"),
        _ => panic!("expected a protocol error"),
    }
    match call_tool_reply(Err(rmcp::ServiceError::TransportClosed)) {
        Err(BridgeError::Protocol(m)) => assert_eq!(m, "Failed to call tool: Transport closed"),
        _ => panic!("expected a protocol error"),
    }
}

#[test]
fn a_reply_of_the_wrong_kind_is_reported_as_such() {
    match list_tools_reply(Err(rmcp::ServiceError::UnexpectedResponse)) {
        Err(BridgeError::Protocol(m)) => assert_eq!(m, "Unexpected response type"),
        _ => panic!("expected a protocol error"),
    }
    match call_tool_reply(Err(rmcp::ServiceError::UnexpectedResponse)) {
        Err(BridgeError::Protocol(m)) => assert_eq!(m, "Unexpected response type"),
        _ => panic!("expected a protocol error"),
    }
}

#[test]
fn call_result_json_wraps_the_text() {
    assert_eq!(call_result_json(r#"{"content":[]}"#), r#"{"result":{"content":[]}}"#);
}

#[test]
fn escaping_covers_quotes_backslashes_and_controls() {
    assert_eq!(escape_json_text("plain"), "plain");
    assert_eq!(escape_json_text(""), "");
    assert_eq!(escape_json_text("a\"b\\c"), r#"a\"b\\c"#);
    assert_eq!(escape_json_text("l1\nl2\r\t"), r#"l1\nl2\r\t"#);
    assert_eq!(escape_json_text("\u{1}\u{1f}"), r#"\u0001\u001f"#);
    assert_eq!(escape_json_text("caf\u{e9}"), "caf\u{e9}");
}

#[test]
fn error_payloads_are_valid_json() {
    let text = error_json("bad \"input\"\n");
    assert_eq!(text, r#"{"error":"bad \"input\"\n"}"#);
    let v: serde_json::Value = serde_json::from_str(&text).unwrap();
    assert_eq!(v["error"], "bad \"input\"\n");
    assert_eq!(BridgeError::RuntimeUnavailable.to_json(), r#"{"error":"Runtime worker thread has died"}"#);
    assert_eq!(BridgeError::Serialization("x".to_string()).message(), "x");
}

#[test]
fn blank_text_is_only_whitespace() {
    assert!(is_blank(""));
    assert!(is_blank(" \t\r\n"));
    assert!(is_blank("\u{a0}\u{3000}"));
    assert!(!is_blank(" x "));
    assert!(!is_blank("{}"));
}

#[test]
fn version_is_reported() {
    assert_eq!(version(), "0.1.4");
}

#[test]
fn encoded_replies_are_passed_on_or_reported() {
    assert_eq!(tools_reply(Ok(r#"{"tools":[]}"#.to_string())).unwrap(), r#"{"tools":[]}"#);
    match tools_reply(Err("key must be a string".to_string())) {
        Err(BridgeError::Serialization(m)) => assert_eq!(m, "Failed to serialize tools: key must be a string"),
        _ => panic!("expected a serialization error"),
    }
    assert_eq!(call_reply(Ok(r#"{"content":[]}"#.to_string())).unwrap(), r#"{"result":{"content":[]}}"#);
    match call_reply(Err("bad".to_string())) {
        Err(BridgeError::Serialization(m)) => assert_eq!(m, "Failed to serialize tool result: bad"),
        _ => panic!("expected a serialization error"),
    }
}
