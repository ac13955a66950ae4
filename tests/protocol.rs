use claude_code_server::connection::{requests_subprotocol, Connection, ConnectionAction, Delivery, Frame};
use claude_code_server::editor::{
    at_mention_event, code_action_event, command_ids, editor_command, selection_range_event,
    EditorCommand,
};
use claude_code_server::mcp::{
    create_capabilities, method_kind, MCPRequest, MCPResponse, MCPServer, McpResult, Method,
    RequestError, INTERNAL_ERROR, METHOD_NOT_FOUND, PARSE_ERROR,
};
use claude_code_server::selection::{
    apply_event, AtMentionedNotification, Event, SelectionChangedNotification, SelectionInfo,
    SelectionPosition, SelectionState,
};
use serde_json::Value;

fn json(text: &str) -> Value {
    serde_json::from_str(text).unwrap()
}

fn request(id: Option<i64>, method: &str, params: Option<&str>) -> MCPRequest {
    MCPRequest {
        jsonrpc: "2.0".to_string(),
        id: id.map(Value::from),
        method: method.to_string(),
        params: params.map(json),
    }
}

fn pos(line: u32, character: u32) -> SelectionPosition {
    SelectionPosition { line, character }
}

fn respond(action: ConnectionAction) -> MCPResponse {
    match action {
        ConnectionAction::Respond(r) => r,
        _ => panic!("expected an answer"),
    }
}

fn selection_event(text: &str) -> Event {
    code_action_event(
        "/p/a.rs".to_string(),
        "file:///p/a.rs".to_string(),
        pos(1, 2),
        pos(1, 5),
        text.to_string(),
    )
}

#[test]
fn malformed_frame_is_parse_error() {
    let c = Connection::new("srv".to_string(), None, true);
    let r = respond(c.on_frame(Frame::Text(None)));
    let e = r.error.unwrap();
    assert_eq!(e.code, PARSE_ERROR);
    assert_eq!(e.code, -32700);
    assert_eq!(e.message, "Parse error");
    assert!(r.id.is_none());
    assert!(r.result.is_none());
}

#[test]
fn unknown_method_is_method_not_found() {
    let c = Connection::new("srv".to_string(), None, true);
    let r = respond(c.on_frame(Frame::Text(Some(request(Some(7), "resources/list", None)))));
    let e = r.error.unwrap();
    assert_eq!(e.code, METHOD_NOT_FOUND);
    assert_eq!(e.code, -32601);
    assert_eq!(e.message, "Method not found: resources/list");
    assert_eq!(r.id, Some(Value::from(7)));
}

#[test]
fn failing_tool_call_is_internal_error_and_connection_survives() {
    let c = Connection::new("srv".to_string(), None, true);
    let r = respond(c.on_frame(Frame::Text(Some(request(Some(3), "tools/call", None)))));
    let e = r.error.unwrap();
    assert_eq!(e.code, INTERNAL_ERROR);
    assert_eq!(e.code, -32603);
    assert_eq!(e.details.as_deref(), Some("Missing parameters for tools/call"));
    assert_eq!(r.id, Some(Value::from(3)));

    let r = respond(c.on_frame(Frame::Text(Some(request(Some(4), "tools/call", Some("{\"arguments\":{}}"))))));
    assert_eq!(r.error.unwrap().details.as_deref(), Some("Missing tool name"));

    let r = respond(c.on_frame(Frame::Text(Some(request(Some(5), "tools/list", None)))));
    assert!(r.error.is_none());
    assert_eq!(r.id, Some(Value::from(5)));
}

#[test]
fn client_notifications_get_no_answer() {
    let c = Connection::new("srv".to_string(), None, true);
    assert!(matches!(
        c.on_frame(Frame::Text(Some(request(None, "notifications/initialized", None)))),
        ConnectionAction::Ignore
    ));
    // with an id it is answered
    let r = respond(c.on_frame(Frame::Text(Some(request(Some(1), "notifications/initialized", None)))));
    assert_eq!(r.error.unwrap().code, METHOD_NOT_FOUND);
}

#[test]
fn only_close_or_transport_error_ends_connection() {
    let c = Connection::new("srv".to_string(), None, true);
    assert!(matches!(c.on_frame(Frame::Close), ConnectionAction::Close));
    assert!(matches!(c.on_frame(Frame::TransportError), ConnectionAction::Close));
    assert!(matches!(c.on_frame(Frame::Other), ConnectionAction::Ignore));
}

#[test]
fn initialize_declares_capabilities_and_identity() {
    let s = MCPServer::new("srv".to_string());
    let r = s.handle_request(request(Some(1), "initialize", Some("{}"))).ok().unwrap();
    assert_eq!(r.jsonrpc, "2.0");
    assert!(r.error.is_none());
    match r.result.unwrap() {
        McpResult::Initialize { protocol_version, capabilities, server_info } => {
            assert_eq!(protocol_version, "2025-03-26");
            assert_eq!(capabilities, create_capabilities());
            assert_eq!(capabilities.tools.unwrap().list_changed, Some(true));
            assert_eq!(capabilities.prompts.unwrap().list_changed, Some(false));
            assert!(capabilities.logging.is_some());
            assert_eq!(server_info.name, "srv");
            assert_eq!(server_info.version, "0.1.0");
        }
        _ => panic!("wrong result"),
    }
}

#[test]
fn static_methods() {
    let s = MCPServer::new("srv".to_string());
    let r = s.handle_request(request(Some(1), "tools/list", None)).ok().unwrap();
    assert!(matches!(r.result, Some(McpResult::ToolsList { ref tools }) if tools.is_empty()));
    let r = s.handle_request(request(Some(2), "logging/setLevel", Some("{\"level\":\"debug\"}"))).ok().unwrap();
    assert!(matches!(r.result, Some(McpResult::Empty)));
    let r = s.handle_request(request(Some(3), "prompts/list", None)).ok().unwrap();
    assert!(matches!(r.result, Some(McpResult::PromptsList)));
    let r = s.handle_request(request(Some(4), "prompts/get", Some("{\"name\":\"review\"}"))).ok().unwrap();
    match r.result.unwrap() {
        McpResult::PromptsGet { description } => assert_eq!(description, "Prompt: review"),
        _ => panic!("wrong result"),
    }
    let f = s.handle_request(request(Some(5), "prompts/get", None)).err().unwrap();
    assert_eq!(f.error, RequestError::MissingPromptParams);
    assert_eq!(f.id, Some(Value::from(5)));
    let f = s.handle_request(request(Some(6), "prompts/get", Some("{}"))).err().unwrap();
    assert_eq!(f.error, RequestError::MissingPromptName);
    assert_eq!(f.error.details(), "Missing prompt name");
}

#[test]
fn method_names() {
    assert_eq!(method_kind("initialize"), Method::Initialize);
    assert_eq!(method_kind("tools/call"), Method::ToolsCall);
    assert_eq!(method_kind("prompts/get"), Method::PromptsGet);
    assert_eq!(method_kind("tools/CALL"), Method::Unknown);
}

#[test]
fn tool_call_wraps_content() {
    let s = MCPServer::with_worktree("srv".to_string(), Some("/home/u/proj".to_string()));
    let r = s
        .handle_request(request(Some(9), "tools/call", Some("{\"name\":\"getDiagnostics\"}")))
        .ok()
        .unwrap();
    match r.result.unwrap() {
        McpResult::ToolsCall { content, is_error } => {
            assert!(!is_error);
            assert_eq!(content.len(), 1);
            assert_eq!(content[0].type_, "text");
            assert_eq!(content[0].text, "{\"diagnostics\":[]}");
        }
        _ => panic!("wrong result"),
    }
}

#[test]
fn bus_events_update_replica_and_are_forwarded() {
    let mut c = Connection::new("srv".to_string(), None, true);
    let a = c.on_delivery(Delivery::Event(selection_event("abc")));
    assert!(matches!(a, ConnectionAction::Forward(Event::SelectionChanged(_))));
    let st = c.server.selection.clone().unwrap();
    assert_eq!(st.text, "abc");
    assert_eq!(st.selection.start, pos(1, 2));
    assert_eq!(st.selection.end, pos(1, 5));
    assert!(!st.selection.is_empty);

    let mention = Event::AtMentioned(AtMentionedNotification {
        file_path: "/p/b.rs".to_string(),
        line_start: 1,
        line_end: 2,
    });
    assert!(matches!(c.on_delivery(Delivery::Event(mention)), ConnectionAction::Forward(Event::AtMentioned(_))));
    assert_eq!(c.server.selection.clone().unwrap().text, "abc");

    let r = respond(c.on_frame(Frame::Text(Some(request(
        Some(1),
        "tools/call",
        Some("{\"name\":\"getCurrentSelection\"}"),
    )))));
    match r.result.unwrap() {
        McpResult::ToolsCall { content, .. } => assert_eq!(
            content[0].text,
            "{\"filePath\":\"/p/a.rs\",\"fileUrl\":\"file:///p/a.rs\",\"selection\":{\"end\":{\"character\":5,\"line\":1},\"isEmpty\":false,\"start\":{\"character\":2,\"line\":1}},\"success\":true,\"text\":\"abc\"}"
        ),
        _ => panic!("wrong result"),
    }
}

#[test]
fn lagging_subscription_is_dropped_not_the_connection() {
    let mut c = Connection::new("srv".to_string(), None, true);
    assert!(matches!(c.on_delivery(Delivery::Lagged), ConnectionAction::Ignore));
    assert!(!c.subscribed);
    assert!(matches!(c.on_delivery(Delivery::Event(selection_event("x"))), ConnectionAction::Ignore));
    assert!(c.server.selection.is_none());
    let r = respond(c.on_frame(Frame::Text(Some(request(Some(1), "tools/list", None)))));
    assert!(r.error.is_none());

    let mut c = Connection::new("srv".to_string(), None, true);
    assert!(matches!(c.on_delivery(Delivery::Closed), ConnectionAction::Ignore));
    assert!(!c.subscribed);
}

#[test]
fn bus_fan_out_in_publish_order() {
    let (tx, mut first) = tokio::sync::broadcast::channel::<Event>(16);
    let mut second_conn = Connection::new("srv".to_string(), None, true);
    let mut first_conn = Connection::new("srv".to_string(), None, true);
    let mut early = tx.subscribe();
    tx.send(selection_event("E1")).unwrap();
    let mut late = tx.subscribe();
    tx.send(selection_event("E2")).unwrap();

    let mut texts_of = |rx: &mut tokio::sync::broadcast::Receiver<Event>, conn: &mut Connection| {
        let mut seen = Vec::new();
        while let Ok(e) = rx.try_recv() {
            if let ConnectionAction::Forward(Event::SelectionChanged(n)) = conn.on_delivery(Delivery::Event(e)) {
                seen.push(n.text);
            }
        }
        seen
    };
    assert_eq!(texts_of(&mut first, &mut first_conn), vec!["E1", "E2"]);
    assert_eq!(texts_of(&mut early, &mut second_conn), vec!["E1", "E2"]);
    let mut late_conn = Connection::new("srv".to_string(), None, true);
    assert_eq!(texts_of(&mut late, &mut late_conn), vec!["E2"]);
    assert_eq!(late_conn.server.selection.unwrap().text, "E2");
}

#[test]
fn subprotocol_negotiation() {
    assert!(requests_subprotocol("mcp"));
    assert!(requests_subprotocol("chat, mcp"));
    assert!(!requests_subprotocol("chat"));
    assert!(!requests_subprotocol(""));
}

#[test]
fn editor_commands() {
    let ns = "assist";
    assert_eq!(editor_command(ns, "assist.explain"), EditorCommand::Explain);
    assert_eq!(editor_command(ns, "assist.improve"), EditorCommand::Improve);
    assert_eq!(editor_command(ns, "assist.fix"), EditorCommand::Fix);
    assert_eq!(editor_command(ns, "assist.at-mention"), EditorCommand::AtMention);
    assert_eq!(editor_command(ns, "other.fix"), EditorCommand::Unknown);
    assert_eq!(
        command_ids(ns),
        vec!["assist.explain", "assist.improve", "assist.fix", "assist.at-mention"]
    );
}

#[test]
fn at_mention_arguments() {
    assert!(at_mention_event(&vec![]).is_none());
    let args = vec![json("{\"filePath\":\"/p/a.rs\",\"lineStart\":3,\"lineEnd\":9}")];
    match at_mention_event(&args) {
        Some(Event::AtMentioned(n)) => {
            assert_eq!(n.file_path, "/p/a.rs");
            assert_eq!(n.line_start, 3);
            assert_eq!(n.line_end, 9);
        }
        _ => panic!("expected a mention"),
    }
    match at_mention_event(&vec![json("{\"lineStart\":4294967297}")]) {
        Some(Event::AtMentioned(n)) => {
            assert_eq!(n.file_path, "");
            assert_eq!(n.line_start, 1);
            assert_eq!(n.line_end, 0);
        }
        _ => panic!("expected a mention"),
    }
}

#[test]
fn selection_events() {
    match selection_event("t") {
        Event::SelectionChanged(SelectionChangedNotification { selection, .. }) => {
            assert_eq!(selection, SelectionInfo { start: pos(1, 2), end: pos(1, 5), is_empty: false })
        }
        _ => panic!(),
    }
    let e = code_action_event("p".to_string(), "u".to_string(), pos(2, 2), pos(2, 2), String::new());
    assert!(matches!(e, Event::SelectionChanged(ref n) if n.selection.is_empty));
    assert_eq!(e.method(), "selection_changed");
    let e = selection_range_event("p".to_string(), "u".to_string(), pos(4, 7), "x".to_string());
    match e {
        Event::SelectionChanged(n) => {
            assert_eq!(n.selection.end, pos(4, 8));
            assert!(n.selection.is_empty);
            assert_eq!(n.text, "x");
        }
        _ => panic!(),
    }
    let m = Event::AtMentioned(AtMentionedNotification { file_path: String::new(), line_start: 0, line_end: 0 });
    assert_eq!(m.method(), "at_mentioned");

    let mut replica: Option<SelectionState> = None;
    apply_event(&mut replica, &m);
    assert!(replica.is_none());
    apply_event(&mut replica, &selection_event("one"));
    apply_event(&mut replica, &selection_event("two"));
    assert_eq!(replica.unwrap().text, "two");
}
