use mcp_citadel::http::{direct_response_body, sse_result_event};
use mcp_citadel::router::{connection_reply, connection_target, missing_name_error_line};
use mcp_citadel::session::SessionStore;
use mcp_citadel::ws::{ws_parse_error_reply, ws_route_error_reply};

#[test]
fn direct_success_body_is_the_reply_byte_for_byte() {
    let reply = b"{\"jsonrpc\":\"2.0\",\"id\":2,\"result\":{}}\n".to_vec();
    let body = direct_response_body(&Ok(reply.clone()), &None, "alpha");
    assert_eq!(body, reply);
}

#[test]
fn direct_routing_error_names_the_server() {
    let result: Result<Vec<u8>, String> = Err("Server not found: x".to_string());
    let body = direct_response_body(&result, &Some("2".to_string()), "x");
    let expected = "{\"jsonrpc\":\"2.0\",\"id\":2,\"error\":{\"code\":-32603,\
                    \"message\":\"Server not found: x\",\"data\":{\"type\":\"routing_error\",\
                    \"server\":\"x\"}}}";
    assert_eq!(String::from_utf8(body).unwrap(), expected);
}

#[test]
fn direct_routing_error_without_id_echoes_null() {
    let result: Result<Vec<u8>, String> = Err("boom".to_string());
    let body = direct_response_body(&result, &None, "a");
    let text = String::from_utf8(body).unwrap();
    assert!(text.starts_with("{\"jsonrpc\":\"2.0\",\"id\":null,"));
}

#[test]
fn sse_error_events_carry_the_classified_code() {
    let cases = [
        ("Server not found: beta", "-32001", "server_not_found"),
        ("request timeout after 5s", "-32002", "timeout"),
        ("child crashed unexpectedly", "-32003", "server_crash"),
        ("something else went wrong", "-32603", "internal_error"),
    ];
    for (msg, code, typ) in cases {
        let mut store = SessionStore::new();
        store.create(0);
        let s = &mut store.sessions[0];
        s.next_event_id();
        let result: Result<Vec<u8>, String> = Err(msg.to_string());
        let ev = sse_result_event(s, 1, &result, &None, "beta");
        assert_eq!(ev.id, None);
        assert_eq!(ev.event_type.as_deref(), Some("error"));
        let text = String::from_utf8(ev.data).unwrap();
        assert!(text.contains(&format!("\"code\":{}", code)), "{}", text);
        assert!(text.contains(&format!("\"type\":\"{}\"", typ)), "{}", text);
        assert!(s.message_buffer.is_empty(), "error events are not buffered");
    }
}

#[test]
fn sse_reply_that_is_not_utf8_becomes_a_parse_error_event() {
    let mut store = SessionStore::new();
    store.create(0);
    let s = &mut store.sessions[0];
    s.next_event_id();
    let result: Result<Vec<u8>, String> = Ok(vec![0xff, 0xfe, 0x0a]);
    let ev = sse_result_event(s, 1, &result, &None, "alpha");
    assert_eq!(ev.id, None);
    assert_eq!(ev.event_type.as_deref(), Some("error"));
    assert_eq!(
        String::from_utf8(ev.data).unwrap(),
        "{\"code\":-32700,\"message\":\"Parse error: Invalid UTF-8 response\",\
         \"data\":{\"type\":\"parse_error\"}}"
    );
    assert!(s.message_buffer.is_empty());
}

#[test]
fn sse_reply_is_trimmed_and_buffered() {
    let mut store = SessionStore::new();
    store.create(0);
    let s = &mut store.sessions[0];
    s.next_event_id();
    let result: Result<Vec<u8>, String> = Ok(b"{\"ok\":true}  \r\n".to_vec());
    let ev = sse_result_event(s, 1, &result, &None, "alpha");
    assert_eq!(ev.id, Some(1));
    assert_eq!(ev.data, b"{\"ok\":true}".to_vec());
    assert_eq!(s.message_buffer.len(), 1);
    assert_eq!(s.message_buffer[0].event_id, 1);
    assert_eq!(s.message_buffer[0].data, "{\"ok\":true}");
}

#[test]
fn connection_keeps_its_first_binding() {
    let cached = connection_target(None, br#"{"method":"github/tools/list"}"#);
    assert_eq!(cached.as_deref(), Some("github"));
    let kept = connection_target(cached, br#"{"method":"other/call"}"#);
    assert_eq!(kept.as_deref(), Some("github"));
}

#[test]
fn line_without_a_name_gets_the_missing_name_error() {
    assert_eq!(connection_target(None, b"garbage"), None);
    let line = missing_name_error_line();
    assert_eq!(
        String::from_utf8(line).unwrap(),
        "{\"jsonrpc\":\"2.0\",\"id\":null,\"error\":{\"code\":-32602,\
         \"message\":\"Server name not specified\"}}\n"
    );
}

#[test]
fn connection_reply_passes_the_line_through_or_reports() {
    let reply = b"{\"id\":1}\n".to_vec();
    assert_eq!(connection_reply(&Ok(reply.clone())), reply);
    let err = connection_reply(&Err("Server not found: x".to_string()));
    assert_eq!(
        String::from_utf8(err).unwrap(),
        "{\"jsonrpc\":\"2.0\",\"id\":null,\"error\":{\"code\":-32603,\
         \"message\":\"Server not found: x\"}}\n"
    );
}

#[test]
fn ws_route_error_echoes_the_id_and_escapes_the_message() {
    let reply = ws_route_error_reply(&Some("7".to_string()), "bad \"thing\"");
    assert_eq!(
        String::from_utf8(reply).unwrap(),
        "{\"jsonrpc\":\"2.0\",\"id\":7,\"error\":{\"code\":-32603,\
         \"message\":\"bad \\\"thing\\\"\"}}"
    );
}

#[test]
fn ws_parse_error_escapes_control_characters() {
    let reply = ws_parse_error_reply("line\nbreak");
    assert_eq!(
        String::from_utf8(reply).unwrap(),
        "{\"jsonrpc\":\"2.0\",\"error\":{\"code\":-32700,\
         \"message\":\"line\\u000abreak\"}}"
    );
}

#[test]
fn ws_target_defaults_to_unknown() {
    let fields = mcp_citadel::message::MessageFields {
        valid: true,
        server_param: None,
        method: Some("tools/list".to_string()),
        id_json: None,
    };
    let (server, method) = mcp_citadel::ws::ws_target(&fields);
    assert_eq!(server, "unknown");
    assert_eq!(method, "tools/list");
}
