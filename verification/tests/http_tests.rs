use mcp_citadel::http::{
    get_decision, needs_streaming, post_decision, session_bootstrap_event, sse_result_event,
    validate_origin, PostDecision, RequestHead,
};
use mcp_citadel::session::SessionStore;

fn head(
    origin: Option<&str>,
    version: Option<&str>,
    session_id: Option<&str>,
    last_event_id: Option<&str>,
) -> RequestHead {
    RequestHead {
        origin: origin.map(str::to_string),
        protocol_version: version.map(str::to_string),
        session_id: session_id.map(str::to_string),
        last_event_id: last_event_id.map(str::to_string),
    }
}

#[test]
fn streaming_methods_are_exactly_the_six() {
    for m in [
        "initialize",
        "initialized",
        "sampling/createMessage",
        "roots/list_changed",
        "notifications/cancelled",
        "notifications/progress",
    ] {
        assert!(needs_streaming(m), "{} should stream", m);
    }
    for m in ["tools/list", "", "initializeX", "sampling/create", "github/tools/list"] {
        assert!(!needs_streaming(m), "{} should not stream", m);
    }
}

#[test]
fn origin_guard_accepts_local_and_null_origins() {
    assert!(validate_origin(None));
    assert!(validate_origin(Some("http://localhost:3000")));
    assert!(validate_origin(Some("http://127.0.0.1:8080")));
    assert!(validate_origin(Some("null")));
}

#[test]
fn origin_guard_rejects_foreign_origins() {
    assert!(!validate_origin(Some("https://evil.example.com")));
    assert!(!validate_origin(Some("http://192.168.1.5")));
}

#[test]
fn post_with_foreign_origin_is_403_regardless_of_body() {
    let mut store = SessionStore::new();
    let h = head(Some("https://evil.example.com"), None, None, None);
    let d = post_decision(&mut store, &h, b"{\"method\":\"initialize\"}", 0);
    assert!(matches!(d, PostDecision::Reject { status: 403 }));
    assert_eq!(store.len(), 0);
}

#[test]
fn post_with_unknown_protocol_version_is_400() {
    let mut store = SessionStore::new();
    let h = head(None, Some("2020-01-01"), None, None);
    let d = post_decision(&mut store, &h, b"{\"method\":\"tools/list\"}", 0);
    assert!(matches!(d, PostDecision::Reject { status: 400 }));
}

#[test]
fn both_known_protocol_versions_pass() {
    for v in ["2025-06-18", "2025-03-26"] {
        let mut store = SessionStore::new();
        let h = head(None, Some(v), None, None);
        let d = post_decision(
            &mut store,
            &h,
            b"{\"method\":\"initialize\",\"params\":{\"server\":\"alpha\"}}",
            0,
        );
        assert!(matches!(d, PostDecision::Stream { .. }), "version {} refused", v);
    }
}

#[test]
fn post_with_unparsable_body_is_400() {
    let mut store = SessionStore::new();
    let d = post_decision(&mut store, &head(None, None, None, None), b"not json", 0);
    assert!(matches!(d, PostDecision::Reject { status: 400 }));
}

#[test]
fn post_without_session_header_is_400_and_unknown_session_404() {
    let mut store = SessionStore::new();
    let body = b"{\"method\":\"tools/list\",\"params\":{\"server\":\"alpha\"}}";
    let d = post_decision(&mut store, &head(None, None, None, None), body, 0);
    assert!(matches!(d, PostDecision::Reject { status: 400 }));
    let d = post_decision(&mut store, &head(None, None, Some("nope"), None), body, 0);
    assert!(matches!(d, PostDecision::Reject { status: 404 }));
}

#[test]
fn initialize_then_direct_call() {
    let mut store = SessionStore::new();
    let body = br#"{"jsonrpc":"2.0","id":1,"method":"initialize","params":{"server":"alpha"}}"#;
    let d = post_decision(&mut store, &head(None, None, None, None), body, 100);
    let (server, session_id, event_id, is_initialize) = match d {
        PostDecision::Stream { server, session_id, event_id, is_initialize, id_json } => {
            assert_eq!(id_json.as_deref(), Some("1"));
            (server, session_id, event_id, is_initialize)
        },
        other => panic!("expected a stream, got {:?}", discriminant_name(&other)),
    };
    assert_eq!(server, "alpha");
    assert_eq!(event_id, 1);
    assert!(is_initialize);
    assert_eq!(store.len(), 1);

    // The stream opens with the session bootstrap event.
    let boot = session_bootstrap_event(&session_id);
    assert_eq!(boot.id, None);
    assert_eq!(boot.event_type.as_deref(), Some("session"));
    assert_eq!(
        boot.data,
        format!("{{\"sessionId\":\"{}\"}}", session_id).into_bytes()
    );

    // The child's reply arrives and becomes event 1.
    let idx = store.find(&session_id).expect("session present");
    let reply: Result<Vec<u8>, String> = Ok(b"{\"result\":{}}\n".to_vec());
    let ev = sse_result_event(&mut store.sessions[idx], event_id, &reply, &Some("1".into()), "alpha");
    assert_eq!(ev.id, Some(1));
    assert_eq!(ev.event_type, None);
    assert_eq!(ev.data, b"{\"result\":{}}".to_vec());
    assert_eq!(store.sessions[idx].message_buffer.len(), 1);

    // A follow-up with the session header and a plain method is direct.
    let follow = br#"{"jsonrpc":"2.0","id":2,"method":"tools/list","params":{"server":"alpha"}}"#;
    let d = post_decision(&mut store, &head(None, None, Some(&session_id), None), follow, 200);
    match d {
        PostDecision::Direct { server, session_id: sid2, id_json } => {
            assert_eq!(server, "alpha");
            assert_eq!(sid2, session_id);
            assert_eq!(id_json.as_deref(), Some("2"));
        },
        _ => panic!("expected a direct reply"),
    }
    // A direct request marks the session active.
    assert_eq!(store.sessions[idx].last_activity_ms, 200);
}

fn discriminant_name(d: &PostDecision) -> &'static str {
    match d {
        PostDecision::Reject { .. } => "Reject",
        PostDecision::Direct { .. } => "Direct",
        PostDecision::Stream { .. } => "Stream",
    }
}

#[test]
fn message_without_any_name_is_400_and_creates_no_session() {
    let mut store = SessionStore::new();
    let body = br#"{"jsonrpc":"2.0","id":1}"#;
    let d = post_decision(&mut store, &head(None, None, None, None), body, 0);
    assert!(matches!(d, PostDecision::Reject { status: 400 }));
    assert_eq!(store.len(), 0);
}

#[test]
fn missing_server_name_is_400_even_for_an_unknown_session() {
    // The server-name check precedes session resolution.
    let mut store = SessionStore::new();
    let body = br#"{"jsonrpc":"2.0","id":1}"#;
    let d = post_decision(&mut store, &head(None, None, Some("nope"), None), body, 0);
    assert!(matches!(d, PostDecision::Reject { status: 400 }));
}

#[test]
fn get_requires_a_known_session() {
    let mut store = SessionStore::new();
    assert!(matches!(
        get_decision(&mut store, &head(Some("https://evil.example.com"), None, None, None), 0),
        Err(403)
    ));
    assert!(matches!(get_decision(&mut store, &head(None, None, None, None), 0), Err(400)));
    assert!(matches!(get_decision(&mut store, &head(None, None, Some("nope"), None), 0), Err(404)));
}

#[test]
fn get_replays_the_events_after_the_last_seen_id() {
    let mut store = SessionStore::new();
    let sid = store.create(0);
    {
        let s = &mut store.sessions[0];
        for _ in 0..9 {
            s.next_event_id();
        }
        for id in 6..=9u64 {
            s.buffer_message(id, None, format!("data {}", id));
        }
    }
    let r = get_decision(&mut store, &head(None, None, Some(&sid), Some("7")), 1_000)
        .expect("replay");
    let ids: Vec<u64> = r.iter().map(|m| m.event_id).collect();
    assert_eq!(ids, vec![8, 9]);
    assert_eq!(store.sessions[0].last_activity_ms, 1_000);
    // The GET stream became the session's current sink.
    assert_eq!(store.sessions[0].sink_generation, 1);
}

#[test]
fn get_without_last_event_id_replays_nothing() {
    let mut store = SessionStore::new();
    let sid = store.create(0);
    {
        let s = &mut store.sessions[0];
        s.next_event_id();
        s.buffer_message(1, None, "x".to_string());
    }
    let r = get_decision(&mut store, &head(None, None, Some(&sid), None), 0).expect("ok");
    assert!(r.is_empty());
    let r = get_decision(&mut store, &head(None, None, Some(&sid), Some("junk")), 0).expect("ok");
    assert!(r.is_empty());
}

#[test]
fn two_gets_with_the_same_last_event_id_replay_identically() {
    let mut store = SessionStore::new();
    let sid = store.create(0);
    {
        let s = &mut store.sessions[0];
        for _ in 0..4 {
            s.next_event_id();
        }
        for id in 1..=4u64 {
            s.buffer_message(id, None, format!("d{}", id));
        }
    }
    let h = head(None, None, Some(&sid), Some("2"));
    let first: Vec<u64> =
        get_decision(&mut store, &h, 0).expect("ok").iter().map(|m| m.event_id).collect();
    let second: Vec<u64> =
        get_decision(&mut store, &h, 0).expect("ok").iter().map(|m| m.event_id).collect();
    assert_eq!(first, second);
    assert_eq!(first, vec![3, 4]);
}
