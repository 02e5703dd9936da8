//! The HTTP transport's decision core: origin defence, protocol version
//! negotiation, session resolution, the choice between a direct JSON reply
//! and an SSE stream, and the bodies and events each path emits.
//!
//! The HTTP server itself lives outside the library; it hands these
//! functions the header values and the raw body, performs the routing I/O,
//! and ships the returned bytes and events.

use vstd::prelude::*;
use vstd::utf8::{valid_utf8, decode_utf8, encode_utf8, encode_utf8_decode_utf8};
use crate::message::{
    parse_message_fields, server_name_from_fields, json_is_valid, json_method_str, json_id_text,
    extracted_name,
};
use crate::session::{BufferedMessage, HttpSession, SessionStore, MAX_BUFFER_SIZE,
    messages_after_spec};
use crate::text::{
    str_eq, str_contains, contains_chars, contains_seq, bytes_contains, json_escaped,
    json_escape_bytes, push_bytes, parse_u64, parse_u64_spec, trim_end_ws, trimmed_end_chars,
    utf8_to_string,
};

verus! {

use vstd::string::StrSliceExecFns;

/// The header values the decision core reads from one request.
pub struct RequestHead {
    /// The `origin` header, when the client sent one.
    pub origin: Option<String>,
    /// The `mcp-protocol-version` header.
    pub protocol_version: Option<String>,
    /// The `mcp-session-id` header.
    pub session_id: Option<String>,
    /// The `last-event-id` header.
    pub last_event_id: Option<String>,
}

/// Whether a method's reply is delivered as an SSE stream rather than one
/// JSON response.
pub open spec fn is_streaming_method(m: Seq<char>) -> bool {
    ||| m == "initialize"@
    ||| m == "initialized"@
    ||| m == "sampling/createMessage"@
    ||| m == "roots/list_changed"@
    ||| m == "notifications/cancelled"@
    ||| m == "notifications/progress"@
}

/// Decides whether a method's reply is streamed: exactly `initialize`,
/// `initialized`, `sampling/createMessage`, `roots/list_changed`,
/// `notifications/cancelled` and `notifications/progress` are.
pub fn needs_streaming(method: &str) -> (r: bool)
    ensures
        r == is_streaming_method(method@),
{
    str_eq(method, "initialize") || str_eq(method, "initialized") || str_eq(
        method,
        "sampling/createMessage",
    ) || str_eq(method, "roots/list_changed") || str_eq(method, "notifications/cancelled")
        || str_eq(method, "notifications/progress")
}

/// Whether an `origin` header value passes the anti-DNS-rebinding guard:
/// it must name `localhost` or `127.0.0.1`, or be the literal `null`.
pub open spec fn origin_value_allowed(o: Seq<char>) -> bool {
    ||| contains_chars(o, "localhost"@)
    ||| contains_chars(o, "127.0.0.1"@)
    ||| o == "null"@
}

/// Whether the request passes the origin guard: a missing header is
/// allowed, a present one must pass `origin_value_allowed`.
pub open spec fn origin_allowed(o: Option<Seq<char>>) -> bool {
    match o {
        None => true,
        Some(s) => origin_value_allowed(s),
    }
}

/// The origin guard on one request.
pub fn validate_origin(origin: Option<&str>) -> (r: bool)
    ensures
        r == origin_allowed(match origin {
            Some(o) => Some(o@),
            None => None,
        }),
{
    match origin {
        None => true,
        Some(o) => str_contains(o, "localhost") || str_contains(o, "127.0.0.1") || str_eq(
            o,
            "null",
        ),
    }
}

/// Whether the `mcp-protocol-version` header is acceptable: the current
/// version, the prior compatibility version, or absent (read as the prior
/// version).
pub open spec fn version_allowed(v: Option<Seq<char>>) -> bool {
    match v {
        None => true,
        Some(s) => s == "2025-06-18"@ || s == "2025-03-26"@,
    }
}

/// Whether the message asks for `initialize`.
pub open spec fn is_initialize_msg(bytes: Seq<u8>) -> bool {
    json_method_str(bytes) matches Some(m) && m == "initialize"@
}

/// Whether the message's method is answered over a stream. A message
/// without a string method gets a direct reply.
pub open spec fn is_streaming_msg(bytes: Seq<u8>) -> bool {
    json_method_str(bytes) matches Some(m) && is_streaming_method(m)
}

/// What the POST handler decided for one request.
pub enum PostDecision {
    /// The request is refused with this HTTP status, before any routing.
    Reject { status: u16 },
    /// Route the body to `server` and return the reply as one JSON
    /// response.
    Direct { server: String, session_id: String, id_json: Option<String> },
    /// Route the body to `server` and deliver the reply over the session's
    /// SSE stream under `event_id`.
    Stream {
        server: String,
        session_id: String,
        event_id: u64,
        is_initialize: bool,
        id_json: Option<String>,
    },
}

/// Whether a carried `id` text matches what the message holds.
pub open spec fn id_json_matches(id: Option<String>, bytes: Seq<u8>) -> bool {
    &&& (id is Some) == (json_id_text(bytes) is Some)
    &&& (id matches Some(t) ==> t@ == json_id_text(bytes)->0)
}

/// How a session changes when a streamed POST claims it: activity marked,
/// bound to the target child, a fresh outbound sink bound, and the event
/// counter moved up by one.
pub open spec fn session_streamed(
    s0: HttpSession,
    s1: HttpSession,
    server: Seq<char>,
    now_ms: u64,
) -> bool {
    &&& s1.id == s0.id
    &&& s1.created_at_ms == s0.created_at_ms
    &&& s1.last_activity_ms == now_ms
    &&& (s1.server_name matches Some(n) && n@ == server)
    &&& s1.sink_generation == crate::session::bumped_generation(s0.sink_generation)
    &&& s1.last_event_id == s0.last_event_id + 1
    &&& s1.message_buffer == s0.message_buffer
    &&& s1.history == s0.history
}

/// How a session store changes when a fresh session is created: the new
/// session sits at the end, and a session that collided on the id is gone.
pub open spec fn created_in(o: SessionStore, m: SessionStore, sid: Seq<char>, now_ms: u64) -> bool {
    &&& m.sessions@.len() >= 1
    &&& m.sessions@.last().wf()
    &&& m.sessions@.last().is_fresh(sid, now_ms)
    &&& (!o.contains_id(sid) ==> m.sessions@ == o.sessions@.push(m.sessions@.last()))
    &&& (o.contains_id(sid) ==> exists|i: int|
        0 <= i < o.sessions@.len() && (#[trigger] o.sessions@[i]).id@ == sid && m.sessions@
            == o.sessions@.remove(i).push(m.sessions@.last()))
}

/// The POST decision tree, in the order the handler applies it: origin
/// guard (403), protocol version (400), body parse (400), server-name
/// extraction (400), session resolution (`initialize` creates a session;
/// otherwise the `mcp-session-id` header must name a known one: 400
/// without a header, 404 for an unknown id), then the response mode of
/// the method.
///
/// The server-name check precedes session resolution, so a message that
/// names no child is answered 400 before any session is created or looked
/// up. A direct request marks its session active; a streamed request
/// additionally binds the target child, a fresh sink and the next event
/// id.
pub fn post_decision(store: &mut SessionStore, head: &RequestHead, body: &[u8], now_ms: u64) -> (d:
    PostDecision)
    requires
        old(store).wf(),
        forall|i: int|
            0 <= i < old(store).sessions@.len() ==> (#[trigger] old(
                store,
            ).sessions@[i]).last_event_id < u64::MAX,
    ensures
        final(store).wf(),
        ({
            let o = *old(store);
            let m = *final(store);
            let b = body@;
            if head.origin matches Some(og) && !origin_value_allowed(og@) {
                d == (PostDecision::Reject { status: 403u16 }) && m == o
            } else if !version_allowed(match head.protocol_version {
                Some(ref v) => Some(v@),
                None => None,
            }) {
                d == (PostDecision::Reject { status: 400u16 }) && m == o
            } else if !json_is_valid(b) {
                d == (PostDecision::Reject { status: 400u16 }) && m == o
            } else if extracted_name(b) is None {
                d == (PostDecision::Reject { status: 400u16 }) && m == o
            } else if is_initialize_msg(b) {
                exists|sid: Seq<char>, mid: SessionStore|
                    #![auto]
                    sid.len() == 36 && created_in(o, mid, sid, now_ms) && m.sessions@
                        == mid.sessions@.update(
                        mid.sessions@.len() - 1,
                        m.sessions@.last(),
                    ) && session_streamed(
                        mid.sessions@.last(),
                        m.sessions@.last(),
                        extracted_name(b)->0,
                        now_ms,
                    ) && (d matches PostDecision::Stream {
                        server,
                        session_id,
                        event_id,
                        is_initialize,
                        id_json,
                    } && server@ == extracted_name(b)->0 && session_id@ == sid && event_id == 1u64
                        && is_initialize && id_json_matches(id_json, b))
            } else if head.session_id is None {
                d == (PostDecision::Reject { status: 400u16 }) && m == o
            } else if !o.contains_id((head.session_id->0)@) {
                d == (PostDecision::Reject { status: 404u16 }) && m == o
            } else if !is_streaming_msg(b) {
                exists|i: int|
                    #![auto]
                    0 <= i < o.sessions@.len() && o.sessions@[i].id@ == (head.session_id->0)@
                        && m.sessions@ == o.sessions@.update(
                        i,
                        session_touched(o.sessions@[i], now_ms),
                    ) && (d matches PostDecision::Direct { server, session_id, id_json }
                        && server@ == extracted_name(b)->0 && session_id@ == (head.session_id->0)@
                        && id_json_matches(id_json, b))
            } else {
                exists|i: int|
                    #![auto]
                    0 <= i < o.sessions@.len() && o.sessions@[i].id@ == (head.session_id->0)@
                        && m.sessions@ == o.sessions@.update(i, m.sessions@[i])
                        && session_streamed(
                        o.sessions@[i],
                        m.sessions@[i],
                        extracted_name(b)->0,
                        now_ms,
                    ) && (d matches PostDecision::Stream {
                        server,
                        session_id,
                        event_id,
                        is_initialize,
                        id_json,
                    } && server@ == extracted_name(b)->0 && session_id@ == (head.session_id->0)@
                        && event_id == o.sessions@[i].last_event_id + 1 && !is_initialize
                        && id_json_matches(id_json, b))
            }
        }),
{
    match &head.origin {
        Some(o) => {
            if !validate_origin(Some(o.as_str())) {
                return PostDecision::Reject { status: 403 };
            }
        },
        None => {},
    }
    match &head.protocol_version {
        Some(v) => {
            if !(str_eq(v.as_str(), "2025-06-18") || str_eq(v.as_str(), "2025-03-26")) {
                return PostDecision::Reject { status: 400 };
            }
        },
        None => {},
    }
    let fields = parse_message_fields(body);
    if !fields.valid {
        return PostDecision::Reject { status: 400 };
    }
    let server = match server_name_from_fields(&fields) {
        Some(s) => s,
        None => {
            return PostDecision::Reject { status: 400 };
        },
    };
    let is_init = match &fields.method {
        Some(m) => str_eq(m.as_str(), "initialize"),
        None => false,
    };
    let streaming = match &fields.method {
        Some(m) => needs_streaming(m.as_str()),
        None => false,
    };
    let (sid, idx): (String, usize) = if is_init {
        let sid = store.create(now_ms);
        let idx = store.sessions.len() - 1;
        (sid, idx)
    } else {
        match &head.session_id {
            Some(h) => {
                match store.find(h.as_str()) {
                    Some(i) => (h.clone(), i),
                    None => {
                        return PostDecision::Reject { status: 404 };
                    },
                }
            },
            None => {
                return PostDecision::Reject { status: 400 };
            },
        }
    };
    let ghost mid_store = *store;
    let ghost sid_view = sid@;
    if !streaming {
        let sess = &mut store.sessions[idx];
        sess.touch(now_ms);
        proof {
            assert(store.sessions@ == old(store).sessions@.update(
                idx as int,
                session_touched(old(store).sessions@[idx as int], now_ms),
            ));
            assert forall|a: int, b: int|
                #![trigger store.sessions@[a].id, store.sessions@[b].id]
                0 <= a < b < store.sessions@.len() implies store.sessions@[a].id@
                != store.sessions@[b].id@ by {
                assert(old(store).sessions@[a].id@ != old(store).sessions@[b].id@);
            }
        }
        PostDecision::Direct { server, session_id: sid, id_json: fields.id_json }
    } else {
        let server_copy = server.clone();
        let sess = &mut store.sessions[idx];
        sess.touch(now_ms);
        sess.server_name = Some(server_copy);
        sess.bind_sink();
        let event_id = sess.next_event_id();
        proof {
            assert(store.sessions@ == mid_store.sessions@.update(
                idx as int,
                store.sessions@[idx as int],
            ));
            assert(session_streamed(
                mid_store.sessions@[idx as int],
                store.sessions@[idx as int],
                server@,
                now_ms,
            ));
            assert forall|a: int, b: int|
                #![trigger store.sessions@[a].id, store.sessions@[b].id]
                0 <= a < b < store.sessions@.len() implies store.sessions@[a].id@
                != store.sessions@[b].id@ by {
                assert(mid_store.sessions@[a].id@ != mid_store.sessions@[b].id@);
            }
            if is_init {
                assert(store.sessions@.last() == store.sessions@[idx as int]);
                assert(sid_view.len() == 36);
                assert(created_in(*old(store), mid_store, sid_view, now_ms));
                assert(store.sessions@ == mid_store.sessions@.update(
                    mid_store.sessions@.len() - 1,
                    store.sessions@.last(),
                ));
                assert(session_streamed(
                    mid_store.sessions@.last(),
                    store.sessions@.last(),
                    server@,
                    now_ms,
                ));
            }
        }
        PostDecision::Stream {
            server,
            session_id: sid,
            event_id,
            is_initialize: is_init,
            id_json: fields.id_json,
        }
    }
}

/// How a routing failure is classified for the client, read off the error
/// message by substring, in this order of precedence.
pub enum RouteErrorKind {
    /// The message mentions `not found`.
    ServerNotFound,
    /// The message mentions `timeout`.
    Timeout,
    /// The message mentions `crashed`.
    ServerCrash,
    /// Anything else.
    Internal,
}

/// The classification of a routing error message.
pub open spec fn classify_spec(msg: Seq<u8>) -> RouteErrorKind {
    if contains_seq(msg, encode_utf8("not found"@)) {
        RouteErrorKind::ServerNotFound
    } else if contains_seq(msg, encode_utf8("timeout"@)) {
        RouteErrorKind::Timeout
    } else if contains_seq(msg, encode_utf8("crashed"@)) {
        RouteErrorKind::ServerCrash
    } else {
        RouteErrorKind::Internal
    }
}

/// The JSON-RPC error code each kind carries, as decimal text.
pub open spec fn code_text(k: RouteErrorKind) -> Seq<char> {
    match k {
        RouteErrorKind::ServerNotFound => "-32001"@,
        RouteErrorKind::Timeout => "-32002"@,
        RouteErrorKind::ServerCrash => "-32003"@,
        RouteErrorKind::Internal => "-32603"@,
    }
}

/// The `data.type` name each kind carries.
pub open spec fn type_text(k: RouteErrorKind) -> Seq<char> {
    match k {
        RouteErrorKind::ServerNotFound => "server_not_found"@,
        RouteErrorKind::Timeout => "timeout"@,
        RouteErrorKind::ServerCrash => "server_crash"@,
        RouteErrorKind::Internal => "internal_error"@,
    }
}

/// Classifies a routing error message.
pub fn classify_route_error(msg: &str) -> (r: RouteErrorKind)
    ensures
        r == classify_spec(encode_utf8(msg@)),
{
    let bytes = msg.as_bytes();
    if bytes_contains(bytes, "not found".as_bytes()) {
        RouteErrorKind::ServerNotFound
    } else if bytes_contains(bytes, "timeout".as_bytes()) {
        RouteErrorKind::Timeout
    } else if bytes_contains(bytes, "crashed".as_bytes()) {
        RouteErrorKind::ServerCrash
    } else {
        RouteErrorKind::Internal
    }
}

/// The JSON-RPC error object a failed request is answered with: the code,
/// the echoed request id (or `null`), the escaped error message, and a
/// `data` member naming the error type and the target child.
pub open spec fn error_response_json(
    code: Seq<char>,
    id: Option<Seq<char>>,
    msg: Seq<u8>,
    typ: Seq<char>,
    server: Seq<char>,
) -> Seq<u8> {
    encode_utf8("{\"jsonrpc\":\"2.0\",\"id\":"@) + (match id {
        Some(t) => encode_utf8(t),
        None => encode_utf8("null"@),
    }) + encode_utf8(",\"error\":{\"code\":"@) + encode_utf8(code) + encode_utf8(
        ",\"message\":\""@,
    ) + json_escaped(msg) + encode_utf8("\",\"data\":{\"type\":\""@) + encode_utf8(typ)
        + encode_utf8("\",\"server\":\""@) + json_escaped(encode_utf8(server)) + encode_utf8(
        "\"}}}"@,
    )
}

fn build_error_response(
    code: &str,
    id_json: &Option<String>,
    msg: &str,
    typ: &str,
    server: &str,
) -> (r: Vec<u8>)
    ensures
        r@ == error_response_json(
            code@,
            match id_json {
                Some(ref t) => Some(t@),
                None => None,
            },
            encode_utf8(msg@),
            typ@,
            server@,
        ),
{
    let mut out: Vec<u8> = Vec::new();
    push_bytes(&mut out, "{\"jsonrpc\":\"2.0\",\"id\":".as_bytes());
    match id_json {
        Some(t) => push_bytes(&mut out, t.as_str().as_bytes()),
        None => push_bytes(&mut out, "null".as_bytes()),
    }
    push_bytes(&mut out, ",\"error\":{\"code\":".as_bytes());
    push_bytes(&mut out, code.as_bytes());
    push_bytes(&mut out, ",\"message\":\"".as_bytes());
    let escaped_msg = json_escape_bytes(msg.as_bytes());
    push_bytes(&mut out, escaped_msg.as_slice());
    push_bytes(&mut out, "\",\"data\":{\"type\":\"".as_bytes());
    push_bytes(&mut out, typ.as_bytes());
    push_bytes(&mut out, "\",\"server\":\"".as_bytes());
    let escaped_server = json_escape_bytes(server.as_bytes());
    push_bytes(&mut out, escaped_server.as_slice());
    push_bytes(&mut out, "\"}}}".as_bytes());
    proof {
        assert(out@ =~= error_response_json(
            code@,
            match id_json {
                Some(t) => Some(t@),
                None => None,
            },
            encode_utf8(msg@),
            typ@,
            server@,
        ));
    }
    out
}

/// The body of the direct JSON response: on success the child's reply
/// line, byte for byte and with its trailing newline kept; on a routing
/// failure a JSON-RPC error object with code `-32603` and
/// `data.type = "routing_error"`.
pub fn direct_response_body(
    result: &Result<Vec<u8>, String>,
    id_json: &Option<String>,
    server: &str,
) -> (r: Vec<u8>)
    ensures
        (result matches Ok(reply) ==> r@ == reply@),
        (result matches Err(msg) ==> r@ == error_response_json(
            "-32603"@,
            match id_json {
                Some(ref t) => Some(t@),
                None => None,
            },
            encode_utf8(msg@),
            "routing_error"@,
            server@,
        )),
{
    match result {
        Ok(reply) => {
            let r = reply.clone();
            proof {
                assert(r@ =~= reply@);
            }
            r
        },
        Err(msg) => build_error_response("-32603", id_json, msg.as_str(), "routing_error", server),
    }
}

/// One Server-Sent-Event as the transport ships it: an optional event id,
/// an optional event type, and the data line.
pub struct SseEvent {
    pub id: Option<u64>,
    pub event_type: Option<String>,
    pub data: Vec<u8>,
}

/// The first event of an `initialize` stream: type `session`, carrying the
/// session id so the client learns it.
pub fn session_bootstrap_event(session_id: &str) -> (ev: SseEvent)
    ensures
        ev.id is None,
        ev.event_type matches Some(t) && t@ == "session"@,
        ev.data@ == encode_utf8("{\"sessionId\":\""@) + encode_utf8(session_id@) + encode_utf8(
            "\"}"@,
        ),
{
    let mut data: Vec<u8> = Vec::new();
    push_bytes(&mut data, "{\"sessionId\":\"".as_bytes());
    push_bytes(&mut data, session_id.as_bytes());
    push_bytes(&mut data, "\"}".as_bytes());
    SseEvent { id: None, event_type: Some("session".to_owned()), data }
}

/// The data of the error event sent when a child's reply is not UTF-8.
pub open spec fn parse_error_event_json() -> Seq<u8> {
    encode_utf8(
        "{\"code\":-32700,\"message\":\"Parse error: Invalid UTF-8 response\",\"data\":{\"type\":\"parse_error\"}}"@,
    )
}

/// Turns the outcome of routing a streamed request into the SSE event the
/// client receives, and books it on the session.
///
/// A UTF-8 reply becomes a data event under `event_id`, its trailing
/// whitespace stripped, and is appended to the replay buffer. A reply that
/// is not UTF-8 becomes an `error` event with a parse error; a routing
/// failure becomes an `error` event whose code and `data.type` follow the
/// substring classification. Error events carry no id and are not
/// buffered.
pub fn sse_result_event(
    session: &mut HttpSession,
    event_id: u64,
    result: &Result<Vec<u8>, String>,
    id_json: &Option<String>,
    server: &str,
) -> (ev: SseEvent)
    requires
        old(session).wf(),
        event_id <= old(session).last_event_id,
        old(session).history@.len() > 0 ==> event_id > old(session).history@.last().event_id,
    ensures
        final(session).wf(),
        result matches Ok(reply) ==> ({
            if valid_utf8(reply@) {
                let data_chars = trimmed_end_chars(decode_utf8(reply@));
                let entry = final(session).history@.last();
                &&& ev.id == Some(event_id)
                &&& ev.event_type is None
                &&& ev.data@ == encode_utf8(data_chars)
                &&& entry.event_id == event_id
                &&& entry.event_type is None
                &&& entry.data@ == data_chars
                &&& final(session).history@ == old(session).history@.push(entry)
                &&& final(session).message_buffer@ == ({
                    let grown = old(session).message_buffer@.push(entry);
                    if grown.len() > MAX_BUFFER_SIZE {
                        grown.drop_first()
                    } else {
                        grown
                    }
                })
                &&& final(session).last_event_id == old(session).last_event_id
                &&& final(session).id == old(session).id
                &&& final(session).last_activity_ms == old(session).last_activity_ms
                &&& final(session).server_name == old(session).server_name
                &&& final(session).sink_generation == old(session).sink_generation
            } else {
                &&& *final(session) == *old(session)
                &&& ev.id is None
                &&& (ev.event_type matches Some(t) && t@ == "error"@)
                &&& ev.data@ == parse_error_event_json()
            }
        }),
        result matches Err(msg) ==> ({
            let k = classify_spec(encode_utf8(msg@));
            &&& *final(session) == *old(session)
            &&& ev.id is None
            &&& (ev.event_type matches Some(t) && t@ == "error"@)
            &&& ev.data@ == error_response_json(
                code_text(k),
                match id_json {
                    Some(ref t) => Some(t@),
                    None => None,
                },
                encode_utf8(msg@),
                type_text(k),
                server@,
            )
        }),
{
    match result {
        Ok(reply) => {
            match utf8_to_string(reply.as_slice()) {
                Some(s) => {
                    let trimmed = trim_end_ws(s.as_str());
                    proof {
                        encode_utf8_decode_utf8(s@);
                    }
                    let data_bytes = trimmed.as_str().as_bytes_vec();
                    session.buffer_message(event_id, None, trimmed);
                    SseEvent { id: Some(event_id), event_type: None, data: data_bytes }
                },
                None => {
                    let mut data: Vec<u8> = Vec::new();
                    push_bytes(
                        &mut data,
                        "{\"code\":-32700,\"message\":\"Parse error: Invalid UTF-8 response\",\"data\":{\"type\":\"parse_error\"}}".as_bytes(),
                    );
                    proof {
                        assert(data@ =~= parse_error_event_json());
                    }
                    SseEvent { id: None, event_type: Some("error".to_owned()), data }
                },
            }
        },
        Err(msg) => {
            let kind = classify_route_error(msg.as_str());
            let code: &str = match kind {
                RouteErrorKind::ServerNotFound => "-32001",
                RouteErrorKind::Timeout => "-32002",
                RouteErrorKind::ServerCrash => "-32003",
                RouteErrorKind::Internal => "-32603",
            };
            let typ: &str = match kind {
                RouteErrorKind::ServerNotFound => "server_not_found",
                RouteErrorKind::Timeout => "timeout",
                RouteErrorKind::ServerCrash => "server_crash",
                RouteErrorKind::Internal => "internal_error",
            };
            let data = build_error_response(code, id_json, msg.as_str(), typ, server);
            SseEvent { id: None, event_type: Some("error".to_owned()), data }
        },
    }
}

/// A session as a direct request leaves it: only the activity mark moves.
pub open spec fn session_touched(s0: HttpSession, now_ms: u64) -> HttpSession {
    HttpSession { last_activity_ms: now_ms, ..s0 }
}

/// A session as the GET handler leaves it: marked active, and its fresh
/// stream bound as the current outbound sink, replacing any prior one.
pub open spec fn session_claimed_by_get(s0: HttpSession, now_ms: u64) -> HttpSession {
    HttpSession {
        last_activity_ms: now_ms,
        sink_generation: crate::session::bumped_generation(s0.sink_generation),
        ..s0
    }
}

/// The GET decision: origin guard (403), then the `mcp-session-id` header
/// must name a known session (400 without one, 404 for an unknown id).
/// The session is marked active and the fresh stream becomes its current
/// sink; when a `last-event-id` header parses as a decimal number, the
/// buffered events after that id are handed back for replay, oldest
/// first, before any live events flow. A header that does not parse
/// replays nothing.
pub fn get_decision(store: &mut SessionStore, head: &RequestHead, now_ms: u64) -> (r: Result<
    Vec<BufferedMessage>,
    u16,
>)
    requires
        old(store).wf(),
    ensures
        final(store).wf(),
        ({
            let o = *old(store);
            let m = *final(store);
            if head.origin matches Some(og) && !origin_value_allowed(og@) {
                r == Result::<Vec<BufferedMessage>, u16>::Err(403u16) && m == o
            } else if head.session_id is None {
                r == Result::<Vec<BufferedMessage>, u16>::Err(400u16) && m == o
            } else if !o.contains_id((head.session_id->0)@) {
                r == Result::<Vec<BufferedMessage>, u16>::Err(404u16) && m == o
            } else {
                exists|i: int|
                    #![auto]
                    0 <= i < o.sessions@.len() && o.sessions@[i].id@ == (head.session_id->0)@
                        && m.sessions@ == o.sessions@.update(
                        i,
                        session_claimed_by_get(o.sessions@[i], now_ms),
                    ) && (r matches Ok(v) && v@ == (match head.last_event_id {
                        Some(ref h) => (match parse_u64_spec(h@) {
                            Some(n) => messages_after_spec(o.sessions@[i].message_buffer@, n),
                            None => Seq::<BufferedMessage>::empty(),
                        }),
                        None => Seq::<BufferedMessage>::empty(),
                    }))
            }
        }),
{
    match &head.origin {
        Some(o) => {
            if !validate_origin(Some(o.as_str())) {
                return Err(403);
            }
        },
        None => {},
    }
    let sid = match &head.session_id {
        Some(h) => h,
        None => {
            return Err(400);
        },
    };
    let idx = match store.find(sid.as_str()) {
        Some(i) => i,
        None => {
            return Err(404);
        },
    };
    let ghost before = *store;
    let sess = &mut store.sessions[idx];
    sess.touch(now_ms);
    sess.bind_sink();
    proof {
        assert(store.sessions@ == before.sessions@.update(
            idx as int,
            session_claimed_by_get(before.sessions@[idx as int], now_ms),
        ));
        assert forall|a: int, b: int|
            #![trigger store.sessions@[a].id, store.sessions@[b].id]
            0 <= a < b < store.sessions@.len() implies store.sessions@[a].id@
            != store.sessions@[b].id@ by {
            assert(before.sessions@[a].id@ != before.sessions@[b].id@);
        }
    }
    let replay = match &head.last_event_id {
        Some(h) => {
            match parse_u64(h.as_str()) {
                Some(n) => store.sessions[idx].get_messages_after(n),
                None => Vec::new(),
            }
        },
        None => Vec::new(),
    };
    Ok(replay)
}

} // verus!
