//! The WebSocket transport's decisions: which child and method a message
//! names, and the JSON-RPC error replies for routing and parse failures.
//!
//! The socket loop itself lives outside the library.

use vstd::prelude::*;
use vstd::utf8::encode_utf8;
use crate::message::MessageFields;
use crate::text::{json_escaped, json_escape_bytes, push_bytes};

verus! {

/// The routing target a WebSocket message names: the string value of
/// `params.server`, or `unknown` without one; the method reads the same
/// way. There is no name caching and no method-prefix fallback on this
/// transport.
pub fn ws_target(fields: &MessageFields) -> (r: (String, String))
    ensures
        (fields.server_param matches Some(s) ==> r.0 == s),
        (fields.server_param is None ==> r.0@ == "unknown"@),
        (fields.method matches Some(m) ==> r.1 == m),
        (fields.method is None ==> r.1@ == "unknown"@),
{
    let server = match &fields.server_param {
        Some(s) => s.clone(),
        None => "unknown".to_owned(),
    };
    let method = match &fields.method {
        Some(m) => m.clone(),
        None => "unknown".to_owned(),
    };
    (server, method)
}

/// The reply for a message that failed to route: a JSON-RPC error with
/// code `-32603`, the request id echoed, and the escaped error message.
pub open spec fn ws_route_error_reply_spec(id: Option<Seq<char>>, msg: Seq<u8>) -> Seq<u8> {
    encode_utf8("{\"jsonrpc\":\"2.0\",\"id\":"@) + (match id {
        Some(t) => encode_utf8(t),
        None => encode_utf8("null"@),
    }) + encode_utf8(",\"error\":{\"code\":-32603,\"message\":\""@) + json_escaped(msg)
        + encode_utf8("\"}}"@)
}

/// Builds the routing-error reply.
pub fn ws_route_error_reply(id_json: &Option<String>, msg: &str) -> (r: Vec<u8>)
    ensures
        r@ == ws_route_error_reply_spec(
            match id_json {
                Some(ref t) => Some(t@),
                None => None,
            },
            encode_utf8(msg@),
        ),
{
    let mut out: Vec<u8> = Vec::new();
    push_bytes(&mut out, "{\"jsonrpc\":\"2.0\",\"id\":".as_bytes());
    match id_json {
        Some(t) => push_bytes(&mut out, t.as_str().as_bytes()),
        None => push_bytes(&mut out, "null".as_bytes()),
    }
    push_bytes(&mut out, ",\"error\":{\"code\":-32603,\"message\":\"".as_bytes());
    let escaped = json_escape_bytes(msg.as_bytes());
    push_bytes(&mut out, escaped.as_slice());
    push_bytes(&mut out, "\"}}".as_bytes());
    proof {
        assert(out@ =~= ws_route_error_reply_spec(
            match id_json {
                Some(t) => Some(t@),
                None => None,
            },
            encode_utf8(msg@),
        ));
    }
    out
}

/// The reply for a message that is not JSON: a JSON-RPC error with code
/// `-32700` and the escaped parse-error message.
pub open spec fn ws_parse_error_reply_spec(msg: Seq<u8>) -> Seq<u8> {
    encode_utf8("{\"jsonrpc\":\"2.0\",\"error\":{\"code\":-32700,\"message\":\""@) + json_escaped(
        msg,
    ) + encode_utf8("\"}}"@)
}

/// Builds the parse-error reply.
pub fn ws_parse_error_reply(msg: &str) -> (r: Vec<u8>)
    ensures
        r@ == ws_parse_error_reply_spec(encode_utf8(msg@)),
{
    let mut out: Vec<u8> = Vec::new();
    push_bytes(
        &mut out,
        "{\"jsonrpc\":\"2.0\",\"error\":{\"code\":-32700,\"message\":\"".as_bytes(),
    );
    let escaped = json_escape_bytes(msg.as_bytes());
    push_bytes(&mut out, escaped.as_slice());
    push_bytes(&mut out, "\"}}".as_bytes());
    proof {
        assert(out@ =~= ws_parse_error_reply_spec(encode_utf8(msg@)));
    }
    out
}

} // verus!
