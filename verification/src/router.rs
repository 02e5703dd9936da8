//! The local stream-socket transport's per-connection protocol: each line
//! is routed to the child the connection is bound to, and errors become
//! line-delimited JSON-RPC error replies.
//!
//! A connection binds to the child named by its first message and keeps
//! that binding; the socket I/O around this lives outside the library.

use vstd::prelude::*;
use vstd::utf8::encode_utf8;
use crate::message::{extract_server_name, extracted_name};
use crate::text::push_bytes;

verus! {

/// The child a connection addresses with this line: the name cached from
/// an earlier message when there is one, else what the line itself
/// yields.
pub fn connection_target(cached: Option<String>, line: &[u8]) -> (r: Option<String>)
    ensures
        cached matches Some(n) ==> r == Some(n),
        cached is None ==> (r is Some) == (extracted_name(line@) is Some) && (r matches Some(m)
            ==> m@ == extracted_name(line@)->0),
{
    match cached {
        Some(n) => Some(n),
        None => extract_server_name(line),
    }
}

/// The error line sent when no message of the connection has named a
/// child yet.
pub open spec fn missing_name_error_line_spec() -> Seq<u8> {
    encode_utf8(
        "{\"jsonrpc\":\"2.0\",\"id\":null,\"error\":{\"code\":-32602,\"message\":\"Server name not specified\"}}\n"@,
    )
}

/// The error line for a line that names no child.
pub fn missing_name_error_line() -> (r: Vec<u8>)
    ensures
        r@ == missing_name_error_line_spec(),
{
    let mut out: Vec<u8> = Vec::new();
    push_bytes(
        &mut out,
        "{\"jsonrpc\":\"2.0\",\"id\":null,\"error\":{\"code\":-32602,\"message\":\"Server name not specified\"}}\n".as_bytes(),
    );
    proof {
        assert(out@ =~= missing_name_error_line_spec());
    }
    out
}

/// The error line sent when routing fails, the error's message standing
/// in the `message` field.
pub open spec fn routing_error_line_spec(msg: Seq<char>) -> Seq<u8> {
    encode_utf8("{\"jsonrpc\":\"2.0\",\"id\":null,\"error\":{\"code\":-32603,\"message\":\""@)
        + encode_utf8(msg) + encode_utf8("\"}}\n"@)
}

/// What the connection writes back for one routed line: the child's reply
/// verbatim, newline included, or the routing-error line.
pub fn connection_reply(result: &Result<Vec<u8>, String>) -> (r: Vec<u8>)
    ensures
        (result matches Ok(reply) ==> r@ == reply@),
        (result matches Err(msg) ==> r@ == routing_error_line_spec(msg@)),
{
    match result {
        Ok(reply) => {
            let r = reply.clone();
            proof {
                assert(r@ =~= reply@);
            }
            r
        },
        Err(msg) => {
            let mut out: Vec<u8> = Vec::new();
            push_bytes(
                &mut out,
                "{\"jsonrpc\":\"2.0\",\"id\":null,\"error\":{\"code\":-32603,\"message\":\"".as_bytes(),
            );
            push_bytes(&mut out, msg.as_str().as_bytes());
            push_bytes(&mut out, "\"}}\n".as_bytes());
            proof {
                assert(out@ =~= routing_error_line_spec(msg@));
            }
            out
        },
    }
}

} // verus!
