//! Reading a JSON-RPC message: which child it addresses and which method it
//! calls. The JSON itself is parsed by an outside library; the routing logic
//! works on the plain values below.

use vstd::prelude::*;

verus! {

use vstd::string::StrSliceExecFns;

/// What the routing logic reads from one message: whether the bytes parse
/// as JSON at all, the string value of `params.server` when that member is
/// a string, the string value of `method`, and the JSON text of the `id`
/// member.
pub struct MessageFields {
    pub valid: bool,
    pub server_param: Option<String>,
    pub method: Option<String>,
    pub id_json: Option<String>,
}

/// Whether the bytes parse as one JSON document.
pub uninterp spec fn json_is_valid(bytes: Seq<u8>) -> bool;

/// The string value of `params.server`, when that member is a string.
pub uninterp spec fn json_server_param_str(bytes: Seq<u8>) -> Option<Seq<char>>;

/// The string value of the top-level `method` member, when it is a string.
pub uninterp spec fn json_method_str(bytes: Seq<u8>) -> Option<Seq<char>>;

/// The JSON text of the top-level `id` member, when it exists.
pub uninterp spec fn json_id_text(bytes: Seq<u8>) -> Option<Seq<char>>;

/// Relies on `serde_json::from_slice`, `Value::get`, `Value::as_str` and
/// `Value::to_string`: parses the message once and hands the routing logic
/// the members it reads, as plain values.
#[verifier::external_body]
pub(crate) fn parse_message_fields(body: &[u8]) -> (r: MessageFields)
    ensures
        r.valid == json_is_valid(body@),
        (r.server_param is Some) == (json_server_param_str(body@) is Some),
        r.server_param matches Some(s) ==> s@ == json_server_param_str(body@)->0,
        (r.method is Some) == (json_method_str(body@) is Some),
        r.method matches Some(m) ==> m@ == json_method_str(body@)->0,
        (r.id_json is Some) == (json_id_text(body@) is Some),
        r.id_json matches Some(i) ==> i@ == json_id_text(body@)->0,
{
    match serde_json::from_slice::<serde_json::Value>(body) {
        Ok(v) => MessageFields {
            valid: true,
            server_param: v.get("params").and_then(|p| p.get("server")).and_then(|s| s.as_str()).map(|s| s.to_string()),
            method: v.get("method").and_then(|m| m.as_str()).map(|s| s.to_string()),
            id_json: v.get("id").map(|i| i.to_string()),
        },
        Err(_) => MessageFields { valid: false, server_param: None, method: None, id_json: None },
    }
}

/// The index of the first `/` in `m`, or its length when there is none.
pub open spec fn first_slash(m: Seq<char>, i: int) -> int
    recommends
        0 <= i <= m.len(),
    decreases m.len() - i,
{
    if i < 0 || i >= m.len() {
        m.len() as int
    } else if m[i] == '/' {
        i
    } else {
        first_slash(m, i + 1)
    }
}

/// The part of a method name before its first `/`: for
/// `github/tools/list` that is `github`; without a `/` it is the whole
/// name.
pub open spec fn prefix_before_slash(m: Seq<char>) -> Seq<char> {
    m.subrange(0, first_slash(m, 0))
}

/// Which name a message's fields yield: the string value of
/// `params.server` when there is one, else the method prefix, else
/// nothing.
pub open spec fn name_from_fields_spec(
    is_valid: bool,
    server: Option<Seq<char>>,
    method: Option<Seq<char>>,
) -> Option<Seq<char>> {
    if !is_valid {
        None
    } else if server is Some {
        server
    } else if method is Some {
        Some(prefix_before_slash(method->0))
    } else {
        None
    }
}

/// Which name a raw message yields.
pub open spec fn extracted_name(bytes: Seq<u8>) -> Option<Seq<char>> {
    name_from_fields_spec(
        json_is_valid(bytes),
        json_server_param_str(bytes),
        json_method_str(bytes),
    )
}

/// `params.server` always wins: whenever it is present as a string, the
/// extracted name is exactly its value, whatever the method says.
pub proof fn lemma_server_param_precedence(bytes: Seq<u8>)
    requires
        json_is_valid(bytes),
        json_server_param_str(bytes) is Some,
    ensures
        extracted_name(bytes) == json_server_param_str(bytes),
{
}

/// Finds the first `/` of a method name.
fn find_slash(m: &str) -> (r: usize)
    ensures
        r == first_slash(m@, 0),
        r <= m@.len(),
{
    let n = m.unicode_len();
    let mut i: usize = 0;
    while i < n
        invariant
            i <= n,
            n == m@.len(),
            first_slash(m@, 0) == first_slash(m@, i as int),
        decreases n - i,
    {
        if m.get_char(i) == '/' {
            return i;
        }
        i += 1;
    }
    i
}

/// The name a message's fields yield, as the extraction precedence says.
pub fn server_name_from_fields(fields: &MessageFields) -> (r: Option<String>)
    ensures
        (r is Some) == (name_from_fields_spec(
            fields.valid,
            match fields.server_param {
                Some(ref s) => Some(s@),
                None => None,
            },
            match fields.method {
                Some(ref m) => Some(m@),
                None => None,
            },
        ) is Some),
        r matches Some(s) ==> s@ == name_from_fields_spec(
            fields.valid,
            match fields.server_param {
                Some(ref s) => Some(s@),
                None => None,
            },
            match fields.method {
                Some(ref m) => Some(m@),
                None => None,
            },
        )->0,
{
    if !fields.valid {
        return None;
    }
    if let Some(s) = &fields.server_param {
        return Some(s.clone());
    }
    match &fields.method {
        Some(m) => {
            let ms = m.as_str();
            let cut = find_slash(ms);
            let prefix = ms.substring_char(0, cut);
            Some(prefix.to_owned())
        },
        None => None,
    }
}

/// Extracts the target child name from a raw JSON-RPC message: the string
/// value of `params.server` when there is one, else the part of the method
/// name before its first `/`.
pub fn extract_server_name(message: &[u8]) -> (r: Option<String>)
    ensures
        (r is Some) == (extracted_name(message@) is Some),
        r matches Some(s) ==> s@ == extracted_name(message@)->0,
{
    let fields = parse_message_fields(message);
    server_name_from_fields(&fields)
}

} // verus!
