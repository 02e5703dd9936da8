use mcp_citadel::message::extract_server_name;

#[test]
fn server_param_wins_over_slashed_method() {
    let body = br#"{"jsonrpc":"2.0","id":1,"method":"x/y","params":{"server":"alpha"}}"#;
    assert_eq!(extract_server_name(body), Some("alpha".to_string()));
}

#[test]
fn method_prefix_is_used_without_server_param() {
    let body = br#"{"jsonrpc":"2.0","method":"github/tools/list"}"#;
    assert_eq!(extract_server_name(body), Some("github".to_string()));
}

#[test]
fn method_without_slash_is_returned_whole() {
    let body = br#"{"method":"status"}"#;
    assert_eq!(extract_server_name(body), Some("status".to_string()));
}

#[test]
fn empty_method_yields_empty_name() {
    let body = br#"{"method":""}"#;
    assert_eq!(extract_server_name(body), Some(String::new()));
}

#[test]
fn non_string_server_param_falls_through_to_the_method() {
    // `params.server` exists but is not a string: the method rule
    // applies instead.
    let body = br#"{"method":"a/b","params":{"server":5}}"#;
    assert_eq!(extract_server_name(body), Some("a".to_string()));
}

#[test]
fn non_string_server_param_without_method_yields_nothing() {
    let body = br#"{"params":{"server":5}}"#;
    assert_eq!(extract_server_name(body), None);
}

#[test]
fn invalid_json_yields_nothing() {
    assert_eq!(extract_server_name(b"not json at all"), None);
}

#[test]
fn message_without_method_or_server_yields_nothing() {
    let body = br#"{"jsonrpc":"2.0","id":7}"#;
    assert_eq!(extract_server_name(body), None);
}

#[test]
fn non_string_method_yields_nothing() {
    let body = br#"{"method":17}"#;
    assert_eq!(extract_server_name(body), None);
}
