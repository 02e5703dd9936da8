use mcp_citadel::metrics::{
    record_error, record_http_request, record_message_replay, record_session_created,
    record_websocket_connection, set_active_connections, set_active_sessions,
    set_message_buffer_size, set_mcp_servers_up, MCPMessageTimer, Metrics, RequestTimer,
};
use mcp_citadel::text::{parse_u64, u64_to_dec_string};

fn labels(parts: &[&str]) -> Vec<String> {
    parts.iter().map(|s| s.to_string()).collect()
}

#[test]
fn http_requests_count_per_label_set() {
    let mut m = Metrics::new();
    record_http_request(&mut m, "POST", "/mcp", 200);
    record_http_request(&mut m, "POST", "/mcp", 200);
    record_http_request(&mut m, "GET", "/mcp", 404);
    assert_eq!(m.http_requests_total.get(&labels(&["POST", "/mcp", "200"])), 2);
    assert_eq!(m.http_requests_total.get(&labels(&["GET", "/mcp", "404"])), 1);
    assert_eq!(m.http_requests_total.get(&labels(&["GET", "/mcp", "200"])), 0);
}

#[test]
fn errors_without_a_server_count_as_unknown() {
    let mut m = Metrics::new();
    record_error(&mut m, "routing", Some("alpha"));
    record_error(&mut m, "routing", None);
    assert_eq!(m.errors_total.get(&labels(&["routing", "alpha"])), 1);
    assert_eq!(m.errors_total.get(&labels(&["routing", "unknown"])), 1);
}

#[test]
fn gauges_take_the_last_value() {
    let mut m = Metrics::new();
    set_active_sessions(&mut m, 4);
    set_mcp_servers_up(&mut m, 2);
    set_message_buffer_size(&mut m, 120);
    set_active_connections(&mut m, 7);
    assert_eq!(m.active_sessions, 4);
    assert_eq!(m.mcp_servers_up, 2);
    assert_eq!(m.message_buffer_size, 120);
    assert_eq!(m.active_connections, 7);
    set_active_sessions(&mut m, 3);
    assert_eq!(m.active_sessions, 3);
}

#[test]
fn session_and_replay_counters_accumulate() {
    let mut m = Metrics::new();
    record_session_created(&mut m, "http");
    record_session_created(&mut m, "http");
    record_message_replay(&mut m, "abc", 3);
    record_message_replay(&mut m, "abc", 2);
    record_websocket_connection(&mut m, "established");
    assert_eq!(m.sessions_created_total.get(&labels(&["http"])), 2);
    assert_eq!(m.message_replay_total.get(&labels(&["abc"])), 5);
    assert_eq!(m.websocket_connections_total.get(&labels(&["established"])), 1);
}

#[test]
fn request_timer_books_the_elapsed_time() {
    let mut m = Metrics::new();
    let timer = RequestTimer::new("POST", "/mcp", 1_000);
    timer.observe_duration(&mut m, 1_500);
    assert_eq!(m.http_request_duration_ms.points.len(), 1);
    let p = &m.http_request_duration_ms.points[0];
    assert_eq!(p.labels, labels(&["POST", "/mcp"]));
    assert_eq!(p.count, 1);
    assert_eq!(p.sum_ms, 500);
    // Bounds are 1,5,10,25,50,100,250,500,1000,...: a 500 ms request
    // falls into the 500 ms bucket and every wider one.
    assert_eq!(p.bucket_counts[6], 0); // 250 ms
    assert_eq!(p.bucket_counts[7], 1); // 500 ms
    assert_eq!(p.bucket_counts[11], 1); // 10000 ms
}

#[test]
fn message_timer_counts_the_outcome() {
    let mut m = Metrics::new();
    let timer = MCPMessageTimer::new("alpha", "tools/list", 2_000);
    timer.observe_duration(&mut m, "success", 2_040);
    assert_eq!(m.mcp_messages_total.get(&labels(&["alpha", "tools/list", "success"])), 1);
    let p = &m.mcp_message_duration_ms.points[0];
    assert_eq!(p.labels, labels(&["alpha", "tools/list"]));
    assert_eq!(p.sum_ms, 40);
    assert_eq!(p.bucket_counts[0], 0); // 10 ms
    assert_eq!(p.bucket_counts[1], 1); // 50 ms
}

#[test]
fn decimal_rendering_matches() {
    assert_eq!(u64_to_dec_string(0), "0");
    assert_eq!(u64_to_dec_string(7), "7");
    assert_eq!(u64_to_dec_string(1234), "1234");
    assert_eq!(u64_to_dec_string(u64::MAX), "18446744073709551615");
}

#[test]
fn event_id_header_parsing() {
    assert_eq!(parse_u64("7"), Some(7));
    assert_eq!(parse_u64("0007"), Some(7));
    assert_eq!(parse_u64("+42"), Some(42));
    assert_eq!(parse_u64("18446744073709551615"), Some(u64::MAX));
    assert_eq!(parse_u64("18446744073709551616"), None);
    assert_eq!(parse_u64(""), None);
    assert_eq!(parse_u64("+"), None);
    assert_eq!(parse_u64("12x"), None);
    assert_eq!(parse_u64("-3"), None);
}
