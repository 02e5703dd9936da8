use mcp_citadel::session::SessionStore;

#[test]
fn created_session_has_a_36_char_id_and_fresh_state() {
    let mut store = SessionStore::new();
    let sid = store.create(500);
    assert_eq!(sid.len(), 36);
    assert_eq!(store.len(), 1);
    let s = &store.sessions[0];
    assert_eq!(s.id, sid);
    assert_eq!(s.created_at_ms, 500);
    assert_eq!(s.last_activity_ms, 500);
    assert_eq!(s.last_event_id, 0);
    assert!(s.server_name.is_none());
    assert!(s.message_buffer.is_empty());
}

#[test]
fn event_ids_are_dense_and_monotonic() {
    let mut store = SessionStore::new();
    store.create(0);
    let s = &mut store.sessions[0];
    assert_eq!(s.next_event_id(), 1);
    assert_eq!(s.next_event_id(), 2);
    assert_eq!(s.next_event_id(), 3);
    assert_eq!(s.last_event_id, 3);
}

#[test]
fn replay_buffer_keeps_the_last_hundred() {
    let mut store = SessionStore::new();
    store.create(0);
    let s = &mut store.sessions[0];
    for _ in 0..105 {
        s.next_event_id();
    }
    for id in 1..=105u64 {
        s.buffer_message(id, None, format!("event {}", id));
    }
    assert_eq!(s.message_buffer.len(), 100);
    assert_eq!(s.message_buffer[0].event_id, 6);
    assert_eq!(s.message_buffer[99].event_id, 105);
}

#[test]
fn messages_after_returns_the_newer_suffix() {
    let mut store = SessionStore::new();
    store.create(0);
    let s = &mut store.sessions[0];
    for _ in 0..9 {
        s.next_event_id();
    }
    for id in 6..=9u64 {
        s.buffer_message(id, None, format!("data {}", id));
    }
    let replay = s.get_messages_after(7);
    let ids: Vec<u64> = replay.iter().map(|m| m.event_id).collect();
    assert_eq!(ids, vec![8, 9]);
    assert_eq!(replay[0].data, "data 8");
    assert_eq!(replay[1].data, "data 9");
}

#[test]
fn replay_is_idempotent_while_the_buffer_stands() {
    let mut store = SessionStore::new();
    store.create(0);
    let s = &mut store.sessions[0];
    for _ in 0..4 {
        s.next_event_id();
    }
    for id in 1..=4u64 {
        s.buffer_message(id, None, format!("d{}", id));
    }
    let first: Vec<u64> = s.get_messages_after(2).iter().map(|m| m.event_id).collect();
    let second: Vec<u64> = s.get_messages_after(2).iter().map(|m| m.event_id).collect();
    assert_eq!(first, second);
    assert_eq!(first, vec![3, 4]);
}

#[test]
fn replay_older_than_the_buffer_hands_back_what_remains() {
    let mut store = SessionStore::new();
    store.create(0);
    let s = &mut store.sessions[0];
    for _ in 0..120 {
        s.next_event_id();
    }
    for id in 1..=120u64 {
        s.buffer_message(id, None, String::new());
    }
    // Events 1..=20 have been dropped; a client behind them receives
    // whatever suffix remains.
    let replay = s.get_messages_after(5);
    assert_eq!(replay.len(), 100);
    assert_eq!(replay[0].event_id, 21);
}

#[test]
fn expiry_is_strictly_beyond_the_timeout() {
    let mut store = SessionStore::new();
    store.create(0);
    let s = &store.sessions[0];
    assert!(!s.is_expired(1000, 1000));
    assert!(!s.is_expired(1000, 500));
    assert!(s.is_expired(1000, 1001));
}

#[test]
fn sweep_removes_only_the_idle_sessions() {
    let mut store = SessionStore::new();
    let old_sid = store.create(0);
    let fresh_sid = store.create(5_000);
    store.sweep(1_000, 6_000);
    assert_eq!(store.len(), 1);
    assert_eq!(store.sessions[0].id, fresh_sid);
    assert!(store.find(&old_sid).is_none());
}

#[test]
fn touch_keeps_a_session_alive_through_a_sweep() {
    let mut store = SessionStore::new();
    store.create(0);
    store.sessions[0].touch(5_500);
    store.sweep(1_000, 6_000);
    assert_eq!(store.len(), 1);
}

#[test]
fn remove_reports_whether_a_session_was_there() {
    let mut store = SessionStore::new();
    let sid = store.create(0);
    assert!(store.remove(&sid));
    assert_eq!(store.len(), 0);
    assert!(!store.remove(&sid));
}

#[test]
fn find_distinguishes_sessions_by_id() {
    let mut store = SessionStore::new();
    let a = store.create(0);
    let b = store.create(0);
    assert_ne!(a, b);
    let ia = store.find(&a).expect("a present");
    let ib = store.find(&b).expect("b present");
    assert_ne!(ia, ib);
    assert!(store.find("not-an-id").is_none());
}
