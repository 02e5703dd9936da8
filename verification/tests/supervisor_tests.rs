use mcp_citadel::config::ServerConfig;
use mcp_citadel::supervisor::{HealthAction, HubManager, PollOutcome};

fn spec_named(name: &str) -> ServerConfig {
    ServerConfig {
        name: name.to_string(),
        command: format!("{}-cmd", name),
        args: Vec::new(),
        env: Vec::new(),
    }
}

fn hub_with(names: &[&str]) -> HubManager {
    let configs: Vec<ServerConfig> = names.iter().map(|n| spec_named(n)).collect();
    HubManager::new(configs, 0)
}

#[test]
fn failed_initial_start_leaves_child_absent() {
    let mut hub = hub_with(&["beta"]);
    hub.record_start_outcome(0, false, 0);
    assert_eq!(hub.server_count(), 0);
    assert_eq!(hub.begin_send("beta"), None);
}

#[test]
fn fast_crash_removes_child_and_keeps_count() {
    let mut hub = hub_with(&["beta"]);
    hub.record_start_outcome(0, true, 0);
    let action = hub.health_step(0, PollOutcome::Exited, 3_000);
    assert!(matches!(action, HealthAction::FastCrashRemoved));
    assert_eq!(hub.server_count(), 0);
    assert_eq!(hub.restart_counts[0], 0);
    assert_eq!(hub.begin_send("beta"), None);
}

#[test]
fn mid_life_crash_is_restarted_and_counted() {
    let mut hub = hub_with(&["gamma"]);
    hub.record_start_outcome(0, true, 0);
    let action = hub.health_step(0, PollOutcome::Exited, 20_000);
    assert!(matches!(action, HealthAction::RestartPending));
    assert_eq!(hub.restart_counts[0], 1);
    hub.record_restart_outcome(0, true, 20_100);
    assert_eq!(hub.server_count(), 1);
    let slot = hub.begin_send("gamma");
    assert!(slot.is_some());
}

#[test]
fn restart_count_never_passes_the_bound() {
    let mut hub = hub_with(&["delta"]);
    let mut now: u64 = 0;
    hub.record_start_outcome(0, true, now);
    for expected in 1..=3u32 {
        now += 10_000;
        let action = hub.health_step(0, PollOutcome::Exited, now);
        assert!(matches!(action, HealthAction::RestartPending));
        assert_eq!(hub.restart_counts[0], expected);
        hub.record_restart_outcome(0, true, now);
    }
    now += 10_000;
    let action = hub.health_step(0, PollOutcome::Exited, now);
    assert!(matches!(action, HealthAction::GaveUpRemoved));
    assert_eq!(hub.restart_counts[0], 3);
    assert_eq!(hub.server_count(), 0);
}

#[test]
fn failed_restart_is_retried_on_the_next_tick() {
    let mut hub = hub_with(&["gamma"]);
    hub.record_start_outcome(0, true, 0);
    let action = hub.health_step(0, PollOutcome::Exited, 20_000);
    assert!(matches!(action, HealthAction::RestartPending));
    hub.record_restart_outcome(0, false, 20_000);
    // The dead entry stays, so the next tick finds the child exited
    // again and asks for another start.
    let action = hub.health_step(0, PollOutcome::Exited, 50_000);
    assert!(matches!(action, HealthAction::RestartPending));
    assert_eq!(hub.restart_counts[0], 2);
    hub.record_restart_outcome(0, true, 50_100);
    assert!(hub.begin_send("gamma").is_some());
}

#[test]
fn healthy_child_resets_its_count() {
    let mut hub = hub_with(&["epsilon"]);
    hub.record_start_outcome(0, true, 0);
    hub.health_step(0, PollOutcome::Exited, 10_000);
    assert_eq!(hub.restart_counts[0], 1);
    hub.record_restart_outcome(0, true, 10_100);
    let action = hub.health_step(0, PollOutcome::Running, 40_000);
    assert!(matches!(action, HealthAction::KeptAlive));
    assert_eq!(hub.restart_counts[0], 0);
}

#[test]
fn health_step_without_live_child_does_nothing() {
    let mut hub = hub_with(&["zeta"]);
    let action = hub.health_step(0, PollOutcome::Exited, 10_000);
    assert!(matches!(action, HealthAction::NotLive));
}

#[test]
fn poll_failure_changes_nothing() {
    let mut hub = hub_with(&["eta"]);
    hub.record_start_outcome(0, true, 0);
    let action = hub.health_step(0, PollOutcome::PollFailed, 10_000);
    assert!(matches!(action, HealthAction::PollErrorIgnored));
    assert_eq!(hub.server_count(), 1);
    assert_eq!(hub.restart_counts[0], 0);
}

#[test]
fn one_request_slot_per_child() {
    let mut hub = hub_with(&["alpha"]);
    hub.record_start_outcome(0, true, 0);
    let first = hub.begin_send("alpha");
    assert_eq!(first, Some(0));
    assert_eq!(hub.begin_send("alpha"), None);
    hub.finish_send(0);
    assert_eq!(hub.begin_send("alpha"), Some(0));
}

#[test]
fn unknown_name_gets_no_slot() {
    let mut hub = hub_with(&["alpha"]);
    hub.record_start_outcome(0, true, 0);
    assert_eq!(hub.begin_send("missing"), None);
}

#[test]
fn list_servers_names_the_live_children() {
    let mut hub = hub_with(&["alpha", "beta"]);
    hub.record_start_outcome(0, true, 0);
    hub.record_start_outcome(1, true, 0);
    assert_eq!(hub.list_servers(), vec!["alpha".to_string(), "beta".to_string()]);
    assert_eq!(hub.server_count(), 2);
}

#[test]
fn uptime_counts_from_the_start_mark() {
    let hub = HubManager::new(Vec::new(), 1_000);
    assert_eq!(hub.uptime_ms(4_500), 3_500);
    assert_eq!(hub.uptime_ms(500), 0);
}

#[test]
fn merged_env_lets_the_child_win() {
    let base = vec![
        ("PATH".to_string(), "/usr/bin".to_string()),
        ("HOME".to_string(), "/root".to_string()),
    ];
    let overrides = vec![("PATH".to_string(), "/custom/bin".to_string())];
    let merged = mcp_citadel::supervisor::merge_env(&base, &overrides);
    assert_eq!(
        merged,
        vec![
            ("HOME".to_string(), "/root".to_string()),
            ("PATH".to_string(), "/custom/bin".to_string()),
        ]
    );
}

#[test]
fn merged_env_keeps_both_sides_without_overlap() {
    let base = vec![("A".to_string(), "1".to_string())];
    let overrides = vec![("B".to_string(), "2".to_string())];
    let merged = mcp_citadel::supervisor::merge_env(&base, &overrides);
    assert_eq!(
        merged,
        vec![("A".to_string(), "1".to_string()), ("B".to_string(), "2".to_string())]
    );
}
