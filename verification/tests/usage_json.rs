use cc_monitor::usage::{CcusageMonitor, SessionStatus};

fn start_ms(rfc: &str) -> i64 {
    chrono::DateTime::parse_from_rfc3339(rfc).unwrap().timestamp_millis()
}

#[test]
fn active_block_snapshot() {
    let t = "2025-06-17T03:00:00Z";
    let json = format!(
        "{{\"blocks\":[{{\"isActive\":true,\"totalTokens\":1000,\"costUSD\":2.5,\"startTime\":\"{}\",\"models\":[\"big-opus-latest\"]}}]}}",
        t
    );
    let m = CcusageMonitor::new();
    let now = start_ms(t) + 60_000;
    let data = m.parse_ccusage_json(&json, now);
    assert_eq!(data.status, SessionStatus::Active);
    assert_eq!(data.tokens_num, 1000);
    assert_eq!(data.tokens, "1000");
    assert_eq!(data.cost_micro, 2_500_000);
    assert_eq!(data.cost, "$2.50");
    assert_eq!(data.reset_time, Some(start_ms(t) + 5 * 3600 * 1000));
    assert_eq!(data.model, "opus-4");
    assert_eq!(data.remaining_time, "4 h 59 m");
    assert_eq!(data.session_start.len(), 8);
}

#[test]
fn no_active_block_takes_last_as_completed() {
    let json = "{\"blocks\":[\
        {\"isActive\":false,\"totalTokens\":10,\"costUSD\":0.1,\"startTime\":\"2025-06-16T01:00:00Z\"},\
        {\"isActive\":false,\"totalTokens\":700,\"costUSD\":1.75,\"startTime\":\"2025-06-17T01:00:00Z\",\"actualEndTime\":\"2025-06-17T02:30:00Z\"}]}";
    let m = CcusageMonitor::new();
    let data = m.parse_ccusage_json(json, 0);
    assert_eq!(data.status, SessionStatus::Completed);
    assert_eq!(data.tokens_num, 700);
    assert_eq!(data.cost_micro, 1_750_000);
    assert_eq!(data.reset_time, None);
    assert_eq!(data.remaining_time, "completed");
}

#[test]
fn projection_minutes_win_over_clock() {
    let json = "{\"blocks\":[{\"isActive\":true,\"totalTokens\":1,\"costUSD\":0.0,\
        \"startTime\":\"2025-06-17T03:00:00Z\",\"projection\":{\"remainingMinutes\":90}}]}";
    let m = CcusageMonitor::new();
    let data = m.parse_ccusage_json(json, start_ms("2025-06-17T03:00:00Z"));
    assert_eq!(data.remaining_time, "1 h 30 m");
}

#[test]
fn expired_block_labelled() {
    let t = "2025-06-17T03:00:00Z";
    let json = format!(
        "{{\"blocks\":[{{\"isActive\":true,\"totalTokens\":1,\"costUSD\":0.0,\"startTime\":\"{}\"}}]}}",
        t
    );
    let m = CcusageMonitor::new();
    let now = start_ms(t) + 6 * 3600 * 1000;
    let data = m.parse_ccusage_json(&json, now);
    assert_eq!(data.remaining_time, "expired");
}

#[test]
fn model_names_canonical_and_deduplicated() {
    let json = "{\"blocks\":[{\"isActive\":true,\"totalTokens\":1,\"costUSD\":0.0,\
        \"startTime\":\"2025-06-17T03:00:00Z\",\
        \"models\":[\"big-opus-latest\",\"big-opus-latest\",\"mid-sonnet-latest\",\"other-model\"]}]}";
    let m = CcusageMonitor::new();
    let data = m.parse_ccusage_json(json, 0);
    assert_eq!(data.model, "opus-4, sonnet-4, other-model");
}

#[test]
fn malformed_json_yields_empty_snapshot() {
    let m = CcusageMonitor::new();
    let data = m.parse_ccusage_json("not json at all", 0);
    assert_eq!(data.status, SessionStatus::Unknown);
    assert_eq!(data.tokens_num, 0);
    assert_eq!(data.cost_micro, 0);
    assert_eq!(data.reset_time, None);
}

#[test]
fn missing_blocks_yields_empty_snapshot() {
    let m = CcusageMonitor::new();
    let data = m.parse_ccusage_json("{\"other\":1}", 0);
    assert_eq!(data.status, SessionStatus::Unknown);
}

#[test]
fn empty_blocks_yields_empty_snapshot() {
    let m = CcusageMonitor::new();
    let data = m.parse_ccusage_json("{\"blocks\":[]}", 0);
    assert_eq!(data.status, SessionStatus::Unknown);
}

#[test]
fn failure_counter_resets_at_three_and_updates_once() {
    let mut m = CcusageMonitor::new();
    assert_eq!(m.on_invocation_failure(), false);
    assert_eq!(m.on_invocation_failure(), false);
    assert_eq!(m.on_invocation_failure(), true);
    assert_eq!(m.failed_count, 0);
    assert_eq!(m.on_invocation_failure(), false);
}

#[test]
fn success_clears_failures() {
    let mut m = CcusageMonitor::new();
    let _ = m.on_invocation_failure();
    m.on_invocation_success();
    assert_eq!(m.failed_count, 0);
}

#[test]
fn calculate_mode_on_the_minute_only() {
    let mut m = CcusageMonitor::new();
    assert!(m.choose_calculate_mode(120));
    assert!(!m.choose_calculate_mode(121));
    let _ = m.on_invocation_failure();
    assert!(!m.choose_calculate_mode(120));
}

#[test]
fn invocation_argument_lists() {
    assert_eq!(
        cc_monitor::usage::blocks_args(true),
        vec!["--yes", "ccusage@latest", "blocks", "--mode", "calculate", "--json"]
    );
    assert_eq!(cc_monitor::usage::blocks_args(false), vec!["--yes", "ccusage@latest", "blocks", "--json"]);
    assert_eq!(cc_monitor::usage::daily_args(), vec!["--yes", "ccusage@latest", "daily", "--order", "asc"]);
    assert_eq!(cc_monitor::usage::update_args(), vec!["--yes", "ccusage@latest", "--version"]);
}

#[test]
fn newest_active_block_wins() {
    let json = "{\"blocks\":[\
        {\"isActive\":true,\"totalTokens\":11,\"costUSD\":0.5,\"startTime\":\"2025-06-15T01:00:00Z\"},\
        {\"isActive\":false,\"totalTokens\":22,\"costUSD\":1.0,\"startTime\":\"2025-06-16T01:00:00Z\"},\
        {\"isActive\":true,\"totalTokens\":33,\"costUSD\":1.5,\"startTime\":\"2025-06-17T01:00:00Z\"}]}";
    let m = CcusageMonitor::new();
    let data = m.parse_ccusage_json(json, 0);
    assert_eq!(data.status, SessionStatus::Active);
    assert_eq!(data.tokens_num, 33);
    assert_eq!(data.cost_micro, 1_500_000);
    assert_eq!(data.reset_time, Some(start_ms("2025-06-17T01:00:00Z") + 5 * 3600 * 1000));
}
