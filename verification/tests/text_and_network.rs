use cc_monitor::network::{parse_ping_output, parse_proxy_settings, resolve_probe_target, NetworkMonitor, SpeedLevel};
use cc_monitor::text::{cost_display, format_number, hm_label};

#[test]
fn speed_classification_tiers() {
    let m = NetworkMonitor::new();
    assert_eq!(m.classify_speed(50), SpeedLevel::Excellent);
    assert_eq!(m.classify_speed(150), SpeedLevel::Good);
    assert_eq!(m.classify_speed(400), SpeedLevel::Fair);
    assert_eq!(m.classify_speed(600), SpeedLevel::Slow);
}

#[test]
fn speed_classification_boundaries() {
    let m = NetworkMonitor::new();
    assert_eq!(m.classify_speed(99), SpeedLevel::Excellent);
    assert_eq!(m.classify_speed(100), SpeedLevel::Good);
    assert_eq!(m.classify_speed(199), SpeedLevel::Good);
    assert_eq!(m.classify_speed(200), SpeedLevel::Fair);
    assert_eq!(m.classify_speed(499), SpeedLevel::Fair);
    assert_eq!(m.classify_speed(500), SpeedLevel::Slow);
}

#[test]
fn ping_summary_line_rounds_average() {
    let out = "PING 8.8.8.8 (8.8.8.8): 56 data bytes\n64 bytes from 8.8.8.8: icmp_seq=0 ttl=117\nround-trip min/avg/max/stddev = 12.3/15.64/20.1/2.2 ms\n";
    assert_eq!(parse_ping_output(out), "16ms");
}

#[test]
fn ping_time_line_rounds_echo() {
    let out = "64 bytes from 8.8.8.8: icmp_seq=1 ttl=117 time=23.4 ms\n";
    assert_eq!(parse_ping_output(out), "23ms");
}

#[test]
fn ping_unparseable_defaults() {
    assert_eq!(parse_ping_output("no summary here"), "< 5ms");
}

#[test]
fn ping_raw_token_kept_when_not_numeric() {
    let out = "round-trip min/avg/max/stddev = a/b/c/d ms\n";
    assert_eq!(parse_ping_output(out), "bms");
}

#[test]
fn proxy_settings_enabled() {
    let out = "Enabled: Yes\nServer: proxy.example\nPort: 8080\n";
    assert_eq!(parse_proxy_settings(out), Some(String::from("proxy.example:8080")));
}

#[test]
fn proxy_settings_disabled() {
    let out = "Enabled: No\nServer: proxy.example\nPort: 8080\n";
    assert_eq!(parse_proxy_settings(out), None);
}

#[test]
fn probe_target_strips_scheme() {
    assert_eq!(resolve_probe_target(Some(String::from("http://127.0.0.1:7890"))), "127.0.0.1:7890");
    assert_eq!(resolve_probe_target(Some(String::from("https://proxy:443"))), "proxy:443");
    assert_eq!(resolve_probe_target(Some(String::from("10.0.0.1:3128"))), "10.0.0.1:3128");
}

#[test]
fn probe_target_default_address() {
    assert_eq!(resolve_probe_target(None), "1.1.1.1:443");
}

#[test]
fn format_number_scales() {
    assert_eq!(format_number(500), "500");
    assert_eq!(format_number(0), "0");
    assert_eq!(format_number(-42), "-42");
    assert_eq!(format_number(1500), "1.5K");
    assert_eq!(format_number(2_500_000), "2.5M");
    assert_eq!(format_number(999), "999");
    assert_eq!(format_number(1000), "1.0K");
}

#[test]
fn cost_display_rounds_to_cents() {
    assert_eq!(cost_display(2_500_000), "$2.50");
    assert_eq!(cost_display(0), "$0.00");
    assert_eq!(cost_display(12_505_000), "$12.51");
    assert_eq!(cost_display(999_999), "$1.00");
}

#[test]
fn hm_label_format() {
    assert_eq!(hm_label(4, 59), "4 h 59 m");
    assert_eq!(hm_label(0, 0), "0 h 0 m");
}
