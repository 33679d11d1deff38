use cc_monitor::monitor::{MonitorRequest, MonitorUpdate};
use cc_monitor::queue::{dequeue_monitor_updates, enqueue_monitor_update, new_update_queue};
use cc_monitor::sampler::{Sampler, SubmitError};
use cc_monitor::usage::CcusageData;

fn run_pass(s: &mut Sampler, q: &mut crossbeam_queue::SegQueue<MonitorUpdate>, connected: bool, now: i64) -> cc_monitor::sampler::PassNotifications {
    s.finish_pass(q, connected, None, false, None, CcusageData::default(), Vec::new(), now)
}

#[test]
fn force_update_runs_whatever_the_flag() {
    let mut s = Sampler::new(0);
    assert!(!s.monitoring_active);
    assert!(s.handle_request(MonitorRequest::ForceUpdate, 0));
    assert!(s.handle_request(MonitorRequest::StartMonitoring { interval_secs: 5 }, 0) == false);
    assert!(s.handle_request(MonitorRequest::ForceUpdate, 1) == true);
}

#[test]
fn pass_publishes_exactly_one_data_update() {
    let mut s = Sampler::new(0);
    let mut q = new_update_queue();
    let _ = run_pass(&mut s, &mut q, true, 1000);
    let updates = dequeue_monitor_updates(&mut q);
    assert_eq!(updates.len(), 1);
    match &updates[0] {
        MonitorUpdate::DataUpdate(d) => {
            assert!(d.network_connected);
            assert_eq!(d.last_update, 1000);
        }
        _ => panic!("expected a data update"),
    }
}

#[test]
fn ticks_respect_the_interval() {
    let mut s = Sampler::new(0);
    assert!(!s.on_tick(100));
    let _ = s.handle_request(MonitorRequest::StartMonitoring { interval_secs: 2 }, 0);
    assert!(!s.on_tick(1000));
    assert!(s.on_tick(2000));
    assert!(!s.on_tick(3000));
    assert!(s.on_tick(4000));
    let _ = s.handle_request(MonitorRequest::StopMonitoring, 4000);
    assert!(!s.on_tick(10_000));
}

#[test]
fn start_replaces_the_schedule() {
    let mut s = Sampler::new(0);
    let _ = s.handle_request(MonitorRequest::StartMonitoring { interval_secs: 10 }, 0);
    assert!(!s.on_tick(5000));
    let _ = s.handle_request(MonitorRequest::StartMonitoring { interval_secs: 1 }, 5000);
    assert!(s.on_tick(6000));
}

#[test]
fn first_pass_never_notifies_an_edge() {
    let mut s = Sampler::new(0);
    let mut q = new_update_queue();
    let notes = run_pass(&mut s, &mut q, true, 1000);
    assert!(!notes.network_restored);
    assert!(!notes.network_lost);
}

#[test]
fn edges_notify_exactly_on_change() {
    let mut s = Sampler::new(0);
    let mut q = new_update_queue();
    let _ = run_pass(&mut s, &mut q, true, 1000);
    let lost = run_pass(&mut s, &mut q, false, 2000);
    assert!(lost.network_lost && !lost.network_restored);
    let same = run_pass(&mut s, &mut q, false, 3000);
    assert!(!same.network_lost && !same.network_restored);
    let back = run_pass(&mut s, &mut q, true, 4000);
    assert!(back.network_restored && !back.network_lost);
    let steady = run_pass(&mut s, &mut q, true, 5000);
    assert!(!steady.network_restored && !steady.network_lost);
}

#[test]
fn usage_digest_once_per_hour_at_one_pass_per_second() {
    let mut s = Sampler::new(0);
    let mut q = new_update_queue();
    let mut fired = 0;
    for k in 1..=3600i64 {
        let notes = run_pass(&mut s, &mut q, true, k * 1000);
        if notes.usage_digest {
            fired += 1;
            assert_eq!(k, 3600);
        }
        let _ = dequeue_monitor_updates(&mut q);
    }
    assert_eq!(fired, 1);
}

#[test]
fn digest_remaining_unknown_without_reset_time() {
    let mut s = Sampler::new(0);
    let mut q = new_update_queue();
    let notes = run_pass(&mut s, &mut q, true, 3_600_000);
    assert!(notes.usage_digest);
    assert_eq!(notes.digest_remaining, "unknown");
}

#[test]
fn digest_remaining_counts_down_to_reset() {
    let mut s = Sampler::new(0);
    let mut q = new_update_queue();
    let mut usage = CcusageData::default();
    usage.reset_time = Some(3_600_000 + 90 * 60_000);
    let notes = s.finish_pass(&mut q, true, None, false, None, usage, Vec::new(), 3_600_000);
    assert!(notes.usage_digest);
    assert_eq!(notes.digest_remaining, "1 h 30 m");
}

#[test]
fn submit_fails_before_start() {
    let mut s = Sampler::new(0);
    assert_eq!(s.submit_monitor_request(MonitorRequest::ForceUpdate), Err(SubmitError::NotStarted));
    s.start();
    assert_eq!(s.submit_monitor_request(MonitorRequest::ForceUpdate), Ok(()));
    assert_eq!(s.take_request(), Some(MonitorRequest::ForceUpdate));
    assert_eq!(s.take_request(), None);
}

#[test]
fn startup_request_is_one_second_monitoring() {
    assert_eq!(Sampler::initial_request(), MonitorRequest::StartMonitoring { interval_secs: 1 });
}

#[test]
fn update_queue_is_first_in_first_out() {
    let mut q = new_update_queue();
    enqueue_monitor_update(&mut q, MonitorUpdate::StatusMessage(String::from("a")));
    enqueue_monitor_update(&mut q, MonitorUpdate::ErrorMessage(String::from("b")));
    enqueue_monitor_update(&mut q, MonitorUpdate::LanguageChanged);
    let us = dequeue_monitor_updates(&mut q);
    assert_eq!(us.len(), 3);
    assert!(matches!(us[0], MonitorUpdate::StatusMessage(_)));
    assert!(matches!(us[1], MonitorUpdate::ErrorMessage(_)));
    assert!(matches!(us[2], MonitorUpdate::LanguageChanged));
    assert_eq!(dequeue_monitor_updates(&mut q).len(), 0);
}
