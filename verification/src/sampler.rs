use vstd::prelude::*;
use crossbeam_queue::SegQueue;
use vstd::string::StringExecFns;
use crate::daily::DailyCost;
use crate::monitor::{MonitorData, MonitorRequest, MonitorUpdate};
use crate::network::SpeedLevel;
use crate::queue::{enqueue_monitor_update, update_queue_items};
use crate::text::{hm_label, hm_label_spec};
use crate::usage::CcusageData;

verus! {

/// Submitting to a sampler that was never started is the one error this core
/// hands outward.
#[derive(Clone, Copy, PartialEq, Eq, Structural, Debug)]
pub enum SubmitError {
    NotStarted,
}

/// How far instants and spans may lie from the epoch: a thousand times the
/// realistic range, and still far from the integer limits.
pub open spec fn max_instant_ms() -> int {
    300000000000000000
}

/// Longest accepted tick interval, in seconds.
pub open spec fn max_interval_secs() -> int {
    1000000000
}

/// The sampler's control state as specifications see it: the monitoring flag,
/// the tick period, and when the next tick is due.
pub open spec fn ctl_of(s: Sampler) -> (bool, u64, int) {
    (s.monitoring_active, s.interval_secs, s.next_tick_at_ms as int)
}

/// What a request does to the control state, and whether it runs a pass now:
/// starting replaces the schedule and takes effect at the next tick, stopping
/// clears the flag, and a forced update runs a pass whatever the flag.
pub open spec fn ctl_request(c: (bool, u64, int), r: MonitorRequest, now: int) -> (
    (bool, u64, int),
    bool,
) {
    match r {
        MonitorRequest::StartMonitoring { interval_secs } => {
            ((true, interval_secs, now + interval_secs * 1000), false)
        },
        MonitorRequest::StopMonitoring => { ((false, c.1, c.2), false) },
        MonitorRequest::ForceUpdate => { (c, true) },
    }
}

/// What a timer tick does: it runs a pass only when monitoring is active and
/// the tick is due, and the pass books the next tick one period later.
pub open spec fn ctl_tick(c: (bool, u64, int), now: int) -> ((bool, u64, int), bool) {
    if c.0 && now >= c.2 {
        ((c.0, c.1, now + c.1 * 1000), true)
    } else {
        (c, false)
    }
}

/// The connectivity-edge policy: restored on a false-to-true edge, lost on a
/// true-to-false edge, nothing on the first pass or without a change.
pub open spec fn edge_restored(last: Option<bool>, connected: bool) -> bool {
    last == Some(false) && connected
}

pub open spec fn edge_lost(last: Option<bool>, connected: bool) -> bool {
    last == Some(true) && !connected
}

/// The periodic-digest policy: due once a full interval has passed since the
/// last digest.
pub open spec fn digest_due(last_notification: int, interval: int, now: int) -> bool {
    now - last_notification >= interval
}

/// The digest's remaining-time text: the time to the block's reset when one is
/// known, else `unknown`.
pub open spec fn digest_remaining_spec(reset_time: Option<i64>, now: int) -> Seq<char> {
    match reset_time {
        Some(rt) => if rt > now {
            hm_label_spec((((rt - now) / 3600000)) as nat, ((((rt - now) / 60000)) % 60) as nat)
        } else {
            "expired"@
        },
        None => "unknown"@,
    }
}

/// What one pass decided: which notifications to fire, and the digest's
/// content when one is due. Dispatch itself is the caller's fire-and-forget
/// side.
pub struct PassNotifications {
    pub network_restored: bool,
    pub network_lost: bool,
    pub usage_digest: bool,
    pub digest_tokens: i64,
    pub digest_cost_micro: u64,
    pub digest_remaining: String,
}

/// The monitoring engine's single owner of control and notification state.
/// One instance runs per process; producers hold a handle to it.
pub struct Sampler {
    pub started: bool,
    pub monitoring_active: bool,
    pub interval_secs: u64,
    pub next_tick_at_ms: i64,
    pub last_network_status: Option<bool>,
    pub last_notification_time_ms: i64,
    pub notification_interval_ms: i64,
    pub pending_requests: Vec<MonitorRequest>,
}

/// The bounds every reachable sampler state keeps, so that schedule
/// arithmetic stays within the machine's integers.
pub open spec fn sampler_wf(s: Sampler) -> bool {
    &&& 0 <= s.interval_secs <= max_interval_secs()
    &&& -2 * max_instant_ms() <= s.next_tick_at_ms <= 2 * max_instant_ms()
    &&& -max_instant_ms() <= s.last_notification_time_ms <= max_instant_ms()
    &&& 0 <= s.notification_interval_ms <= max_instant_ms()
}

impl Sampler {
    /// A fresh sampler: not started, not monitoring, on the three-second
    /// default period, with the hour-long digest interval anchored at `now`.
    pub fn new(now_ms: i64) -> (r: Sampler)
        requires
            -max_instant_ms() <= now_ms <= max_instant_ms(),
        ensures
            sampler_wf(r),
            !r.started,
            !r.monitoring_active,
            r.interval_secs == 3,
            r.last_network_status is None,
            r.last_notification_time_ms == now_ms,
            r.notification_interval_ms == 3600000,
            r.pending_requests@ == Seq::<MonitorRequest>::empty(),
    {
        Sampler {
            started: false,
            monitoring_active: false,
            interval_secs: 3,
            next_tick_at_ms: now_ms,
            last_network_status: None,
            last_notification_time_ms: now_ms,
            notification_interval_ms: 3600000,
            pending_requests: Vec::new(),
        }
    }

    /// Mark the sampler started; only then does `submit_monitor_request`
    /// accept requests.
    pub fn start(&mut self)
        ensures
            *final(self) == (Sampler { started: true, ..*old(self) }),
    {
        self.started = true;
    }

    /// The request a freshly started sampler queues to itself, so the first
    /// real tick comes quickly.
    pub fn initial_request() -> (r: MonitorRequest)
        ensures
            r == (MonitorRequest::StartMonitoring { interval_secs: 1 }),
    {
        MonitorRequest::StartMonitoring { interval_secs: 1 }
    }

    /// Accept a request from any producer; the one failure is a sampler that
    /// was never started.
    pub fn submit_monitor_request(&mut self, request: MonitorRequest) -> (r: Result<
        (),
        SubmitError,
    >)
        ensures
            old(self).started ==> r is Ok && *final(self) == (Sampler {
                pending_requests: final(self).pending_requests,
                ..*old(self)
            }) && final(self).pending_requests@ == old(self).pending_requests@.push(request),
            !old(self).started ==> r == Result::<(), SubmitError>::Err(SubmitError::NotStarted)
                && *final(self) == *old(self),
    {
        if self.started {
            self.pending_requests.push(request);
            Ok(())
        } else {
            Err(SubmitError::NotStarted)
        }
    }

    /// Take the oldest pending request.
    pub fn take_request(&mut self) -> (r: Option<MonitorRequest>)
        ensures
            old(self).pending_requests@.len() == 0 ==> r is None && *final(self) == *old(self),
            old(self).pending_requests@.len() > 0 ==> r == Some(old(self).pending_requests@[0])
                && *final(self) == (Sampler {
                pending_requests: final(self).pending_requests,
                ..*old(self)
            }) && final(self).pending_requests@ == old(self).pending_requests@.drop_first(),
    {
        if self.pending_requests.len() > 0 {
            let r = self.pending_requests.remove(0);
            proof {
                assert(self.pending_requests@ =~= old(self).pending_requests@.drop_first());
            }
            Some(r)
        } else {
            None
        }
    }

    /// Apply one request to the control state; the result says whether to run
    /// a sampling pass right away.
    pub fn handle_request(&mut self, request: MonitorRequest, now_ms: i64) -> (run_pass: bool)
        requires
            sampler_wf(*old(self)),
            -max_instant_ms() <= now_ms <= max_instant_ms(),
            request matches MonitorRequest::StartMonitoring { interval_secs } ==> interval_secs
                <= max_interval_secs(),
        ensures
            sampler_wf(*final(self)),
            (ctl_of(*final(self)), run_pass) == ctl_request(ctl_of(*old(self)), request, now_ms as int),
            final(self).started == old(self).started,
            final(self).last_network_status == old(self).last_network_status,
            final(self).last_notification_time_ms == old(self).last_notification_time_ms,
            final(self).notification_interval_ms == old(self).notification_interval_ms,
            final(self).pending_requests == old(self).pending_requests,
            run_pass == (request is ForceUpdate),
    {
        match request {
            MonitorRequest::StartMonitoring { interval_secs } => {
                self.monitoring_active = true;
                self.interval_secs = interval_secs;
                self.next_tick_at_ms = now_ms + (interval_secs as i64) * 1000;
                false
            },
            MonitorRequest::StopMonitoring => {
                self.monitoring_active = false;
                false
            },
            MonitorRequest::ForceUpdate => true,
        }
    }

    /// React to the timer: run a pass only when monitoring is active and the
    /// tick is due, and then book the next one a full period ahead.
    pub fn on_tick(&mut self, now_ms: i64) -> (run_pass: bool)
        requires
            sampler_wf(*old(self)),
            -max_instant_ms() <= now_ms <= max_instant_ms(),
        ensures
            sampler_wf(*final(self)),
            (ctl_of(*final(self)), run_pass) == ctl_tick(ctl_of(*old(self)), now_ms as int),
            final(self).started == old(self).started,
            final(self).last_network_status == old(self).last_network_status,
            final(self).last_notification_time_ms == old(self).last_notification_time_ms,
            final(self).notification_interval_ms == old(self).notification_interval_ms,
            final(self).pending_requests == old(self).pending_requests,
    {
        if self.monitoring_active && now_ms >= self.next_tick_at_ms {
            self.next_tick_at_ms = now_ms + (self.interval_secs as i64) * 1000;
            true
        } else {
            false
        }
    }

    /// Close one sampling pass: derive connectivity from the two probes,
    /// decide the notifications, and publish exactly one data update.
    pub fn finish_pass(
        &mut self,
        q: &mut SegQueue<MonitorUpdate>,
        ping_ok: bool,
        latency: Option<String>,
        tcp_ok: bool,
        speed: Option<SpeedLevel>,
        usage: CcusageData,
        daily_costs: Vec<DailyCost>,
        now_ms: i64,
    ) -> (notes: PassNotifications)
        requires
            sampler_wf(*old(self)),
            -max_instant_ms() <= now_ms <= max_instant_ms(),
            usage.reset_time matches Some(rt) ==> -2 * max_instant_ms() <= rt <= 2 * max_instant_ms(),
        ensures
            sampler_wf(*final(self)),
            notes.network_restored == edge_restored(old(self).last_network_status, ping_ok || tcp_ok),
            notes.network_lost == edge_lost(old(self).last_network_status, ping_ok || tcp_ok),
            final(self).last_network_status == Some(ping_ok || tcp_ok),
            notes.usage_digest == digest_due(
                old(self).last_notification_time_ms as int,
                old(self).notification_interval_ms as int,
                now_ms as int,
            ),
            notes.usage_digest ==> final(self).last_notification_time_ms == now_ms,
            !notes.usage_digest ==> final(self).last_notification_time_ms == old(self).last_notification_time_ms,
            notes.usage_digest ==> notes.digest_tokens == usage.tokens_num
                && notes.digest_cost_micro == usage.cost_micro && notes.digest_remaining@
                == digest_remaining_spec(usage.reset_time, now_ms as int),
            ctl_of(*final(self)) == ctl_of(*old(self)),
            final(self).started == old(self).started,
            final(self).notification_interval_ms == old(self).notification_interval_ms,
            update_queue_items(*final(q)) == update_queue_items(*old(q)).push(
                MonitorUpdate::DataUpdate(
                    MonitorData {
                        network_connected: ping_ok || tcp_ok,
                        latency,
                        connection_speed: speed,
                        ccusage_data: usage,
                        daily_costs,
                        last_update: now_ms,
                    },
                ),
            ),
    {
        let connected = ping_ok || tcp_ok;
        let network_restored = self.last_network_status == Some(false) && connected;
        let network_lost = self.last_network_status == Some(true) && !connected;
        self.last_network_status = Some(connected);
        let usage_digest = now_ms - self.last_notification_time_ms
            >= self.notification_interval_ms;
        let digest_tokens = usage.tokens_num;
        let digest_cost_micro = usage.cost_micro;
        let digest_remaining = if usage_digest {
            self.last_notification_time_ms = now_ms;
            match usage.reset_time {
                Some(rt) => {
                    if rt > now_ms {
                        let diff = rt - now_ms;
                        hm_label((diff / 3600000) as u64, ((diff / 60000) % 60) as u64)
                    } else {
                        String::from_str("expired")
                    }
                },
                None => String::from_str("unknown"),
            }
        } else {
            String::new()
        };
        let data = MonitorData {
            network_connected: connected,
            latency,
            connection_speed: speed,
            ccusage_data: usage,
            daily_costs,
            last_update: now_ms,
        };
        enqueue_monitor_update(q, MonitorUpdate::DataUpdate(data));
        PassNotifications {
            network_restored,
            network_lost,
            usage_digest,
            digest_tokens,
            digest_cost_micro,
            digest_remaining,
        }
    }
}

} // verus!

verus! {

/// One thing the sampler's loop reacts to: a request arriving or the timer
/// firing.
pub enum SamplerEvent {
    Arrived(MonitorRequest),
    TickFired,
}

pub open spec fn ctl_step(c: (bool, u64, int), ev: SamplerEvent, now: int) -> (
    (bool, u64, int),
    bool,
) {
    match ev {
        SamplerEvent::Arrived(r) => ctl_request(c, r, now),
        SamplerEvent::TickFired => ctl_tick(c, now),
    }
}

/// The control state after the first `n` timed events.
pub open spec fn ctl_run(
    c0: (bool, u64, int),
    evs: Seq<(int, SamplerEvent)>,
    n: int,
) -> (bool, u64, int)
    decreases n,
{
    if n <= 0 {
        c0
    } else {
        ctl_step(ctl_run(c0, evs, n - 1), evs[n - 1].1, evs[n - 1].0).0
    }
}

/// Event `k` is a tick that runs a pass.
pub open spec fn tick_pass_at(c0: (bool, u64, int), evs: Seq<(int, SamplerEvent)>, k: int) -> bool {
    evs[k].1 is TickFired && ctl_step(ctl_run(c0, evs, k), evs[k].1, evs[k].0).1
}

pub open spec fn is_start_request(ev: SamplerEvent) -> bool {
    ev matches SamplerEvent::Arrived(MonitorRequest::StartMonitoring { .. })
}

proof fn lemma_ctl_run_next_lb(
    c0: (bool, u64, int),
    evs: Seq<(int, SamplerEvent)>,
    a: int,
    b: int,
    lb: int,
)
    requires
        0 <= a <= b <= evs.len(),
        ctl_run(c0, evs, a).2 >= lb,
        forall|k: int| a <= k < b ==> !is_start_request(#[trigger] evs[k].1),
    ensures
        ctl_run(c0, evs, b).2 >= lb,
        ctl_run(c0, evs, b).1 == ctl_run(c0, evs, a).1,
    decreases b - a,
{
    if a < b {
        lemma_ctl_run_next_lb(c0, evs, a, b - 1, lb);
        let c = ctl_run(c0, evs, b - 1);
        assert(!is_start_request(evs[b - 1].1));
        match evs[b - 1].1 {
            SamplerEvent::Arrived(r) => {
                match r {
                    MonitorRequest::StartMonitoring { .. } => {
                        assert(false);
                    },
                    MonitorRequest::StopMonitoring => {},
                    MonitorRequest::ForceUpdate => {},
                }
            },
            SamplerEvent::TickFired => {
                if c.0 && evs[b - 1].0 >= c.2 {
                    assert(evs[b - 1].0 + c.1 * 1000 >= c.2) by (nonlinear_arith)
                        requires
                            evs[b - 1].0 >= c.2,
                            c.1 >= 0,
                    ;
                }
            },
        }
    }
}

/// While one configuration is in force — no start request arrives between
/// them — two tick-run passes lie at least a full tick interval apart,
/// whatever other ticks, stop requests and forced updates come between.
pub proof fn lemma_tick_passes_spaced(
    c0: (bool, u64, int),
    evs: Seq<(int, SamplerEvent)>,
    i: int,
    j: int,
)
    requires
        0 <= i < j < evs.len(),
        tick_pass_at(c0, evs, i),
        tick_pass_at(c0, evs, j),
        forall|k: int| i < k < j ==> !is_start_request(#[trigger] evs[k].1),
    ensures
        evs[j].0 - evs[i].0 >= ctl_run(c0, evs, i).1 * 1000,
{
    let ci = ctl_run(c0, evs, i);
    let lb = evs[i].0 + ci.1 * 1000;
    assert(ctl_run(c0, evs, i + 1) == ctl_step(ci, evs[i].1, evs[i].0).0);
    assert(ctl_run(c0, evs, i + 1).2 == lb);
    lemma_ctl_run_next_lb(c0, evs, i + 1, j, lb);
    let cj = ctl_run(c0, evs, j);
    assert(evs[j].0 >= cj.2);
}

/// A forced update runs a pass whatever the monitoring flag and schedule say,
/// and leaves both as they were.
pub proof fn lemma_force_update_runs(c: (bool, u64, int), now: int)
    ensures
        ctl_request(c, MonitorRequest::ForceUpdate, now).1,
        ctl_request(c, MonitorRequest::ForceUpdate, now).0 == c,
{
}

/// The connectivity notification — restored or lost — fires exactly when the
/// pass's connectivity differs from the previous pass's, and never on the
/// first pass, when there is no previous value.
pub proof fn lemma_edge_notification(last: Option<bool>, connected: bool)
    ensures
        (edge_restored(last, connected) || edge_lost(last, connected)) <==> (last is Some && last->0
            != connected),
        last is None ==> !edge_restored(last, connected) && !edge_lost(last, connected),
{
}

/// The digest anchor after the first `n` passes of a run, each pass moving it
/// to its own time exactly when a full interval has gone by.
pub open spec fn digest_state_after(last0: int, interval: int, times: Seq<int>, n: int) -> int
    decreases n,
{
    if n <= 0 {
        last0
    } else {
        let prev = digest_state_after(last0, interval, times, n - 1);
        if digest_due(prev, interval, times[n - 1]) {
            times[n - 1]
        } else {
            prev
        }
    }
}

/// Pass `k` of the run fires the usage digest.
pub open spec fn digest_fires(last0: int, interval: int, times: Seq<int>, k: int) -> bool {
    digest_due(digest_state_after(last0, interval, times, k), interval, times[k])
}

proof fn lemma_digest_state_lb(last0: int, interval: int, times: Seq<int>, a: int, b: int, lb: int)
    requires
        0 <= a <= b <= times.len(),
        digest_state_after(last0, interval, times, a) >= lb,
        forall|k: int| a <= k < b ==> #[trigger] times[k] >= lb,
    ensures
        digest_state_after(last0, interval, times, b) >= lb,
    decreases b - a,
{
    if a < b {
        lemma_digest_state_lb(last0, interval, times, a, b - 1, lb);
    }
}

/// In any run of passes at nondecreasing times, two passes that both fire the
/// usage digest lie at least the notification interval apart: the digest comes
/// at most once per rolling window.
pub proof fn lemma_digest_spacing(last0: int, interval: int, times: Seq<int>, i: int, j: int)
    requires
        0 <= i < j < times.len(),
        forall|k: int, l: int| 0 <= k <= l < times.len() ==> #[trigger] times[k] <= #[trigger] times[l],
        digest_fires(last0, interval, times, i),
        digest_fires(last0, interval, times, j),
    ensures
        times[j] - times[i] >= interval,
{
    assert(digest_state_after(last0, interval, times, i + 1) == times[i]);
    assert forall|k: int| i + 1 <= k < j implies #[trigger] times[k] >= times[i] by {
        assert(times[i] <= times[k]);
    }
    lemma_digest_state_lb(last0, interval, times, i + 1, j, times[i]);
}

} // verus!

verus! {

/// A start request runs no pass of its own, and after it no tick runs a pass
/// until a full new interval has gone by.
pub proof fn lemma_start_takes_effect_next_tick(
    c: (bool, u64, int),
    interval_secs: u64,
    now: int,
    t2: int,
)
    requires
        t2 < now + interval_secs * 1000,
    ensures
        !ctl_request(c, MonitorRequest::StartMonitoring { interval_secs }, now).1,
        !ctl_tick(
            ctl_request(c, MonitorRequest::StartMonitoring { interval_secs }, now).0,
            t2,
        ).1,
{
}

} // verus!
