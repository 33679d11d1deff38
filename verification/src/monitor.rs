use vstd::prelude::*;
use crate::daily::DailyCost;
use crate::network::SpeedLevel;
use crate::usage::CcusageData;

verus! {

/// Requests a front-end sends to the sampler.
#[derive(Clone, Copy, PartialEq, Eq, Structural, Debug)]
pub enum MonitorRequest {
    /// (Re)configure the tick period, in seconds.
    StartMonitoring { interval_secs: u64 },
    /// Suspend ticking; requests are still accepted.
    StopMonitoring,
    /// Run one sampling pass now, on or off schedule.
    ForceUpdate,
}

/// One pass's immutable snapshot; each publication replaces the last one
/// wholesale. The timestamp is epoch milliseconds.
pub struct MonitorData {
    pub network_connected: bool,
    pub latency: Option<String>,
    pub connection_speed: Option<SpeedLevel>,
    pub ccusage_data: CcusageData,
    pub daily_costs: Vec<DailyCost>,
    pub last_update: i64,
}

/// What the sampler publishes for front-ends to drain.
pub enum MonitorUpdate {
    DataUpdate(MonitorData),
    StatusMessage(String),
    ErrorMessage(String),
    /// A front-end switched languages; others should refresh their labels.
    LanguageChanged,
}

} // verus!

verus! {

/// The snapshot before any pass has run.
pub open spec fn is_empty_monitor_data(d: MonitorData) -> bool {
    &&& !d.network_connected
    &&& d.latency is None
    &&& d.connection_speed is None
    &&& crate::usage::is_empty_snapshot(d.ccusage_data)
    &&& d.daily_costs@ == Seq::<DailyCost>::empty()
    &&& d.last_update == 0
}

impl Default for MonitorData {
    fn default() -> (r: Self)
        ensures
            is_empty_monitor_data(r),
    {
        MonitorData {
            network_connected: false,
            latency: None,
            connection_speed: None,
            ccusage_data: CcusageData::default(),
            daily_costs: Vec::new(),
            last_update: 0,
        }
    }
}

} // verus!
