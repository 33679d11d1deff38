//! A verified core for a usage-and-connectivity monitor: the request/update
//! queue protocol, the periodic sampler and its notification policy, the
//! parsers for the accounting tool's JSON and text-table reports, the network
//! probes' text handling and speed tiers, and the daily-cost aggregation.
//! Process spawning, sockets, timers and notification dispatch live with the
//! calling program, which hands their results in as plain values.
use vstd::prelude::*;

pub mod clock;
pub mod i18n;
pub mod prefs;
pub mod pricing;
pub mod daily;
pub mod jsonio;
pub mod logger;
pub mod monitor;
pub mod network;
pub mod queue;
pub mod sampler;
pub mod text;
pub mod tui_state;
pub mod usage;
