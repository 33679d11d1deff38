use vstd::prelude::*;
use vstd::string::StringExecFns;
use crate::text::{append_chars, chars_of_str, dec_digits, replace_all, replace_chars, str_eq, string_of_chars, u64_to_chars};

verus! {

/// The interface languages.
#[derive(Clone, Copy, PartialEq, Eq, Structural, Debug)]
pub enum Language {
    English,
    Chinese,
    Japanese,
}

impl Language {
    /// The language's two-letter code.
    pub fn code(&self) -> (r: &'static str)
        ensures
            r@ == crate::prefs::spec_language_code(*self),
    {
        match self {
            Language::English => "en",
            Language::Chinese => "zh",
            Language::Japanese => "ja",
        }
    }

    pub fn code_string(&self) -> (r: String)
        ensures
            r@ == crate::prefs::spec_language_code(*self),
    {
        String::from_str(self.code())
    }

    /// The language's name, written in itself.
    pub fn name(&self) -> (r: &'static str)
        ensures
            *self is English ==> r@ == "English"@,
            *self is Chinese ==> r@ == "\u{4e2d}\u{6587}"@,
            *self is Japanese ==> r@ == "\u{65e5}\u{672c}\u{8a9e}"@,
    {
        match self {
            Language::English => "English",
            Language::Chinese => "\u{4e2d}\u{6587}",
            Language::Japanese => "\u{65e5}\u{672c}\u{8a9e}",
        }
    }
}

} // verus!

verus! {

/// A language's string table: a display text for each key, and the key itself
/// where the table has no entry.
pub trait Translations {
    spec fn table(&self, key: Seq<char>) -> Option<Seq<char>>;

    fn get(&self, key: &str) -> (r: String)
        ensures
            r@ == (match self.table(key@) {
                Some(t) => t,
                None => key@,
            }),
    ;
}

pub open spec fn english_table(key: Seq<char>) -> Option<Seq<char>> {
    if key == "app.name"@ {
        Some("CC Usage Monitor"@)
    } else if key == "app.version"@ {
        Some("CC Usage Monitor v1.0"@)
    } else if key == "network.title"@ {
        Some("\u{1f310} Network Connection Status"@)
    } else if key == "network.status"@ {
        Some("Status"@)
    } else if key == "network.connected"@ {
        Some("Connected"@)
    } else if key == "network.disconnected"@ {
        Some("Disconnected"@)
    } else if key == "network.detecting"@ {
        Some("Detecting..."@)
    } else if key == "network.speed"@ {
        Some("\u{1f680} Speed"@)
    } else if key == "network.latency"@ {
        Some("Latency"@)
    } else if key == "network.excellent"@ {
        Some("Excellent"@)
    } else if key == "network.good"@ {
        Some("Good"@)
    } else if key == "network.fair"@ {
        Some("Fair"@)
    } else if key == "network.slow"@ {
        Some("Slow"@)
    } else if key == "usage.title"@ {
        Some("\u{1f916} CC Usage Status"@)
    } else if key == "usage.session_start"@ {
        Some("\u{1f4c5} Session Start"@)
    } else if key == "usage.time"@ {
        Some("\u{23f1}\u{fe0f}  Time"@)
    } else if key == "usage.remaining"@ {
        Some("\u{23f0} Remaining"@)
    } else if key == "usage.cost"@ {
        Some("\u{1f4b0} Cost"@)
    } else if key == "usage.model"@ {
        Some("\u{1f916} Model"@)
    } else if key == "usage.status"@ {
        Some("\u{1f4cd} Status"@)
    } else if key == "usage.active"@ {
        Some("\u{26a1} Active"@)
    } else if key == "usage.completed"@ {
        Some("\u{2705} Completed"@)
    } else if key == "usage.running"@ {
        Some("\u{1f504} Running"@)
    } else if key == "usage.inactive"@ {
        Some("\u{23f8}\u{fe0f}  Inactive"@)
    } else if key == "usage.expired"@ {
        Some("Expired"@)
    } else if key == "usage.reset"@ {
        Some("Reset"@)
    } else if key == "history.title"@ {
        Some("\u{1f4ca} Historical Billing Statistics (Token Based)"@)
    } else if key == "history.total"@ {
        Some("\u{1f4b3} Total"@)
    } else if key == "history.average"@ {
        Some("\u{1f4ca} Average"@)
    } else if key == "history.sessions_total"@ {
        Some("\u{1f522} Total Sessions"@)
    } else if key == "history.sessions_active"@ {
        Some("\u{26a1} Active Sessions"@)
    } else if key == "tray.network"@ {
        Some("Network"@)
    } else if key == "tray.usage"@ {
        Some("Usage"@)
    } else if key == "tray.cost"@ {
        Some("Cost"@)
    } else if key == "tray.model"@ {
        Some("Model"@)
    } else if key == "tray.remaining"@ {
        Some("Remaining Time"@)
    } else if key == "tray.status"@ {
        Some("Status"@)
    } else if key == "tray.quit"@ {
        Some("Quit"@)
    } else if key == "tray.checking"@ {
        Some("Checking..."@)
    } else if key == "tray.network_connected"@ {
        Some("\u{1f7e2} Network: Connected"@)
    } else if key == "tray.network_disconnected"@ {
        Some("\u{1f534} Network: Disconnected"@)
    } else if key == "tray.status_active"@ {
        Some("\u{2705} Status: Active"@)
    } else if key == "tray.status_completed"@ {
        Some("\u{23f8}\u{fe0f} Status: Completed"@)
    } else if key == "notification.title"@ {
        Some("CC Usage Monitor"@)
    } else if key == "notification.network_restored"@ {
        Some("\u{1f389} Network Connection Restored"@)
    } else if key == "notification.network_lost"@ {
        Some("\u{1f6a8} Network Connection Lost"@)
    } else if key == "notification.usage_status"@ {
        Some("CC Usage Status"@)
    } else if key == "common.unknown"@ {
        Some("Unknown"@)
    } else if key == "common.hour"@ {
        Some("h"@)
    } else if key == "common.minute"@ {
        Some("m"@)
    } else if key == "common.day"@ {
        Some("day"@)
    } else if key == "common.last_update"@ {
        Some("\u{1f550} Last Update"@)
    } else if key == "common.press_to_quit"@ {
        Some("Press Cmd+Q to Stop Monitoring"@)
    } else if key == "model_pricing.comparison"@ {
        Some("\u{1f4ca} Model Pricing Comparison"@)
    } else {
        None
    }
}

pub open spec fn chinese_table(key: Seq<char>) -> Option<Seq<char>> {
    if key == "app.name"@ {
        Some("CC \u{76d1}\u{6d4b}\u{5668}"@)
    } else if key == "app.version"@ {
        Some("CC \u{7f51}\u{7edc}\u{76d1}\u{6d4b}\u{5668} v1.0"@)
    } else if key == "network.title"@ {
        Some("\u{1f310} \u{7f51}\u{7edc}\u{8fde}\u{63a5}\u{72b6}\u{6001}"@)
    } else if key == "network.status"@ {
        Some("\u{72b6}\u{6001}"@)
    } else if key == "network.connected"@ {
        Some("\u{5df2}\u{8fde}\u{63a5}"@)
    } else if key == "network.disconnected"@ {
        Some("\u{672a}\u{8fde}\u{63a5}"@)
    } else if key == "network.detecting"@ {
        Some("\u{68c0}\u{6d4b}\u{4e2d}..."@)
    } else if key == "network.speed"@ {
        Some("\u{1f680} \u{7f51}\u{901f}"@)
    } else if key == "network.latency"@ {
        Some("\u{5ef6}\u{8fdf}"@)
    } else if key == "network.excellent"@ {
        Some("\u{4f18}\u{79c0}"@)
    } else if key == "network.good"@ {
        Some("\u{826f}\u{597d}"@)
    } else if key == "network.fair"@ {
        Some("\u{4e00}\u{822c}"@)
    } else if key == "network.slow"@ {
        Some("\u{8f83}\u{6162}"@)
    } else if key == "usage.title"@ {
        Some("\u{1f916} CC \u{4f7f}\u{7528}\u{72b6}\u{6001}"@)
    } else if key == "usage.session_start"@ {
        Some("\u{1f4c5} \u{5bf9}\u{8bdd}\u{5f00}\u{59cb}"@)
    } else if key == "usage.time"@ {
        Some("\u{23f1}\u{fe0f}  \u{65f6}\u{95f4}"@)
    } else if key == "usage.remaining"@ {
        Some("\u{23f0} \u{5269}\u{4f59}"@)
    } else if key == "usage.cost"@ {
        Some("\u{1f4b0} \u{8d39}\u{7528}"@)
    } else if key == "usage.model"@ {
        Some("\u{1f916} \u{6a21}\u{578b}"@)
    } else if key == "usage.status"@ {
        Some("\u{1f4cd} \u{72b6}\u{6001}"@)
    } else if key == "usage.active"@ {
        Some("\u{26a1} \u{6d3b}\u{8dc3}\u{4e2d}"@)
    } else if key == "usage.completed"@ {
        Some("\u{2705} \u{5df2}\u{5b8c}\u{6210}"@)
    } else if key == "usage.running"@ {
        Some("\u{1f504} \u{8fd0}\u{884c}\u{4e2d}"@)
    } else if key == "usage.inactive"@ {
        Some("\u{23f8}\u{fe0f}  \u{672a}\u{6d3b}\u{52a8}"@)
    } else if key == "usage.expired"@ {
        Some("\u{5df2}\u{8fc7}\u{671f}"@)
    } else if key == "usage.reset"@ {
        Some("\u{91cd}\u{7f6e}"@)
    } else if key == "history.title"@ {
        Some("\u{1f4ca} \u{5386}\u{53f2}\u{8d26}\u{5355}\u{7edf}\u{8ba1} (\u{57fa}\u{4e8e} Token \u{8ba1}\u{7b97})"@)
    } else if key == "history.total"@ {
        Some("\u{1f4b3} \u{603b}\u{8ba1}"@)
    } else if key == "history.average"@ {
        Some("\u{1f4ca} \u{5e73}\u{5747}"@)
    } else if key == "history.sessions_total"@ {
        Some("\u{1f522} \u{603b}\u{4f1a}\u{8bdd}\u{6570}"@)
    } else if key == "history.sessions_active"@ {
        Some("\u{26a1} \u{6d3b}\u{8dc3}\u{4f1a}\u{8bdd}"@)
    } else if key == "tray.network"@ {
        Some("\u{7f51}\u{7edc}"@)
    } else if key == "tray.usage"@ {
        Some("\u{4f7f}\u{7528}"@)
    } else if key == "tray.cost"@ {
        Some("\u{82b1}\u{8d39}"@)
    } else if key == "tray.model"@ {
        Some("\u{6a21}\u{578b}"@)
    } else if key == "tray.remaining"@ {
        Some("\u{5269}\u{4f59}\u{65f6}\u{95f4}"@)
    } else if key == "tray.status"@ {
        Some("\u{72b6}\u{6001}"@)
    } else if key == "tray.quit"@ {
        Some("\u{9000}\u{51fa}"@)
    } else if key == "tray.checking"@ {
        Some("\u{68c0}\u{6d4b}\u{4e2d}..."@)
    } else if key == "tray.network_connected"@ {
        Some("\u{1f7e2} \u{7f51}\u{7edc}: \u{5df2}\u{8fde}\u{63a5}"@)
    } else if key == "tray.network_disconnected"@ {
        Some("\u{1f534} \u{7f51}\u{7edc}: \u{672a}\u{8fde}\u{63a5}"@)
    } else if key == "tray.status_active"@ {
        Some("\u{2705} \u{72b6}\u{6001}: \u{6d3b}\u{8dc3}\u{4e2d}"@)
    } else if key == "tray.status_completed"@ {
        Some("\u{23f8}\u{fe0f} \u{72b6}\u{6001}: \u{5df2}\u{5b8c}\u{6210}"@)
    } else if key == "notification.title"@ {
        Some("CC \u{76d1}\u{6d4b}\u{5668}"@)
    } else if key == "notification.network_restored"@ {
        Some("\u{1f389} \u{7f51}\u{7edc}\u{8fde}\u{63a5}\u{5df2}\u{6062}\u{590d}"@)
    } else if key == "notification.network_lost"@ {
        Some("\u{1f6a8} \u{7f51}\u{7edc}\u{8fde}\u{63a5}\u{4e2d}\u{65ad}"@)
    } else if key == "notification.usage_status"@ {
        Some("CC \u{4f7f}\u{7528}\u{72b6}\u{6001}"@)
    } else if key == "common.unknown"@ {
        Some("\u{672a}\u{77e5}"@)
    } else if key == "common.hour"@ {
        Some("\u{65f6}"@)
    } else if key == "common.minute"@ {
        Some("\u{5206}"@)
    } else if key == "common.day"@ {
        Some("\u{5929}"@)
    } else if key == "common.last_update"@ {
        Some("\u{1f550} \u{6700}\u{540e}\u{66f4}\u{65b0}"@)
    } else if key == "common.press_to_quit"@ {
        Some("\u{6309} Cmd+Q \u{505c}\u{6b62}\u{76d1}\u{63a7}"@)
    } else {
        None
    }
}

pub open spec fn japanese_table(key: Seq<char>) -> Option<Seq<char>> {
    if key == "app.name"@ {
        Some("CC \u{30e2}\u{30cb}\u{30bf}\u{30fc}"@)
    } else if key == "app.version"@ {
        Some("CC \u{30cd}\u{30c3}\u{30c8}\u{30ef}\u{30fc}\u{30af}\u{30e2}\u{30cb}\u{30bf}\u{30fc} v1.0"@)
    } else if key == "network.title"@ {
        Some("\u{1f310} \u{30cd}\u{30c3}\u{30c8}\u{30ef}\u{30fc}\u{30af}\u{63a5}\u{7d9a}\u{72b6}\u{614b}"@)
    } else if key == "network.status"@ {
        Some("\u{72b6}\u{614b}"@)
    } else if key == "network.connected"@ {
        Some("\u{63a5}\u{7d9a}\u{6e08}\u{307f}"@)
    } else if key == "network.disconnected"@ {
        Some("\u{672a}\u{63a5}\u{7d9a}"@)
    } else if key == "network.detecting"@ {
        Some("\u{691c}\u{51fa}\u{4e2d}..."@)
    } else if key == "network.speed"@ {
        Some("\u{1f680} \u{901f}\u{5ea6}"@)
    } else if key == "network.latency"@ {
        Some("\u{9045}\u{5ef6}"@)
    } else if key == "network.excellent"@ {
        Some("\u{512a}\u{79c0}"@)
    } else if key == "network.good"@ {
        Some("\u{826f}\u{597d}"@)
    } else if key == "network.fair"@ {
        Some("\u{666e}\u{901a}"@)
    } else if key == "network.slow"@ {
        Some("\u{9045}\u{3044}"@)
    } else if key == "usage.title"@ {
        Some("\u{1f916} CC \u{4f7f}\u{7528}\u{72b6}\u{6cc1}"@)
    } else if key == "usage.session_start"@ {
        Some("\u{1f4c5} \u{30bb}\u{30c3}\u{30b7}\u{30e7}\u{30f3}\u{958b}\u{59cb}"@)
    } else if key == "usage.time"@ {
        Some("\u{23f1}\u{fe0f}  \u{6642}\u{9593}"@)
    } else if key == "usage.remaining"@ {
        Some("\u{23f0} \u{6b8b}\u{308a}"@)
    } else if key == "usage.cost"@ {
        Some("\u{1f4b0} \u{30b3}\u{30b9}\u{30c8}"@)
    } else if key == "usage.model"@ {
        Some("\u{1f916} \u{30e2}\u{30c7}\u{30eb}"@)
    } else if key == "usage.status"@ {
        Some("\u{1f4cd} \u{30b9}\u{30c6}\u{30fc}\u{30bf}\u{30b9}"@)
    } else if key == "usage.active"@ {
        Some("\u{26a1} \u{30a2}\u{30af}\u{30c6}\u{30a3}\u{30d6}"@)
    } else if key == "usage.completed"@ {
        Some("\u{2705} \u{5b8c}\u{4e86}"@)
    } else if key == "usage.running"@ {
        Some("\u{1f504} \u{5b9f}\u{884c}\u{4e2d}"@)
    } else if key == "usage.inactive"@ {
        Some("\u{23f8}\u{fe0f}  \u{975e}\u{30a2}\u{30af}\u{30c6}\u{30a3}\u{30d6}"@)
    } else if key == "usage.expired"@ {
        Some("\u{671f}\u{9650}\u{5207}\u{308c}"@)
    } else if key == "usage.reset"@ {
        Some("\u{30ea}\u{30bb}\u{30c3}\u{30c8}"@)
    } else if key == "history.title"@ {
        Some("\u{1f4ca} \u{5c65}\u{6b74}\u{8acb}\u{6c42}\u{7d71}\u{8a08}\u{ff08}\u{30c8}\u{30fc}\u{30af}\u{30f3}\u{30d9}\u{30fc}\u{30b9}\u{ff09}"@)
    } else if key == "history.total"@ {
        Some("\u{1f4b3} \u{5408}\u{8a08}"@)
    } else if key == "history.average"@ {
        Some("\u{1f4ca} \u{5e73}\u{5747}"@)
    } else if key == "history.sessions_total"@ {
        Some("\u{1f522} \u{7dcf}\u{30bb}\u{30c3}\u{30b7}\u{30e7}\u{30f3}\u{6570}"@)
    } else if key == "history.sessions_active"@ {
        Some("\u{26a1} \u{30a2}\u{30af}\u{30c6}\u{30a3}\u{30d6}\u{30bb}\u{30c3}\u{30b7}\u{30e7}\u{30f3}"@)
    } else if key == "tray.network"@ {
        Some("\u{30cd}\u{30c3}\u{30c8}\u{30ef}\u{30fc}\u{30af}"@)
    } else if key == "tray.usage"@ {
        Some("\u{4f7f}\u{7528}\u{91cf}"@)
    } else if key == "tray.cost"@ {
        Some("\u{30b3}\u{30b9}\u{30c8}"@)
    } else if key == "tray.model"@ {
        Some("\u{30e2}\u{30c7}\u{30eb}"@)
    } else if key == "tray.remaining"@ {
        Some("\u{6b8b}\u{308a}\u{6642}\u{9593}"@)
    } else if key == "tray.status"@ {
        Some("\u{30b9}\u{30c6}\u{30fc}\u{30bf}\u{30b9}"@)
    } else if key == "tray.quit"@ {
        Some("\u{7d42}\u{4e86}"@)
    } else if key == "tray.checking"@ {
        Some("\u{78ba}\u{8a8d}\u{4e2d}..."@)
    } else if key == "tray.network_connected"@ {
        Some("\u{1f7e2} \u{30cd}\u{30c3}\u{30c8}\u{30ef}\u{30fc}\u{30af}: \u{63a5}\u{7d9a}\u{6e08}\u{307f}"@)
    } else if key == "tray.network_disconnected"@ {
        Some("\u{1f534} \u{30cd}\u{30c3}\u{30c8}\u{30ef}\u{30fc}\u{30af}: \u{672a}\u{63a5}\u{7d9a}"@)
    } else if key == "tray.status_active"@ {
        Some("\u{2705} \u{30b9}\u{30c6}\u{30fc}\u{30bf}\u{30b9}: \u{30a2}\u{30af}\u{30c6}\u{30a3}\u{30d6}"@)
    } else if key == "tray.status_completed"@ {
        Some("\u{23f8}\u{fe0f} \u{30b9}\u{30c6}\u{30fc}\u{30bf}\u{30b9}: \u{5b8c}\u{4e86}"@)
    } else if key == "notification.title"@ {
        Some("CC \u{30e2}\u{30cb}\u{30bf}\u{30fc}"@)
    } else if key == "notification.network_restored"@ {
        Some("\u{1f389} \u{30cd}\u{30c3}\u{30c8}\u{30ef}\u{30fc}\u{30af}\u{63a5}\u{7d9a}\u{304c}\u{5fa9}\u{5143}\u{3055}\u{308c}\u{307e}\u{3057}\u{305f}"@)
    } else if key == "notification.network_lost"@ {
        Some("\u{1f6a8} \u{30cd}\u{30c3}\u{30c8}\u{30ef}\u{30fc}\u{30af}\u{63a5}\u{7d9a}\u{304c}\u{5207}\u{65ad}\u{3055}\u{308c}\u{307e}\u{3057}\u{305f}"@)
    } else if key == "notification.usage_status"@ {
        Some("CC \u{4f7f}\u{7528}\u{72b6}\u{6cc1}"@)
    } else if key == "common.unknown"@ {
        Some("\u{4e0d}\u{660e}"@)
    } else if key == "common.hour"@ {
        Some("\u{6642}\u{9593}"@)
    } else if key == "common.minute"@ {
        Some("\u{5206}"@)
    } else if key == "common.day"@ {
        Some("\u{65e5}"@)
    } else if key == "common.last_update"@ {
        Some("\u{1f550} \u{6700}\u{7d42}\u{66f4}\u{65b0}"@)
    } else if key == "common.press_to_quit"@ {
        Some("Cmd+Q \u{3092}\u{62bc}\u{3057}\u{3066}\u{76e3}\u{8996}\u{3092}\u{505c}\u{6b62}"@)
    } else {
        None
    }
}


pub struct EnglishTranslations;

impl Translations for EnglishTranslations {
    open spec fn table(&self, key: Seq<char>) -> Option<Seq<char>> {
        english_table(key)
    }

    fn get(&self, key: &str) -> (r: String) {
        if str_eq(key, "app.name") {
            String::from_str("CC Usage Monitor")
        } else if str_eq(key, "app.version") {
            String::from_str("CC Usage Monitor v1.0")
        } else if str_eq(key, "network.title") {
            String::from_str("\u{1f310} Network Connection Status")
        } else if str_eq(key, "network.status") {
            String::from_str("Status")
        } else if str_eq(key, "network.connected") {
            String::from_str("Connected")
        } else if str_eq(key, "network.disconnected") {
            String::from_str("Disconnected")
        } else if str_eq(key, "network.detecting") {
            String::from_str("Detecting...")
        } else if str_eq(key, "network.speed") {
            String::from_str("\u{1f680} Speed")
        } else if str_eq(key, "network.latency") {
            String::from_str("Latency")
        } else if str_eq(key, "network.excellent") {
            String::from_str("Excellent")
        } else if str_eq(key, "network.good") {
            String::from_str("Good")
        } else if str_eq(key, "network.fair") {
            String::from_str("Fair")
        } else if str_eq(key, "network.slow") {
            String::from_str("Slow")
        } else if str_eq(key, "usage.title") {
            String::from_str("\u{1f916} CC Usage Status")
        } else if str_eq(key, "usage.session_start") {
            String::from_str("\u{1f4c5} Session Start")
        } else if str_eq(key, "usage.time") {
            String::from_str("\u{23f1}\u{fe0f}  Time")
        } else if str_eq(key, "usage.remaining") {
            String::from_str("\u{23f0} Remaining")
        } else if str_eq(key, "usage.cost") {
            String::from_str("\u{1f4b0} Cost")
        } else if str_eq(key, "usage.model") {
            String::from_str("\u{1f916} Model")
        } else if str_eq(key, "usage.status") {
            String::from_str("\u{1f4cd} Status")
        } else if str_eq(key, "usage.active") {
            String::from_str("\u{26a1} Active")
        } else if str_eq(key, "usage.completed") {
            String::from_str("\u{2705} Completed")
        } else if str_eq(key, "usage.running") {
            String::from_str("\u{1f504} Running")
        } else if str_eq(key, "usage.inactive") {
            String::from_str("\u{23f8}\u{fe0f}  Inactive")
        } else if str_eq(key, "usage.expired") {
            String::from_str("Expired")
        } else if str_eq(key, "usage.reset") {
            String::from_str("Reset")
        } else if str_eq(key, "history.title") {
            String::from_str("\u{1f4ca} Historical Billing Statistics (Token Based)")
        } else if str_eq(key, "history.total") {
            String::from_str("\u{1f4b3} Total")
        } else if str_eq(key, "history.average") {
            String::from_str("\u{1f4ca} Average")
        } else if str_eq(key, "history.sessions_total") {
            String::from_str("\u{1f522} Total Sessions")
        } else if str_eq(key, "history.sessions_active") {
            String::from_str("\u{26a1} Active Sessions")
        } else if str_eq(key, "tray.network") {
            String::from_str("Network")
        } else if str_eq(key, "tray.usage") {
            String::from_str("Usage")
        } else if str_eq(key, "tray.cost") {
            String::from_str("Cost")
        } else if str_eq(key, "tray.model") {
            String::from_str("Model")
        } else if str_eq(key, "tray.remaining") {
            String::from_str("Remaining Time")
        } else if str_eq(key, "tray.status") {
            String::from_str("Status")
        } else if str_eq(key, "tray.quit") {
            String::from_str("Quit")
        } else if str_eq(key, "tray.checking") {
            String::from_str("Checking...")
        } else if str_eq(key, "tray.network_connected") {
            String::from_str("\u{1f7e2} Network: Connected")
        } else if str_eq(key, "tray.network_disconnected") {
            String::from_str("\u{1f534} Network: Disconnected")
        } else if str_eq(key, "tray.status_active") {
            String::from_str("\u{2705} Status: Active")
        } else if str_eq(key, "tray.status_completed") {
            String::from_str("\u{23f8}\u{fe0f} Status: Completed")
        } else if str_eq(key, "notification.title") {
            String::from_str("CC Usage Monitor")
        } else if str_eq(key, "notification.network_restored") {
            String::from_str("\u{1f389} Network Connection Restored")
        } else if str_eq(key, "notification.network_lost") {
            String::from_str("\u{1f6a8} Network Connection Lost")
        } else if str_eq(key, "notification.usage_status") {
            String::from_str("CC Usage Status")
        } else if str_eq(key, "common.unknown") {
            String::from_str("Unknown")
        } else if str_eq(key, "common.hour") {
            String::from_str("h")
        } else if str_eq(key, "common.minute") {
            String::from_str("m")
        } else if str_eq(key, "common.day") {
            String::from_str("day")
        } else if str_eq(key, "common.last_update") {
            String::from_str("\u{1f550} Last Update")
        } else if str_eq(key, "common.press_to_quit") {
            String::from_str("Press Cmd+Q to Stop Monitoring")
        } else if str_eq(key, "model_pricing.comparison") {
            String::from_str("\u{1f4ca} Model Pricing Comparison")
        } else {
            key.to_owned()
        }
    }
}

pub struct ChineseTranslations;

impl Translations for ChineseTranslations {
    open spec fn table(&self, key: Seq<char>) -> Option<Seq<char>> {
        chinese_table(key)
    }

    fn get(&self, key: &str) -> (r: String) {
        if str_eq(key, "app.name") {
            String::from_str("CC \u{76d1}\u{6d4b}\u{5668}")
        } else if str_eq(key, "app.version") {
            String::from_str("CC \u{7f51}\u{7edc}\u{76d1}\u{6d4b}\u{5668} v1.0")
        } else if str_eq(key, "network.title") {
            String::from_str("\u{1f310} \u{7f51}\u{7edc}\u{8fde}\u{63a5}\u{72b6}\u{6001}")
        } else if str_eq(key, "network.status") {
            String::from_str("\u{72b6}\u{6001}")
        } else if str_eq(key, "network.connected") {
            String::from_str("\u{5df2}\u{8fde}\u{63a5}")
        } else if str_eq(key, "network.disconnected") {
            String::from_str("\u{672a}\u{8fde}\u{63a5}")
        } else if str_eq(key, "network.detecting") {
            String::from_str("\u{68c0}\u{6d4b}\u{4e2d}...")
        } else if str_eq(key, "network.speed") {
            String::from_str("\u{1f680} \u{7f51}\u{901f}")
        } else if str_eq(key, "network.latency") {
            String::from_str("\u{5ef6}\u{8fdf}")
        } else if str_eq(key, "network.excellent") {
            String::from_str("\u{4f18}\u{79c0}")
        } else if str_eq(key, "network.good") {
            String::from_str("\u{826f}\u{597d}")
        } else if str_eq(key, "network.fair") {
            String::from_str("\u{4e00}\u{822c}")
        } else if str_eq(key, "network.slow") {
            String::from_str("\u{8f83}\u{6162}")
        } else if str_eq(key, "usage.title") {
            String::from_str("\u{1f916} CC \u{4f7f}\u{7528}\u{72b6}\u{6001}")
        } else if str_eq(key, "usage.session_start") {
            String::from_str("\u{1f4c5} \u{5bf9}\u{8bdd}\u{5f00}\u{59cb}")
        } else if str_eq(key, "usage.time") {
            String::from_str("\u{23f1}\u{fe0f}  \u{65f6}\u{95f4}")
        } else if str_eq(key, "usage.remaining") {
            String::from_str("\u{23f0} \u{5269}\u{4f59}")
        } else if str_eq(key, "usage.cost") {
            String::from_str("\u{1f4b0} \u{8d39}\u{7528}")
        } else if str_eq(key, "usage.model") {
            String::from_str("\u{1f916} \u{6a21}\u{578b}")
        } else if str_eq(key, "usage.status") {
            String::from_str("\u{1f4cd} \u{72b6}\u{6001}")
        } else if str_eq(key, "usage.active") {
            String::from_str("\u{26a1} \u{6d3b}\u{8dc3}\u{4e2d}")
        } else if str_eq(key, "usage.completed") {
            String::from_str("\u{2705} \u{5df2}\u{5b8c}\u{6210}")
        } else if str_eq(key, "usage.running") {
            String::from_str("\u{1f504} \u{8fd0}\u{884c}\u{4e2d}")
        } else if str_eq(key, "usage.inactive") {
            String::from_str("\u{23f8}\u{fe0f}  \u{672a}\u{6d3b}\u{52a8}")
        } else if str_eq(key, "usage.expired") {
            String::from_str("\u{5df2}\u{8fc7}\u{671f}")
        } else if str_eq(key, "usage.reset") {
            String::from_str("\u{91cd}\u{7f6e}")
        } else if str_eq(key, "history.title") {
            String::from_str("\u{1f4ca} \u{5386}\u{53f2}\u{8d26}\u{5355}\u{7edf}\u{8ba1} (\u{57fa}\u{4e8e} Token \u{8ba1}\u{7b97})")
        } else if str_eq(key, "history.total") {
            String::from_str("\u{1f4b3} \u{603b}\u{8ba1}")
        } else if str_eq(key, "history.average") {
            String::from_str("\u{1f4ca} \u{5e73}\u{5747}")
        } else if str_eq(key, "history.sessions_total") {
            String::from_str("\u{1f522} \u{603b}\u{4f1a}\u{8bdd}\u{6570}")
        } else if str_eq(key, "history.sessions_active") {
            String::from_str("\u{26a1} \u{6d3b}\u{8dc3}\u{4f1a}\u{8bdd}")
        } else if str_eq(key, "tray.network") {
            String::from_str("\u{7f51}\u{7edc}")
        } else if str_eq(key, "tray.usage") {
            String::from_str("\u{4f7f}\u{7528}")
        } else if str_eq(key, "tray.cost") {
            String::from_str("\u{82b1}\u{8d39}")
        } else if str_eq(key, "tray.model") {
            String::from_str("\u{6a21}\u{578b}")
        } else if str_eq(key, "tray.remaining") {
            String::from_str("\u{5269}\u{4f59}\u{65f6}\u{95f4}")
        } else if str_eq(key, "tray.status") {
            String::from_str("\u{72b6}\u{6001}")
        } else if str_eq(key, "tray.quit") {
            String::from_str("\u{9000}\u{51fa}")
        } else if str_eq(key, "tray.checking") {
            String::from_str("\u{68c0}\u{6d4b}\u{4e2d}...")
        } else if str_eq(key, "tray.network_connected") {
            String::from_str("\u{1f7e2} \u{7f51}\u{7edc}: \u{5df2}\u{8fde}\u{63a5}")
        } else if str_eq(key, "tray.network_disconnected") {
            String::from_str("\u{1f534} \u{7f51}\u{7edc}: \u{672a}\u{8fde}\u{63a5}")
        } else if str_eq(key, "tray.status_active") {
            String::from_str("\u{2705} \u{72b6}\u{6001}: \u{6d3b}\u{8dc3}\u{4e2d}")
        } else if str_eq(key, "tray.status_completed") {
            String::from_str("\u{23f8}\u{fe0f} \u{72b6}\u{6001}: \u{5df2}\u{5b8c}\u{6210}")
        } else if str_eq(key, "notification.title") {
            String::from_str("CC \u{76d1}\u{6d4b}\u{5668}")
        } else if str_eq(key, "notification.network_restored") {
            String::from_str("\u{1f389} \u{7f51}\u{7edc}\u{8fde}\u{63a5}\u{5df2}\u{6062}\u{590d}")
        } else if str_eq(key, "notification.network_lost") {
            String::from_str("\u{1f6a8} \u{7f51}\u{7edc}\u{8fde}\u{63a5}\u{4e2d}\u{65ad}")
        } else if str_eq(key, "notification.usage_status") {
            String::from_str("CC \u{4f7f}\u{7528}\u{72b6}\u{6001}")
        } else if str_eq(key, "common.unknown") {
            String::from_str("\u{672a}\u{77e5}")
        } else if str_eq(key, "common.hour") {
            String::from_str("\u{65f6}")
        } else if str_eq(key, "common.minute") {
            String::from_str("\u{5206}")
        } else if str_eq(key, "common.day") {
            String::from_str("\u{5929}")
        } else if str_eq(key, "common.last_update") {
            String::from_str("\u{1f550} \u{6700}\u{540e}\u{66f4}\u{65b0}")
        } else if str_eq(key, "common.press_to_quit") {
            String::from_str("\u{6309} Cmd+Q \u{505c}\u{6b62}\u{76d1}\u{63a7}")
        } else {
            key.to_owned()
        }
    }
}

pub struct JapaneseTranslations;

impl Translations for JapaneseTranslations {
    open spec fn table(&self, key: Seq<char>) -> Option<Seq<char>> {
        japanese_table(key)
    }

    fn get(&self, key: &str) -> (r: String) {
        if str_eq(key, "app.name") {
            String::from_str("CC \u{30e2}\u{30cb}\u{30bf}\u{30fc}")
        } else if str_eq(key, "app.version") {
            String::from_str("CC \u{30cd}\u{30c3}\u{30c8}\u{30ef}\u{30fc}\u{30af}\u{30e2}\u{30cb}\u{30bf}\u{30fc} v1.0")
        } else if str_eq(key, "network.title") {
            String::from_str("\u{1f310} \u{30cd}\u{30c3}\u{30c8}\u{30ef}\u{30fc}\u{30af}\u{63a5}\u{7d9a}\u{72b6}\u{614b}")
        } else if str_eq(key, "network.status") {
            String::from_str("\u{72b6}\u{614b}")
        } else if str_eq(key, "network.connected") {
            String::from_str("\u{63a5}\u{7d9a}\u{6e08}\u{307f}")
        } else if str_eq(key, "network.disconnected") {
            String::from_str("\u{672a}\u{63a5}\u{7d9a}")
        } else if str_eq(key, "network.detecting") {
            String::from_str("\u{691c}\u{51fa}\u{4e2d}...")
        } else if str_eq(key, "network.speed") {
            String::from_str("\u{1f680} \u{901f}\u{5ea6}")
        } else if str_eq(key, "network.latency") {
            String::from_str("\u{9045}\u{5ef6}")
        } else if str_eq(key, "network.excellent") {
            String::from_str("\u{512a}\u{79c0}")
        } else if str_eq(key, "network.good") {
            String::from_str("\u{826f}\u{597d}")
        } else if str_eq(key, "network.fair") {
            String::from_str("\u{666e}\u{901a}")
        } else if str_eq(key, "network.slow") {
            String::from_str("\u{9045}\u{3044}")
        } else if str_eq(key, "usage.title") {
            String::from_str("\u{1f916} CC \u{4f7f}\u{7528}\u{72b6}\u{6cc1}")
        } else if str_eq(key, "usage.session_start") {
            String::from_str("\u{1f4c5} \u{30bb}\u{30c3}\u{30b7}\u{30e7}\u{30f3}\u{958b}\u{59cb}")
        } else if str_eq(key, "usage.time") {
            String::from_str("\u{23f1}\u{fe0f}  \u{6642}\u{9593}")
        } else if str_eq(key, "usage.remaining") {
            String::from_str("\u{23f0} \u{6b8b}\u{308a}")
        } else if str_eq(key, "usage.cost") {
            String::from_str("\u{1f4b0} \u{30b3}\u{30b9}\u{30c8}")
        } else if str_eq(key, "usage.model") {
            String::from_str("\u{1f916} \u{30e2}\u{30c7}\u{30eb}")
        } else if str_eq(key, "usage.status") {
            String::from_str("\u{1f4cd} \u{30b9}\u{30c6}\u{30fc}\u{30bf}\u{30b9}")
        } else if str_eq(key, "usage.active") {
            String::from_str("\u{26a1} \u{30a2}\u{30af}\u{30c6}\u{30a3}\u{30d6}")
        } else if str_eq(key, "usage.completed") {
            String::from_str("\u{2705} \u{5b8c}\u{4e86}")
        } else if str_eq(key, "usage.running") {
            String::from_str("\u{1f504} \u{5b9f}\u{884c}\u{4e2d}")
        } else if str_eq(key, "usage.inactive") {
            String::from_str("\u{23f8}\u{fe0f}  \u{975e}\u{30a2}\u{30af}\u{30c6}\u{30a3}\u{30d6}")
        } else if str_eq(key, "usage.expired") {
            String::from_str("\u{671f}\u{9650}\u{5207}\u{308c}")
        } else if str_eq(key, "usage.reset") {
            String::from_str("\u{30ea}\u{30bb}\u{30c3}\u{30c8}")
        } else if str_eq(key, "history.title") {
            String::from_str("\u{1f4ca} \u{5c65}\u{6b74}\u{8acb}\u{6c42}\u{7d71}\u{8a08}\u{ff08}\u{30c8}\u{30fc}\u{30af}\u{30f3}\u{30d9}\u{30fc}\u{30b9}\u{ff09}")
        } else if str_eq(key, "history.total") {
            String::from_str("\u{1f4b3} \u{5408}\u{8a08}")
        } else if str_eq(key, "history.average") {
            String::from_str("\u{1f4ca} \u{5e73}\u{5747}")
        } else if str_eq(key, "history.sessions_total") {
            String::from_str("\u{1f522} \u{7dcf}\u{30bb}\u{30c3}\u{30b7}\u{30e7}\u{30f3}\u{6570}")
        } else if str_eq(key, "history.sessions_active") {
            String::from_str("\u{26a1} \u{30a2}\u{30af}\u{30c6}\u{30a3}\u{30d6}\u{30bb}\u{30c3}\u{30b7}\u{30e7}\u{30f3}")
        } else if str_eq(key, "tray.network") {
            String::from_str("\u{30cd}\u{30c3}\u{30c8}\u{30ef}\u{30fc}\u{30af}")
        } else if str_eq(key, "tray.usage") {
            String::from_str("\u{4f7f}\u{7528}\u{91cf}")
        } else if str_eq(key, "tray.cost") {
            String::from_str("\u{30b3}\u{30b9}\u{30c8}")
        } else if str_eq(key, "tray.model") {
            String::from_str("\u{30e2}\u{30c7}\u{30eb}")
        } else if str_eq(key, "tray.remaining") {
            String::from_str("\u{6b8b}\u{308a}\u{6642}\u{9593}")
        } else if str_eq(key, "tray.status") {
            String::from_str("\u{30b9}\u{30c6}\u{30fc}\u{30bf}\u{30b9}")
        } else if str_eq(key, "tray.quit") {
            String::from_str("\u{7d42}\u{4e86}")
        } else if str_eq(key, "tray.checking") {
            String::from_str("\u{78ba}\u{8a8d}\u{4e2d}...")
        } else if str_eq(key, "tray.network_connected") {
            String::from_str("\u{1f7e2} \u{30cd}\u{30c3}\u{30c8}\u{30ef}\u{30fc}\u{30af}: \u{63a5}\u{7d9a}\u{6e08}\u{307f}")
        } else if str_eq(key, "tray.network_disconnected") {
            String::from_str("\u{1f534} \u{30cd}\u{30c3}\u{30c8}\u{30ef}\u{30fc}\u{30af}: \u{672a}\u{63a5}\u{7d9a}")
        } else if str_eq(key, "tray.status_active") {
            String::from_str("\u{2705} \u{30b9}\u{30c6}\u{30fc}\u{30bf}\u{30b9}: \u{30a2}\u{30af}\u{30c6}\u{30a3}\u{30d6}")
        } else if str_eq(key, "tray.status_completed") {
            String::from_str("\u{23f8}\u{fe0f} \u{30b9}\u{30c6}\u{30fc}\u{30bf}\u{30b9}: \u{5b8c}\u{4e86}")
        } else if str_eq(key, "notification.title") {
            String::from_str("CC \u{30e2}\u{30cb}\u{30bf}\u{30fc}")
        } else if str_eq(key, "notification.network_restored") {
            String::from_str("\u{1f389} \u{30cd}\u{30c3}\u{30c8}\u{30ef}\u{30fc}\u{30af}\u{63a5}\u{7d9a}\u{304c}\u{5fa9}\u{5143}\u{3055}\u{308c}\u{307e}\u{3057}\u{305f}")
        } else if str_eq(key, "notification.network_lost") {
            String::from_str("\u{1f6a8} \u{30cd}\u{30c3}\u{30c8}\u{30ef}\u{30fc}\u{30af}\u{63a5}\u{7d9a}\u{304c}\u{5207}\u{65ad}\u{3055}\u{308c}\u{307e}\u{3057}\u{305f}")
        } else if str_eq(key, "notification.usage_status") {
            String::from_str("CC \u{4f7f}\u{7528}\u{72b6}\u{6cc1}")
        } else if str_eq(key, "common.unknown") {
            String::from_str("\u{4e0d}\u{660e}")
        } else if str_eq(key, "common.hour") {
            String::from_str("\u{6642}\u{9593}")
        } else if str_eq(key, "common.minute") {
            String::from_str("\u{5206}")
        } else if str_eq(key, "common.day") {
            String::from_str("\u{65e5}")
        } else if str_eq(key, "common.last_update") {
            String::from_str("\u{1f550} \u{6700}\u{7d42}\u{66f4}\u{65b0}")
        } else if str_eq(key, "common.press_to_quit") {
            String::from_str("Cmd+Q \u{3092}\u{62bc}\u{3057}\u{3066}\u{76e3}\u{8996}\u{3092}\u{505c}\u{6b62}")
        } else {
            key.to_owned()
        }
    }
}

/// A `{0}`-style placeholder.
pub open spec fn placeholder_seq(i: nat) -> Seq<char> {
    seq!['{'] + dec_digits(i) + seq!['}']
}

/// A template with its first `n` numbered placeholders filled in, in order.
pub open spec fn format_fold(template: Seq<char>, args: Seq<Seq<char>>, n: int) -> Seq<char>
    decreases n,
{
    if n <= 0 {
        template
    } else {
        replace_all(format_fold(template, args, n - 1), placeholder_seq((n - 1) as nat), args[n - 1])
    }
}

/// Fill the numbered placeholders of a template with the given arguments.
pub fn format_template(template: &str, args: &Vec<String>) -> (r: String)
    ensures
        r@ == format_fold(template@, args.deep_view(), args@.len() as int),
{
    let mut cur = chars_of_str(template);
    let n = args.len();
    let mut i: usize = 0;
    while i < n
        invariant
            n == args@.len(),
            i <= n,
            cur@ == format_fold(template@, args.deep_view(), i as int),
        decreases n - i,
    {
        let mut pat: Vec<char> = Vec::new();
        pat.push('{');
        let digits = u64_to_chars(i as u64);
        append_chars(&mut pat, &digits);
        pat.push('}');
        proof {
            assert(pat@ =~= placeholder_seq(i as nat));
            assert(args.deep_view()[i as int] == args@[i as int]@);
        }
        let val = chars_of_str(args[i].as_str());
        cur = replace_chars(&cur, &pat, &val);
        i = i + 1;
    }
    string_of_chars(&cur)
}

/// The text a language's table gives a key, the key itself where the table
/// has no entry.
pub open spec fn language_text(lang: Language, key: Seq<char>) -> Seq<char> {
    let entry = match lang {
        Language::English => english_table(key),
        Language::Chinese => chinese_table(key),
        Language::Japanese => japanese_table(key),
    };
    match entry {
        Some(t) => t,
        None => key,
    }
}

/// The current language and its table, one owned instance per front-end
/// process; the stores and environment around it belong to the caller.
pub struct I18n {
    pub current: Language,
}

impl I18n {
    pub fn new(lang: Language) -> (r: I18n)
        ensures
            r.current == lang,
    {
        I18n { current: lang }
    }

    pub fn set_language(&mut self, lang: Language)
        ensures
            final(self).current == lang,
    {
        self.current = lang;
    }

    pub fn get_language(&self) -> (r: Language)
        ensures
            r == self.current,
    {
        self.current
    }

    /// The current table's text for a key.
    pub fn get(&self, key: &str) -> (r: String)
        ensures
            r@ == language_text(self.current, key@),
    {
        match self.current {
            Language::English => EnglishTranslations.get(key),
            Language::Chinese => ChineseTranslations.get(key),
            Language::Japanese => JapaneseTranslations.get(key),
        }
    }

    /// The current table's text for a key, its placeholders filled in.
    pub fn format(&self, key: &str, args: &Vec<String>) -> (r: String)
        ensures
            r@ == format_fold(
                language_text(self.current, key@),
                args.deep_view(),
                args@.len() as int,
            ),
    {
        let template = self.get(key);
        format_template(template.as_str(), args)
    }
}

} // verus!
