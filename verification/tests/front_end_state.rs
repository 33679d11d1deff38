use cc_monitor::i18n::{I18n, Language};
use cc_monitor::logger::Logger;
use cc_monitor::monitor::{MonitorData, MonitorUpdate};
use cc_monitor::prefs::{detect_system_language, Preferences};
use cc_monitor::pricing::{ModelPricing, ModelPricingConfig};
use cc_monitor::tui_state::{Panel, TuiApp};
use cc_monitor::usage::usage_notification_body;

#[test]
fn language_codes_and_names() {
    assert_eq!(Language::English.code(), "en");
    assert_eq!(Language::Chinese.code(), "zh");
    assert_eq!(Language::Japanese.code(), "ja");
    assert_eq!(Language::English.name(), "English");
}

#[test]
fn locale_detection() {
    assert_eq!(detect_system_language("zh_CN.UTF-8"), Language::Chinese);
    assert_eq!(detect_system_language("ZH-Hans_CN"), Language::Chinese);
    assert_eq!(detect_system_language("ja_JP"), Language::Japanese);
    assert_eq!(detect_system_language("en_US.UTF-8"), Language::English);
    assert_eq!(detect_system_language("fr_FR"), Language::English);
}

#[test]
fn preferences_language_round_trip() {
    let mut p = Preferences::default();
    assert_eq!(p.language, "en");
    assert_eq!(p.get_language(), Language::English);
    p.set_language(Language::Japanese);
    assert_eq!(p.language, "ja");
    assert_eq!(p.get_language(), Language::Japanese);
    p.language = String::from("nonsense");
    assert_eq!(p.get_language(), Language::Chinese);
}

#[test]
fn translation_lookup_and_fallback() {
    let t = I18n::new(Language::English);
    assert_eq!(t.get("network.connected"), "Connected");
    assert_eq!(t.get("no.such.key"), "no.such.key");
    let z = I18n::new(Language::Chinese);
    assert_ne!(z.get("network.connected"), "Connected");
}

#[test]
fn template_formatting() {
    let t = I18n::new(Language::English);
    let out = cc_monitor::i18n::format_template("a {0} b {1} c {0}", &vec![String::from("X"), String::from("Y")]);
    assert_eq!(out, "a X b Y c X");
    let _ = t.format("app.name", &Vec::new());
}

#[test]
fn logger_ring_drops_oldest() {
    let mut l = Logger::new();
    for i in 0..101 {
        l.log(format!("m{}", i));
    }
    let msgs = l.get_messages();
    assert_eq!(msgs.len(), 100);
    assert_eq!(msgs[0], "m1");
    assert_eq!(msgs[99], "m100");
    l.clear();
    assert_eq!(l.get_messages().len(), 0);
    l.enable();
    assert!(l.enabled);
    l.disable();
    assert!(!l.enabled);
}

#[test]
fn panels_cycle_and_selection_stays_in_range() {
    let mut app = TuiApp::new(Language::English);
    assert_eq!(app.selected_panel, Panel::Network);
    app.next_panel();
    assert_eq!(app.selected_panel, Panel::Usage);
    app.next_panel();
    assert_eq!(app.selected_panel, Panel::History);
    app.next_panel();
    assert_eq!(app.selected_panel, Panel::Network);
    app.on_up();
    assert_eq!(app.selected_index, 0);
    for _ in 0..10 {
        app.on_down();
    }
    assert_eq!(app.selected_index, 3);
}

#[test]
fn language_cycles_through_all() {
    let mut app = TuiApp::new(Language::English);
    assert_eq!(app.cycle_language(), Language::Chinese);
    assert_eq!(app.cycle_language(), Language::Japanese);
    assert_eq!(app.cycle_language(), Language::English);
}

#[test]
fn batch_updates_keep_last_snapshot_and_ring_messages() {
    let mut app = TuiApp::new(Language::English);
    let mut d1 = MonitorData::default();
    d1.last_update = 1;
    let mut d2 = MonitorData::default();
    d2.last_update = 2;
    app.update_monitor_data(vec![
        MonitorUpdate::DataUpdate(d1),
        MonitorUpdate::StatusMessage(String::from("hello")),
        MonitorUpdate::DataUpdate(d2),
        MonitorUpdate::ErrorMessage(String::from("boom")),
        MonitorUpdate::LanguageChanged,
    ]);
    assert_eq!(app.monitor_data.last_update, 2);
    assert_eq!(app.status_messages.len(), 2);
    assert_eq!(app.status_messages[0], "hello");
    assert_eq!(app.status_messages[1], "Error: boom");
}

#[test]
fn pricing_costs_per_model() {
    let config = ModelPricingConfig {
        models: vec![
            ModelPricing {
                name: String::from("m-a"),
                display_name: String::from("Model A"),
                input_price_micro: 3_000_000,
                output_price_micro: 15_000_000,
            },
            ModelPricing {
                name: String::from("m-b"),
                display_name: String::from("Model B"),
                input_price_micro: 280_000,
                output_price_micro: 560_000,
            },
        ],
    };
    assert_eq!(config.calculate_cost("m-a", 1_000_000, 1_000_000), Some(18_000_000));
    assert_eq!(config.calculate_cost("m-b", 1_000_000, 0), Some(280_000));
    assert_eq!(config.calculate_cost("missing", 1, 1), None);
    assert!(config.get_model_pricing("m-b").is_some());
    let all = cc_monitor::pricing::calculate_all_model_costs(&config, 300_000, 700_000);
    assert_eq!(all.len(), 2);
    assert_eq!(all[0].0, "m-a");
    assert_eq!(all[0].2, 300_000 * 3 + 700_000 * 15);
}

#[test]
fn usage_notification_text() {
    let body = usage_notification_body("Usage", 1500, "Cost", 2_500_000, "Remaining Time", "4 h 59 m");
    assert_eq!(body, "Token Usage: 1.5K\nCost: $2.50\nRemaining Time: 4 h 59 m");
}
