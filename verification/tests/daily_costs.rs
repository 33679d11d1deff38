use cc_monitor::daily::{analyze_daily_costs, parse_blocks_output, parse_daily_output};

fn daily_row(first: &str, cost: &str) -> String {
    format!("\u{2502}{}\u{2502}x\u{2502}x\u{2502}x\u{2502}x\u{2502}x\u{2502}x\u{2502}{}\u{2502}", first, cost)
}

fn blocks_row(info: &str, cost: &str) -> String {
    format!("\u{2502}{}\u{2502}x\u{2502}x\u{2502}x\u{2502}{}\u{2502}", info, cost)
}

#[test]
fn daily_table_year_row_pairs_with_month_day() {
    let text = format!("{}\n{}\n", daily_row("2025", "$12.50"), daily_row("06-17", ""));
    let costs = parse_daily_output(&text);
    assert_eq!(costs.len(), 1);
    assert_eq!(costs[0].date, "06-17");
    assert_eq!(costs[0].cost_micro, 12_500_000);
    assert_eq!(costs[0].sessions, 1);
}

#[test]
fn daily_table_repeated_day_keeps_last() {
    let text = format!(
        "{}\n{}\n{}\n{}\n",
        daily_row("2025", "$1.00"),
        daily_row("06-17", ""),
        daily_row("2025", "$2.00"),
        daily_row("06-17", ""),
    );
    let costs = parse_daily_output(&text);
    assert_eq!(costs.len(), 1);
    assert_eq!(costs[0].cost_micro, 2_000_000);
    assert_eq!(costs[0].sessions, 1);
}

#[test]
fn daily_table_skips_header_and_rules() {
    let text = format!(
        "\u{2502}Date\u{2502}x\u{2502}x\u{2502}x\u{2502}x\u{2502}x\u{2502}x\u{2502}$9.00\u{2502}\n{}\n{}\n",
        daily_row("2025", "$3.25"),
        daily_row("06-18", ""),
    );
    let costs = parse_daily_output(&text);
    assert_eq!(costs.len(), 1);
    assert_eq!(costs[0].date, "06-18");
    assert_eq!(costs[0].cost_micro, 3_250_000);
}

#[test]
fn daily_table_strips_ansi_colors() {
    let text = format!(
        "{}\n{}\n",
        daily_row("\u{1b}[33m2025\u{1b}[0m", "\u{1b}[32m$4.75\u{1b}[0m"),
        daily_row(" \u{1b}[33m06-19\u{1b}[0m ", ""),
    );
    let costs = parse_daily_output(&text);
    assert_eq!(costs.len(), 1);
    assert_eq!(costs[0].date, "06-19");
    assert_eq!(costs[0].cost_micro, 4_750_000);
}

#[test]
fn blocks_table_merges_repeated_days() {
    let text = format!(
        "{}\n{}\n",
        blocks_row("06/17/2025, 3:00:00 AM", "$3.00"),
        blocks_row("06/17/2025, 9:00:00 AM", "$4.50"),
    );
    let costs = parse_blocks_output(&text);
    assert_eq!(costs.len(), 1);
    assert_eq!(costs[0].date, "06/17");
    assert_eq!(costs[0].cost_micro, 7_500_000);
    assert_eq!(costs[0].sessions, 2);
}

#[test]
fn blocks_table_skips_placeholder_and_gap_rows() {
    let text = format!(
        "{}\n{}\n{}\n",
        blocks_row("06/17/2025, 3:00:00 AM", "-"),
        blocks_row("gap", "$9.99"),
        blocks_row("06/18/2025, 1:00:00 AM", "$1.25"),
    );
    let costs = parse_blocks_output(&text);
    assert_eq!(costs.len(), 1);
    assert_eq!(costs[0].date, "06/18");
    assert_eq!(costs[0].cost_micro, 1_250_000);
}

#[test]
fn blocks_table_reads_year_first_dates() {
    let text = format!("{}\n", blocks_row("2025/6/7 01:00:00", "$2.00"));
    let costs = parse_blocks_output(&text);
    assert_eq!(costs.len(), 1);
    assert_eq!(costs[0].date, "06/07");
}

#[test]
fn blocks_table_rejects_impossible_dates() {
    let text = format!("{}\n", blocks_row("02/30/2025, 3:00:00 AM", "$2.00"));
    let costs = parse_blocks_output(&text);
    assert_eq!(costs.len(), 0);
}

#[test]
fn analyze_prefers_daily_table() {
    let daily = format!("{}\n{}\n", daily_row("2025", "$12.50"), daily_row("06-17", ""));
    let blocks = format!("{}\n", blocks_row("06/18/2025, 3:00:00 AM", "$1.00"));
    let costs = analyze_daily_costs(&daily, &blocks);
    assert_eq!(costs.len(), 1);
    assert_eq!(costs[0].date, "06-17");
}

#[test]
fn analyze_falls_back_to_blocks() {
    let blocks = format!("{}\n", blocks_row("06/18/2025, 3:00:00 AM", "$1.00"));
    let costs = analyze_daily_costs("nothing useful", &blocks);
    assert_eq!(costs.len(), 1);
    assert_eq!(costs[0].date, "06/18");
}
