use raccpack_tui::app::App;
use raccpack_tui::dig::DigScreenState;
use raccpack_tui::domain::{SensitiveRisk, Timestamp};
use raccpack_tui::footer::{dig_footer, pack_footer, raid_footer};
use raccpack_tui::overview_view::{card_grid, language_accent};
use raccpack_tui::pack::{PackFlow, PackFlowOptions};
use raccpack_tui::panels_view::{card_visible, cards_grid};
use raccpack_tui::projects_view::{header_parts, row_band, status_text, RowBand};
use raccpack_tui::raid::{FlowPhase, RaidFlow, RaidFlowOptions};
use raccpack_tui::sniff::{ProjectRow, SniffScreenState};
use raccpack_tui::styled::Tone;
use raccpack_tui::table::TableSelection;
use raccpack_tui::text::{decimal_string, is_control, is_whitespace, join_strings, trim};
use raccpack_tui::units::{format_bytes, human_bytes};

fn decimal_units(bytes: u64, base: &[&str], divisor: f64) -> String {
    let mut value = bytes as f64;
    let mut unit = 0;
    while value >= divisor && unit < base.len() - 1 {
        value /= divisor;
        unit += 1;
    }
    if unit == 0 {
        format!("{bytes} {}", base[0])
    } else {
        format!("{value:.1} {}", base[unit])
    }
}

#[test]
fn format_bytes_agrees_with_float_formatting() {
    let samples: [u64; 14] = [
        0,
        1,
        1023,
        1024,
        1280,
        1536,
        1100,
        10 * 1024 - 1,
        1024 * 1024 - 1,
        5 * 1024 * 1024 + 51,
        1024 * 1024 * 1024,
        3 * 1024 * 1024 * 1024 + 512 * 1024 * 1024,
        u32::MAX as u64,
        2_000_000_000_000,
    ];
    assert_eq!(format_bytes(2_000_000_000_000), "1.8 TB");
    for b in samples {
        assert_eq!(format_bytes(b), decimal_units(b, &["B", "KB", "MB", "GB", "TB"], 1024.0), "bytes {b}");
    }
}

#[test]
fn human_bytes_agrees_with_float_formatting() {
    for b in [0u64, 500, 1023, 1024, 1280, 2048, 1_500_000, 5 * 1024 * 1024, 2 * 1024 * 1024 * 1024, 9_999_999_999_999] {
        assert_eq!(human_bytes(b), decimal_units(b, &["B", "KiB", "MiB", "GiB"], 1024.0), "bytes {b}");
    }
}

#[test]
fn ties_round_half_to_even_like_the_float_formatter() {
    // 1280 bytes = 1.25 KB exactly: `{:.1}` prints 1.2.
    assert_eq!(format_bytes(1280), "1.2 KB");
    assert_eq!(format_bytes(1024 + 3 * 128), "1.4 KB");
}

#[test]
fn control_and_whitespace_classes_match_std() {
    for c in ['\u{0}', '\u{7}', '\t', '\n', ' ', 'a', '\u{7f}', '\u{85}', '\u{a0}', '\u{2028}', '\u{3000}', 'é', '•'] {
        assert_eq!(is_control(c), c.is_control(), "{c:?}");
        assert_eq!(is_whitespace(c), c.is_whitespace(), "{c:?}");
    }
}

#[test]
fn trim_matches_str_trim() {
    for s in ["", "   ", "  a b  ", "\u{3000}x\u{a0}", "no-space", "\t\nline\n"] {
        assert_eq!(trim(s), s.trim(), "{s:?}");
    }
}

#[test]
fn decimal_and_join_render_plainly() {
    assert_eq!(decimal_string(0), "0");
    assert_eq!(decimal_string(18_446_744_073_709_551_615), "18446744073709551615");
    assert_eq!(join_strings(&vec!["a".to_string(), "b".to_string()], ", "), "a, b");
    assert_eq!(join_strings(&vec![], ", "), "");
}

#[test]
fn table_selection_moves_and_clamps() {
    let mut t = TableSelection::default();
    t.move_down(3);
    assert_eq!(t.selected(), Some(1), "no selection reads as the first row");
    t.move_bottom(3);
    assert_eq!(t.selected(), Some(2));
    t.move_down(3);
    assert_eq!(t.selected(), Some(2));
    t.move_up();
    assert_eq!(t.selected(), Some(1));
    t.move_top(3);
    assert_eq!(t.selected(), Some(0));
    t.move_up();
    assert_eq!(t.selected(), Some(0));
    let mut empty = TableSelection::default();
    empty.move_bottom(0);
    assert_eq!(empty.selected(), None);
}

#[test]
fn row_bands_alternate_and_mark_the_selection() {
    assert_eq!(row_band(0, None), RowBand::Even);
    assert_eq!(row_band(1, None), RowBand::Odd);
    assert_eq!(row_band(1, Some(1)), RowBand::Selected);
}

fn project(name: &str, size: u64) -> ProjectRow {
    ProjectRow {
        name: name.to_string(),
        language: None,
        frameworks: vec![],
        size_bytes: size,
        is_git_repo: false,
        path: format!("/w/{name}"),
    }
}

#[test]
fn sniff_header_and_status_summarise_the_scan() {
    let mut state = SniffScreenState::default();
    state.projects = vec![project("a", 1024), project("b", 2048)];
    state.total_size = 3072;
    state.scan_root = "/w".to_string();
    let (count, size, root) = header_parts(&state);
    assert_eq!(count, "2 projects");
    assert_eq!(size, "3.0 KB");
    assert_eq!(root, "/w");
    assert!(!status_text(&state).is_empty());
}

#[test]
fn footers_follow_the_flow_phase() {
    let mut flow = RaidFlow::new("/p".to_string(), "/den".to_string(), RaidFlowOptions::default());
    assert!(raid_footer(&flow).starts_with("Raid: preparing"));
    flow.phase = FlowPhase::Running;
    assert!(raid_footer(&flow).starts_with("Raid:"));
    let pack = PackFlow::new("/p".to_string(), "/den".to_string(), PackFlowOptions::default());
    assert!(pack_footer(&pack).starts_with("Pack: preparing"));
    let app = App::new();
    assert_eq!(dig_footer(&app), "Select a project on Projects and press Enter to dig");
}

#[test]
fn card_grids_fit_the_area() {
    let (cols, cards) = card_grid(49, 20, 10);
    assert_eq!(cols, 2);
    assert!(cards <= 10);
    let (cols, rows, _scroll) = cards_grid(80, 24, Some(0));
    assert_eq!(cols, 3);
    assert_eq!(rows, 3);
    assert!(card_visible(0, cols, rows, 0));
}

#[test]
fn selected_card_is_always_visible() {
    for sel in [0usize, 5, 17, 40] {
        let (cols, rows, scroll) = cards_grid(40, 24, Some(sel));
        assert!(card_visible(sel, cols, rows, scroll), "card {sel} must be on screen");
    }
}

#[test]
fn language_accents() {
    assert_eq!(language_accent("Rust"), Tone::Focus);
    assert_eq!(language_accent("TypeScript"), Tone::Info);
    assert_eq!(language_accent("JavaScript"), Tone::Info);
    assert_eq!(language_accent("Go"), Tone::Muted);
}

#[test]
fn risk_ranks_order_severity() {
    assert!(SensitiveRisk::Critical.at_least(SensitiveRisk::High));
    assert!(!SensitiveRisk::Low.at_least(SensitiveRisk::Medium));
    assert_eq!(SensitiveRisk::Medium.rank(), 1);
}

#[test]
fn dig_state_default_is_empty() {
    let s = DigScreenState::default();
    assert!(s.findings.is_empty() && s.project.is_none() && s.last_run.is_none());
    let _ = Timestamp { secs: 0, nanos: 0 };
}
