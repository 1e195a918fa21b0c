use raccpack_tui::activity::{ActivityKind, ActivityLog, ACTIVITY_CAP};
use raccpack_tui::app::App;
use raccpack_tui::dig::FindingRow;
use raccpack_tui::domain::{FindingRef, OrchestrationMode, PackResult, SensitiveRisk, Timestamp};
use raccpack_tui::findings_view::{
    detail_line_to_line, git_cell_for, git_or_placeholder, kind_or_placeholder, risk_fg, DetailLine,
};
use raccpack_tui::footer::footer_status;
use raccpack_tui::help::help_items;
use raccpack_tui::nav::{Focus, ViewId, ALL_VIEWS};
use raccpack_tui::operations::{OperationKind, OperationsScreenState, ALL_OPERATIONS};
use raccpack_tui::operations_view::{
    operation_line, stub_notice, NO_PROJECT_HINT, OVERVIEW_STUB, STUB_HINT, TREE_STUB_HINT,
};
use raccpack_tui::overview_view::{
    build_tiles, card_lines, health_line, metrics_from, KpiMetrics, CARD_HEIGHT, EMPTY_HINT_ACTION,
    EMPTY_HINT_TITLE, RECENT_MAX,
};
use raccpack_tui::pack::{PackFlow, PackFlowOptions, PackFlowPhase};
use raccpack_tui::pack_view::{output_name_editor_lines, preview_lines as pack_preview_lines};
use raccpack_tui::panels_view::activity_lines;
use raccpack_tui::passphrase::PassphraseInput;
use raccpack_tui::raid_view::{den_relative, mode_badge, passphrase_lines, progress_bar};
use raccpack_tui::reveal_modal::{RevealModal, RevealPhase};
use raccpack_tui::reveal_view::body_lines;
use raccpack_tui::sidebar_view::{build_lines, nav_badge, nav_line, VERSION};
use raccpack_tui::sniff::{ProjectRow, SniffScreenState};
use raccpack_tui::styled::{Emphasis, TextLine, Tone};
use raccpack_tui::theme;
use raccpack_tui::units::{format_bytes, human_bytes};
use raccpack_tui::worker::WorkerRevealSecret;

fn text(line: &TextLine) -> String {
    line.pieces.iter().map(|p| p.text.as_str()).collect()
}

fn joined(lines: &[TextLine]) -> String {
    lines.iter().map(text).collect::<Vec<_>>().join("\n")
}

fn width(line: &TextLine) -> usize {
    line.pieces.iter().map(|p| p.text.chars().count()).sum()
}

#[test]
fn sidebar_width_within_spec_range() {
    assert!((22..=24).contains(&theme::SPACE_SIDEBAR_WIDTH), "sidebar must be 22-24 columns");
}

#[test]
fn layout_all_views_have_non_empty_labels() {
    for view in ALL_VIEWS {
        assert!(!view.label().is_empty(), "{view:?} label must be non-empty");
    }
}

#[test]
fn footer_status_reflects_current_sniff_state() {
    let app = App::new();
    assert!(!footer_status(&app).is_empty());
}

#[test]
fn footer_status_names_the_last_refresh_time() {
    let mut app = App::new();
    app.sniff_state.projects.push(row("a", None, 0, false, "/a"));
    app.sniff_state.last_refresh = Some(Timestamp { secs: 0, nanos: 0 });
    assert!(footer_status(&app).contains("1970-01-01T00:00:00Z"), "{}", footer_status(&app));
}

#[test]
fn risk_foregrounds_are_distinct_per_level() {
    let colors =
        [SensitiveRisk::Low, SensitiveRisk::Medium, SensitiveRisk::High, SensitiveRisk::Critical].map(risk_fg);
    for i in 0..colors.len() {
        for j in (i + 1)..colors.len() {
            assert_ne!(colors[i], colors[j], "risk {i} vs {j} must differ");
        }
    }
}

#[test]
fn tracked_git_uses_clean_glyph() {
    assert_eq!(git_cell_for("tracked"), (theme::GIT_CLEAN_GLYPH, Tone::Success));
}

#[test]
fn other_git_statuses_are_neutral() {
    for status in ["untracked", "ignored", "modified", ""] {
        assert_eq!(git_cell_for(status), (theme::GIT_ABSENT_GLYPH, Tone::Muted), "status {status:?} must render neutral");
    }
}

#[test]
fn empty_kind_and_git_become_placeholder() {
    assert_eq!(kind_or_placeholder(""), theme::EMPTY_PLACEHOLDER);
    assert_eq!(kind_or_placeholder(".env"), ".env");
    assert_eq!(git_or_placeholder(""), theme::EMPTY_PLACEHOLDER);
    assert_eq!(git_or_placeholder("tracked"), "tracked");
}

fn help_keys() -> Vec<&'static str> {
    help_items().iter().map(|i| i.key).collect()
}

#[test]
fn help_items_non_empty() {
    assert!(!help_items().is_empty());
}

#[test]
fn help_items_have_keys_and_descriptions() {
    for item in help_items() {
        assert!(!item.key.is_empty(), "key must not be empty");
        assert!(!item.description.is_empty(), "description must not be empty");
    }
}

#[test]
fn help_items_cover_global_keys() {
    let keys = help_keys();
    for expected in ["Tab", "Shift+Tab", "j / k / ↓ / ↑", "h / ←", "l / →", "1-4", "?", "Esc", "q"] {
        assert!(keys.contains(&expected), "help must document {expected:?}, got {keys:?}");
    }
}

#[test]
fn help_items_cover_dig_keys() {
    let keys = help_keys();
    for expected in ["f", "c", "r", "Enter"] {
        assert!(keys.contains(&expected), "help must document {expected:?}, got {keys:?}");
    }
}

#[test]
fn help_items_cover_raid_keys() {
    let keys = help_keys();
    for expected in ["R", "K", "S", "m"] {
        assert!(keys.contains(&expected), "help must document the raid keys {expected:?}, got {keys:?}");
    }
}

#[test]
fn help_items_cover_projects_mode_key() {
    assert!(help_keys().contains(&"v"), "help must document the projects mode key 'v'");
}

#[test]
fn all_views_have_labels() {
    for v in &[ViewId::Overview, ViewId::Projects, ViewId::Findings, ViewId::Operations] {
        assert!(!v.label().is_empty());
    }
}

#[test]
fn view_accent_colours_are_distinct() {
    let accents = [theme::FOCUS, theme::SUCCESS, theme::WARNING, theme::DANGER];
    let unique: std::collections::BTreeSet<_> = accents.iter().collect();
    assert_eq!(unique.len(), 4, "each view should have a unique accent colour");
}

#[test]
fn overview_text_mentions_sniff() {
    assert!(OVERVIEW_STUB.contains("sniff"));
}

#[test]
fn projects_text_mentions_detect() {
    assert!(raccpack_tui::projects_view::EMPTY_TABLE_HINT.contains("detect"));
}

#[test]
fn stub_hints_point_to_projects() {
    assert!(STUB_HINT.contains("Tab"));
    assert!(STUB_HINT.contains("Projects"));
}

#[test]
fn list_has_four_operations_with_labels_and_keys() {
    let state = OperationsScreenState::default();
    let lines: Vec<String> = ALL_OPERATIONS.iter().map(|k| text(&operation_line(*k, &state).0)).collect();
    assert_eq!(lines.len(), 4);
    for (i, kind) in ALL_OPERATIONS.iter().enumerate() {
        assert!(lines[i].contains(kind.label()), "row {i} carries its label");
        assert!(lines[i].contains(kind.key()), "row {i} carries its key hint");
    }
}

#[test]
fn only_the_selected_row_is_bold() {
    let mut state = OperationsScreenState::default();
    state.selected = OperationKind::Raid;
    for kind in ALL_OPERATIONS {
        let (line, _) = operation_line(kind, &state);
        let bold = line.pieces.iter().any(|p| p.emphasis == Emphasis::Bold);
        assert_eq!(bold, kind == state.selected, "bold highlight must follow the selection");
    }
}

#[test]
fn selected_row_gets_accent_bar() {
    let mut state = OperationsScreenState::default();
    state.selected = OperationKind::Pack;
    assert!(text(&operation_line(OperationKind::Pack, &state).0).starts_with('▎'));
    assert!(!text(&operation_line(OperationKind::Raid, &state).0).starts_with('▎'));
}

#[test]
fn no_project_hint_points_to_projects() {
    assert!(NO_PROJECT_HINT.contains("Projects"));
    assert!(NO_PROJECT_HINT.contains('2'));
}

#[test]
fn stub_notice_names_the_planned_stage() {
    for kind in [OperationKind::Stash, OperationKind::Rinse] {
        let stage = kind.planned_stage().expect("future stages are mapped");
        assert!(stage.starts_with("T-0"), "{kind:?} maps to a track stage");
    }
    // Pack is not asserted to have no planned stage: the operations hub still
    // routes Pack to its stub, and `planned_stage_maps_future_stages_only`
    // fixes Pack's stage as T-02.
    assert_eq!(OperationKind::Raid.planned_stage(), None);
}

#[test]
fn stub_notice_text_names_stage_and_dismissal() {
    let (title, lines) = stub_notice(OperationKind::Stash);
    assert_eq!(title, " Stash ");
    let body = joined(&lines);
    assert!(body.contains("Stash is coming in T-03."), "{body}");
    assert!(body.contains("Press Esc to dismiss"));
    let (_, lines) = stub_notice(OperationKind::Raid);
    assert!(joined(&lines).contains("Raid is coming in a later stage."));
}

fn row(name: &str, language: Option<&str>, size_bytes: u64, is_git_repo: bool, path: &str) -> ProjectRow {
    ProjectRow {
        name: name.to_string(),
        language: language.map(str::to_string),
        frameworks: vec![],
        size_bytes,
        is_git_repo,
        path: path.to_string(),
    }
}

fn sample_state() -> SniffScreenState {
    let mut state = SniffScreenState::default();
    state.projects = vec![
        row("core", Some("Rust"), 11 * 1024 * 1024, true, "/w/core"),
        row("web", Some("TypeScript"), 256 * 1024, true, "/w/web"),
        row("scripts", Some("Python"), 48 * 1024, false, "/w/scripts"),
        row("other", Some("Rust"), 2 * 1024, false, "/w/other"),
        row("plain", None, 0, false, "/w/plain"),
        row("more", Some("JavaScript"), 1024, true, "/w/more"),
        row("seventh", Some("Go"), 33 * 1024, true, "/w/seventh"),
    ];
    state.total_size = 11 * 1024 * 1024 + 256 * 1024 + 48 * 1024 + 2 * 1024 + 1024 + 33 * 1024;
    state
}

#[test]
fn metrics_count_languages_and_git() {
    let metrics = metrics_from(&sample_state());
    assert_eq!(metrics.projects, 7);
    assert_eq!(metrics.rust, 2);
    assert_eq!(metrics.js_ts, 2, "JavaScript + TypeScript");
    assert_eq!(metrics.git_repos, 4);
    assert!(metrics.total_size_bytes > 0);
}

#[test]
fn empty_state_metrics_are_zero() {
    let metrics = metrics_from(&SniffScreenState::default());
    assert_eq!(metrics, KpiMetrics::default());
}

#[test]
fn health_line_reports_ready_counts_and_cache() {
    let mut state = sample_state();
    state.from_cache = true;
    let metrics = metrics_from(&state);
    let with_cache = text(&health_line(&state, &metrics));
    assert!(with_cache.contains("detection READY"));
    assert!(with_cache.contains("7 projects"));
    assert!(with_cache.contains("4 git"));
    assert!(with_cache.contains("(cache)"), "got: {with_cache}");
    state.from_cache = false;
    assert!(!text(&health_line(&state, &metrics)).contains("(cache)"), "fresh scan must not show a cache marker");
}

#[test]
fn recent_section_is_capped_at_six() {
    let state = sample_state();
    assert!(state.projects.len() > RECENT_MAX);
    assert_eq!(RECENT_MAX, 6);
}

#[test]
fn empty_hints_offer_a_way_forward() {
    assert!(EMPTY_HINT_ACTION.contains("Projects"));
    assert!(EMPTY_HINT_ACTION.contains("Tab"));
    assert!(EMPTY_HINT_ACTION.contains('r'));
    assert!(!EMPTY_HINT_TITLE.is_empty());
}

#[test]
fn human_bytes_scales_units() {
    assert_eq!(human_bytes(0), "0 B");
    assert_eq!(human_bytes(500), "500 B");
    assert_eq!(human_bytes(2048), "2.0 KiB");
    assert_eq!(human_bytes(5 * 1024 * 1024), "5.0 MiB");
    assert_eq!(human_bytes(2 * 1024 * 1024 * 1024), "2.0 GiB");
}

#[test]
fn pack_progress_bar_renders_percent_and_fits_width() {
    let line = progress_bar(33);
    assert_eq!(width(&line), 2 + 24 + 2 + 3);
    assert!(text(&line).contains("33%"));
}

#[test]
fn pack_den_relative_falls_back_to_absolute_when_outside() {
    assert_eq!(den_relative("/data/den", "/data/den/packs/2026/08/x.tar.zst"), "packs/2026/08/x.tar.zst");
    assert_eq!(den_relative("/data/den", "/other/y"), "/other/y");
}

fn flow_in_preview(output_name: Option<String>) -> PackFlow {
    let mut opts = PackFlowOptions::default();
    opts.set_output_name(output_name);
    let mut flow = PackFlow::new("/proj".to_string(), "/den".to_string(), opts);
    flow.phase = PackFlowPhase::Preview(pack_result("/den/packs/2026/08/x.tar.zst"));
    flow
}

fn pack_result(output: &str) -> PackResult {
    PackResult {
        source: "/proj".to_string(),
        output: output.to_string(),
        size_bytes: 0,
        file_count: 0,
        skipped_secret_files: 0,
        dry_run: true,
    }
}

#[test]
fn preview_shows_custom_output_name() {
    let flow = flow_in_preview(Some("my-artifact".to_string()));
    let text = joined(&pack_preview_lines(&flow, &pack_result("/den/packs/2026/08/my-artifact.tar.zst")));
    assert!(text.contains("my-artifact"), "expected custom name in preview: {text}");
}

#[test]
fn preview_falls_back_to_auto_output_name() {
    let flow = flow_in_preview(None);
    let text = joined(&pack_preview_lines(&flow, &pack_result("/den/packs/2026/08/slug__ts.tar.zst")));
    assert!(text.contains("(auto)"), "expected auto output-name: {text}");
}

#[test]
fn output_name_editor_shows_draft_and_result() {
    let mut flow = flow_in_preview(None);
    flow.editing_output_name = true;
    flow.output_name_buffer = "my-artifact".to_string();
    let text = joined(&output_name_editor_lines(&flow));
    assert!(text.contains("my-artifact"), "draft missing: {text}");
    assert!(text.contains("my-artifact.tar.zst"), "result missing: {text}");
}

#[test]
fn stub_hint_mentions_follow_up() {
    assert!(TREE_STUB_HINT.contains("V2-T1"));
}

#[test]
fn mode_badge_matches_modes() {
    assert_eq!(mode_badge(OrchestrationMode::Atomic), "ATOMIC");
    assert_eq!(mode_badge(OrchestrationMode::FailFast), "FAIL-FAST");
}

#[test]
fn raid_progress_bar_renders_percent_and_fits_width() {
    let line = progress_bar(33);
    assert_eq!(width(&line), 2 + 24 + 2 + 3, "bar = pad + track + pad + '33%'");
    assert!(text(&line).contains("33%"));
}

#[test]
fn progress_bar_fills_a_quarter_at_twenty_five_percent() {
    let line = text(&progress_bar(25));
    assert_eq!(line.chars().filter(|c| *c == '█').count(), 6);
    assert_eq!(line.chars().filter(|c| *c == '░').count(), 18);
    let full = text(&progress_bar(100));
    assert_eq!(full.chars().filter(|c| *c == '█').count(), 24);
}

#[test]
fn passphrase_lines_show_dots_never_the_value() {
    let mut input = PassphraseInput::new();
    for c in "hunter2-secret".chars() {
        input.push_char(c);
    }
    let joined = joined(&passphrase_lines(&input));
    assert!(!joined.contains("hunter2"), "passphrase modal must never print the typed value: {joined}");
    assert!(joined.contains("•"), "dots must stand in for the input");
    assert_eq!(joined.chars().filter(|c| *c == '•').count(), 14);
}

#[test]
fn raid_den_relative_falls_back_to_absolute_when_outside() {
    assert_eq!(den_relative("/data/den", "/data/den/packs/2026/08/x.tar.zst"), "packs/2026/08/x.tar.zst");
    assert_eq!(den_relative("/data/den", "/other/y"), "/other/y");
}

fn reference() -> FindingRef {
    FindingRef {
        path: "/repo/.env".to_string(),
        marker_id: "aws_access_key".to_string(),
        line: 1,
        value_hash: "abc".to_string(),
    }
}

#[test]
fn ready_phase_renders_the_value() {
    let mut modal = RevealModal::new("/repo/.env".to_string(), reference());
    modal.set_ready(WorkerRevealSecret::new("AKIASUPERSECRET123".to_string()));
    let text = joined(&body_lines(&modal));
    assert!(text.contains("AKIASUPERSECRET123"), "Ready phase must render the raw value: {text}");
}

#[test]
fn confirm_phase_never_renders_a_value() {
    let modal = RevealModal::new("/repo/.env".to_string(), reference());
    let text = joined(&body_lines(&modal));
    assert!(!text.contains("AKIA"), "Confirm must not render any value: {text}");
    assert!(text.contains("y reveal"));
}

#[test]
fn failed_phase_renders_message_only() {
    let mut modal = RevealModal::new("/repo/.env".to_string(), reference());
    modal.set_failed("file changed since dig".to_string());
    let text = joined(&body_lines(&modal));
    assert!(text.contains("file changed since dig"));
    assert!(!text.contains("AKIA"), "Failed must not render any value: {text}");
}

#[test]
fn revealing_phase_has_no_value() {
    let mut modal = RevealModal::new("/repo/.env".to_string(), reference());
    modal.phase = RevealPhase::Revealing;
    assert!(!joined(&body_lines(&modal)).contains("AKIA"));
}

#[test]
fn format_bytes_test() {
    assert_eq!(format_bytes(0), "0 B");
    assert_eq!(format_bytes(512), "512 B");
    assert_eq!(format_bytes(1024), "1.0 KB");
    assert_eq!(format_bytes(1536), "1.5 KB");
    assert_eq!(format_bytes(1024 * 1024), "1.0 MB");
    assert_eq!(format_bytes(1024 * 1024 * 1024), "1.0 GB");
}

#[test]
fn project_row_creation() {
    let row = ProjectRow {
        name: "test".into(),
        language: Some("Rust".into()),
        frameworks: vec!["Axum".into()],
        size_bytes: 1024 * 1024,
        is_git_repo: true,
        path: "/tmp/test".to_string(),
    };
    assert_eq!(row.name, "test");
    assert_eq!(row.language, Some("Rust".into()));
    assert_eq!(row.frameworks, vec!["Axum"]);
    assert_eq!(row.size_bytes, 1024 * 1024);
    assert!(row.is_git_repo);
}

#[test]
fn empty_log_hints_to_user() {
    assert!(joined(&activity_lines(&ActivityLog::default())).contains("No activity yet"));
}

#[test]
fn glyphs_carry_semantics_per_kind() {
    for (kind, glyph) in
        [(ActivityKind::Success, "✔"), (ActivityKind::Warn, "!"), (ActivityKind::Error, "✖"), (ActivityKind::Info, "·")]
    {
        let mut log = ActivityLog::default();
        log.push(kind, "message".to_string());
        let line = text(&activity_lines(&log)[0]);
        assert!(line.contains(glyph), "{kind:?} must render {glyph:?}: {line:?}");
    }
}

#[test]
fn newest_first_order() {
    let mut log = ActivityLog::default();
    log.push(ActivityKind::Info, "old".to_string());
    log.push(ActivityKind::Info, "new".to_string());
    let lines = activity_lines(&log);
    let old_y = lines.iter().position(|l| text(l).contains("old")).expect("old row must be present");
    let new_y = lines.iter().position(|l| text(l).contains("new")).expect("new row must be present");
    assert!(new_y < old_y, "newest entry must be on top");
}

#[test]
fn newest_row_brighter_than_older() {
    let mut log = ActivityLog::default();
    log.push(ActivityKind::Info, "old".to_string());
    log.push(ActivityKind::Info, "new".to_string());
    let lines = activity_lines(&log);
    assert!(lines[0].pieces.iter().any(|p| p.emphasis == Emphasis::Bold), "newest message must be bold/brighter");
    assert!(!lines[1].pieces.iter().any(|p| p.emphasis == Emphasis::Bold));
}

#[test]
fn trim_marker_lists_lost_entries() {
    let mut log = ActivityLog::default();
    for i in 0..=ACTIVITY_CAP {
        log.push(ActivityKind::Info, format!("entry {i}"));
    }
    let text = joined(&activity_lines(&log));
    assert!(text.contains("(1)"), "one trimmed entry must be marked: {text:?}");
}

#[test]
fn empty_value_becomes_placeholder() {
    let rendered = text(&detail_line_to_line(&DetailLine::new("Risk", String::new())));
    assert!(rendered.contains(theme::EMPTY_PLACEHOLDER), "empty value must render the · placeholder, got {rendered:?}");
    assert!(!rendered.contains("  :  "), "value slot must not stay blank");
}

#[test]
fn full_value_is_kept() {
    let rendered = text(&detail_line_to_line(&DetailLine::new("Path", "/a/b/c".to_string())));
    assert!(rendered.contains("/a/b/c"));
    assert!(rendered.contains("Path"));
}

#[test]
fn muted_uses_muted_fg() {
    assert_eq!(DetailLine::muted("Path", "/x".to_string()).tone, Tone::Muted);
    assert_eq!(DetailLine::new("Git", "tracked".to_string()).tone, Tone::Fg);
}

#[test]
fn mixed_lines_render_deterministically() {
    let lines = [DetailLine::new("Risk", "Critical".to_string()), DetailLine::new("Kind", String::new())];
    let rendered: Vec<String> = lines.iter().map(|l| text(&detail_line_to_line(l))).collect();
    assert!(rendered[0].contains("Critical"));
    assert!(rendered[1].contains(theme::EMPTY_PLACEHOLDER));
}

#[test]
fn tiles_cover_the_five_metrics_in_order() {
    let metrics = KpiMetrics { projects: 6, rust: 3, js_ts: 2, total_size_bytes: 1024 * 1024, git_repos: 5 };
    let tiles = build_tiles(&metrics);
    assert_eq!(tiles.len(), 5);
    let got: Vec<(&str, &str)> = tiles.iter().map(|t| (t.value.as_str(), t.label)).collect();
    assert_eq!(
        got,
        vec![("6", "projects"), ("3", "Rust"), ("2", "JS/TS"), ("1.0 MB", "total size"), ("5", "git repos")]
    );
}

#[test]
fn rust_and_js_ts_tiles_carry_language_accents() {
    let metrics = KpiMetrics { rust: 1, js_ts: 1, ..Default::default() };
    let tiles = build_tiles(&metrics);
    assert_eq!(tiles[1].accent, Tone::Focus, "Rust → brand");
    assert_eq!(tiles[2].accent, Tone::Info, "JS/TS → technology");
    assert_eq!(tiles[0].accent, Tone::Fg, "plain tiles use default fg");
    assert_eq!(tiles[3].accent, Tone::Fg, "total size uses default fg");
}

#[test]
fn zero_metrics_render_zero_values() {
    let tiles = build_tiles(&KpiMetrics::default());
    for tile in &tiles[0..3] {
        assert_eq!(tile.value, "0", "counts must render 0, got {:?}", tile.value);
    }
    assert_eq!(tiles[3].value, "0 B", "empty total size must stay readable");
    assert_eq!(tiles[4].value, "0");
}

fn card_text(project: &ProjectRow) -> String {
    joined(&card_lines(project))
}

#[test]
fn full_card_follows_primary_secondary_state_metadata() {
    let project =
        row("raccpack-core", Some("Rust"), 11 * 1024 * 1024 + 512 * 1024, true, "/home/dev/projects/raccpack-core");
    let text = card_text(&project);
    assert!(text.contains("raccpack-core"));
    assert!(text.contains("Rust"));
    assert!(text.contains("11.5 MB"));
    assert!(text.contains("● CLEAN"));
    assert!(text.contains("/home/dev/projects/raccpack-core"));
}

#[test]
fn secondary_sorts_by_lines() {
    let project = row("web", Some("TypeScript"), 256 * 1024, false, "/w");
    let lines = card_lines(&project);
    assert!(text(&lines[0]).starts_with("web"));
    let secondary = text(&lines[1]);
    assert!(secondary.contains("TypeScript") && secondary.contains("256.0 KB"));
    assert!(text(&lines[2]).contains(theme::EMPTY_PLACEHOLDER));
    assert!(text(&lines[3]).contains("/w"));
}

#[test]
fn empty_fields_render_placeholders() {
    let text = card_text(&row("empty", None, 0, false, ""));
    assert!(text.contains(theme::EMPTY_PLACEHOLDER));
    assert!(!text.contains("CLEAN"), "no git repo → no clean badge");
}

#[test]
fn git_repo_uses_clean_glyph_and_token() {
    let state = text(&card_lines(&row("repo", None, 0, true, "/r"))[2]);
    assert!(state.contains(theme::GIT_CLEAN_GLYPH));
    assert!(state.contains("CLEAN"));
}

#[test]
fn card_height_is_stable() {
    assert_eq!(CARD_HEIGHT, 4);
}

#[test]
fn width_within_spec_range() {
    assert!((22..=24).contains(&theme::SPACE_SIDEBAR_WIDTH));
}

fn sidebar_lines(app: &App) -> Vec<String> {
    build_lines(app, theme::SPACE_SIDEBAR_WIDTH).iter().map(text).collect()
}

#[test]
fn brand_block_present() {
    let lines = sidebar_lines(&App::new());
    assert!(lines.iter().any(|l| l.contains("RACCPACK")));
    assert!(lines.iter().any(|l| l.contains("workspace")));
}

#[test]
fn version_footer_present() {
    assert!(sidebar_lines(&App::new()).iter().any(|l| l.contains("v0.")));
}

#[test]
fn sidebar_all_views_have_non_empty_labels() {
    for view in ALL_VIEWS {
        assert!(!view.label().is_empty(), "{view:?} label must be non-empty");
    }
}

#[test]
fn brand_line_is_exact_mark() {
    let lines = sidebar_lines(&App::new());
    assert!(lines.iter().any(|l| l.trim().ends_with("◈ RACCPACK")), "got {lines:?}");
}

#[test]
fn version_footer_matches_cargo_pkg_version() {
    let lines = sidebar_lines(&App::new());
    let expected = format!("v{}", VERSION);
    assert!(lines.iter().any(|l| l.trim() == expected), "footer must exactly read {expected:?}, got {lines:?}");
    assert_eq!(VERSION, "0.4.4");
}

#[test]
fn nav_rows_fill_every_sidebar_width_22_to_24() {
    let app = App::new();
    for w in 22u16..=24 {
        for view in ALL_VIEWS {
            let line = nav_line(view, true, false, nav_badge(&app, view), w);
            assert_eq!(width(&line), w as usize, "{view:?} at width {w} must exactly fill the column");
        }
    }
}

fn finding(path: &str) -> FindingRow {
    FindingRow {
        path: path.to_string(),
        risk: SensitiveRisk::High,
        kind: ".env".into(),
        git_status: "tracked".into(),
        content_ref: None,
    }
}

#[test]
fn badge_count_is_text_not_just_color() {
    let mut app = App::new();
    app.sniff_state.projects.push(row("a", None, 0, false, "/a"));
    let line = nav_line(ViewId::Projects, false, false, nav_badge(&app, ViewId::Projects), theme::SPACE_SIDEBAR_WIDTH);
    assert!(text(&line).contains('1'), "projects count must survive without colour");

    let mut app = App::new();
    app.dig_state.last_run = Some(Timestamp { secs: 1, nanos: 0 });
    app.dig_state.findings.push(finding("/a"));
    let line = nav_line(ViewId::Findings, false, false, nav_badge(&app, ViewId::Findings), theme::SPACE_SIDEBAR_WIDTH);
    assert!(text(&line).contains('1'), "findings count must survive without colour");
}

#[test]
fn projects_badge_counts_projects() {
    let mut app = App::new();
    assert_eq!(nav_badge(&app, ViewId::Projects).unwrap().0, "0");
    app.sniff_state.projects.push(row("a", None, 0, false, "/a"));
    assert_eq!(nav_badge(&app, ViewId::Projects).unwrap().0, "1");
}

#[test]
fn findings_badge_hidden_until_dig_runs() {
    assert_eq!(nav_badge(&App::new(), ViewId::Findings).unwrap().0, theme::EMPTY_PLACEHOLDER);
}

#[test]
fn findings_badge_zero_when_run_clean() {
    let mut app = App::new();
    app.dig_state.last_run = Some(Timestamp { secs: 1, nanos: 0 });
    let (text, tone) = nav_badge(&app, ViewId::Findings).unwrap();
    assert_eq!(text, "0");
    assert_eq!(tone, Tone::Muted);
}

#[test]
fn findings_badge_warns_when_present() {
    let mut app = App::new();
    app.dig_state.last_run = Some(Timestamp { secs: 1, nanos: 0 });
    app.dig_state.findings.push(finding("/a"));
    let (text, tone) = nav_badge(&app, ViewId::Findings).unwrap();
    assert_eq!(text, "1");
    assert_eq!(tone, Tone::Warning);
}

#[test]
fn badge_rows_pad_to_width() {
    let app = App::new();
    for view in ALL_VIEWS {
        let line = nav_line(view, false, false, nav_badge(&app, view), theme::SPACE_SIDEBAR_WIDTH);
        assert_eq!(width(&line), theme::SPACE_SIDEBAR_WIDTH as usize, "{view:?} row must fill the sidebar width");
    }
}

#[test]
fn nav_lines_never_overflow_sidebar() {
    let app = App::new();
    for view in ALL_VIEWS {
        let line = nav_line(view, false, false, nav_badge(&app, view), theme::SPACE_SIDEBAR_WIDTH);
        assert!(width(&line) <= theme::SPACE_SIDEBAR_WIDTH as usize);
    }
}

#[test]
fn focus_label_matches_footer_hint() {
    assert_eq!(Focus::Sidebar.label(), "sidebar");
    assert_eq!(Focus::Main.label(), "main");
}

#[test]
fn pipeline_rows_name_phases_in_capitals() {
    let row_text = text(&raccpack_tui::raid_view::pipeline_row("stash", true, false));
    assert!(row_text.contains("STASH"), "{row_text}");
    assert!(!row_text.contains("stash"));
}

fn done_result() -> raccpack_tui::domain::RaidResult {
    raccpack_tui::domain::RaidResult {
        project_path: "/p".to_string(),
        stages: vec![raccpack_tui::domain::StageOutcome {
            name: "pack".to_string(),
            success: true,
            skipped: false,
            message: "ok".to_string(),
        }],
        den_artifacts: vec!["/den/packs/p.tar.zst".to_string()],
        success: true,
        dry_run: false,
        rolled_back: false,
        rollback_warnings: vec![],
    }
}

#[test]
fn done_screen_lists_stages_and_den_relative_artifacts() {
    let mut flow = raccpack_tui::raid::RaidFlow::new("/p".to_string(), "/den".to_string(), raccpack_tui::raid::RaidFlowOptions::default());
    flow.phase = raccpack_tui::raid::FlowPhase::Done(done_result());
    let body = joined(&raccpack_tui::raid_view::done_lines(&flow, &done_result()));
    assert!(body.contains("PACK"), "{body}");
    assert!(body.contains("packs/p.tar.zst"), "{body}");
    assert!(!body.contains("/den/packs"), "{body}");
}
