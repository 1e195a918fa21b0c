use raccpack_tui::dig::{file_to_row, sort_rows, DigScreenState, FindingRow, RiskFilter};
use raccpack_tui::domain::{DigResult, FindingRef, MaskedValue, SensitiveFile, SensitiveRisk};

fn row(path: &str, risk: SensitiveRisk, git: Option<&str>) -> FindingRow {
    FindingRow {
        path: path.to_string(),
        risk,
        kind: "fixture".to_string(),
        git_status: git.unwrap_or("tracked").to_string(),
        content_ref: None,
    }
}

fn sensitive(path: &str, risk: SensitiveRisk, content: bool) -> SensitiveFile {
    SensitiveFile {
        path: path.to_string(),
        risk,
        labels: vec!["fixture".to_string()],
        content_match: if content {
            Some(MaskedValue {
                masked: "SHOULD-NEVER-LEAK<<<".to_string(),
                value_hash: "deadbeef".to_string(),
                original_len: 42,
            })
        } else {
            None
        },
        git_status: Some("tracked".to_string()),
        content_ref: None,
    }
}

#[test]
fn file_to_row_never_copies_content_match() {
    let file = sensitive("/repo/.env", SensitiveRisk::Critical, true);
    let row = file_to_row(&file);
    assert_eq!(row.path, "/repo/.env");
    assert_eq!(row.risk, SensitiveRisk::Critical);
    assert_eq!(row.kind, "fixture");
    assert_eq!(row.git_status, "tracked");
    let debug = format!("{row:?}");
    assert!(!debug.contains("SHOULD-NEVER-LEAK"), "secret leaked via {debug}");
    assert!(!debug.contains("deadbeef"));
}

#[test]
fn file_to_row_treats_missing_git_as_empty() {
    let mut file = sensitive("/repo/x", SensitiveRisk::Low, false);
    file.git_status = None;
    assert_eq!(file_to_row(&file).git_status, "");
}

#[test]
fn file_to_row_joins_labels_and_keeps_reference() {
    let mut file = sensitive("/repo/.env", SensitiveRisk::High, true);
    file.labels = vec![".env".to_string(), "aws_access_key_id".to_string()];
    file.content_ref = Some(FindingRef {
        path: "/repo/.env".to_string(),
        marker_id: "m1".to_string(),
        line: 3,
        value_hash: "h".to_string(),
    });
    let row = file_to_row(&file);
    assert_eq!(row.kind, ".env, aws_access_key_id");
    let r = row.content_ref.expect("reference is kept");
    assert_eq!(r.marker_id, "m1");
    assert_eq!(r.line, 3);
}

#[test]
fn sort_rows_orders_risk_desc_then_path_asc() {
    let mut rows = vec![
        row("/a", SensitiveRisk::Medium, None),
        row("/b", SensitiveRisk::High, None),
        row("/z", SensitiveRisk::Critical, None),
        row("/a", SensitiveRisk::High, None),
    ];
    sort_rows(&mut rows);
    let risks: Vec<SensitiveRisk> = rows.iter().map(|r| r.risk).collect();
    assert_eq!(
        risks,
        vec![SensitiveRisk::Critical, SensitiveRisk::High, SensitiveRisk::High, SensitiveRisk::Medium]
    );
    assert_eq!(rows[1].path, "/a");
    assert_eq!(rows[2].path, "/b");
}

#[test]
fn sort_rows_keeps_every_row() {
    let mut rows = vec![
        row("/c", SensitiveRisk::Low, None),
        row("/b", SensitiveRisk::Low, None),
        row("/a", SensitiveRisk::Low, None),
        row("/d", SensitiveRisk::Critical, None),
    ];
    sort_rows(&mut rows);
    let paths: Vec<&str> = rows.iter().map(|r| r.path.as_str()).collect();
    assert_eq!(paths, vec!["/d", "/a", "/b", "/c"]);
}

#[test]
fn risk_filter_cycle_wraps() {
    let filter = RiskFilter::ShowAll;
    assert_eq!(filter.next(), RiskFilter::OnlyCritical);
    assert_eq!(filter.next().next(), RiskFilter::HighAndAbove);
    assert_eq!(filter.next().next().next(), RiskFilter::MediumAndAbove);
    assert_eq!(filter.next().next().next().next(), RiskFilter::ShowAll);
}

#[test]
fn risk_filter_labels() {
    assert_eq!(RiskFilter::ShowAll.label(), "all");
    assert_eq!(RiskFilter::OnlyCritical.label(), "critical");
    assert_eq!(RiskFilter::HighAndAbove.label(), "high+");
    assert_eq!(RiskFilter::MediumAndAbove.label(), "medium+");
}

#[test]
fn reapply_filter_filters_and_clamps_selection() {
    let mut state = DigScreenState::default();
    state.all_findings = vec![
        row("/high", SensitiveRisk::High, None),
        row("/crit", SensitiveRisk::Critical, None),
        row("/low", SensitiveRisk::Low, None),
    ];
    state.min_risk = RiskFilter::OnlyCritical;
    state.reapply_filter();
    assert_eq!(state.findings.len(), 1);
    assert_eq!(state.findings[0].path, "/crit");

    state.table_state.select(Some(5));
    state.min_risk = RiskFilter::ShowAll;
    state.reapply_filter();
    assert_eq!(state.table_state.selected(), Some(2));
}

#[test]
fn reapply_filter_clears_selection_when_empty() {
    let mut state = DigScreenState::default();
    state.all_findings = vec![row("/x", SensitiveRisk::Low, None)];
    state.min_risk = RiskFilter::OnlyCritical;
    state.reapply_filter();
    assert!(state.findings.is_empty());
    assert_eq!(state.table_state.selected(), None);
}

#[test]
fn medium_and_above_keeps_medium_high_critical() {
    let mut state = DigScreenState::default();
    state.all_findings = vec![
        row("/c", SensitiveRisk::Critical, None),
        row("/h", SensitiveRisk::High, None),
        row("/m", SensitiveRisk::Medium, None),
        row("/l", SensitiveRisk::Low, None),
    ];
    state.min_risk = RiskFilter::MediumAndAbove;
    state.reapply_filter();
    let paths: Vec<&str> = state.findings.iter().map(|r| r.path.as_str()).collect();
    assert_eq!(paths, vec!["/c", "/h", "/m"]);
    state.min_risk = RiskFilter::HighAndAbove;
    state.reapply_filter();
    assert_eq!(state.findings.len(), 2);
}

#[test]
fn set_dig_result_sorts_and_filters() {
    let mut state = DigScreenState::default();
    let result = DigResult {
        root: "/repo".to_string(),
        files: vec![
            sensitive("/d", SensitiveRisk::High, false),
            sensitive("/a", SensitiveRisk::Critical, true),
        ],
        duration_ms: 1,
        files_scanned: 10,
    };
    state.set_dig_result(result);
    assert_eq!(state.all_findings.len(), 2);
    assert_eq!(state.findings.len(), 2);
    assert_eq!(state.all_findings[0].path, "/a");
    for f in &state.findings {
        assert!(!format!("{f:?}").contains("SHOULD-NEVER-LEAK"));
    }
    state.set_loading(true);
    state.cycle_min_risk();
    state.set_loading(false);
    assert_eq!(state.min_risk, RiskFilter::OnlyCritical);
}

#[test]
fn dig_selection_moves_within_bounds() {
    let mut state = DigScreenState::default();
    state.findings = vec![row("/a", SensitiveRisk::Low, None), row("/b", SensitiveRisk::Low, None)];
    state.select_next();
    assert_eq!(state.table_state.selected(), Some(1), "no selection reads as the first row");
    state.select_next();
    assert_eq!(state.table_state.selected(), Some(1));
    assert_eq!(state.selected_finding().map(|r| r.path.as_str()), Some("/b"));
    state.select_first();
    assert_eq!(state.table_state.selected(), Some(0));
    state.select_previous();
    assert_eq!(state.table_state.selected(), Some(0));
    state.select_last();
    assert_eq!(state.table_state.selected(), Some(1));
}

#[test]
fn leave_clears_project_scope() {
    let mut state = DigScreenState::default();
    state.project = Some("/repo".to_string());
    state.findings = vec![row("/a", SensitiveRisk::Low, None)];
    state.all_findings = vec![row("/a", SensitiveRisk::Low, None)];
    state.table_state.select(Some(0));
    state.leave();
    assert!(state.project.is_none());
    assert_eq!(state.findings.len(), 1, "results are kept");
    assert_eq!(state.table_state.selected(), None);
    state.clear();
    assert!(state.findings.is_empty());
    assert!(state.all_findings.is_empty());
}

#[test]
fn sort_rows_keeps_equal_rows_in_input_order() {
    let mut first = row("/same", SensitiveRisk::High, None);
    first.kind = "first".to_string();
    let mut second = row("/same", SensitiveRisk::High, None);
    second.kind = "second".to_string();
    let mut rows = vec![row("/a", SensitiveRisk::Low, None), first, row("/b", SensitiveRisk::Critical, None), second];
    sort_rows(&mut rows);
    let kinds: Vec<&str> = rows.iter().map(|r| r.kind.as_str()).collect();
    assert_eq!(kinds, vec!["fixture", "first", "second", "fixture"]);
    assert_eq!(rows[0].path, "/b");
    assert_eq!(rows[3].path, "/a");
}
