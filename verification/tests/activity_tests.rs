use raccpack_tui::activity::{op_label, project_label, ActivityKind, ActivityLog, ACTIVITY_CAP};
use raccpack_tui::domain::{CoreOperation, ProgressEvent};

fn log_with(n: usize) -> ActivityLog {
    let mut log = ActivityLog::default();
    for i in 0..n {
        log.push(ActivityKind::Info, format!("entry {i}"));
    }
    log
}

fn progress(op: CoreOperation, percent: u8, message: &str) -> ProgressEvent {
    ProgressEvent {
        operation: op,
        phase: "x".to_string(),
        phase_index: 0,
        phase_count: 1,
        percent,
        overall_percent: percent,
        message: message.to_string(),
        phase_complete: false,
    }
}

#[test]
fn kinds_have_distinct_glyphs() {
    let glyphs: Vec<&str> = [
        ActivityKind::Success,
        ActivityKind::Warn,
        ActivityKind::Error,
        ActivityKind::Info,
    ]
    .iter()
    .map(|k| k.glyph())
    .collect();
    assert_eq!(glyphs, vec!["✔", "!", "✖", "·"]);
}

#[test]
fn pushes_newest_first() {
    let mut log = ActivityLog::default();
    log.push(ActivityKind::Success, "first".to_string());
    log.push(ActivityKind::Warn, "second".to_string());
    assert_eq!(log.entries()[0].message, "second");
    assert_eq!(log.entries()[1].message, "first");
}

#[test]
fn cap_trims_oldest_and_counts() {
    let log = log_with(ACTIVITY_CAP + 3);
    assert_eq!(log.entries().len(), ACTIVITY_CAP);
    assert_eq!(log.trimmed(), 3);
    assert_eq!(log.entries().last().map(|e| e.message.as_str()), Some("entry 3"));
}

#[test]
fn empty_log_has_no_entries() {
    let log = ActivityLog::default();
    assert!(log.is_empty());
    assert_eq!(log.trimmed(), 0);
}

#[test]
fn progress_throttles_fine_steps_and_same_text() {
    let mut log = ActivityLog::default();
    log.push_progress(&progress(CoreOperation::Sniff, 0, "scan"));
    log.push_progress(&progress(CoreOperation::Sniff, 5, "scan"));
    log.push_progress(&progress(CoreOperation::Sniff, 7, "scan"));
    assert_eq!(log.entries().len(), 1, "no step < 10 and same text → quiet");
}

#[test]
fn progress_writes_on_ten_point_step() {
    let mut log = ActivityLog::default();
    log.push_progress(&progress(CoreOperation::Sniff, 0, "scan"));
    log.push_progress(&progress(CoreOperation::Sniff, 10, "scan"));
    assert_eq!(log.entries().len(), 2);
    assert_eq!(log.entries()[0].message, "sniff · 10%");
}

#[test]
fn progress_writes_on_text_change() {
    let mut log = ActivityLog::default();
    log.push_progress(&progress(CoreOperation::Sniff, 0, "scan"));
    log.push_progress(&progress(CoreOperation::Sniff, 4, "detect"));
    assert_eq!(log.entries().len(), 2);
    assert_eq!(log.entries()[0].message, "sniff · 4%");
}

#[test]
fn progress_resets_between_operations() {
    let mut log = ActivityLog::default();
    log.push_progress(&progress(CoreOperation::Sniff, 0, "scan"));
    log.push_progress(&progress(CoreOperation::Dig, 0, "dig"));
    assert_eq!(log.entries().len(), 2, "op change must always be recorded");
    assert!(log.entries()[0].message.starts_with("dig ·"), "latest line must carry the new op");
}

#[test]
fn op_labels_cover_every_operation() {
    for op in [
        CoreOperation::Sniff,
        CoreOperation::Dig,
        CoreOperation::Stash,
        CoreOperation::Rinse,
        CoreOperation::Pack,
        CoreOperation::Raid,
    ] {
        assert!(!op_label(op).is_empty(), "{op:?} must have a label");
    }
}

#[test]
fn project_label_prefers_basename() {
    assert_eq!(project_label("/tmp/srv"), "srv");
    assert_eq!(project_label("/just-a/path"), "path");
}

#[test]
fn project_label_falls_back_to_whole_path_without_basename() {
    assert_eq!(project_label("/"), "/");
    assert_eq!(project_label("/tmp/.."), "/tmp/..");
}

#[test]
fn first_progress_line_is_always_written_with_percent() {
    let mut log = ActivityLog::default();
    log.push_progress(&progress(CoreOperation::Raid, 42, "stash"));
    assert_eq!(log.entries().len(), 1);
    assert_eq!(log.entries()[0].message, "raid · 42%");
    assert_eq!(log.entries()[0].kind, ActivityKind::Info);
}

#[test]
fn nine_point_step_with_same_text_stays_quiet_then_ten_writes() {
    let mut log = ActivityLog::default();
    log.push_progress(&progress(CoreOperation::Pack, 20, "a"));
    log.push_progress(&progress(CoreOperation::Pack, 29, "a"));
    assert_eq!(log.entries().len(), 1);
    log.push_progress(&progress(CoreOperation::Pack, 30, "a"));
    assert_eq!(log.entries().len(), 2);
    assert_eq!(log.entries()[0].message, "pack · 30%");
}

#[test]
fn log_stays_within_cap_after_many_pushes() {
    let log = log_with(3 * ACTIVITY_CAP);
    assert_eq!(log.entries().len(), ACTIVITY_CAP);
    assert_eq!(log.trimmed(), 2 * ACTIVITY_CAP);
    assert_eq!(log.entries()[0].message, format!("entry {}", 3 * ACTIVITY_CAP - 1));
}
