use raccpack_tui::domain::PackResult;
use raccpack_tui::keys::KeyCode;
use raccpack_tui::pack::{PackCommand, PackFlow, PackFlowOptions, PackFlowPhase};

fn result(dry_run: bool) -> PackResult {
    PackResult {
        source: "/proj".to_string(),
        output: "/den/packs/x.tar.zst".to_string(),
        size_bytes: if dry_run { 0 } else { 100 },
        file_count: if dry_run { 0 } else { 5 },
        skipped_secret_files: 0,
        dry_run,
    }
}

fn flow() -> PackFlow {
    PackFlow::new("/proj".to_string(), "/den".to_string(), PackFlowOptions::default())
}

#[test]
fn default_options() {
    let opts = PackFlowOptions::default();
    assert!(opts.deny_content_secrets);
    assert_eq!(opts.zstd_level, 3);
    assert_eq!(opts.output_name, None);
}

#[test]
fn set_output_name_round_trip() {
    let mut opts = PackFlowOptions::default();
    assert_eq!(opts.output_name, None);
    opts.set_output_name(Some("my-artifact".to_string()));
    assert_eq!(opts.output_name.as_deref(), Some("my-artifact"));
    opts.set_output_name(None);
    assert_eq!(opts.output_name, None);
}

#[test]
fn cycle_zstd_level_round_trip() {
    let mut opts = PackFlowOptions::default();
    assert_eq!(opts.zstd_level, 3);
    opts.cycle_zstd_level();
    assert_eq!(opts.zstd_level, 5);
    opts.cycle_zstd_level();
    assert_eq!(opts.zstd_level, 10);
    opts.cycle_zstd_level();
    assert_eq!(opts.zstd_level, 19);
    opts.cycle_zstd_level();
    assert_eq!(opts.zstd_level, 3);
}

#[test]
fn cycle_zstd_level_from_unlisted_level_restarts() {
    let mut opts = PackFlowOptions::default();
    opts.zstd_level = 7;
    opts.cycle_zstd_level();
    assert_eq!(opts.zstd_level, 3);
}

#[test]
fn toggle_deny_content() {
    let mut opts = PackFlowOptions::default();
    assert!(opts.deny_content_secrets);
    opts.toggle_deny_content();
    assert!(!opts.deny_content_secrets);
    opts.toggle_deny_content();
    assert!(opts.deny_content_secrets);
}

#[test]
fn preview_keys() {
    let mut flow = flow();
    flow.phase = PackFlowPhase::Preview(result(true));

    assert_eq!(flow.handle_key(KeyCode::Char('y')), Some(PackCommand::PreviewConfirm));
    assert_eq!(flow.handle_key(KeyCode::Enter), Some(PackCommand::PreviewConfirm));
    assert_eq!(flow.handle_key(KeyCode::Char('n')), Some(PackCommand::PreviewCancel));
    assert_eq!(flow.handle_key(KeyCode::Esc), Some(PackCommand::PreviewCancel));
    assert_eq!(flow.handle_key(KeyCode::Char('c')), None);
    assert!(!flow.options.deny_content_secrets);
    assert_eq!(flow.handle_key(KeyCode::Char('z')), None);
    assert_eq!(flow.options.zstd_level, 5);
    flow.phase = PackFlowPhase::Preview(result(true));
    assert_eq!(flow.handle_key(KeyCode::Char('o')), None);
    assert!(flow.editing_output_name);
}

#[test]
fn output_name_editor_round_trip() {
    let mut flow = flow();
    flow.phase = PackFlowPhase::Preview(result(true));

    flow.handle_key(KeyCode::Char('o'));
    assert!(flow.editing_output_name);
    for c in "my-artifact".chars() {
        flow.handle_key(KeyCode::Char(c));
    }
    assert_eq!(flow.output_name_buffer, "my-artifact");

    assert_eq!(flow.handle_key(KeyCode::Enter), None);
    assert!(!flow.editing_output_name);
    assert_eq!(flow.options.output_name.as_deref(), Some("my-artifact"));

    flow.handle_key(KeyCode::Char('o'));
    flow.handle_key(KeyCode::Backspace);
    assert_eq!(flow.output_name_buffer, "my-artifac");
    flow.handle_key(KeyCode::Enter);
    assert_eq!(flow.options.output_name.as_deref(), Some("my-artifac"));

    flow.handle_key(KeyCode::Char('o'));
    for _ in 0..flow.output_name_buffer.len() {
        flow.handle_key(KeyCode::Backspace);
    }
    assert!(flow.output_name_buffer.is_empty());
    flow.handle_key(KeyCode::Enter);
    assert_eq!(flow.options.output_name, None);

    flow.handle_key(KeyCode::Char('o'));
    flow.handle_key(KeyCode::Char('x'));
    flow.handle_key(KeyCode::Char('y'));
    flow.handle_key(KeyCode::Esc);
    assert!(!flow.editing_output_name);
    assert_eq!(flow.options.output_name, None);
    assert!(flow.output_name_buffer.is_empty());

    flow.handle_key(KeyCode::Char('o'));
    assert_eq!(flow.handle_key(KeyCode::Char('c')), None);
    assert!(flow.options.deny_content_secrets);
    flow.handle_key(KeyCode::Esc);
}

#[test]
fn running_esc_is_blocked() {
    let mut flow = flow();
    flow.phase = PackFlowPhase::Running;
    assert_eq!(flow.handle_key(KeyCode::Esc), None);
}

#[test]
fn done_close() {
    let mut flow = flow();
    flow.phase = PackFlowPhase::Done(result(false));
    assert_eq!(flow.handle_key(KeyCode::Enter), Some(PackCommand::Close));
    assert_eq!(flow.handle_key(KeyCode::Esc), Some(PackCommand::Close));
}

#[test]
fn failed_closes_and_ignores_other_keys() {
    let mut flow = flow();
    flow.phase = PackFlowPhase::Failed("boom".to_string());
    assert_eq!(flow.handle_key(KeyCode::Char('y')), None);
    assert_eq!(flow.handle_key(KeyCode::Esc), Some(PackCommand::Close));
}

#[test]
fn on_progress_and_start_running_update_the_flow() {
    let mut flow = flow();
    flow.on_progress(40, "packing");
    assert_eq!(flow.percent, 40);
    assert_eq!(flow.message, "packing");
    flow.start_running();
    assert!(matches!(flow.phase, PackFlowPhase::Running));
}
