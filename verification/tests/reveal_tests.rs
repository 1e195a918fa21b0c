use raccpack_tui::domain::FindingRef;
use raccpack_tui::keys::KeyCode;
use raccpack_tui::reveal_modal::{RevealCommand, RevealModal, RevealPhase};
use raccpack_tui::worker::WorkerRevealSecret;

fn reference() -> FindingRef {
    FindingRef {
        path: "/repo/.env".to_string(),
        marker_id: "aws_access_key".to_string(),
        line: 1,
        value_hash: "abc".to_string(),
    }
}

fn modal() -> RevealModal {
    RevealModal::new("/repo/.env".to_string(), reference())
}

#[test]
fn confirm_y_dispatches_and_moves_to_revealing() {
    let mut modal = modal();
    assert_eq!(modal.handle_key(KeyCode::Char('y')), RevealCommand::Confirm);
    assert!(matches!(modal.phase, RevealPhase::Revealing));
}

#[test]
fn confirm_enter_dispatches() {
    let mut modal = modal();
    assert_eq!(modal.handle_key(KeyCode::Enter), RevealCommand::Confirm);
    assert!(matches!(modal.phase, RevealPhase::Revealing));
}

#[test]
fn confirm_n_esc_close_without_dispatch() {
    let mut m = modal();
    assert_eq!(m.handle_key(KeyCode::Char('n')), RevealCommand::Close);
    let mut m = modal();
    assert_eq!(m.handle_key(KeyCode::Esc), RevealCommand::Close);
}

#[test]
fn other_confirm_keys_are_noop() {
    let mut modal = modal();
    assert_eq!(modal.handle_key(KeyCode::Char('x')), RevealCommand::NoOp);
    assert!(matches!(modal.phase, RevealPhase::Confirm));
}

#[test]
fn revealing_swallows_every_key() {
    let mut modal = modal();
    modal.phase = RevealPhase::Revealing;
    for code in [KeyCode::Char('y'), KeyCode::Char('n'), KeyCode::Esc, KeyCode::Enter, KeyCode::Down] {
        assert_eq!(modal.handle_key(code), RevealCommand::NoOp);
    }
}

#[test]
fn ready_close_drops_secret_and_debug_never_leaks() {
    let mut modal = modal();
    modal.set_ready(WorkerRevealSecret::new("AKIASUPERSECRET123".to_string()));

    let debug = format!("{modal:?}");
    assert!(
        !debug.contains("AKIASUPERSECRET123"),
        "modal Debug must not leak the revealed value: {debug}"
    );
    assert!(debug.contains("Zeroizing { .. }"), "redacted payload expected: {debug}");

    assert_eq!(modal.handle_key(KeyCode::Esc), RevealCommand::Close);
    assert_eq!(modal.handle_key(KeyCode::Char('n')), RevealCommand::Close);
    assert_eq!(modal.handle_key(KeyCode::Enter), RevealCommand::Close);
}

#[test]
fn ready_value_is_exposed_only_through_the_secret() {
    let mut modal = modal();
    modal.set_ready(WorkerRevealSecret::new("AKIA1".to_string()));
    match &modal.phase {
        RevealPhase::Ready { secret } => assert_eq!(secret.expose(), "AKIA1"),
        other => panic!("expected Ready, got {other:?}"),
    }
}

#[test]
fn failed_closes_on_enter_or_esc() {
    let mut modal = modal();
    modal.set_failed("file changed since dig".to_string());
    assert_eq!(modal.handle_key(KeyCode::Enter), RevealCommand::Close);
    let mut m = RevealModal::new("/repo/.env".to_string(), reference());
    m.set_failed("boom".to_string());
    assert_eq!(m.handle_key(KeyCode::Esc), RevealCommand::Close);
}

#[test]
fn failed_other_keys_are_noop() {
    let mut modal = modal();
    modal.set_failed("boom".to_string());
    assert_eq!(modal.handle_key(KeyCode::Char('x')), RevealCommand::NoOp);
}
