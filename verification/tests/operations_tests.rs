use raccpack_tui::operations::{OperationKind, OperationsScreenState, ALL_OPERATIONS};

#[test]
fn all_operations_are_four_in_order() {
    let labels: Vec<&str> = ALL_OPERATIONS.iter().map(|k| k.label()).collect();
    assert_eq!(labels, vec!["Pack", "Stash", "Rinse", "Raid"]);
}

#[test]
fn labels_and_keys_are_unique() {
    let labels: Vec<&str> = ALL_OPERATIONS.iter().map(|k| k.label()).collect();
    let keys: Vec<char> = ALL_OPERATIONS.iter().map(|k| k.key()).collect();
    let unique_labels: std::collections::BTreeSet<_> = labels.iter().collect();
    let unique_keys: std::collections::BTreeSet<_> = keys.iter().collect();
    assert_eq!(unique_labels.len(), ALL_OPERATIONS.len());
    assert_eq!(unique_keys.len(), ALL_OPERATIONS.len());
}

#[test]
fn from_key_round_trips_every_key() {
    for kind in ALL_OPERATIONS {
        assert_eq!(OperationKind::from_key(kind.key()), Some(kind));
    }
    assert_eq!(OperationKind::from_key('x'), None);
}

#[test]
fn next_prev_round_trip() {
    for kind in ALL_OPERATIONS {
        assert_eq!(kind.next().prev(), kind, "next().prev() must round-trip");
        assert_eq!(kind.prev().next(), kind, "prev().next() must round-trip");
    }
}

#[test]
fn next_cycles_through_list() {
    for (i, kind) in ALL_OPERATIONS.iter().enumerate() {
        let expected = ALL_OPERATIONS[(i + 1) % ALL_OPERATIONS.len()];
        assert_eq!(kind.next(), expected, "next() must cycle in list order");
    }
    assert_eq!(OperationKind::Raid.next(), OperationKind::Pack, "cycles back to the first");
}

#[test]
fn planned_stage_maps_future_stages_only() {
    assert_eq!(OperationKind::Pack.planned_stage(), Some("T-02"));
    assert_eq!(OperationKind::Stash.planned_stage(), Some("T-03"));
    assert_eq!(OperationKind::Rinse.planned_stage(), Some("T-04"));
    assert_eq!(OperationKind::Raid.planned_stage(), None);
}

#[test]
fn state_selection_navigation() {
    let mut state = OperationsScreenState::default();
    assert_eq!(state.selected, OperationKind::Pack);

    state.select_next();
    assert_eq!(state.selected, OperationKind::Stash);
    state.select_next();
    assert_eq!(state.selected, OperationKind::Rinse);
    state.select_previous();
    assert_eq!(state.selected, OperationKind::Stash);
    state.select_first();
    assert_eq!(state.selected, OperationKind::Pack);
    state.select_last();
    assert_eq!(state.selected, OperationKind::Raid);
}

#[test]
fn refresh_project_syncs_display_copy() {
    let mut state = OperationsScreenState::default();
    assert_eq!(state.project, None);

    state.refresh_project(Some("/tmp/proj"));
    assert_eq!(state.project, Some("/tmp/proj".to_string()));

    state.refresh_project(None);
    assert_eq!(state.project, None, "clearing the sniff selection clears it");
}

#[test]
fn open_stub_marks_kind_and_default_is_clear() {
    let mut state = OperationsScreenState::default();
    assert_eq!(state.stub, None);
    state.open_stub(OperationKind::Pack);
    assert_eq!(state.stub, Some(OperationKind::Pack));
}

#[test]
fn operation_keys_are_fixed() {
    let keys: Vec<char> = ALL_OPERATIONS.iter().map(|k| k.key()).collect();
    assert_eq!(keys, vec!['p', 's', 'r', 'd']);
}
