//! Top-level application state and key routing: which layer (modal,
//! help overlay, view content, sidebar, main area) takes a key, what it
//! changes, and which command it hands to the event layer.

use vstd::prelude::*;
use crate::activity::ActivityLog;
use crate::dig::{DigScreenState, RiskFilter, next_filter, refiltered, selected_finding_index, with_dig_selection};
use crate::keys::{KeyCode, KeyEvent};
use crate::nav::{Command, Focus, ViewId, next_view, prev_view};
use crate::operations::{OperationKind, OperationsScreenState, op_at, op_from_key, op_index};
use crate::pack::{PackCommand, PackFlow, pack_key_step};
use crate::raid::{RaidCommand, RaidFlow, raid_key_step};
use crate::reveal_modal::{RevealCommand, RevealModal, RevealPhase, reveal_command};
use crate::sniff::{ProjectsMode, SniffScreenState, next_mode, selected_project_index, with_sniff_selection};
use crate::table::{select_bottom, select_down, select_top, select_up};

verus! {

/// Top-level application state.
#[derive(Debug)]
pub struct App {
    pub current_view: ViewId,
    pub focus: Focus,
    pub help_visible: bool,
    pub running: bool,
    /// State for the sniff (Projects) screen.
    pub sniff_state: SniffScreenState,
    /// State for the dig (Findings) screen.
    pub dig_state: DigScreenState,
    /// State for the Operations hub screen.
    pub operations_state: OperationsScreenState,
    /// Resolved den directory.
    pub den_dir: String,
    /// Whether to run a sniff refresh as soon as the loop starts.
    pub refresh_on_start: bool,
    /// Active raid modal flow, if any.
    pub raid_flow: Option<RaidFlow>,
    /// Active pack modal flow, if any.
    pub pack_flow: Option<PackFlow>,
    /// Active reveal modal (opt-in, short-lived), if any.
    pub reveal: Option<RevealModal>,
    /// Activity stream shown beside the screens.
    pub activity: ActivityLog,
}

/// `j` or Down.
pub open spec fn is_down_key(k: KeyCode) -> bool {
    k == KeyCode::Char('j') || k == KeyCode::Down
}

/// `k` or Up.
pub open spec fn is_up_key(k: KeyCode) -> bool {
    k == KeyCode::Char('k') || k == KeyCode::Up
}

/// The view a digit key jumps to: `1` Overview … `4` Operations.
pub open spec fn digit_view(k: KeyCode) -> Option<ViewId> {
    if k == KeyCode::Char('1') {
        Some(ViewId::Overview)
    } else if k == KeyCode::Char('2') {
        Some(ViewId::Projects)
    } else if k == KeyCode::Char('3') {
        Some(ViewId::Findings)
    } else if k == KeyCode::Char('4') {
        Some(ViewId::Operations)
    } else {
        None
    }
}

/// The navigation part of the app state.
pub struct NavState {
    pub view: ViewId,
    pub focus: Focus,
    pub help: bool,
    pub running: bool,
}

/// The navigation state of `a`.
pub open spec fn nav_of(a: App) -> NavState {
    NavState { view: a.current_view, focus: a.focus, help: a.help_visible, running: a.running }
}

/// `a` with navigation state `n`, everything else equal.
pub open spec fn with_nav(a: App, n: NavState) -> App {
    App { current_view: n.view, focus: n.focus, help_visible: n.help, running: n.running, ..a }
}

/// Keys the sidebar and the main area both take.
pub open spec fn is_shared_nav_key(k: KeyCode) -> bool {
    k == KeyCode::Tab || k == KeyCode::BackTab || digit_view(k).is_some() || k == KeyCode::Char('q')
        || k == KeyCode::Char('?')
}

/// Tab / Shift+Tab cycle the views, `1`–`4` jump to a view, `q` quits,
/// `?` opens the help overlay; other keys change nothing.
pub open spec fn shared_nav(n: NavState, k: KeyCode) -> (NavState, Command) {
    if k == KeyCode::Tab {
        (NavState { view: next_view(n.view), ..n }, Command::NoOp)
    } else if k == KeyCode::BackTab {
        (NavState { view: prev_view(n.view), ..n }, Command::NoOp)
    } else if digit_view(k).is_some() {
        (NavState { view: digit_view(k).unwrap(), ..n }, Command::NoOp)
    } else if k == KeyCode::Char('q') {
        (NavState { running: false, ..n }, Command::Quit)
    } else if k == KeyCode::Char('?') {
        (NavState { help: true, ..n }, Command::NoOp)
    } else {
        (n, Command::NoOp)
    }
}

/// A key with the sidebar focused: `j`/`k` and the arrows move between
/// views, `l` / Right / Enter focus the main area, the shared keys apply.
pub open spec fn sidebar_nav(n: NavState, k: KeyCode) -> (NavState, Command) {
    if is_down_key(k) {
        (NavState { view: next_view(n.view), ..n }, Command::NoOp)
    } else if is_up_key(k) {
        (NavState { view: prev_view(n.view), ..n }, Command::NoOp)
    } else if k == KeyCode::Char('l') || k == KeyCode::Right || k == KeyCode::Enter {
        (NavState { focus: Focus::Main, ..n }, Command::NoOp)
    } else {
        shared_nav(n, k)
    }
}

/// Keys that move a list selection: `j`/`k`, the arrows, `g`, `G`.
pub open spec fn is_list_key(k: KeyCode) -> bool {
    is_down_key(k) || is_up_key(k) || k == KeyCode::Char('g') || k == KeyCode::Char('G')
}

/// A table selection after a list key, in a table of `len` rows.
pub open spec fn moved_selection(sel: Option<usize>, len: int, k: KeyCode) -> Option<usize> {
    if is_down_key(k) {
        select_down(sel, len)
    } else if is_up_key(k) {
        select_up(sel)
    } else if k == KeyCode::Char('g') {
        select_top(sel, len)
    } else {
        select_bottom(sel, len)
    }
}

/// The highlighted operation after a list key (the list cycles).
pub open spec fn moved_operation(o: OperationKind, k: KeyCode) -> OperationKind {
    if is_down_key(k) {
        op_at(op_index(o) + 1)
    } else if is_up_key(k) {
        op_at(op_index(o) + 3)
    } else if k == KeyCode::Char('g') {
        OperationKind::Pack
    } else {
        OperationKind::Raid
    }
}

/// Views whose main area holds a list.
pub open spec fn is_list_view(v: ViewId) -> bool {
    v == ViewId::Projects || v == ViewId::Findings || v == ViewId::Operations
}

/// `a` after a list key in its current (list) view.
pub open spec fn list_moved(a: App, k: KeyCode) -> App {
    if a.current_view == ViewId::Projects {
        App {
            sniff_state: with_sniff_selection(
                a.sniff_state,
                moved_selection(
                    a.sniff_state.table_state.selected,
                    a.sniff_state.projects@.len() as int,
                    k,
                ),
            ),
            ..a
        }
    } else if a.current_view == ViewId::Findings {
        App {
            dig_state: with_dig_selection(
                a.dig_state,
                moved_selection(
                    a.dig_state.table_state.selected,
                    a.dig_state.findings@.len() as int,
                    k,
                ),
            ),
            ..a
        }
    } else {
        App {
            operations_state: OperationsScreenState {
                selected: moved_operation(a.operations_state.selected, k),
                ..a.operations_state
            },
            ..a
        }
    }
}

/// A key with the main area focused took `a` to `b`, returning `r`.
/// - An open stub notice on Operations takes every key; Esc / Enter
///   dismiss it.
/// - Esc on Findings goes back to Projects and leaves the dig scope.
/// - `h` / Left / Esc focus the sidebar; `l` / Right do nothing.
/// - List keys move the selection of the Projects, Findings or Operations
///   list.
/// - Enter on Operations opens the highlighted operation when a project is
///   selected.
/// - The shared keys apply; on Operations an operation's shortcut letter
///   highlights it.
pub open spec fn main_step(a: App, k: KeyCode, b: App, r: Command) -> bool {
    if a.current_view == ViewId::Operations && a.operations_state.stub.is_some() {
        &&& r == Command::NoOp
        &&& b == if k == KeyCode::Esc || k == KeyCode::Enter {
            App { operations_state: OperationsScreenState { stub: None, ..a.operations_state }, ..a }
        } else {
            a
        }
    } else if k == KeyCode::Esc && a.current_view == ViewId::Findings {
        &&& r == Command::BackToProjects
        &&& b == App {
            current_view: ViewId::Projects,
            dig_state: DigScreenState {
                project: None,
                is_loading: false,
                progress: None,
                table_state: crate::table::TableSelection { selected: None },
                ..a.dig_state
            },
            ..a
        }
    } else if k == KeyCode::Char('h') || k == KeyCode::Left || k == KeyCode::Esc {
        r == Command::NoOp && b == App { focus: Focus::Sidebar, ..a }
    } else if k == KeyCode::Char('l') || k == KeyCode::Right {
        r == Command::NoOp && b == a
    } else if is_list_key(k) && is_list_view(a.current_view) {
        r == Command::NoOp && b == list_moved(a, k)
    } else if k == KeyCode::Enter && a.current_view == ViewId::Operations {
        &&& b == a
        &&& r == if selected_project_index(a.sniff_state).is_some() {
            Command::OpenOperation
        } else {
            Command::NoOp
        }
    } else if is_shared_nav_key(k) {
        b == with_nav(a, shared_nav(nav_of(a), k).0) && r == shared_nav(nav_of(a), k).1
    } else {
        &&& r == Command::NoOp
        &&& b == match k {
            KeyCode::Char(c) => if a.current_view == ViewId::Operations && op_from_key(
                c,
            ).is_some() {
                App {
                    operations_state: OperationsScreenState {
                        selected: op_from_key(c).unwrap(),
                        ..a.operations_state
                    },
                    ..a
                }
            } else {
                a
            },
            _ => a,
        }
    }
}

/// Whether the current view's content takes key `k` (whatever the focus).
pub open spec fn content_claims(a: App, k: KeyCode) -> bool {
    if a.current_view == ViewId::Projects {
        k == KeyCode::Char('r') || k == KeyCode::Char('o') || k == KeyCode::Char('R') || k
            == KeyCode::Char('v') || (k == KeyCode::Enter && a.focus == Focus::Main)
    } else if a.current_view == ViewId::Findings {
        k == KeyCode::Char('r') || k == KeyCode::Char('c') || k == KeyCode::Char('f') || k
            == KeyCode::Char('v')
    } else {
        false
    }
}

/// `a` with the reveal modal opened on the selected finding, when that
/// finding carries a content reference; `a` itself otherwise.
pub open spec fn reveal_opened(a: App) -> App {
    match selected_finding_index(a.dig_state) {
        Some(i) => match a.dig_state.findings@[i].content_ref {
            Some(reference) => App {
                reveal: Some(
                    RevealModal {
                        path: a.dig_state.findings@[i].path,
                        reference,
                        phase: RevealPhase::Confirm,
                    },
                ),
                ..a
            },
            None => a,
        },
        None => a,
    }
}

/// A key claimed by the view content took `a` to `b`, returning `r`.
/// Projects: `r` refresh, `o` change root, `R` raid the selected project,
/// Enter (main focused) dig it, `v` cycle the rendering mode. Findings:
/// `r` re-dig, `c` toggle content scanning, `f` cycle the risk filter, `v`
/// open the reveal modal on the selected finding.
pub open spec fn content_step(a: App, k: KeyCode, b: App, r: Command) -> bool {
    if a.current_view == ViewId::Projects {
        if k == KeyCode::Char('v') {
            &&& r == Command::NoOp
            &&& b == App {
                sniff_state: SniffScreenState { mode: next_mode(a.sniff_state.mode), ..a.sniff_state },
                ..a
            }
        } else {
            &&& b == a
            &&& r == if k == KeyCode::Char('r') {
                Command::SniffRefresh
            } else if k == KeyCode::Char('o') {
                Command::ChangeScanRoot
            } else if selected_project_index(a.sniff_state).is_none() {
                Command::NoOp
            } else if k == KeyCode::Char('R') {
                Command::RaidPreview
            } else {
                Command::Dig
            }
        }
    } else if k == KeyCode::Char('f') {
        &&& r == Command::NoOp
        &&& refiltered(
            DigScreenState { min_risk: next_filter(a.dig_state.min_risk), ..a.dig_state },
            b.dig_state,
        )
        &&& b == App { dig_state: b.dig_state, ..a }
    } else if k == KeyCode::Char('v') {
        r == Command::NoOp && b == reveal_opened(a)
    } else {
        &&& b == a
        &&& r == if k == KeyCode::Char('r') {
            Command::DigRefresh
        } else {
            Command::ToggleContentScan
        }
    }
}

/// The help overlay takes every key; `?` and Esc close it.
pub open spec fn help_step(a: App, k: KeyCode, b: App, r: Command) -> bool {
    &&& r == Command::NoOp
    &&& b == if k == KeyCode::Esc || k == KeyCode::Char('?') {
        App { help_visible: false, ..a }
    } else {
        a
    }
}

/// What the reveal modal `m` of `a` does with key `k`: confirming
/// dispatches the reveal (the modal then waits), closing drops the modal
/// and with it any revealed value.
pub open spec fn reveal_routing(a: App, m: RevealModal, k: KeyCode, b: App, r: Command) -> bool {
    let c = reveal_command(m.phase, k);
    if c is Confirm {
        r == Command::Reveal && b == App {
            reveal: Some(RevealModal { phase: RevealPhase::Revealing, ..m }),
            ..a
        }
    } else if c is Close {
        r == Command::NoOp && b == App { reveal: None, ..a }
    } else {
        r == Command::NoOp && b == App { reveal: Some(m), ..a }
    }
}

/// How the app takes the raid flow's answer: the flow became `g` and
/// returned `rc`. A confirmed passphrase is stored on the flow (never put in
/// the command); closing drops the flow.
pub open spec fn raid_outcome(a: App, g: RaidFlow, rc: Option<RaidCommand>, b: App, r: Command) -> bool {
    match rc {
        None => r == Command::NoOp && b == App { raid_flow: Some(g), ..a },
        Some(RaidCommand::PreviewConfirm) => r == Command::RaidRun && b == App {
            raid_flow: Some(g),
            ..a
        },
        Some(RaidCommand::Run) => r == Command::RaidRun && b == App { raid_flow: Some(g), ..a },
        Some(RaidCommand::PreviewCancel) => r == Command::RaidCancel && b == App {
            raid_flow: Some(g),
            ..a
        },
        Some(RaidCommand::PassphraseCancel) => r == Command::RaidCancel && b == App {
            raid_flow: Some(g),
            ..a
        },
        Some(RaidCommand::PassphraseConfirm(p)) => r == Command::RaidRun && b == App {
            raid_flow: Some(RaidFlow { confirmed_passphrase: Some(p), ..g }),
            ..a
        },
        Some(RaidCommand::Close) => r == Command::NoOp && b == App { raid_flow: None, ..a },
    }
}

/// How the app takes the pack flow's answer: the flow became `g` and
/// returned `pc`. Cancel and close drop the flow.
pub open spec fn pack_outcome(a: App, g: PackFlow, pc: Option<PackCommand>, b: App, r: Command) -> bool {
    match pc {
        None => r == Command::NoOp && b == App { pack_flow: Some(g), ..a },
        Some(PackCommand::PreviewConfirm) => r == Command::PackRun && b == App {
            pack_flow: Some(g),
            ..a
        },
        Some(PackCommand::Run) => r == Command::PackRun && b == App { pack_flow: Some(g), ..a },
        Some(PackCommand::PreviewCancel) => r == Command::NoOp && b == App { pack_flow: None, ..a },
        Some(PackCommand::Close) => r == Command::NoOp && b == App { pack_flow: None, ..a },
    }
}

/// Whether a modal (reveal, raid flow or pack flow) is open.
pub open spec fn modal_open(a: App) -> bool {
    a.reveal.is_some() || a.raid_flow.is_some() || a.pack_flow.is_some()
}

/// An open modal takes the key (reveal first, then the raid flow, then the
/// pack flow); whatever it does not use is swallowed.
pub open spec fn modal_step(a: App, k: KeyCode, b: App, r: Command) -> bool {
    match a.reveal {
        Some(m) => reveal_routing(a, m, k, b, r),
        None => match a.raid_flow {
            Some(f) => exists|g: RaidFlow, rc: Option<RaidCommand>|
                raid_key_step(f, k, g, rc) && raid_outcome(a, g, rc, b, r),
            None => match a.pack_flow {
                Some(f) => exists|g: PackFlow, pc: Option<PackCommand>|
                    pack_key_step(f, k, g, pc) && pack_outcome(a, g, pc, b, r),
                None => false,
            },
        },
    }
}

/// What a key press does to the app: an open modal takes it (and the help
/// overlay is closed under it); else the help overlay, when shown; else
/// the view content, when it claims the key; else the focused region.
pub open spec fn key_step(a: App, k: KeyCode, b: App, r: Command) -> bool {
    if modal_open(a) {
        modal_step(App { help_visible: false, ..a }, k, b, r)
    } else if a.help_visible {
        help_step(a, k, b, r)
    } else if content_claims(a, k) {
        content_step(a, k, b, r)
    } else if a.focus == Focus::Sidebar {
        b == with_nav(a, sidebar_nav(nav_of(a), k).0) && r == sidebar_nav(nav_of(a), k).1
    } else {
        main_step(a, k, b, r)
    }
}

/// While a modal is open it takes every key: the help overlay is closed,
/// and neither the view, the focus, the running flag nor any screen state
/// changes; the key can only dispatch the modal's own commands (never
/// quit).
pub proof fn lemma_modal_swallows_keys(a: App, k: KeyCode, b: App, r: Command)
    requires
        modal_open(a),
        key_step(a, k, b, r),
    ensures
        !b.help_visible,
        b.current_view == a.current_view,
        b.focus == a.focus,
        b.running == a.running,
        b.sniff_state == a.sniff_state,
        b.dig_state == a.dig_state,
        b.operations_state == a.operations_state,
        b.activity == a.activity,
        r == Command::NoOp || r == Command::Reveal || r == Command::RaidRun || r
            == Command::RaidCancel || r == Command::PackRun,
{
    let a2 = App { help_visible: false, ..a };
    if a.reveal.is_none() && a.raid_flow.is_some() {
        let f = a.raid_flow.unwrap();
        let (g, rc) = choose|g: RaidFlow, rc: Option<RaidCommand>|
            raid_key_step(f, k, g, rc) && raid_outcome(a2, g, rc, b, r);
        assert(raid_outcome(a2, g, rc, b, r));
    } else if a.reveal.is_none() && a.pack_flow.is_some() {
        let f = a.pack_flow.unwrap();
        let (g, pc) = choose|g: PackFlow, pc: Option<PackCommand>|
            pack_key_step(f, k, g, pc) && pack_outcome(a2, g, pc, b, r);
        assert(pack_outcome(a2, g, pc, b, r));
    }
}

/// While the help overlay is shown (and no modal is open) every key is
/// swallowed: only `?` and Esc close the overlay, and nothing else
/// changes — in particular `q` does not quit.
pub proof fn lemma_help_blocks_keys(a: App, k: KeyCode, b: App, r: Command)
    requires
        !modal_open(a),
        a.help_visible,
        key_step(a, k, b, r),
    ensures
        r == Command::NoOp,
        b.help_visible == !(k == KeyCode::Esc || k == KeyCode::Char('?')),
        b == (App { help_visible: b.help_visible, ..a }),
{
}

/// The app stops only by `q` on a focused region: a key that returns
/// `Quit` came with no modal and no help overlay open, and it clears the
/// running flag; no other key clears it.
pub proof fn lemma_quit_is_explicit(a: App, k: KeyCode, b: App, r: Command)
    requires
        a.running,
        key_step(a, k, b, r),
    ensures
        r == Command::Quit <==> !b.running,
        r == Command::Quit ==> k == KeyCode::Char('q') && !modal_open(a) && !a.help_visible,
{
    if modal_open(a) {
        lemma_modal_swallows_keys(a, k, b, r);
    }
}

/// A revealed value leaves with the modal: whatever key is pressed while
/// the value is shown, the modal (and the value in it) is dropped and
/// nothing else changes but the help overlay.
pub proof fn lemma_revealed_value_is_shown_once(a: App, m: RevealModal, k: KeyCode, b: App, r: Command)
    requires
        a.reveal == Some(m),
        (m.phase is Ready),
        key_step(a, k, b, r),
    ensures
        b.reveal.is_none(),
        b == (App { reveal: None, help_visible: false, ..a }),
        r == Command::NoOp,
{
}

/// Enter on the Operations list (main area focused, no modal, no help, no
/// notice open) opens the highlighted operation exactly when a row is
/// selected on the Projects screen, and does nothing otherwise; it never
/// changes the app state itself.
pub proof fn lemma_enter_opens_operation(a: App, b: App, r: Command)
    requires
        !modal_open(a),
        !a.help_visible,
        a.current_view == ViewId::Operations,
        a.focus == Focus::Main,
        a.operations_state.stub.is_none(),
        key_step(a, KeyCode::Enter, b, r),
    ensures
        b == a,
        r == Command::OpenOperation || r == Command::NoOp,
        r == Command::OpenOperation <==> (a.sniff_state.table_state.selected matches Some(i) && i
            < a.sniff_state.projects@.len()),
{
}

impl Default for App {
    fn default() -> (app: App)
        ensures
            app.current_view == ViewId::Overview,
            app.focus == Focus::Sidebar,
            !app.help_visible,
            app.running,
            app.sniff_state.projects@.len() == 0,
            app.sniff_state.table_state.selected.is_none(),
            app.sniff_state.mode == ProjectsMode::Cards,
            !app.sniff_state.is_loading,
            app.dig_state.project.is_none(),
            app.dig_state.findings@.len() == 0,
            app.dig_state.all_findings@.len() == 0,
            app.dig_state.min_risk == RiskFilter::ShowAll,
            !app.dig_state.scan_content,
            app.dig_state.last_run.is_none(),
            app.operations_state.selected == OperationKind::Pack,
            app.operations_state.project.is_none(),
            app.operations_state.stub.is_none(),
            app.den_dir@.len() == 0,
            !app.refresh_on_start,
            app.raid_flow.is_none(),
            app.pack_flow.is_none(),
            app.reveal.is_none(),
            app.activity@.entries.len() == 0,
            app.activity@.trimmed == 0,
    {
        App::new()
    }
}

impl App {
    /// The initial state: Overview, sidebar focused (so `j`/`k` and the
    /// arrows work at once), no modal, nothing scanned.
    pub fn new() -> (app: App)
        ensures
            app.current_view == ViewId::Overview,
            app.focus == Focus::Sidebar,
            !app.help_visible,
            app.running,
            app.sniff_state.projects@.len() == 0,
            app.sniff_state.table_state.selected.is_none(),
            app.sniff_state.mode == ProjectsMode::Cards,
            !app.sniff_state.is_loading,
            app.dig_state.project.is_none(),
            app.dig_state.findings@.len() == 0,
            app.dig_state.all_findings@.len() == 0,
            app.dig_state.min_risk == RiskFilter::ShowAll,
            !app.dig_state.scan_content,
            app.dig_state.last_run.is_none(),
            app.operations_state.selected == OperationKind::Pack,
            app.operations_state.project.is_none(),
            app.operations_state.stub.is_none(),
            app.den_dir@.len() == 0,
            !app.refresh_on_start,
            app.raid_flow.is_none(),
            app.pack_flow.is_none(),
            app.reveal.is_none(),
            app.activity@.entries.len() == 0,
            app.activity@.trimmed == 0,
    {
        App {
            current_view: ViewId::Overview,
            focus: Focus::Sidebar,
            help_visible: false,
            running: true,
            sniff_state: SniffScreenState::default(),
            dig_state: DigScreenState::default(),
            operations_state: OperationsScreenState::default(),
            den_dir: String::new(),
            refresh_on_start: false,
            raid_flow: None,
            pack_flow: None,
            reveal: None,
            activity: ActivityLog::default(),
        }
    }

    /// Process a key press and return the resulting command.
    pub fn handle_key(&mut self, key: KeyEvent) -> (r: Command)
        ensures
            key_step(*old(self), key.code, *final(self), r),
    {
        // A modal takes precedence over the help overlay: while one is open
        // help cannot show on top of it.
        if self.reveal.is_some() || self.raid_flow.is_some() || self.pack_flow.is_some() {
            self.help_visible = false;
        }
        if self.help_visible {
            return self.handle_key_help(key);
        }
        match self.handle_key_reveal(key) {
            Some(cmd) => return cmd,
            None => {},
        }
        match self.handle_key_raid_flow(key) {
            Some(cmd) => return cmd,
            None => {},
        }
        match self.handle_key_pack_flow(key) {
            Some(cmd) => return cmd,
            None => {},
        }
        match self.handle_key_content(key) {
            Some(cmd) => return cmd,
            None => {},
        }
        match self.focus {
            Focus::Sidebar => self.handle_key_sidebar(key),
            Focus::Main => self.handle_key_main(key),
        }
    }

    /// Keys while the reveal modal is open; `None` when it is not.
    fn handle_key_reveal(&mut self, key: KeyEvent) -> (r: Option<Command>)
        ensures
            old(self).reveal.is_none() ==> r.is_none() && *final(self) == *old(self),
            old(self).reveal matches Some(m) ==> (r matches Some(c) && reveal_routing(
                *old(self),
                m,
                key.code,
                *final(self),
                c,
            )),
    {
        let c = match &mut self.reveal {
            Some(modal) => modal.handle_key(key.code),
            None => return None,
        };
        match c {
            RevealCommand::Confirm => Some(Command::Reveal),
            RevealCommand::Close => {
                // Dropping the modal wipes any revealed value.
                self.reveal = None;
                Some(Command::NoOp)
            },
            RevealCommand::NoOp => Some(Command::NoOp),
        }
    }

    /// Keys while the raid flow is open: whatever the flow does not use is
    /// swallowed. `None` when no flow is open.
    fn handle_key_raid_flow(&mut self, key: KeyEvent) -> (r: Option<Command>)
        ensures
            old(self).raid_flow.is_none() ==> r.is_none() && *final(self) == *old(self),
            old(self).raid_flow matches Some(f) ==> (r matches Some(c) && exists|
                g: RaidFlow,
                rc: Option<RaidCommand>,
            |
                raid_key_step(f, key.code, g, rc) && raid_outcome(
                    *old(self),
                    g,
                    rc,
                    *final(self),
                    c,
                )),
    {
        let ghost a = *self;
        let rc = match &mut self.raid_flow {
            Some(flow) => flow.handle_key(key.code),
            None => return None,
        };
        let ghost g = self.raid_flow.unwrap();
        let ghost rc_g = rc;
        assert(*self == App { raid_flow: Some(g), ..a });
        let cmd = match rc {
            None => Command::NoOp,
            Some(RaidCommand::PreviewConfirm) => Command::RaidRun,
            Some(RaidCommand::Run) => Command::RaidRun,
            Some(RaidCommand::PreviewCancel) => Command::RaidCancel,
            Some(RaidCommand::PassphraseCancel) => Command::RaidCancel,
            Some(RaidCommand::PassphraseConfirm(passphrase)) => {
                match &mut self.raid_flow {
                    Some(flow) => flow.store_confirmed(passphrase),
                    None => {},
                }
                Command::RaidRun
            },
            Some(RaidCommand::Close) => {
                self.raid_flow = None;
                Command::NoOp
            },
        };
        assert(raid_outcome(a, g, rc_g, *self, cmd));
        Some(cmd)
    }

    /// Keys while the pack flow is open: whatever the flow does not use is
    /// swallowed. `None` when no flow is open.
    fn handle_key_pack_flow(&mut self, key: KeyEvent) -> (r: Option<Command>)
        ensures
            old(self).pack_flow.is_none() ==> r.is_none() && *final(self) == *old(self),
            old(self).pack_flow matches Some(f) ==> (r matches Some(c) && exists|
                g: PackFlow,
                pc: Option<PackCommand>,
            |
                pack_key_step(f, key.code, g, pc) && pack_outcome(
                    *old(self),
                    g,
                    pc,
                    *final(self),
                    c,
                )),
    {
        let ghost a = *self;
        let pc = match &mut self.pack_flow {
            Some(flow) => flow.handle_key(key.code),
            None => return None,
        };
        let ghost g = self.pack_flow.unwrap();
        assert(*self == App { pack_flow: Some(g), ..a });
        let cmd = match pc {
            None => Command::NoOp,
            Some(PackCommand::PreviewConfirm) => Command::PackRun,
            Some(PackCommand::Run) => Command::PackRun,
            Some(PackCommand::PreviewCancel) => {
                self.pack_flow = None;
                Command::NoOp
            },
            Some(PackCommand::Close) => {
                self.pack_flow = None;
                Command::NoOp
            },
        };
        assert(pack_outcome(a, g, pc, *self, cmd));
        Some(cmd)
    }

    /// Keys while the help overlay is shown: only `?` and Esc close it.
    fn handle_key_help(&mut self, key: KeyEvent) -> (r: Command)
        ensures
            help_step(*old(self), key.code, *final(self), r),
    {
        match key.code {
            KeyCode::Esc | KeyCode::Char('?') => {
                self.help_visible = false;
                Command::NoOp
            },
            _ => Command::NoOp,
        }
    }

    /// View-scoped content actions that work whatever the focus; `None`
    /// when the current view does not claim the key.
    fn handle_key_content(&mut self, key: KeyEvent) -> (r: Option<Command>)
        ensures
            r.is_some() == content_claims(*old(self), key.code),
            r matches Some(c) ==> content_step(*old(self), key.code, *final(self), c),
            r.is_none() ==> *final(self) == *old(self),
    {
        let k = key.code;
        if self.current_view == ViewId::Projects {
            if k == KeyCode::Char('r') {
                Some(Command::SniffRefresh)
            } else if k == KeyCode::Char('o') {
                Some(Command::ChangeScanRoot)
            } else if k == KeyCode::Char('R') {
                // Uppercase `R` opens the raid flow for the selected row.
                if self.sniff_state.selected_project().is_some() {
                    Some(Command::RaidPreview)
                } else {
                    Some(Command::NoOp)
                }
            } else if k == KeyCode::Enter && self.focus == Focus::Main {
                // Enter digs the project selected in the table; with the
                // sidebar focused it still only moves the focus.
                if self.sniff_state.selected_project().is_some() {
                    Some(Command::Dig)
                } else {
                    Some(Command::NoOp)
                }
            } else if k == KeyCode::Char('v') {
                // `v` cycles the rendering mode: Cards → Table → Tree.
                self.sniff_state.mode = self.sniff_state.mode.next();
                Some(Command::NoOp)
            } else {
                None
            }
        } else if self.current_view == ViewId::Findings {
            if k == KeyCode::Char('r') {
                Some(Command::DigRefresh)
            } else if k == KeyCode::Char('c') {
                Some(Command::ToggleContentScan)
            } else if k == KeyCode::Char('f') {
                // Purely local: no worker round trip.
                self.dig_state.cycle_min_risk();
                Some(Command::NoOp)
            } else if k == KeyCode::Char('v') {
                // Open the confirm step of an opt-in reveal, only for a row
                // that carries a safe content reference.
                self.open_reveal();
                Some(Command::NoOp)
            } else {
                None
            }
        } else {
            None
        }
    }

    /// Open the reveal modal on the selected finding, if it has a content
    /// reference.
    fn open_reveal(&mut self)
        ensures
            *final(self) == reveal_opened(*old(self)),
    {
        let modal = match self.dig_state.selected_finding() {
            Some(row) => match &row.content_ref {
                Some(reference) => Some(RevealModal::new(row.path.clone(), reference.clone())),
                None => None,
            },
            None => None,
        };
        match modal {
            Some(m) => self.reveal = Some(m),
            None => {},
        }
    }

    /// Keys while the sidebar owns list and arrow navigation.
    fn handle_key_sidebar(&mut self, key: KeyEvent) -> (r: Command)
        ensures
            *final(self) == with_nav(*old(self), sidebar_nav(nav_of(*old(self)), key.code).0),
            r == sidebar_nav(nav_of(*old(self)), key.code).1,
    {
        let k = key.code;
        if k == KeyCode::Char('j') || k == KeyCode::Down {
            self.current_view = self.current_view.next();
            Command::NoOp
        } else if k == KeyCode::Char('k') || k == KeyCode::Up {
            self.current_view = self.current_view.prev();
            Command::NoOp
        } else if k == KeyCode::Char('l') || k == KeyCode::Right || k == KeyCode::Enter {
            self.focus = Focus::Main;
            Command::NoOp
        } else {
            self.handle_shared_nav(key)
        }
    }

    /// Tab / Shift+Tab, `1`–`4`, `q` and `?`.
    fn handle_shared_nav(&mut self, key: KeyEvent) -> (r: Command)
        ensures
            *final(self) == with_nav(*old(self), shared_nav(nav_of(*old(self)), key.code).0),
            r == shared_nav(nav_of(*old(self)), key.code).1,
    {
        match key.code {
            KeyCode::Tab => {
                self.current_view = self.current_view.next();
                Command::NoOp
            },
            KeyCode::BackTab => {
                self.current_view = self.current_view.prev();
                Command::NoOp
            },
            KeyCode::Char('1') => {
                self.current_view = ViewId::Overview;
                Command::NoOp
            },
            KeyCode::Char('2') => {
                self.current_view = ViewId::Projects;
                Command::NoOp
            },
            KeyCode::Char('3') => {
                self.current_view = ViewId::Findings;
                Command::NoOp
            },
            KeyCode::Char('4') => {
                self.current_view = ViewId::Operations;
                Command::NoOp
            },
            KeyCode::Char('q') => {
                self.running = false;
                Command::Quit
            },
            KeyCode::Char('?') => {
                self.help_visible = true;
                Command::NoOp
            },
            _ => Command::NoOp,
        }
    }

    /// Move the selection of the current view's list.
    fn move_list(&mut self, key: KeyEvent)
        requires
            is_list_key(key.code),
            is_list_view(old(self).current_view),
        ensures
            *final(self) == list_moved(*old(self), key.code),
    {
        let k = key.code;
        let down = k == KeyCode::Char('j') || k == KeyCode::Down;
        let up = k == KeyCode::Char('k') || k == KeyCode::Up;
        if self.current_view == ViewId::Projects {
            if down {
                self.sniff_state.select_next();
            } else if up {
                self.sniff_state.select_previous();
            } else if k == KeyCode::Char('g') {
                self.sniff_state.select_first();
            } else {
                self.sniff_state.select_last();
            }
        } else if self.current_view == ViewId::Findings {
            if down {
                self.dig_state.select_next();
            } else if up {
                self.dig_state.select_previous();
            } else if k == KeyCode::Char('g') {
                self.dig_state.select_first();
            } else {
                self.dig_state.select_last();
            }
        } else {
            if down {
                self.operations_state.select_next();
            } else if up {
                self.operations_state.select_previous();
            } else if k == KeyCode::Char('g') {
                self.operations_state.select_first();
            } else {
                self.operations_state.select_last();
            }
        }
    }

    /// Keys while the main area owns list and arrow navigation.
    fn handle_key_main(&mut self, key: KeyEvent) -> (r: Command)
        ensures
            main_step(*old(self), key.code, *final(self), r),
    {
        let k = key.code;
        // A stub notice blocks the Operations screen until dismissed, as the
        // modals own their keys: Esc / Enter dismiss, all else is swallowed.
        if self.current_view == ViewId::Operations && self.operations_state.stub.is_some() {
            if k == KeyCode::Esc || k == KeyCode::Enter {
                self.operations_state.stub = None;
            }
            return Command::NoOp;
        }
        if k == KeyCode::Esc && self.current_view == ViewId::Findings {
            // Esc on Findings returns to the project list; the dig scope
            // closes.
            self.current_view = ViewId::Projects;
            self.dig_state.leave();
            Command::BackToProjects
        } else if k == KeyCode::Char('h') || k == KeyCode::Left || k == KeyCode::Esc {
            self.focus = Focus::Sidebar;
            Command::NoOp
        } else if k == KeyCode::Char('l') || k == KeyCode::Right {
            Command::NoOp
        } else if (k == KeyCode::Char('j') || k == KeyCode::Down || k == KeyCode::Char('k') || k
            == KeyCode::Up || k == KeyCode::Char('g') || k == KeyCode::Char('G')) && (
        self.current_view == ViewId::Projects || self.current_view == ViewId::Findings
            || self.current_view == ViewId::Operations) {
            self.move_list(key);
            Command::NoOp
        } else if k == KeyCode::Enter && self.current_view == ViewId::Operations {
            // Activate the highlighted operation; it needs a project
            // selected on the Projects screen.
            if self.sniff_state.selected_project().is_some() {
                Command::OpenOperation
            } else {
                Command::NoOp
            }
        } else if k == KeyCode::Tab || k == KeyCode::BackTab || k == KeyCode::Char('1') || k
            == KeyCode::Char('2') || k == KeyCode::Char('3') || k == KeyCode::Char('4') || k
            == KeyCode::Char('q') || k == KeyCode::Char('?') {
            self.handle_shared_nav(key)
        } else {
            // An operation's shortcut letter highlights it; quit and help
            // were handled above, so no shortcut shadows them.
            match k {
                KeyCode::Char(c) => {
                    if self.current_view == ViewId::Operations {
                        match OperationKind::from_key(c) {
                            Some(kind) => self.operations_state.selected = kind,
                            None => {},
                        }
                    }
                },
                _ => {},
            }
            Command::NoOp
        }
    }
}

} // verus!
