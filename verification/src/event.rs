//! The decisions of the event loop: what a command does to the app and
//! which message it sends to the worker, and what a worker event does to
//! the app. The loop itself (terminal, channels, threads, clock,
//! environment) runs outside the library and hands in plain values.

use vstd::prelude::*;
use vstd::string::StrSliceExecFns;
use crate::activity::{ActivityKind, ActivityLogView, log_pushed, progress_logged};
use crate::activity_feed::{
    dig_complete_line, dig_failed_line, dig_started_line, push_dig_complete, push_dig_failed,
    push_dig_started, push_raid_done, push_scan_complete, push_scan_failed, push_sniff_started,
    raid_done_line, scan_complete_line, scope_label,
};
use crate::app::App;
use crate::dig::{DigScreenState, dig_result_applied, with_dig_selection};
use crate::domain::{
    CoreOperation, DigResult, ProgressEvent, ProjectInfo, RaidResult, SniffResult, Timestamp,
};
use crate::nav::Command;
use crate::operations::{OperationKind, OperationsScreenState};
use crate::pack::{PackFlow, PackFlowPhase, name_view};
use crate::passphrase::fresh_entry;
use crate::raid::{FlowPhase, RaidFlow, RaidFlowOptions, raid_progressed};
use crate::reveal_modal::{RevealModal, RevealPhase};
use crate::secret::secret_chars;
use crate::sniff::{SniffScreenState, info_row, project_rows, selected_project_index};
use crate::table::{TableSelection, select_top};
use crate::worker::{
    DRY_RUN_PASSPHRASE, PackWorkerOpts, RaidWorkerOpts, WorkerEvent, WorkerMsg, WorkerPassphrase,
    WorkerRevealSecret,
};

verus! {

/// The passphrase a raid run is made with, in resolution order: the one
/// confirmed in the modal; the placeholder when the stash phase is skipped;
/// a non-empty `RACCPACK_PASSPHRASE`; otherwise none yet (the modal asks).
pub open spec fn resolved_passphrase(f: RaidFlow, env: Option<String>) -> Option<Seq<char>> {
    match f.confirmed_passphrase {
        Some(p) => Some(secret_chars(p)),
        None => if f.options.skip_stash {
            Some(DRY_RUN_PASSPHRASE@)
        } else {
            match env {
                Some(e) => if e@.len() > 0 {
                    Some(e@)
                } else {
                    None
                },
                None => None,
            }
        },
    }
}

/// A dig of `project` was started on `a`, giving `b` and message `msg`:
/// the activity records it, the dig screen is loading (error cleared) and
/// scoped to the project.
pub open spec fn dig_started(a: App, project: String, b: App, msg: Option<WorkerMsg>) -> bool {
    &&& b.activity@ == log_pushed(a.activity@, ActivityKind::Info, dig_started_line(project@))
    &&& b == App {
        activity: b.activity,
        dig_state: DigScreenState {
            is_loading: true,
            error: None,
            project: Some(project),
            ..a.dig_state
        },
        ..a
    }
    &&& msg == Some(
        WorkerMsg::Dig { project, den_dir: a.den_dir, scan_content: a.dig_state.scan_content },
    )
}

/// A raid flow with default options just opened for `project`.
pub open spec fn fresh_raid_flow(f: RaidFlow, project: String, den_dir: String) -> bool {
    &&& f.project == project
    &&& f.den_dir == den_dir
    &&& f.options == RaidFlowOptions {
        keep_sources: false,
        skip_stash: false,
        mode: crate::domain::OrchestrationMode::Atomic,
    }
    &&& f.phase is Preparing
    &&& f.pipeline@.len() == 0
    &&& f.percent == 0
    &&& f.overall_percent == 0
    &&& f.message@.len() == 0
    &&& f.confirmed_passphrase.is_none()
}

/// The raid flow for `project` was opened on `a`, giving `b`, and its
/// dry-run preview requested with `msg`; the help overlay is closed.
pub open spec fn raid_preview_started(a: App, project: String, b: App, msg: Option<WorkerMsg>) -> bool {
    &&& b.raid_flow matches Some(f) && fresh_raid_flow(f, project, a.den_dir)
    &&& b == App { raid_flow: b.raid_flow, help_visible: false, ..a }
    &&& msg == Some(
        WorkerMsg::RaidPreview {
            project,
            den_dir: a.den_dir,
            opts: RaidWorkerOpts {
                keep_sources: false,
                skip_stash: false,
                mode: crate::domain::OrchestrationMode::Atomic,
            },
        },
    )
}

/// `RaidRun` on `a` gave `b` and `msg`. With no flow nothing happens.
/// When a passphrase resolves, the run is sent with it and the flow runs
/// (the stored passphrase is used up); otherwise the flow asks for one.
pub open spec fn raid_run_step(a: App, env: Option<String>, b: App, msg: Option<WorkerMsg>) -> bool {
    match a.raid_flow {
        None => b == a && msg.is_none(),
        Some(f) => match resolved_passphrase(f, env) {
            Some(pw) => {
                &&& b == App {
                    raid_flow: Some(
                        RaidFlow { phase: FlowPhase::Running, confirmed_passphrase: None, ..f },
                    ),
                    ..a
                }
                &&& msg matches Some(WorkerMsg::RaidRun { project, den_dir, opts, passphrase })
                &&& project == f.project
                &&& den_dir == a.den_dir
                &&& opts == RaidWorkerOpts {
                    keep_sources: f.options.keep_sources,
                    skip_stash: f.options.skip_stash,
                    mode: f.options.mode,
                }
                &&& passphrase@ == pw
            },
            None => {
                &&& msg.is_none()
                &&& b.raid_flow matches Some(g) && g == RaidFlow { phase: g.phase, ..f } && (
                g.phase matches FlowPhase::Passphrase(input) && input@ == fresh_entry())
                &&& b == App { raid_flow: b.raid_flow, ..a }
            },
        },
    }
}

/// `PackRun` on `a` gave `b` and `msg`: with a pack flow open, the run is
/// sent with the flow's options and the flow runs; otherwise nothing.
pub open spec fn pack_run_step(a: App, b: App, msg: Option<WorkerMsg>) -> bool {
    match a.pack_flow {
        None => b == a && msg.is_none(),
        Some(f) => {
            &&& b == App { pack_flow: Some(PackFlow { phase: PackFlowPhase::Running, ..f }), ..a }
            &&& msg matches Some(WorkerMsg::PackRun { project, den_dir, opts })
            &&& project == f.project
            &&& den_dir == a.den_dir
            &&& opts.deny_content_secrets == f.options.deny_content_secrets
            &&& opts.zstd_level == f.options.zstd_level
            &&& name_view(opts.output_name) == name_view(f.options.output_name)
        },
    }
}

/// Command `cmd` on app `a` (with `env` the value of `RACCPACK_PASSPHRASE`,
/// if set) gave `b`, and `msg` is sent to the worker.
pub open spec fn command_step(
    a: App,
    cmd: Command,
    env: Option<String>,
    b: App,
    msg: Option<WorkerMsg>,
) -> bool {
    let selected = selected_project_index(a.sniff_state);
    match cmd {
        Command::Sniff | Command::SniffRefresh => {
            &&& b.activity@ == log_pushed(a.activity@, ActivityKind::Info, "sniff started"@)
            &&& b == App {
                activity: b.activity,
                sniff_state: SniffScreenState { is_loading: true, error: None, ..a.sniff_state },
                ..a
            }
            &&& msg == Some(
                WorkerMsg::Sniff {
                    scan_root: a.sniff_state.scan_root,
                    den_dir: a.den_dir,
                    force_refresh: cmd == Command::SniffRefresh,
                },
            )
        },
        Command::Dig => match selected {
            Some(i) => dig_started(a, a.sniff_state.projects@[i].path, b, msg),
            None => b == a && msg.is_none(),
        },
        Command::DigRefresh => match a.dig_state.project {
            Some(p) => dig_started(a, p, b, msg),
            None => b == a && msg.is_none(),
        },
        Command::ToggleContentScan => {
            let t = App {
                dig_state: DigScreenState { scan_content: !a.dig_state.scan_content, ..a.dig_state },
                ..a
            };
            match a.dig_state.project {
                Some(p) => dig_started(t, p, b, msg),
                None => b == t && msg.is_none(),
            }
        },
        Command::RaidPreview => match selected {
            Some(i) => raid_preview_started(a, a.sniff_state.projects@[i].path, b, msg),
            None => b == a && msg.is_none(),
        },
        Command::OpenOperation => match selected {
            Some(i) => if a.operations_state.selected == OperationKind::Raid {
                raid_preview_started(a, a.sniff_state.projects@[i].path, b, msg)
            } else {
                &&& msg.is_none()
                &&& b == App {
                    operations_state: OperationsScreenState {
                        stub: Some(a.operations_state.selected),
                        ..a.operations_state
                    },
                    ..a
                }
            },
            None => b == a && msg.is_none(),
        },
        Command::RaidRun => raid_run_step(a, env, b, msg),
        Command::RaidCancel => b == App { raid_flow: None, ..a } && msg.is_none(),
        Command::Reveal => {
            &&& b == a
            &&& msg == match a.reveal {
                Some(m) => Some(WorkerMsg::Reveal { reference: m.reference }),
                None => None,
            }
        },
        Command::PackRun => pack_run_step(a, b, msg),
        _ => b == a && msg.is_none(),
    }
}

/// Carry out command `cmd` on `app` and return the message to send to the
/// worker, if any. `env_passphrase` is the value of `RACCPACK_PASSPHRASE`,
/// when set; only `RaidRun` reads it.
pub fn handle_app_command(cmd: Command, app: &mut App, env_passphrase: Option<String>) -> (msg:
    Option<WorkerMsg>)
    requires
        old(app).activity@.trimmed < usize::MAX,
    ensures
        command_step(*old(app), cmd, env_passphrase, *final(app), msg),
{
    match cmd {
        Command::Sniff | Command::SniffRefresh => {
            push_sniff_started(&mut app.activity);
            app.sniff_state.set_loading(true);
            let scan_root = app.sniff_state.scan_root.clone();
            let den_dir = app.den_dir.clone();
            Some(
                WorkerMsg::Sniff {
                    scan_root,
                    den_dir,
                    force_refresh: match cmd {
                        Command::SniffRefresh => true,
                        _ => false,
                    },
                },
            )
        },
        Command::Dig => {
            let project = match app.sniff_state.selected_project() {
                Some(p) => p.path.clone(),
                None => return None,
            };
            Some(start_dig(project, app))
        },
        Command::DigRefresh => {
            let project = match &app.dig_state.project {
                Some(p) => p.clone(),
                None => return None,
            };
            Some(start_dig(project, app))
        },
        Command::ToggleContentScan => {
            // Flip the flag once, then re-dig with the new value when a
            // project is in scope.
            app.dig_state.scan_content = !app.dig_state.scan_content;
            match &app.dig_state.project {
                Some(p) => {
                    let project = p.clone();
                    Some(start_dig(project, app))
                },
                None => None,
            }
        },
        Command::RaidPreview => {
            let project = match app.sniff_state.selected_project() {
                Some(p) => p.path.clone(),
                None => return None,
            };
            Some(start_raid_preview(project, app))
        },
        Command::OpenOperation => {
            // Activating the highlighted operation needs a project; the raid
            // opens its flow, the others only show their stub notice.
            let project = match app.sniff_state.selected_project() {
                Some(p) => p.path.clone(),
                None => return None,
            };
            match app.operations_state.selected {
                OperationKind::Raid => Some(start_raid_preview(project, app)),
                kind => {
                    app.operations_state.open_stub(kind);
                    None
                },
            }
        },
        Command::RaidRun => send_raid_run(app, env_passphrase),
        Command::RaidCancel => {
            // A preview result that lands later finds no flow and is
            // dropped.
            app.raid_flow = None;
            None
        },
        Command::Reveal => match &app.reveal {
            Some(modal) => Some(WorkerMsg::Reveal { reference: modal.reference.clone() }),
            None => None,
        },
        Command::PackRun => send_pack_run(app),
        _ => None,
    }
}

/// Start a dig of `project`: record it, mark the screen loading and scoped,
/// and build the worker message.
fn start_dig(project: String, app: &mut App) -> (msg: WorkerMsg)
    requires
        old(app).activity@.trimmed < usize::MAX,
    ensures
        dig_started(*old(app), project, *final(app), Some(msg)),
{
    push_dig_started(&mut app.activity, project.as_str());
    app.dig_state.set_loading(true);
    app.dig_state.project = Some(project.clone());
    let den_dir = app.den_dir.clone();
    WorkerMsg::Dig { project, den_dir, scan_content: app.dig_state.scan_content }
}

/// Open the raid flow for `project` and build its dry-run preview message.
/// While the flow is open it takes every key, so no second preview can
/// start.
fn start_raid_preview(project: String, app: &mut App) -> (msg: WorkerMsg)
    ensures
        raid_preview_started(*old(app), project, *final(app), Some(msg)),
{
    let flow = RaidFlow::new(project.clone(), app.den_dir.clone(), RaidFlowOptions::default());
    let opts = RaidWorkerOpts::from(flow.options);
    app.raid_flow = Some(flow);
    app.help_visible = false;
    let den_dir = app.den_dir.clone();
    WorkerMsg::RaidPreview { project, den_dir, opts }
}

/// Build the raid commit message once the passphrase resolves (see
/// [`resolve_raid_passphrase`]); `None` when there is no flow or the flow
/// went on to ask for the passphrase.
fn send_raid_run(app: &mut App, env_passphrase: Option<String>) -> (msg: Option<WorkerMsg>)
    ensures
        raid_run_step(*old(app), env_passphrase, *final(app), msg),
{
    let den_dir = app.den_dir.clone();
    match &mut app.raid_flow {
        None => None,
        Some(flow) => {
            let passphrase = match resolve_raid_passphrase(flow, env_passphrase) {
                Some(p) => p,
                None => return None,
            };
            let project = flow.project.clone();
            let opts = RaidWorkerOpts::from(flow.options);
            flow.start_running();
            Some(WorkerMsg::RaidRun { project, den_dir, opts, passphrase })
        },
    }
}

/// Resolve the passphrase for a raid run (see [`resolved_passphrase`]);
/// when none resolves the flow moves to the passphrase entry and `None`
/// comes back.
fn resolve_raid_passphrase(flow: &mut RaidFlow, env_passphrase: Option<String>) -> (r: Option<WorkerPassphrase>)
    ensures
        r.is_some() == resolved_passphrase(*old(flow), env_passphrase).is_some(),
        r.is_some() ==> r.unwrap()@ == resolved_passphrase(*old(flow), env_passphrase).unwrap(),
        r.is_some() ==> *final(flow) == (RaidFlow { confirmed_passphrase: None, ..*old(flow) }),
        r.is_none() ==> *final(flow) == (RaidFlow { phase: final(flow).phase, ..*old(flow) }),
        r.is_none() ==> (final(flow).phase matches FlowPhase::Passphrase(input) && input@ == fresh_entry()),
{
    match flow.take_passphrase() {
        Some(p) => return Some(WorkerPassphrase::from_zeroizing(p)),
        None => {},
    }
    if flow.options.skip_stash {
        return Some(WorkerPassphrase::new(DRY_RUN_PASSPHRASE.to_string()));
    }
    match env_passphrase {
        Some(env) => {
            if env.as_str().unicode_len() > 0 {
                return Some(WorkerPassphrase::new(env));
            }
        },
        None => {},
    }
    flow.start_passphrase();
    None
}

/// Build the pack commit message from the open pack flow and start it.
fn send_pack_run(app: &mut App) -> (msg: Option<WorkerMsg>)
    ensures
        pack_run_step(*old(app), *final(app), msg),
{
    let den_dir = app.den_dir.clone();
    match &mut app.pack_flow {
        None => None,
        Some(flow) => {
            let project = flow.project.clone();
            let opts = PackWorkerOpts::from(flow.options.clone());
            flow.start_running();
            Some(WorkerMsg::PackRun { project, den_dir, opts })
        },
    }
}

/// The sniff screen once a run ended at `now`: not loading, no progress,
/// refreshed at `now`.
pub open spec fn sniff_ended(s: SniffScreenState, now: Timestamp) -> SniffScreenState {
    SniffScreenState { is_loading: false, progress: None, last_refresh: Some(now), ..s }
}

/// The dig screen once a run ended at `now`: not loading, no progress, run
/// at `now`.
pub open spec fn dig_ended(s: DigScreenState, now: Timestamp) -> DigScreenState {
    DigScreenState { is_loading: false, progress: None, last_run: Some(now), ..s }
}

/// A finished sniff took `a` to `b`. A result replaces the rows (in scan
/// order), total, root and cache flag, selects the first row when nothing
/// was selected, and records `Scan complete`; an error is kept for display
/// and recorded as `Scan failed`.
pub open spec fn sniff_done_step(
    a: App,
    result: Result<SniffResult, String>,
    now: Timestamp,
    b: App,
) -> bool {
    let s = sniff_ended(a.sniff_state, now);
    match result {
        Ok(r) => {
            &&& b.activity@ == log_pushed(
                a.activity@,
                ActivityKind::Success,
                scan_complete_line(r.projects@.len(), r.total_size_bytes as nat, r.from_cache),
            )
            &&& b.sniff_state.projects@ == r.projects@.map_values(|p: ProjectInfo| info_row(p))
            &&& b.sniff_state == SniffScreenState {
                projects: b.sniff_state.projects,
                from_cache: r.from_cache,
                total_size: r.total_size_bytes,
                scan_root: r.root,
                table_state: TableSelection {
                    selected: if s.table_state.selected.is_none() && r.projects@.len() > 0 {
                        Some(0)
                    } else {
                        s.table_state.selected
                    },
                },
                ..s
            }
            &&& b == App { activity: b.activity, sniff_state: b.sniff_state, ..a }
        },
        Err(e) => {
            &&& b.activity@ == log_pushed(a.activity@, ActivityKind::Error, "Scan failed"@)
            &&& b == App {
                activity: b.activity,
                sniff_state: SniffScreenState { error: Some(e), ..s },
                ..a
            }
        },
    }
}

/// A finished dig took `a` to `b`. A result is recorded (a warning when it
/// has findings), becomes the screen's sorted, filtered findings, and the
/// first visible row is selected; an error is recorded and kept for
/// display.
pub open spec fn dig_done_step(
    a: App,
    result: Result<DigResult, String>,
    now: Timestamp,
    b: App,
) -> bool {
    let d = dig_ended(a.dig_state, now);
    match result {
        Ok(r) => {
            &&& b.activity@ == log_pushed(
                a.activity@,
                if r.files@.len() > 0 {
                    ActivityKind::Warn
                } else {
                    ActivityKind::Success
                },
                dig_complete_line(scope_label(a.dig_state.project), r.files@.len()),
            )
            &&& exists|t: DigScreenState|
                dig_result_applied(d, r, t) && b.dig_state == with_dig_selection(
                    t,
                    select_top(t.table_state.selected, t.findings@.len() as int),
                )
            &&& b == App { activity: b.activity, dig_state: b.dig_state, ..a }
        },
        Err(e) => {
            &&& b.activity@ == log_pushed(
                a.activity@,
                ActivityKind::Error,
                dig_failed_line(scope_label(a.dig_state.project)),
            )
            &&& b == App { activity: b.activity, dig_state: DigScreenState { error: Some(e), ..d }, ..a }
        },
    }
}

/// Progress `p` took `a` to `b`: sniff and dig progress is recorded
/// (throttled) and shown, and marks the screen loading; raid and pack
/// progress moves the open flow only while it runs; other progress has no
/// screen.
pub open spec fn progress_step(a: App, p: ProgressEvent, b: App) -> bool {
    match p.operation {
        CoreOperation::Sniff => {
            &&& b.activity@ == progress_logged(a.activity@, p)
            &&& b == App {
                activity: b.activity,
                sniff_state: SniffScreenState {
                    progress: Some(p),
                    is_loading: true,
                    error: if a.sniff_state.is_loading {
                        a.sniff_state.error
                    } else {
                        None
                    },
                    ..a.sniff_state
                },
                ..a
            }
        },
        CoreOperation::Dig => {
            &&& b.activity@ == progress_logged(a.activity@, p)
            &&& b == App {
                activity: b.activity,
                dig_state: DigScreenState {
                    progress: Some(p),
                    is_loading: true,
                    error: if a.dig_state.is_loading {
                        a.dig_state.error
                    } else {
                        None
                    },
                    ..a.dig_state
                },
                ..a
            }
        },
        CoreOperation::Raid => match a.raid_flow {
            Some(f) => if f.phase is Running {
                &&& b.raid_flow matches Some(g) && raid_progressed(f, p, g)
                &&& b == App { raid_flow: b.raid_flow, ..a }
            } else {
                b == a
            },
            None => b == a,
        },
        CoreOperation::Pack => match a.pack_flow {
            Some(f) => if f.phase is Running {
                &&& b.pack_flow matches Some(g) && g.percent == p.percent && g.message@
                    == p.message@ && g == PackFlow { percent: g.percent, message: g.message, ..f }
                &&& b == App { pack_flow: b.pack_flow, ..a }
            } else {
                b == a
            },
            None => b == a,
        },
        _ => b == a,
    }
}

/// A finished raid run took `a` to `b`: with the flow still open, the
/// outcome is recorded and the flow shows it; otherwise it is dropped.
pub open spec fn raid_done_step(a: App, result: Result<RaidResult, String>, b: App) -> bool {
    match a.raid_flow {
        Some(f) => {
            &&& b.activity@ == log_pushed(
                a.activity@,
                if result is Ok {
                    ActivityKind::Success
                } else {
                    ActivityKind::Error
                },
                raid_done_line(f.project@, result is Ok),
            )
            &&& b == App {
                activity: b.activity,
                raid_flow: Some(
                    RaidFlow {
                        phase: match result {
                            Ok(r) => FlowPhase::Done(r),
                            Err(e) => FlowPhase::Failed(e),
                        },
                        ..f
                    },
                ),
                ..a
            }
        },
        None => b == a,
    }
}

/// A finished reveal took `a` to `b`: shown only while the modal still
/// waits for it; otherwise dropped (and wiped).
pub open spec fn reveal_done_step(a: App, result: Result<WorkerRevealSecret, String>, b: App) -> bool {
    match a.reveal {
        Some(m) => if m.phase is Revealing {
            b == App {
                reveal: Some(
                    RevealModal {
                        phase: match result {
                            Ok(secret) => RevealPhase::Ready { secret },
                            Err(message) => RevealPhase::Failed { message },
                        },
                        ..m
                    },
                ),
                ..a
            }
        } else {
            b == a
        },
        None => b == a,
    }
}

/// Worker event `event`, handled at `now`, took `a` to `b`. A result for
/// a flow or modal that was closed meanwhile is dropped.
pub open spec fn event_step(a: App, event: WorkerEvent, now: Timestamp, b: App) -> bool {
    match event {
        WorkerEvent::Progress(p) => progress_step(a, p, b),
        WorkerEvent::SniffDone(result) => sniff_done_step(a, result, now, b),
        WorkerEvent::DigDone(result) => dig_done_step(a, result, now, b),
        WorkerEvent::RaidPreviewDone(result) => match a.raid_flow {
            Some(f) => b == App {
                raid_flow: Some(
                    RaidFlow {
                        phase: match result {
                            Ok(r) => FlowPhase::Preview(r),
                            Err(e) => FlowPhase::Failed(e),
                        },
                        ..f
                    },
                ),
                ..a
            },
            None => b == a,
        },
        WorkerEvent::RaidDone(result) => raid_done_step(a, result, b),
        WorkerEvent::PackPreviewDone(result) => match a.pack_flow {
            Some(f) => b == App {
                pack_flow: Some(
                    PackFlow {
                        phase: match result {
                            Ok(r) => PackFlowPhase::Preview(r),
                            Err(e) => PackFlowPhase::Failed(e),
                        },
                        ..f
                    },
                ),
                ..a
            },
            None => b == a,
        },
        WorkerEvent::PackDone(result) => match a.pack_flow {
            Some(f) => b == App {
                pack_flow: Some(
                    PackFlow {
                        phase: match result {
                            Ok(r) => PackFlowPhase::Done(r),
                            Err(e) => PackFlowPhase::Failed(e),
                        },
                        ..f
                    },
                ),
                ..a
            },
            None => b == a,
        },
        WorkerEvent::RevealDone(result) => reveal_done_step(a, result, b),
        WorkerEvent::Cancelled => b == App {
            sniff_state: SniffScreenState { is_loading: false, progress: None, ..a.sniff_state },
            dig_state: DigScreenState { is_loading: false, progress: None, ..a.dig_state },
            ..a
        },
    }
}

/// Apply one worker event to the app; `now` is the wall-clock time it is
/// handled at.
pub fn handle_worker_event(event: WorkerEvent, app: &mut App, now: Timestamp)
    requires
        old(app).activity@.trimmed < usize::MAX,
    ensures
        event_step(*old(app), event, now, *final(app)),
{
    match event {
        WorkerEvent::Progress(progress) => handle_progress(progress, app),
        WorkerEvent::SniffDone(result) => handle_sniff_done(result, app, now),
        WorkerEvent::DigDone(result) => handle_dig_done(result, app, now),
        WorkerEvent::RaidPreviewDone(result) => match &mut app.raid_flow {
            // The flow was closed (cancelled) before the preview landed.
            None => {},
            Some(flow) => {
                flow.phase = match result {
                    Ok(preview) => FlowPhase::Preview(preview),
                    Err(e) => FlowPhase::Failed(e),
                };
            },
        },
        WorkerEvent::RaidDone(result) => handle_raid_done(result, app),
        WorkerEvent::PackPreviewDone(result) => match &mut app.pack_flow {
            None => {},
            Some(flow) => {
                flow.phase = match result {
                    Ok(preview) => PackFlowPhase::Preview(preview),
                    Err(e) => PackFlowPhase::Failed(e),
                };
            },
        },
        WorkerEvent::PackDone(result) => match &mut app.pack_flow {
            None => {},
            Some(flow) => {
                flow.phase = match result {
                    Ok(done) => PackFlowPhase::Done(done),
                    Err(e) => PackFlowPhase::Failed(e),
                };
            },
        },
        WorkerEvent::RevealDone(result) => handle_reveal_done(result, app),
        WorkerEvent::Cancelled => {
            app.sniff_state.set_loading(false);
            app.sniff_state.progress = None;
            app.dig_state.set_loading(false);
            app.dig_state.progress = None;
        },
    }
}

/// A finished sniff.
fn handle_sniff_done(result: Result<SniffResult, String>, app: &mut App, now: Timestamp)
    requires
        old(app).activity@.trimmed < usize::MAX,
    ensures
        sniff_done_step(*old(app), result, now, *final(app)),
{
    app.sniff_state.set_loading(false);
    app.sniff_state.progress = None;
    app.sniff_state.last_refresh = Some(now);
    match result {
        Ok(sniff_result) => {
            push_scan_complete(
                &mut app.activity,
                sniff_result.projects.len(),
                sniff_result.total_size_bytes,
                sniff_result.from_cache,
            );
            app.sniff_state.from_cache = sniff_result.from_cache;
            app.sniff_state.total_size = sniff_result.total_size_bytes;
            let has_projects = sniff_result.projects.len() > 0;
            app.sniff_state.projects = project_rows(sniff_result.projects);
            app.sniff_state.scan_root = sniff_result.root;
            if app.sniff_state.table_state.selected().is_none() && has_projects {
                app.sniff_state.table_state.select(Some(0));
            }
        },
        Err(e) => {
            push_scan_failed(&mut app.activity);
            app.sniff_state.error = Some(e);
        },
    }
}

/// A finished dig.
fn handle_dig_done(result: Result<DigResult, String>, app: &mut App, now: Timestamp)
    requires
        old(app).activity@.trimmed < usize::MAX,
    ensures
        dig_done_step(*old(app), result, now, *final(app)),
{
    app.dig_state.set_loading(false);
    app.dig_state.progress = None;
    app.dig_state.last_run = Some(now);
    match result {
        Ok(dig_result) => {
            let findings = dig_result.files.len();
            push_dig_complete(&mut app.activity, &app.dig_state, findings);
            app.dig_state.set_dig_result(dig_result);
            let ghost t = app.dig_state;
            // Move the selection onto the first visible row.
            app.dig_state.select_first();
            assert(dig_result_applied(dig_ended(old(app).dig_state, now), dig_result, t));
        },
        Err(e) => {
            push_dig_failed(&mut app.activity, &app.dig_state);
            app.dig_state.error = Some(e);
        },
    }
}

/// A finished raid run: recorded, and shown on the flow if still open.
fn handle_raid_done(result: Result<RaidResult, String>, app: &mut App)
    requires
        old(app).activity@.trimmed < usize::MAX,
    ensures
        raid_done_step(*old(app), result, *final(app)),
{
    match &mut app.raid_flow {
        // The flow was closed before the run finished.
        None => {},
        Some(flow) => {
            let ok = match &result {
                Ok(_) => true,
                Err(_) => false,
            };
            push_raid_done(&mut app.activity, flow.project.as_str(), ok);
            flow.phase = match result {
                Ok(done) => FlowPhase::Done(done),
                Err(e) => FlowPhase::Failed(e),
            };
        },
    }
}

/// A finished reveal: shown only while the modal still waits for it.
fn handle_reveal_done(result: Result<WorkerRevealSecret, String>, app: &mut App)
    ensures
        reveal_done_step(*old(app), result, *final(app)),
{
    match &mut app.reveal {
        // The modal was closed meanwhile: the value is dropped (wiped).
        None => {},
        Some(modal) => {
            let revealing = match &modal.phase {
                RevealPhase::Revealing => true,
                _ => false,
            };
            if revealing {
                match result {
                    Ok(secret) => modal.set_ready(secret),
                    Err(message) => modal.set_failed(message),
                }
            }
        },
    }
}

/// Progress of a core operation.
fn handle_progress(progress: ProgressEvent, app: &mut App)
    requires
        old(app).activity@.trimmed < usize::MAX,
    ensures
        progress_step(*old(app), progress, *final(app)),
{
    match progress.operation {
        CoreOperation::Sniff => {
            app.activity.push_progress(&progress);
            app.sniff_state.progress = Some(progress);
            if !app.sniff_state.is_loading {
                app.sniff_state.set_loading(true);
            }
        },
        CoreOperation::Dig => {
            app.activity.push_progress(&progress);
            app.dig_state.progress = Some(progress);
            if !app.dig_state.is_loading {
                app.dig_state.set_loading(true);
            }
        },
        CoreOperation::Raid => match &mut app.raid_flow {
            Some(flow) => {
                let running = match &flow.phase {
                    FlowPhase::Running => true,
                    _ => false,
                };
                if running {
                    flow.on_progress(&progress);
                }
            },
            None => {},
        },
        CoreOperation::Pack => match &mut app.pack_flow {
            Some(flow) => {
                let running = match &flow.phase {
                    PackFlowPhase::Running => true,
                    _ => false,
                };
                if running {
                    flow.on_progress(progress.percent, progress.message.as_str());
                }
            },
            None => {},
        },
        // Stash and rinse progress has no screen yet.
        _ => {},
    }
}

/// A raid run is sent only for an open flow, and it carries that flow's
/// project, the app's den and the options the user chose on the flow
/// (keep-sources, skip-stash and the mode, each as toggled); the flow then
/// runs.
pub proof fn lemma_raid_run_carries_flow_options(
    a: App,
    env: Option<String>,
    b: App,
    msg: Option<WorkerMsg>,
)
    requires
        command_step(a, Command::RaidRun, env, b, msg),
        msg is Some,
    ensures
        a.raid_flow is Some,
        msg matches Some(WorkerMsg::RaidRun { project, den_dir, opts, passphrase }) && project
            == a.raid_flow.unwrap().project && den_dir == a.den_dir && opts.keep_sources
            == a.raid_flow.unwrap().options.keep_sources && opts.skip_stash
            == a.raid_flow.unwrap().options.skip_stash && opts.mode
            == a.raid_flow.unwrap().options.mode,
        b.raid_flow matches Some(g) && g.phase is Running && g.options == a.raid_flow.unwrap().options,
{
}

/// A successful scan's result is what the Projects screen then shows: one
/// row per scanned project, in scan order and with its name, path, size and
/// git flag, the scan's total size, root and cache flag; loading has ended
/// and the refresh time is the time the result was handled.
pub proof fn lemma_sniff_result_shown(a: App, r: SniffResult, now: Timestamp, b: App)
    requires
        event_step(a, WorkerEvent::SniffDone(Ok(r)), now, b),
    ensures
        b.sniff_state.total_size == r.total_size_bytes,
        b.sniff_state.scan_root == r.root,
        b.sniff_state.from_cache == r.from_cache,
        b.sniff_state.projects@.len() == r.projects@.len(),
        forall|i: int|
            0 <= i < r.projects@.len() ==> (#[trigger] b.sniff_state.projects@[i]).name
                == r.projects@[i].name && b.sniff_state.projects@[i].path == r.projects@[i].path
                && b.sniff_state.projects@[i].size_bytes == r.projects@[i].size_bytes
                && b.sniff_state.projects@[i].is_git_repo == r.projects@[i].is_git_repo,
        !b.sniff_state.is_loading,
        b.sniff_state.last_refresh == Some(now),
        b.sniff_state.error == a.sniff_state.error,
{
}

} // verus!
