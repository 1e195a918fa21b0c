//! The raid modal flow: a state machine that drives preview, passphrase
//! entry and the run, and folds the run's progress into a phase pipeline.
//! The raid itself runs in the core engine; this module only decides.

use vstd::prelude::*;
use crate::domain::{OrchestrationMode, ProgressEvent, RaidResult};
use crate::keys::{KeyCode, is_cancel_key, is_close_key, is_confirm_key};
use crate::passphrase::{
    EnterOutcome, PassphraseInput, PassphraseView, enter_confirms, entered, erased, fresh_entry,
    typed,
};
use crate::secret::{SecretText, secret_chars};
use crate::text::{is_control, is_control_char};

verus! {

/// Options editable from the flow's preview; handed to the worker on run.
#[derive(Debug, Clone, Copy, PartialEq, Eq, Structural)]
pub struct RaidFlowOptions {
    /// Keep source files after a commit.
    pub keep_sources: bool,
    /// Skip the stash phase entirely.
    pub skip_stash: bool,
    /// Orchestration mode: Atomic (default) or FailFast.
    pub mode: OrchestrationMode,
}

/// The other orchestration mode.
pub open spec fn other_mode(m: OrchestrationMode) -> OrchestrationMode {
    match m {
        OrchestrationMode::Atomic => OrchestrationMode::FailFast,
        OrchestrationMode::FailFast => OrchestrationMode::Atomic,
    }
}

impl Default for RaidFlowOptions {
    fn default() -> (o: RaidFlowOptions)
        ensures
            o == (RaidFlowOptions {
                keep_sources: false,
                skip_stash: false,
                mode: OrchestrationMode::Atomic,
            }),
    {
        RaidFlowOptions { keep_sources: false, skip_stash: false, mode: OrchestrationMode::Atomic }
    }
}

impl RaidFlowOptions {
    /// Toggle `keep_sources`.
    pub fn toggle_keep_sources(&mut self)
        ensures
            *final(self) == (RaidFlowOptions { keep_sources: !old(self).keep_sources, ..*old(self) }),
    {
        self.keep_sources = !self.keep_sources;
    }

    /// Toggle `skip_stash`.
    pub fn toggle_skip_stash(&mut self)
        ensures
            *final(self) == (RaidFlowOptions { skip_stash: !old(self).skip_stash, ..*old(self) }),
    {
        self.skip_stash = !self.skip_stash;
    }

    /// Toggle `mode` between Atomic and FailFast.
    pub fn toggle_mode(&mut self)
        ensures
            *final(self) == (RaidFlowOptions { mode: other_mode(old(self).mode), ..*old(self) }),
    {
        self.mode = match self.mode {
            OrchestrationMode::Atomic => OrchestrationMode::FailFast,
            OrchestrationMode::FailFast => OrchestrationMode::Atomic,
        };
    }
}

/// Current phase of the raid modal flow.
#[derive(Debug)]
pub enum FlowPhase {
    /// The worker is computing the dry-run preview.
    Preparing,
    /// The dry-run preview is available.
    Preview(RaidResult),
    /// Passphrase entry (two inputs).
    Passphrase(PassphraseInput),
    /// The commit run is in progress.
    Running,
    /// The commit run finished.
    Done(RaidResult),
    /// The flow failed or was interrupted, with a message.
    Failed(String),
}

/// Command the flow hands back to the app layer. The confirmed passphrase
/// travels only inside [`RaidCommand::PassphraseConfirm`], in a wiped buffer.
#[derive(Debug, PartialEq, Eq)]
pub enum RaidCommand {
    /// Preview confirmed with stash enabled: ask for the passphrase.
    PreviewConfirm,
    /// Preview cancelled.
    PreviewCancel,
    /// Passphrase entered twice and confirmed.
    PassphraseConfirm(SecretText),
    /// Passphrase entry cancelled.
    PassphraseCancel,
    /// Run at once (stash skipped).
    Run,
    /// Close the flow (done or failed).
    Close,
}

/// One pipeline row on the running screen.
#[derive(Debug, PartialEq, Eq)]
pub struct PhaseLine {
    /// Phase name: `stash` | `rinse` | `pack` | `move`.
    pub name: String,
    /// Whether the latest event for this phase completed it.
    pub done: bool,
    /// Whether this is the first phase not yet completed.
    pub current: bool,
    /// Latest progress message for this phase.
    pub message: String,
}

/// Plain-value form of a [`PhaseLine`].
pub struct PhaseLineView {
    pub name: Seq<char>,
    pub done: bool,
    pub current: bool,
    pub message: Seq<char>,
}

impl View for PhaseLine {
    type V = PhaseLineView;

    open spec fn view(&self) -> PhaseLineView {
        PhaseLineView {
            name: self.name@,
            done: self.done,
            current: self.current,
            message: self.message@,
        }
    }
}

/// The plain-value rows of a pipeline.
pub open spec fn pipeline_view(p: Seq<PhaseLine>) -> Seq<PhaseLineView> {
    p.map_values(|l: PhaseLine| l@)
}

/// Planned phase names in run order: `stash` (unless skipped), `rinse`,
/// `pack`, `move`.
pub open spec fn planned_phases(skip_stash: bool) -> Seq<Seq<char>> {
    if skip_stash {
        seq!["rinse"@, "pack"@, "move"@]
    } else {
        seq!["stash"@, "rinse"@, "pack"@, "move"@]
    }
}

/// A pipeline row for a phase that has reported nothing yet.
pub open spec fn pending_line(name: Seq<char>) -> PhaseLineView {
    PhaseLineView { name, done: false, current: false, message: Seq::empty() }
}

/// The pipeline an event is folded into: the existing one, or the planned
/// phases when there is none yet.
pub open spec fn pipeline_base(p: Seq<PhaseLineView>, skip_stash: bool) -> Seq<PhaseLineView> {
    if p.len() == 0 {
        planned_phases(skip_stash).map_values(|n: Seq<char>| pending_line(n))
    } else {
        p
    }
}

/// Whether row `i` is the first row named `name`.
pub open spec fn is_first_named(p: Seq<PhaseLineView>, i: int, name: Seq<char>) -> bool {
    &&& 0 <= i < p.len()
    &&& p[i].name == name
    &&& forall|j: int| 0 <= j < i ==> p[j].name != name
}

/// Row `i` after an event for phase `name`: the first row of that name
/// takes the event's completion flag and message; other rows stay.
pub open spec fn marked_line(
    p: Seq<PhaseLineView>,
    i: int,
    name: Seq<char>,
    done: bool,
    message: Seq<char>,
) -> PhaseLineView {
    if is_first_named(p, i, name) {
        PhaseLineView { done, message, ..p[i] }
    } else {
        p[i]
    }
}

/// Every row marked `current` exactly when it is the first row not done.
pub open spec fn with_current(p: Seq<PhaseLineView>) -> Seq<PhaseLineView> {
    Seq::new(
        p.len(),
        |i: int|
            PhaseLineView {
                current: !p[i].done && (forall|j: int| 0 <= j < i ==> p[j].done),
                ..p[i]
            },
    )
}

/// The pipeline after a progress event for phase `name`.
pub open spec fn progressed(
    p: Seq<PhaseLineView>,
    name: Seq<char>,
    done: bool,
    message: Seq<char>,
) -> Seq<PhaseLineView> {
    with_current(Seq::new(p.len(), |i: int| marked_line(p, i, name, done, message)))
}

/// What a key does in the preview (and while it is being prepared).
pub open spec fn preview_command(o: RaidFlowOptions, key: KeyCode) -> Option<RaidCommand> {
    if is_confirm_key(key) {
        Some(
            if o.skip_stash {
                RaidCommand::Run
            } else {
                RaidCommand::PreviewConfirm
            },
        )
    } else if is_cancel_key(key) {
        Some(RaidCommand::PreviewCancel)
    } else {
        None
    }
}

/// The options after a key in the preview: `K`, `S` and `m` toggle
/// keep-sources, skip-stash and the mode.
pub open spec fn preview_options(o: RaidFlowOptions, key: KeyCode) -> RaidFlowOptions {
    if key == KeyCode::Char('K') {
        RaidFlowOptions { keep_sources: !o.keep_sources, ..o }
    } else if key == KeyCode::Char('S') {
        RaidFlowOptions { skip_stash: !o.skip_stash, ..o }
    } else if key == KeyCode::Char('m') {
        RaidFlowOptions { mode: other_mode(o.mode), ..o }
    } else {
        o
    }
}

/// What a key does on the passphrase entry `v`: `input` is the entry after
/// the key and `r` the command returned.
pub open spec fn passphrase_key_outcome(
    v: PassphraseView,
    key: KeyCode,
    input: PassphraseView,
    r: Option<RaidCommand>,
) -> bool {
    match key {
        KeyCode::Esc => input == v && r == Some(RaidCommand::PassphraseCancel),
        KeyCode::Enter => input == entered(v) && (if enter_confirms(v) {
            (r matches Some(RaidCommand::PassphraseConfirm(p)) && secret_chars(p) == v.first)
        } else {
            r is None
        }),
        KeyCode::Backspace => input == erased(v) && r is None,
        KeyCode::Char(c) => r is None && (if is_control_char(c) {
            input == v
        } else {
            input == typed(v, c)
        }),
        _ => input == v && r is None,
    }
}

/// State machine for one raid flow.
#[derive(Debug)]
pub struct RaidFlow {
    /// Project being raided.
    pub project: String,
    /// Options shown and toggled in the preview.
    pub options: RaidFlowOptions,
    /// Current phase of the modal.
    pub phase: FlowPhase,
    /// Resolved den directory (for den-relative artifact paths).
    pub den_dir: String,
    /// Phase pipeline derived from raid progress events.
    pub pipeline: Vec<PhaseLine>,
    /// Progress within the current phase, 0–100, as reported.
    pub percent: u8,
    /// Overall progress, 0–100, as reported.
    pub overall_percent: u8,
    /// Latest progress message.
    pub message: String,
    /// Passphrase confirmed in the modal, kept here (not in a command)
    /// until [`RaidFlow::take_passphrase`] hands it to the run.
    pub confirmed_passphrase: Option<SecretText>,
}

/// Whether two flows agree on everything but their options and phase.
pub open spec fn same_run_state(a: RaidFlow, b: RaidFlow) -> bool {
    &&& a.project == b.project
    &&& a.den_dir == b.den_dir
    &&& a.pipeline == b.pipeline
    &&& a.percent == b.percent
    &&& a.overall_percent == b.overall_percent
    &&& a.message == b.message
    &&& a.confirmed_passphrase == b.confirmed_passphrase
}

/// Flow `a` after raid progress `event` is flow `b`: the percentages and
/// message are taken as reported, the pipeline is created from the planned
/// phases on the first event, the first row of the event's phase takes its
/// completion and message (an unknown phase changes no row), and the first
/// row not done is current. Nothing else changes.
pub open spec fn raid_progressed(a: RaidFlow, event: ProgressEvent, b: RaidFlow) -> bool {
    &&& b.percent == event.percent
    &&& b.overall_percent == event.overall_percent
    &&& b.message@ == event.message@
    &&& pipeline_view(b.pipeline@) == progressed(
        pipeline_base(pipeline_view(a.pipeline@), a.options.skip_stash),
        event.phase@,
        event.phase_complete,
        event.message@,
    )
    &&& b == RaidFlow {
        percent: b.percent,
        overall_percent: b.overall_percent,
        message: b.message,
        pipeline: b.pipeline,
        ..a
    }
}

/// The phase names of a pipeline, in order.
pub open spec fn line_names(p: Seq<PhaseLineView>) -> Seq<Seq<char>> {
    p.map_values(|l: PhaseLineView| l.name)
}

/// A progress event keeps the pipeline's phase names (the planned phases
/// when there was no pipeline yet); the first row named after the event's
/// phase takes the event's completion flag, which on a pipeline built from
/// the planned phases (whose names are distinct) is every row of that name;
/// and exactly the first row not yet done is marked current.
pub proof fn lemma_progress_updates_pipeline(a: RaidFlow, event: ProgressEvent, b: RaidFlow)
    requires
        raid_progressed(a, event, b),
    ensures
        b.percent == event.percent,
        b.overall_percent == event.overall_percent,
        b.message@ == event.message@,
        line_names(pipeline_view(b.pipeline@)) == (if a.pipeline@.len() == 0 {
            planned_phases(a.options.skip_stash)
        } else {
            line_names(pipeline_view(a.pipeline@))
        }),
        forall|i: int|
            is_first_named(pipeline_view(b.pipeline@), i, event.phase@) ==> (#[trigger] pipeline_view(
                b.pipeline@,
            )[i]).done == event.phase_complete,
        a.pipeline@.len() == 0 ==> forall|i: int|
            0 <= i < b.pipeline@.len() && (#[trigger] pipeline_view(b.pipeline@)[i]).name
                == event.phase@ ==> pipeline_view(b.pipeline@)[i].done == event.phase_complete,
        forall|i: int|
            0 <= i < b.pipeline@.len() ==> (#[trigger] pipeline_view(b.pipeline@)[i]).current == (
            !pipeline_view(b.pipeline@)[i].done && forall|j: int|
                0 <= j < i ==> pipeline_view(b.pipeline@)[j].done),
{
    let base = pipeline_base(pipeline_view(a.pipeline@), a.options.skip_stash);
    let name = event.phase@;
    let marked = Seq::new(
        base.len(),
        |i: int| marked_line(base, i, name, event.phase_complete, event.message@),
    );
    let after = pipeline_view(b.pipeline@);
    assert(after == with_current(marked));
    lemma_with_current_marks_first_pending(marked);
    lemma_marked_rows(base, name, event.phase_complete, event.message@);
    assert(line_names(after) =~= line_names(base));
    if a.pipeline@.len() == 0 {
        let planned = planned_phases(a.options.skip_stash);
        lemma_planned_names_distinct(a.options.skip_stash);
        assert(line_names(base) =~= planned);
        assert forall|i: int| 0 <= i < after.len() && (#[trigger] after[i]).name == name implies after[i].done
            == event.phase_complete by {
            assert forall|j: int| 0 <= j < i implies base[j].name != name by {
                assert(line_names(base)[j] == planned[j]);
                assert(line_names(base)[i] == planned[i]);
            }
            assert(is_first_named(base, i, name));
        }
    }
    assert forall|i: int| is_first_named(after, i, name) implies (#[trigger] after[i]).done
        == event.phase_complete by {
        assert forall|j: int| 0 <= j < i implies base[j].name != name by {
            assert(after[j].name == base[j].name);
        }
        assert(is_first_named(base, i, name));
    }
}

proof fn lemma_with_current_marks_first_pending(m: Seq<PhaseLineView>)
    ensures
        with_current(m).len() == m.len(),
        forall|i: int|
            0 <= i < m.len() ==> (#[trigger] with_current(m)[i]).name == m[i].name
                && with_current(m)[i].done == m[i].done,
        forall|i: int|
            0 <= i < m.len() ==> (#[trigger] with_current(m)[i]).current == (!with_current(m)[i].done
                && forall|j: int| 0 <= j < i ==> with_current(m)[j].done),
{
    let w = with_current(m);
    assert forall|i: int| 0 <= i < m.len() implies (#[trigger] w[i]).current == (!w[i].done
        && forall|j: int| 0 <= j < i ==> w[j].done) by {
        assert forall|j: int| 0 <= j < i implies w[j].done == m[j].done by {}
    }
}

proof fn lemma_marked_rows(base: Seq<PhaseLineView>, name: Seq<char>, done: bool, message: Seq<char>)
    ensures
        ({
            let marked = Seq::new(base.len(), |i: int| marked_line(base, i, name, done, message));
            &&& forall|i: int| 0 <= i < base.len() ==> (#[trigger] marked[i]).name == base[i].name
            &&& forall|i: int| is_first_named(base, i, name) ==> (#[trigger] marked[i]).done == done
        }),
{
}

proof fn lemma_planned_names_distinct(skip_stash: bool)
    ensures
        forall|i: int, j: int|
            0 <= j < i < planned_phases(skip_stash).len() ==> #[trigger] planned_phases(skip_stash)[j]
                != #[trigger] planned_phases(skip_stash)[i],
{
    reveal_strlit("stash");
    reveal_strlit("rinse");
    reveal_strlit("pack");
    reveal_strlit("move");
    let planned = planned_phases(skip_stash);
    assert forall|i: int, j: int| 0 <= j < i < planned.len() implies #[trigger] planned[j]
        != #[trigger] planned[i] by {
        assert(planned[j][0] != planned[i][0]);
    }
}

/// What a key does to a raid flow: flow `a` becomes `b` and the flow
/// returns `r`. The run state (project, den, pipeline, progress, stored
/// passphrase) never changes on a key.
/// - Preparing / Preview: `y`/Enter confirm (run at once when stash is
///   skipped), `n`/Esc cancel, `K`/`S`/`m` toggle an option.
/// - Passphrase: see [`passphrase_key_outcome`].
/// - Running: every key is swallowed; nothing changes.
/// - Done / Failed: Enter or Esc closes.
pub open spec fn raid_key_step(a: RaidFlow, key: KeyCode, b: RaidFlow, r: Option<RaidCommand>) -> bool {
    &&& same_run_state(a, b)
    &&& (a.phase is Preparing || a.phase is Preview) ==> {
        &&& b.options == preview_options(a.options, key)
        &&& b.phase == a.phase
        &&& r == preview_command(a.options, key)
    }
    &&& !(a.phase is Preparing || a.phase is Preview) ==> b.options == a.options
    &&& a.phase matches FlowPhase::Passphrase(input) ==> (b.phase matches FlowPhase::Passphrase(after)
        && passphrase_key_outcome(input@, key, after@, r))
    &&& a.phase is Running ==> b.phase == a.phase && r is None
    &&& (a.phase is Done || a.phase is Failed) ==> {
        &&& b.phase == a.phase
        &&& r == (if is_close_key(key) {
            Some(RaidCommand::Close)
        } else {
            None
        })
    }
}

impl RaidFlow {
    /// A flow in the `Preparing` phase.
    pub fn new(project: String, den_dir: String, options: RaidFlowOptions) -> (f: RaidFlow)
        ensures
            f.project == project,
            f.den_dir == den_dir,
            f.options == options,
            f.phase is Preparing,
            f.pipeline@.len() == 0,
            f.percent == 0,
            f.overall_percent == 0,
            f.message@.len() == 0,
            f.confirmed_passphrase.is_none(),
    {
        RaidFlow {
            project,
            options,
            phase: FlowPhase::Preparing,
            den_dir,
            pipeline: Vec::new(),
            percent: 0,
            overall_percent: 0,
            message: String::new(),
            confirmed_passphrase: None,
        }
    }

    /// Planned phase names in run order, honoring the current options.
    pub fn planned_names(&self) -> (names: Vec<&'static str>)
        ensures
            names@.map_values(|s: &str| s@) == planned_phases(self.options.skip_stash),
    {
        let mut names: Vec<&'static str> = Vec::new();
        if !self.options.skip_stash {
            names.push("stash");
        }
        names.push("rinse");
        names.push("pack");
        names.push("move");
        proof {
            reveal_strlit("stash");
            reveal_strlit("rinse");
            reveal_strlit("pack");
            reveal_strlit("move");
            assert(names@.map_values(|s: &str| s@) =~= planned_phases(self.options.skip_stash));
        }
        names
    }

    /// Fresh pipeline rows for the planned phases.
    fn planned_lines(&self) -> (lines: Vec<PhaseLine>)
        ensures
            pipeline_view(lines@) == pipeline_base(Seq::empty(), self.options.skip_stash),
    {
        let names = self.planned_names();
        let ghost planned = planned_phases(self.options.skip_stash);
        let mut lines: Vec<PhaseLine> = Vec::new();
        let mut i: usize = 0;
        while i < names.len()
            invariant
                0 <= i <= names.len(),
                names@.map_values(|s: &str| s@) == planned,
                pipeline_view(lines@) == planned.take(i as int).map_values(
                    |n: Seq<char>| pending_line(n),
                ),
            decreases names.len() - i,
        {
            assert(names@.map_values(|s: &str| s@)[i as int] == names@[i as int]@);
            let line = PhaseLine {
                name: names[i].to_string(),
                done: false,
                current: false,
                message: String::new(),
            };
            assert(line@ == pending_line(planned[i as int]));
            let ghost before = lines@;
            lines.push(line);
            proof {
                lemma_view_push(before, line);
                assert(planned.take(i + 1).map_values(|n: Seq<char>| pending_line(n))
                    =~= planned.take(i as int).map_values(|n: Seq<char>| pending_line(n)).push(
                    pending_line(planned[i as int]),
                ));
            }
            assert(pipeline_view(lines@) =~= planned.take(i + 1).map_values(
                |n: Seq<char>| pending_line(n),
            ));
            i = i + 1;
        }
        assert(planned.take(names.len() as int) =~= planned);
        lines
    }

    /// Handle one key press inside the flow. Returns the command the
    /// caller executes, or `None` when the key only updated local state.
    pub fn handle_key(&mut self, key: KeyCode) -> (r: Option<RaidCommand>)
        ensures
            raid_key_step(*old(self), key, *final(self), r),
    {
        let in_preview = match &self.phase {
            FlowPhase::Preparing => true,
            FlowPhase::Preview(_) => true,
            _ => false,
        };
        if in_preview {
            return self.preview_key(key);
        }
        match &mut self.phase {
            FlowPhase::Passphrase(input) => passphrase_key(input, key),
            FlowPhase::Done(_) => close_key(key),
            FlowPhase::Failed(_) => close_key(key),
            _ => None,
        }
    }

    /// A key in the preview: confirm, cancel, or toggle an option.
    fn preview_key(&mut self, key: KeyCode) -> (r: Option<RaidCommand>)
        ensures
            same_run_state(*old(self), *final(self)),
            final(self).options == preview_options(old(self).options, key),
            final(self).phase == old(self).phase,
            r == preview_command(old(self).options, key),
    {
        match key {
            KeyCode::Char('y') | KeyCode::Enter => Some(
                if self.options.skip_stash {
                    RaidCommand::Run
                } else {
                    RaidCommand::PreviewConfirm
                },
            ),
            KeyCode::Char('n') | KeyCode::Esc => Some(RaidCommand::PreviewCancel),
            KeyCode::Char('K') => {
                self.options.toggle_keep_sources();
                None
            },
            KeyCode::Char('S') => {
                self.options.toggle_skip_stash();
                None
            },
            KeyCode::Char('m') => {
                self.options.toggle_mode();
                None
            },
            _ => None,
        }
    }

    /// Fold the latest raid progress event into the running state: the
    /// percentages and message are taken as reported, the pipeline is
    /// created from the planned phases on the first event, the row of the
    /// event's phase takes its completion and message (an unknown phase
    /// changes no row), and the first row not done becomes current.
    pub fn on_progress(&mut self, event: &ProgressEvent)
        ensures
            raid_progressed(*old(self), *event, *final(self)),
    {
        self.percent = event.percent;
        self.overall_percent = event.overall_percent;
        self.message = event.message.clone();
        if self.pipeline.len() == 0 {
            self.pipeline = self.planned_lines();
        }
        let ghost base = pipeline_view(self.pipeline@);
        let ghost name = event.phase@;
        let ghost marked = Seq::new(
            base.len(),
            |i: int| marked_line(base, i, name, event.phase_complete, event.message@),
        );
        let found = first_named(&self.pipeline, &event.phase);
        let n = self.pipeline.len();
        let mut lines: Vec<PhaseLine> = Vec::new();
        let mut first_pending = true;
        let mut i: usize = 0;
        while i < n
            invariant
                n == self.pipeline.len(),
                base == pipeline_view(self.pipeline@),
                name == event.phase@,
                marked == Seq::new(
                    base.len(),
                    |i: int| marked_line(base, i, name, event.phase_complete, event.message@),
                ),
                found.is_some() ==> is_first_named(base, found.unwrap() as int, name),
                found.is_none() ==> forall|j: int| 0 <= j < base.len() ==> base[j].name != name,
                0 <= i <= n,
                first_pending == (forall|j: int| 0 <= j < i ==> marked[j].done),
                pipeline_view(lines@) == with_current(marked).take(i as int),
            decreases n - i,
        {
            let line = &self.pipeline[i];
            assert(base[i as int] == line@);
            let hit = match found {
                Some(k) => k == i,
                None => false,
            };
            assert(hit == is_first_named(base, i as int, name)) by {
                if found.is_some() && found.unwrap() != i {
                    let k = found.unwrap() as int;
                    if k < i {
                        assert(!is_first_named(base, i as int, name));
                    }
                }
            }
            let done = if hit {
                event.phase_complete
            } else {
                line.done
            };
            let message = if hit {
                event.message.clone()
            } else {
                line.message.clone()
            };
            let current = !done && first_pending;
            assert(marked[i as int] == (if hit {
                PhaseLineView { done: event.phase_complete, message: event.message@, ..base[i as int] }
            } else {
                base[i as int]
            }));
            assert(with_current(marked)[i as int].current == current);
            if !done {
                first_pending = false;
            }
            let new_line = PhaseLine { name: line.name.clone(), done, current, message };
            assert(new_line@ == with_current(marked)[i as int]);
            let ghost before = lines@;
            lines.push(new_line);
            proof {
                lemma_view_push(before, new_line);
            }
            assert(pipeline_view(lines@) =~= with_current(marked).take(i + 1));
            assert(first_pending == (forall|j: int| 0 <= j < i + 1 ==> marked[j].done)) by {
                if first_pending {
                    assert forall|j: int| 0 <= j < i + 1 implies marked[j].done by {
                        if j < i {
                        }
                    }
                } else if done {
                    let w = choose|j: int| 0 <= j < i && !marked[j].done;
                    assert(0 <= w < i + 1 && !marked[w].done);
                }
            }
            i = i + 1;
        }
        assert(with_current(marked).take(n as int) =~= with_current(marked));
        self.pipeline = lines;
    }

    /// Move to the passphrase entry phase.
    pub fn start_passphrase(&mut self)
        ensures
            final(self).phase matches FlowPhase::Passphrase(input) && input@ == fresh_entry(),
            *final(self) == (RaidFlow { phase: final(self).phase, ..*old(self) }),
    {
        self.phase = FlowPhase::Passphrase(PassphraseInput::new());
    }

    /// Move to the running phase (the worker message has been sent).
    pub fn start_running(&mut self)
        ensures
            *final(self) == (RaidFlow { phase: FlowPhase::Running, ..*old(self) }),
    {
        self.phase = FlowPhase::Running;
    }

    /// Keep a passphrase confirmed by the modal on the flow, so that it
    /// never travels inside an app command.
    pub fn store_confirmed(&mut self, passphrase: SecretText)
        ensures
            *final(self) == (RaidFlow { confirmed_passphrase: Some(passphrase), ..*old(self) }),
    {
        self.confirmed_passphrase = Some(passphrase);
    }

    /// Take the confirmed passphrase out of the flow; a second take finds
    /// nothing.
    pub fn take_passphrase(&mut self) -> (r: Option<SecretText>)
        ensures
            r == old(self).confirmed_passphrase,
            *final(self) == (RaidFlow { confirmed_passphrase: None, ..*old(self) }),
    {
        self.confirmed_passphrase.take()
    }
}

proof fn lemma_view_push(p: Seq<PhaseLine>, l: PhaseLine)
    ensures
        pipeline_view(p.push(l)) == pipeline_view(p).push(l@),
{
    assert(pipeline_view(p.push(l)) =~= pipeline_view(p).push(l@));
}

/// Index of the first row named `name`, if any.
fn first_named(lines: &Vec<PhaseLine>, name: &String) -> (r: Option<usize>)
    ensures
        r.is_some() ==> is_first_named(pipeline_view(lines@), r.unwrap() as int, name@),
        r.is_none() ==> forall|j: int|
            0 <= j < lines@.len() ==> (#[trigger] pipeline_view(lines@)[j]).name != name@,
{
    let ghost p = pipeline_view(lines@);
    let mut i: usize = 0;
    while i < lines.len()
        invariant
            0 <= i <= lines.len(),
            p == pipeline_view(lines@),
            forall|j: int| 0 <= j < i ==> (#[trigger] p[j]).name != name@,
        decreases lines.len() - i,
    {
        assert(p[i as int] == lines@[i as int]@);
        if lines[i].name == *name {
            return Some(i);
        }
        i = i + 1;
    }
    None
}

/// A key on the passphrase entry.
fn passphrase_key(input: &mut PassphraseInput, key: KeyCode) -> (r: Option<RaidCommand>)
    ensures
        passphrase_key_outcome(old(input)@, key, final(input)@, r),
{
    match key {
        KeyCode::Esc => Some(RaidCommand::PassphraseCancel),
        KeyCode::Enter => match input.enter() {
            EnterOutcome::Confirmed(passphrase) => Some(RaidCommand::PassphraseConfirm(passphrase)),
            _ => None,
        },
        KeyCode::Backspace => {
            input.backspace();
            None
        },
        KeyCode::Char(c) => {
            if !is_control(c) {
                input.push_char(c);
            }
            None
        },
        _ => None,
    }
}

/// A key on the finished (done or failed) modal: Enter or Esc closes it.
fn close_key(key: KeyCode) -> (r: Option<RaidCommand>)
    ensures
        r == (if is_close_key(key) {
            Some(RaidCommand::Close)
        } else {
            None
        }),
{
    match key {
        KeyCode::Enter | KeyCode::Esc => Some(RaidCommand::Close),
        _ => None,
    }
}

} // verus!
