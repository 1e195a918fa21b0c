//! Activity layer — the user-meaningful event stream (what happened: scan
//! complete, findings raised, an operation failed), newest first and capped.

use vstd::prelude::*;
use crate::domain::{CoreOperation, ProgressEvent};
use crate::paths::{file_name, path_file_name};
use crate::text::{decimal, push_decimal, push_str};
use vstd::string::StrSliceExecFns;

verus! {

/// Maximum number of entries kept (newest first); older entries are trimmed
/// and counted.
pub const ACTIVITY_CAP: usize = 32;

/// Semantic kind of an activity entry. The glyph carries the meaning so the
/// stream survives without colour.
#[derive(Debug, Clone, Copy, PartialEq, Eq, Structural)]
pub enum ActivityKind {
    /// Success — operation completed cleanly.
    Success,
    /// Warning — findings raised, degraded outcome, failure risk.
    Warn,
    /// Error — an operation failed.
    Error,
    /// Information — operation starts, progress steps, cache source.
    Info,
}

/// The glyph of an activity kind.
pub open spec fn kind_glyph(k: ActivityKind) -> Seq<char> {
    match k {
        ActivityKind::Success => "✔"@,
        ActivityKind::Warn => "!"@,
        ActivityKind::Error => "✖"@,
        ActivityKind::Info => "·"@,
    }
}

impl ActivityKind {
    /// The glyph that carries this entry's semantic meaning.
    pub fn glyph(self) -> (s: &'static str)
        ensures
            s@ == kind_glyph(self),
    {
        match self {
            ActivityKind::Success => "✔",
            ActivityKind::Warn => "!",
            ActivityKind::Error => "✖",
            ActivityKind::Info => "·",
        }
    }
}

/// The four glyphs are pairwise distinct.
pub proof fn lemma_glyphs_distinct(a: ActivityKind, b: ActivityKind)
    ensures
        a != b ==> kind_glyph(a) != kind_glyph(b),
{
    reveal_strlit("✔");
    reveal_strlit("!");
    reveal_strlit("✖");
    reveal_strlit("·");
    assert("✔"@[0] != "!"@[0]);
    assert("✔"@[0] != "✖"@[0]);
    assert("✔"@[0] != "·"@[0]);
    assert("!"@[0] != "✖"@[0]);
    assert("!"@[0] != "·"@[0]);
    assert("✖"@[0] != "·"@[0]);
}

/// One activity row: semantic kind + human-readable message.
#[derive(Debug)]
pub struct ActivityEntry {
    pub kind: ActivityKind,
    pub message: String,
}

/// Plain-value contents of an activity log.
pub struct ActivityLogView {
    /// Entries, newest first, as (kind, message).
    pub entries: Seq<(ActivityKind, Seq<char>)>,
    /// Entries dropped past the cap.
    pub trimmed: nat,
    /// Last progress line written: (operation, percent, status message).
    pub last_progress: Option<(CoreOperation, u8, Seq<char>)>,
}

/// The log after recording `(kind, message)` at the top: when that makes it
/// longer than the cap, the oldest entry is dropped and counted.
pub open spec fn log_pushed(v: ActivityLogView, kind: ActivityKind, message: Seq<char>) -> ActivityLogView {
    let n = seq![(kind, message)] + v.entries;
    if n.len() > ACTIVITY_CAP {
        ActivityLogView { entries: n.drop_last(), trimmed: v.trimmed + 1, ..v }
    } else {
        ActivityLogView { entries: n, ..v }
    }
}

/// Lowercase operation label for activity lines.
pub open spec fn operation_label(op: CoreOperation) -> Seq<char> {
    match op {
        CoreOperation::Sniff => "sniff"@,
        CoreOperation::Dig => "dig"@,
        CoreOperation::Stash => "stash"@,
        CoreOperation::Rinse => "rinse"@,
        CoreOperation::Pack => "pack"@,
        CoreOperation::Raid => "raid"@,
    }
}

/// Whether a progress event is too close to the last one written to be
/// recorded: same operation, fewer than 10 points further, same message.
pub open spec fn progress_is_quiet(v: ActivityLogView, op: CoreOperation, percent: u8, message: Seq<char>) -> bool {
    match v.last_progress {
        Some(last) => last.0 == op && (percent as int) < (last.1 as int) + 10 && message == last.2,
        None => false,
    }
}

/// The text of a progress line: `sniff · 40%`.
pub open spec fn progress_line(op: CoreOperation, percent: u8) -> Seq<char> {
    operation_label(op) + " · "@ + decimal(percent as nat) + "%"@
}

/// The log after progress `event`: unchanged when the event is quiet,
/// else with a progress line recorded (and remembered as the last one).
pub open spec fn progress_logged(v: ActivityLogView, event: ProgressEvent) -> ActivityLogView {
    if progress_is_quiet(v, event.operation, event.percent, event.message@) {
        v
    } else {
        log_pushed(
            ActivityLogView {
                last_progress: Some((event.operation, event.percent, event.message@)),
                ..v
            },
            ActivityKind::Info,
            progress_line(event.operation, event.percent),
        )
    }
}

/// Bounded, newest-first stream of activity entries.
#[derive(Debug)]
pub struct ActivityLog {
    entries: Vec<ActivityEntry>,
    trimmed: usize,
    last_progress: Option<(CoreOperation, u8, String)>,
}

impl View for ActivityLog {
    type V = ActivityLogView;

    closed spec fn view(&self) -> ActivityLogView {
        ActivityLogView {
            entries: self.entries@.map_values(|e: ActivityEntry| (e.kind, e.message@)),
            trimmed: self.trimmed as nat,
            last_progress: match self.last_progress {
                Some(t) => Some((t.0, t.1, t.2@)),
                None => None,
            },
        }
    }
}

impl Default for ActivityLog {
    fn default() -> (log: ActivityLog)
        ensures
            log@.entries.len() == 0,
            log@.trimmed == 0,
            log@.last_progress.is_none(),
    {
        let log = ActivityLog { entries: Vec::new(), trimmed: 0, last_progress: None };
        assert(log@.entries =~= Seq::empty());
        log
    }
}

impl ActivityLog {
    /// Record one entry at the top of the stream (newest first).
    pub fn push(&mut self, kind: ActivityKind, message: String)
        requires
            old(self)@.trimmed < usize::MAX,
        ensures
            final(self)@ == log_pushed(old(self)@, kind, message@),
    {
        let ghost before = self@;
        self.entries.insert(0, ActivityEntry { kind, message });
        if self.entries.len() > ACTIVITY_CAP {
            self.entries.pop();
            self.trimmed = self.trimmed + 1;
        }
        proof {
            let n = seq![(kind, message@)] + before.entries;
            assert(self@.entries =~= (if n.len() > ACTIVITY_CAP {
                n.drop_last()
            } else {
                n
            }));
        }
    }

    /// Record a throttled progress entry (`Info`): written only when the
    /// operation changed, `percent` stepped by at least 10 points, or the
    /// status message changed.
    pub fn push_progress(&mut self, event: &ProgressEvent)
        requires
            old(self)@.trimmed < usize::MAX,
        ensures
            final(self)@ == progress_logged(old(self)@, *event),
    {
        let keep_quiet = match &self.last_progress {
            Some(last) => last.0 == event.operation && (event.percent as u16) < (last.1 as u16)
                + 10 && event.message == last.2,
            None => false,
        };
        if keep_quiet {
            return;
        }
        self.last_progress = Some((event.operation, event.percent, event.message.clone()));
        let mut line = String::new();
        push_str(&mut line, op_label(event.operation));
        push_str(&mut line, " · ");
        push_decimal(&mut line, event.percent as u64);
        push_str(&mut line, "%");
        assert(line@ =~= progress_line(event.operation, event.percent));
        self.push(ActivityKind::Info, line);
    }

    /// Stored entries, newest first.
    pub fn entries(&self) -> (r: &[ActivityEntry])
        ensures
            r@.map_values(|e: ActivityEntry| (e.kind, e.message@)) == self@.entries,
    {
        self.entries.as_slice()
    }

    /// How many entries were trimmed beyond the cap.
    pub fn trimmed(&self) -> (r: usize)
        ensures
            r == self@.trimmed,
    {
        self.trimmed
    }

    /// Whether nothing has been recorded (or everything was trimmed).
    pub fn is_empty(&self) -> (r: bool)
        ensures
            r == (self@.entries.len() == 0),
    {
        self.entries.len() == 0
    }
}

/// The log never holds more than [`ACTIVITY_CAP`] entries: the empty log
/// is within the cap and every push keeps it there. A push always puts the
/// new entry on top, and it drops (and counts) an entry only when the log
/// was full.
pub proof fn lemma_log_cap(v: ActivityLogView, kind: ActivityKind, message: Seq<char>)
    requires
        v.entries.len() <= ACTIVITY_CAP,
    ensures
        log_pushed(v, kind, message).entries.len() <= ACTIVITY_CAP,
        log_pushed(v, kind, message).entries[0] == (kind, message),
        v.entries.len() < ACTIVITY_CAP ==> log_pushed(v, kind, message).entries == seq![
            (kind, message),
        ] + v.entries && log_pushed(v, kind, message).trimmed == v.trimmed,
        v.entries.len() == ACTIVITY_CAP ==> log_pushed(v, kind, message).trimmed == v.trimmed + 1,
        forall|i: int|
            0 <= i < log_pushed(v, kind, message).entries.len() - 1 ==> #[trigger] log_pushed(
                v,
                kind,
                message,
            ).entries[i + 1] == v.entries[i],
{
}

/// Lowercase operation label for activity lines (`sniff · 40%`).
pub fn op_label(op: CoreOperation) -> (s: &'static str)
    ensures
        s@ == operation_label(op),
{
    match op {
        CoreOperation::Sniff => "sniff",
        CoreOperation::Dig => "dig",
        CoreOperation::Stash => "stash",
        CoreOperation::Rinse => "rinse",
        CoreOperation::Pack => "pack",
        CoreOperation::Raid => "raid",
    }
}

/// Short label of a project path: its final component, or the whole path
/// when it has none (or an empty one).
pub open spec fn path_label(p: Seq<char>) -> Seq<char> {
    match path_file_name(p) {
        Some(n) => if n.len() > 0 {
            n
        } else {
            p
        },
        None => p,
    }
}

/// Short label for a project path in activity lines: the directory basename,
/// falling back to the full path when the basename is unavailable.
pub fn project_label(path: &str) -> (s: String)
    ensures
        s@ == path_label(path@),
{
    match file_name(path) {
        Some(n) => if n.as_str().unicode_len() > 0 {
            n
        } else {
            path.to_owned()
        },
        None => path.to_owned(),
    }
}

} // verus!
