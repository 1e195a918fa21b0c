//! Views, focus and the commands the key-routing step emits.

use vstd::prelude::*;

verus! {

/// Which region of the UI currently owns list/arrow keys.
///
/// * `Sidebar` — `j`/`k`/arrows move between views.
/// * `Main` — `j`/`k`/arrows move the active screen's list.
#[derive(Debug, Clone, Copy, PartialEq, Eq, Structural)]
pub enum Focus {
    Sidebar,
    Main,
}

impl Default for Focus {
    fn default() -> (f: Focus)
        ensures
            f == Focus::Sidebar,
    {
        Focus::Sidebar
    }
}

impl Focus {
    /// Lowercase label used in the footer hint.
    pub fn label(self) -> (s: &'static str)
        ensures
            s@ == focus_label(self),
    {
        match self {
            Focus::Sidebar => "sidebar",
            Focus::Main => "main",
        }
    }
}

/// The footer label of a focus region.
pub open spec fn focus_label(f: Focus) -> Seq<char> {
    match f {
        Focus::Sidebar => "sidebar"@,
        Focus::Main => "main"@,
    }
}

/// Active view in the main area.
#[derive(Debug, Clone, Copy, PartialEq, Eq, Structural)]
pub enum ViewId {
    Overview,
    Projects,
    Findings,
    Operations,
}

/// Ordered list of every view, in cycle order.
pub const ALL_VIEWS: [ViewId; 4] = [
    ViewId::Overview,
    ViewId::Projects,
    ViewId::Findings,
    ViewId::Operations,
];


/// Position of a view in the cycle order of [`ALL_VIEWS`].
pub open spec fn view_index(v: ViewId) -> int {
    match v {
        ViewId::Overview => 0,
        ViewId::Projects => 1,
        ViewId::Findings => 2,
        ViewId::Operations => 3,
    }
}

/// The view at a position of the cycle order (positions taken modulo 4).
pub open spec fn view_at(i: int) -> ViewId {
    let k = i % 4;
    if k == 0 {
        ViewId::Overview
    } else if k == 1 {
        ViewId::Projects
    } else if k == 2 {
        ViewId::Findings
    } else {
        ViewId::Operations
    }
}

/// Sidebar label of a view.
pub open spec fn view_label(v: ViewId) -> Seq<char> {
    match v {
        ViewId::Overview => "Overview"@,
        ViewId::Projects => "Projects"@,
        ViewId::Findings => "Findings"@,
        ViewId::Operations => "Operations"@,
    }
}

impl ViewId {
    /// Display name for the sidebar label.
    pub fn label(self) -> (s: &'static str)
        ensures
            s@ == view_label(self),
    {
        match self {
            ViewId::Overview => "Overview",
            ViewId::Projects => "Projects",
            ViewId::Findings => "Findings",
            ViewId::Operations => "Operations",
        }
    }

    /// Sidebar shortcut key digit: the view's 1-based position.
    pub fn key(self) -> (c: char)
        ensures
            c as int == '1' as int + view_index(self),
    {
        match self {
            ViewId::Overview => '1',
            ViewId::Projects => '2',
            ViewId::Findings => '3',
            ViewId::Operations => '4',
        }
    }

    /// Next view in cycle order.
    pub fn next(self) -> (v: ViewId)
        ensures
            v == view_at(view_index(self) + 1),
    {
        match self {
            ViewId::Overview => ViewId::Projects,
            ViewId::Projects => ViewId::Findings,
            ViewId::Findings => ViewId::Operations,
            ViewId::Operations => ViewId::Overview,
        }
    }

    /// Previous view in cycle order.
    pub fn prev(self) -> (v: ViewId)
        ensures
            v == view_at(view_index(self) + 3),
    {
        match self {
            ViewId::Overview => ViewId::Operations,
            ViewId::Projects => ViewId::Overview,
            ViewId::Findings => ViewId::Projects,
            ViewId::Operations => ViewId::Findings,
        }
    }
}

/// The view one step forward in the cycle.
pub open spec fn next_view(v: ViewId) -> ViewId {
    view_at(view_index(v) + 1)
}

/// The view one step back in the cycle.
pub open spec fn prev_view(v: ViewId) -> ViewId {
    view_at(view_index(v) + 3)
}

/// `ALL_VIEWS` lists every view exactly once, in cycle order: the view at
/// each position is the position's view, and each view stands at its index.
pub proof fn lemma_all_views_cycle_order()
    ensures
        ALL_VIEWS@.len() == 4,
        forall|i: int| 0 <= i < 4 ==> #[trigger] ALL_VIEWS@[i] == view_at(i),
        forall|v: ViewId| ALL_VIEWS@[#[trigger] view_index(v)] == v,
{
    assert(ALL_VIEWS@[0] == ViewId::Overview);
    assert(ALL_VIEWS@[1] == ViewId::Projects);
    assert(ALL_VIEWS@[2] == ViewId::Findings);
    assert(ALL_VIEWS@[3] == ViewId::Operations);
}

/// Stepping forward then back (or back then forward) returns to the same
/// view, and four steps forward make a full cycle.
pub proof fn lemma_view_cycle(v: ViewId)
    ensures
        prev_view(next_view(v)) == v,
        next_view(prev_view(v)) == v,
        next_view(next_view(next_view(next_view(v)))) == v,
        next_view(v) != v,
{
}

/// Commands emitted by the key-routing step.
#[derive(Debug, Clone, Copy, PartialEq, Eq, Structural)]
pub enum Command {
    /// No action required.
    NoOp,
    /// Shutdown requested.
    Quit,
    /// Trigger sniff operation.
    Sniff,
    /// Trigger sniff with force refresh.
    SniffRefresh,
    /// Change scan root.
    ChangeScanRoot,
    /// Dig the project selected on the Projects screen.
    Dig,
    /// Re-run dig for the project currently on the Findings screen.
    DigRefresh,
    /// Toggle content scanning and re-run dig for the current project.
    ToggleContentScan,
    /// Advance the min-risk filter (handled purely in-app).
    CycleRiskFilter,
    /// Return from the Findings screen to the Projects screen.
    BackToProjects,
    /// Open the raid flow (preview) for the selected project.
    RaidPreview,
    /// Open the operation selected on the Operations hub.
    OpenOperation,
    /// Confirm the raid preview / run; the passphrase is resolved later.
    RaidRun,
    /// Cancel the raid flow.
    RaidCancel,
    /// Dispatch an ephemeral reveal to the worker.
    Reveal,
    /// Confirm the pack preview and run the pack.
    PackRun,
}

} // verus!
