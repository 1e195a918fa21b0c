//! Sniff (Projects) screen state and its rendering-mode enum.

use vstd::prelude::*;
use crate::domain::{ProgressEvent, ProjectInfo, Timestamp};
use crate::table::{TableSelection, select_down, select_up, select_top, select_bottom};

verus! {

/// Rendering mode for the Projects screen. Cards is the default; Table is
/// the historical demoted view; Tree is a placeholder.
#[derive(Debug, Clone, Copy, PartialEq, Eq, Structural)]
pub enum ProjectsMode {
    Cards,
    Table,
    Tree,
}

impl Default for ProjectsMode {
    fn default() -> (m: ProjectsMode)
        ensures
            m == ProjectsMode::Cards,
    {
        ProjectsMode::Cards
    }
}

/// The mode after `m` in the `v` cycle: Cards → Table → Tree → Cards.
pub open spec fn next_mode(m: ProjectsMode) -> ProjectsMode {
    match m {
        ProjectsMode::Cards => ProjectsMode::Table,
        ProjectsMode::Table => ProjectsMode::Tree,
        ProjectsMode::Tree => ProjectsMode::Cards,
    }
}

/// Lowercase label of a mode.
pub open spec fn mode_label(m: ProjectsMode) -> Seq<char> {
    match m {
        ProjectsMode::Cards => "cards"@,
        ProjectsMode::Table => "table"@,
        ProjectsMode::Tree => "tree"@,
    }
}

impl ProjectsMode {
    /// Next mode in the `v` cycle: Cards → Table → Tree → Cards.
    pub fn next(self) -> (m: ProjectsMode)
        ensures
            m == next_mode(self),
    {
        match self {
            ProjectsMode::Cards => ProjectsMode::Table,
            ProjectsMode::Table => ProjectsMode::Tree,
            ProjectsMode::Tree => ProjectsMode::Cards,
        }
    }

    /// Lowercase label for titles / reports.
    pub fn label(self) -> (s: &'static str)
        ensures
            s@ == mode_label(self),
    {
        match self {
            ProjectsMode::Cards => "cards",
            ProjectsMode::Table => "table",
            ProjectsMode::Tree => "tree",
        }
    }
}

/// Three `v` presses return to the starting mode, and no press keeps it.
pub proof fn lemma_mode_cycle(m: ProjectsMode)
    ensures
        next_mode(next_mode(next_mode(m))) == m,
        next_mode(m) != m,
{
}

/// A single row in the project table.
#[derive(Debug)]
pub struct ProjectRow {
    pub name: String,
    pub language: Option<String>,
    pub frameworks: Vec<String>,
    pub size_bytes: u64,
    pub is_git_repo: bool,
    pub path: String,
}

/// The table row a scanned project is shown as.
pub open spec fn info_row(p: ProjectInfo) -> ProjectRow {
    ProjectRow {
        name: p.name,
        language: p.language,
        frameworks: p.frameworks,
        size_bytes: p.size_bytes,
        is_git_repo: p.is_git_repo,
        path: p.path,
    }
}

/// The table rows of a scan's projects, in scan order.
pub fn project_rows(projects: Vec<ProjectInfo>) -> (rows: Vec<ProjectRow>)
    ensures
        rows@ == projects@.map_values(|p: ProjectInfo| info_row(p)),
{
    let ghost all = projects@;
    let mut rest = projects;
    let mut rows: Vec<ProjectRow> = Vec::new();
    while rest.len() > 0
        invariant
            rest@ == all.take(rest@.len() as int),
            rows@ == all.skip(rest@.len() as int).map_values(|p: ProjectInfo| info_row(p)),
            rest@.len() <= all.len(),
        decreases rest@.len(),
    {
        let ghost n = rest@.len() as int;
        let p = rest.pop().unwrap();
        let row = ProjectRow {
            name: p.name,
            language: p.language,
            frameworks: p.frameworks,
            size_bytes: p.size_bytes,
            is_git_repo: p.is_git_repo,
            path: p.path,
        };
        rows.insert(0, row);
        assert(rest@ =~= all.take(n - 1));
        assert(rows@ =~= all.skip(n - 1).map_values(|p: ProjectInfo| info_row(p)));
    }
    assert(all.skip(0) =~= all);
    rows
}

/// State for the sniff screen.
#[derive(Debug)]
pub struct SniffScreenState {
    pub projects: Vec<ProjectRow>,
    pub total_size: u64,
    pub scan_root: String,
    pub is_loading: bool,
    pub error: Option<String>,
    pub last_refresh: Option<Timestamp>,
    pub from_cache: bool,
    pub table_state: TableSelection,
    pub progress: Option<ProgressEvent>,
    /// Active rendering mode (Cards default; toggled with `v`).
    pub mode: ProjectsMode,
}

impl Default for SniffScreenState {
    fn default() -> (s: SniffScreenState)
        ensures
            s.projects@.len() == 0,
            s.total_size == 0,
            s.scan_root@.len() == 0,
            !s.is_loading,
            s.error.is_none(),
            s.last_refresh.is_none(),
            !s.from_cache,
            s.table_state.selected.is_none(),
            s.progress.is_none(),
            s.mode == ProjectsMode::Cards,
    {
        SniffScreenState {
            projects: Vec::new(),
            total_size: 0,
            scan_root: String::new(),
            is_loading: false,
            error: None,
            last_refresh: None,
            from_cache: false,
            table_state: TableSelection::default(),
            progress: None,
            mode: ProjectsMode::Cards,
        }
    }
}

/// `s` with a different table selection, everything else equal.
pub open spec fn with_sniff_selection(s: SniffScreenState, sel: Option<usize>) -> SniffScreenState {
    SniffScreenState { table_state: TableSelection { selected: sel }, ..s }
}

/// The project the table selection points at, if it is in range.
pub open spec fn selected_project_index(s: SniffScreenState) -> Option<int> {
    match s.table_state.selected {
        Some(i) => if i < s.projects@.len() {
            Some(i as int)
        } else {
            None
        },
        None => None,
    }
}

impl SniffScreenState {
    /// Move the selection one row down (stays on the last row).
    pub fn select_next(&mut self)
        ensures
            *final(self) == with_sniff_selection(
                *old(self),
                select_down(old(self).table_state.selected, old(self).projects@.len() as int),
            ),
    {
        let n = self.projects.len();
        self.table_state.move_down(n);
    }

    /// Move the selection one row up (stays on the first row).
    pub fn select_previous(&mut self)
        ensures
            *final(self) == with_sniff_selection(
                *old(self),
                select_up(old(self).table_state.selected),
            ),
    {
        self.table_state.move_up();
    }

    /// Select the first row, when there is one.
    pub fn select_first(&mut self)
        ensures
            *final(self) == with_sniff_selection(
                *old(self),
                select_top(old(self).table_state.selected, old(self).projects@.len() as int),
            ),
    {
        let n = self.projects.len();
        self.table_state.move_top(n);
    }

    /// Select the last row, when there is one.
    pub fn select_last(&mut self)
        ensures
            *final(self) == with_sniff_selection(
                *old(self),
                select_bottom(old(self).table_state.selected, old(self).projects@.len() as int),
            ),
    {
        let n = self.projects.len();
        self.table_state.move_bottom(n);
    }

    /// The selected project, when the selection is in range.
    pub fn selected_project(&self) -> (r: Option<&ProjectRow>)
        ensures
            r.is_some() == selected_project_index(*self).is_some(),
            r.is_some() ==> *r.unwrap() == self.projects@[selected_project_index(*self).unwrap()],
    {
        match self.table_state.selected {
            Some(i) => if i < self.projects.len() {
                Some(&self.projects[i])
            } else {
                None
            },
            None => None,
        }
    }

    /// Mark a scan as running (which clears any earlier error) or finished.
    pub fn set_loading(&mut self, loading: bool)
        ensures
            *final(self) == (SniffScreenState {
                is_loading: loading,
                error: if loading { None } else { old(self).error },
                ..*old(self)
            }),
    {
        self.is_loading = loading;
        if loading {
            self.error = None;
        }
    }

    /// Forget the scan: rows, totals, root, status, selection and progress;
    /// the rendering mode is kept.
    pub fn clear(&mut self)
        ensures
            final(self).projects@.len() == 0,
            final(self).total_size == 0,
            final(self).scan_root@.len() == 0,
            !final(self).is_loading,
            final(self).error.is_none(),
            final(self).last_refresh.is_none(),
            !final(self).from_cache,
            final(self).table_state.selected.is_none(),
            final(self).progress.is_none(),
            final(self).mode == old(self).mode,
    {
        self.projects.clear();
        self.total_size = 0;
        self.scan_root = String::new();
        self.is_loading = false;
        self.error = None;
        self.last_refresh = None;
        self.from_cache = false;
        self.table_state = TableSelection::default();
        self.progress = None;
    }
}

} // verus!
