//! Text of the Projects (sniff) table screen: the header line, what the
//! table area shows (scan progress, the error, the empty hint, or the rows
//! with their cells), and the status line.

use vstd::prelude::*;
use crate::domain::ProgressEvent;
use crate::footer::{rfc3339_text, showable};
use crate::sniff::{ProjectRow, SniffScreenState};
use crate::text::{decimal, join, join_strings, push_decimal, push_str, string_views};
use crate::units::{bytes_text, format_bytes};

verus! {

/// Background band of a table row: the selected row, or zebra stripes.
#[derive(Debug, Clone, Copy, PartialEq, Eq, Structural)]
pub enum RowBand {
    Selected,
    Even,
    Odd,
}

/// Band of row `i` when `selected` is the table selection.
pub open spec fn band_of(i: int, selected: Option<usize>) -> RowBand {
    if selected == Some(i as usize) && 0 <= i {
        RowBand::Selected
    } else if i % 2 == 0 {
        RowBand::Even
    } else {
        RowBand::Odd
    }
}

/// Band of row `i` when `selected` is the table selection.
pub fn row_band(i: usize, selected: Option<usize>) -> (b: RowBand)
    ensures
        b == band_of(i as int, selected),
{
    if selected == Some(i) {
        RowBand::Selected
    } else if i % 2 == 0 {
        RowBand::Even
    } else {
        RowBand::Odd
    }
}

/// The cells of one project row.
#[derive(Debug)]
pub struct ProjectCells {
    pub name: String,
    pub language: String,
    pub frameworks: String,
    pub size: String,
    pub git: String,
    pub band: RowBand,
}

/// Plain-value form of [`ProjectCells`] (without the band).
pub struct ProjectCellsView {
    pub name: Seq<char>,
    pub language: Seq<char>,
    pub frameworks: Seq<char>,
    pub size: Seq<char>,
    pub git: Seq<char>,
}

/// The cells a project shows: name, language (or `-`), frameworks joined
/// with `, ` (or `-`), size, and `✓` / `✗` for a git repository.
pub open spec fn project_cells_text(p: ProjectRow) -> ProjectCellsView {
    ProjectCellsView {
        name: p.name@,
        language: match p.language {
            Some(l) => l@,
            None => "-"@,
        },
        frameworks: if p.frameworks@.len() == 0 {
            "-"@
        } else {
            join(string_views(p.frameworks@), ", "@)
        },
        size: bytes_text(p.size_bytes as nat),
        git: if p.is_git_repo {
            "✓"@
        } else {
            "✗"@
        },
    }
}

/// The plain-value form of a row's cells.
pub open spec fn cells_view(c: ProjectCells) -> ProjectCellsView {
    ProjectCellsView {
        name: c.name@,
        language: c.language@,
        frameworks: c.frameworks@,
        size: c.size@,
        git: c.git@,
    }
}

/// The cells of one project row, in band `band`.
pub fn project_cells(project: &ProjectRow, band: RowBand) -> (c: ProjectCells)
    ensures
        cells_view(c) == project_cells_text(*project),
        c.band == band,
{
    let language = match &project.language {
        Some(l) => l.clone(),
        None => "-".to_string(),
    };
    let frameworks = if project.frameworks.len() == 0 {
        "-".to_string()
    } else {
        join_strings(&project.frameworks, ", ")
    };
    ProjectCells {
        name: project.name.clone(),
        language,
        frameworks,
        size: format_bytes(project.size_bytes),
        git: (if project.is_git_repo { "✓" } else { "✗" }).to_string(),
        band,
    }
}

/// The hint the table area shows before any scan.
pub const EMPTY_TABLE_HINT: &'static str = "Run `racc sniff` to detect projects.";

/// What the table area shows.
#[derive(Debug)]
pub enum SniffTable {
    /// A scan is running: its progress, or a generic note.
    Scanning { text: String },
    /// The last scan failed.
    Failed { message: String },
    /// Nothing scanned yet: the hint to scan.
    Empty,
    /// The project rows, under a title with their count.
    Rows { title: String, rows: Vec<ProjectCells> },
}

/// The scan-progress text: `40% — message`, or a generic note before the
/// first event.
pub open spec fn scanning_text(progress: Option<ProgressEvent>) -> Seq<char> {
    match progress {
        Some(p) => decimal(p.percent as nat) + "% — "@ + p.message@,
        None => "Scanning projects…"@,
    }
}

/// The table title: ` Projects (N) `.
pub open spec fn table_title_text(n: nat) -> Seq<char> {
    " Projects ("@ + decimal(n) + ") "@
}

/// The table area for `s`, against table `t`: progress while loading, the
/// error, the empty hint, or one row per project (in order, banded by the
/// selection).
pub open spec fn sniff_table_shows(s: SniffScreenState, t: SniffTable) -> bool {
    if s.is_loading {
        t matches SniffTable::Scanning { text } && text@ == scanning_text(s.progress)
    } else if s.error.is_some() {
        t matches SniffTable::Failed { message } && message == s.error.unwrap()
    } else if s.projects@.len() == 0 {
        t is Empty
    } else {
        &&& t matches SniffTable::Rows { title, rows }
        &&& title@ == table_title_text(s.projects@.len())
        &&& rows@.len() == s.projects@.len()
        &&& forall|i: int|
            0 <= i < rows@.len() ==> cells_view(#[trigger] rows@[i]) == project_cells_text(
                s.projects@[i],
            ) && rows@[i].band == band_of(i, s.table_state.selected)
    }
}

/// What the table area of the Projects screen shows.
pub fn sniff_table(state: &SniffScreenState) -> (t: SniffTable)
    ensures
        sniff_table_shows(*state, t),
{
    if state.is_loading {
        let text = match &state.progress {
            Some(p) => {
                let mut s = String::new();
                push_decimal(&mut s, p.percent as u64);
                push_str(&mut s, "% — ");
                push_str(&mut s, p.message.as_str());
                s
            },
            None => "Scanning projects…".to_string(),
        };
        assert(text@ =~= scanning_text(state.progress));
        return SniffTable::Scanning { text };
    }
    match &state.error {
        Some(e) => return SniffTable::Failed { message: e.clone() },
        None => {},
    }
    if state.projects.len() == 0 {
        return SniffTable::Empty;
    }
    let mut rows: Vec<ProjectCells> = Vec::new();
    let mut i: usize = 0;
    while i < state.projects.len()
        invariant
            0 <= i <= state.projects@.len(),
            rows@.len() == i,
            forall|j: int|
                0 <= j < i ==> cells_view(#[trigger] rows@[j]) == project_cells_text(
                    state.projects@[j],
                ) && rows@[j].band == band_of(j, state.table_state.selected),
        decreases state.projects@.len() - i,
    {
        let band = row_band(i, state.table_state.selected);
        rows.push(project_cells(&state.projects[i], band));
        i = i + 1;
    }
    let mut title = String::new();
    push_str(&mut title, " Projects (");
    push_decimal(&mut title, state.projects.len() as u64);
    push_str(&mut title, ") ");
    assert(title@ =~= table_title_text(state.projects@.len()));
    SniffTable::Rows { title, rows }
}

/// The header summary: project count, total size and scan root.
pub open spec fn header_summary(s: SniffScreenState) -> (Seq<char>, Seq<char>, Seq<char>) {
    (decimal(s.projects@.len()) + " projects"@, bytes_text(s.total_size as nat), s.scan_root@)
}

/// The header summary: project count, total size and scan root.
pub fn header_parts(state: &SniffScreenState) -> (r: (String, String, String))
    ensures
        (r.0@, r.1@, r.2@) == header_summary(*state),
{
    let mut count = String::new();
    push_decimal(&mut count, state.projects.len() as u64);
    push_str(&mut count, " projects");
    assert(count@ =~= decimal(state.projects@.len()) + " projects"@);
    (count, format_bytes(state.total_size), state.scan_root.clone())
}

/// The status line under the table.
pub open spec fn sniff_status_text(s: SniffScreenState) -> Seq<char> {
    if s.is_loading {
        "Loading…"@
    } else if s.error.is_some() {
        "Error — press [r] to retry"@
    } else if s.projects@.len() == 0 {
        "No projects found — press [r] to scan"@
    } else {
        "Last refresh: "@ + match s.last_refresh {
            Some(t) => rfc3339_text(t.secs, t.nanos),
            None => "unknown"@,
        } + if s.from_cache {
            " (from cache)"@
        } else {
            ""@
        }
    }
}

/// The status line under the table.
pub fn status_text(state: &SniffScreenState) -> (r: String)
    requires
        state.last_refresh matches Some(t) ==> showable(t),
    ensures
        r@ == sniff_status_text(*state),
{
    if state.is_loading {
        "Loading…".to_string()
    } else if state.error.is_some() {
        "Error — press [r] to retry".to_string()
    } else if state.projects.len() == 0 {
        "No projects found — press [r] to scan".to_string()
    } else {
        let timestamp = match state.last_refresh {
            Some(t) => crate::footer::format_timestamp(t),
            None => "unknown".to_string(),
        };
        let mut s = String::new();
        push_str(&mut s, "Last refresh: ");
        push_str(&mut s, timestamp.as_str());
        push_str(&mut s, if state.from_cache { " (from cache)" } else { "" });
        assert(s@ =~= sniff_status_text(*state));
        s
    }
}

} // verus!
