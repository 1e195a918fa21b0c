//! Text of the Findings (dig) screen: what the screen area shows for the
//! dig state, each findings row's cells, and the detail strip of the
//! selected finding. No raw secret value ever reaches this text.

use vstd::prelude::*;
use vstd::string::StrSliceExecFns;
use crate::dig::{DigScreenState, FindingRow, FindingRowView, filter_label, selected_finding_index};
use crate::domain::{ProgressEvent, SensitiveRisk};
use crate::palette::{EMPTY_PLACEHOLDER, GIT_ABSENT_GLYPH, GIT_CLEAN_GLYPH};
use crate::projects_view::{RowBand, band_of, row_band};
use crate::styled::{Emphasis, PieceView, TextLine, Tone, pair, piece, pv};
use crate::text::{decimal, push_decimal, push_str};

verus! {

/// Display name of a risk level.
pub open spec fn risk_text(r: SensitiveRisk) -> Seq<char> {
    match r {
        SensitiveRisk::Low => "Low"@,
        SensitiveRisk::Medium => "Medium"@,
        SensitiveRisk::High => "High"@,
        SensitiveRisk::Critical => "Critical"@,
    }
}

/// Display name of a risk level.
pub fn risk_label(r: SensitiveRisk) -> (s: &'static str)
    ensures
        s@ == risk_text(r),
{
    match r {
        SensitiveRisk::Low => "Low",
        SensitiveRisk::Medium => "Medium",
        SensitiveRisk::High => "High",
        SensitiveRisk::Critical => "Critical",
    }
}

/// Colour of a risk level (the severity ramp).
pub open spec fn risk_tone(r: SensitiveRisk) -> Tone {
    match r {
        SensitiveRisk::Critical => Tone::Danger,
        SensitiveRisk::High => Tone::Warning,
        SensitiveRisk::Medium => Tone::Fg,
        SensitiveRisk::Low => Tone::Muted,
    }
}

/// Colour of a risk level.
pub fn risk_fg(r: SensitiveRisk) -> (t: Tone)
    ensures
        t == risk_tone(r),
{
    match r {
        SensitiveRisk::Critical => Tone::Danger,
        SensitiveRisk::High => Tone::Warning,
        SensitiveRisk::Medium => Tone::Fg,
        SensitiveRisk::Low => Tone::Muted,
    }
}

/// Git glyph and colour of a git status: `tracked` is clean, anything else
/// (unknown included) neutral.
pub open spec fn git_cell(status: Seq<char>) -> (Seq<char>, Tone) {
    if status == "tracked"@ {
        (GIT_CLEAN_GLYPH@, Tone::Success)
    } else {
        (GIT_ABSENT_GLYPH@, Tone::Muted)
    }
}

/// Git glyph and colour of a git status.
pub fn git_cell_for(status: &str) -> (r: (&'static str, Tone))
    ensures
        (r.0@, r.1) == git_cell(status@),
{
    if crate::text::str_eq(status, "tracked") {
        (GIT_CLEAN_GLYPH, Tone::Success)
    } else {
        (GIT_ABSENT_GLYPH, Tone::Muted)
    }
}

/// `text`, or the `·` placeholder when it is empty.
pub open spec fn or_placeholder(text: Seq<char>) -> Seq<char> {
    if text.len() == 0 {
        EMPTY_PLACEHOLDER@
    } else {
        text
    }
}

/// The kind text, or the placeholder when empty.
pub fn kind_or_placeholder(kind: &str) -> (s: &str)
    ensures
        s@ == or_placeholder(kind@),
{
    if kind.unicode_len() == 0 {
        EMPTY_PLACEHOLDER
    } else {
        kind
    }
}

/// The git status, or the placeholder when empty.
pub fn git_or_placeholder(status: &str) -> (s: &str)
    ensures
        s@ == or_placeholder(status@),
{
    if status.unicode_len() == 0 {
        EMPTY_PLACEHOLDER
    } else {
        status
    }
}

/// One label/value row of a detail strip.
#[derive(Debug)]
pub struct DetailLine {
    /// Short field label, e.g. `Risk` or `Path`.
    pub label: &'static str,
    /// Display value; an empty value shows as the `·` placeholder.
    pub value: String,
    /// Colour of the value.
    pub tone: Tone,
}

impl DetailLine {
    /// A row in the primary colour.
    pub fn new(label: &'static str, value: String) -> (d: DetailLine)
        ensures
            d.label == label,
            d.value == value,
            d.tone == Tone::Fg,
    {
        DetailLine { label, value, tone: Tone::Fg }
    }

    /// A row in the muted colour (paths and other secondary metadata).
    pub fn muted(label: &'static str, value: String) -> (d: DetailLine)
        ensures
            d.label == label,
            d.value == value,
            d.tone == Tone::Muted,
    {
        DetailLine { label, value, tone: Tone::Muted }
    }
}

/// A detail row as displayed: `  label: ` muted, then the value (or the
/// placeholder) in the row's colour.
pub open spec fn detail_line_text(label: Seq<char>, value: Seq<char>, tone: Tone) -> Seq<PieceView> {
    seq![
        pv("  "@ + label + ": "@, Tone::Muted, Emphasis::Plain),
        pv(or_placeholder(value), tone, Emphasis::Plain),
    ]
}

/// A detail row as a display line.
pub fn detail_line_to_line(line: &DetailLine) -> (l: TextLine)
    ensures
        l@ == detail_line_text(line.label@, line.value@, line.tone),
{
    let value = if line.value.as_str().unicode_len() == 0 {
        EMPTY_PLACEHOLDER.to_string()
    } else {
        line.value.clone()
    };
    let mut head = String::new();
    push_str(&mut head, "  ");
    push_str(&mut head, line.label);
    push_str(&mut head, ": ");
    pair(piece(head, Tone::Muted, Emphasis::Plain), piece(value, line.tone, Emphasis::Plain))
}

/// The cells of one findings row.
#[derive(Debug)]
pub struct FindingCells {
    /// Whether the row carries the selection accent bar.
    pub selected: bool,
    pub risk: &'static str,
    pub risk_tone: Tone,
    pub path: String,
    pub kind: String,
    pub git_glyph: &'static str,
    pub git_tone: Tone,
    pub band: RowBand,
}

/// The cells a finding shows in row `i` under selection `sel`.
pub open spec fn finding_cells_ok(f: FindingRowView, i: int, sel: Option<usize>, c: FindingCells) -> bool {
    &&& c.selected == (band_of(i, sel) == RowBand::Selected)
    &&& c.risk@ == risk_text(f.risk)
    &&& c.risk_tone == risk_tone(f.risk)
    &&& c.path@ == f.path
    &&& c.kind@ == or_placeholder(f.kind)
    &&& (c.git_glyph@, c.git_tone) == git_cell(f.git_status)
    &&& c.band == band_of(i, sel)
}

/// The cells of findings row `i`.
pub fn finding_row(finding: &FindingRow, i: usize, selected: Option<usize>) -> (c: FindingCells)
    ensures
        finding_cells_ok(finding@, i as int, selected, c),
{
    let band = row_band(i, selected);
    let (git_glyph, git_tone) = git_cell_for(finding.git_status.as_str());
    let is_selected = match band {
        RowBand::Selected => true,
        _ => false,
    };
    FindingCells {
        selected: is_selected,
        risk: risk_label(finding.risk),
        risk_tone: risk_fg(finding.risk),
        path: finding.path.clone(),
        kind: kind_or_placeholder(finding.kind.as_str()).to_string(),
        git_glyph,
        git_tone,
        band,
    }
}

/// What the Findings screen shows.
#[derive(Debug)]
pub enum FindingsScreen {
    /// No project in scope: how to start a dig.
    NoScope { message: String },
    /// A dig is running: its progress, or a generic note.
    Loading { text: String },
    /// The last dig failed.
    Failed { message: String },
    /// No visible findings: the title and the explanation.
    Empty { title: String, message: String },
    /// The findings table and the detail strip of the selected finding.
    Table { title: String, rows: Vec<FindingCells>, detail: Vec<DetailLine> },
}

/// The dig-progress text: `40% — message`, or a generic note.
pub open spec fn digging_text(progress: Option<ProgressEvent>) -> Seq<char> {
    match progress {
        Some(p) => decimal(p.percent as nat) + "% — "@ + p.message@,
        None => "Digging for secrets…"@,
    }
}

/// Title and message when no finding is visible: everything is below the
/// filter (and `f` widens it), or the project has none.
pub open spec fn empty_text(s: DigScreenState) -> (Seq<char>, Seq<char>) {
    if s.all_findings@.len() > 0 {
        (
            " Nothing at "@ + filter_label(s.min_risk) + " "@,
            "All "@ + decimal(s.all_findings@.len()) + " findings fall below the "@ + filter_label(
                s.min_risk,
            ) + " filter — press f to widen."@,
        )
    } else {
        (" No Findings "@, "No sensitive files found in this project."@)
    }
}

/// The table title: ` Findings (N) · masked · FILTER `.
pub open spec fn findings_title(s: DigScreenState) -> Seq<char> {
    " Findings ("@ + decimal(s.findings@.len()) + ") · masked · "@ + filter_label(s.min_risk) + " "@
}

/// The detail strip: the selected finding's risk, path, kind, git status and
/// project; a single empty `Finding` row when nothing is selected.
pub open spec fn detail_ok(s: DigScreenState, d: Seq<DetailLine>) -> bool {
    match (selected_finding_index(s), s.project) {
        (Some(i), Some(p)) => {
            let f = s.findings@[i]@;
            &&& d.len() == 5
            &&& d[0].label@ == "Risk"@ && d[0].value@ == risk_text(f.risk) && d[0].tone == risk_tone(f.risk)
            &&& d[1].label@ == "Path"@ && d[1].value@ == f.path && d[1].tone == Tone::Muted
            &&& d[2].label@ == "Kind"@ && d[2].value@ == or_placeholder(f.kind) && d[2].tone == Tone::Fg
            &&& d[3].label@ == "Git"@ && d[3].value@ == or_placeholder(f.git_status) && d[3].tone == Tone::Fg
            &&& d[4].label@ == "Project"@ && d[4].value@ == p@ && d[4].tone == Tone::Muted
        },
        _ => d.len() == 1 && d[0].label@ == "Finding"@ && d[0].value@.len() == 0 && d[0].tone == Tone::Fg,
    }
}

/// The detail strip of the selected finding.
pub fn finding_detail(state: &DigScreenState) -> (d: Vec<DetailLine>)
    ensures
        detail_ok(*state, d@),
{
    let mut d: Vec<DetailLine> = Vec::new();
    match (state.selected_finding(), &state.project) {
        (Some(finding), Some(project)) => {
            d.push(DetailLine { label: "Risk", value: risk_label(finding.risk).to_string(), tone: risk_fg(finding.risk) });
            d.push(DetailLine::muted("Path", finding.path.clone()));
            d.push(DetailLine::new("Kind", kind_or_placeholder(finding.kind.as_str()).to_string()));
            d.push(DetailLine::new("Git", git_or_placeholder(finding.git_status.as_str()).to_string()));
            d.push(DetailLine::muted("Project", project.clone()));
        },
        _ => {
            d.push(DetailLine::new("Finding", String::new()));
        },
    }
    proof {
        reveal_strlit("Risk");
        reveal_strlit("Path");
        reveal_strlit("Kind");
        reveal_strlit("Git");
        reveal_strlit("Project");
        reveal_strlit("Finding");
    }
    d
}

/// What the Findings screen shows for `s`: the no-scope hint, the dig
/// progress, the error, the empty explanation, or the table (one row per
/// visible finding, in order, banded by the selection) with its detail
/// strip.
pub open spec fn findings_screen_shows(s: DigScreenState, v: FindingsScreen) -> bool {
    if s.project.is_none() {
        v matches FindingsScreen::NoScope { message } && message@
            == "No project selected — press Enter on a project on the Projects screen."@
    } else if s.is_loading {
        v matches FindingsScreen::Loading { text } && text@ == digging_text(s.progress)
    } else if s.error.is_some() {
        v matches FindingsScreen::Failed { message } && message == s.error.unwrap()
    } else if s.findings@.len() == 0 {
        v matches FindingsScreen::Empty { title, message } && (title@, message@) == empty_text(s)
    } else {
        &&& v matches FindingsScreen::Table { title, rows, detail }
        &&& title@ == findings_title(s)
        &&& rows@.len() == s.findings@.len()
        &&& forall|i: int|
            0 <= i < rows@.len() ==> finding_cells_ok(
                s.findings@[i]@,
                i,
                s.table_state.selected,
                #[trigger] rows@[i],
            )
        &&& detail_ok(s, detail@)
    }
}

/// What the Findings screen shows.
pub fn findings_screen(state: &DigScreenState) -> (v: FindingsScreen)
    ensures
        findings_screen_shows(*state, v),
{
    if state.project.is_none() {
        return FindingsScreen::NoScope {
            message: "No project selected — press Enter on a project on the Projects screen.".to_string(),
        };
    }
    if state.is_loading {
        let text = match &state.progress {
            Some(p) => {
                let mut s = String::new();
                push_decimal(&mut s, p.percent as u64);
                push_str(&mut s, "% — ");
                push_str(&mut s, p.message.as_str());
                s
            },
            None => "Digging for secrets…".to_string(),
        };
        assert(text@ =~= digging_text(state.progress));
        return FindingsScreen::Loading { text };
    }
    match &state.error {
        Some(e) => return FindingsScreen::Failed { message: e.clone() },
        None => {},
    }
    if state.findings.len() == 0 {
        let label = state.min_risk.label();
        if state.all_findings.len() > 0 {
            let mut title = String::new();
            push_str(&mut title, " Nothing at ");
            push_str(&mut title, label);
            push_str(&mut title, " ");
            let mut message = String::new();
            push_str(&mut message, "All ");
            push_decimal(&mut message, state.all_findings.len() as u64);
            push_str(&mut message, " findings fall below the ");
            push_str(&mut message, label);
            push_str(&mut message, " filter — press f to widen.");
            assert((title@, message@) =~= empty_text(*state));
            return FindingsScreen::Empty { title, message };
        } else {
            return FindingsScreen::Empty {
                title: " No Findings ".to_string(),
                message: "No sensitive files found in this project.".to_string(),
            };
        }
    }
    let mut rows: Vec<FindingCells> = Vec::new();
    let mut i: usize = 0;
    while i < state.findings.len()
        invariant
            0 <= i <= state.findings@.len(),
            rows@.len() == i,
            forall|j: int|
                0 <= j < i ==> finding_cells_ok(
                    state.findings@[j]@,
                    j,
                    state.table_state.selected,
                    #[trigger] rows@[j],
                ),
        decreases state.findings@.len() - i,
    {
        rows.push(finding_row(&state.findings[i], i, state.table_state.selected));
        i = i + 1;
    }
    let mut title = String::new();
    push_str(&mut title, " Findings (");
    push_decimal(&mut title, state.findings.len() as u64);
    push_str(&mut title, ") · masked · ");
    push_str(&mut title, state.min_risk.label());
    push_str(&mut title, " ");
    assert(title@ =~= findings_title(*state));
    FindingsScreen::Table { title, rows, detail: finding_detail(state) }
}

} // verus!
