//! Dig screen state (Findings view).
//!
//! Holds only display metadata derived from a dig run. Raw secret payloads
//! (the masked content match) never enter this state: [`FindingRow`] has no
//! field for them.

use vstd::prelude::*;
use crate::domain::{
    DigResult, FindingRef, ProgressEvent, SensitiveFile, SensitiveRisk, Timestamp, risk_rank,
};
use crate::paths::{compare_paths, path_order};
use crate::table::{TableSelection, cursor, select_down, select_up, select_top, select_bottom};
use crate::text::{join, join_strings, string_views};

verus! {

broadcast use vstd::seq_lib::group_to_multiset_ensures;

/// A display-only row in the findings table.
#[derive(Debug)]
pub struct FindingRow {
    /// Path of the sensitive file.
    pub path: String,
    /// Computed severity (maximum over all sources).
    pub risk: SensitiveRisk,
    /// What matched (labels joined, e.g. `.env, aws_access_key_id`).
    pub kind: String,
    /// Git status (`tracked`, `untracked`, `ignored`, …); empty when unknown.
    pub git_status: String,
    /// Safe reference for an opt-in reveal of a content match.
    pub content_ref: Option<FindingRef>,
}

/// The plain-value view of a findings row.
pub struct FindingRowView {
    pub path: Seq<char>,
    pub risk: SensitiveRisk,
    pub kind: Seq<char>,
    pub git_status: Seq<char>,
    pub content_ref: Option<FindingRef>,
}

impl View for FindingRow {
    type V = FindingRowView;

    open spec fn view(&self) -> FindingRowView {
        FindingRowView {
            path: self.path@,
            risk: self.risk,
            kind: self.kind@,
            git_status: self.git_status@,
            content_ref: self.content_ref,
        }
    }
}

impl Clone for FindingRow {
    fn clone(&self) -> (r: FindingRow)
        ensures
            r == *self,
    {
        FindingRow {
            path: self.path.clone(),
            risk: self.risk,
            kind: self.kind.clone(),
            git_status: self.git_status.clone(),
            content_ref: match &self.content_ref {
                Some(c) => Some(c.clone()),
                None => None,
            },
        }
    }
}

/// The row a core finding is displayed as: its labels joined with `, `, a
/// missing git status read as empty, and no trace of the content match.
pub open spec fn file_row(f: SensitiveFile) -> FindingRowView {
    FindingRowView {
        path: f.path@,
        risk: f.risk,
        kind: join(string_views(f.labels@), ", "@),
        git_status: match f.git_status {
            Some(g) => g@,
            None => Seq::empty(),
        },
        content_ref: f.content_ref,
    }
}

/// The views of a list of rows.
pub open spec fn row_views(rows: Seq<FindingRow>) -> Seq<FindingRowView> {
    rows.map_values(|r: FindingRow| r@)
}

/// Whether row `a` may stand before row `b` in the findings order (risk
/// descending, then path ascending): `a` is more severe, or both are
/// equally severe and `a`'s path does not sort after `b`'s.
pub open spec fn row_in_order(a: FindingRowView, b: FindingRowView) -> bool {
    risk_rank(a.risk) > risk_rank(b.risk) || (risk_rank(a.risk) == risk_rank(b.risk)
        && path_order(a.path, b.path) <= 0)
}

/// Display order of findings: every row stands in order before every later
/// row.
pub open spec fn rows_sorted(s: Seq<FindingRowView>) -> bool {
    forall|i: int, j: int| 0 <= i < j < s.len() ==> row_in_order(#[trigger] s[i], #[trigger] s[j])
}

/// Map a core finding to a display row, deliberately dropping the content
/// match.
pub fn file_to_row(file: &SensitiveFile) -> (r: FindingRow)
    ensures
        r@ == file_row(*file),
{
    FindingRow {
        path: file.path.clone(),
        risk: file.risk,
        kind: join_strings(&file.labels, ", "),
        git_status: match &file.git_status {
            Some(g) => g.clone(),
            None => String::new(),
        },
        content_ref: match &file.content_ref {
            Some(c) => Some(c.clone()),
            None => None,
        },
    }
}

/// Whether row `a` must move behind row `b`: it is less severe, or equally
/// severe with a path that sorts after `b`'s.
pub open spec fn row_goes_after(a: FindingRowView, b: FindingRowView) -> bool {
    risk_rank(a.risk) < risk_rank(b.risk) || (risk_rank(a.risk) == risk_rank(b.risk)
        && path_order(a.path, b.path) > 0)
}

/// Every path that does not sort after `p` does not sort after `q`
/// either, given that `p` does not sort after `q`.
pub open spec fn path_trans_into(p: Seq<char>, q: Seq<char>) -> bool {
    forall|c: Seq<char>| #[trigger] path_order(c, p) <= 0 && path_order(p, q) <= 0 ==> path_order(c, q) <= 0
}

fn goes_after(a: &FindingRow, b: &FindingRow) -> (r: bool)
    ensures
        r == row_goes_after(a@, b@),
        risk_rank(a.risk) == risk_rank(b.risk) ==> path_order(b.path@, a.path@) == -path_order(
            a.path@,
            b.path@,
        ) && path_trans_into(a.path@, b.path@),
{
    let ra = a.risk.rank();
    let rb = b.risk.rank();
    if ra < rb {
        true
    } else if ra == rb {
        compare_paths(a.path.as_str(), b.path.as_str()) > 0
    } else {
        false
    }
}

proof fn lemma_insert_keeps_sorted(bv: Seq<FindingRowView>, j: int, xv: FindingRowView)
    requires
        rows_sorted(bv),
        0 <= j <= bv.len(),
        j > 0 ==> row_in_order(bv[j - 1], xv),
        j > 0 && risk_rank(bv[j - 1].risk) == risk_rank(xv.risk) ==> path_trans_into(
            bv[j - 1].path,
            xv.path,
        ),
        forall|k: int| j <= k < bv.len() ==> row_in_order(xv, #[trigger] bv[k]),
    ensures
        rows_sorted(bv.insert(j, xv)),
{
    let nv = bv.insert(j, xv);
    assert forall|a: int, b: int| 0 <= a < b < nv.len() implies row_in_order(
        #[trigger] nv[a],
        #[trigger] nv[b],
    ) by {
        if b < j {
            assert(nv[a] == bv[a] && nv[b] == bv[b]);
            assert(row_in_order(bv[a], bv[b]));
        } else if b == j {
            assert(nv[a] == bv[a] && nv[b] == xv);
            if a < j - 1 {
                let p = bv[j - 1];
                assert(row_in_order(bv[a], p));
                if risk_rank(bv[a].risk) == risk_rank(xv.risk) {
                    assert(risk_rank(p.risk) == risk_rank(xv.risk));
                    assert(path_order(bv[a].path, p.path) <= 0);
                    assert(path_trans_into(p.path, xv.path));
                    assert(path_order(bv[a].path, xv.path) <= 0);
                }
            }
        } else if a < j {
            assert(nv[a] == bv[a] && nv[b] == bv[b - 1]);
            assert(row_in_order(bv[a], bv[b - 1]));
        } else if a == j {
            assert(nv[a] == xv && nv[b] == bv[b - 1]);
            assert(row_in_order(xv, bv[b - 1]));
        } else {
            assert(nv[a] == bv[a - 1] && nv[b] == bv[b - 1]);
            assert(row_in_order(bv[a - 1], bv[b - 1]));
        }
    }
}

/// Rows that compare equal in the findings order: equally severe, with
/// paths that compare equal.
pub open spec fn rows_tie(a: FindingRowView, b: FindingRowView) -> bool {
    risk_rank(a.risk) == risk_rank(b.risk) && path_order(a.path, b.path) == 0
}

/// `p` sends each input row to its place in `out`: `out[p[i]]` is
/// `input[i]`, no two rows share a place, and of two rows that compare
/// equal the earlier one stays first.
pub open spec fn places(p: Seq<int>, out: Seq<FindingRowView>, input: Seq<FindingRowView>) -> bool {
    &&& p.len() == input.len()
    &&& out.len() == input.len()
    &&& forall|i: int| 0 <= i < p.len() ==> 0 <= #[trigger] p[i] < out.len() && out[p[i]] == input[i]
    &&& forall|i: int, j: int| 0 <= i < j < p.len() ==> #[trigger] p[i] != #[trigger] p[j]
    &&& forall|i: int, j: int|
        0 <= i < j < p.len() && rows_tie(#[trigger] input[i], #[trigger] input[j]) ==> p[i] < p[j]
}

/// `out` holds the rows of `input`, each once, with rows that compare
/// equal in their input order.
pub open spec fn stable_reorder(out: Seq<FindingRowView>, input: Seq<FindingRowView>) -> bool {
    exists|p: Seq<int>| #[trigger] places(p, out, input)
}

/// The places after inserting a row at `j`: places from `j` on move one
/// further.
pub open spec fn shifted(p: Seq<int>, j: int) -> Seq<int> {
    Seq::new(p.len(), |k: int| if p[k] >= j { p[k] + 1 } else { p[k] })
}

proof fn lemma_insert_places(
    p: Seq<int>,
    bv: Seq<FindingRowView>,
    pre: Seq<FindingRowView>,
    j: int,
    xv: FindingRowView,
)
    requires
        places(p, bv, pre),
        0 <= j <= bv.len(),
        forall|k: int| j <= k < bv.len() ==> row_goes_after(#[trigger] bv[k], xv),
    ensures
        places(shifted(p, j).push(j), bv.insert(j, xv), pre.push(xv)),
{
    let q = shifted(p, j).push(j);
    let nv = bv.insert(j, xv);
    let npre = pre.push(xv);
    assert forall|i: int| 0 <= i < q.len() implies 0 <= #[trigger] q[i] < nv.len() && nv[q[i]]
        == npre[i] by {
        if i < p.len() {
            assert(pre[i] == bv[p[i]]);
        }
    }
    assert forall|a: int, b: int| 0 <= a < b < q.len() implies #[trigger] q[a] != #[trigger] q[b] by {
        if b < p.len() {
            assert(p[a] != p[b]);
        }
    }
    assert forall|a: int, b: int|
        0 <= a < b < q.len() && rows_tie(#[trigger] npre[a], #[trigger] npre[b]) implies q[a] < q[b] by {
        if b < p.len() {
            assert(p[a] < p[b]);
        } else {
            assert(npre[a] == pre[a] && npre[b] == xv);
            if p[a] >= j {
                assert(bv[p[a]] == pre[a]);
                assert(row_goes_after(bv[p[a]], xv));
            }
        }
    }
}

/// Sort findings for display: risk descending, then path ascending; rows
/// that compare equal keep their relative order.
pub fn sort_rows(rows: &mut Vec<FindingRow>)
    ensures
        row_views(final(rows)@).to_multiset() == row_views(old(rows)@).to_multiset(),
        rows_sorted(row_views(final(rows)@)),
        stable_reorder(row_views(final(rows)@), row_views(old(rows)@)),
{
    let mut sorted: Vec<FindingRow> = Vec::new();
    let n = rows.len();
    let mut i: usize = 0;
    let ghost mut p: Seq<int> = Seq::empty();
    while i < n
        invariant
            n == rows@.len(),
            rows@ == old(rows)@,
            0 <= i <= n,
            row_views(sorted@).to_multiset() == row_views(rows@.take(i as int)).to_multiset(),
            rows_sorted(row_views(sorted@)),
            places(p, row_views(sorted@), row_views(rows@.take(i as int))),
        decreases n - i,
    {
        let x = rows[i].clone();
        let mut j: usize = sorted.len();
        loop
            invariant
                0 <= j <= sorted@.len(),
                forall|k: int| j <= k < sorted@.len() ==> row_in_order(x@, #[trigger] sorted@[k]@),
                forall|k: int| j <= k < sorted@.len() ==> row_goes_after(#[trigger] sorted@[k]@, x@),
            ensures
                0 <= j <= sorted@.len(),
                forall|k: int| j <= k < sorted@.len() ==> row_in_order(x@, #[trigger] sorted@[k]@),
                forall|k: int| j <= k < sorted@.len() ==> row_goes_after(#[trigger] sorted@[k]@, x@),
                j > 0 ==> row_in_order(sorted@[j - 1]@, x@),
                j > 0 && risk_rank(sorted@[j - 1]@.risk) == risk_rank(x@.risk) ==> path_trans_into(
                    sorted@[j - 1]@.path,
                    x@.path,
                ),
            decreases j,
        {
            if j == 0 {
                break;
            }
            if goes_after(&sorted[j - 1], &x) {
                j = j - 1;
            } else {
                break;
            }
        }
        let ghost before = sorted@;
        proof {
            let bv = row_views(before);
            assert forall|k: int| j <= k < bv.len() implies row_in_order(x@, #[trigger] bv[k]) by {
                assert(bv[k] == before[k]@);
            }
            if j > 0 {
                assert(bv[j - 1] == before[j - 1]@);
            }
            lemma_insert_keeps_sorted(bv, j as int, x@);
            assert forall|k: int| j <= k < bv.len() implies row_goes_after(#[trigger] bv[k], x@) by {
                assert(bv[k] == before[k]@);
            }
            assert(x@ == rows@[i as int]@);
            lemma_insert_places(p, bv, row_views(rows@.take(i as int)), j as int, x@);
            assert(row_views(rows@.take(i + 1)) =~= row_views(rows@.take(i as int)).push(x@));
            p = shifted(p, j as int).push(j as int);
        }
        sorted.insert(j, x);
        proof {
            assert(row_views(sorted@) =~= row_views(before).insert(j as int, rows@[i as int]@));
            vstd::seq_lib::to_multiset_insert(row_views(before), j as int, rows@[i as int]@);
            assert(row_views(rows@.take(i + 1)) =~= row_views(rows@.take(i as int)).push(
                rows@[i as int]@,
            ));
            vstd::seq_lib::to_multiset_build(
                row_views(rows@.take(i as int)),
                rows@[i as int]@,
            );
        }
        i = i + 1;
    }
    assert(rows@.take(n as int) =~= rows@);
    assert(places(p, row_views(sorted@), row_views(old(rows)@)));
    *rows = sorted;
}


/// Minimum severity shown in the findings table; `f` cycles the steps.
#[derive(Debug, Clone, Copy, PartialEq, Eq, Structural)]
pub enum RiskFilter {
    /// Show every finding.
    ShowAll,
    /// Show only `Critical`.
    OnlyCritical,
    /// Show `High` and above.
    HighAndAbove,
    /// Show `Medium` and above.
    MediumAndAbove,
}

impl Default for RiskFilter {
    fn default() -> (f: RiskFilter)
        ensures
            f == RiskFilter::ShowAll,
    {
        RiskFilter::ShowAll
    }
}

/// The filter step after `f`: all → critical → high+ → medium+ → all.
pub open spec fn next_filter(f: RiskFilter) -> RiskFilter {
    match f {
        RiskFilter::ShowAll => RiskFilter::OnlyCritical,
        RiskFilter::OnlyCritical => RiskFilter::HighAndAbove,
        RiskFilter::HighAndAbove => RiskFilter::MediumAndAbove,
        RiskFilter::MediumAndAbove => RiskFilter::ShowAll,
    }
}

/// The severity floor of a filter (`None` shows everything).
pub open spec fn filter_floor(f: RiskFilter) -> Option<SensitiveRisk> {
    match f {
        RiskFilter::ShowAll => None,
        RiskFilter::OnlyCritical => Some(SensitiveRisk::Critical),
        RiskFilter::HighAndAbove => Some(SensitiveRisk::High),
        RiskFilter::MediumAndAbove => Some(SensitiveRisk::Medium),
    }
}

/// Short label of a filter.
pub open spec fn filter_label(f: RiskFilter) -> Seq<char> {
    match f {
        RiskFilter::ShowAll => "all"@,
        RiskFilter::OnlyCritical => "critical"@,
        RiskFilter::HighAndAbove => "high+"@,
        RiskFilter::MediumAndAbove => "medium+"@,
    }
}

/// Whether a finding of severity `r` is shown under filter `f`.
pub open spec fn shown_under(f: RiskFilter, r: SensitiveRisk) -> bool {
    match filter_floor(f) {
        None => true,
        Some(min) => risk_rank(r) >= risk_rank(min),
    }
}

impl RiskFilter {
    /// Advance one step (stricter → looser → wraps to all).
    pub fn next(self) -> (f: RiskFilter)
        ensures
            f == next_filter(self),
    {
        match self {
            RiskFilter::ShowAll => RiskFilter::OnlyCritical,
            RiskFilter::OnlyCritical => RiskFilter::HighAndAbove,
            RiskFilter::HighAndAbove => RiskFilter::MediumAndAbove,
            RiskFilter::MediumAndAbove => RiskFilter::ShowAll,
        }
    }

    /// Lower bound applied via `risk >= min`; `None` shows everything.
    pub fn min_risk(self) -> (r: Option<SensitiveRisk>)
        ensures
            r == filter_floor(self),
    {
        match self {
            RiskFilter::ShowAll => None,
            RiskFilter::OnlyCritical => Some(SensitiveRisk::Critical),
            RiskFilter::HighAndAbove => Some(SensitiveRisk::High),
            RiskFilter::MediumAndAbove => Some(SensitiveRisk::Medium),
        }
    }

    /// Short label shown in the table title / footer.
    pub fn label(self) -> (s: &'static str)
        ensures
            s@ == filter_label(self),
    {
        match self {
            RiskFilter::ShowAll => "all",
            RiskFilter::OnlyCritical => "critical",
            RiskFilter::HighAndAbove => "high+",
            RiskFilter::MediumAndAbove => "medium+",
        }
    }
}

/// Four `f` presses return to the starting filter; each step keeps showing
/// at least as much as the step before it except the wrap to `critical`.
pub proof fn lemma_filter_cycle(f: RiskFilter, r: SensitiveRisk)
    ensures
        next_filter(next_filter(next_filter(next_filter(f)))) == f,
        shown_under(RiskFilter::ShowAll, r),
        f != RiskFilter::ShowAll ==> (shown_under(f, r) ==> shown_under(next_filter(f), r)),
{
}

/// The rows of `rows` shown under filter `f`, in their order.
pub open spec fn visible_rows(rows: Seq<FindingRowView>, f: RiskFilter) -> Seq<FindingRowView> {
    rows.filter(|r: FindingRowView| shown_under(f, r.risk))
}

/// Selection clamped into a list of `len` rows: cleared on an empty list,
/// otherwise the cursor (first row when nothing was selected) capped at the
/// last row.
pub open spec fn clamped(sel: Option<usize>, len: int) -> Option<usize> {
    if len == 0 {
        None
    } else if cursor(sel) < len - 1 {
        Some(cursor(sel) as usize)
    } else {
        Some((len - 1) as usize)
    }
}

/// State for the dig screen.
#[derive(Debug)]
pub struct DigScreenState {
    /// Every finding from the last successful run, risk desc then path asc.
    pub all_findings: Vec<FindingRow>,
    /// Visible subset after the [`RiskFilter`].
    pub findings: Vec<FindingRow>,
    /// Project directory the current run targets; cleared when the user
    /// leaves the view so re-entry requires a fresh dig.
    pub project: Option<String>,
    pub is_loading: bool,
    pub error: Option<String>,
    /// Whether file contents are scanned in addition to filenames.
    pub scan_content: bool,
    /// Active severity floor (defaults to show everything).
    pub min_risk: RiskFilter,
    pub table_state: TableSelection,
    pub progress: Option<ProgressEvent>,
    pub last_run: Option<Timestamp>,
}

impl Default for DigScreenState {
    fn default() -> (s: DigScreenState)
        ensures
            s.all_findings@.len() == 0,
            s.findings@.len() == 0,
            s.project.is_none(),
            !s.is_loading,
            s.error.is_none(),
            !s.scan_content,
            s.min_risk == RiskFilter::ShowAll,
            s.table_state.selected.is_none(),
            s.progress.is_none(),
            s.last_run.is_none(),
    {
        DigScreenState {
            all_findings: Vec::new(),
            findings: Vec::new(),
            project: None,
            is_loading: false,
            error: None,
            scan_content: false,
            min_risk: RiskFilter::ShowAll,
            table_state: TableSelection::default(),
            progress: None,
            last_run: None,
        }
    }
}

/// `s` with a different table selection, everything else equal.
pub open spec fn with_dig_selection(s: DigScreenState, sel: Option<usize>) -> DigScreenState {
    DigScreenState { table_state: TableSelection { selected: sel }, ..s }
}

/// The finding the table selection points at, if it is in range.
pub open spec fn selected_finding_index(s: DigScreenState) -> Option<int> {
    match s.table_state.selected {
        Some(i) => if i < s.findings@.len() {
            Some(i as int)
        } else {
            None
        },
        None => None,
    }
}

/// What the visible list and selection become when `s` is refiltered:
/// the visible rows are `all_findings` under the filter, the selection is
/// clamped into them, and nothing else changes.
pub open spec fn refiltered(s: DigScreenState, t: DigScreenState) -> bool {
    &&& row_views(t.findings@) == visible_rows(row_views(s.all_findings@), s.min_risk)
    &&& t.table_state.selected == clamped(
        s.table_state.selected,
        visible_rows(row_views(s.all_findings@), s.min_risk).len() as int,
    )
    &&& t.all_findings == s.all_findings
    &&& t.project == s.project
    &&& t.is_loading == s.is_loading
    &&& t.error == s.error
    &&& t.scan_content == s.scan_content
    &&& t.min_risk == s.min_risk
    &&& t.progress == s.progress
    &&& t.last_run == s.last_run
}

/// State `s` after taking dig result `result` is state `t`: the stored
/// findings are exactly the result's files as display rows (as a
/// multiset), sorted risk descending then path ascending with rows that
/// compare equal in the result's order, and the visible list is refiltered
/// from them.
pub open spec fn dig_result_applied(s: DigScreenState, result: DigResult, t: DigScreenState) -> bool {
    &&& row_views(t.all_findings@).to_multiset() == result.files@.map_values(
        |f: SensitiveFile| file_row(f),
    ).to_multiset()
    &&& rows_sorted(row_views(t.all_findings@))
    &&& stable_reorder(
        row_views(t.all_findings@),
        result.files@.map_values(|f: SensitiveFile| file_row(f)),
    )
    &&& refiltered(DigScreenState { all_findings: t.all_findings, ..s }, t)
}

impl DigScreenState {
    /// Replace the run result: map core files to display rows and sort them
    /// (risk desc, then path asc) before applying the current filter.
    pub fn set_dig_result(&mut self, result: DigResult)
        ensures
            dig_result_applied(*old(self), result, *final(self)),
    {
        let mut rows: Vec<FindingRow> = Vec::new();
        let mut i: usize = 0;
        while i < result.files.len()
            invariant
                0 <= i <= result.files@.len(),
                row_views(rows@) =~= result.files@.take(i as int).map_values(
                    |f: SensitiveFile| file_row(f),
                ),
            decreases result.files@.len() - i,
        {
            let r = file_to_row(&result.files[i]);
            let ghost prev = rows@;
            rows.push(r);
            proof {
                assert(rows@ == prev.push(r));
                assert(row_views(rows@) =~= row_views(prev).push(r@));
                assert(result.files@.take(i + 1) =~= result.files@.take(i as int).push(
                    result.files@[i as int],
                ));
                assert(result.files@.take(i + 1).map_values(|f: SensitiveFile| file_row(f))
                    =~= result.files@.take(i as int).map_values(|f: SensitiveFile| file_row(f)).push(
                    file_row(result.files@[i as int]),
                ));
            }
            i = i + 1;
        }
        assert(result.files@.take(result.files@.len() as int) =~= result.files@);
        sort_rows(&mut rows);
        self.all_findings = rows;
        self.reapply_filter();
    }

    /// Recompute the visible list and clamp the selection into range.
    pub fn reapply_filter(&mut self)
        ensures
            refiltered(*old(self), *final(self)),
    {
        let floor = self.min_risk.min_risk();
        let mut visible: Vec<FindingRow> = Vec::new();
        let ghost all = row_views(self.all_findings@);
        let mut i: usize = 0;
        while i < self.all_findings.len()
            invariant
                0 <= i <= self.all_findings@.len(),
                all == row_views(self.all_findings@),
                floor == filter_floor(self.min_risk),
                row_views(visible@) == visible_rows(all.take(i as int), self.min_risk),
            decreases self.all_findings@.len() - i,
        {
            let keep = match floor {
                None => true,
                Some(min) => self.all_findings[i].risk.at_least(min),
            };
            proof {
                assert(all.take(i + 1) =~= all.take(i as int).push(all[i as int]));
                all.take(i as int).lemma_filter_push(
                    all[i as int],
                    |r: FindingRowView| shown_under(self.min_risk, r.risk),
                );
            }
            if keep {
                let r = self.all_findings[i].clone();
                visible.push(r);
                assert(row_views(visible@) =~= visible_rows(all.take(i as int), self.min_risk).push(
                    all[i as int],
                ));
            }
            i = i + 1;
        }
        assert(all.take(self.all_findings@.len() as int) =~= all);
        self.findings = visible;
        self.clamp_selection();
    }

    /// Advance the severity floor and rebuild the visible list.
    pub fn cycle_min_risk(&mut self)
        ensures
            refiltered(
                DigScreenState { min_risk: next_filter(old(self).min_risk), ..*old(self) },
                *final(self),
            ),
    {
        self.min_risk = self.min_risk.next();
        self.reapply_filter();
    }

    /// Move the selection one row down (stays on the last row).
    pub fn select_next(&mut self)
        ensures
            *final(self) == with_dig_selection(
                *old(self),
                select_down(old(self).table_state.selected, old(self).findings@.len() as int),
            ),
    {
        let n = self.findings.len();
        self.table_state.move_down(n);
    }

    /// Move the selection one row up (stays on the first row).
    pub fn select_previous(&mut self)
        ensures
            *final(self) == with_dig_selection(
                *old(self),
                select_up(old(self).table_state.selected),
            ),
    {
        self.table_state.move_up();
    }

    /// Select the first visible row, when there is one.
    pub fn select_first(&mut self)
        ensures
            *final(self) == with_dig_selection(
                *old(self),
                select_top(old(self).table_state.selected, old(self).findings@.len() as int),
            ),
    {
        let n = self.findings.len();
        self.table_state.move_top(n);
    }

    /// Select the last visible row, when there is one.
    pub fn select_last(&mut self)
        ensures
            *final(self) == with_dig_selection(
                *old(self),
                select_bottom(old(self).table_state.selected, old(self).findings@.len() as int),
            ),
    {
        let n = self.findings.len();
        self.table_state.move_bottom(n);
    }

    /// The selected visible finding, when the selection is in range.
    pub fn selected_finding(&self) -> (r: Option<&FindingRow>)
        ensures
            r.is_some() == selected_finding_index(*self).is_some(),
            r.is_some() ==> *r.unwrap() == self.findings@[selected_finding_index(*self).unwrap()],
    {
        match self.table_state.selected {
            Some(i) => if i < self.findings.len() {
                Some(&self.findings[i])
            } else {
                None
            },
            None => None,
        }
    }

    /// Mark a dig as running (which clears any earlier error) or finished.
    pub fn set_loading(&mut self, loading: bool)
        ensures
            *final(self) == (DigScreenState {
                is_loading: loading,
                error: if loading { None } else { old(self).error },
                ..*old(self)
            }),
    {
        self.is_loading = loading;
        if loading {
            self.error = None;
        }
    }

    /// Drop the project scope and reset transient state (results are kept).
    pub fn leave(&mut self)
        ensures
            *final(self) == (DigScreenState {
                project: None,
                is_loading: false,
                progress: None,
                table_state: TableSelection { selected: None },
                ..*old(self)
            }),
    {
        self.project = None;
        self.set_loading(false);
        self.progress = None;
        self.table_state = TableSelection::default();
    }

    /// Forget the run: findings, scope, status, filter, selection, progress.
    pub fn clear(&mut self)
        ensures
            final(self).all_findings@.len() == 0,
            final(self).findings@.len() == 0,
            final(self).project.is_none(),
            !final(self).is_loading,
            final(self).error.is_none(),
            final(self).scan_content == old(self).scan_content,
            final(self).min_risk == RiskFilter::ShowAll,
            final(self).table_state.selected.is_none(),
            final(self).progress.is_none(),
            final(self).last_run.is_none(),
    {
        self.all_findings.clear();
        self.findings.clear();
        self.project = None;
        self.is_loading = false;
        self.error = None;
        self.min_risk = RiskFilter::ShowAll;
        self.table_state = TableSelection::default();
        self.progress = None;
        self.last_run = None;
    }

    fn clamp_selection(&mut self)
        ensures
            final(self).table_state.selected == clamped(
                old(self).table_state.selected,
                old(self).findings@.len() as int,
            ),
            final(self).all_findings == old(self).all_findings,
            final(self).findings == old(self).findings,
            final(self).project == old(self).project,
            final(self).is_loading == old(self).is_loading,
            final(self).error == old(self).error,
            final(self).scan_content == old(self).scan_content,
            final(self).min_risk == old(self).min_risk,
            final(self).progress == old(self).progress,
            final(self).last_run == old(self).last_run,
    {
        if self.findings.len() == 0 {
            self.table_state.select(None);
            return;
        }
        let i = match self.table_state.selected {
            Some(i) => i,
            None => 0,
        };
        let last = self.findings.len() - 1;
        self.table_state.select(Some(if i < last { i } else { last }));
    }
}

} // verus!
