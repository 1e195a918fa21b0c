//! Text of the Operations hub: one row per operation, the strip naming the
//! target project, and the notice shown for an operation whose flow is
//! still planned. Also the placeholder texts of the screens that are stubs.

use vstd::prelude::*;
use crate::findings_view::DetailLine;
use crate::operations::{ALL_OPERATIONS, OperationKind, OperationsScreenState, op_key, op_label, op_planned_stage, op_at};
use crate::styled::{
    Emphasis, Piece, PieceView, TextLine, Tone, blank, hint_line, lines_view, piece, piece_str,
    plain_line, pv, single, single_str,
};
use crate::text::{push_char, push_str};

verus! {

broadcast use crate::styled::lemma_lines_push;

/// Hint of the placeholder screens: the way to the Projects screen.
pub const STUB_HINT: &'static str = "press 2 or Tab for Projects";

/// Overview placeholder text.
pub const OVERVIEW_STUB: &'static str = "No projects scanned yet.\nRun `racc sniff` to get started.";

/// Operations placeholder text.
pub const OPERATIONS_STUB: &'static str = "No operations in progress.\nHistory will appear here.";

/// Hint of the tree rendering mode, which is a placeholder.
pub const TREE_STUB_HINT: &'static str = "Tree view — follow-up (V2-T1)";

/// Prompt shown when no project is selected for the hub.
pub const NO_PROJECT_HINT: &'static str = "No project selected — open Projects (2), pick a row, return here.";

/// One operations row: the accent rail when selected, the label (bold
/// primary text when selected, muted otherwise), and the key hint.
pub open spec fn operation_line_text(kind: OperationKind, selected: bool) -> Seq<PieceView> {
    seq![
        if selected {
            pv("▎"@, Tone::Focus, Emphasis::Plain)
        } else {
            pv(" "@, Tone::Fg, Emphasis::Plain)
        },
        pv(
            " "@ + op_label(kind),
            if selected { Tone::Fg } else { Tone::Muted },
            if selected { Emphasis::Bold } else { Emphasis::Plain },
        ),
        pv(" ["@ + seq![op_key(kind)] + "]"@, Tone::Muted, Emphasis::Plain),
    ]
}

/// One operations row; `selected` rows also get the raised background.
pub fn operation_line(kind: OperationKind, state: &OperationsScreenState) -> (r: (TextLine, bool))
    ensures
        r.0@ == operation_line_text(kind, kind == state.selected),
        r.1 == (kind == state.selected),
{
    let selected = kind == state.selected;
    let mut label = String::new();
    push_str(&mut label, " ");
    push_str(&mut label, kind.label());
    let mut hint = String::new();
    push_str(&mut hint, " [");
    push_char(&mut hint, kind.key());
    push_str(&mut hint, "]");
    let mut pieces: Vec<Piece> = Vec::new();
    if selected {
        pieces.push(piece_str("▎", Tone::Focus, Emphasis::Plain));
    } else {
        pieces.push(piece_str(" ", Tone::Fg, Emphasis::Plain));
    }
    pieces.push(piece(
        label,
        if selected { Tone::Fg } else { Tone::Muted },
        if selected { Emphasis::Bold } else { Emphasis::Plain },
    ));
    pieces.push(piece(hint, Tone::Muted, Emphasis::Plain));
    assert(label@ =~= " "@ + op_label(kind));
    assert(hint@ =~= " ["@ + seq![op_key(kind)] + "]"@);
    let l = TextLine { pieces };
    assert(l@ =~= operation_line_text(kind, selected));
    (l, selected)
}

/// The operations list, in hub order.
pub fn operation_lines(state: &OperationsScreenState) -> (v: Vec<(TextLine, bool)>)
    ensures
        v@.len() == 4,
        forall|i: int|
            0 <= i < 4 ==> (#[trigger] v@[i]).0@ == operation_line_text(
                op_at(i),
                op_at(i) == state.selected,
            ) && v@[i].1 == (op_at(i) == state.selected),
{
    proof {
        crate::operations::lemma_all_operations_order();
    }
    let mut v: Vec<(TextLine, bool)> = Vec::new();
    let mut i: usize = 0;
    while i < 4
        invariant
            0 <= i <= 4,
            v@.len() == i,
            forall|j: int| 0 <= j < 4 ==> #[trigger] ALL_OPERATIONS@[j] == op_at(j),
            forall|j: int|
                0 <= j < i ==> (#[trigger] v@[j]).0@ == operation_line_text(
                    op_at(j),
                    op_at(j) == state.selected,
                ) && v@[j].1 == (op_at(j) == state.selected),
        decreases 4 - i,
    {
        v.push(operation_line(ALL_OPERATIONS[i], state));
        i = i + 1;
    }
    v
}

/// The target strip: the project and the highlighted operation, or `None`
/// when no project is selected (the hub then shows [`NO_PROJECT_HINT`]).
pub fn project_strip(state: &OperationsScreenState) -> (d: Option<Vec<DetailLine>>)
    ensures
        d.is_some() == state.project.is_some(),
        d matches Some(lines) ==> lines@.len() == 2 && lines@[0].label@ == "Project"@
            && lines@[0].value == state.project.unwrap() && lines@[0].tone == Tone::Fg
            && lines@[1].label@ == "Operation"@ && lines@[1].value@ == op_label(state.selected)
            && lines@[1].tone == Tone::Fg,
{
    match &state.project {
        Some(path) => {
            let mut lines: Vec<DetailLine> = Vec::new();
            lines.push(DetailLine::new("Project", path.clone()));
            lines.push(DetailLine::new("Operation", state.selected.label().to_string()));
            proof {
                reveal_strlit("Project");
                reveal_strlit("Operation");
            }
            Some(lines)
        },
        None => None,
    }
}

/// The notice of an operation whose flow is planned: it names the stage it
/// arrives in (or "a later stage") and how to dismiss it.
pub open spec fn stub_notice_text(kind: OperationKind) -> Seq<Seq<PieceView>> {
    let stage = match op_planned_stage(kind) {
        Some(s) => s,
        None => "a later stage"@,
    };
    seq![
        Seq::empty(),
        plain_line(op_label(kind) + " is coming in "@ + stage + "."@, Tone::Fg),
        plain_line("The full flow is a separate stage of the CLI→TUI track."@, Tone::Muted),
        Seq::empty(),
        hint_line("Press Esc to dismiss"@),
    ]
}

/// Title and lines of the notice of a planned operation.
pub fn stub_notice(kind: OperationKind) -> (r: (String, Vec<TextLine>))
    ensures
        r.0@ == " "@ + op_label(kind) + " "@,
        lines_view(r.1@) == stub_notice_text(kind),
{
    let mut title = String::new();
    push_str(&mut title, " ");
    push_str(&mut title, kind.label());
    push_str(&mut title, " ");
    let stage: &str = match kind.planned_stage() {
        Some(s) => s,
        None => "a later stage",
    };
    let mut first = String::new();
    push_str(&mut first, kind.label());
    push_str(&mut first, " is coming in ");
    push_str(&mut first, stage);
    push_str(&mut first, ".");
    let mut v: Vec<TextLine> = Vec::new();
    v.push(blank());
    v.push(single(first, Tone::Fg, Emphasis::Plain));
    v.push(single_str("The full flow is a separate stage of the CLI→TUI track.", Tone::Muted, Emphasis::Plain));
    v.push(blank());
    v.push(crate::styled::hint("Press Esc to dismiss"));
    assert(lines_view(v@) =~= stub_notice_text(kind));
    (title, v)
}

} // verus!
