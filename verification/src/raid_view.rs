//! Text of the raid modal for each phase of the flow. It never holds raw
//! secret material: the passphrase entry shows one dot per character.

use vstd::prelude::*;
use crate::domain::{OrchestrationMode, RaidResult, StageOutcome};
use crate::passphrase::{PassphraseInput, PassphraseStep};
use crate::paths::{file_name, path_file_name, path_relative_to, strip_prefix};
use crate::raid::{FlowPhase, PhaseLine, RaidFlow, pipeline_view, planned_phases};
use crate::styled::{
    Emphasis, Piece, PieceView, TextLine, Tone, blank, bold, bold_line, hint, hint_line,
    lines_view, pad_left, pair, piece, piece_str, plain_line, pv, repeated, row, row_line,
    single, single_str, toggled, toggled_line, push_padded_left, push_repeated,
};
use crate::text::{decimal, push_decimal, push_str, to_upper, uppercased};

verus! {

broadcast use crate::styled::lemma_lines_push;

/// Final component of a path, or `-` when it has none.
pub open spec fn name_or_dash(p: Seq<char>) -> Seq<char> {
    match path_file_name(p) {
        Some(n) => n,
        None => "-"@,
    }
}

/// `path` relative to the den directory, or `path` itself when it lies
/// outside it.
pub open spec fn den_relative_text(den_dir: Seq<char>, path: Seq<char>) -> Seq<char> {
    match path_relative_to(path, den_dir) {
        Some(r) => r,
        None => path,
    }
}

/// `path` relative to the den directory, or `path` itself when it lies
/// outside it.
pub fn den_relative(den_dir: &str, path: &str) -> (s: String)
    ensures
        s@ == den_relative_text(den_dir@, path@),
{
    match strip_prefix(path, den_dir) {
        Some(r) => r,
        None => path.to_string(),
    }
}

/// Final component of `p`, or `-`.
fn name_or_dash_string(p: &str) -> (s: String)
    ensures
        s@ == name_or_dash(p@),
{
    match file_name(p) {
        Some(n) => n,
        None => "-".to_string(),
    }
}

/// Badge text of an orchestration mode.
pub open spec fn mode_badge_text(mode: OrchestrationMode) -> Seq<char> {
    match mode {
        OrchestrationMode::Atomic => "ATOMIC"@,
        OrchestrationMode::FailFast => "FAIL-FAST"@,
    }
}

/// Badge text of an orchestration mode.
pub fn mode_badge(mode: OrchestrationMode) -> (s: &'static str)
    ensures
        s@ == mode_badge_text(mode),
{
    match mode {
        OrchestrationMode::Atomic => "ATOMIC",
        OrchestrationMode::FailFast => "FAIL-FAST",
    }
}

/// One-word verdict of a raid result.
pub open spec fn verdict_text(r: RaidResult) -> Seq<char> {
    if r.success {
        "Success"@
    } else if r.rolled_back {
        "Rolled back"@
    } else {
        "Failed"@
    }
}

/// One-word verdict of a raid result.
pub fn result_verdict(result: &RaidResult) -> (s: &'static str)
    ensures
        s@ == verdict_text(*result),
{
    if result.success {
        "Success"
    } else if result.rolled_back {
        "Rolled back"
    } else {
        "Failed"
    }
}

/// Title of the modal for each phase, with its colour.
pub open spec fn banner(flow: RaidFlow) -> (Seq<char>, Tone) {
    match flow.phase {
        FlowPhase::Preparing => ("Raid — preparing"@, Tone::Focus),
        FlowPhase::Preview(_) => ("Raid — preview (dry run)"@, Tone::Focus),
        FlowPhase::Passphrase(_) => ("Raid — passphrase"@, Tone::Warning),
        FlowPhase::Running => ("Raid — running"@, Tone::Focus),
        FlowPhase::Done(r) => if r.success {
            ("Raid — success"@, Tone::Success)
        } else if r.rolled_back {
            ("Raid — rolled back"@, Tone::Warning)
        } else {
            ("Raid — failed"@, Tone::Danger)
        },
        FlowPhase::Failed(_) => ("Raid — failed"@, Tone::Danger),
    }
}

/// Title of the modal for the flow's phase, with its colour.
pub fn phase_banner(flow: &RaidFlow) -> (r: (&'static str, Tone))
    ensures
        (r.0@, r.1) == banner(*flow),
{
    match &flow.phase {
        FlowPhase::Preparing => ("Raid — preparing", Tone::Focus),
        FlowPhase::Preview(_) => ("Raid — preview (dry run)", Tone::Focus),
        FlowPhase::Passphrase(_) => ("Raid — passphrase", Tone::Warning),
        FlowPhase::Running => ("Raid — running", Tone::Focus),
        FlowPhase::Done(result) => if result.success {
            ("Raid — success", Tone::Success)
        } else if result.rolled_back {
            ("Raid — rolled back", Tone::Warning)
        } else {
            ("Raid — failed", Tone::Danger)
        },
        FlowPhase::Failed(_) => ("Raid — failed", Tone::Danger),
    }
}

/// Width of the progress bar track.
pub open spec fn bar_width() -> nat {
    24
}

/// The progress bar line: filled cells for the reported percent (capped at
/// 100), empty cells for the rest, then the percent.
pub open spec fn progress_bar_line(percent: u8) -> Seq<PieceView> {
    let p = if percent > 100 {
        100
    } else {
        percent as nat
    };
    let filled = (p * bar_width() / 100) as nat;
    seq![
        pv("  "@, Tone::Fg, Emphasis::Plain),
        pv(
            repeated('█', filled) + repeated('░', (bar_width() - filled) as nat) + "  "@ + decimal(
                percent as nat,
            ) + "%"@,
            Tone::Focus,
            Emphasis::Plain,
        ),
    ]
}

/// The progress bar line for `percent` (as reported by the core).
pub fn progress_bar(percent: u8) -> (l: TextLine)
    ensures
        l@ == progress_bar_line(percent),
{
    let p: usize = if percent > 100 {
        100
    } else {
        percent as usize
    };
    let filled = p * 24 / 100;
    let mut bar = String::new();
    push_repeated(&mut bar, '█', filled);
    push_repeated(&mut bar, '░', 24 - filled);
    push_str(&mut bar, "  ");
    push_decimal(&mut bar, percent as u64);
    push_str(&mut bar, "%");
    assert(bar@ =~= repeated('█', filled as nat) + repeated('░', (24 - filled) as nat) + "  "@
        + decimal(percent as nat) + "%"@);
    pair(piece_str("  ", Tone::Fg, Emphasis::Plain), piece(bar, Tone::Focus, Emphasis::Plain))
}

/// Glyph and colour of a pipeline row: done, current, or pending.
pub open spec fn pipeline_mark(done: bool, current: bool) -> (Seq<char>, Tone) {
    if done {
        ("✓"@, Tone::Success)
    } else if current {
        ("→"@, Tone::Focus)
    } else {
        ("○"@, Tone::Muted)
    }
}

/// One pipeline row: glyph and upper-cased phase name in the row's colour.
pub open spec fn pipeline_row_line(name: Seq<char>, done: bool, current: bool) -> Seq<PieceView> {
    let m = pipeline_mark(done, current);
    seq![
        pv("  "@, Tone::Fg, Emphasis::Plain),
        pv(m.0, m.1, Emphasis::Plain),
        pv(" "@, Tone::Fg, Emphasis::Plain),
        pv(uppercased(name), m.1, Emphasis::Plain),
    ]
}

/// One pipeline row.
pub fn pipeline_row(name: &str, done: bool, current: bool) -> (l: TextLine)
    ensures
        l@ == pipeline_row_line(name@, done, current),
{
    let (glyph, tone) = if done {
        ("✓", Tone::Success)
    } else if current {
        ("→", Tone::Focus)
    } else {
        ("○", Tone::Muted)
    };
    let mut pieces: Vec<Piece> = Vec::new();
    pieces.push(piece_str("  ", Tone::Fg, Emphasis::Plain));
    pieces.push(piece_str(glyph, tone, Emphasis::Plain));
    pieces.push(piece_str(" ", Tone::Fg, Emphasis::Plain));
    pieces.push(piece(to_upper(name), tone, Emphasis::Plain));
    let l = TextLine { pieces };
    assert(l@ =~= pipeline_row_line(name@, done, current));
    l
}

/// The phase-plan row of the preview: the planned phases before `move`,
/// joined with ` · `; a skipped stash is shown dimmed as `stash (skip)`.
pub open spec fn phases_row_line(skip_stash: bool) -> Seq<PieceView> {
    let head = seq![pv("  phases"@, Tone::Muted, Emphasis::Plain), pv("  "@, Tone::Fg, Emphasis::Plain)];
    if skip_stash {
        head + seq![
            pv("rinse"@, Tone::Focus, Emphasis::Plain),
            pv(" · "@, Tone::Fg, Emphasis::Plain),
            pv("pack"@, Tone::Focus, Emphasis::Plain),
        ]
    } else {
        head + seq![
            pv("stash"@, Tone::Focus, Emphasis::Plain),
            pv(" · "@, Tone::Fg, Emphasis::Plain),
            pv("rinse"@, Tone::Focus, Emphasis::Plain),
            pv(" · "@, Tone::Fg, Emphasis::Plain),
            pv("pack"@, Tone::Focus, Emphasis::Plain),
        ]
    }
}

/// The phase-plan row of the preview.
pub fn phases_row(flow: &RaidFlow) -> (l: TextLine)
    ensures
        l@ == phases_row_line(flow.options.skip_stash),
{
    let mut pieces: Vec<Piece> = Vec::new();
    pieces.push(piece_str("  phases", Tone::Muted, Emphasis::Plain));
    pieces.push(piece_str("  ", Tone::Fg, Emphasis::Plain));
    if !flow.options.skip_stash {
        pieces.push(piece_str("stash", Tone::Focus, Emphasis::Plain));
        pieces.push(piece_str(" · ", Tone::Fg, Emphasis::Plain));
    }
    pieces.push(piece_str("rinse", Tone::Focus, Emphasis::Plain));
    pieces.push(piece_str(" · ", Tone::Fg, Emphasis::Plain));
    pieces.push(piece_str("pack", Tone::Focus, Emphasis::Plain));
    let l = TextLine { pieces };
    assert(l@ =~= phases_row_line(flow.options.skip_stash));
    l
}

/// The preview: project, mode, phase plan, risk floor, the two toggles,
/// the dry-run note and the key hint.
pub open spec fn preview_text(flow: RaidFlow) -> Seq<Seq<PieceView>> {
    seq![
        row_line("Project"@, name_or_dash(flow.project@), Tone::Fg),
        row_line("Mode"@, mode_badge_text(flow.options.mode), Tone::Focus),
        phases_row_line(flow.options.skip_stash),
        row_line("min-risk"@, "High"@, Tone::Fg),
        toggled_line("keep-sources"@, flow.options.keep_sources),
        toggled_line("skip-stash"@, flow.options.skip_stash),
        Seq::empty(),
        plain_line("  dry-run: nothing will be written to the den"@, Tone::Muted),
        Seq::empty(),
        hint_line("  y/Enter confirm · K keep-src · S skip-stash · m mode · n/Esc cancel"@),
    ]
}

/// The preview lines.
pub fn preview_lines(flow: &RaidFlow) -> (v: Vec<TextLine>)
    ensures
        lines_view(v@) == preview_text(*flow),
{
    let project = name_or_dash_string(flow.project.as_str());
    let mut v: Vec<TextLine> = Vec::new();
    v.push(row("Project", project.as_str(), Tone::Fg));
    v.push(row("Mode", mode_badge(flow.options.mode), Tone::Focus));
    v.push(phases_row(flow));
    v.push(row("min-risk", "High", Tone::Fg));
    v.push(toggled("keep-sources", flow.options.keep_sources));
    v.push(toggled("skip-stash", flow.options.skip_stash));
    v.push(blank());
    v.push(single_str("  dry-run: nothing will be written to the den", Tone::Muted, Emphasis::Plain));
    v.push(blank());
    v.push(hint("  y/Enter confirm · K keep-src · S skip-stash · m mode · n/Esc cancel"));
    assert(lines_view(v@) =~= preview_text(*flow));
    v
}

/// The dots standing in for `n` typed characters (a space when none).
pub open spec fn dots(n: nat) -> Seq<char> {
    if n == 0 {
        " "@
    } else {
        repeated('•', n)
    }
}

/// The passphrase entry: the prompt of the active input, one dot per
/// typed character, the key hint, and the last error if any.
pub open spec fn passphrase_text(step: PassphraseStep, first_len: nat, confirm_len: nat, error: Option<Seq<char>>) -> Seq<Seq<PieceView>> {
    let confirm = step == PassphraseStep::Confirm;
    let n = if confirm {
        confirm_len
    } else {
        first_len
    };
    let prompt = if confirm {
        "  enter passphrase (repeat):"@
    } else {
        "  enter passphrase (first):"@
    };
    let base = seq![
        plain_line(prompt, Tone::Fg),
        seq![pv("  "@, Tone::Fg, Emphasis::Plain), pv(dots(n), Tone::Focus, Emphasis::Plain)],
        Seq::empty(),
        hint_line("  Enter confirm · Backspace delete · Esc cancel"@),
    ];
    match error {
        Some(e) => base.push(plain_line("  "@ + e, Tone::Danger)),
        None => base,
    }
}

/// The passphrase entry lines (never the typed value).
pub fn passphrase_lines(input: &PassphraseInput) -> (v: Vec<TextLine>)
    ensures
        lines_view(v@) == passphrase_text(
            input@.step,
            input@.first.len(),
            input@.confirm.len(),
            input@.error,
        ),
{
    let confirm = input.step().is_confirm();
    let n = if confirm {
        input.confirm_len()
    } else {
        input.first_len()
    };
    let prompt = if confirm {
        "  enter passphrase (repeat):"
    } else {
        "  enter passphrase (first):"
    };
    let mut shown = String::new();
    if n == 0 {
        push_str(&mut shown, " ");
    } else {
        push_repeated(&mut shown, '•', n);
    }
    assert(shown@ =~= dots(n as nat));
    let mut v: Vec<TextLine> = Vec::new();
    v.push(single_str(prompt, Tone::Fg, Emphasis::Plain));
    v.push(pair(piece_str("  ", Tone::Fg, Emphasis::Plain), piece(shown, Tone::Focus, Emphasis::Plain)));
    v.push(blank());
    v.push(hint("  Enter confirm · Backspace delete · Esc cancel"));
    match input.error() {
        Some(e) => {
            let mut t = String::new();
            push_str(&mut t, "  ");
            push_str(&mut t, e);
            v.push(single(t, Tone::Danger, Emphasis::Plain));
        },
        None => {},
    }
    assert(lines_view(v@) =~= passphrase_text(
        input@.step,
        input@.first.len(),
        input@.confirm.len(),
        input@.error,
    ));
    v
}

/// The running screen: progress bar, the pipeline (the planned phases, the
/// first one current, until the first event builds it), the latest
/// message and the hint that Esc does not cancel.
pub open spec fn running_text(flow: RaidFlow) -> Seq<Seq<PieceView>> {
    let planned = planned_phases(flow.options.skip_stash);
    let rows = if flow.pipeline@.len() == 0 {
        Seq::new(planned.len(), |i: int| pipeline_row_line(planned[i], false, i == 0))
    } else {
        Seq::new(
            flow.pipeline@.len(),
            |i: int|
                pipeline_row_line(
                    pipeline_view(flow.pipeline@)[i].name,
                    pipeline_view(flow.pipeline@)[i].done,
                    pipeline_view(flow.pipeline@)[i].current,
                ),
        )
    };
    seq![progress_bar_line(flow.overall_percent), Seq::empty()] + rows + seq![
        Seq::empty(),
        plain_line(flow.message@, Tone::Muted),
        Seq::empty(),
        hint_line("  running… Esc does not cancel"@),
    ]
}

/// The running screen lines.
pub fn running_lines(flow: &RaidFlow) -> (v: Vec<TextLine>)
    ensures
        lines_view(v@) == running_text(*flow),
{
    let mut v: Vec<TextLine> = Vec::new();
    v.push(progress_bar(flow.overall_percent));
    v.push(blank());
    let ghost head = lines_view(v@);
    if flow.pipeline.len() == 0 {
        let names = flow.planned_names();
        let ghost planned = planned_phases(flow.options.skip_stash);
        let mut i: usize = 0;
        while i < names.len()
            invariant
                0 <= i <= names.len(),
                names@.map_values(|s: &str| s@) == planned,
                head.len() == 2,
                lines_view(v@) == head + Seq::new(
                    i as nat,
                    |j: int| pipeline_row_line(planned[j], false, j == 0),
                ),
            decreases names.len() - i,
        {
            assert(names@.map_values(|s: &str| s@)[i as int] == names@[i as int]@);
            let row = pipeline_row(names[i], false, i == 0);
            v.push(row);
            assert(lines_view(v@) =~= head + Seq::new(
                (i + 1) as nat,
                |j: int| pipeline_row_line(planned[j], false, j == 0),
            ));
            i = i + 1;
        }
    } else {
        let ghost p = pipeline_view(flow.pipeline@);
        let mut i: usize = 0;
        while i < flow.pipeline.len()
            invariant
                0 <= i <= flow.pipeline@.len(),
                p == pipeline_view(flow.pipeline@),
                head.len() == 2,
                lines_view(v@) == head + Seq::new(
                    i as nat,
                    |j: int| pipeline_row_line(p[j].name, p[j].done, p[j].current),
                ),
            decreases flow.pipeline@.len() - i,
        {
            let line: &PhaseLine = &flow.pipeline[i];
            assert(p[i as int] == line@);
            let row = pipeline_row(line.name.as_str(), line.done, line.current);
            v.push(row);
            assert(lines_view(v@) =~= head + Seq::new(
                (i + 1) as nat,
                |j: int| pipeline_row_line(p[j].name, p[j].done, p[j].current),
            ));
            i = i + 1;
        }
    }
    v.push(blank());
    v.push(single(flow.message.clone(), Tone::Muted, Emphasis::Plain));
    v.push(blank());
    v.push(hint("  running… Esc does not cancel"));
    assert(lines_view(v@) =~= running_text(*flow));
    v
}

/// Glyph and colour of a stage outcome: skipped, ok, or failed.
pub open spec fn stage_mark(s: StageOutcome) -> (Seq<char>, Tone) {
    if s.skipped {
        ("skip"@, Tone::Muted)
    } else if s.success {
        ("ok"@, Tone::Success)
    } else {
        ("fail"@, Tone::Danger)
    }
}

/// A stage-outcome row: the mark right-aligned in four columns, then the
/// upper-cased stage name.
pub open spec fn stage_row_line(s: StageOutcome) -> Seq<PieceView> {
    seq![
        pv("  "@ + pad_left(stage_mark(s).0, 4), stage_mark(s).1, Emphasis::Plain),
        pv("  "@, Tone::Fg, Emphasis::Plain),
        pv(uppercased(s.name@), Tone::Fg, Emphasis::Plain),
    ]
}

/// Whether a stage failed (ran and did not succeed).
pub open spec fn stage_failed(s: StageOutcome) -> bool {
    !s.success && !s.skipped
}

/// The result screen: the verdict (with the rollback warning count, or the
/// failed stages and their messages), every stage's outcome, the Fail-Fast
/// warning, up to five den-relative artifacts (and how many more), and the
/// close hint.
pub open spec fn done_text(flow: RaidFlow, r: RaidResult) -> Seq<Seq<PieceView>> {
    let verdict = done_text_verdict(r);
    let stages = r.stages@.map_values(|s: StageOutcome| stage_row_line(s));
    let fail_fast = if flow.options.mode == OrchestrationMode::FailFast {
        seq![Seq::empty(), plain_line("  Fail-Fast: artifacts already placed may remain in the den"@, Tone::Warning)]
    } else {
        Seq::empty()
    };
    let n = r.den_artifacts@.len();
    let shown = if n > 5 { 5 } else { n };
    let artifacts = if n > 0 {
        seq![Seq::empty(), plain_line("  artifacts:"@, Tone::Focus)] + Seq::new(
            shown,
            |i: int| plain_line("    "@ + den_relative_text(flow.den_dir@, r.den_artifacts@[i]@), Tone::Fg),
        ) + if n > 5 {
            seq![plain_line("    +"@ + decimal((n - 5) as nat) + " more"@, Tone::Muted)]
        } else {
            Seq::empty()
        }
    } else {
        Seq::empty()
    };
    verdict + seq![Seq::empty()] + stages + fail_fast + artifacts + seq![Seq::empty(), hint_line("  Enter/Esc close"@)]
}

/// The verdict lines of a result.
fn verdict_lines(result: &RaidResult, v: &mut Vec<TextLine>)
    ensures
        lines_view(final(v)@) == lines_view(old(v)@) + done_text_verdict(*result),
{
    let ghost start = lines_view(v@);
    if result.success {
        let mut t = String::new();
        push_str(&mut t, "  ");
        push_str(&mut t, result_verdict(result));
        v.push(bold(t, Tone::Success));
        assert(lines_view(v@) =~= start + done_text_verdict(*result));
    } else if result.rolled_back {
        v.push(bold("  Rolled back to the pre-raid state".to_string(), Tone::Warning));
        if result.rollback_warnings.len() > 0 {
            let mut t = String::new();
            push_str(&mut t, "  ");
            push_decimal(&mut t, result.rollback_warnings.len() as u64);
            push_str(&mut t, " warnings while rolling back");
            v.push(single(t, Tone::Warning, Emphasis::Plain));
        }
        assert(lines_view(v@) =~= start + done_text_verdict(*result));
    } else {
        v.push(bold("  Failed".to_string(), Tone::Danger));
        let ghost stages = result.stages@;
        let ghost after_head = lines_view(v@);
        let mut i: usize = 0;
        while i < result.stages.len()
            invariant
                0 <= i <= result.stages@.len(),
                stages == result.stages@,
                lines_view(v@) == after_head + stages.take(i as int).filter(
                    |s: StageOutcome| stage_failed(s),
                ).map_values(
                    |s: StageOutcome| plain_line("  "@ + s.name@ + " — "@ + s.message@, Tone::Danger),
                ),
            decreases result.stages@.len() - i,
        {
            let stage = &result.stages[i];
            proof {
                assert(stages.take(i + 1) =~= stages.take(i as int).push(stages[i as int]));
                stages.take(i as int).lemma_filter_push(stages[i as int], |s: StageOutcome| stage_failed(s));
            }
            if !stage.success && !stage.skipped {
                let mut t = String::new();
                push_str(&mut t, "  ");
                push_str(&mut t, stage.name.as_str());
                push_str(&mut t, " — ");
                push_str(&mut t, stage.message.as_str());
                let l = single(t, Tone::Danger, Emphasis::Plain);
                v.push(l);
            }
            assert(lines_view(v@) =~= after_head + stages.take(i + 1).filter(
                |s: StageOutcome| stage_failed(s),
            ).map_values(
                |s: StageOutcome| plain_line("  "@ + s.name@ + " — "@ + s.message@, Tone::Danger),
            ));
            i = i + 1;
        }
        assert(stages.take(stages.len() as int) =~= stages);
        assert(lines_view(v@) =~= start + done_text_verdict(*result));
    }
}

/// The verdict part of [`done_text`].
pub open spec fn done_text_verdict(r: RaidResult) -> Seq<Seq<PieceView>> {
    if r.success {
        seq![bold_line("  "@ + verdict_text(r), Tone::Success)]
    } else if r.rolled_back {
        seq![bold_line("  Rolled back to the pre-raid state"@, Tone::Warning)] + if r.rollback_warnings@.len() > 0 {
            seq![plain_line("  "@ + decimal(r.rollback_warnings@.len()) + " warnings while rolling back"@, Tone::Warning)]
        } else {
            Seq::empty()
        }
    } else {
        seq![bold_line("  Failed"@, Tone::Danger)] + r.stages@.filter(|s: StageOutcome| stage_failed(s)).map_values(
            |s: StageOutcome| plain_line("  "@ + s.name@ + " — "@ + s.message@, Tone::Danger),
        )
    }
}

/// One stage-outcome row.
fn stage_row(stage: &StageOutcome) -> (l: TextLine)
    ensures
        l@ == stage_row_line(*stage),
{
    let (glyph, tone) = if stage.skipped {
        ("skip", Tone::Muted)
    } else if stage.success {
        ("ok", Tone::Success)
    } else {
        ("fail", Tone::Danger)
    };
    let mut mark = String::new();
    push_str(&mut mark, "  ");
    push_padded_left(&mut mark, glyph, 4);
    let mut pieces: Vec<Piece> = Vec::new();
    pieces.push(piece(mark, tone, Emphasis::Plain));
    pieces.push(piece_str("  ", Tone::Fg, Emphasis::Plain));
    pieces.push(piece(to_upper(stage.name.as_str()), Tone::Fg, Emphasis::Plain));
    let l = TextLine { pieces };
    assert(l@ =~= stage_row_line(*stage));
    l
}

/// The result screen lines.
pub fn done_lines(flow: &RaidFlow, result: &RaidResult) -> (v: Vec<TextLine>)
    ensures
        lines_view(v@) == done_text(*flow, *result),
{
    let mut v: Vec<TextLine> = Vec::new();
    verdict_lines(result, &mut v);
    v.push(blank());
    let ghost head = lines_view(v@);
    let mut i: usize = 0;
    while i < result.stages.len()
        invariant
            0 <= i <= result.stages@.len(),
            lines_view(v@) == head + result.stages@.take(i as int).map_values(
                |s: StageOutcome| stage_row_line(s),
            ),
        decreases result.stages@.len() - i,
    {
        let l = stage_row(&result.stages[i]);
        v.push(l);
        assert(lines_view(v@) =~= head + result.stages@.take(i + 1).map_values(
            |s: StageOutcome| stage_row_line(s),
        ));
        i = i + 1;
    }
    assert(result.stages@.take(result.stages@.len() as int) =~= result.stages@);
    let ghost after_stages = lines_view(v@);
    match flow.options.mode {
        OrchestrationMode::FailFast => {
            v.push(blank());
            v.push(single_str(
                "  Fail-Fast: artifacts already placed may remain in the den",
                Tone::Warning,
                Emphasis::Plain,
            ));
        },
        OrchestrationMode::Atomic => {},
    }
    let ghost after_mode = lines_view(v@);
    let n = result.den_artifacts.len();
    if n > 0 {
        v.push(blank());
        v.push(single_str("  artifacts:", Tone::Focus, Emphasis::Plain));
        let shown = if n > 5 {
            5
        } else {
            n
        };
        let ghost list_head = lines_view(v@);
        let mut k: usize = 0;
        while k < shown
            invariant
                0 <= k <= shown,
                shown <= n,
                n == result.den_artifacts@.len(),
                lines_view(v@) == list_head + Seq::new(
                    k as nat,
                    |j: int|
                        plain_line(
                            "    "@ + den_relative_text(flow.den_dir@, result.den_artifacts@[j]@),
                            Tone::Fg,
                        ),
                ),
            decreases shown - k,
        {
            let mut t = String::new();
            push_str(&mut t, "    ");
            let rel = den_relative(flow.den_dir.as_str(), result.den_artifacts[k].as_str());
            push_str(&mut t, rel.as_str());
            let l = single(t, Tone::Fg, Emphasis::Plain);
            v.push(l);
            assert(lines_view(v@) =~= list_head + Seq::new(
                (k + 1) as nat,
                |j: int|
                    plain_line(
                        "    "@ + den_relative_text(flow.den_dir@, result.den_artifacts@[j]@),
                        Tone::Fg,
                    ),
            ));
            k = k + 1;
        }
        if n > 5 {
            let mut t = String::new();
            push_str(&mut t, "    +");
            push_decimal(&mut t, (n - 5) as u64);
            push_str(&mut t, " more");
            v.push(single(t, Tone::Muted, Emphasis::Plain));
        }
    }
    v.push(blank());
    v.push(hint("  Enter/Esc close"));
    assert(lines_view(v@) =~= done_text(*flow, *result));
    v
}

/// The body of the modal for the flow's phase.
pub open spec fn body_text(flow: RaidFlow) -> Seq<Seq<PieceView>> {
    match flow.phase {
        FlowPhase::Preparing => seq![
            plain_line("  Preparing raid…"@, Tone::Fg),
            Seq::empty(),
            hint_line("  y confirm · n/Esc cancel"@),
        ],
        FlowPhase::Preview(_) => preview_text(flow),
        FlowPhase::Passphrase(input) => passphrase_text(
            input@.step,
            input@.first.len(),
            input@.confirm.len(),
            input@.error,
        ),
        FlowPhase::Running => running_text(flow),
        FlowPhase::Done(r) => done_text(flow, r),
        FlowPhase::Failed(message) => seq![
            plain_line("  "@ + message@, Tone::Danger),
            Seq::empty(),
            hint_line("  Enter/Esc close"@),
        ],
    }
}

/// Body lines of the modal for the flow's phase (never raw secret
/// material).
pub fn phase_lines(flow: &RaidFlow) -> (v: Vec<TextLine>)
    ensures
        lines_view(v@) == body_text(*flow),
{
    match &flow.phase {
        FlowPhase::Preparing => {
            let mut v: Vec<TextLine> = Vec::new();
            v.push(single_str("  Preparing raid…", Tone::Fg, Emphasis::Plain));
            v.push(blank());
            v.push(hint("  y confirm · n/Esc cancel"));
            assert(lines_view(v@) =~= body_text(*flow));
            v
        },
        FlowPhase::Preview(_) => preview_lines(flow),
        FlowPhase::Passphrase(input) => passphrase_lines(input),
        FlowPhase::Running => running_lines(flow),
        FlowPhase::Done(result) => done_lines(flow, result),
        FlowPhase::Failed(message) => {
            let mut t = String::new();
            push_str(&mut t, "  ");
            push_str(&mut t, message.as_str());
            let mut v: Vec<TextLine> = Vec::new();
            v.push(single(t, Tone::Danger, Emphasis::Plain));
            v.push(blank());
            v.push(hint("  Enter/Esc close"));
            assert(lines_view(v@) =~= body_text(*flow));
            v
        },
    }
}

} // verus!
