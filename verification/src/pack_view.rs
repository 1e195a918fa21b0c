//! Text of the pack modal for each phase of the flow.

use vstd::prelude::*;
use vstd::string::StrSliceExecFns;
use crate::domain::PackResult;
use crate::pack::{PackFlow, PackFlowPhase};
use crate::raid_view::{den_relative, den_relative_text, name_or_dash, progress_bar, progress_bar_line};
use crate::paths::file_name;
use crate::styled::{
    Emphasis, PieceView, TextLine, Tone, blank, bold, bold_line, hint, hint_line, lines_view,
    plain_line, row, row_line, single, single_str, toggled, toggled_line,
};
use crate::text::{decimal, push_decimal, push_str};
use crate::units::{binary_bytes_text, human_bytes};

verus! {

broadcast use crate::styled::lemma_lines_push;

/// Title of the modal for each phase, with its colour.
pub open spec fn pack_banner(flow: PackFlow) -> (Seq<char>, Tone) {
    match flow.phase {
        PackFlowPhase::Preparing => ("Pack — preparing"@, Tone::Focus),
        PackFlowPhase::Preview(_) => ("Pack — preview (dry run)"@, Tone::Focus),
        PackFlowPhase::Running => ("Pack — running"@, Tone::Focus),
        PackFlowPhase::Done(_) => ("Pack — success"@, Tone::Success),
        PackFlowPhase::Failed(_) => ("Pack — failed"@, Tone::Danger),
    }
}

/// Title of the modal for the flow's phase, with its colour.
pub fn phase_banner(flow: &PackFlow) -> (r: (&'static str, Tone))
    ensures
        (r.0@, r.1) == pack_banner(*flow),
{
    match &flow.phase {
        PackFlowPhase::Preparing => ("Pack — preparing", Tone::Focus),
        PackFlowPhase::Preview(_) => ("Pack — preview (dry run)", Tone::Focus),
        PackFlowPhase::Running => ("Pack — running", Tone::Focus),
        PackFlowPhase::Done(_) => ("Pack — success", Tone::Success),
        PackFlowPhase::Failed(_) => ("Pack — failed", Tone::Danger),
    }
}

/// The archive name shown for a draft or option: the text, or `(auto)`
/// when it is empty or unset.
pub open spec fn auto_or(name: Seq<char>) -> Seq<char> {
    if name.len() == 0 {
        "(auto)"@
    } else {
        name
    }
}

/// The inline name editor: the draft (or `(auto)`), the archive it gives,
/// and the key hint.
pub open spec fn editor_text(draft: Seq<char>) -> Seq<Seq<PieceView>> {
    seq![
        bold_line("  Output archive name"@, Tone::Focus),
        Seq::empty(),
        row_line("name"@, auto_or(draft), Tone::Fg),
        plain_line("  result: "@ + auto_or(draft) + ".tar.zst"@, Tone::Muted),
        Seq::empty(),
        hint_line("  type name · Enter commit · Esc cancel · empty = auto name"@),
    ]
}

/// The inline name editor lines.
pub fn output_name_editor_lines(flow: &PackFlow) -> (v: Vec<TextLine>)
    ensures
        lines_view(v@) == editor_text(flow.output_name_buffer@),
{
    let draft = flow.output_name_buffer.as_str();
    let display = if draft.unicode_len() == 0 {
        "(auto)"
    } else {
        draft
    };
    let mut result = String::new();
    push_str(&mut result, "  result: ");
    push_str(&mut result, display);
    push_str(&mut result, ".tar.zst");
    let mut v: Vec<TextLine> = Vec::new();
    v.push(bold("  Output archive name".to_string(), Tone::Focus));
    v.push(blank());
    v.push(row("name", display, Tone::Fg));
    v.push(single(result, Tone::Muted, Emphasis::Plain));
    v.push(blank());
    v.push(hint("  type name · Enter commit · Esc cancel · empty = auto name"));
    assert(lines_view(v@) =~= editor_text(flow.output_name_buffer@));
    v
}

/// The preview (unless the name editor is open): project, den-relative
/// archive, name option, zstd level, content refusal, the dry-run note and
/// the key hint.
pub open spec fn pack_preview_text(flow: PackFlow, r: PackResult) -> Seq<Seq<PieceView>> {
    if flow.editing_output_name {
        editor_text(flow.output_name_buffer@)
    } else {
        seq![
            row_line("project"@, name_or_dash(flow.project@), Tone::Fg),
            row_line("archive"@, den_relative_text(flow.den_dir@, r.output@), Tone::Focus),
            row_line(
                "output-name"@,
                match flow.options.output_name {
                    Some(n) => n@,
                    None => "(auto)"@,
                },
                Tone::Fg,
            ),
            row_line("zstd"@, "level "@ + decimal(flow.options.zstd_level as nat), Tone::Fg),
            toggled_line("content-deny"@, flow.options.deny_content_secrets),
            row_line("files"@, "0 (dry run)"@, Tone::Fg),
            Seq::empty(),
            plain_line("  dry-run: nothing will be written to the den"@, Tone::Muted),
            Seq::empty(),
            hint_line(
                "  y/Enter confirm · o output-name · c content-deny · z zstd-level · n/Esc cancel"@,
            ),
        ]
    }
}

/// The preview lines.
pub fn preview_lines(flow: &PackFlow, result: &PackResult) -> (v: Vec<TextLine>)
    ensures
        lines_view(v@) == pack_preview_text(*flow, *result),
{
    if flow.editing_output_name {
        return output_name_editor_lines(flow);
    }
    let project = match file_name(flow.project.as_str()) {
        Some(n) => n,
        None => "-".to_string(),
    };
    let archive = den_relative(flow.den_dir.as_str(), result.output.as_str());
    let output_name: &str = match &flow.options.output_name {
        Some(n) => n.as_str(),
        None => "(auto)",
    };
    let mut zstd = String::new();
    push_str(&mut zstd, "level ");
    push_decimal(&mut zstd, flow.options.zstd_level as u64);
    let mut v: Vec<TextLine> = Vec::new();
    v.push(row("project", project.as_str(), Tone::Fg));
    v.push(row("archive", archive.as_str(), Tone::Focus));
    v.push(row("output-name", output_name, Tone::Fg));
    v.push(row("zstd", zstd.as_str(), Tone::Fg));
    v.push(toggled("content-deny", flow.options.deny_content_secrets));
    v.push(row("files", "0 (dry run)", Tone::Fg));
    v.push(blank());
    v.push(single_str("  dry-run: nothing will be written to the den", Tone::Muted, Emphasis::Plain));
    v.push(blank());
    v.push(hint("  y/Enter confirm · o output-name · c content-deny · z zstd-level · n/Esc cancel"));
    assert(lines_view(v@) =~= pack_preview_text(*flow, *result));
    v
}

/// The running screen: progress bar, latest message, and the hint that
/// Esc does not cancel.
pub open spec fn pack_running_text(flow: PackFlow) -> Seq<Seq<PieceView>> {
    seq![
        progress_bar_line(flow.percent),
        Seq::empty(),
        plain_line(flow.message@, Tone::Muted),
        Seq::empty(),
        hint_line("  running… Esc does not cancel"@),
    ]
}

/// The running screen lines.
pub fn running_lines(flow: &PackFlow) -> (v: Vec<TextLine>)
    ensures
        lines_view(v@) == pack_running_text(*flow),
{
    let mut v: Vec<TextLine> = Vec::new();
    v.push(progress_bar(flow.percent));
    v.push(blank());
    v.push(single(flow.message.clone(), Tone::Muted, Emphasis::Plain));
    v.push(blank());
    v.push(hint("  running… Esc does not cancel"));
    assert(lines_view(v@) =~= pack_running_text(*flow));
    v
}

/// The result screen: den-relative archive, file count, size, skipped
/// secret files.
pub open spec fn pack_done_text(flow: PackFlow, r: PackResult) -> Seq<Seq<PieceView>> {
    seq![
        bold_line("  Pack complete"@, Tone::Success),
        Seq::empty(),
        row_line("archive"@, den_relative_text(flow.den_dir@, r.output@), Tone::Focus),
        row_line("files"@, decimal(r.file_count as nat), Tone::Fg),
        row_line("size"@, binary_bytes_text(r.size_bytes as nat), Tone::Fg),
        row_line("skipped secrets"@, decimal(r.skipped_secret_files as nat), Tone::Fg),
        Seq::empty(),
        hint_line("  Enter/Esc close"@),
    ]
}

/// The result screen lines.
pub fn done_lines(flow: &PackFlow, result: &PackResult) -> (v: Vec<TextLine>)
    ensures
        lines_view(v@) == pack_done_text(*flow, *result),
{
    let archive = den_relative(flow.den_dir.as_str(), result.output.as_str());
    let size = human_bytes(result.size_bytes);
    let mut files = String::new();
    push_decimal(&mut files, result.file_count as u64);
    let mut skipped = String::new();
    push_decimal(&mut skipped, result.skipped_secret_files as u64);
    assert(files@ =~= decimal(result.file_count as nat));
    assert(skipped@ =~= decimal(result.skipped_secret_files as nat));
    let mut v: Vec<TextLine> = Vec::new();
    v.push(bold("  Pack complete".to_string(), Tone::Success));
    v.push(blank());
    v.push(row("archive", archive.as_str(), Tone::Focus));
    v.push(row("files", files.as_str(), Tone::Fg));
    v.push(row("size", size.as_str(), Tone::Fg));
    v.push(row("skipped secrets", skipped.as_str(), Tone::Fg));
    v.push(blank());
    v.push(hint("  Enter/Esc close"));
    assert(lines_view(v@) =~= pack_done_text(*flow, *result));
    v
}

/// The body of the modal for the flow's phase.
pub open spec fn pack_body_text(flow: PackFlow) -> Seq<Seq<PieceView>> {
    match flow.phase {
        PackFlowPhase::Preparing => seq![
            plain_line("  Preparing pack…"@, Tone::Fg),
            Seq::empty(),
            hint_line("  y confirm · n/Esc cancel"@),
        ],
        PackFlowPhase::Preview(r) => pack_preview_text(flow, r),
        PackFlowPhase::Running => pack_running_text(flow),
        PackFlowPhase::Done(r) => pack_done_text(flow, r),
        PackFlowPhase::Failed(message) => seq![
            plain_line("  "@ + message@, Tone::Danger),
            Seq::empty(),
            hint_line("  Enter/Esc close"@),
        ],
    }
}

/// Body lines of the modal for the flow's phase.
pub fn phase_lines(flow: &PackFlow) -> (v: Vec<TextLine>)
    ensures
        lines_view(v@) == pack_body_text(*flow),
{
    match &flow.phase {
        PackFlowPhase::Preparing => {
            let mut v: Vec<TextLine> = Vec::new();
            v.push(single_str("  Preparing pack…", Tone::Fg, Emphasis::Plain));
            v.push(blank());
            v.push(hint("  y confirm · n/Esc cancel"));
            assert(lines_view(v@) =~= pack_body_text(*flow));
            v
        },
        PackFlowPhase::Preview(result) => preview_lines(flow, result),
        PackFlowPhase::Running => running_lines(flow),
        PackFlowPhase::Done(result) => done_lines(flow, result),
        PackFlowPhase::Failed(message) => {
            let mut t = String::new();
            push_str(&mut t, "  ");
            push_str(&mut t, message.as_str());
            let mut v: Vec<TextLine> = Vec::new();
            v.push(single(t, Tone::Danger, Emphasis::Plain));
            v.push(blank());
            v.push(hint("  Enter/Esc close"));
            assert(lines_view(v@) =~= pack_body_text(*flow));
            v
        },
    }
}

} // verus!
