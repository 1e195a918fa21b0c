//! Text of the reveal modal: the one place a raw secret value is shown,
//! and only in the `Ready` phase. Every other phase shows metadata and
//! prompts only.

use vstd::prelude::*;
use crate::paths::file_name;
use crate::raid_view::name_or_dash;
use crate::reveal_modal::{RevealModal, RevealPhase};
use crate::styled::{
    Emphasis, PieceView, TextLine, Tone, blank, lines_view, pair, piece, piece_str, plain_line, pv,
    single, single_str,
};
use crate::text::push_str;

verus! {

broadcast use crate::styled::lemma_lines_push;

/// Title of the modal for each phase, with its colour.
pub open spec fn reveal_banner(m: RevealModal) -> (Seq<char>, Tone) {
    match m.phase {
        RevealPhase::Confirm => ("Reveal — confirm"@, Tone::Warning),
        RevealPhase::Revealing => ("Reveal — reading"@, Tone::Focus),
        RevealPhase::Ready { .. } => ("Reveal — value"@, Tone::Danger),
        RevealPhase::Failed { .. } => ("Reveal — failed"@, Tone::Danger),
    }
}

/// Title of the modal for its phase, with its colour.
pub fn banner(modal: &RevealModal) -> (r: (&'static str, Tone))
    ensures
        (r.0@, r.1) == reveal_banner(*modal),
{
    match &modal.phase {
        RevealPhase::Confirm => ("Reveal — confirm", Tone::Warning),
        RevealPhase::Revealing => ("Reveal — reading", Tone::Focus),
        RevealPhase::Ready { .. } => ("Reveal — value", Tone::Danger),
        RevealPhase::Failed { .. } => ("Reveal — failed", Tone::Danger),
    }
}

/// A hint line of the reveal modal: indent, then the muted italic text.
pub open spec fn reveal_hint_line(text: Seq<char>) -> Seq<PieceView> {
    seq![pv("  "@, Tone::Fg, Emphasis::Plain), pv(text, Tone::Muted, Emphasis::Italic)]
}

fn reveal_hint(text: &str) -> (l: TextLine)
    ensures
        l@ == reveal_hint_line(text@),
{
    pair(piece_str("  ", Tone::Fg, Emphasis::Plain), piece_str(text, Tone::Muted, Emphasis::Italic))
}

/// The body for each phase. The file name and the marker id (a rule id,
/// not a value) are shown; the raw value only when `Ready`.
pub open spec fn reveal_body_text(m: RevealModal) -> Seq<Seq<PieceView>> {
    let file = name_or_dash(m.path@);
    let marker = m.reference.marker_id@;
    match m.phase {
        RevealPhase::Confirm => seq![
            seq![
                pv("  Reveal the secret value in "@, Tone::Fg, Emphasis::Plain),
                pv(file, Tone::Warning, Emphasis::Plain),
            ],
            plain_line("  marker: "@ + marker, Tone::Muted),
            Seq::empty(),
            plain_line("  The value will be shown once and wiped on close."@, Tone::Muted),
            Seq::empty(),
            reveal_hint_line("y reveal · n/Esc cancel"@),
        ],
        RevealPhase::Revealing => seq![
            plain_line("  Reading and verifying the value…"@, Tone::Fg),
            Seq::empty(),
            reveal_hint_line("verifying against the recorded hash…"@),
        ],
        RevealPhase::Ready { secret } => seq![
            plain_line("  "@ + file + " · "@ + marker, Tone::Muted),
            Seq::empty(),
            seq![pv(secret@, Tone::Danger, Emphasis::Bold)],
            Seq::empty(),
            plain_line("  This value is shown once."@, Tone::Muted),
            Seq::empty(),
            reveal_hint_line("any key closes and wipes this value"@),
        ],
        RevealPhase::Failed { message } => seq![
            plain_line("  "@ + message@, Tone::Danger),
            Seq::empty(),
            plain_line("  The file may have changed since the scan."@, Tone::Muted),
            Seq::empty(),
            reveal_hint_line("Enter/Esc close"@),
        ],
    }
}

/// Body lines of the modal for its phase.
pub fn body_lines(modal: &RevealModal) -> (v: Vec<TextLine>)
    ensures
        lines_view(v@) == reveal_body_text(*modal),
{
    let file = match file_name(modal.path.as_str()) {
        Some(n) => n,
        None => "-".to_string(),
    };
    let marker = modal.reference.marker_id.as_str();
    let mut v: Vec<TextLine> = Vec::new();
    match &modal.phase {
        RevealPhase::Confirm => {
            v.push(pair(
                piece_str("  Reveal the secret value in ", Tone::Fg, Emphasis::Plain),
                piece(file, Tone::Warning, Emphasis::Plain),
            ));
            let mut t = String::new();
            push_str(&mut t, "  marker: ");
            push_str(&mut t, marker);
            v.push(single(t, Tone::Muted, Emphasis::Plain));
            v.push(blank());
            v.push(single_str("  The value will be shown once and wiped on close.", Tone::Muted, Emphasis::Plain));
            v.push(blank());
            v.push(reveal_hint("y reveal · n/Esc cancel"));
        },
        RevealPhase::Revealing => {
            v.push(single_str("  Reading and verifying the value…", Tone::Fg, Emphasis::Plain));
            v.push(blank());
            v.push(reveal_hint("verifying against the recorded hash…"));
        },
        RevealPhase::Ready { secret } => {
            let mut t = String::new();
            push_str(&mut t, "  ");
            push_str(&mut t, file.as_str());
            push_str(&mut t, " · ");
            push_str(&mut t, marker);
            v.push(single(t, Tone::Muted, Emphasis::Plain));
            v.push(blank());
            // The one screen that shows the raw value verbatim.
            v.push(single_str(secret.expose(), Tone::Danger, Emphasis::Bold));
            v.push(blank());
            v.push(single_str("  This value is shown once.", Tone::Muted, Emphasis::Plain));
            v.push(blank());
            v.push(reveal_hint("any key closes and wipes this value"));
        },
        RevealPhase::Failed { message } => {
            let mut t = String::new();
            push_str(&mut t, "  ");
            push_str(&mut t, message.as_str());
            v.push(single(t, Tone::Danger, Emphasis::Plain));
            v.push(blank());
            v.push(single_str("  The file may have changed since the scan.", Tone::Muted, Emphasis::Plain));
            v.push(blank());
            v.push(reveal_hint("Enter/Esc close"));
        },
    }
    assert(lines_view(v@) =~= reveal_body_text(*modal));
    v
}

} // verus!
