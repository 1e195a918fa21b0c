//! Text of the activity panel, and the layout of the Projects card grid
//! (which cards are on screen, scrolled so the selection stays visible).

use vstd::prelude::*;
use crate::activity::{ActivityKind, ActivityLog, kind_glyph};
use crate::styled::{Emphasis, Piece, PieceView, TextLine, Tone, lines_view, pair, piece, pv, single};
use crate::text::{decimal, push_decimal, push_str};

verus! {

broadcast use crate::styled::lemma_lines_push;

/// Colour reinforcing an activity glyph (the glyph carries the meaning).
pub open spec fn kind_tone(k: ActivityKind) -> Tone {
    match k {
        ActivityKind::Success => Tone::Success,
        ActivityKind::Warn => Tone::Warning,
        ActivityKind::Error => Tone::Danger,
        ActivityKind::Info => Tone::Info,
    }
}

/// Colour reinforcing an activity glyph.
pub fn kind_color(kind: ActivityKind) -> (t: Tone)
    ensures
        t == kind_tone(kind),
{
    match kind {
        ActivityKind::Success => Tone::Success,
        ActivityKind::Warn => Tone::Warning,
        ActivityKind::Error => Tone::Danger,
        ActivityKind::Info => Tone::Info,
    }
}

/// One activity row: the glyph in its colour, then the message (bold
/// primary text for the newest entry, muted for older ones).
pub open spec fn entry_text(kind: ActivityKind, message: Seq<char>, newest: bool) -> Seq<PieceView> {
    seq![
        pv(" "@ + kind_glyph(kind) + " "@, kind_tone(kind), Emphasis::Plain),
        if newest {
            pv(message, Tone::Fg, Emphasis::Bold)
        } else {
            pv(message, Tone::Muted, Emphasis::Plain)
        },
    ]
}

/// One activity row.
pub fn entry_line(kind: ActivityKind, message: &str, newest: bool) -> (l: TextLine)
    ensures
        l@ == entry_text(kind, message@, newest),
{
    let mut glyph = String::new();
    push_str(&mut glyph, " ");
    push_str(&mut glyph, kind.glyph());
    push_str(&mut glyph, " ");
    let text = message.to_string();
    let (tone, emphasis) = if newest {
        (Tone::Fg, Emphasis::Bold)
    } else {
        (Tone::Muted, Emphasis::Plain)
    };
    pair(piece(glyph, kind_color(kind), Emphasis::Plain), piece(text, tone, emphasis))
}

/// The activity panel: a hint while empty; otherwise every entry, newest
/// first (and bold), then ` (N)` when N entries were trimmed.
pub open spec fn activity_text(entries: Seq<(ActivityKind, Seq<char>)>, trimmed: nat) -> Seq<Seq<PieceView>> {
    if entries.len() == 0 {
        seq![seq![pv(" No activity yet"@, Tone::Muted, Emphasis::Plain)]]
    } else {
        Seq::new(entries.len(), |i: int| entry_text(entries[i].0, entries[i].1, i == 0)) + if trimmed > 0 {
            seq![seq![pv(" ("@ + decimal(trimmed) + ")"@, Tone::Muted, Emphasis::Plain)]]
        } else {
            Seq::empty()
        }
    }
}

/// The activity panel lines.
pub fn activity_lines(log: &ActivityLog) -> (v: Vec<TextLine>)
    ensures
        lines_view(v@) == activity_text(log@.entries, log@.trimmed),
{
    let mut v: Vec<TextLine> = Vec::new();
    if log.is_empty() {
        v.push(single(" No activity yet".to_string(), Tone::Muted, Emphasis::Plain));
        assert(lines_view(v@) =~= activity_text(log@.entries, log@.trimmed));
        return v;
    }
    let entries = log.entries();
    let ghost ev = log@.entries;
    let mut i: usize = 0;
    while i < entries.len()
        invariant
            0 <= i <= entries@.len(),
            entries@.map_values(|e: crate::activity::ActivityEntry| (e.kind, e.message@)) == ev,
            lines_view(v@) == Seq::new(i as nat, |j: int| entry_text(ev[j].0, ev[j].1, j == 0)),
        decreases entries@.len() - i,
    {
        let e = &entries[i];
        assert(ev[i as int] == (e.kind, e.message@));
        v.push(entry_line(e.kind, e.message.as_str(), i == 0));
        assert(lines_view(v@) =~= Seq::new((i + 1) as nat, |j: int| entry_text(ev[j].0, ev[j].1, j == 0)));
        i = i + 1;
    }
    let trimmed = log.trimmed();
    if trimmed > 0 {
        let mut t = String::new();
        push_str(&mut t, " (");
        push_decimal(&mut t, trimmed as u64);
        push_str(&mut t, ")");
        v.push(single(t, Tone::Muted, Emphasis::Plain));
    }
    assert(lines_view(v@) =~= activity_text(log@.entries, log@.trimmed));
    v
}

/// Column width of one card in the Projects grid.
pub const GRID_CARD_WIDTH: u16 = 26;

/// Rows one card takes: content, border, and the gap below it.
pub const GRID_SLOT_HEIGHT: u16 = 7;

/// Layout of the Projects card grid in a `width` × `height` area with
/// `selected` the table selection: the column count, the rows on screen,
/// and the first card row shown (scrolled so the selected card's row is
/// the last one on screen when it would fall below).
pub open spec fn cards_layout(width: u16, height: u16, selected: Option<usize>) -> (u16, u16, u16) {
    let cols = if width >= 1 && (width - 1) / (GRID_CARD_WIDTH as int) >= 1 {
        ((width - 1) / (GRID_CARD_WIDTH as int)) as u16
    } else {
        1u16
    };
    let rows = if (height as int) / (GRID_SLOT_HEIGHT as int) >= 1 {
        ((height as int) / (GRID_SLOT_HEIGHT as int)) as u16
    } else {
        1u16
    };
    let sel = match selected {
        Some(s) => s,
        None => 0,
    };
    let sel_row = ((sel as u16) / cols) as u16;
    let scroll = if sel_row >= rows - 1 {
        (sel_row - (rows - 1)) as u16
    } else {
        0u16
    };
    (cols, rows, scroll)
}

/// Layout of the Projects card grid.
pub fn cards_grid(width: u16, height: u16, selected: Option<usize>) -> (r: (u16, u16, u16))
    ensures
        r == cards_layout(width, height, selected),
{
    let inner = if width >= 1 { width - 1 } else { 0 };
    let cols: u16 = if inner / GRID_CARD_WIDTH >= 1 { inner / GRID_CARD_WIDTH } else { 1 };
    let rows: u16 = if height / GRID_SLOT_HEIGHT >= 1 { height / GRID_SLOT_HEIGHT } else { 1 };
    let sel: usize = match selected {
        Some(s) => s,
        None => 0,
    };
    let sel_row: u16 = (sel as u16) / cols;
    let scroll: u16 = if sel_row >= rows - 1 { sel_row - (rows - 1) } else { 0 };
    (cols, rows, scroll)
}

/// Whether card `i` is on screen: its row lies in the scrolled window.
pub open spec fn card_shown(i: usize, cols: u16, rows: u16, scroll: u16) -> bool {
    let row = ((i / (cols as usize)) as u16) as int;
    scroll <= row < scroll + rows
}

/// Whether card `i` is on screen.
pub fn card_visible(i: usize, cols: u16, rows: u16, scroll: u16) -> (b: bool)
    requires
        cols >= 1,
    ensures
        b == card_shown(i, cols, rows, scroll),
{
    let row = (i / (cols as usize)) as u16;
    (row as u32) >= (scroll as u32) && (row as u32) < (scroll as u32) + (rows as u32)
}

/// The selected card is always on screen (for selections below 65536,
/// where the card index fits the grid's row arithmetic).
pub proof fn lemma_selected_card_shown(width: u16, height: u16, sel: usize)
    requires
        sel < 65536,
    ensures
        ({
            let (cols, rows, scroll) = cards_layout(width, height, Some(sel));
            card_shown(sel, cols, rows, scroll)
        }),
{
    let (cols, rows, scroll) = cards_layout(width, height, Some(sel));
    assert(sel as u16 == sel) by (bit_vector)
        requires
            sel < 65536,
    ;
    assert(cols >= 1);
    let q = sel / (cols as usize);
    assert(q <= sel) by (nonlinear_arith)
        requires
            cols >= 1,
            q == sel / (cols as usize),
    ;
    assert(((sel as u16) / cols) as int == q);
    assert((q as u16) as int == q);
}

} // verus!
