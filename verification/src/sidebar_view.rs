//! Text of the sidebar: brand block, one navigation row per view (with
//! live tallies), divider and version footer.

use vstd::prelude::*;
use vstd::string::StrSliceExecFns;
use crate::app::App;
use crate::nav::{ALL_VIEWS, Focus, ViewId, view_index, view_label};
use crate::palette::EMPTY_PLACEHOLDER;
use crate::styled::{
    Emphasis, Piece, PieceView, TextLine, Tone, lines_view, pair, piece, piece_str, pv, repeated,
    push_repeated, spaces,
};
use crate::text::{decimal, decimal_string, push_str};

verus! {

broadcast use crate::styled::lemma_lines_push;

/// The library's version, shown in the sidebar footer.
pub const VERSION: &'static str = "0.4.4";

/// The key digit of a view as text.
pub open spec fn key_text(v: ViewId) -> Seq<char> {
    seq![(('1' as int) + view_index(v)) as char]
}

/// The tally shown on a view's row: the project count (brand colour) on
/// Projects; on Findings a placeholder before any dig, a muted `0` after a
/// clean one, the count in warning colour otherwise; nothing elsewhere.
pub open spec fn badge_of(a: App, v: ViewId) -> Option<(Seq<char>, Tone)> {
    match v {
        ViewId::Projects => Some((decimal(a.sniff_state.projects@.len()), Tone::Focus)),
        ViewId::Findings => if a.dig_state.last_run.is_none() {
            Some((EMPTY_PLACEHOLDER@, Tone::Muted))
        } else if a.dig_state.findings@.len() == 0 {
            Some(("0"@, Tone::Muted))
        } else {
            Some((decimal(a.dig_state.findings@.len()), Tone::Warning))
        },
        _ => None,
    }
}

/// The tally shown on a view's row, if any.
pub fn nav_badge(app: &App, view: ViewId) -> (b: Option<(String, Tone)>)
    ensures
        b.is_some() == badge_of(*app, view).is_some(),
        b matches Some(x) ==> (x.0@, x.1) == badge_of(*app, view).unwrap(),
{
    match view {
        ViewId::Projects => Some((decimal_string(app.sniff_state.projects.len() as u64), Tone::Focus)),
        ViewId::Findings => if app.dig_state.last_run.is_none() {
            Some((EMPTY_PLACEHOLDER.to_string(), Tone::Muted))
        } else if app.dig_state.findings.len() == 0 {
            Some(("0".to_string(), Tone::Muted))
        } else {
            Some((decimal_string(app.dig_state.findings.len() as u64), Tone::Warning))
        },
        _ => None,
    }
}

/// Colour and emphasis of a view label: bold primary text when the row is
/// active and the sidebar focused, bold focus colour when only active,
/// muted otherwise.
pub open spec fn label_style(active: bool, focused: bool) -> (Tone, Emphasis) {
    if active && focused {
        (Tone::Fg, Emphasis::Bold)
    } else if active {
        (Tone::Focus, Emphasis::Bold)
    } else {
        (Tone::Muted, Emphasis::Plain)
    }
}

/// Spaces between label and key so that the row fills `width` columns:
/// width minus the fixed prefix (space, rail, space, label) and the
/// trailing part (key, and a space and the badge when there is one); none
/// when that does not fit.
pub open spec fn nav_pad(label_len: nat, badge_len: Option<nat>, width: nat) -> nat {
    let used = 3 + label_len + 1 + match badge_len {
        Some(b) => 1 + b,
        None => 0,
    };
    if width >= used {
        (width - used) as nat
    } else {
        0
    }
}

/// One navigation row: space, rail (`▎` when active), space, label, pad,
/// key digit, and the badge after a space.
pub open spec fn nav_line_text(
    v: ViewId,
    active: bool,
    focused: bool,
    badge: Option<(Seq<char>, Tone)>,
    width: nat,
) -> Seq<PieceView> {
    let style = label_style(active, focused);
    let pad = nav_pad(
        view_label(v).len(),
        match badge {
            Some(b) => Some(b.0.len()),
            None => None,
        },
        width,
    );
    let base = seq![
        pv(" "@, Tone::Fg, Emphasis::Plain),
        pv(if active { "▎"@ } else { " "@ }, Tone::Focus, Emphasis::Plain),
        pv(" "@, Tone::Fg, Emphasis::Plain),
        pv(view_label(v), style.0, style.1),
        pv(spaces(pad), Tone::Fg, Emphasis::Plain),
        pv(key_text(v), Tone::Muted, Emphasis::Plain),
    ];
    match badge {
        Some(b) => base + seq![pv(" "@, Tone::Fg, Emphasis::Plain), pv(b.0, b.1, Emphasis::Plain)],
        None => base,
    }
}

/// Number of characters on a line.
pub open spec fn line_width(l: Seq<PieceView>) -> nat
    decreases l.len(),
{
    if l.len() == 0 {
        0
    } else {
        line_width(l.drop_last()) + l.last().text.len()
    }
}

/// One navigation row of the sidebar, `width` columns wide.
pub fn nav_line(view: ViewId, active: bool, sidebar_focused: bool, badge: Option<(String, Tone)>, width: u16) -> (l: TextLine)
    ensures
        l@ == nav_line_text(
            view,
            active,
            sidebar_focused,
            match badge {
                Some(b) => Some((b.0@, b.1)),
                None => None,
            },
            width as nat,
        ),
{
    let (tone, emphasis) = if active && sidebar_focused {
        (Tone::Fg, Emphasis::Bold)
    } else if active {
        (Tone::Focus, Emphasis::Bold)
    } else {
        (Tone::Muted, Emphasis::Plain)
    };
    let label = view.label();
    let label_len = label.unicode_len();
    let badge_part: u128 = match &badge {
        Some(b) => 1 + b.0.as_str().unicode_len() as u128,
        None => 0,
    };
    assert(label_len <= 10) by {
        reveal_strlit("Overview");
        reveal_strlit("Projects");
        reveal_strlit("Findings");
        reveal_strlit("Operations");
    }
    let used: u128 = 3 + label_len as u128 + 1 + badge_part;
    let pad: usize = if (width as u128) >= used {
        (width as u128 - used) as usize
    } else {
        0
    };
    let mut padding = String::new();
    push_repeated(&mut padding, ' ', pad);
    proof {
        lemma_spaces_repeated(pad as nat);
    }
    let mut key = String::new();
    crate::text::push_char(&mut key, view.key());
    let mut pieces: Vec<Piece> = Vec::new();
    pieces.push(piece_str(" ", Tone::Fg, Emphasis::Plain));
    pieces.push(piece_str(if active { "▎" } else { " " }, Tone::Focus, Emphasis::Plain));
    pieces.push(piece_str(" ", Tone::Fg, Emphasis::Plain));
    pieces.push(piece_str(label, tone, emphasis));
    pieces.push(piece(padding, Tone::Fg, Emphasis::Plain));
    pieces.push(piece(key, Tone::Muted, Emphasis::Plain));
    let ghost bv = match &badge {
        Some(b) => Some((b.0@, b.1)),
        None => None,
    };
    match badge {
        Some(b) => {
            pieces.push(piece_str(" ", Tone::Fg, Emphasis::Plain));
            pieces.push(piece(b.0, b.1, Emphasis::Plain));
        },
        None => {},
    }
    let l = TextLine { pieces };
    assert(key@ =~= key_text(view));
    assert(l@ =~= nav_line_text(view, active, sidebar_focused, bv, width as nat));
    l
}

proof fn lemma_spaces_repeated(n: nat)
    ensures
        spaces(n) == repeated(' ', n),
    decreases n,
{
    if n > 0 {
        lemma_spaces_repeated((n - 1) as nat);
    }
}

proof fn lemma_spaces_len(n: nat)
    ensures
        spaces(n).len() == n,
    decreases n,
{
    if n > 0 {
        lemma_spaces_len((n - 1) as nat);
    }
}

proof fn lemma_line_width_append(a: Seq<PieceView>, b: Seq<PieceView>)
    ensures
        line_width(a + b) == line_width(a) + line_width(b),
    decreases b.len(),
{
    if b.len() > 0 {
        lemma_line_width_append(a, b.drop_last());
        assert((a + b).drop_last() =~= a + b.drop_last());
    } else {
        assert(a + b =~= a);
    }
}

/// A navigation row is exactly `width` characters wide whenever its fixed
/// parts fit: the padding takes up all the slack.
pub proof fn lemma_nav_line_fills_width(
    v: ViewId,
    active: bool,
    focused: bool,
    badge: Option<(Seq<char>, Tone)>,
    width: nat,
)
    requires
        width >= 3 + view_label(v).len() + 1 + match badge {
            Some(b) => 1 + b.0.len(),
            None => 0,
        },
    ensures
        line_width(nav_line_text(v, active, focused, badge, width)) == width,
{
    reveal_strlit(" ");
    reveal_strlit("▎");
    let style = label_style(active, focused);
    let pad = nav_pad(
        view_label(v).len(),
        match badge {
            Some(b) => Some(b.0.len()),
            None => None,
        },
        width,
    );
    lemma_spaces_len(pad);
    let base = seq![
        pv(" "@, Tone::Fg, Emphasis::Plain),
        pv(if active { "▎"@ } else { " "@ }, Tone::Focus, Emphasis::Plain),
        pv(" "@, Tone::Fg, Emphasis::Plain),
        pv(view_label(v), style.0, style.1),
        pv(spaces(pad), Tone::Fg, Emphasis::Plain),
        pv(key_text(v), Tone::Muted, Emphasis::Plain),
    ];
    reveal_with_fuel(line_width, 7);
    assert(line_width(base) == 3 + view_label(v).len() + pad + 1);
    match badge {
        Some(b) => {
            let tail = seq![pv(" "@, Tone::Fg, Emphasis::Plain), pv(b.0, b.1, Emphasis::Plain)];
            lemma_line_width_append(base, tail);
            assert(line_width(tail) == 1 + b.0.len());
        },
        None => {},
    }
}

/// The sidebar lines for `width` columns: brand mark, workspace caption,
/// spacer, one row per view (active = the current view; labels bold while
/// the sidebar has focus), a divider across the width, and the version.
pub open spec fn sidebar_text(a: App, width: nat) -> Seq<Seq<PieceView>> {
    let focused = a.focus == Focus::Sidebar;
    seq![
        seq![pv(" "@, Tone::Fg, Emphasis::Plain), pv("◈ RACCPACK"@, Tone::Focus, Emphasis::Bold)],
        seq![pv("  "@, Tone::Fg, Emphasis::Plain), pv("workspace"@, Tone::Muted, Emphasis::Plain)],
        Seq::empty(),
    ] + Seq::new(
        4,
        |i: int|
            nav_line_text(
                ALL_VIEWS@[i],
                a.current_view == ALL_VIEWS@[i],
                focused,
                badge_of(a, ALL_VIEWS@[i]),
                width,
            ),
    ) + seq![
        seq![pv(repeated('─', width), Tone::Muted, Emphasis::Plain)],
        seq![pv(" "@, Tone::Fg, Emphasis::Plain), pv("v"@ + VERSION@, Tone::Muted, Emphasis::Plain)],
    ]
}

/// The sidebar lines for `width` columns.
pub fn build_lines(app: &App, width: u16) -> (v: Vec<TextLine>)
    ensures
        lines_view(v@) == sidebar_text(*app, width as nat),
{
    let focused = match app.focus {
        Focus::Sidebar => true,
        Focus::Main => false,
    };
    let mut v: Vec<TextLine> = Vec::new();
    v.push(pair(piece_str(" ", Tone::Fg, Emphasis::Plain), piece_str("◈ RACCPACK", Tone::Focus, Emphasis::Bold)));
    v.push(pair(piece_str("  ", Tone::Fg, Emphasis::Plain), piece_str("workspace", Tone::Muted, Emphasis::Plain)));
    v.push(crate::styled::blank());
    let ghost head = lines_view(v@);
    let mut i: usize = 0;
    while i < 4
        invariant
            0 <= i <= 4,
            head.len() == 3,
            focused == (app.focus == Focus::Sidebar),
            lines_view(v@) == head + Seq::new(
                i as nat,
                |j: int|
                    nav_line_text(
                        ALL_VIEWS@[j],
                        app.current_view == ALL_VIEWS@[j],
                        focused,
                        badge_of(*app, ALL_VIEWS@[j]),
                        width as nat,
                    ),
            ),
        decreases 4 - i,
    {
        let view = ALL_VIEWS[i];
        let badge = nav_badge(app, view);
        let line = nav_line(view, app.current_view == view, focused, badge, width);
        v.push(line);
        assert(lines_view(v@) =~= head + Seq::new(
            (i + 1) as nat,
            |j: int|
                nav_line_text(
                    ALL_VIEWS@[j],
                    app.current_view == ALL_VIEWS@[j],
                    focused,
                    badge_of(*app, ALL_VIEWS@[j]),
                    width as nat,
                ),
        ));
        i = i + 1;
    }
    let mut divider = String::new();
    push_repeated(&mut divider, '─', width as usize);
    let mut version = String::new();
    push_str(&mut version, "v");
    push_str(&mut version, VERSION);
    v.push(crate::styled::single(divider, Tone::Muted, Emphasis::Plain));
    v.push(pair(piece_str(" ", Tone::Fg, Emphasis::Plain), piece(version, Tone::Muted, Emphasis::Plain)));
    assert(lines_view(v@) =~= sidebar_text(*app, width as nat));
    v
}

} // verus!
