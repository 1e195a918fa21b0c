//! Styled display text: lines made of pieces, each with a colour role and
//! an emphasis. The screens' text is built here; the terminal layer maps
//! roles to theme colours and draws the lines.

use vstd::prelude::*;
use vstd::string::StrSliceExecFns;
use crate::text::{push_char, push_str};

verus! {

/// Colour role of a piece of text.
#[derive(Debug, Clone, Copy, PartialEq, Eq, Structural)]
pub enum Tone {
    /// Primary text.
    Fg,
    /// Secondary text, hints, placeholders.
    Muted,
    /// Focus / brand accent.
    Focus,
    Success,
    Warning,
    Danger,
    Info,
    /// Table and panel accent.
    Accent,
}

/// Emphasis of a piece of text.
#[derive(Debug, Clone, Copy, PartialEq, Eq, Structural)]
pub enum Emphasis {
    Plain,
    Bold,
    Italic,
}

/// A run of text in one style.
#[derive(Debug)]
pub struct Piece {
    pub text: String,
    pub tone: Tone,
    pub emphasis: Emphasis,
}

/// Plain-value form of a [`Piece`].
pub struct PieceView {
    pub text: Seq<char>,
    pub tone: Tone,
    pub emphasis: Emphasis,
}

impl View for Piece {
    type V = PieceView;

    open spec fn view(&self) -> PieceView {
        PieceView { text: self.text@, tone: self.tone, emphasis: self.emphasis }
    }
}

/// One display line.
#[derive(Debug)]
pub struct TextLine {
    pub pieces: Vec<Piece>,
}

impl View for TextLine {
    type V = Seq<PieceView>;

    open spec fn view(&self) -> Seq<PieceView> {
        self.pieces@.map_values(|p: Piece| p@)
    }
}

/// The plain-value form of a list of lines.
pub open spec fn lines_view(v: Seq<TextLine>) -> Seq<Seq<PieceView>> {
    v.map_values(|l: TextLine| l@)
}

/// Appending a line appends its view.
pub broadcast proof fn lemma_lines_push(v: Seq<TextLine>, l: TextLine)
    ensures
        #[trigger] lines_view(v.push(l)) == lines_view(v).push(l@),
{
    assert(lines_view(v.push(l)) =~= lines_view(v).push(l@));
}

/// A piece of text in a style.
pub open spec fn pv(text: Seq<char>, tone: Tone, emphasis: Emphasis) -> PieceView {
    PieceView { text, tone, emphasis }
}

/// A line of one plain piece.
pub open spec fn plain_line(text: Seq<char>, tone: Tone) -> Seq<PieceView> {
    seq![pv(text, tone, Emphasis::Plain)]
}

/// A line of one bold piece.
pub open spec fn bold_line(text: Seq<char>, tone: Tone) -> Seq<PieceView> {
    seq![pv(text, tone, Emphasis::Bold)]
}

/// A hint line: one muted, italic piece.
pub open spec fn hint_line(text: Seq<char>) -> Seq<PieceView> {
    seq![pv(text, Tone::Muted, Emphasis::Italic)]
}

/// `n` spaces.
pub open spec fn spaces(n: nat) -> Seq<char>
    decreases n,
{
    if n == 0 {
        Seq::empty()
    } else {
        spaces((n - 1) as nat).push(' ')
    }
}

/// `n` copies of `c`.
pub open spec fn repeated(c: char, n: nat) -> Seq<char>
    decreases n,
{
    if n == 0 {
        Seq::empty()
    } else {
        repeated(c, (n - 1) as nat).push(c)
    }
}

/// `s` padded on the right with spaces to at least `width` characters.
pub open spec fn pad_right(s: Seq<char>, width: nat) -> Seq<char> {
    if s.len() < width {
        s + spaces((width - s.len()) as nat)
    } else {
        s
    }
}

/// `s` padded on the left with spaces to at least `width` characters.
pub open spec fn pad_left(s: Seq<char>, width: nat) -> Seq<char> {
    if s.len() < width {
        spaces((width - s.len()) as nat) + s
    } else {
        s
    }
}

/// A label/value row: the label muted and padded to 12 columns after two
/// spaces of indent, then the value.
pub open spec fn row_line(label: Seq<char>, value: Seq<char>, tone: Tone) -> Seq<PieceView> {
    seq![pv("  "@ + pad_right(label, 12), Tone::Muted, Emphasis::Plain), pv(value, tone, Emphasis::Plain)]
}

/// An on/off option row: `on` in the focus colour, `off` muted.
pub open spec fn toggled_line(label: Seq<char>, on: bool) -> Seq<PieceView> {
    if on {
        row_line(label, "on"@, Tone::Focus)
    } else {
        row_line(label, "off"@, Tone::Muted)
    }
}

/// A piece of text in a style.
pub fn piece(text: String, tone: Tone, emphasis: Emphasis) -> (p: Piece)
    ensures
        p@ == pv(text@, tone, emphasis),
{
    Piece { text, tone, emphasis }
}

/// A piece holding a copy of `text`.
pub fn piece_str(text: &str, tone: Tone, emphasis: Emphasis) -> (p: Piece)
    ensures
        p@ == pv(text@, tone, emphasis),
{
    Piece { text: text.to_string(), tone, emphasis }
}

/// A line of the given pieces.
pub fn line_of(pieces: Vec<Piece>) -> (l: TextLine)
    ensures
        l@ == pieces@.map_values(|p: Piece| p@),
{
    TextLine { pieces }
}

/// A line of one piece.
pub fn single(text: String, tone: Tone, emphasis: Emphasis) -> (l: TextLine)
    ensures
        l@ == seq![pv(text@, tone, emphasis)],
{
    let mut pieces: Vec<Piece> = Vec::new();
    pieces.push(piece(text, tone, emphasis));
    let l = TextLine { pieces };
    assert(l@ =~= seq![pv(text@, tone, emphasis)]);
    l
}

/// A line of one piece copied from `text`.
pub fn single_str(text: &str, tone: Tone, emphasis: Emphasis) -> (l: TextLine)
    ensures
        l@ == seq![pv(text@, tone, emphasis)],
{
    single(text.to_string(), tone, emphasis)
}

/// A line of two pieces.
pub fn pair(a: Piece, b: Piece) -> (l: TextLine)
    ensures
        l@ == seq![a@, b@],
{
    let ghost av = a@;
    let ghost bv = b@;
    let mut pieces: Vec<Piece> = Vec::new();
    pieces.push(a);
    pieces.push(b);
    let l = TextLine { pieces };
    assert(l@ =~= seq![av, bv]);
    l
}

/// An empty line.
pub fn blank() -> (l: TextLine)
    ensures
        l@ == Seq::<PieceView>::empty(),
{
    let l = TextLine { pieces: Vec::new() };
    assert(l@ =~= Seq::<PieceView>::empty());
    l
}

/// A hint line.
pub fn hint(text: &str) -> (l: TextLine)
    ensures
        l@ == hint_line(text@),
{
    single_str(text, Tone::Muted, Emphasis::Italic)
}

/// A bold line.
pub fn bold(text: String, tone: Tone) -> (l: TextLine)
    ensures
        l@ == bold_line(text@, tone),
{
    single(text, tone, Emphasis::Bold)
}

/// Append `n` copies of `c`.
pub fn push_repeated(s: &mut String, c: char, n: usize)
    ensures
        final(s)@ == old(s)@ + repeated(c, n as nat),
{
    let mut i: usize = 0;
    while i < n
        invariant
            0 <= i <= n,
            s@ == old(s)@ + repeated(c, i as nat),
        decreases n - i,
    {
        push_char(s, c);
        assert(old(s)@ + repeated(c, (i + 1) as nat) =~= old(s)@ + repeated(c, i as nat) + seq![c]);
        i = i + 1;
    }
}

/// Append `t` padded on the right with spaces to `width` characters.
pub fn push_padded_right(s: &mut String, t: &str, width: usize)
    ensures
        final(s)@ == old(s)@ + pad_right(t@, width as nat),
{
    push_str(s, t);
    let n = t.unicode_len();
    if n < width {
        push_repeated(s, ' ', width - n);
        proof {
            lemma_spaces_repeated((width - n) as nat);
        }
    }
    assert(final(s)@ =~= old(s)@ + pad_right(t@, width as nat)) by {
        if t@.len() < width {
        }
    }
}

/// Append `t` padded on the left with spaces to `width` characters.
pub fn push_padded_left(s: &mut String, t: &str, width: usize)
    ensures
        final(s)@ == old(s)@ + pad_left(t@, width as nat),
{
    let n = t.unicode_len();
    if n < width {
        push_repeated(s, ' ', width - n);
        proof {
            lemma_spaces_repeated((width - n) as nat);
        }
    }
    push_str(s, t);
    assert(final(s)@ =~= old(s)@ + pad_left(t@, width as nat));
}

proof fn lemma_spaces_repeated(n: nat)
    ensures
        spaces(n) == repeated(' ', n),
    decreases n,
{
    if n > 0 {
        lemma_spaces_repeated((n - 1) as nat);
    }
}

/// A label/value row.
pub fn row(label: &str, value: &str, tone: Tone) -> (l: TextLine)
    ensures
        l@ == row_line(label@, value@, tone),
{
    let mut head = String::new();
    push_str(&mut head, "  ");
    push_padded_right(&mut head, label, 12);
    assert(head@ =~= "  "@ + pad_right(label@, 12));
    pair(piece(head, Tone::Muted, Emphasis::Plain), piece_str(value, tone, Emphasis::Plain))
}

/// An on/off option row.
pub fn toggled(label: &str, on: bool) -> (l: TextLine)
    ensures
        l@ == toggled_line(label@, on),
{
    if on {
        row(label, "on", Tone::Focus)
    } else {
        row(label, "off", Tone::Muted)
    }
}

} // verus!
