//! Text of the Overview dashboard: the workspace metrics and their tiles,
//! the detection health line, the recent-project cards and their grid,
//! and the hints shown before the first scan.

use vstd::prelude::*;
use vstd::string::StrSliceExecFns;
use crate::palette::{EMPTY_PLACEHOLDER, GIT_CLEAN_GLYPH};
use crate::sniff::{ProjectRow, SniffScreenState};
use crate::styled::{Emphasis, Piece, PieceView, TextLine, Tone, lines_view, piece, piece_str, pv};
use crate::text::{decimal, decimal_string, push_decimal, push_str, str_eq};
use crate::units::{bytes_text, format_bytes};

verus! {

broadcast use crate::styled::lemma_lines_push;

/// Empty-state hint shown while no scan has run yet.
pub const EMPTY_HINT_TITLE: &'static str = "No projects scanned yet";

/// Empty-state hint action: the path to the first scan.
pub const EMPTY_HINT_ACTION: &'static str = "press 2 or Tab → Projects, then r";

/// Most recent projects shown on the dashboard.
pub const RECENT_MAX: usize = 6;

/// Width hint used to derive the card grid's column count.
pub const CARD_WIDTH: usize = 24;

/// One spacer row between card rows.
pub const CARD_GAP: u16 = 1;

/// Card height in rows: name, language and size, git state, path.
pub const CARD_HEIGHT: u16 = 4;

/// Snapshot of the five workspace metrics.
#[derive(Debug, Clone, Copy, PartialEq, Eq, Structural)]
pub struct KpiMetrics {
    /// Detected projects.
    pub projects: usize,
    /// Rust projects.
    pub rust: usize,
    /// JavaScript and TypeScript projects.
    pub js_ts: usize,
    /// Total scanned size in bytes.
    pub total_size_bytes: u64,
    /// Projects that are git repositories.
    pub git_repos: usize,
}

impl Default for KpiMetrics {
    fn default() -> (m: KpiMetrics)
        ensures
            m == (KpiMetrics { projects: 0, rust: 0, js_ts: 0, total_size_bytes: 0, git_repos: 0 }),
    {
        KpiMetrics { projects: 0, rust: 0, js_ts: 0, total_size_bytes: 0, git_repos: 0 }
    }
}

/// Whether a project's language is `name`.
pub open spec fn language_is(p: ProjectRow, name: Seq<char>) -> bool {
    match p.language {
        Some(l) => l@ == name,
        None => false,
    }
}

/// Whether a project is written in JavaScript or TypeScript.
pub open spec fn is_js_ts(p: ProjectRow) -> bool {
    language_is(p, "JavaScript"@) || language_is(p, "TypeScript"@)
}

/// The metrics of a scan: project count, Rust projects, JavaScript and
/// TypeScript projects, total size, git repositories.
pub open spec fn metrics_of(s: SniffScreenState) -> KpiMetrics {
    KpiMetrics {
        projects: s.projects@.len() as usize,
        rust: s.projects@.filter(|p: ProjectRow| language_is(p, "Rust"@)).len() as usize,
        js_ts: s.projects@.filter(|p: ProjectRow| is_js_ts(p)).len() as usize,
        total_size_bytes: s.total_size,
        git_repos: s.projects@.filter(|p: ProjectRow| p.is_git_repo).len() as usize,
    }
}

fn language_eq(p: &ProjectRow, name: &str) -> (b: bool)
    ensures
        b == language_is(*p, name@),
{
    match &p.language {
        Some(l) => str_eq(l.as_str(), name),
        None => false,
    }
}

/// The metrics of the scan in `state`.
pub fn metrics_from(state: &SniffScreenState) -> (m: KpiMetrics)
    ensures
        m == metrics_of(*state),
{
    let ghost all = state.projects@;
    let mut rust: usize = 0;
    let mut js_ts: usize = 0;
    let mut git: usize = 0;
    let mut i: usize = 0;
    while i < state.projects.len()
        invariant
            0 <= i <= all.len(),
            all == state.projects@,
            rust == all.take(i as int).filter(|p: ProjectRow| language_is(p, "Rust"@)).len(),
            js_ts == all.take(i as int).filter(|p: ProjectRow| is_js_ts(p)).len(),
            git == all.take(i as int).filter(|p: ProjectRow| p.is_git_repo).len(),
            rust <= i,
            js_ts <= i,
            git <= i,
        decreases all.len() - i,
    {
        let p = &state.projects[i];
        proof {
            assert(all.take(i + 1) =~= all.take(i as int).push(all[i as int]));
            all.take(i as int).lemma_filter_push(all[i as int], |p: ProjectRow| language_is(p, "Rust"@));
            all.take(i as int).lemma_filter_push(all[i as int], |p: ProjectRow| is_js_ts(p));
            all.take(i as int).lemma_filter_push(all[i as int], |p: ProjectRow| p.is_git_repo);
        }
        if language_eq(p, "Rust") {
            rust = rust + 1;
        }
        if language_eq(p, "JavaScript") || language_eq(p, "TypeScript") {
            js_ts = js_ts + 1;
        }
        if p.is_git_repo {
            git = git + 1;
        }
        i = i + 1;
    }
    assert(all.take(all.len() as int) =~= all);
    KpiMetrics {
        projects: state.projects.len(),
        rust,
        js_ts,
        total_size_bytes: state.total_size,
        git_repos: git,
    }
}

/// Accent colour of a language: the brand colour for Rust, the technology
/// colour for JavaScript and TypeScript, muted for anything else.
pub open spec fn language_tone(lang: Seq<char>) -> Tone {
    if lang == "Rust"@ {
        Tone::Focus
    } else if lang == "JavaScript"@ || lang == "TypeScript"@ {
        Tone::Info
    } else {
        Tone::Muted
    }
}

/// Accent colour of a language.
pub fn language_accent(lang: &str) -> (t: Tone)
    ensures
        t == language_tone(lang@),
{
    if str_eq(lang, "Rust") {
        Tone::Focus
    } else if str_eq(lang, "JavaScript") || str_eq(lang, "TypeScript") {
        Tone::Info
    } else {
        Tone::Muted
    }
}

/// One metric tile: the value in front, a muted label underneath.
#[derive(Debug)]
pub struct Tile {
    pub value: String,
    pub label: &'static str,
    pub accent: Tone,
}

/// The five tiles: projects, Rust (brand accent), JS/TS (technology
/// accent), total size, git repositories.
pub open spec fn tiles_text(m: KpiMetrics) -> Seq<(Seq<char>, Seq<char>, Tone)> {
    seq![
        (decimal(m.projects as nat), "projects"@, Tone::Fg),
        (decimal(m.rust as nat), "Rust"@, language_tone("Rust"@)),
        (decimal(m.js_ts as nat), "JS/TS"@, Tone::Info),
        (bytes_text(m.total_size_bytes as nat), "total size"@, Tone::Fg),
        (decimal(m.git_repos as nat), "git repos"@, Tone::Fg),
    ]
}

/// The five metric tiles.
pub fn build_tiles(metrics: &KpiMetrics) -> (tiles: Vec<Tile>)
    ensures
        tiles@.map_values(|t: Tile| (t.value@, t.label@, t.accent)) == tiles_text(*metrics),
{
    let tiles = vec![
        Tile { value: decimal_string(metrics.projects as u64), label: "projects", accent: Tone::Fg },
        Tile { value: decimal_string(metrics.rust as u64), label: "Rust", accent: language_accent("Rust") },
        Tile { value: decimal_string(metrics.js_ts as u64), label: "JS/TS", accent: Tone::Info },
        Tile { value: format_bytes(metrics.total_size_bytes), label: "total size", accent: Tone::Fg },
        Tile { value: decimal_string(metrics.git_repos as u64), label: "git repos", accent: Tone::Fg },
    ];
    assert(tiles@.map_values(|t: Tile| (t.value@, t.label@, t.accent)) =~= tiles_text(*metrics));
    tiles
}

/// `✓ detection READY · N projects · M git`, with ` (cache)` after a
/// cached scan.
pub open spec fn health_text(from_cache: bool, m: KpiMetrics) -> Seq<PieceView> {
    let base = seq![
        pv("✓"@, Tone::Success, Emphasis::Bold),
        pv(" "@, Tone::Fg, Emphasis::Plain),
        pv("detection READY"@, Tone::Success, Emphasis::Bold),
        pv("  ·  "@, Tone::Fg, Emphasis::Plain),
        pv(decimal(m.projects as nat) + " projects"@, Tone::Fg, Emphasis::Plain),
        pv(" · "@, Tone::Fg, Emphasis::Plain),
        pv(decimal(m.git_repos as nat) + " git"@, Tone::Fg, Emphasis::Plain),
    ];
    if from_cache {
        base.push(pv(" (cache)"@, Tone::Muted, Emphasis::Plain))
    } else {
        base
    }
}

/// The detection health line.
pub fn health_line(state: &SniffScreenState, metrics: &KpiMetrics) -> (l: TextLine)
    ensures
        l@ == health_text(state.from_cache, *metrics),
{
    let mut projects = String::new();
    push_decimal(&mut projects, metrics.projects as u64);
    push_str(&mut projects, " projects");
    let mut git = String::new();
    push_decimal(&mut git, metrics.git_repos as u64);
    push_str(&mut git, " git");
    let mut pieces: Vec<Piece> = Vec::new();
    pieces.push(piece_str("✓", Tone::Success, Emphasis::Bold));
    pieces.push(piece_str(" ", Tone::Fg, Emphasis::Plain));
    pieces.push(piece_str("detection READY", Tone::Success, Emphasis::Bold));
    pieces.push(piece_str("  ·  ", Tone::Fg, Emphasis::Plain));
    pieces.push(piece(projects, Tone::Fg, Emphasis::Plain));
    pieces.push(piece_str(" · ", Tone::Fg, Emphasis::Plain));
    pieces.push(piece(git, Tone::Fg, Emphasis::Plain));
    if state.from_cache {
        pieces.push(piece_str(" (cache)", Tone::Muted, Emphasis::Plain));
    }
    let l = TextLine { pieces };
    assert(l@ =~= health_text(state.from_cache, *metrics));
    l
}

/// The path of a card, or the placeholder when empty.
pub open spec fn card_path(p: ProjectRow) -> Seq<char> {
    if p.path@.len() == 0 {
        EMPTY_PLACEHOLDER@
    } else {
        p.path@
    }
}

/// The path of a card, or the placeholder when empty.
pub fn path_or_placeholder(project: &ProjectRow) -> (s: String)
    ensures
        s@ == card_path(*project),
{
    if project.path.as_str().unicode_len() == 0 {
        EMPTY_PLACEHOLDER.to_string()
    } else {
        project.path.clone()
    }
}

/// A project card: the name (bold); language with its accent dot (or the
/// placeholder) and size (or the placeholder when zero); `● CLEAN` for a
/// git repository, else the placeholder; and the path.
pub open spec fn card_text(p: ProjectRow) -> Seq<Seq<PieceView>> {
    let lang = match p.language {
        Some(l) => seq![pv("● "@, language_tone(l@), Emphasis::Plain), pv(l@, Tone::Fg, Emphasis::Plain)],
        None => seq![pv(EMPTY_PLACEHOLDER@, Tone::Muted, Emphasis::Plain)],
    };
    let size = if p.size_bytes == 0 {
        EMPTY_PLACEHOLDER@
    } else {
        bytes_text(p.size_bytes as nat)
    };
    seq![
        seq![pv(p.name@, Tone::Fg, Emphasis::Bold)],
        lang + seq![pv(" · "@, Tone::Muted, Emphasis::Plain), pv(size, Tone::Fg, Emphasis::Plain)],
        if p.is_git_repo {
            seq![pv("● "@, Tone::Success, Emphasis::Plain), pv("CLEAN"@, Tone::Success, Emphasis::Bold)]
        } else {
            seq![pv(EMPTY_PLACEHOLDER@, Tone::Muted, Emphasis::Plain)]
        },
        seq![pv(card_path(p), Tone::Muted, Emphasis::Plain)],
    ]
}

/// The lines of a project card.
pub fn card_lines(project: &ProjectRow) -> (v: Vec<TextLine>)
    ensures
        lines_view(v@) == card_text(*project),
{
    let mut secondary: Vec<Piece> = Vec::new();
    match &project.language {
        Some(lang) => {
            secondary.push(piece_str("● ", language_accent(lang.as_str()), Emphasis::Plain));
            secondary.push(piece(lang.clone(), Tone::Fg, Emphasis::Plain));
        },
        None => secondary.push(piece_str(EMPTY_PLACEHOLDER, Tone::Muted, Emphasis::Plain)),
    }
    secondary.push(piece_str(" · ", Tone::Muted, Emphasis::Plain));
    let size = if project.size_bytes == 0 {
        EMPTY_PLACEHOLDER.to_string()
    } else {
        format_bytes(project.size_bytes)
    };
    secondary.push(piece(size, Tone::Fg, Emphasis::Plain));
    let mut state: Vec<Piece> = Vec::new();
    if project.is_git_repo {
        state.push(piece_str("● ", Tone::Success, Emphasis::Plain));
        state.push(piece_str("CLEAN", Tone::Success, Emphasis::Bold));
    } else {
        state.push(piece_str(EMPTY_PLACEHOLDER, Tone::Muted, Emphasis::Plain));
    }
    let second = TextLine { pieces: secondary };
    let third = TextLine { pieces: state };
    assert(second@ =~= card_text(*project)[1]);
    assert(third@ =~= card_text(*project)[2]);
    let mut v: Vec<TextLine> = Vec::new();
    v.push(crate::styled::single(project.name.clone(), Tone::Fg, Emphasis::Bold));
    v.push(second);
    v.push(third);
    v.push(crate::styled::single(path_or_placeholder(project), Tone::Muted, Emphasis::Plain));
    assert(lines_view(v@) =~= card_text(*project));
    v
}

/// Columns of the card grid for an area `width` columns wide: one per
/// card width of the inner width (at least one).
pub open spec fn grid_columns(width: nat) -> nat {
    let inner = if width >= 1 { (width - 1) as nat } else { 0 };
    if inner / (CARD_WIDTH as nat) >= 1 {
        inner / (CARD_WIDTH as nat)
    } else {
        1
    }
}

/// Card rows that fit in `height` rows: the first card, then one per card
/// plus gap (none when not even one card fits).
pub open spec fn grid_rows(height: nat) -> nat {
    if height < CARD_HEIGHT as nat {
        0
    } else {
        1 + ((height - CARD_HEIGHT as nat) as nat) / ((CARD_HEIGHT + CARD_GAP) as nat)
    }
}

/// How many cards the grid shows out of `available`: at most `RECENT_MAX`,
/// and no more than fit in the area's columns and rows.
pub open spec fn grid_cards(width: nat, height: nat, available: nat) -> nat {
    let recent = if available > RECENT_MAX as nat { RECENT_MAX as nat } else { available };
    let fit = grid_columns(width) * grid_rows(height);
    if recent < fit { recent } else { fit }
}

/// Layout of the card grid: the column count and how many cards it shows.
pub fn card_grid(width: u16, height: u16, available: usize) -> (r: (usize, usize))
    ensures
        r.0 == grid_columns(width as nat),
        r.1 == grid_cards(width as nat, height as nat, available as nat),
{
    let inner: usize = if width >= 1 { (width - 1) as usize } else { 0 };
    let cols: usize = if inner / CARD_WIDTH >= 1 { inner / CARD_WIDTH } else { 1 };
    let rows: usize = if height < CARD_HEIGHT {
        0
    } else {
        1 + ((height - CARD_HEIGHT) / (CARD_HEIGHT + CARD_GAP)) as usize
    };
    assert(cols <= 65535 && rows <= 65535);
    assert((cols as u64) * (rows as u64) <= 65535 * 65535) by (nonlinear_arith)
        requires
            cols <= 65535,
            rows <= 65535,
    ;
    let fit: u64 = cols as u64 * rows as u64;
    let recent: usize = if available > RECENT_MAX { RECENT_MAX } else { available };
    (cols, if (recent as u64) < fit { recent } else { fit as usize })
}

} // verus!
