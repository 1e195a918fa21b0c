//! Theme tokens: primitive 24-bit colours, their semantic and intent
//! names, the layout space tokens and the component glyphs. Colours are
//! `0xRRGGBB` values; the terminal layer turns them into its own colour
//! type.

use vstd::prelude::*;

verus! {

/// Background — deep graphite.
pub const BG: u32 = 0x080a0d;

/// Surface — base panels, subtle zebra rows.
pub const SURFACE: u32 = 0x0d1117;

/// Raised surface — selection wash, active rows.
pub const SURFACE_RAISED: u32 = 0x131820;

/// Border — panel edges and separator rules.
pub const BORDER: u32 = 0x242b34;

/// Text — primary foreground.
pub const TEXT: u32 = 0xe6edf3;

/// Muted — secondary text, hints, empty placeholders.
pub const MUTED: u32 = 0x6b7785;

/// Brand primary — RaccPack orange: focus, primary action, identity.
pub const BRAND_PRIMARY: u32 = 0xff8a3d;

/// Brand bright — hover / strong emphasis.
pub const BRAND_BRIGHT: u32 = 0xffb454;

/// Brand dim — quiet brand accents.
pub const BRAND_DIM: u32 = 0xa65329;

/// Success — healthy / clean / ok.
pub const SUCCESS: u32 = 0x7ccb5e;

/// Warning — attention.
pub const WARNING: u32 = 0xe6b450;

/// Danger — error / destructive.
pub const DANGER: u32 = 0xf06c75;

/// Info — technology / information.
pub const INFO: u32 = 0x61afef;

/// Analysis — detection / DAG.
pub const ANALYSIS: u32 = 0xc678dd;

/// Primary foreground (the text colour).
pub const FG: u32 = TEXT;

/// Git repo present (the success colour).
pub const GIT_CLEAN: u32 = SUCCESS;

/// Git dirty or absent (the muted colour).
pub const GIT_DIRTY_OR_ABSENT: u32 = MUTED;

/// Keyboard focus / current selection: the brand orange.
pub const FOCUS: u32 = BRAND_PRIMARY;

/// Primary action (confirm, commit): the brand orange.
pub const PRIMARY_ACTION: u32 = BRAND_PRIMARY;

/// Sidebar width in character columns.
pub const SPACE_SIDEBAR_WIDTH: u16 = 23;

/// Header height in rows.
pub const SPACE_HEADER_HEIGHT: u16 = 1;

/// Footer height in rows.
pub const SPACE_FOOTER_HEIGHT: u16 = 1;

/// Detail strip height in rows.
pub const SPACE_DETAIL_HEIGHT: u16 = 7;

/// Accent rail width for the active sidebar item.
pub const SPACE_SIDEBAR_ACCENT_BAR: u16 = 2;

/// Accent bar width for the selected table row.
pub const SPACE_ROW_ACCENT_BAR: u16 = 1;

/// Git repo present.
pub const GIT_CLEAN_GLYPH: &'static str = "●";

/// Git repo absent / neutral mark.
pub const GIT_ABSENT_GLYPH: &'static str = "·";

/// Empty-cell placeholder (a middle dot, not a hyphen).
pub const EMPTY_PLACEHOLDER: &'static str = "·";

/// The primitive tokens, name and hex, in registry order.
pub open spec fn primitive_hex_table() -> Seq<(Seq<char>, Seq<char>)> {
    seq![
        ("bg"@, "#080A0D"@),
        ("surface"@, "#0D1117"@),
        ("surface-raised"@, "#131820"@),
        ("border"@, "#242B34"@),
        ("text"@, "#E6EDF3"@),
        ("muted"@, "#6B7785"@),
        ("brand-primary"@, "#FF8A3D"@),
        ("brand-bright"@, "#FFB454"@),
        ("brand-dim"@, "#A65329"@),
        ("success"@, "#7CCB5E"@),
        ("warning"@, "#E6B450"@),
        ("danger"@, "#F06C75"@),
        ("info"@, "#61AFEF"@),
        ("analysis"@, "#C678DD"@),
    ]
}

/// The primitive tokens, name and colour, in registry order.
pub open spec fn primitive_rgb_table() -> Seq<(Seq<char>, u32)> {
    seq![
        ("bg"@, BG),
        ("surface"@, SURFACE),
        ("surface-raised"@, SURFACE_RAISED),
        ("border"@, BORDER),
        ("text"@, TEXT),
        ("muted"@, MUTED),
        ("brand-primary"@, BRAND_PRIMARY),
        ("brand-bright"@, BRAND_BRIGHT),
        ("brand-dim"@, BRAND_DIM),
        ("success"@, SUCCESS),
        ("warning"@, WARNING),
        ("danger"@, DANGER),
        ("info"@, INFO),
        ("analysis"@, ANALYSIS),
    ]
}

/// Name → hex registry of all primitives (token checks, docs, audits).
pub fn all_primitive_hex() -> (r: Vec<(&'static str, &'static str)>)
    ensures
        r@.map_values(|e: (&'static str, &'static str)| (e.0@, e.1@)) == primitive_hex_table(),
{
    let r = vec![
        ("bg", "#080A0D"),
        ("surface", "#0D1117"),
        ("surface-raised", "#131820"),
        ("border", "#242B34"),
        ("text", "#E6EDF3"),
        ("muted", "#6B7785"),
        ("brand-primary", "#FF8A3D"),
        ("brand-bright", "#FFB454"),
        ("brand-dim", "#A65329"),
        ("success", "#7CCB5E"),
        ("warning", "#E6B450"),
        ("danger", "#F06C75"),
        ("info", "#61AFEF"),
        ("analysis", "#C678DD"),
    ];
    assert(r@.map_values(|e: (&'static str, &'static str)| (e.0@, e.1@)) =~= primitive_hex_table());
    r
}

/// Name → colour registry of all primitives, in the hex registry's order.
pub fn all_primitive_rgb() -> (r: Vec<(&'static str, u32)>)
    ensures
        r@.map_values(|e: (&'static str, u32)| (e.0@, e.1)) == primitive_rgb_table(),
{
    let r = vec![
        ("bg", BG),
        ("surface", SURFACE),
        ("surface-raised", SURFACE_RAISED),
        ("border", BORDER),
        ("text", TEXT),
        ("muted", MUTED),
        ("brand-primary", BRAND_PRIMARY),
        ("brand-bright", BRAND_BRIGHT),
        ("brand-dim", BRAND_DIM),
        ("success", SUCCESS),
        ("warning", WARNING),
        ("danger", DANGER),
        ("info", INFO),
        ("analysis", ANALYSIS),
    ];
    assert(r@.map_values(|e: (&'static str, u32)| (e.0@, e.1)) =~= primitive_rgb_table());
    r
}

/// The two registries list the same names in the same order, and no two
/// primitives share a colour.
pub proof fn lemma_primitive_registries_agree()
    ensures
        primitive_hex_table().len() == primitive_rgb_table().len(),
        forall|i: int|
            0 <= i < primitive_hex_table().len() ==> (#[trigger] primitive_hex_table()[i]).0
                == primitive_rgb_table()[i].0,
        forall|i: int, j: int|
            0 <= i < j < primitive_rgb_table().len() ==> (#[trigger] primitive_rgb_table()[i]).1
                != (#[trigger] primitive_rgb_table()[j]).1,
{
}

} // verus!
