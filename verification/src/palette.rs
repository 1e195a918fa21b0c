//! The screens' colour palette (tables, detail strips, the activity panel),
//! as `0xRRGGBB` values, with its space tokens and glyphs.

use vstd::prelude::*;

verus! {

/// Background — very dark grey, near-black.
pub const BG: u32 = 0x0b0c0e;

/// Foreground — warm off-white.
pub const FG: u32 = 0xe8e6e1;

/// Accent — muted teal for interactive elements.
pub const ACCENT: u32 = 0x56b6c2;

/// Danger — errors, critical findings.
pub const DANGER: u32 = 0xe06c75;

/// Warning — non-critical alerts.
pub const WARNING: u32 = 0xe5c07b;

/// Success — completed operations, clean state.
pub const SUCCESS: u32 = 0x98c379;

/// Muted — secondary text, disabled items.
pub const MUTED: u32 = 0x5c6370;

/// Border — panel and separator lines.
pub const BORDER: u32 = 0x3e4451;

/// Surface — card and row background tint.
pub const SURFACE: u32 = 0x1a1c20;

/// Selection — highlighted / focused item.
pub const SELECTION: u32 = 0x3b4048;

/// Accent dim — softer accent when a region is not focused.
pub const ACCENT_DIM: u32 = 0x7ec8d1;

/// Git clean — git repo present (the success colour).
pub const GIT_CLEAN: u32 = 0x98c379;

/// Git dirty or absent (the muted colour).
pub const GIT_DIRTY_OR_ABSENT: u32 = 0x5c6370;

/// Sidebar width in character columns.
pub const SPACE_SIDEBAR_WIDTH: u16 = 23;

/// Header height in rows.
pub const SPACE_HEADER_HEIGHT: u16 = 1;

/// Footer height in rows.
pub const SPACE_FOOTER_HEIGHT: u16 = 1;

/// Detail strip height in rows.
pub const SPACE_DETAIL_HEIGHT: u16 = 7;

/// Accent rail width for the active sidebar item.
pub const SPACE_SIDEBAR_ACCENT_BAR: u16 = 2;

/// Accent bar width for the selected table row.
pub const SPACE_ROW_ACCENT_BAR: u16 = 1;

/// Git repo present.
pub const GIT_CLEAN_GLYPH: &'static str = "●";

/// Git repo absent / neutral mark.
pub const GIT_ABSENT_GLYPH: &'static str = "·";

/// Empty-cell placeholder (a middle dot, not a hyphen).
pub const EMPTY_PLACEHOLDER: &'static str = "·";

} // verus!
