use raccpack_tui::palette;
use raccpack_tui::theme::{self, all_primitive_hex, all_primitive_rgb};

fn rgb(r: u8, g: u8, b: u8) -> u32 {
    ((r as u32) << 16) | ((g as u32) << 8) | (b as u32)
}

fn is_rgb(c: u32) -> bool {
    c <= 0x00ff_ffff
}

fn parse_hex(hex: &str) -> Option<u32> {
    let digits = hex.strip_prefix('#')?;
    if digits.len() != 6 {
        return None;
    }
    u32::from_str_radix(digits, 16).ok()
}

#[test]
fn focus_is_brand_primary() {
    assert_eq!(theme::FOCUS, theme::BRAND_PRIMARY);
}

#[test]
fn focus_is_raccpack_orange() {
    assert_eq!(theme::FOCUS, rgb(0xff, 0x8a, 0x3d));
}

#[test]
fn primary_action_is_brand_primary() {
    assert_eq!(theme::PRIMARY_ACTION, theme::BRAND_PRIMARY);
}

#[test]
fn primary_action_is_raccpack_orange() {
    assert_eq!(theme::PRIMARY_ACTION, rgb(0xff, 0x8a, 0x3d));
}

#[test]
fn registry_has_all_14_primitives() {
    assert_eq!(all_primitive_hex().len(), 14);
    assert_eq!(all_primitive_rgb().len(), 14);
}

#[test]
fn registry_names_agree_and_follow_hex_order() {
    let hex_names: Vec<_> = all_primitive_hex().iter().map(|(n, _)| *n).collect();
    let rgb_names: Vec<_> = all_primitive_rgb().iter().map(|(n, _)| *n).collect();
    assert_eq!(hex_names, rgb_names, "hex and rgb registries must agree");
}

#[test]
fn registry_hexes_are_6_digit_rgb() {
    for (name, hex) in all_primitive_hex() {
        assert_eq!(hex.len(), 7, "{name} hex must be #RRGGBB");
        assert_eq!(hex.chars().next(), Some('#'), "{name} hex must start with #");
    }
}

#[test]
fn bg_is_deep_graphite() {
    assert_eq!(theme::BG, rgb(0x08, 0x0a, 0x0d));
}

#[test]
fn surface_is_elevated() {
    assert_eq!(theme::SURFACE, rgb(0x0d, 0x11, 0x17));
}

#[test]
fn surface_raised_is_brighter_than_surface() {
    assert_eq!(theme::SURFACE_RAISED, rgb(0x13, 0x18, 0x20));
}

#[test]
fn border_is_mid_graphite() {
    assert_eq!(theme::BORDER, rgb(0x24, 0x2b, 0x34));
}

#[test]
fn text_is_light() {
    assert_eq!(theme::TEXT, rgb(0xe6, 0xed, 0xf3));
}

#[test]
fn primitive_muted_is_grey() {
    assert_eq!(theme::MUTED, rgb(0x6b, 0x77, 0x85));
}

#[test]
fn brand_primary_is_raccpack_orange() {
    assert_eq!(theme::BRAND_PRIMARY, rgb(0xff, 0x8a, 0x3d));
}

#[test]
fn brand_bright_is_lighter_orange() {
    assert_eq!(theme::BRAND_BRIGHT, rgb(0xff, 0xb4, 0x54));
}

#[test]
fn brand_dim_is_muted_orange() {
    assert_eq!(theme::BRAND_DIM, rgb(0xa6, 0x53, 0x29));
}

#[test]
fn primitive_success_is_green() {
    assert_eq!(theme::SUCCESS, rgb(0x7c, 0xcb, 0x5e));
}

#[test]
fn primitive_warning_is_yellow() {
    assert_eq!(theme::WARNING, rgb(0xe6, 0xb4, 0x50));
}

#[test]
fn primitive_danger_is_red() {
    assert_eq!(theme::DANGER, rgb(0xf0, 0x6c, 0x75));
}

#[test]
fn info_is_blue() {
    assert_eq!(theme::INFO, rgb(0x61, 0xaf, 0xef));
}

#[test]
fn analysis_is_purple() {
    assert_eq!(theme::ANALYSIS, rgb(0xc6, 0x78, 0xdd));
}

#[test]
fn primitive_all_colours_are_rgb() {
    for (name, colour) in all_primitive_rgb() {
        assert!(is_rgb(colour), "primitive {name} must be RGB, got {colour:#x}");
    }
}

#[test]
fn primitives_are_pairwise_distinct() {
    let all = all_primitive_rgb();
    for (i, (name_i, colour_i)) in all.iter().enumerate() {
        for (name_j, colour_j) in all.iter().skip(i + 1) {
            assert_ne!(colour_i, colour_j, "primitives {name_i} and {name_j} must differ");
        }
    }
}

#[test]
fn hex_table_matches_typed_constants() {
    let rgb_table = all_primitive_rgb();
    for ((name, hex), (rgb_name, colour)) in all_primitive_hex().into_iter().zip(rgb_table) {
        assert_eq!(name, rgb_name);
        let parsed = parse_hex(hex).expect("primitive hex must be #RRGGBB");
        assert_eq!(parsed, colour, "constant {name} must match its hex {hex}");
    }
}

#[test]
fn ban_teal() {
    for (name, hex) in all_primitive_hex() {
        assert!(
            !hex.eq_ignore_ascii_case("#56B6C2") && !hex.eq_ignore_ascii_case("#7EC8D1"),
            "primitive {name} reintroduces a teal accent: {hex}"
        );
    }
}

#[test]
fn semantic_git_clean_is_success() {
    assert_eq!(theme::GIT_CLEAN, theme::SUCCESS);
}

#[test]
fn semantic_git_dirty_or_absent_is_muted() {
    assert_eq!(theme::GIT_DIRTY_OR_ABSENT, theme::MUTED);
}

#[test]
fn fg_is_text() {
    assert_eq!(theme::FG, theme::TEXT);
}

#[test]
fn semantic_all_colours_are_rgb() {
    let colours = [
        theme::BG, theme::SURFACE, theme::SURFACE_RAISED, theme::BORDER, theme::TEXT, theme::MUTED, theme::BRAND_PRIMARY, theme::BRAND_BRIGHT, theme::BRAND_DIM, theme::SUCCESS,
        theme::WARNING, theme::DANGER, theme::INFO, theme::ANALYSIS, theme::FG, theme::GIT_CLEAN, theme::GIT_DIRTY_OR_ABSENT,
    ];
    for c in &colours {
        assert!(is_rgb(*c), "expected RGB: {c:#x}");
    }
}

#[test]
fn semantic_semantic_pairs_are_distinct() {
    assert_ne!(theme::BG, theme::TEXT);
    assert_ne!(theme::BRAND_PRIMARY, theme::MUTED);
    assert_ne!(theme::DANGER, theme::SUCCESS);
    assert_ne!(theme::BRAND_PRIMARY, theme::DANGER);
    assert_ne!(theme::WARNING, theme::SUCCESS);
    assert_ne!(theme::SURFACE, theme::SURFACE_RAISED);
    assert_ne!(theme::BRAND_PRIMARY, theme::BRAND_BRIGHT);
    assert_ne!(theme::BRAND_PRIMARY, theme::BRAND_DIM);
    assert_ne!(theme::GIT_CLEAN, theme::GIT_DIRTY_OR_ABSENT);
    assert_ne!(theme::INFO, theme::ANALYSIS);
}

#[test]
fn semantic_space_tokens_match_design_tokens_json() {
    assert_eq!(theme::SPACE_SIDEBAR_WIDTH, 23, "sidebar-width");
    assert_eq!(theme::SPACE_HEADER_HEIGHT, 1, "header-height");
    assert_eq!(theme::SPACE_FOOTER_HEIGHT, 1, "footer-height");
    assert_eq!(theme::SPACE_DETAIL_HEIGHT, 7, "detail-height");
    assert_eq!(theme::SPACE_SIDEBAR_ACCENT_BAR, 2, "sidebar-accent-bar");
    assert_eq!(theme::SPACE_ROW_ACCENT_BAR, 1, "row-accent-bar");
}

#[test]
fn semantic_space_tokens_are_positive() {
    for value in [
        theme::SPACE_SIDEBAR_WIDTH,
        theme::SPACE_HEADER_HEIGHT,
        theme::SPACE_FOOTER_HEIGHT,
        theme::SPACE_DETAIL_HEIGHT,
        theme::SPACE_SIDEBAR_ACCENT_BAR,
        theme::SPACE_ROW_ACCENT_BAR,
    ] {
        assert!(value > 0, "space token must be positive, got {value}");
    }
}

#[test]
fn semantic_git_glyphs_match_token_values() {
    assert_eq!(theme::GIT_CLEAN_GLYPH, "●", "component.git.clean-glyph");
    assert_eq!(theme::GIT_ABSENT_GLYPH, "·", "component.git.absent-glyph");
    assert_ne!(theme::GIT_CLEAN_GLYPH, theme::GIT_ABSENT_GLYPH);
}

#[test]
fn semantic_empty_placeholder_is_middle_dot_not_hyphen() {
    assert_eq!(theme::EMPTY_PLACEHOLDER, "·");
    assert_ne!(theme::EMPTY_PLACEHOLDER, "-");
}

#[test]
fn bg_is_near_black() {
    assert_eq!(palette::BG, rgb(0x0b, 0x0c, 0x0e));
}

#[test]
fn fg_is_warm_offwhite() {
    assert_eq!(palette::FG, rgb(0xe8, 0xe6, 0xe1));
}

#[test]
fn accent_is_teal() {
    assert_eq!(palette::ACCENT, rgb(0x56, 0xb6, 0xc2));
}

#[test]
fn theme_danger_is_red() {
    assert_eq!(palette::DANGER, rgb(0xe0, 0x6c, 0x75));
}

#[test]
fn theme_warning_is_yellow() {
    assert_eq!(palette::WARNING, rgb(0xe5, 0xc0, 0x7b));
}

#[test]
fn theme_success_is_green() {
    assert_eq!(palette::SUCCESS, rgb(0x98, 0xc3, 0x79));
}

#[test]
fn theme_muted_is_grey() {
    assert_eq!(palette::MUTED, rgb(0x5c, 0x63, 0x70));
}

#[test]
fn border_is_dark_grey() {
    assert_eq!(palette::BORDER, rgb(0x3e, 0x44, 0x51));
}

#[test]
fn surface_is_dark() {
    assert_eq!(palette::SURFACE, rgb(0x1a, 0x1c, 0x20));
}

#[test]
fn selection_is_medium_grey() {
    assert_eq!(palette::SELECTION, rgb(0x3b, 0x40, 0x48));
}

#[test]
fn accent_dim_is_softer_teal() {
    assert_eq!(palette::ACCENT_DIM, rgb(0x7e, 0xc8, 0xd1));
}

#[test]
fn theme_git_clean_is_success() {
    assert_eq!(palette::GIT_CLEAN, palette::SUCCESS);
}

#[test]
fn theme_git_dirty_or_absent_is_muted() {
    assert_eq!(palette::GIT_DIRTY_OR_ABSENT, palette::MUTED);
}

#[test]
fn accent_dim_differs_from_accent() {
    assert_ne!(palette::ACCENT_DIM, palette::ACCENT);
}

#[test]
fn theme_all_colours_are_rgb() {
    let colours = [
        palette::BG, palette::FG, palette::ACCENT, palette::DANGER, palette::WARNING, palette::SUCCESS, palette::MUTED, palette::BORDER, palette::SURFACE, palette::SELECTION, palette::ACCENT_DIM, palette::GIT_CLEAN,
        palette::GIT_DIRTY_OR_ABSENT,
    ];
    for c in &colours {
        assert!(is_rgb(*c), "expected RGB: {c:#x}");
    }
}

#[test]
fn theme_semantic_pairs_are_distinct() {
    assert_ne!(palette::BG, palette::FG);
    assert_ne!(palette::ACCENT, palette::MUTED);
    assert_ne!(palette::DANGER, palette::SUCCESS);
    assert_ne!(palette::ACCENT, palette::DANGER);
    assert_ne!(palette::WARNING, palette::SUCCESS);
    assert_ne!(palette::SURFACE, palette::SELECTION);
    assert_ne!(palette::ACCENT, palette::ACCENT_DIM);
    assert_ne!(palette::GIT_CLEAN, palette::GIT_DIRTY_OR_ABSENT);
}

#[test]
fn theme_space_tokens_match_design_tokens_json() {
    assert_eq!(palette::SPACE_SIDEBAR_WIDTH, 23, "sidebar-width");
    assert_eq!(palette::SPACE_HEADER_HEIGHT, 1, "header-height");
    assert_eq!(palette::SPACE_FOOTER_HEIGHT, 1, "footer-height");
    assert_eq!(palette::SPACE_DETAIL_HEIGHT, 7, "detail-height");
    assert_eq!(palette::SPACE_SIDEBAR_ACCENT_BAR, 2, "sidebar-accent-bar");
    assert_eq!(palette::SPACE_ROW_ACCENT_BAR, 1, "row-accent-bar");
}

#[test]
fn theme_space_tokens_are_positive() {
    for value in [
        palette::SPACE_SIDEBAR_WIDTH,
        palette::SPACE_HEADER_HEIGHT,
        palette::SPACE_FOOTER_HEIGHT,
        palette::SPACE_DETAIL_HEIGHT,
        palette::SPACE_SIDEBAR_ACCENT_BAR,
        palette::SPACE_ROW_ACCENT_BAR,
    ] {
        assert!(value > 0, "space token must be positive, got {value}");
    }
}

#[test]
fn detail_height_fits_labels_and_values() {
    assert!(palette::SPACE_DETAIL_HEIGHT >= 5, "strip must not be impractically thin");
}

#[test]
fn theme_git_glyphs_match_token_values() {
    assert_eq!(palette::GIT_CLEAN_GLYPH, "●", "component.git.clean-glyph");
    assert_eq!(palette::GIT_ABSENT_GLYPH, "·", "component.git.absent-glyph");
    assert_ne!(palette::GIT_CLEAN_GLYPH, palette::GIT_ABSENT_GLYPH);
}

#[test]
fn theme_empty_placeholder_is_middle_dot_not_hyphen() {
    assert_eq!(palette::EMPTY_PLACEHOLDER, "·");
    assert_ne!(palette::EMPTY_PLACEHOLDER, "-");
    assert_eq!(palette::EMPTY_PLACEHOLDER.chars().count(), 1);
}
