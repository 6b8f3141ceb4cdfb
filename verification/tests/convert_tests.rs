use theme_importer::color::{Color, ColorParseError};
use theme_importer::convert::VsCodeThemeConverter;
use theme_importer::error::{ConvertError, SourceField};
use theme_importer::highlights::extract_highlights;
use theme_importer::output::{Appearance, HighlightStyle, UserTheme};
use theme_importer::vscode::{
    ThemeMetadata, TokenColorRule, TokenColorSettings, VsCodeColors, VsCodeTheme,
};

fn rgba(r: u8, g: u8, b: u8, a: u8) -> Color {
    Color { r, g, b, a }
}

fn hex(r: u8, g: u8, b: u8) -> Color {
    rgba(r, g, b, 255)
}

fn metadata(name: &str, appearance: &str) -> ThemeMetadata {
    ThemeMetadata { name: name.to_owned(), appearance: appearance.to_owned() }
}

fn theme(colors: VsCodeColors, token_colors: Vec<TokenColorRule>) -> VsCodeTheme {
    VsCodeTheme { colors, token_colors }
}

fn settings(foreground: Option<&str>) -> TokenColorSettings {
    TokenColorSettings {
        foreground: foreground.map(|s| s.to_owned()),
        bold: false,
        italic: false,
        underline: false,
    }
}

fn rule(scopes: &[&str], foreground: Option<&str>) -> TokenColorRule {
    TokenColorRule {
        scope: scopes.iter().map(|s| (*s).to_owned()).collect(),
        settings: settings(foreground),
    }
}

fn convert_ok(theme: VsCodeTheme, meta: ThemeMetadata) -> UserTheme {
    VsCodeThemeConverter::new(theme, meta).convert().expect("conversion should succeed")
}

fn lookup(highlights: &[(String, HighlightStyle)], key: &str) -> Option<HighlightStyle> {
    highlights.iter().find(|(k, _)| k == key).map(|(_, st)| *st)
}

#[test]
fn absent_fields_leave_all_slots_unset() {
    let out = convert_ok(theme(VsCodeColors::default(), Vec::new()), metadata("Empty", "dark"));
    let t = out.styles.colors;
    assert_eq!(t.border, None);
    assert_eq!(t.border_focused, None);
    assert_eq!(t.background, None);
    assert_eq!(t.text, None);
    assert_eq!(t.terminal_ansi_red, None);
    assert_eq!(t.terminal_ansi_bright_white, None);
    let s = out.styles.status;
    assert_eq!(s.deleted, None);
    assert_eq!(s.error, None);
    assert_eq!(s.hidden, None);
    assert_eq!(s.warning, None);
    assert!(out.styles.syntax.highlights.is_empty());
}

#[test]
fn empty_string_field_counts_as_absent() {
    let colors = VsCodeColors { editor_background: Some(String::new()), ..Default::default() };
    let out = convert_ok(theme(colors, Vec::new()), metadata("Empty", "dark"));
    assert_eq!(out.styles.colors.background, None);
    assert_eq!(out.styles.colors.editor_background, None);
}

#[test]
fn unmapped_status_slots_always_stay_unset() {
    // even with every mapped source field present, slots without a table
    // entry are never filled
    let colors = VsCodeColors {
        error_foreground: Some("#ff0000".to_owned()),
        tab_inactive_foreground: Some("#808080".to_owned()),
        list_warning_foreground: Some("#ffff00".to_owned()),
        panel_border: Some("#112233".to_owned()),
        editor_background: Some("#1e1e1e".to_owned()),
        ..Default::default()
    };
    let out = convert_ok(theme(colors, Vec::new()), metadata("Full", "dark"));
    let s = out.styles.status;
    assert_eq!(s.conflict, None);
    assert_eq!(s.created, None);
    assert_eq!(s.ignored, None);
    assert_eq!(s.info, None);
    assert_eq!(s.modified, None);
    assert_eq!(s.renamed, None);
    assert_eq!(s.success, None);
    // while the mapped ones are filled
    assert_eq!(s.deleted, Some(hex(0xff, 0, 0)));
    assert_eq!(s.error, Some(hex(0xff, 0, 0)));
    assert_eq!(s.hidden, Some(hex(0x80, 0x80, 0x80)));
    assert_eq!(s.warning, Some(hex(0xff, 0xff, 0)));
}

#[test]
fn border_slots_alias_panel_border() {
    let colors = VsCodeColors { panel_border: Some("#112233".to_owned()), ..Default::default() };
    let out = convert_ok(theme(colors, Vec::new()), metadata("Borders", "light"));
    let t = out.styles.colors;
    let expected = Some(hex(0x11, 0x22, 0x33));
    assert_eq!(t.border, expected);
    assert_eq!(t.border_variant, expected);
    assert_eq!(t.border_disabled, expected);
    assert_eq!(t.border_selected, expected);
    assert_eq!(t.border_transparent, expected);
    // border_focused draws from focus_border, absent here
    assert_eq!(t.border_focused, None);
}

#[test]
fn later_token_rule_overrides_earlier_on_same_scope() {
    let rules = vec![
        rule(&["string"], Some("#aa0000")),
        rule(&["string"], Some("#00bb00")),
    ];
    let flat = extract_highlights(&rules).expect("extraction should succeed");
    let st = lookup(&flat, "string").expect("scope should be mapped");
    assert_eq!(st.color, Some(hex(0, 0xbb, 0)));
    // the key appears exactly once
    assert_eq!(flat.iter().filter(|(k, _)| k == "string").count(), 1);
}

#[test]
fn end_to_end_conversion() {
    let colors = VsCodeColors {
        editor_background: Some("#1e1e1e".to_owned()),
        panel_border: Some("#333333".to_owned()),
        ..Default::default()
    };
    let rules = vec![rule(&["comment"], Some("#608b4e"))];
    let out = convert_ok(theme(colors, rules), metadata("Test", "dark"));
    assert_eq!(out.name, "Test");
    assert_eq!(out.appearance, Appearance::Dark);
    let t = out.styles.colors;
    assert_eq!(t.background, Some(hex(0x1e, 0x1e, 0x1e)));
    assert_eq!(t.editor_background, Some(hex(0x1e, 0x1e, 0x1e)));
    assert_eq!(t.editor_gutter_background, Some(hex(0x1e, 0x1e, 0x1e)));
    let border = Some(hex(0x33, 0x33, 0x33));
    assert_eq!(t.border, border);
    assert_eq!(t.border_variant, border);
    assert_eq!(t.border_disabled, border);
    assert_eq!(t.border_selected, border);
    assert_eq!(t.border_transparent, border);
    let s = out.styles.status;
    assert_eq!(s.conflict, None);
    assert_eq!(s.created, None);
    assert_eq!(s.deleted, None);
    assert_eq!(s.error, None);
    assert_eq!(s.hidden, None);
    assert_eq!(s.ignored, None);
    assert_eq!(s.info, None);
    assert_eq!(s.modified, None);
    assert_eq!(s.renamed, None);
    assert_eq!(s.success, None);
    assert_eq!(s.warning, None);
    assert_eq!(out.styles.syntax.highlights.len(), 1);
    let st = lookup(&out.styles.syntax.highlights, "comment").unwrap();
    assert_eq!(st.color, Some(hex(0x60, 0x8b, 0x4e)));
    assert!(!st.bold && !st.italic && !st.underline);
}

#[test]
fn unparsable_field_fails_naming_the_field() {
    let colors =
        VsCodeColors { editor_background: Some("not-a-color".to_owned()), ..Default::default() };
    let err = VsCodeThemeConverter::new(theme(colors, Vec::new()), metadata("Bad", "dark"))
        .convert()
        .expect_err("conversion should fail");
    match err {
        ConvertError::Color { field, cause } => {
            assert_eq!(field, SourceField::EditorBackground);
            assert_eq!(field.name(), "editor_background");
            assert_eq!(cause, ColorParseError::UnrecognizedFormat);
        }
        other => panic!("unexpected error: {:?}", other),
    }
}

#[test]
fn first_failing_field_wins() {
    // panel_border stands before editor_background in the table
    let colors = VsCodeColors {
        editor_background: Some("#zzz".to_owned()),
        panel_border: Some("bad".to_owned()),
        ..Default::default()
    };
    let err = VsCodeThemeConverter::new(theme(colors, Vec::new()), metadata("Bad", "dark"))
        .convert()
        .expect_err("conversion should fail");
    match err {
        ConvertError::Color { field, .. } => assert_eq!(field, SourceField::PanelBorder),
        other => panic!("unexpected error: {:?}", other),
    }
}

#[test]
fn unrecognized_appearance_fails() {
    let err = VsCodeThemeConverter::new(
        theme(VsCodeColors::default(), Vec::new()),
        metadata("Odd", "solarized"),
    )
    .convert()
    .expect_err("conversion should fail");
    assert_eq!(err, ConvertError::UnmappedAppearance);
}

#[test]
fn light_appearance_is_recognized() {
    let out = convert_ok(theme(VsCodeColors::default(), Vec::new()), metadata("Day", "light"));
    assert_eq!(out.appearance, Appearance::Light);
    assert_eq!(out.name, "Day");
}

#[test]
fn rule_without_scopes_contributes_nothing() {
    let rules = vec![rule(&[], Some("#608b4e"))];
    let flat = extract_highlights(&rules).expect("extraction should succeed");
    assert!(flat.is_empty());
}

#[test]
fn rule_without_usable_settings_contributes_nothing() {
    let rules = vec![rule(&["comment"], None)];
    let flat = extract_highlights(&rules).expect("extraction should succeed");
    assert!(flat.is_empty());
}

#[test]
fn style_flags_without_color_are_preserved() {
    let mut r = rule(&["keyword"], None);
    r.settings.bold = true;
    r.settings.italic = true;
    let flat = extract_highlights(&vec![r]).expect("extraction should succeed");
    let st = lookup(&flat, "keyword").expect("scope should be mapped");
    assert_eq!(st.color, None);
    assert!(st.bold && st.italic && !st.underline);
}

#[test]
fn rule_with_several_scopes_maps_each() {
    let rules = vec![rule(&["comment", "comment.block"], Some("#608b4e"))];
    let flat = extract_highlights(&rules).expect("extraction should succeed");
    assert_eq!(flat.len(), 2);
    assert_eq!(lookup(&flat, "comment").unwrap().color, Some(hex(0x60, 0x8b, 0x4e)));
    assert_eq!(lookup(&flat, "comment.block").unwrap().color, Some(hex(0x60, 0x8b, 0x4e)));
}

#[test]
fn malformed_rule_color_fails_extraction_with_rule_position() {
    let rules = vec![
        rule(&["comment"], Some("#608b4e")),
        rule(&["string"], Some("nope")),
    ];
    let err = extract_highlights(&rules).expect_err("extraction should fail");
    match err {
        ConvertError::TokenColor { index, cause } => {
            assert_eq!(index, 1);
            assert_eq!(cause, ColorParseError::UnrecognizedFormat);
        }
        other => panic!("unexpected error: {:?}", other),
    }
}

#[test]
fn malformed_rule_color_fails_whole_conversion() {
    let rules = vec![rule(&["string"], Some("nope"))];
    let err = VsCodeThemeConverter::new(
        theme(VsCodeColors::default(), rules),
        metadata("Bad", "dark"),
    )
    .convert()
    .expect_err("conversion should fail");
    assert!(matches!(err, ConvertError::TokenColor { index: 0, .. }));
}

#[test]
fn terminal_ansi_slots_map_one_to_one() {
    let colors = VsCodeColors {
        terminal_ansi_red: Some("#cd3131".to_owned()),
        terminal_ansi_bright_blue: Some("#3b8eea".to_owned()),
        ..Default::default()
    };
    let out = convert_ok(theme(colors, Vec::new()), metadata("Term", "dark"));
    let t = out.styles.colors;
    assert_eq!(t.terminal_ansi_red, Some(hex(0xcd, 0x31, 0x31)));
    assert_eq!(t.terminal_ansi_bright_blue, Some(hex(0x3b, 0x8e, 0xea)));
    assert_eq!(t.terminal_ansi_blue, None);
}
