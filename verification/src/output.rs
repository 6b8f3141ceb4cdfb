//! The produced theme document: partial ("refinement") records whose unset
//! slots mean "inherit the base theme's value; do not override".

use vstd::prelude::*;
use crate::color::Color;

verus! {

/// The target schema's appearance classification.
#[derive(Clone, Copy, Debug, PartialEq, Eq, Structural)]
pub enum Appearance {
    Light,
    Dark,
}

/// Status (version-control and diagnostic) color slots. A slot holds a color
/// only when the corresponding source field was present and parsed; slots
/// with no source equivalent are never set.
#[derive(Clone, Copy, Debug, PartialEq, Eq)]
pub struct StatusColorsRefinement {
    pub conflict: Option<Color>,
    pub created: Option<Color>,
    pub deleted: Option<Color>,
    pub error: Option<Color>,
    pub hidden: Option<Color>,
    pub ignored: Option<Color>,
    pub info: Option<Color>,
    pub modified: Option<Color>,
    pub renamed: Option<Color>,
    pub success: Option<Color>,
    pub warning: Option<Color>,
}

/// General UI color slots of the target schema that the mapping fills.
#[derive(Clone, Copy, Debug, PartialEq, Eq)]
pub struct ThemeColorsRefinement {
    pub border: Option<Color>,
    pub border_variant: Option<Color>,
    pub border_focused: Option<Color>,
    pub border_disabled: Option<Color>,
    pub border_selected: Option<Color>,
    pub border_transparent: Option<Color>,
    pub elevated_surface_background: Option<Color>,
    pub surface_background: Option<Color>,
    pub background: Option<Color>,
    pub element_background: Option<Color>,
    pub element_hover: Option<Color>,
    pub element_selected: Option<Color>,
    pub ghost_element_hover: Option<Color>,
    pub drop_target_background: Option<Color>,
    pub text: Option<Color>,
    pub tab_active_background: Option<Color>,
    pub tab_inactive_background: Option<Color>,
    pub editor_background: Option<Color>,
    pub editor_gutter_background: Option<Color>,
    pub editor_line_number: Option<Color>,
    pub editor_active_line_number: Option<Color>,
    pub terminal_background: Option<Color>,
    pub terminal_ansi_black: Option<Color>,
    pub terminal_ansi_blue: Option<Color>,
    pub terminal_ansi_cyan: Option<Color>,
    pub terminal_ansi_green: Option<Color>,
    pub terminal_ansi_magenta: Option<Color>,
    pub terminal_ansi_red: Option<Color>,
    pub terminal_ansi_white: Option<Color>,
    pub terminal_ansi_yellow: Option<Color>,
    pub terminal_ansi_bright_black: Option<Color>,
    pub terminal_ansi_bright_blue: Option<Color>,
    pub terminal_ansi_bright_cyan: Option<Color>,
    pub terminal_ansi_bright_green: Option<Color>,
    pub terminal_ansi_bright_magenta: Option<Color>,
    pub terminal_ansi_bright_red: Option<Color>,
    pub terminal_ansi_bright_white: Option<Color>,
    pub terminal_ansi_bright_yellow: Option<Color>,
}

/// One flattened highlight style: an optional foreground color and the
/// font-style flags carried over from the winning token rule.
#[derive(Clone, Copy, Debug, PartialEq, Eq)]
pub struct HighlightStyle {
    pub color: Option<Color>,
    pub bold: bool,
    pub italic: bool,
    pub underline: bool,
}

/// The flat syntax-highlight mapping: scope selector to style, with every
/// selector appearing at most once.
#[derive(Clone, Debug)]
pub struct UserSyntaxTheme {
    pub highlights: Vec<(String, HighlightStyle)>,
}

/// The three refinement blocks of the produced theme.
#[derive(Clone, Debug)]
pub struct UserThemeStylesRefinement {
    pub colors: ThemeColorsRefinement,
    pub status: StatusColorsRefinement,
    pub syntax: UserSyntaxTheme,
}

/// The finished output document.
#[derive(Clone, Debug)]
pub struct UserTheme {
    pub name: String,
    pub appearance: Appearance,
    pub styles: UserThemeStylesRefinement,
}

} // verus!
