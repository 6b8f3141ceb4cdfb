//! The source-theme document: the fields of a VS Code theme that the
//! conversion reads, already materialized by a loader.

use vstd::prelude::*;

verus! {

/// The named color fields of the source document's `colors` object that the
/// mapping tables read. A missing key and a key with a null value both stand
/// as `None`; an empty string counts as absent as well.
#[derive(Clone, Debug)]
pub struct VsCodeColors {
    pub button_background: Option<String>,
    pub editor_background: Option<String>,
    pub editor_foreground: Option<String>,
    pub editor_line_number_foreground: Option<String>,
    pub error_foreground: Option<String>,
    pub focus_border: Option<String>,
    pub foreground: Option<String>,
    pub list_active_selection_background: Option<String>,
    pub list_drop_background: Option<String>,
    pub list_hover_background: Option<String>,
    pub list_warning_foreground: Option<String>,
    pub panel_background: Option<String>,
    pub panel_border: Option<String>,
    pub tab_active_background: Option<String>,
    pub tab_inactive_background: Option<String>,
    pub tab_inactive_foreground: Option<String>,
    pub terminal_background: Option<String>,
    pub terminal_ansi_black: Option<String>,
    pub terminal_ansi_blue: Option<String>,
    pub terminal_ansi_cyan: Option<String>,
    pub terminal_ansi_green: Option<String>,
    pub terminal_ansi_magenta: Option<String>,
    pub terminal_ansi_red: Option<String>,
    pub terminal_ansi_white: Option<String>,
    pub terminal_ansi_yellow: Option<String>,
    pub terminal_ansi_bright_black: Option<String>,
    pub terminal_ansi_bright_blue: Option<String>,
    pub terminal_ansi_bright_cyan: Option<String>,
    pub terminal_ansi_bright_green: Option<String>,
    pub terminal_ansi_bright_magenta: Option<String>,
    pub terminal_ansi_bright_red: Option<String>,
    pub terminal_ansi_bright_white: Option<String>,
    pub terminal_ansi_bright_yellow: Option<String>,
}

/// Every source color field unset.
pub open spec fn colors_all_unset(c: VsCodeColors) -> bool {
    &&& c.button_background is None
    &&& c.editor_background is None
    &&& c.editor_foreground is None
    &&& c.editor_line_number_foreground is None
    &&& c.error_foreground is None
    &&& c.focus_border is None
    &&& c.foreground is None
    &&& c.list_active_selection_background is None
    &&& c.list_drop_background is None
    &&& c.list_hover_background is None
    &&& c.list_warning_foreground is None
    &&& c.panel_background is None
    &&& c.panel_border is None
    &&& c.tab_active_background is None
    &&& c.tab_inactive_background is None
    &&& c.tab_inactive_foreground is None
    &&& c.terminal_background is None
    &&& c.terminal_ansi_black is None
    &&& c.terminal_ansi_blue is None
    &&& c.terminal_ansi_cyan is None
    &&& c.terminal_ansi_green is None
    &&& c.terminal_ansi_magenta is None
    &&& c.terminal_ansi_red is None
    &&& c.terminal_ansi_white is None
    &&& c.terminal_ansi_yellow is None
    &&& c.terminal_ansi_bright_black is None
    &&& c.terminal_ansi_bright_blue is None
    &&& c.terminal_ansi_bright_cyan is None
    &&& c.terminal_ansi_bright_green is None
    &&& c.terminal_ansi_bright_magenta is None
    &&& c.terminal_ansi_bright_red is None
    &&& c.terminal_ansi_bright_white is None
    &&& c.terminal_ansi_bright_yellow is None
}

impl Default for VsCodeColors {
    /// A source document with no color field set.
    fn default() -> (r: Self)
        ensures
            colors_all_unset(r),
    {
        VsCodeColors {
            button_background: None,
            editor_background: None,
            editor_foreground: None,
            editor_line_number_foreground: None,
            error_foreground: None,
            focus_border: None,
            foreground: None,
            list_active_selection_background: None,
            list_drop_background: None,
            list_hover_background: None,
            list_warning_foreground: None,
            panel_background: None,
            panel_border: None,
            tab_active_background: None,
            tab_inactive_background: None,
            tab_inactive_foreground: None,
            terminal_background: None,
            terminal_ansi_black: None,
            terminal_ansi_blue: None,
            terminal_ansi_cyan: None,
            terminal_ansi_green: None,
            terminal_ansi_magenta: None,
            terminal_ansi_red: None,
            terminal_ansi_white: None,
            terminal_ansi_yellow: None,
            terminal_ansi_bright_black: None,
            terminal_ansi_bright_blue: None,
            terminal_ansi_bright_cyan: None,
            terminal_ansi_bright_green: None,
            terminal_ansi_bright_magenta: None,
            terminal_ansi_bright_red: None,
            terminal_ansi_bright_white: None,
            terminal_ansi_bright_yellow: None,
        }
    }
}

/// The settings block of one token-color rule: an optional foreground color
/// text and the font-style flags the loader found on the rule.
#[derive(Clone, Debug)]
pub struct TokenColorSettings {
    pub foreground: Option<String>,
    pub bold: bool,
    pub italic: bool,
    pub underline: bool,
}

/// One syntax rule of the source theme's ordered `tokenColors` list: its
/// scope selectors and its settings. Order in the list is significant; later
/// rules override earlier ones on equal selectors.
#[derive(Clone, Debug)]
pub struct TokenColorRule {
    pub scope: Vec<String>,
    pub settings: TokenColorSettings,
}

/// The parsed source theme document.
#[derive(Clone, Debug)]
pub struct VsCodeTheme {
    pub colors: VsCodeColors,
    pub token_colors: Vec<TokenColorRule>,
}

/// Externally supplied metadata: the theme's display name and its light or
/// dark appearance classification, as the loader read them.
#[derive(Clone, Debug)]
pub struct ThemeMetadata {
    pub name: String,
    pub appearance: String,
}

} // verus!
