//! Conversion errors. Every failure is attributed to one specific source
//! field or token rule; nothing is swallowed or replaced by a default.

use vstd::prelude::*;
use crate::color::ColorParseError;

verus! {

/// A source color field read by one of the mapping tables.
#[derive(Clone, Copy, Debug, PartialEq, Eq, Structural)]
pub enum SourceField {
    ButtonBackground,
    EditorBackground,
    EditorForeground,
    EditorLineNumberForeground,
    ErrorForeground,
    FocusBorder,
    Foreground,
    ListActiveSelectionBackground,
    ListDropBackground,
    ListHoverBackground,
    ListWarningForeground,
    PanelBackground,
    PanelBorder,
    TabActiveBackground,
    TabInactiveBackground,
    TabInactiveForeground,
    TerminalBackground,
    TerminalAnsiBlack,
    TerminalAnsiBlue,
    TerminalAnsiCyan,
    TerminalAnsiGreen,
    TerminalAnsiMagenta,
    TerminalAnsiRed,
    TerminalAnsiWhite,
    TerminalAnsiYellow,
    TerminalAnsiBrightBlack,
    TerminalAnsiBrightBlue,
    TerminalAnsiBrightCyan,
    TerminalAnsiBrightGreen,
    TerminalAnsiBrightMagenta,
    TerminalAnsiBrightRed,
    TerminalAnsiBrightWhite,
    TerminalAnsiBrightYellow,
}

/// The source document's name of a field.
pub open spec fn spec_field_name(f: SourceField) -> Seq<char> {
    match f {
        SourceField::ButtonBackground => "button_background"@,
        SourceField::EditorBackground => "editor_background"@,
        SourceField::EditorForeground => "editor_foreground"@,
        SourceField::EditorLineNumberForeground => "editor_line_number_foreground"@,
        SourceField::ErrorForeground => "error_foreground"@,
        SourceField::FocusBorder => "focus_border"@,
        SourceField::Foreground => "foreground"@,
        SourceField::ListActiveSelectionBackground => "list_active_selection_background"@,
        SourceField::ListDropBackground => "list_drop_background"@,
        SourceField::ListHoverBackground => "list_hover_background"@,
        SourceField::ListWarningForeground => "list_warning_foreground"@,
        SourceField::PanelBackground => "panel_background"@,
        SourceField::PanelBorder => "panel_border"@,
        SourceField::TabActiveBackground => "tab_active_background"@,
        SourceField::TabInactiveBackground => "tab_inactive_background"@,
        SourceField::TabInactiveForeground => "tab_inactive_foreground"@,
        SourceField::TerminalBackground => "terminal_background"@,
        SourceField::TerminalAnsiBlack => "terminal_ansi_black"@,
        SourceField::TerminalAnsiBlue => "terminal_ansi_blue"@,
        SourceField::TerminalAnsiCyan => "terminal_ansi_cyan"@,
        SourceField::TerminalAnsiGreen => "terminal_ansi_green"@,
        SourceField::TerminalAnsiMagenta => "terminal_ansi_magenta"@,
        SourceField::TerminalAnsiRed => "terminal_ansi_red"@,
        SourceField::TerminalAnsiWhite => "terminal_ansi_white"@,
        SourceField::TerminalAnsiYellow => "terminal_ansi_yellow"@,
        SourceField::TerminalAnsiBrightBlack => "terminal_ansi_bright_black"@,
        SourceField::TerminalAnsiBrightBlue => "terminal_ansi_bright_blue"@,
        SourceField::TerminalAnsiBrightCyan => "terminal_ansi_bright_cyan"@,
        SourceField::TerminalAnsiBrightGreen => "terminal_ansi_bright_green"@,
        SourceField::TerminalAnsiBrightMagenta => "terminal_ansi_bright_magenta"@,
        SourceField::TerminalAnsiBrightRed => "terminal_ansi_bright_red"@,
        SourceField::TerminalAnsiBrightWhite => "terminal_ansi_bright_white"@,
        SourceField::TerminalAnsiBrightYellow => "terminal_ansi_bright_yellow"@,
    }
}

impl SourceField {
    /// The source document's name of this field, for error messages.
    pub fn name(&self) -> (r: &'static str)
        ensures
            r@ == spec_field_name(*self),
    {
        match self {
            SourceField::ButtonBackground => "button_background",
            SourceField::EditorBackground => "editor_background",
            SourceField::EditorForeground => "editor_foreground",
            SourceField::EditorLineNumberForeground => "editor_line_number_foreground",
            SourceField::ErrorForeground => "error_foreground",
            SourceField::FocusBorder => "focus_border",
            SourceField::Foreground => "foreground",
            SourceField::ListActiveSelectionBackground => "list_active_selection_background",
            SourceField::ListDropBackground => "list_drop_background",
            SourceField::ListHoverBackground => "list_hover_background",
            SourceField::ListWarningForeground => "list_warning_foreground",
            SourceField::PanelBackground => "panel_background",
            SourceField::PanelBorder => "panel_border",
            SourceField::TabActiveBackground => "tab_active_background",
            SourceField::TabInactiveBackground => "tab_inactive_background",
            SourceField::TabInactiveForeground => "tab_inactive_foreground",
            SourceField::TerminalBackground => "terminal_background",
            SourceField::TerminalAnsiBlack => "terminal_ansi_black",
            SourceField::TerminalAnsiBlue => "terminal_ansi_blue",
            SourceField::TerminalAnsiCyan => "terminal_ansi_cyan",
            SourceField::TerminalAnsiGreen => "terminal_ansi_green",
            SourceField::TerminalAnsiMagenta => "terminal_ansi_magenta",
            SourceField::TerminalAnsiRed => "terminal_ansi_red",
            SourceField::TerminalAnsiWhite => "terminal_ansi_white",
            SourceField::TerminalAnsiYellow => "terminal_ansi_yellow",
            SourceField::TerminalAnsiBrightBlack => "terminal_ansi_bright_black",
            SourceField::TerminalAnsiBrightBlue => "terminal_ansi_bright_blue",
            SourceField::TerminalAnsiBrightCyan => "terminal_ansi_bright_cyan",
            SourceField::TerminalAnsiBrightGreen => "terminal_ansi_bright_green",
            SourceField::TerminalAnsiBrightMagenta => "terminal_ansi_bright_magenta",
            SourceField::TerminalAnsiBrightRed => "terminal_ansi_bright_red",
            SourceField::TerminalAnsiBrightWhite => "terminal_ansi_bright_white",
            SourceField::TerminalAnsiBrightYellow => "terminal_ansi_bright_yellow",
        }
    }
}

/// Why a conversion failed. Conversion is all-or-nothing: the first failure
/// is surfaced to the caller unchanged and no partial theme is emitted.
#[derive(Clone, Copy, Debug, PartialEq, Eq, Structural)]
pub enum ConvertError {
    /// A mapped source field held a color text that does not parse.
    Color { field: SourceField, cause: ColorParseError },
    /// The token rule at this position of the `tokenColors` list held a
    /// foreground text that does not parse.
    TokenColor { index: usize, cause: ColorParseError },
    /// The metadata's appearance value is outside the recognized enumeration.
    UnmappedAppearance,
}

} // verus!
