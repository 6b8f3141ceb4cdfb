//! The declarative field-mapping tables and the theme assembler.
//!
//! Each target slot draws from one fixed source field; several slots
//! deliberately alias the same field. A source field that is absent (or
//! empty) leaves its slots unset; one that is present but unparsable fails
//! the whole mapping with the first offending field, in table order.

use vstd::prelude::*;
use crate::color;
use crate::color::Color;
use crate::error::{ConvertError, SourceField};
use crate::highlights;
use crate::highlights::{pairs_map, pairs_unique, spec_extract_highlights};
use crate::output::{
    Appearance, HighlightStyle, StatusColorsRefinement, ThemeColorsRefinement, UserSyntaxTheme,
    UserTheme, UserThemeStylesRefinement,
};
use crate::vscode::{ThemeMetadata, VsCodeColors, VsCodeTheme};

verus! {

/// A source field contributes nothing when it is missing (a null value in
/// the document stands as `None` too) or holds the empty string.
pub open spec fn field_absent(f: Option<String>) -> bool {
    match f {
        None => true,
        Some(s) => s@.len() == 0,
    }
}

/// The color a source field contributes to its slots, when it has one.
pub open spec fn field_color(f: Option<String>) -> Option<Color> {
    match f {
        None => None,
        Some(s) => if s@.len() == 0 {
            None
        } else {
            match color::spec_parse_color(s@) {
                Ok(c) => Some(c),
                Err(_) => None,
            }
        },
    }
}

/// What mapping one source field yields: its color, nothing, or the first
/// error, attributed to the field.
pub open spec fn spec_map_field(f: Option<String>, field: SourceField) -> Result<
    Option<Color>,
    ConvertError,
> {
    match f {
        None => Ok(None),
        Some(s) => if s@.len() == 0 {
            Ok(None)
        } else {
            match color::spec_parse_color(s@) {
                Ok(c) => Ok(Some(c)),
                Err(e) => Err(ConvertError::Color { field, cause: e }),
            }
        },
    }
}

/// The error a field contributes to the fail-fast chain, if any.
pub open spec fn slot_err(f: Option<String>, field: SourceField) -> Option<ConvertError> {
    match spec_map_field(f, field) {
        Err(e) => Some(e),
        Ok(_) => None,
    }
}

/// Read one source field: absent or empty yields no color, a parsable value
/// yields its color, anything else the error attributed to the field.
fn map_field(f: &Option<String>, field: SourceField) -> (r: Result<Option<Color>, ConvertError>)
    ensures
        r == spec_map_field(*f, field),
{
    match f {
        None => Ok(None),
        Some(s) => {
            if s.as_str().is_empty() {
                Ok(None)
            } else {
                match color::parse_color(s.as_str()) {
                    Ok(c) => Ok(Some(c)),
                    Err(e) => Err(ConvertError::Color { field, cause: e }),
                }
            }
        },
    }
}

/// The first failing status-color field, in table order.
pub open spec fn status_colors_err(c: VsCodeColors) -> Option<ConvertError> {
    if slot_err(c.error_foreground, SourceField::ErrorForeground) is Some {
        slot_err(c.error_foreground, SourceField::ErrorForeground)
    } else if slot_err(c.tab_inactive_foreground, SourceField::TabInactiveForeground) is Some {
        slot_err(c.tab_inactive_foreground, SourceField::TabInactiveForeground)
    } else if slot_err(c.list_warning_foreground, SourceField::ListWarningForeground) is Some {
        slot_err(c.list_warning_foreground, SourceField::ListWarningForeground)
    } else {
        None
    }
}

/// The first failing UI-color field, in table order.
pub open spec fn theme_colors_err(c: VsCodeColors) -> Option<ConvertError> {
    if slot_err(c.panel_border, SourceField::PanelBorder) is Some {
        slot_err(c.panel_border, SourceField::PanelBorder)
    } else if slot_err(c.focus_border, SourceField::FocusBorder) is Some {
        slot_err(c.focus_border, SourceField::FocusBorder)
    } else if slot_err(c.panel_background, SourceField::PanelBackground) is Some {
        slot_err(c.panel_background, SourceField::PanelBackground)
    } else if slot_err(c.editor_background, SourceField::EditorBackground) is Some {
        slot_err(c.editor_background, SourceField::EditorBackground)
    } else if slot_err(c.button_background, SourceField::ButtonBackground) is Some {
        slot_err(c.button_background, SourceField::ButtonBackground)
    } else if slot_err(c.list_hover_background, SourceField::ListHoverBackground) is Some {
        slot_err(c.list_hover_background, SourceField::ListHoverBackground)
    } else if slot_err(c.list_active_selection_background, SourceField::ListActiveSelectionBackground) is Some {
        slot_err(c.list_active_selection_background, SourceField::ListActiveSelectionBackground)
    } else if slot_err(c.list_drop_background, SourceField::ListDropBackground) is Some {
        slot_err(c.list_drop_background, SourceField::ListDropBackground)
    } else if slot_err(c.foreground, SourceField::Foreground) is Some {
        slot_err(c.foreground, SourceField::Foreground)
    } else if slot_err(c.tab_active_background, SourceField::TabActiveBackground) is Some {
        slot_err(c.tab_active_background, SourceField::TabActiveBackground)
    } else if slot_err(c.tab_inactive_background, SourceField::TabInactiveBackground) is Some {
        slot_err(c.tab_inactive_background, SourceField::TabInactiveBackground)
    } else if slot_err(c.editor_line_number_foreground, SourceField::EditorLineNumberForeground) is Some {
        slot_err(c.editor_line_number_foreground, SourceField::EditorLineNumberForeground)
    } else if slot_err(c.editor_foreground, SourceField::EditorForeground) is Some {
        slot_err(c.editor_foreground, SourceField::EditorForeground)
    } else if slot_err(c.terminal_background, SourceField::TerminalBackground) is Some {
        slot_err(c.terminal_background, SourceField::TerminalBackground)
    } else if slot_err(c.terminal_ansi_bright_black, SourceField::TerminalAnsiBrightBlack) is Some {
        slot_err(c.terminal_ansi_bright_black, SourceField::TerminalAnsiBrightBlack)
    } else if slot_err(c.terminal_ansi_bright_red, SourceField::TerminalAnsiBrightRed) is Some {
        slot_err(c.terminal_ansi_bright_red, SourceField::TerminalAnsiBrightRed)
    } else if slot_err(c.terminal_ansi_bright_green, SourceField::TerminalAnsiBrightGreen) is Some {
        slot_err(c.terminal_ansi_bright_green, SourceField::TerminalAnsiBrightGreen)
    } else if slot_err(c.terminal_ansi_bright_yellow, SourceField::TerminalAnsiBrightYellow) is Some {
        slot_err(c.terminal_ansi_bright_yellow, SourceField::TerminalAnsiBrightYellow)
    } else if slot_err(c.terminal_ansi_bright_blue, SourceField::TerminalAnsiBrightBlue) is Some {
        slot_err(c.terminal_ansi_bright_blue, SourceField::TerminalAnsiBrightBlue)
    } else if slot_err(c.terminal_ansi_bright_magenta, SourceField::TerminalAnsiBrightMagenta) is Some {
        slot_err(c.terminal_ansi_bright_magenta, SourceField::TerminalAnsiBrightMagenta)
    } else if slot_err(c.terminal_ansi_bright_cyan, SourceField::TerminalAnsiBrightCyan) is Some {
        slot_err(c.terminal_ansi_bright_cyan, SourceField::TerminalAnsiBrightCyan)
    } else if slot_err(c.terminal_ansi_bright_white, SourceField::TerminalAnsiBrightWhite) is Some {
        slot_err(c.terminal_ansi_bright_white, SourceField::TerminalAnsiBrightWhite)
    } else if slot_err(c.terminal_ansi_black, SourceField::TerminalAnsiBlack) is Some {
        slot_err(c.terminal_ansi_black, SourceField::TerminalAnsiBlack)
    } else if slot_err(c.terminal_ansi_red, SourceField::TerminalAnsiRed) is Some {
        slot_err(c.terminal_ansi_red, SourceField::TerminalAnsiRed)
    } else if slot_err(c.terminal_ansi_green, SourceField::TerminalAnsiGreen) is Some {
        slot_err(c.terminal_ansi_green, SourceField::TerminalAnsiGreen)
    } else if slot_err(c.terminal_ansi_yellow, SourceField::TerminalAnsiYellow) is Some {
        slot_err(c.terminal_ansi_yellow, SourceField::TerminalAnsiYellow)
    } else if slot_err(c.terminal_ansi_blue, SourceField::TerminalAnsiBlue) is Some {
        slot_err(c.terminal_ansi_blue, SourceField::TerminalAnsiBlue)
    } else if slot_err(c.terminal_ansi_magenta, SourceField::TerminalAnsiMagenta) is Some {
        slot_err(c.terminal_ansi_magenta, SourceField::TerminalAnsiMagenta)
    } else if slot_err(c.terminal_ansi_cyan, SourceField::TerminalAnsiCyan) is Some {
        slot_err(c.terminal_ansi_cyan, SourceField::TerminalAnsiCyan)
    } else if slot_err(c.terminal_ansi_white, SourceField::TerminalAnsiWhite) is Some {
        slot_err(c.terminal_ansi_white, SourceField::TerminalAnsiWhite)
    } else {
        None
    }
}

/// What `convert_status_colors` returns. Slots with no table entry are
/// always left unset, whatever the input holds.
pub open spec fn spec_status_colors(c: VsCodeColors) -> Result<StatusColorsRefinement, ConvertError> {
    match status_colors_err(c) {
        Some(e) => Err(e),
        None => Ok(
            StatusColorsRefinement {
                conflict: None,
                created: None,
                deleted: field_color(c.error_foreground),
                error: field_color(c.error_foreground),
                hidden: field_color(c.tab_inactive_foreground),
                ignored: None,
                info: None,
                modified: None,
                renamed: None,
                success: None,
                warning: field_color(c.list_warning_foreground),
            },
        ),
    }
}

/// What `convert_theme_colors` returns.
pub open spec fn spec_theme_colors(c: VsCodeColors) -> Result<ThemeColorsRefinement, ConvertError> {
    match theme_colors_err(c) {
        Some(e) => Err(e),
        None => Ok(
            ThemeColorsRefinement {
                border: field_color(c.panel_border),
                border_variant: field_color(c.panel_border),
                border_focused: field_color(c.focus_border),
                border_disabled: field_color(c.panel_border),
                border_selected: field_color(c.panel_border),
                border_transparent: field_color(c.panel_border),
                elevated_surface_background: field_color(c.panel_background),
                surface_background: field_color(c.panel_background),
                background: field_color(c.editor_background),
                element_background: field_color(c.button_background),
                element_hover: field_color(c.list_hover_background),
                element_selected: field_color(c.list_active_selection_background),
                ghost_element_hover: field_color(c.list_hover_background),
                drop_target_background: field_color(c.list_drop_background),
                text: field_color(c.foreground),
                tab_active_background: field_color(c.tab_active_background),
                tab_inactive_background: field_color(c.tab_inactive_background),
                editor_background: field_color(c.editor_background),
                editor_gutter_background: field_color(c.editor_background),
                editor_line_number: field_color(c.editor_line_number_foreground),
                editor_active_line_number: field_color(c.editor_foreground),
                terminal_background: field_color(c.terminal_background),
                terminal_ansi_black: field_color(c.terminal_ansi_black),
                terminal_ansi_blue: field_color(c.terminal_ansi_blue),
                terminal_ansi_cyan: field_color(c.terminal_ansi_cyan),
                terminal_ansi_green: field_color(c.terminal_ansi_green),
                terminal_ansi_magenta: field_color(c.terminal_ansi_magenta),
                terminal_ansi_red: field_color(c.terminal_ansi_red),
                terminal_ansi_white: field_color(c.terminal_ansi_white),
                terminal_ansi_yellow: field_color(c.terminal_ansi_yellow),
                terminal_ansi_bright_black: field_color(c.terminal_ansi_bright_black),
                terminal_ansi_bright_blue: field_color(c.terminal_ansi_bright_blue),
                terminal_ansi_bright_cyan: field_color(c.terminal_ansi_bright_cyan),
                terminal_ansi_bright_green: field_color(c.terminal_ansi_bright_green),
                terminal_ansi_bright_magenta: field_color(c.terminal_ansi_bright_magenta),
                terminal_ansi_bright_red: field_color(c.terminal_ansi_bright_red),
                terminal_ansi_bright_white: field_color(c.terminal_ansi_bright_white),
                terminal_ansi_bright_yellow: field_color(c.terminal_ansi_bright_yellow),
            },
        ),
    }
}

/// The target appearance an appearance string denotes, when recognized.
pub open spec fn spec_appearance(s: Seq<char>) -> Option<Appearance> {
    if s == "light"@ {
        Some(Appearance::Light)
    } else if s == "dark"@ {
        Some(Appearance::Dark)
    } else {
        None
    }
}

fn parse_appearance(s: &String) -> (r: Option<Appearance>)
    ensures
        r == spec_appearance(s@),
{
    let light: String = "light".to_owned();
    if s.eq(&light) {
        return Some(Appearance::Light);
    }
    let dark: String = "dark".to_owned();
    if s.eq(&dark) {
        return Some(Appearance::Dark);
    }
    None
}

/// The first error of a whole conversion, in the order the stages run:
/// appearance, status colors, UI colors, token-rule extraction.
pub open spec fn spec_convert_error(conv: VsCodeThemeConverter) -> Option<ConvertError> {
    if spec_appearance(conv.theme_metadata.appearance@) is None {
        Some(ConvertError::UnmappedAppearance)
    } else if status_colors_err(conv.theme.colors) is Some {
        status_colors_err(conv.theme.colors)
    } else if theme_colors_err(conv.theme.colors) is Some {
        theme_colors_err(conv.theme.colors)
    } else {
        match spec_extract_highlights(conv.theme.token_colors@) {
            Err(e) => Some(e),
            Ok(_) => None,
        }
    }
}

/// Converts one source theme document, with its metadata, into the output
/// refinement document.
pub struct VsCodeThemeConverter {
    pub theme: VsCodeTheme,
    pub theme_metadata: ThemeMetadata,
}

impl VsCodeThemeConverter {
    pub fn new(theme: VsCodeTheme, theme_metadata: ThemeMetadata) -> (r: Self)
        ensures
            r.theme == theme,
            r.theme_metadata == theme_metadata,
    {
        Self { theme, theme_metadata }
    }

    /// Map the status-color slots from their source fields. Absent fields
    /// leave their slots unset; the first unparsable field fails the call.
    pub fn convert_status_colors(&self) -> (r: Result<StatusColorsRefinement, ConvertError>)
        ensures
            r == spec_status_colors(self.theme.colors),
    {
        let c = &self.theme.colors;
        let error_foreground = map_field(&c.error_foreground, SourceField::ErrorForeground)?;
        let tab_inactive_foreground = map_field(&c.tab_inactive_foreground, SourceField::TabInactiveForeground)?;
        let list_warning_foreground = map_field(&c.list_warning_foreground, SourceField::ListWarningForeground)?;
        Ok(
            StatusColorsRefinement {
                conflict: None,
                created: None,
                deleted: error_foreground,
                error: error_foreground,
                hidden: tab_inactive_foreground,
                ignored: None,
                info: None,
                modified: None,
                renamed: None,
                success: None,
                warning: list_warning_foreground,
            },
        )
    }

    /// Map the UI-color slots from their source fields, preserving every
    /// aliasing of one source field onto several slots.
    #[verifier::rlimit(100)]
    pub fn convert_theme_colors(&self) -> (r: Result<ThemeColorsRefinement, ConvertError>)
        ensures
            r == spec_theme_colors(self.theme.colors),
    {
        let c = &self.theme.colors;
        let panel_border = map_field(&c.panel_border, SourceField::PanelBorder)?;
        let focus_border = map_field(&c.focus_border, SourceField::FocusBorder)?;
        let panel_background = map_field(&c.panel_background, SourceField::PanelBackground)?;
        let editor_background = map_field(&c.editor_background, SourceField::EditorBackground)?;
        let button_background = map_field(&c.button_background, SourceField::ButtonBackground)?;
        let list_hover_background = map_field(&c.list_hover_background, SourceField::ListHoverBackground)?;
        let list_active_selection_background = map_field(&c.list_active_selection_background, SourceField::ListActiveSelectionBackground)?;
        let list_drop_background = map_field(&c.list_drop_background, SourceField::ListDropBackground)?;
        let foreground = map_field(&c.foreground, SourceField::Foreground)?;
        let tab_active_background = map_field(&c.tab_active_background, SourceField::TabActiveBackground)?;
        let tab_inactive_background = map_field(&c.tab_inactive_background, SourceField::TabInactiveBackground)?;
        let editor_line_number_foreground = map_field(&c.editor_line_number_foreground, SourceField::EditorLineNumberForeground)?;
        let editor_foreground = map_field(&c.editor_foreground, SourceField::EditorForeground)?;
        let terminal_background = map_field(&c.terminal_background, SourceField::TerminalBackground)?;
        let terminal_ansi_bright_black = map_field(&c.terminal_ansi_bright_black, SourceField::TerminalAnsiBrightBlack)?;
        let terminal_ansi_bright_red = map_field(&c.terminal_ansi_bright_red, SourceField::TerminalAnsiBrightRed)?;
        let terminal_ansi_bright_green = map_field(&c.terminal_ansi_bright_green, SourceField::TerminalAnsiBrightGreen)?;
        let terminal_ansi_bright_yellow = map_field(&c.terminal_ansi_bright_yellow, SourceField::TerminalAnsiBrightYellow)?;
        let terminal_ansi_bright_blue = map_field(&c.terminal_ansi_bright_blue, SourceField::TerminalAnsiBrightBlue)?;
        let terminal_ansi_bright_magenta = map_field(&c.terminal_ansi_bright_magenta, SourceField::TerminalAnsiBrightMagenta)?;
        let terminal_ansi_bright_cyan = map_field(&c.terminal_ansi_bright_cyan, SourceField::TerminalAnsiBrightCyan)?;
        let terminal_ansi_bright_white = map_field(&c.terminal_ansi_bright_white, SourceField::TerminalAnsiBrightWhite)?;
        let terminal_ansi_black = map_field(&c.terminal_ansi_black, SourceField::TerminalAnsiBlack)?;
        let terminal_ansi_red = map_field(&c.terminal_ansi_red, SourceField::TerminalAnsiRed)?;
        let terminal_ansi_green = map_field(&c.terminal_ansi_green, SourceField::TerminalAnsiGreen)?;
        let terminal_ansi_yellow = map_field(&c.terminal_ansi_yellow, SourceField::TerminalAnsiYellow)?;
        let terminal_ansi_blue = map_field(&c.terminal_ansi_blue, SourceField::TerminalAnsiBlue)?;
        let terminal_ansi_magenta = map_field(&c.terminal_ansi_magenta, SourceField::TerminalAnsiMagenta)?;
        let terminal_ansi_cyan = map_field(&c.terminal_ansi_cyan, SourceField::TerminalAnsiCyan)?;
        let terminal_ansi_white = map_field(&c.terminal_ansi_white, SourceField::TerminalAnsiWhite)?;
        Ok(
            ThemeColorsRefinement {
                border: panel_border,
                border_variant: panel_border,
                border_focused: focus_border,
                border_disabled: panel_border,
                border_selected: panel_border,
                border_transparent: panel_border,
                elevated_surface_background: panel_background,
                surface_background: panel_background,
                background: editor_background,
                element_background: button_background,
                element_hover: list_hover_background,
                element_selected: list_active_selection_background,
                ghost_element_hover: list_hover_background,
                drop_target_background: list_drop_background,
                text: foreground,
                tab_active_background: tab_active_background,
                tab_inactive_background: tab_inactive_background,
                editor_background: editor_background,
                editor_gutter_background: editor_background,
                editor_line_number: editor_line_number_foreground,
                editor_active_line_number: editor_foreground,
                terminal_background: terminal_background,
                terminal_ansi_black: terminal_ansi_black,
                terminal_ansi_blue: terminal_ansi_blue,
                terminal_ansi_cyan: terminal_ansi_cyan,
                terminal_ansi_green: terminal_ansi_green,
                terminal_ansi_magenta: terminal_ansi_magenta,
                terminal_ansi_red: terminal_ansi_red,
                terminal_ansi_white: terminal_ansi_white,
                terminal_ansi_yellow: terminal_ansi_yellow,
                terminal_ansi_bright_black: terminal_ansi_bright_black,
                terminal_ansi_bright_blue: terminal_ansi_bright_blue,
                terminal_ansi_bright_cyan: terminal_ansi_bright_cyan,
                terminal_ansi_bright_green: terminal_ansi_bright_green,
                terminal_ansi_bright_magenta: terminal_ansi_bright_magenta,
                terminal_ansi_bright_red: terminal_ansi_bright_red,
                terminal_ansi_bright_white: terminal_ansi_bright_white,
                terminal_ansi_bright_yellow: terminal_ansi_bright_yellow,
            },
        )
    }

    /// Run the whole conversion: appearance, status colors, UI colors, then
    /// highlight extraction, aborting on the first failure and surfacing its
    /// error unchanged. The output's name is the metadata's name verbatim.
    pub fn convert(self) -> (r: Result<UserTheme, ConvertError>)
        ensures
            match r {
                Ok(t) => {
                    &&& spec_convert_error(self) is None
                    &&& t.name@ == self.theme_metadata.name@
                    &&& spec_appearance(self.theme_metadata.appearance@) == Some(t.appearance)
                    &&& spec_status_colors(self.theme.colors) == Ok::<
                        StatusColorsRefinement,
                        ConvertError,
                    >(t.styles.status)
                    &&& spec_theme_colors(self.theme.colors) == Ok::<
                        ThemeColorsRefinement,
                        ConvertError,
                    >(t.styles.colors)
                    &&& pairs_unique(t.styles.syntax.highlights@)
                    &&& spec_extract_highlights(self.theme.token_colors@) == Ok::<
                        Map<Seq<char>, HighlightStyle>,
                        ConvertError,
                    >(pairs_map(t.styles.syntax.highlights@))
                },
                Err(e) => spec_convert_error(self) == Some(e),
            },
    {
        let appearance = match parse_appearance(&self.theme_metadata.appearance) {
            Some(a) => a,
            None => {
                return Err(ConvertError::UnmappedAppearance);
            },
        };
        let status = self.convert_status_colors()?;
        let colors = self.convert_theme_colors()?;
        let highlights = highlights::extract_highlights(&self.theme.token_colors)?;
        Ok(
            UserTheme {
                name: self.theme_metadata.name,
                appearance,
                styles: UserThemeStylesRefinement {
                    colors,
                    status,
                    syntax: UserSyntaxTheme { highlights },
                },
            },
        )
    }
}

// ---------------------------------------------------------------------------
// Laws of the mapping
// ---------------------------------------------------------------------------

/// Absent policy: wherever a mapped source field is absent or null (or
/// empty), every target slot drawing from it is unset in the output — never
/// defaulted to black, transparent or any other fabricated color.
pub proof fn lemma_absent_fields_stay_unset(c: VsCodeColors)
    ensures
        spec_theme_colors(c) matches Ok(t) ==> {
            &&& field_absent(c.panel_border) ==> t.border is None && t.border_variant is None && t.border_disabled is None && t.border_selected is None && t.border_transparent is None
            &&& field_absent(c.focus_border) ==> t.border_focused is None
            &&& field_absent(c.panel_background) ==> t.elevated_surface_background is None && t.surface_background is None
            &&& field_absent(c.editor_background) ==> t.background is None && t.editor_background is None && t.editor_gutter_background is None
            &&& field_absent(c.button_background) ==> t.element_background is None
            &&& field_absent(c.list_hover_background) ==> t.element_hover is None && t.ghost_element_hover is None
            &&& field_absent(c.list_active_selection_background) ==> t.element_selected is None
            &&& field_absent(c.list_drop_background) ==> t.drop_target_background is None
            &&& field_absent(c.foreground) ==> t.text is None
            &&& field_absent(c.tab_active_background) ==> t.tab_active_background is None
            &&& field_absent(c.tab_inactive_background) ==> t.tab_inactive_background is None
            &&& field_absent(c.editor_line_number_foreground) ==> t.editor_line_number is None
            &&& field_absent(c.editor_foreground) ==> t.editor_active_line_number is None
            &&& field_absent(c.terminal_background) ==> t.terminal_background is None
            &&& field_absent(c.terminal_ansi_black) ==> t.terminal_ansi_black is None
            &&& field_absent(c.terminal_ansi_blue) ==> t.terminal_ansi_blue is None
            &&& field_absent(c.terminal_ansi_cyan) ==> t.terminal_ansi_cyan is None
            &&& field_absent(c.terminal_ansi_green) ==> t.terminal_ansi_green is None
            &&& field_absent(c.terminal_ansi_magenta) ==> t.terminal_ansi_magenta is None
            &&& field_absent(c.terminal_ansi_red) ==> t.terminal_ansi_red is None
            &&& field_absent(c.terminal_ansi_white) ==> t.terminal_ansi_white is None
            &&& field_absent(c.terminal_ansi_yellow) ==> t.terminal_ansi_yellow is None
            &&& field_absent(c.terminal_ansi_bright_black) ==> t.terminal_ansi_bright_black is None
            &&& field_absent(c.terminal_ansi_bright_blue) ==> t.terminal_ansi_bright_blue is None
            &&& field_absent(c.terminal_ansi_bright_cyan) ==> t.terminal_ansi_bright_cyan is None
            &&& field_absent(c.terminal_ansi_bright_green) ==> t.terminal_ansi_bright_green is None
            &&& field_absent(c.terminal_ansi_bright_magenta) ==> t.terminal_ansi_bright_magenta is None
            &&& field_absent(c.terminal_ansi_bright_red) ==> t.terminal_ansi_bright_red is None
            &&& field_absent(c.terminal_ansi_bright_white) ==> t.terminal_ansi_bright_white is None
            &&& field_absent(c.terminal_ansi_bright_yellow) ==> t.terminal_ansi_bright_yellow is None
        },
        spec_status_colors(c) matches Ok(s) ==> {
            &&& field_absent(c.error_foreground) ==> s.deleted is None && s.error is None
            &&& field_absent(c.tab_inactive_foreground) ==> s.hidden is None
            &&& field_absent(c.list_warning_foreground) ==> s.warning is None
        },
{
}

/// Slots with no table entry are always left unset, whatever the source
/// document holds.
pub proof fn lemma_unmapped_slots_never_set(c: VsCodeColors)
    ensures
        spec_status_colors(c) matches Ok(s) ==> {
            &&& s.conflict is None
            &&& s.created is None
            &&& s.ignored is None
            &&& s.info is None
            &&& s.modified is None
            &&& s.renamed is None
            &&& s.success is None
        },
{
}

/// Aliasing: the five border slots all draw from the one `panel_border`
/// source field, so in every successful conversion they hold the same value.
pub proof fn lemma_border_aliases(c: VsCodeColors)
    ensures
        spec_theme_colors(c) matches Ok(t) ==> {
            &&& t.border == field_color(c.panel_border)
            &&& t.border_variant == t.border
            &&& t.border_disabled == t.border
            &&& t.border_selected == t.border
            &&& t.border_transparent == t.border
        },
{
}

} // verus!
