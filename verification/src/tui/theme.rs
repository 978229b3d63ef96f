//! Colours, text styles and the palettes the screens are drawn with.

use vstd::prelude::*;

verus! {

/// A terminal colour.
#[derive(Debug, Clone, Copy, PartialEq, Eq, Structural)]
pub enum Color {
    Black,
    White,
    Gray,
    DarkGray,
    Red,
    Green,
    Yellow,
    Blue,
    Magenta,
    Cyan,
    LightRed,
    LightGreen,
    LightCyan,
    Rgb(u8, u8, u8),
}

/// How a piece of text is drawn: colours, if any, and emphasis.
#[derive(Debug, Clone, Copy, PartialEq, Eq, Structural)]
pub struct Style {
    pub fg: Option<Color>,
    pub bg: Option<Color>,
    pub bold: bool,
    pub dim: bool,
    pub italic: bool,
}

impl Style {
    /// No colours and no emphasis.
    #[verifier::allow_in_spec]
    pub fn plain() -> Style
        returns
            (Style { fg: None, bg: None, bold: false, dim: false, italic: false }),
    {
        Style { fg: None, bg: None, bold: false, dim: false, italic: false }
    }

    /// The same style in another text colour.
    #[verifier::allow_in_spec]
    pub fn on_fg(self, color: Color) -> Style
        returns
            (Style { fg: Some(color), ..self }),
    {
        Style { fg: Some(color), ..self }
    }

    /// The same style on another background.
    #[verifier::allow_in_spec]
    pub fn on_bg(self, color: Color) -> Style
        returns
            (Style { bg: Some(color), ..self }),
    {
        Style { bg: Some(color), ..self }
    }

    /// The same style in bold.
    #[verifier::allow_in_spec]
    pub fn in_bold(self) -> Style
        returns
            (Style { bold: true, ..self }),
    {
        Style { bold: true, ..self }
    }
}

/// Plain text in one colour.
#[verifier::allow_in_spec]
pub fn colored(color: Color) -> Style
    returns
        (Style { fg: Some(color), bg: None, bold: false, dim: false, italic: false }),
{
    Style { fg: Some(color), bg: None, bold: false, dim: false, italic: false }
}

/// Bold text in one colour.
#[verifier::allow_in_spec]
pub fn bold_colored(color: Color) -> Style
    returns
        (Style { fg: Some(color), bg: None, bold: true, dim: false, italic: false }),
{
    Style { fg: Some(color), bg: None, bold: true, dim: false, italic: false }
}

/// Bold text in the terminal's own colour.
#[verifier::allow_in_spec]
pub fn bold() -> Style
    returns
        (Style { fg: None, bg: None, bold: true, dim: false, italic: false }),
{
    Style { fg: None, bg: None, bold: true, dim: false, italic: false }
}

/// The palettes a user can choose from.
#[derive(Debug, Clone, Copy, PartialEq, Eq, Structural)]
pub enum ThemePreset {
    Dark,
    Light,
    HighContrast,
}

impl ThemePreset {
    /// Every preset, in the order they are offered.
    pub const ALL: [ThemePreset; 3] = [
        ThemePreset::Dark,
        ThemePreset::Light,
        ThemePreset::HighContrast,
    ];

    /// The preset after this one in the offered order, the first after the last.
    pub open spec fn following(self) -> ThemePreset {
        match self {
            ThemePreset::Dark => ThemePreset::Light,
            ThemePreset::Light => ThemePreset::HighContrast,
            ThemePreset::HighContrast => ThemePreset::Dark,
        }
    }

    /// The preset before this one in the offered order, the last before the first.
    pub open spec fn preceding(self) -> ThemePreset {
        match self {
            ThemePreset::Dark => ThemePreset::HighContrast,
            ThemePreset::Light => ThemePreset::Dark,
            ThemePreset::HighContrast => ThemePreset::Light,
        }
    }

    /// The text a preset is offered under.
    pub open spec fn label(self) -> Seq<char> {
        match self {
            ThemePreset::Dark => "Dark"@,
            ThemePreset::Light => "Light"@,
            ThemePreset::HighContrast => "High Contrast"@,
        }
    }

    /// One line on what a preset looks like.
    pub open spec fn summary(self) -> Seq<char> {
        match self {
            ThemePreset::Dark => "Light text on dark backgrounds"@,
            ThemePreset::Light => "Dark text on light backgrounds"@,
            ThemePreset::HighContrast => "Maximum contrast for visibility"@,
        }
    }

    pub fn name(&self) -> (r: &'static str)
        ensures
            r@ == self.label(),
    {
        match self {
            ThemePreset::Dark => "Dark",
            ThemePreset::Light => "Light",
            ThemePreset::HighContrast => "High Contrast",
        }
    }

    pub fn description(&self) -> (r: &'static str)
        ensures
            r@ == self.summary(),
    {
        match self {
            ThemePreset::Dark => "Light text on dark backgrounds",
            ThemePreset::Light => "Dark text on light backgrounds",
            ThemePreset::HighContrast => "Maximum contrast for visibility",
        }
    }

    pub fn next(&self) -> (r: Self)
        ensures
            r == self.following(),
    {
        match self {
            ThemePreset::Dark => ThemePreset::Light,
            ThemePreset::Light => ThemePreset::HighContrast,
            ThemePreset::HighContrast => ThemePreset::Dark,
        }
    }

    pub fn prev(&self) -> (r: Self)
        ensures
            r == self.preceding(),
    {
        match self {
            ThemePreset::Dark => ThemePreset::HighContrast,
            ThemePreset::Light => ThemePreset::Dark,
            ThemePreset::HighContrast => ThemePreset::Light,
        }
    }
}

impl Default for ThemePreset {
    fn default() -> (r: Self)
        ensures
            r == ThemePreset::Dark,
    {
        ThemePreset::Dark
    }
}

/// Going to the next preset and back, or back and forth, changes nothing, and
/// three steps in one direction visit every preset and return.
pub proof fn presets_form_a_cycle(p: ThemePreset)
    ensures
        p.following().preceding() == p,
        p.preceding().following() == p,
        p.following().following().following() == p,
        p.following() != p,
        p.following().following() != p,
{
}

/// The colours used throughout the screens.
#[derive(Debug, Clone, Copy, PartialEq, Eq, Structural)]
pub struct Theme {
    pub fg: Color,
    pub fg_dim: Color,
    pub fg_disabled: Color,
    pub bg_selected: Color,
    pub fg_selected: Color,
    /// Borders and active elements.
    pub accent: Color,
    /// Column headers and section titles.
    pub header: Color,
    /// The active tab.
    pub highlight: Color,
    /// Positive values.
    pub success: Color,
    /// Errors, voided entries and negative values.
    pub error: Color,
    pub info: Color,
    pub input_active_border: Color,
    pub input_active_fg: Color,
    pub input_inactive_border: Color,
    pub input_inactive_fg: Color,
}

impl Theme {
    #[verifier::allow_in_spec]
    pub fn from_preset(preset: ThemePreset) -> Self
        returns
            (match preset {
                ThemePreset::Dark => Theme::dark(),
                ThemePreset::Light => Theme::light(),
                ThemePreset::HighContrast => Theme::high_contrast(),
            }),
    {
        match preset {
            ThemePreset::Dark => Self::dark(),
            ThemePreset::Light => Self::light(),
            ThemePreset::HighContrast => Self::high_contrast(),
        }
    }

    #[verifier::allow_in_spec]
    pub fn dark() -> Self
        returns
            (Theme {
                fg: Color::White,
                fg_dim: Color::DarkGray,
                fg_disabled: Color::DarkGray,
                bg_selected: Color::DarkGray,
                fg_selected: Color::White,
                accent: Color::Cyan,
                header: Color::Yellow,
                highlight: Color::Yellow,
                success: Color::Green,
                error: Color::Red,
                info: Color::Cyan,
                input_active_border: Color::Yellow,
                input_active_fg: Color::Yellow,
                input_inactive_border: Color::DarkGray,
                input_inactive_fg: Color::White,
            }),
    {
        Theme {
            fg: Color::White,
            fg_dim: Color::DarkGray,
            fg_disabled: Color::DarkGray,
            bg_selected: Color::DarkGray,
            fg_selected: Color::White,
            accent: Color::Cyan,
            header: Color::Yellow,
            highlight: Color::Yellow,
            success: Color::Green,
            error: Color::Red,
            info: Color::Cyan,
            input_active_border: Color::Yellow,
            input_active_fg: Color::Yellow,
            input_inactive_border: Color::DarkGray,
            input_inactive_fg: Color::White,
        }
    }

    #[verifier::allow_in_spec]
    pub fn light() -> Self
        returns
            (Theme {
                fg: Color::Black,
                fg_dim: Color::DarkGray,
                fg_disabled: Color::Gray,
                bg_selected: Color::Rgb(200, 200, 220),
                fg_selected: Color::Black,
                accent: Color::Blue,
                header: Color::Rgb(100, 50, 0),
                highlight: Color::Blue,
                success: Color::Rgb(0, 128, 0),
                error: Color::Red,
                info: Color::Blue,
                input_active_border: Color::Blue,
                input_active_fg: Color::Blue,
                input_inactive_border: Color::Gray,
                input_inactive_fg: Color::Black,
            }),
    {
        Theme {
            fg: Color::Black,
            fg_dim: Color::DarkGray,
            fg_disabled: Color::Gray,
            bg_selected: Color::Rgb(200, 200, 220),
            fg_selected: Color::Black,
            accent: Color::Blue,
            header: Color::Rgb(100, 50, 0),
            highlight: Color::Blue,
            success: Color::Rgb(0, 128, 0),
            error: Color::Red,
            info: Color::Blue,
            input_active_border: Color::Blue,
            input_active_fg: Color::Blue,
            input_inactive_border: Color::Gray,
            input_inactive_fg: Color::Black,
        }
    }

    #[verifier::allow_in_spec]
    pub fn high_contrast() -> Self
        returns
            (Theme {
                fg: Color::White,
                fg_dim: Color::Gray,
                fg_disabled: Color::Gray,
                bg_selected: Color::White,
                fg_selected: Color::Black,
                accent: Color::Cyan,
                header: Color::Yellow,
                highlight: Color::Yellow,
                success: Color::LightGreen,
                error: Color::LightRed,
                info: Color::LightCyan,
                input_active_border: Color::White,
                input_active_fg: Color::White,
                input_inactive_border: Color::Gray,
                input_inactive_fg: Color::White,
            }),
    {
        Theme {
            fg: Color::White,
            fg_dim: Color::Gray,
            fg_disabled: Color::Gray,
            bg_selected: Color::White,
            fg_selected: Color::Black,
            accent: Color::Cyan,
            header: Color::Yellow,
            highlight: Color::Yellow,
            success: Color::LightGreen,
            error: Color::LightRed,
            info: Color::LightCyan,
            input_active_border: Color::White,
            input_active_fg: Color::White,
            input_inactive_border: Color::Gray,
            input_inactive_fg: Color::White,
        }
    }

    /// Style for normal text.
    #[verifier::allow_in_spec]
    pub fn text_style(&self) -> Style
        returns
            colored(self.fg),
    {
        colored(self.fg)
    }

    /// Style for secondary text.
    #[verifier::allow_in_spec]
    pub fn dim_style(&self) -> Style
        returns
            colored(self.fg_dim),
    {
        colored(self.fg_dim)
    }

    /// Style for column headers.
    #[verifier::allow_in_spec]
    pub fn header_style(&self) -> Style
        returns
            bold_colored(self.header),
    {
        bold_colored(self.header)
    }

    /// Style for selected rows.
    #[verifier::allow_in_spec]
    pub fn selected_style(&self) -> Style
        returns
            bold_colored(self.fg_selected).on_bg(self.bg_selected),
    {
        bold_colored(self.fg_selected).on_bg(self.bg_selected)
    }

    /// Style for the borders of modals and focused blocks.
    #[verifier::allow_in_spec]
    pub fn border_style(&self) -> Style
        returns
            colored(self.accent),
    {
        colored(self.accent)
    }

    /// Style for inactive borders.
    #[verifier::allow_in_spec]
    pub fn border_inactive_style(&self) -> Style
        returns
            colored(self.fg_dim),
    {
        colored(self.fg_dim)
    }

    /// Style for the active tab.
    #[verifier::allow_in_spec]
    pub fn tab_highlight_style(&self) -> Style
        returns
            bold_colored(self.highlight),
    {
        bold_colored(self.highlight)
    }

    /// Style for success text.
    #[verifier::allow_in_spec]
    pub fn success_style(&self) -> Style
        returns
            colored(self.success),
    {
        colored(self.success)
    }

    /// Style for error text.
    #[verifier::allow_in_spec]
    pub fn error_style(&self) -> Style
        returns
            colored(self.error),
    {
        colored(self.error)
    }

    /// Style for informational text.
    #[verifier::allow_in_spec]
    pub fn info_style(&self) -> Style
        returns
            colored(self.info),
    {
        colored(self.info)
    }

    /// Style for the text of the active input field.
    #[verifier::allow_in_spec]
    pub fn input_active_style(&self) -> Style
        returns
            colored(self.input_active_fg),
    {
        colored(self.input_active_fg)
    }

    /// Style for the border of the active input field.
    #[verifier::allow_in_spec]
    pub fn input_active_border_style(&self) -> Style
        returns
            colored(self.input_active_border),
    {
        colored(self.input_active_border)
    }

    /// Style for the text of an inactive input field.
    #[verifier::allow_in_spec]
    pub fn input_inactive_style(&self) -> Style
        returns
            colored(self.input_inactive_fg),
    {
        colored(self.input_inactive_fg)
    }

    /// Style for the border of an inactive input field.
    #[verifier::allow_in_spec]
    pub fn input_inactive_border_style(&self) -> Style
        returns
            colored(self.input_inactive_border),
    {
        colored(self.input_inactive_border)
    }

    /// Style for modal titles.
    #[verifier::allow_in_spec]
    pub fn modal_title_style(&self) -> Style
        returns
            bold_colored(self.accent),
    {
        bold_colored(self.accent)
    }
}

} // verus!
