//! The modal that chooses the colors.

use vstd::prelude::*;

use crate::input::KeyCode;
use crate::text;
use crate::tui::paint;
use crate::tui::paint::{Line, LineView, Listing, Page};
use crate::tui::theme;
use crate::tui::theme::{Theme, ThemePreset};

verus! {

/// What the modal was closed with.
#[derive(Debug, Clone, Copy, PartialEq, Eq, Structural)]
pub enum SettingsResult {
    Nothing,
    Cancel,
    Saved(ThemePreset),
}

/// The modal.
#[derive(Debug, Clone, Copy, PartialEq, Eq, Structural)]
pub struct SettingsModal {
    pub visible: bool,
    pub result: SettingsResult,
    pub selected_preset: ThemePreset,
    pub original_preset: ThemePreset,
}

impl SettingsModal {
    pub fn new() -> (r: Self)
        ensures
            r == (SettingsModal {
                visible: false,
                result: SettingsResult::Nothing,
                selected_preset: ThemePreset::Dark,
                original_preset: ThemePreset::Dark,
            }),
    {
        SettingsModal {
            visible: false,
            result: SettingsResult::Nothing,
            selected_preset: ThemePreset::default(),
            original_preset: ThemePreset::default(),
        }
    }

    /// Opens the modal with the stored preset.
    pub fn show(&mut self, stored: ThemePreset)
        ensures
            *final(self) == (SettingsModal {
                visible: true,
                result: SettingsResult::Nothing,
                selected_preset: stored,
                original_preset: stored,
            }),
    {
        self.selected_preset = stored;
        self.original_preset = stored;
        self.visible = true;
        self.result = SettingsResult::Nothing;
    }

    /// Closes the modal.
    pub fn close(&mut self)
        ensures
            *final(self) == (SettingsModal { visible: false, ..*old(self) }),
    {
        self.visible = false;
    }

    /// The preset that is shown while the modal is open.
    pub fn preview_preset(&self) -> (r: ThemePreset)
        ensures
            r == self.selected_preset,
    {
        self.selected_preset
    }

    /// The modal after a key, and the preset to be stored, if any.
    pub open spec fn after_key(self, key: KeyCode) -> (SettingsModal, Option<ThemePreset>) {
        match key {
            KeyCode::Esc => (SettingsModal { result: SettingsResult::Cancel, ..self }, None),
            KeyCode::Right | KeyCode::Char('l') | KeyCode::Tab => (
                self.chosen(self.selected_preset.following()),
                None,
            ),
            KeyCode::Left | KeyCode::Char('h') | KeyCode::BackTab => (
                self.chosen(self.selected_preset.preceding()),
                None,
            ),
            KeyCode::Enter => (self, Some(self.selected_preset)),
            _ => (self, None),
        }
    }

    /// The modal with another preset, which takes effect at once.
    pub open spec fn chosen(self, p: ThemePreset) -> SettingsModal {
        SettingsModal { selected_preset: p, result: SettingsResult::Saved(p), ..self }
    }

    /// Handles a key, and says which preset is to be stored, if any.
    pub fn handle_key(&mut self, key: KeyCode) -> (r: Option<ThemePreset>)
        ensures
            (*final(self), r) == old(self).after_key(key),
    {
        match key {
            KeyCode::Esc => {
                self.result = SettingsResult::Cancel;
                None
            },
            KeyCode::Right | KeyCode::Char('l') | KeyCode::Tab => {
                self.selected_preset = self.selected_preset.next();
                self.result = SettingsResult::Saved(self.selected_preset);
                None
            },
            KeyCode::Left | KeyCode::Char('h') | KeyCode::BackTab => {
                self.selected_preset = self.selected_preset.prev();
                self.result = SettingsResult::Saved(self.selected_preset);
                None
            },
            KeyCode::Enter => Some(self.selected_preset),
            _ => None,
        }
    }

    /// Goes on after the preset was stored, or could not be.
    pub fn save(&mut self, stored: bool)
        ensures
            *final(self) == (if stored {
                SettingsModal {
                    result: SettingsResult::Saved(old(self).selected_preset),
                    ..*old(self)
                }
            } else {
                *old(self)
            }),
    {
        if stored {
            self.result = SettingsResult::Saved(self.selected_preset);
        }
    }
}

impl Default for SettingsModal {
    fn default() -> (r: Self)
        ensures
            !r.visible,
            r.result == SettingsResult::Nothing,
            r.selected_preset == ThemePreset::Dark,
            r.original_preset == ThemePreset::Dark,
    {
        Self::new()
    }
}

/// What is previewed is what is stored, browsing back undoes browsing on, and
/// no key forgets the preset that the modal was opened with.
pub proof fn preview_is_stored(m: SettingsModal, key: KeyCode)
    ensures
        m.after_key(key).1 is Some ==> m.after_key(key).1 == Some(m.selected_preset),
        m.after_key(key).0.result is Saved ==> m.after_key(key).0.result == m.result
            || m.after_key(key).0.result == SettingsResult::Saved(
            m.after_key(key).0.selected_preset,
        ),
        m.after_key(key).0.original_preset == m.original_preset,
        m.after_key(KeyCode::Right).0.after_key(KeyCode::Left).0.selected_preset
            == m.selected_preset,
        m.after_key(KeyCode::Left).0.after_key(KeyCode::Right).0.selected_preset
            == m.selected_preset,
{
    theme::presets_form_a_cycle(m.selected_preset);
}

// ---- drawing ----

/// A preset in the list.
pub open spec fn option_line(p: ThemePreset, selected: bool, theme: &Theme) -> LineView {
    let name_style = if selected {
        theme.selected_style()
    } else {
        theme.text_style()
    };
    seq![
        (
            if selected {
                " > "@
            } else {
                "   "@
            },
            name_style,
        ),
        (text::padded_right(p.label(), 16), name_style),
        (
            p.summary(),
            if selected {
                theme::colored(theme.fg_selected).on_bg(theme.bg_selected)
            } else {
                theme.dim_style()
            },
        ),
    ]
}

fn draw_option(p: ThemePreset, selected: bool, theme: &Theme) -> (r: Line)
    ensures
        r@ == option_line(p, selected, theme),
{
    let name_style = if selected {
        theme.selected_style()
    } else {
        theme.text_style()
    };
    paint::list3(
        paint::styled(
            if selected {
                " > "
            } else {
                "   "
            },
            name_style,
        ),
        paint::styled_owned(text::pad_right(p.name(), 16), name_style),
        paint::styled(
            p.description(),
            if selected {
                theme::colored(theme.fg_selected).on_bg(theme.bg_selected)
            } else {
                theme.dim_style()
            },
        ),
    )
}

/// The presets in the order they are offered, each followed by an empty line.
pub open spec fn option_lines(selected: ThemePreset, theme: &Theme) -> Seq<LineView> {
    seq![
        option_line(ThemePreset::Dark, selected == ThemePreset::Dark, theme),
        paint::blank_view(),
        option_line(ThemePreset::Light, selected == ThemePreset::Light, theme),
        paint::blank_view(),
        option_line(ThemePreset::HighContrast, selected == ThemePreset::HighContrast, theme),
        paint::blank_view(),
    ]
}

pub open spec fn help_line(theme: &Theme) -> LineView {
    let a = paint::hint(Seq::empty(), "  ←/→"@, ": browse  "@, theme.header);
    let b = paint::hint(a, "Enter"@, ": save  "@, theme.header);
    paint::hint(b, "Esc"@, ": cancel"@, theme.header)
}

/// The modal as it is drawn.
pub struct SettingsPainting {
    pub header: Line,
    pub options: Page,
    pub preview: Line,
    pub help: Line,
}

impl SettingsModal {
    /// Draws the modal.
    pub fn draw(&self, theme: &Theme) -> (r: SettingsPainting)
        ensures
            r.header@ == seq![("  Theme"@, theme.header_style())],
            r.options@ == option_lines(self.selected_preset, theme),
            r.preview@ == seq![
                ("  Preview: "@, theme.dim_style()),
                ("Colors update as you browse"@, theme.info_style()),
            ],
            r.help@ == help_line(theme),
    {
        let p = self.selected_preset;
        let mut options: Page = Listing::new();
        options.push(draw_option(ThemePreset::Dark, p == ThemePreset::Dark, theme));
        options.push(paint::blank());
        options.push(draw_option(ThemePreset::Light, p == ThemePreset::Light, theme));
        options.push(paint::blank());
        options.push(
            draw_option(ThemePreset::HighContrast, p == ThemePreset::HighContrast, theme),
        );
        options.push(paint::blank());
        assert(options@ =~= option_lines(p, theme));
        let mut help: Line = Listing::new();
        paint::push_hint(&mut help, "  ←/→", ": browse  ", theme.header);
        paint::push_hint(&mut help, "Enter", ": save  ", theme.header);
        paint::push_hint(&mut help, "Esc", ": cancel", theme.header);
        SettingsPainting {
            header: paint::styled_line("  Theme", theme.header_style()),
            options,
            preview: paint::list2(
                paint::styled("  Preview: ", theme.dim_style()),
                paint::styled("Colors update as you browse", theme.info_style()),
            ),
            help,
        }
    }
}

} // verus!
