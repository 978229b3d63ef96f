//! The screen shown before anything else, until the user has had enough of it.

use vstd::prelude::*;

use crate::input::KeyCode;
use crate::text;
use crate::tui::paint;
use crate::tui::paint::{Line, LineView, Listing, Page};
use crate::tui::theme;
use crate::tui::theme::{Color, Theme};

verus! {

/// Whether the welcome screen is shown, given what the file of preferences
/// holds, if it can be read.
pub open spec fn shows_welcome(content: Option<Seq<char>>) -> bool {
    match content {
        Some(c) => !text::has_text(c, "\"show_welcome\":false"@),
        None => true,
    }
}

/// Decides whether the welcome screen is shown. Without a readable file of
/// preferences it is.
pub fn should_show_welcome(content: &Option<String>) -> (r: bool)
    ensures
        r == shows_welcome(text::opt_text(*content)),
{
    match content {
        Some(c) => !text::contains(c.as_str(), "\"show_welcome\":false"),
        None => true,
    }
}

/// What the file of preferences holds.
pub open spec fn preference(show: bool) -> Seq<char> {
    if show {
        "{\"show_welcome\":true}\n"@
    } else {
        "{\"show_welcome\":false}\n"@
    }
}

/// The text to be stored in the file of preferences.
pub fn set_show_welcome(show: bool) -> (r: &'static str)
    ensures
        r@ == preference(show),
{
    if show {
        "{\"show_welcome\":true}\n"
    } else {
        "{\"show_welcome\":false}\n"
    }
}

/// The text to be stored so that the welcome screen is shown the next time.
pub fn reset_welcome() -> (r: &'static str)
    ensures
        r@ == preference(true),
{
    set_show_welcome(true)
}

/// A stored preference is read back as it was stored.
pub proof fn preference_is_kept(show: bool)
    ensures
        shows_welcome(Some(preference(show))) == show,
{
    reveal_strlit("\"show_welcome\":false");
    reveal_strlit("{\"show_welcome\":true}\n");
    reveal_strlit("{\"show_welcome\":false}\n");
    let needle = "\"show_welcome\":false"@;
    if show {
        let hay = preference(true);
        assert forall|at: int| !text::occurs_at(hay, needle, at) by {
            if text::occurs_at(hay, needle, at) {
                let part = hay.subrange(at, at + needle.len());
                assert(0 <= at <= 2);
                assert(part[0] == needle[0]);
                assert(part[15] == needle[15]);
                assert(hay[at] == '"');
                assert(hay[at + 15] == 'f');
            }
        }
    } else {
        let hay = preference(false);
        assert(hay.subrange(1, 1int + needle.len()) =~= needle);
        assert(text::occurs_at(hay, needle, 1));
    }
}

/// What the user chose on the welcome screen.
#[derive(Debug, Clone, Copy, PartialEq, Eq, Structural)]
pub enum WelcomeAction {
    Nothing,
    Continue,
    ContinueAndDisable,
}

/// The welcome screen.
pub struct WelcomeView {
    pub action: WelcomeAction,
}

impl WelcomeView {
    pub fn new() -> (r: Self)
        ensures
            r.action == WelcomeAction::Nothing,
    {
        WelcomeView { action: WelcomeAction::Nothing }
    }

    /// The choice that a key makes, and the preference to be stored, if any.
    pub open spec fn after_key(self, key: KeyCode) -> (WelcomeAction, Option<bool>) {
        match key {
            KeyCode::Char('d') | KeyCode::Char('D') => (
                WelcomeAction::ContinueAndDisable,
                Some(false),
            ),
            KeyCode::Char('r') | KeyCode::Char('R') => (self.action, Some(true)),
            _ => (WelcomeAction::Continue, None),
        }
    }

    /// Handles a key, and says which preference is to be stored, if any.
    pub fn handle_key(&mut self, key: KeyCode) -> (r: Option<bool>)
        ensures
            (final(self).action, r) == old(self).after_key(key),
    {
        match key {
            KeyCode::Char('d') | KeyCode::Char('D') => {
                self.action = WelcomeAction::ContinueAndDisable;
                Some(false)
            },
            KeyCode::Char('r') | KeyCode::Char('R') => Some(true),
            _ => {
                self.action = WelcomeAction::Continue;
                None
            },
        }
    }

    /// Whether the user has chosen to go on.
    pub fn should_continue(&self) -> (r: bool)
        ensures
            r == (self.action is Continue || self.action is ContinueAndDisable),
    {
        matches!(self.action, WelcomeAction::Continue) || matches!(
            self.action,
            WelcomeAction::ContinueAndDisable
        )
    }
}

impl Default for WelcomeView {
    fn default() -> (r: Self)
        ensures
            r.action == WelcomeAction::Nothing,
    {
        Self::new()
    }
}

/// Every key but the one that resets the preference leaves the screen, and
/// only the one that disables it keeps it from being shown again.
pub proof fn most_keys_continue(v: WelcomeView, key: KeyCode)
    ensures
        v.after_key(key).1 == Some(true) || !(v.after_key(key).0 is Nothing),
        v.after_key(key).0 is ContinueAndDisable && !(v.action is ContinueAndDisable)
            ==> v.after_key(key).1 == Some(false),
{
}

// ---- drawing ----

/// The kinds of lines on the welcome screen.
#[derive(Debug, Clone, Copy, PartialEq, Eq, Structural)]
pub enum WelcomeKind {
    Heading,
    Text,
    /// A key and what it does.
    Key,
    /// The key of a screen, its name, and what it shows.
    Screen,
}

/// What the program is and how to start.
pub const LEFT_COLUMN: [(WelcomeKind, &'static str, &'static str, &'static str); 22] = [
    (WelcomeKind::Heading, "About", "", ""),
    (WelcomeKind::Text, "", "", ""),
    (WelcomeKind::Text, "  Accountir is a terminal-based accounting", "", ""),
    (WelcomeKind::Text, "  application using double-entry bookkeeping.", "", ""),
    (WelcomeKind::Text, "  Every change is recorded as an immutable", "", ""),
    (WelcomeKind::Text, "  event, providing a complete audit trail.", "", ""),
    (WelcomeKind::Text, "", "", ""),
    (WelcomeKind::Text, "", "", ""),
    (WelcomeKind::Heading, "Getting Started", "", ""),
    (WelcomeKind::Text, "", "", ""),
    (WelcomeKind::Text, "  1. Create or open a database", "", ""),
    (WelcomeKind::Text, "  2. Set up your chart of accounts", "", ""),
    (WelcomeKind::Text, "     (Assets, Liabilities, Equity, etc.)", "", ""),
    (WelcomeKind::Text, "  3. Record journal entries for transactions", "", ""),
    (WelcomeKind::Text, "  4. View financial reports", "", ""),
    (WelcomeKind::Text, "", "", ""),
    (WelcomeKind::Text, "", "", ""),
    (WelcomeKind::Heading, "Data Storage", "", ""),
    (WelcomeKind::Text, "", "", ""),
    (WelcomeKind::Text, "  All data is stored in a local SQLite file.", "", ""),
    (WelcomeKind::Text, "  You can create multiple databases for", "", ""),
    (WelcomeKind::Text, "  different entities or time periods.", "", ""),
];

/// The keys and the screens.
pub const RIGHT_COLUMN: [(WelcomeKind, &'static str, &'static str, &'static str); 19] = [
    (WelcomeKind::Heading, "Key Commands", "", ""),
    (WelcomeKind::Text, "", "", ""),
    (WelcomeKind::Key, "?", "Open context-sensitive help", ""),
    (WelcomeKind::Key, "Tab / 1-5", "Navigate between views", ""),
    (WelcomeKind::Key, "Enter", "Select items or view details", ""),
    (WelcomeKind::Key, "a", "Add new account (Accounts view)", ""),
    (WelcomeKind::Key, "e", "Create journal entry (Journal view)", ""),
    (WelcomeKind::Key, "i", "Import transactions from CSV", ""),
    (WelcomeKind::Key, "Esc", "Close database / go back", ""),
    (WelcomeKind::Key, "q", "Quit application", ""),
    (WelcomeKind::Text, "", "", ""),
    (WelcomeKind::Text, "", "", ""),
    (WelcomeKind::Heading, "Views", "", ""),
    (WelcomeKind::Text, "", "", ""),
    (WelcomeKind::Screen, "1", "Dashboard", "Financial summary"),
    (WelcomeKind::Screen, "2", "Accounts", "Chart of accounts"),
    (WelcomeKind::Screen, "3", "Journal", "Transactions & ledger"),
    (WelcomeKind::Screen, "4", "Reports", "Financial statements"),
    (WelcomeKind::Screen, "5", "Events", "Complete audit log"),
];

/// A line on the welcome screen.
pub open spec fn welcome_line(l: (WelcomeKind, &str, &str, &str), theme: &Theme) -> LineView {
    match l.0 {
        WelcomeKind::Heading => seq![(l.1@, theme::bold_colored(theme.success))],
        WelcomeKind::Text => seq![paint::raw_view(l.1@)],
        WelcomeKind::Key => seq![
            paint::raw_view("  "@),
            (text::padded_right(l.1@, 12), theme::colored(theme.accent)),
            paint::raw_view(l.2@),
        ],
        WelcomeKind::Screen => seq![
            paint::raw_view("  "@),
            (l.1@, theme::colored(theme.accent)),
            paint::raw_view(" "@),
            (text::padded_right(l.2@, 12), theme::colored(theme.fg)),
            (l.3@, theme::colored(theme.fg_dim)),
        ],
    }
}

fn draw_line(l: &(WelcomeKind, &'static str, &'static str, &'static str), theme: &Theme) -> (r:
    Line)
    ensures
        r@ == welcome_line(*l, theme),
{
    match l.0 {
        WelcomeKind::Heading => paint::styled_line(l.1, theme::bold_colored(theme.success)),
        WelcomeKind::Text => paint::list1(paint::raw(l.1)),
        WelcomeKind::Key => paint::list3(
            paint::raw("  "),
            paint::styled_owned(text::pad_right(l.1, 12), theme::colored(theme.accent)),
            paint::raw(l.2),
        ),
        WelcomeKind::Screen => {
            let mut line = paint::list4(
                paint::raw("  "),
                paint::styled(l.1, theme::colored(theme.accent)),
                paint::raw(" "),
                paint::styled_owned(text::pad_right(l.2, 12), theme::colored(theme.fg)),
            );
            line.push(paint::styled(l.3, theme::colored(theme.fg_dim)));
            line
        },
    }
}

/// Lines of a column as they are drawn.
pub open spec fn column(
    lines: Seq<(WelcomeKind, &'static str, &'static str, &'static str)>,
    theme: &Theme,
) -> Seq<LineView> {
    Seq::new(lines.len(), |i: int| welcome_line(lines[i], theme))
}

fn draw_column(
    lines: &[(WelcomeKind, &'static str, &'static str, &'static str)],
    theme: &Theme,
) -> (r: Page)
    ensures
        r@ == column(lines@, theme),
{
    let mut page: Page = Listing::new();
    let mut i: usize = 0;
    while i < lines.len()
        invariant
            i <= lines@.len(),
            page@ =~= column(lines@, theme).take(i as int),
        decreases lines@.len() - i,
    {
        page.push(draw_line(&lines[i], theme));
        i = i + 1;
    }
    assert(column(lines@, theme).take(i as int) =~= column(lines@, theme));
    page
}

/// The head of the welcome screen.
pub open spec fn title_lines(theme: &Theme) -> Seq<LineView> {
    seq![
        paint::blank_view(),
        seq![("Welcome to Accountir"@, theme::bold_colored(theme.accent))],
        paint::blank_view(),
        seq![
            ("Event-Sourced Double-Entry Accounting System"@, theme::colored(theme.header)),
        ],
    ]
}

/// A rule four cells narrower than the given width, and what the keys do.
pub open spec fn footer_lines(width: u16, theme: &Theme) -> Seq<LineView> {
    let rule = if width >= 4 {
        (width - 4) as nat
    } else {
        0
    };
    let start: LineView = seq![
        paint::raw_view("  Press "@),
        ("any key"@, theme::bold_colored(theme.accent)),
        paint::raw_view(" to continue    "@),
    ];
    let disable = paint::hint(start, "d"@, " = don't show again    "@, theme.header);
    seq![
        seq![(text::repeated("─"@, rule), theme::colored(theme.fg_dim))],
        paint::blank_view(),
        paint::hint(disable, "r"@, " = reset (show next time)"@, Color::Magenta),
    ]
}

/// The welcome screen as it is drawn.
pub struct WelcomePainting {
    pub title: Page,
    pub left: Page,
    pub right: Page,
    pub footer: Page,
}

impl WelcomeView {
    fn draw_title(&self, theme: &Theme) -> (r: Page)
        ensures
            r@ == title_lines(theme),
    {
        paint::list4(
            paint::blank(),
            paint::styled_line("Welcome to Accountir", theme::bold_colored(theme.accent)),
            paint::blank(),
            paint::styled_line(
                "Event-Sourced Double-Entry Accounting System",
                theme::colored(theme.header),
            ),
        )
    }

    fn draw_footer(&self, width: u16, theme: &Theme) -> (r: Page)
        ensures
            r@ == footer_lines(width, theme),
    {
        let rule = text::repeat("─", width.saturating_sub(4) as usize);
        let mut line = paint::list3(
            paint::raw("  Press "),
            paint::styled("any key", theme::bold_colored(theme.accent)),
            paint::raw(" to continue    "),
        );
        paint::push_hint(&mut line, "d", " = don't show again    ", theme.header);
        paint::push_hint(&mut line, "r", " = reset (show next time)", Color::Magenta);
        paint::list3(
            paint::styled_owned_line(rule, theme::colored(theme.fg_dim)),
            paint::blank(),
            line,
        )
    }

    /// Draws the screen with a footer of the given width.
    pub fn draw(&self, footer_width: u16, theme: &Theme) -> (r: WelcomePainting)
        ensures
            r.title@ == title_lines(theme),
            r.left@ == column(LEFT_COLUMN@, theme),
            r.right@ == column(RIGHT_COLUMN@, theme),
            r.footer@ == footer_lines(footer_width, theme),
    {
        WelcomePainting {
            title: self.draw_title(theme),
            left: draw_column(&LEFT_COLUMN, theme),
            right: draw_column(&RIGHT_COLUMN, theme),
            footer: self.draw_footer(footer_width, theme),
        }
    }
}

} // verus!
