//! What is drawn: the main window with its tabs and its status bar, and the
//! layers above it.

use vstd::prelude::*;

use crate::text;
use crate::tui::app::{ActiveView, App, AppPhase, AppState};
use crate::tui::chart;
use crate::tui::paint;
use crate::tui::paint::{Line, LineView, Page, Rect};
use crate::tui::theme;
use crate::tui::theme::{Style, Theme};

verus! {

// ---- the layers ----

/// What is drawn, each over what came before.
#[derive(Debug, Clone, Copy, PartialEq, Eq, Structural)]
pub enum Layer {
    Welcome,
    Startup,
    Main,
    Help,
    AccountForm,
    EntryForm,
    EntryDetail,
    CsvImport,
    BankImport,
    PlaidLink,
    PlaidConfig,
    Settings,
    Loading,
    QuitConfirm,
    DefaultAccounts,
}

/// A layer if it is shown.
pub open spec fn shown(v: Seq<Layer>, layer: Layer, visible: bool) -> Seq<Layer> {
    if visible {
        v.push(layer)
    } else {
        v
    }
}

fn show(v: &mut Vec<Layer>, layer: Layer, visible: bool)
    ensures
        final(v)@ == shown(old(v)@, layer, visible),
{
    if visible {
        v.push(layer);
    }
}

impl AppState {
    /// The modals over the main window.
    pub open spec fn modals(self, v: Seq<Layer>) -> Seq<Layer> {
        let v = shown(v, Layer::Help, self.help);
        let v = shown(v, Layer::AccountForm, self.account_form.visible);
        let v = shown(v, Layer::EntryForm, self.entry_form.visible);
        let v = shown(v, Layer::EntryDetail, self.entry_detail.visible);
        let v = shown(v, Layer::CsvImport, self.csv_import.visible);
        let v = shown(v, Layer::BankImport, self.bank_import.visible);
        let v = shown(v, Layer::PlaidLink, self.plaid_link.visible);
        let v = shown(v, Layer::PlaidConfig, self.plaid_config.visible);
        shown(v, Layer::Settings, self.settings.visible)
    }

    /// The window of the phase with what lies over it.
    pub open spec fn window(self) -> Seq<Layer> {
        match self.phase {
            AppPhase::Welcome => seq![Layer::Welcome],
            AppPhase::Startup => shown(seq![Layer::Startup], Layer::Help, self.help),
            AppPhase::Main => self.modals(seq![Layer::Main]),
        }
    }

    /// Everything that is drawn, in order.
    pub open spec fn layers(self) -> Seq<Layer> {
        let v = shown(self.window(), Layer::Loading, self.background is Some);
        let v = shown(v, Layer::QuitConfirm, self.show_quit_confirm);
        shown(v, Layer::DefaultAccounts, self.pending_default_accounts)
    }
}

impl App {
    fn list_forms(&self, v: &mut Vec<Layer>)
        ensures
            final(v)@ == ({
                let w = shown(old(v)@, Layer::Help, self@.help);
                let w = shown(w, Layer::AccountForm, self@.account_form.visible);
                let w = shown(w, Layer::EntryForm, self@.entry_form.visible);
                shown(w, Layer::EntryDetail, self@.entry_detail.visible)
            }),
    {
        proof {
            reveal(App::state);
        }
        show(v, Layer::Help, self.help.visible);
        show(v, Layer::AccountForm, self.account_form.visible);
        show(v, Layer::EntryForm, self.entry_form.visible);
        show(v, Layer::EntryDetail, self.entry_detail.visible);
    }

    fn list_imports(&self, v: &mut Vec<Layer>)
        ensures
            final(v)@ == ({
                let w = shown(old(v)@, Layer::CsvImport, self@.csv_import.visible);
                let w = shown(w, Layer::BankImport, self@.bank_import.visible);
                let w = shown(w, Layer::PlaidLink, self@.plaid_link.visible);
                let w = shown(w, Layer::PlaidConfig, self@.plaid_config.visible);
                shown(w, Layer::Settings, self@.settings.visible)
            }),
    {
        proof {
            reveal(App::state);
        }
        show(v, Layer::CsvImport, self.csv_import.visible);
        show(v, Layer::BankImport, self.bank_import.visible);
        show(v, Layer::PlaidLink, self.plaid_link.visible);
        show(v, Layer::PlaidConfig, self.plaid_config.visible);
        show(v, Layer::Settings, self.settings.visible);
    }

    fn list_top(&self, v: &mut Vec<Layer>)
        ensures
            final(v)@ == ({
                let w = shown(old(v)@, Layer::Loading, self@.background is Some);
                let w = shown(w, Layer::QuitConfirm, self@.show_quit_confirm);
                shown(w, Layer::DefaultAccounts, self@.pending_default_accounts)
            }),
    {
        proof {
            reveal(App::state);
        }
        show(v, Layer::Loading, self.background_task.is_some());
        show(v, Layer::QuitConfirm, self.show_quit_confirm);
        show(v, Layer::DefaultAccounts, self.pending_default_accounts);
    }

    fn needs_help(&self) -> (r: bool)
        ensures
            r == self@.help,
    {
        proof {
            reveal(App::state);
        }
        self.help.visible
    }

    /// Everything that is drawn, in order.
    pub fn draw_ui(&self) -> (r: Vec<Layer>)
        ensures
            r@ == self@.layers(),
    {
        let mut v: Vec<Layer> = Vec::new();
        match self.current_phase() {
            AppPhase::Welcome => {
                v.push(Layer::Welcome);
                assert(v@ =~= seq![Layer::Welcome]);
            },
            AppPhase::Startup => {
                v.push(Layer::Startup);
                assert(v@ =~= seq![Layer::Startup]);
                show(&mut v, Layer::Help, self.needs_help());
            },
            AppPhase::Main => {
                v.push(Layer::Main);
                assert(v@ =~= seq![Layer::Main]);
                self.list_forms(&mut v);
                self.list_imports(&mut v);
            },
        }
        self.list_top(&mut v);
        v
    }
}

/// A question that needs an answer lies on top: nothing else can cover it.
pub proof fn questions_are_on_top(s: AppState)
    ensures
        s.pending_default_accounts ==> s.layers().last() == Layer::DefaultAccounts,
        s.show_quit_confirm && !s.pending_default_accounts ==> s.layers().last()
            == Layer::QuitConfirm,
        s.background is Some && !s.show_quit_confirm && !s.pending_default_accounts
            ==> s.layers().last() == Layer::Loading,
{
}

// ---- the main window ----

/// The titles of the tabs.
pub const TAB_TITLES: [&'static str; 6] = [
    "1:Dashboard",
    "2:Accounts",
    "3:Journal",
    "4:Reports",
    "5:Events",
    "6:Plaid",
];

/// What the main window shows.
#[derive(Debug, Clone, Copy, PartialEq, Eq, Structural)]
pub enum Content {
    Dashboard,
    Accounts,
    Journal,
    Reports,
    EventLog,
    Plaid,
    StagedTransactions,
}

/// The main window: its title, the active tab, what it shows, and the status
/// bar.
pub struct MainPainting {
    pub title: String,
    pub tab: usize,
    pub content: Content,
    pub status: Line,
}

/// How many imports wait.
pub open spec fn import_note(n: nat) -> Seq<char> {
    " [b] "@ + text::decimal(n) + " import"@ + if n == 1 {
        ""@
    } else {
        "s"@
    } + " "@
}

impl AppState {
    /// The text of the status bar.
    pub open spec fn status_text(self) -> Seq<char> {
        match self.status {
            Some(m) => m,
            None => "Tab: switch views | 1-6: jump to view | ,: settings | ?: help | Esc: close file | q: quit"@,
        }
    }

    /// The status bar: the message, how many imports wait, and whether the sync
    /// server runs.
    pub open spec fn status_bar(self) -> LineView {
        seq![
            paint::raw_view(" "@),
            (self.status_text(), self.theme.dim_style()),
            paint::raw_view("  "@),
            if self.pending_import_count > 0 {
                (
                    import_note(self.pending_import_count as nat),
                    theme::bold_colored(self.theme.header),
                )
            } else {
                (""@, Style::plain())
            },
            if self.sync_server_running {
                (" Sync: :9876 "@, self.theme.success_style())
            } else {
                (""@, Style::plain())
            },
        ]
    }

    /// What the main window shows.
    pub open spec fn content(self) -> Content {
        match self.active_view {
            ActiveView::Dashboard => Content::Dashboard,
            ActiveView::Accounts => Content::Accounts,
            ActiveView::Journal => Content::Journal,
            ActiveView::Reports => Content::Reports,
            ActiveView::EventLog => Content::EventLog,
            ActiveView::Plaid => if self.plaid_staged.visible {
                Content::StagedTransactions
            } else {
                Content::Plaid
            },
        }
    }
}

fn write_import_note(n: usize) -> (r: String)
    ensures
        r@ == import_note(n as nat),
{
    let count = text::count(n);
    text::cat5(
        " [b] ",
        count.as_str(),
        " import",
        if n == 1 {
            ""
        } else {
            "s"
        },
        " ",
    )
}

impl App {
    fn draw_status_bar(&self) -> (r: Line)
        ensures
            r@ == self@.status_bar(),
    {
        proof {
            reveal(App::state);
        }
        let mut line: Line = paint::Listing::new();
        line.push(paint::raw(" "));
        line.push(
            paint::styled_owned(
                text::or_text(
                    &self.status_message,
                    "Tab: switch views | 1-6: jump to view | ,: settings | ?: help | Esc: close file | q: quit",
                ),
                self.theme.dim_style(),
            ),
        );
        line.push(paint::raw("  "));
        if self.pending_import_count > 0 {
            line.push(
                paint::styled_owned(
                    write_import_note(self.pending_import_count),
                    theme::bold_colored(self.theme.header),
                ),
            );
        } else {
            line.push(paint::raw(""));
        }
        if self.sync_server_running {
            line.push(paint::styled(" Sync: :9876 ", self.theme.success_style()));
        } else {
            line.push(paint::raw(""));
        }
        assert(line@ =~= self@.status_bar());
        line
    }

    fn find_content(&self) -> (r: Content)
        ensures
            r == self@.content(),
    {
        proof {
            reveal(App::state);
        }
        match self.active_view {
            ActiveView::Dashboard => Content::Dashboard,
            ActiveView::Accounts => Content::Accounts,
            ActiveView::Journal => Content::Journal,
            ActiveView::Reports => Content::Reports,
            ActiveView::EventLog => Content::EventLog,
            ActiveView::Plaid => if self.plaid_staged.visible {
                Content::StagedTransactions
            } else {
                Content::Plaid
            },
        }
    }

    fn active_tab(&self) -> (r: usize)
        ensures
            r == self@.active_view.place(),
    {
        proof {
            reveal(App::state);
        }
        self.active_view.index()
    }

    /// Draws the main window for a database with the given file name.
    pub fn draw_main(&self, file_name: &Option<String>) -> (r: MainPainting)
        ensures
            r.title@ == " Accountir - "@ + text::text_or(*file_name, "unknown"@) + " "@,
            r.tab == self@.active_view.place(),
            r.content == self@.content(),
            r.status@ == self@.status_bar(),
    {
        let name = text::or_text(file_name, "unknown");
        MainPainting {
            title: text::cat3(" Accountir - ", name.as_str(), " "),
            tab: self.active_tab(),
            content: self.find_content(),
            status: self.draw_status_bar(),
        }
    }
}

// ---- the dialogs ----

/// A dialog: where it is, where its text is, and the text.
pub struct DialogPainting {
    pub area: Rect,
    pub inner: Rect,
    pub lines: Page,
}

/// A box of a fixed size in the middle of the screen.
pub open spec fn dialog_area(screen: Rect, width: u16, height: u16) -> Rect {
    Rect {
        x: (if screen.width >= width {
            (screen.width - width) / 2
        } else {
            0
        }) as u16,
        y: (if screen.height >= height {
            (screen.height - height) / 2
        } else {
            0
        }) as u16,
        width,
        height,
    }
}

/// The inside of a dialog: a border, and a column left free on both sides.
pub open spec fn dialog_inner(area: Rect) -> Rect {
    Rect {
        x: (area.x + 2) as u16,
        y: (area.y + 1) as u16,
        width: (if area.width >= 4 {
            area.width - 4
        } else {
            0
        }) as u16,
        height: (if area.height >= 2 {
            area.height - 2
        } else {
            0
        }) as u16,
    }
}

fn place_dialog(screen: Rect, width: u16, height: u16) -> (r: (Rect, Rect))
    ensures
        r.0 == dialog_area(screen, width, height),
        r.1 == dialog_inner(r.0),
{
    let x: u16 = screen.width.saturating_sub(width) / 2;
    let y: u16 = screen.height.saturating_sub(height) / 2;
    (
        Rect { x, y, width, height },
        Rect {
            x: x + 2,
            y: y + 1,
            width: width.saturating_sub(4),
            height: height.saturating_sub(2),
        },
    )
}

/// A dialog that fits on the screen lies on it.
pub proof fn dialogs_lie_on_the_screen(screen: Rect, width: u16, height: u16)
    requires
        width <= screen.width,
        height <= screen.height,
    ensures
        dialog_area(screen, width, height).x + width <= screen.width,
        dialog_area(screen, width, height).y + height <= screen.height,
{
}

/// The frames of the spinner.
pub const SPINNER: [char; 10] = ['⠋', '⠙', '⠹', '⠸', '⠼', '⠴', '⠦', '⠧', '⠇', '⠏'];

/// How wide the dialog for work in the background is.
pub open spec fn loading_width(label: Seq<char>, screen: Rect) -> int {
    let w = text::byte_len(label) + 8;
    let w = if w >= 20 {
        w as int
    } else {
        20
    };
    let left = if screen.width >= 4 {
        screen.width - 4
    } else {
        0
    };
    if w <= left {
        w
    } else {
        left
    }
}

/// Draws the dialog for work in the background. The spinner turns every second
/// tick.
pub fn draw_loading_modal(label: &str, tick: u8, screen: Rect, theme: &Theme) -> (r: DialogPainting)
    requires
        text::byte_len(label@) + 8 <= u16::MAX,
    ensures
        r.area == dialog_area(screen, loading_width(label@, screen) as u16, 3),
        r.inner == dialog_inner(r.area),
        r.lines@ == seq![
            seq![
                (seq![SPINNER[(tick as int / 2) % 10], ' '], theme.header_style()),
                paint::raw_view(label@),
            ],
        ],
{
    let mut width: u16 = text::byte_count(label) as u16 + 8;
    if width < 20 {
        width = 20;
    }
    let left: u16 = screen.width.saturating_sub(4);
    if width > left {
        width = left;
    }
    let (area, inner): (Rect, Rect) = place_dialog(screen, width, 3);
    let frame: usize = (tick as usize / 2) % 10;
    let spinner = SPINNER[frame];
    let mut line: Line = paint::Listing::new();
    let mut turning = String::new();
    turning.push(spinner);
    turning.push(' ');
    assert(turning@ =~= seq![spinner, ' ']);
    line.push(paint::styled_owned(turning, theme.header_style()));
    line.push(paint::raw(label));
    assert(line@ =~= seq![
        (seq![SPINNER[(tick as int / 2) % 10], ' '], theme.header_style()),
        paint::raw_view(label@),
    ]);
    DialogPainting { area, inner, lines: paint::list1(line) }
}

/// A line that offers to agree or to refuse.
pub open spec fn choice_line(
    agree: Seq<char>,
    refuse: Seq<char>,
    theme: &Theme,
) -> LineView {
    seq![
        paint::raw_view("Press "@),
        ("y"@, theme.success_style()),
        paint::raw_view(agree),
        ("N"@, theme.error_style().in_bold()),
        paint::raw_view(refuse),
    ]
}

fn draw_choice(agree: &str, refuse: &str, theme: &Theme) -> (r: Line)
    ensures
        r@ == choice_line(agree@, refuse@, theme),
{
    let mut line: Line = paint::Listing::new();
    line.push(paint::raw("Press "));
    line.push(paint::styled("y", theme.success_style()));
    line.push(paint::raw(agree));
    line.push(paint::styled("N", theme.error_style().in_bold()));
    line.push(paint::raw(refuse));
    assert(line@ =~= choice_line(agree@, refuse@, theme));
    line
}

/// Draws the question whether to quit.
pub fn draw_quit_confirm(screen: Rect, theme: &Theme) -> (r: DialogPainting)
    ensures
        r.area == dialog_area(screen, 30, 5),
        r.inner == dialog_inner(r.area),
        r.lines@ == seq![
            seq![paint::raw_view("Are you sure you want to quit?"@)],
            paint::blank_view(),
            choice_line(" to quit, "@, "/Enter to cancel"@, theme),
        ],
{
    let (area, inner): (Rect, Rect) = place_dialog(screen, 30, 5);
    DialogPainting {
        area,
        inner,
        lines: paint::list3(
            paint::list1(paint::raw("Are you sure you want to quit?")),
            paint::blank(),
            draw_choice(" to quit, ", "/Enter to cancel", theme),
        ),
    }
}

/// An account of the default chart, indented below its parent.
pub open spec fn default_line(i: int, theme: &Theme) -> LineView {
    let a = chart::default_account(i);
    seq![
        ("  "@ + a.number@, theme::colored(theme.header)),
        paint::raw_view(
            (if a.parent is Some {
                "    "@
            } else {
                "  "@
            }) + a.name@,
        ),
    ]
}

fn draw_default(i: usize, theme: &Theme) -> (r: Line)
    ensures
        r@ == default_line(i as int, theme),
{
    let a = chart::default_at(i);
    paint::list2(
        paint::styled_owned(text::cat2("  ", a.number), theme::colored(theme.header)),
        paint::raw_owned(
            text::cat2(
                if a.parent.is_some() {
                    "    "
                } else {
                    "  "
                },
                a.name,
            ),
        ),
    )
}

/// The lines of the question whether to make the default chart.
pub open spec fn default_lines(theme: &Theme) -> Seq<LineView> {
    seq![seq![paint::raw_view("No accounts found. Create defaults?"@)], paint::blank_view()]
        + Seq::new(chart::DEFAULT_COUNT as nat, |i: int| default_line(i, theme)) + seq![
        paint::blank_view(),
        choice_line(" to create, "@, "/Esc to skip"@, theme),
    ]
}

/// Draws the question whether to make the default chart.
pub fn draw_default_accounts_confirm(screen: Rect, theme: &Theme) -> (r: DialogPainting)
    ensures
        r.area == dialog_area(screen, 50, 14),
        r.inner == dialog_inner(r.area),
        r.lines@ == default_lines(theme),
{
    let (area, inner): (Rect, Rect) = place_dialog(screen, 50, 14);
    let mut lines: Page = paint::list2(
        paint::list1(paint::raw("No accounts found. Create defaults?")),
        paint::blank(),
    );
    let ghost head = lines@;
    let ghost f = |i: int| default_line(i, theme);
    let mut i: usize = 0;
    while i < chart::DEFAULT_COUNT
        invariant
            i <= chart::DEFAULT_COUNT,
            f == (|i: int| default_line(i, theme)),
            lines@ =~= head + Seq::new(i as nat, f),
        decreases chart::DEFAULT_COUNT - i,
    {
        lines.push(draw_default(i, theme));
        i = i + 1;
    }
    lines.push(paint::blank());
    lines.push(draw_choice(" to create, ", "/Esc to skip", theme));
    assert(lines@ =~= default_lines(theme));
    DialogPainting { area, inner, lines }
}

} // verus!
