//! The bank connections screen.

use vstd::prelude::*;

use crate::input::KeyCode;
use crate::money;
use crate::selection;
use crate::text;
use crate::tui::paint;
use crate::tui::paint::{Line, LineView, Listing, Page, Row, RowView};
use crate::tui::theme;
use crate::tui::theme::{Color, Style, Theme};

verus! {

/// A connected bank.
pub struct PlaidItemDisplay {
    pub id: String,
    pub institution_name: String,
    pub status: String,
    pub last_synced_at: Option<String>,
    pub accounts: Vec<PlaidAccountDisplay>,
}

/// An account at a bank.
pub struct PlaidAccountDisplay {
    pub plaid_account_id: String,
    pub name: String,
    pub account_type: String,
    pub mask: Option<String>,
    /// The account of the books it is linked to.
    pub local_account_name: Option<String>,
    pub plaid_balance_cents: Option<i64>,
    pub ledger_balance_cents: Option<i64>,
}

/// What the program is to do for the screen.
pub enum PlaidAction {
    Nothing,
    Configure,
    Connect,
    Sync(String),
    SyncAll,
    Disconnect(String),
    ReviewStaged,
}

/// The meaning of what the program is to do.
#[verifier::ext_equal]
pub ghost enum PlaidWish {
    Nothing,
    Configure,
    Connect,
    Sync(Seq<char>),
    SyncAll,
    Disconnect(Seq<char>),
    ReviewStaged,
}

impl View for PlaidAction {
    type V = PlaidWish;

    open spec fn view(&self) -> PlaidWish {
        match self {
            PlaidAction::Nothing => PlaidWish::Nothing,
            PlaidAction::Configure => PlaidWish::Configure,
            PlaidAction::Connect => PlaidWish::Connect,
            PlaidAction::Sync(id) => PlaidWish::Sync(id@),
            PlaidAction::SyncAll => PlaidWish::SyncAll,
            PlaidAction::Disconnect(id) => PlaidWish::Disconnect(id@),
            PlaidAction::ReviewStaged => PlaidWish::ReviewStaged,
        }
    }
}

/// The bank connections screen.
pub struct PlaidView {
    pub items: Vec<PlaidItemDisplay>,
    pub selected: usize,
    pub status_message: Option<String>,
    pub staged_count: usize,
    pub transfer_count: usize,
}

/// The meaning of the bank connections screen.
#[verifier::ext_equal]
pub ghost struct PlaidState {
    pub items: Seq<PlaidItemDisplay>,
    pub selected: usize,
    pub status: Option<Seq<char>>,
    pub staged_count: nat,
    pub transfer_count: nat,
}

impl PlaidState {
    /// Other connections, and how much is staged.
    pub open spec fn loaded(
        self,
        items: Seq<PlaidItemDisplay>,
        counts: Option<(usize, usize)>,
    ) -> PlaidState {
        PlaidState {
            items,
            selected: selection::kept_within(self.selected, items.len()),
            staged_count: match counts {
                Some((staged, _)) => staged as nat,
                None => self.staged_count,
            },
            transfer_count: match counts {
                Some((_, transfers)) => transfers as nat,
                None => self.transfer_count,
            },
            ..self
        }
    }

    /// The state of a new screen.
    pub open spec fn fresh() -> PlaidState {
        PlaidState {
            items: Seq::empty(),
            selected: 0,
            status: None,
            staged_count: 0,
            transfer_count: 0,
        }
    }
}

impl View for PlaidView {
    type V = PlaidState;

    open spec fn view(&self) -> PlaidState {
        PlaidState {
            items: self.items@,
            selected: self.selected,
            status: text::opt_text(self.status_message),
            staged_count: self.staged_count as nat,
            transfer_count: self.transfer_count as nat,
        }
    }
}

impl PlaidState {
    /// The identifier of the highlighted bank.
    pub open spec fn current(self) -> Option<Seq<char>> {
        if self.selected < self.items.len() {
            Some(self.items[self.selected as int].id@)
        } else {
            None
        }
    }

    pub open spec fn after_key(self, key: KeyCode) -> (PlaidState, PlaidWish) {
        match key {
            KeyCode::Char('r') => (self, PlaidWish::ReviewStaged),
            KeyCode::Char('C') => (self, PlaidWish::Configure),
            KeyCode::Char('c') => (self, PlaidWish::Connect),
            KeyCode::Char('s') => (
                self,
                match self.current() {
                    Some(id) => PlaidWish::Sync(id),
                    None => PlaidWish::Nothing,
                },
            ),
            KeyCode::Char('S') => (self, PlaidWish::SyncAll),
            KeyCode::Char('d') => (
                self,
                match self.current() {
                    Some(id) => PlaidWish::Disconnect(id),
                    None => PlaidWish::Nothing,
                },
            ),
            KeyCode::Char('j') | KeyCode::Down => (
                PlaidState {
                    selected: selection::down_to_last(self.selected, self.items.len()),
                    ..self
                },
                PlaidWish::Nothing,
            ),
            KeyCode::Char('k') | KeyCode::Up => (
                PlaidState { selected: selection::up_to_first(self.selected), ..self },
                PlaidWish::Nothing,
            ),
            _ => (self, PlaidWish::Nothing),
        }
    }
}

/// The difference between what the bank and what the books say.
pub open spec fn balance_note(a: PlaidAccountDisplay) -> Seq<char> {
    match (a.plaid_balance_cents, a.ledger_balance_cents) {
        (Some(plaid), Some(ledger)) => off_by(money::wrap64(plaid - ledger)),
        _ => Seq::empty(),
    }
}

/// A difference in words. The least 64-bit number has no absolute value and
/// keeps its signs.
pub open spec fn off_by(diff: int) -> Seq<char> {
    if diff == 0 {
        " [balanced]"@
    } else if diff == i64::MIN {
        " [off by -$-92233720368547758.-8]"@
    } else {
        " [off by "@ + (if diff > 0 {
            "+"@
        } else {
            "-"@
        }) + "$"@ + money::dollars(text::magnitude(diff)) + "]"@
    }
}

/// An account whose balance is known to the bank and in the books is said to be
/// balanced exactly if both agree. Else it is off: upwards if the bank has more,
/// downwards if it has less, by the difference.
pub proof fn differences_point_to_the_bank(a: PlaidAccountDisplay, bank: i64, books: i64)
    requires
        a.plaid_balance_cents == Some(bank),
        a.ledger_balance_cents == Some(books),
        i64::MIN < bank - books <= i64::MAX,
    ensures
        bank == books ==> balance_note(a) == " [balanced]"@,
        bank > books ==> balance_note(a) == " [off by "@ + "+"@ + "$"@ + money::dollars(
            (bank - books) as nat,
        ) + "]"@,
        bank < books ==> balance_note(a) == " [off by "@ + "-"@ + "$"@ + money::dollars(
            (books - bank) as nat,
        ) + "]"@,
{
}

fn write_off_by(diff: i64) -> (r: String)
    ensures
        r@ == off_by(diff as int),
{
    if diff == 0 {
        text::owned(" [balanced]")
    } else if diff == i64::MIN {
        text::owned(" [off by -$-92233720368547758.-8]")
    } else {
        let amount = money::dollar_text(text::abs_of(diff));
        text::cat5(
            " [off by ",
            if diff > 0 {
                "+"
            } else {
                "-"
            },
            "$",
            amount.as_str(),
            "]",
        )
    }
}

/// A bank account in a few words.
pub open spec fn account_note(a: PlaidAccountDisplay) -> Seq<char> {
    a.name@ + "("@ + text::text_or(a.mask, ""@) + ")"@ + (if a.local_account_name is Some {
        ""@
    } else {
        " [unmapped]"@
    }) + balance_note(a)
}

fn write_account(a: &PlaidAccountDisplay) -> (r: String)
    ensures
        r@ == account_note(*a),
{
    let mask = text::or_text(&a.mask, "");
    let note = match (a.plaid_balance_cents, a.ledger_balance_cents) {
        (Some(plaid), Some(ledger)) => write_off_by(money::minus(plaid, ledger)),
        _ => String::new(),
    };
    let mut out = text::cat5(
        a.name.as_str(),
        "(",
        mask.as_str(),
        ")",
        if a.local_account_name.is_some() {
            ""
        } else {
            " [unmapped]"
        },
    );
    out.append(note.as_str());
    out
}

/// The accounts of a bank in a few words.
pub open spec fn accounts_note(v: Seq<PlaidAccountDisplay>) -> Seq<char> {
    text::joined(v.map_values(|a: PlaidAccountDisplay| account_note(a)), ", "@)
}

fn write_accounts(v: &Vec<PlaidAccountDisplay>) -> (r: String)
    ensures
        r@ == accounts_note(v@),
{
    let mut notes: Vec<String> = Vec::new();
    let ghost f = |a: PlaidAccountDisplay| account_note(a);
    let mut i: usize = 0;
    while i < v.len()
        invariant
            i <= v@.len(),
            f == (|a: PlaidAccountDisplay| account_note(a)),
            text::texts(notes@) =~= v@.take(i as int).map_values(f),
        decreases v@.len() - i,
    {
        let ghost before = text::texts(notes@);
        notes.push(write_account(&v[i]));
        assert(text::texts(notes@) =~= before.push(f(v@[i as int])));
        i = i + 1;
    }
    assert(v@.take(i as int) =~= v@);
    text::join(&notes, ", ")
}

pub open spec fn status_color(status: Seq<char>, theme: &Theme) -> Color {
    if status == "active"@ {
        theme.success
    } else if status == "disconnected"@ || status == "revoked"@ {
        theme.error
    } else {
        theme.fg_dim
    }
}

pub open spec fn item_row(item: PlaidItemDisplay, selected: bool, theme: &Theme) -> RowView {
    RowView {
        cells: seq![
            paint::raw_view(item.institution_name@),
            (item.status@, theme::colored(status_color(item.status@, theme))),
            paint::raw_view(accounts_note(item.accounts@)),
            paint::raw_view(text::text_or(item.last_synced_at, "Never"@)),
        ],
        style: if selected {
            theme.selected_style()
        } else {
            Style::plain()
        },
    }
}

fn draw_item(item: &PlaidItemDisplay, selected: bool, theme: &Theme) -> (r: Row)
    ensures
        r@ == item_row(*item, selected, theme),
{
    let status = item.status.as_str();
    let color = if text::same_text(status, "active") {
        theme.success
    } else if text::same_text(status, "disconnected") || text::same_text(status, "revoked") {
        theme.error
    } else {
        theme.fg_dim
    };
    let cells = paint::list4(
        paint::raw(item.institution_name.as_str()),
        paint::styled(status, theme::colored(color)),
        paint::raw_owned(write_accounts(&item.accounts)),
        paint::raw_owned(text::or_text(&item.last_synced_at, "Never")),
    );
    paint::row(
        cells,
        if selected {
            theme.selected_style()
        } else {
            Style::plain()
        },
    )
}

/// What is shown without a connected bank.
pub open spec fn empty_lines(configured: bool, theme: &Theme) -> Seq<LineView> {
    seq![
        paint::blank_view(),
        seq![("No banks connected via Plaid."@, theme::colored(theme.fg_dim))],
        paint::blank_view(),
        if configured {
            seq![("Plaid is configured."@, theme::colored(theme.success))]
        } else {
            seq![
                ("Plaid is not configured. "@, theme::colored(theme.error)),
                paint::raw_view("Press "@),
                ("C"@, theme::colored(theme.header)),
                paint::raw_view(" to set up proxy URL and API key."@),
            ]
        },
        paint::blank_view(),
        seq![
            paint::raw_view("Press "@),
            ("c"@, theme::colored(theme.header)),
            paint::raw_view(" to connect a bank account."@),
        ],
    ]
}

/// The screen as it is drawn: a message if no bank is connected.
pub enum PlaidPainting {
    Empty { title: String, lines: Page },
    Table { title: String, rows: Listing<Row>, status: Option<Line> },
}

impl PlaidView {
    pub fn new() -> (r: Self)
        ensures
            r@ == PlaidState::fresh(),
    {
        PlaidView {
            items: Vec::new(),
            selected: 0,
            status_message: None,
            staged_count: 0,
            transfer_count: 0,
        }
    }

    pub fn set_items(&mut self, items: Vec<PlaidItemDisplay>)
        ensures
            final(self)@ == (PlaidState {
                items: items@,
                selected: selection::kept_within(old(self).selected, items@.len()),
                ..old(self)@
            }),
    {
        self.items = items;
        self.selected = selection::keep_within(self.selected, self.items.len());
    }

    /// Shows other connections and, if they are known, how many transactions
    /// and how many transfers are staged.
    pub fn load(&mut self, items: Vec<PlaidItemDisplay>, counts: Option<(usize, usize)>)
        ensures
            final(self)@ == old(self)@.loaded(items@, counts),
    {
        self.set_items(items);
        if let Some((staged, transfers)) = counts {
            self.staged_count = staged;
            self.transfer_count = transfers;
        }
    }

    pub fn handle_key(&mut self, key: KeyCode) -> (r: PlaidAction)
        ensures
            (final(self)@, r@) == old(self)@.after_key(key),
    {
        match key {
            KeyCode::Char('r') => PlaidAction::ReviewStaged,
            KeyCode::Char('C') => PlaidAction::Configure,
            KeyCode::Char('c') => PlaidAction::Connect,
            KeyCode::Char('s') => {
                if self.selected < self.items.len() {
                    PlaidAction::Sync(self.items[self.selected].id.clone())
                } else {
                    PlaidAction::Nothing
                }
            },
            KeyCode::Char('S') => PlaidAction::SyncAll,
            KeyCode::Char('d') => {
                if self.selected < self.items.len() {
                    PlaidAction::Disconnect(self.items[self.selected].id.clone())
                } else {
                    PlaidAction::Nothing
                }
            },
            KeyCode::Char('j') | KeyCode::Down => {
                self.selected = selection::move_down(self.selected, self.items.len());
                PlaidAction::Nothing
            },
            KeyCode::Char('k') | KeyCode::Up => {
                self.selected = selection::move_up(self.selected);
                PlaidAction::Nothing
            },
            _ => PlaidAction::Nothing,
        }
    }

    fn write_title(&self) -> (r: String)
        ensures
            r@ == self@.title(),
    {
        let n = text::count(self.staged_count);
        text::cat3(
            " Plaid Bank Connections (C: config, c: connect, s: sync, S: sync all, r: review staged [",
            n.as_str(),
            "], d: disconnect) ",
        )
    }

    /// Draws the screen.
    pub fn render(&self, configured: bool, theme: &Theme) -> (r: PlaidPainting)
        ensures
            self.items@.len() == 0 ==> (r matches PlaidPainting::Empty { title, lines } && title@
                == self@.title() && lines@ == empty_lines(configured, theme)),
            self.items@.len() > 0 ==> (r matches PlaidPainting::Table { title, rows, status } && {
                &&& title@ == self@.title()
                &&& rows@ == Seq::new(
                    self.items@.len(),
                    |i: int| item_row(self.items@[i], i == self.selected, theme),
                )
                &&& match status {
                    Some(line) => self@.status is Some && line@ == seq![
                        (self@.status->0, theme::colored(theme.header)),
                    ],
                    None => self@.status is None,
                }
            }),
    {
        let title = self.write_title();
        if self.items.len() == 0 {
            let state = if configured {
                paint::styled_line("Plaid is configured.", theme::colored(theme.success))
            } else {
                paint::list4(
                    paint::styled("Plaid is not configured. ", theme::colored(theme.error)),
                    paint::raw("Press "),
                    paint::styled("C", theme::colored(theme.header)),
                    paint::raw(" to set up proxy URL and API key."),
                )
            };
            let mut lines: Page = Listing::new();
            lines.push(paint::blank());
            lines.push(
                paint::styled_line("No banks connected via Plaid.", theme::colored(theme.fg_dim)),
            );
            lines.push(paint::blank());
            lines.push(state);
            lines.push(paint::blank());
            lines.push(
                paint::list3(
                    paint::raw("Press "),
                    paint::styled("c", theme::colored(theme.header)),
                    paint::raw(" to connect a bank account."),
                ),
            );
            assert(lines@ =~= empty_lines(configured, theme));
            return PlaidPainting::Empty { title, lines };
        }
        let mut rows: Listing<Row> = Listing::new();
        let mut i: usize = 0;
        while i < self.items.len()
            invariant
                i <= self.items@.len(),
                rows@ =~= Seq::new(
                    i as nat,
                    |i: int| item_row(self.items@[i], i == self.selected, theme),
                ),
            decreases self.items@.len() - i,
        {
            rows.push(draw_item(&self.items[i], i == self.selected, theme));
            i = i + 1;
        }
        let status = match &self.status_message {
            Some(m) => Some(paint::styled_line(m.as_str(), theme::colored(theme.header))),
            None => None,
        };
        PlaidPainting::Table { title, rows, status }
    }
}

impl PlaidState {
    pub open spec fn title(self) -> Seq<char> {
        " Plaid Bank Connections (C: config, c: connect, s: sync, S: sync all, r: review staged ["@
            + text::decimal(self.staged_count) + "], d: disconnect) "@
    }
}

impl Default for PlaidView {
    fn default() -> (r: Self)
        ensures
            r@ == PlaidState::fresh(),
    {
        Self::new()
    }
}

} // verus!
