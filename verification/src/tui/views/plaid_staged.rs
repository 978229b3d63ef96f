//! Bank transactions that wait to be imported, and pairs of them that look
//! like transfers.

use vstd::prelude::*;

use crate::input::KeyCode;
use crate::money;
use crate::selection;
use crate::text;
use crate::tui::paint;
use crate::tui::paint::{Line, LineView, Listing, Row, RowView};
use crate::tui::theme;
use crate::tui::theme::{Color, Style, Theme};
use crate::tui::widgets;

verus! {

/// Which of the two lists is used.
#[derive(Debug, Clone, Copy, PartialEq, Eq, Structural)]
pub enum StagedSection {
    Transfers,
    Unmatched,
}

/// How sure it is that two transactions are one transfer.
#[derive(Debug, Clone, Copy, PartialEq, Eq, Structural)]
pub enum ConfidenceLevel {
    High,
    Medium,
    Low,
}

/// Two transactions that look like a transfer.
pub struct TransferCandidateDisplay {
    pub candidate_id: String,
    pub txn1_name: String,
    pub txn1_account: String,
    pub txn1_date: String,
    pub txn1_amount_cents: i64,
    pub txn2_name: String,
    pub txn2_account: String,
    pub txn2_date: String,
    pub txn2_amount_cents: i64,
    /// The confidence as a percentage, as it is written.
    pub confidence: String,
    pub confidence_level: ConfidenceLevel,
}

/// A transaction that waits to be imported.
pub struct StagedTransactionDisplay {
    pub id: String,
    pub date: String,
    pub name: String,
    pub account_name: String,
    pub amount_cents: i64,
    pub card_holder: Option<String>,
}

/// What the program is to do for the screen.
pub enum StagedAction {
    Nothing,
    ConfirmTransfer(String),
    RejectTransfer(String),
    ConfirmAllTransfers,
    ImportUnmatched(String),
    ImportAll,
    ImportAllSkipBalanceCheck,
    Back,
}

/// The meaning of what the program is to do.
#[verifier::ext_equal]
pub ghost enum StagedWish {
    Nothing,
    ConfirmTransfer(Seq<char>),
    RejectTransfer(Seq<char>),
    ConfirmAllTransfers,
    ImportUnmatched(Seq<char>),
    ImportAll,
    ImportAllSkipBalanceCheck,
    Back,
}

impl View for StagedAction {
    type V = StagedWish;

    open spec fn view(&self) -> StagedWish {
        match self {
            StagedAction::Nothing => StagedWish::Nothing,
            StagedAction::ConfirmTransfer(id) => StagedWish::ConfirmTransfer(id@),
            StagedAction::RejectTransfer(id) => StagedWish::RejectTransfer(id@),
            StagedAction::ConfirmAllTransfers => StagedWish::ConfirmAllTransfers,
            StagedAction::ImportUnmatched(id) => StagedWish::ImportUnmatched(id@),
            StagedAction::ImportAll => StagedWish::ImportAll,
            StagedAction::ImportAllSkipBalanceCheck => StagedWish::ImportAllSkipBalanceCheck,
            StagedAction::Back => StagedWish::Back,
        }
    }
}

/// The staged transactions screen.
pub struct PlaidStagedView {
    pub transfer_candidates: Vec<TransferCandidateDisplay>,
    pub unmatched: Vec<StagedTransactionDisplay>,
    pub section: StagedSection,
    pub transfer_index: usize,
    pub unmatched_index: usize,
    pub visible: bool,
    pub status_message: Option<String>,
    pub transfer_scroll: usize,
    pub unmatched_scroll: usize,
}

/// The meaning of the staged transactions screen.
#[verifier::ext_equal]
pub ghost struct StagedState {
    pub transfers: Seq<TransferCandidateDisplay>,
    pub unmatched: Seq<StagedTransactionDisplay>,
    pub section: StagedSection,
    pub transfer_index: usize,
    pub unmatched_index: usize,
    pub visible: bool,
    pub status: Option<Seq<char>>,
    pub transfer_scroll: usize,
    pub unmatched_scroll: usize,
}

impl StagedState {
    /// The state of a new screen.
    pub open spec fn fresh() -> StagedState {
        StagedState {
            transfers: Seq::empty(),
            unmatched: Seq::empty(),
            section: StagedSection::Transfers,
            transfer_index: 0,
            unmatched_index: 0,
            visible: false,
            status: None,
            transfer_scroll: 0,
            unmatched_scroll: 0,
        }
    }
}

impl View for PlaidStagedView {
    type V = StagedState;

    open spec fn view(&self) -> StagedState {
        StagedState {
            transfers: self.transfer_candidates@,
            unmatched: self.unmatched@,
            section: self.section,
            transfer_index: self.transfer_index,
            unmatched_index: self.unmatched_index,
            visible: self.visible,
            status: text::opt_text(self.status_message),
            transfer_scroll: self.transfer_scroll,
            unmatched_scroll: self.unmatched_scroll,
        }
    }
}

impl StagedState {
    pub open spec fn opened(self) -> StagedState {
        StagedState {
            visible: true,
            section: StagedSection::Transfers,
            transfer_index: 0,
            unmatched_index: 0,
            transfer_scroll: 0,
            unmatched_scroll: 0,
            ..self
        }
    }

    /// The highlighted transfer.
    pub open spec fn transfer(self) -> Option<TransferCandidateDisplay> {
        if self.transfer_index < self.transfers.len() {
            Some(self.transfers[self.transfer_index as int])
        } else {
            None
        }
    }

    /// The highlighted transaction.
    pub open spec fn transaction(self) -> Option<StagedTransactionDisplay> {
        if self.unmatched_index < self.unmatched.len() {
            Some(self.unmatched[self.unmatched_index as int])
        } else {
            None
        }
    }

    pub open spec fn moved_down(self) -> StagedState {
        match self.section {
            StagedSection::Transfers => StagedState {
                transfer_index: selection::down_to_last(
                    self.transfer_index,
                    self.transfers.len(),
                ),
                ..self
            },
            StagedSection::Unmatched => StagedState {
                unmatched_index: selection::down_to_last(
                    self.unmatched_index,
                    self.unmatched.len(),
                ),
                ..self
            },
        }
    }

    pub open spec fn moved_up(self) -> StagedState {
        match self.section {
            StagedSection::Transfers => StagedState {
                transfer_index: selection::up_to_first(self.transfer_index),
                ..self
            },
            StagedSection::Unmatched => StagedState {
                unmatched_index: selection::up_to_first(self.unmatched_index),
                ..self
            },
        }
    }

    pub open spec fn accepted(self) -> StagedWish {
        match self.section {
            StagedSection::Transfers => match self.transfer() {
                Some(c) => StagedWish::ConfirmTransfer(c.candidate_id@),
                None => StagedWish::Nothing,
            },
            StagedSection::Unmatched => match self.transaction() {
                Some(t) => StagedWish::ImportUnmatched(t.id@),
                None => StagedWish::Nothing,
            },
        }
    }

    pub open spec fn after_key(self, key: KeyCode) -> (StagedState, StagedWish) {
        match key {
            KeyCode::Esc | KeyCode::Char('q') => (self, StagedWish::Back),
            KeyCode::Tab => (
                StagedState {
                    section: match self.section {
                        StagedSection::Transfers => StagedSection::Unmatched,
                        StagedSection::Unmatched => StagedSection::Transfers,
                    },
                    ..self
                },
                StagedWish::Nothing,
            ),
            KeyCode::Char('j') | KeyCode::Down => (self.moved_down(), StagedWish::Nothing),
            KeyCode::Char('k') | KeyCode::Up => (self.moved_up(), StagedWish::Nothing),
            KeyCode::Enter | KeyCode::Char('y') => (self, self.accepted()),
            KeyCode::Char('n') => (
                self,
                if self.section == StagedSection::Transfers && self.transfer() is Some {
                    StagedWish::RejectTransfer(self.transfer()->0.candidate_id@)
                } else {
                    StagedWish::Nothing
                },
            ),
            KeyCode::Char('A') => (self, StagedWish::ConfirmAllTransfers),
            KeyCode::Char('I') => (self, StagedWish::ImportAll),
            _ => (self, StagedWish::Nothing),
        }
    }
}

/// The keys never ask to import without checking balances: only the program
/// does, after it asked.
pub proof fn keys_always_check_balances(s: StagedState, key: KeyCode)
    ensures
        !(s.after_key(key).1 is ImportAllSkipBalanceCheck),
{
}

impl PlaidStagedView {
    pub fn new() -> (r: Self)
        ensures
            r@ == StagedState::fresh(),
    {
        PlaidStagedView {
            transfer_candidates: Vec::new(),
            unmatched: Vec::new(),
            section: StagedSection::Transfers,
            transfer_index: 0,
            unmatched_index: 0,
            visible: false,
            status_message: None,
            transfer_scroll: 0,
            unmatched_scroll: 0,
        }
    }

    pub fn show(&mut self)
        ensures
            final(self)@ == old(self)@.opened(),
    {
        self.visible = true;
        self.section = StagedSection::Transfers;
        self.transfer_index = 0;
        self.unmatched_index = 0;
        self.transfer_scroll = 0;
        self.unmatched_scroll = 0;
    }

    /// Closes the screen.
    pub fn close(&mut self)
        ensures
            final(self)@ == (StagedState { visible: false, ..old(self)@ }),
    {
        self.visible = false;
    }

    pub fn total_pending(&self) -> (r: usize)
        requires
            self.transfer_candidates@.len() + self.unmatched@.len() <= usize::MAX,
        ensures
            r == self.transfer_candidates@.len() + self.unmatched@.len(),
    {
        self.transfer_candidates.len() + self.unmatched.len()
    }

    pub fn handle_key(&mut self, key: KeyCode) -> (r: StagedAction)
        ensures
            (final(self)@, r@) == old(self)@.after_key(key),
    {
        match key {
            KeyCode::Esc | KeyCode::Char('q') => StagedAction::Back,
            KeyCode::Tab => {
                self.section = match self.section {
                    StagedSection::Transfers => StagedSection::Unmatched,
                    StagedSection::Unmatched => StagedSection::Transfers,
                };
                StagedAction::Nothing
            },
            KeyCode::Char('j') | KeyCode::Down => {
                match self.section {
                    StagedSection::Transfers => {
                        self.transfer_index = selection::move_down(
                            self.transfer_index,
                            self.transfer_candidates.len(),
                        );
                    },
                    StagedSection::Unmatched => {
                        self.unmatched_index = selection::move_down(
                            self.unmatched_index,
                            self.unmatched.len(),
                        );
                    },
                }
                StagedAction::Nothing
            },
            KeyCode::Char('k') | KeyCode::Up => {
                match self.section {
                    StagedSection::Transfers => {
                        self.transfer_index = selection::move_up(self.transfer_index);
                    },
                    StagedSection::Unmatched => {
                        self.unmatched_index = selection::move_up(self.unmatched_index);
                    },
                }
                StagedAction::Nothing
            },
            KeyCode::Enter | KeyCode::Char('y') => self.accept(),
            KeyCode::Char('n') => {
                if self.section == StagedSection::Transfers && self.transfer_index
                    < self.transfer_candidates.len() {
                    StagedAction::RejectTransfer(
                        self.transfer_candidates[self.transfer_index].candidate_id.clone(),
                    )
                } else {
                    StagedAction::Nothing
                }
            },
            KeyCode::Char('A') => StagedAction::ConfirmAllTransfers,
            KeyCode::Char('I') => StagedAction::ImportAll,
            _ => StagedAction::Nothing,
        }
    }

    fn accept(&self) -> (r: StagedAction)
        ensures
            r@ == self@.accepted(),
    {
        match self.section {
            StagedSection::Transfers => if self.transfer_index < self.transfer_candidates.len() {
                StagedAction::ConfirmTransfer(
                    self.transfer_candidates[self.transfer_index].candidate_id.clone(),
                )
            } else {
                StagedAction::Nothing
            },
            StagedSection::Unmatched => if self.unmatched_index < self.unmatched.len() {
                StagedAction::ImportUnmatched(self.unmatched[self.unmatched_index].id.clone())
            } else {
                StagedAction::Nothing
            },
        }
    }
}

impl Default for PlaidStagedView {
    fn default() -> (r: Self)
        ensures
            r@ == StagedState::fresh(),
    {
        Self::new()
    }
}

// ---- drawing ----

/// Cents without a currency sign, negative amounts in parentheses.
pub open spec fn amount_text(cents: int) -> Seq<char> {
    if cents < 0 {
        "("@ + money::dollars(text::magnitude(cents)) + ")"@
    } else {
        money::dollars(text::magnitude(cents))
    }
}

pub fn format_amount(cents: i64) -> (r: String)
    ensures
        r@ == amount_text(cents as int),
{
    let amount = money::dollar_text(text::abs_of(cents));
    if cents < 0 {
        text::cat3("(", amount.as_str(), ")")
    } else {
        amount
    }
}

/// The absolute value in 64 bits.
pub open spec fn absolute(n: int) -> int {
    if n < 0 {
        money::wrap64(-n)
    } else {
        n
    }
}

fn absolute_of(n: i64) -> (r: i64)
    ensures
        r == absolute(n as int),
{
    if n < 0 {
        money::negated(n)
    } else {
        n
    }
}

/// The colour of a confidence.
pub open spec fn level_color(level: ConfidenceLevel, theme: &Theme) -> Color {
    match level {
        ConfidenceLevel::High => theme.success,
        ConfidenceLevel::Medium => theme.header,
        ConfidenceLevel::Low => theme.error,
    }
}

pub open spec fn chosen_style(chosen: bool, theme: &Theme) -> Style {
    if chosen {
        theme.selected_style()
    } else {
        Style::plain()
    }
}

/// A transfer in a row: money goes from the account with the negative amount.
pub open spec fn transfer_row(c: TransferCandidateDisplay, chosen: bool, theme: &Theme) -> RowView {
    let first = c.txn1_amount_cents < 0;
    RowView {
        cells: seq![
            paint::raw_view(
                if first {
                    c.txn1_account@
                } else {
                    c.txn2_account@
                },
            ),
            paint::raw_view(
                if first {
                    c.txn2_account@
                } else {
                    c.txn1_account@
                },
            ),
            paint::raw_view(
                amount_text(
                    absolute(
                        if first {
                            c.txn1_amount_cents as int
                        } else {
                            c.txn2_amount_cents as int
                        },
                    ),
                ),
            ),
            paint::raw_view(
                if first {
                    c.txn1_date@
                } else {
                    c.txn2_date@
                },
            ),
            paint::raw_view(
                if first {
                    c.txn2_date@
                } else {
                    c.txn1_date@
                },
            ),
            (c.confidence@, theme::colored(level_color(c.confidence_level, theme))),
        ],
        style: chosen_style(chosen, theme),
    }
}

/// A transfer goes from the account that money left to the one that it came to,
/// with the day on which it left before the day on which it came, and the amount
/// without its sign.
pub proof fn transfers_go_from_payer_to_receiver(
    c: TransferCandidateDisplay,
    chosen: bool,
    theme: &Theme,
)
    ensures
        ({
            let cells = transfer_row(c, chosen, theme).cells;
            &&& cells.len() == 6
            &&& i64::MIN < c.txn1_amount_cents < 0 ==> {
                &&& cells[0].0 == c.txn1_account@
                &&& cells[1].0 == c.txn2_account@
                &&& cells[2].0 == money::dollars((-c.txn1_amount_cents) as nat)
                &&& cells[3].0 == c.txn1_date@
                &&& cells[4].0 == c.txn2_date@
            }
            &&& c.txn1_amount_cents >= 0 && i64::MIN < c.txn2_amount_cents < 0 ==> {
                &&& cells[0].0 == c.txn2_account@
                &&& cells[1].0 == c.txn1_account@
                &&& cells[2].0 == money::dollars((-c.txn2_amount_cents) as nat)
                &&& cells[3].0 == c.txn2_date@
                &&& cells[4].0 == c.txn1_date@
            }
            &&& cells[5].0 == c.confidence@
        }),
{
}

/// It does not matter in which order the two transactions of a transfer are
/// given, as long as one of them takes money and the other one brings it.
pub proof fn transfers_have_no_order(
    c: TransferCandidateDisplay,
    d: TransferCandidateDisplay,
    chosen: bool,
    theme: &Theme,
)
    requires
        c.txn1_amount_cents < 0 <= c.txn2_amount_cents,
        d.txn1_account == c.txn2_account && d.txn2_account == c.txn1_account,
        d.txn1_date == c.txn2_date && d.txn2_date == c.txn1_date,
        d.txn1_amount_cents == c.txn2_amount_cents && d.txn2_amount_cents == c.txn1_amount_cents,
        d.confidence == c.confidence && d.confidence_level == c.confidence_level,
    ensures
        transfer_row(d, chosen, theme) == transfer_row(c, chosen, theme),
{
}

fn draw_transfer(c: &TransferCandidateDisplay, chosen: bool, theme: &Theme) -> (r: Row)
    ensures
        r@ == transfer_row(*c, chosen, theme),
{
    let first: bool = c.txn1_amount_cents < 0;
    let color = match c.confidence_level {
        ConfidenceLevel::High => theme.success,
        ConfidenceLevel::Medium => theme.header,
        ConfidenceLevel::Low => theme.error,
    };
    let (from, to, from_date, to_date) = if first {
        (&c.txn1_account, &c.txn2_account, &c.txn1_date, &c.txn2_date)
    } else {
        (&c.txn2_account, &c.txn1_account, &c.txn2_date, &c.txn1_date)
    };
    let amount: i64 = if first {
        c.txn1_amount_cents
    } else {
        c.txn2_amount_cents
    };
    let mut line: Line = Listing::new();
    paint::push_str(&mut line, from.as_str());
    paint::push_str(&mut line, to.as_str());
    paint::push_text(&mut line, format_amount(absolute_of(amount)));
    paint::push_str(&mut line, from_date.as_str());
    paint::push_str(&mut line, to_date.as_str());
    line.push(paint::styled(c.confidence.as_str(), theme::colored(color)));
    assert(line@ =~= transfer_row(*c, chosen, theme).cells);
    paint::row(
        line,
        if chosen {
            theme.selected_style()
        } else {
            Style::plain()
        },
    )
}

/// A transaction in a row, with a column for the card holder if any
/// transaction has one.
pub open spec fn transaction_row(
    t: StagedTransactionDisplay,
    chosen: bool,
    cards: bool,
    theme: &Theme,
) -> RowView {
    let left: LineView = seq![
        paint::raw_view(t.date@),
        paint::raw_view(widgets::truncated(t.name@, 35)),
        paint::raw_view(t.account_name@),
    ];
    let card: LineView = if cards {
        seq![(text::text_or(t.card_holder, ""@), theme::colored(theme.fg_dim))]
    } else {
        Seq::empty()
    };
    RowView {
        cells: left + card + seq![
            (
                amount_text(t.amount_cents as int),
                theme::colored(
                    if t.amount_cents < 0 {
                        theme.success
                    } else {
                        theme.error
                    },
                ),
            ),
        ],
        style: chosen_style(chosen, theme),
    }
}

fn draw_transaction(t: &StagedTransactionDisplay, chosen: bool, cards: bool, theme: &Theme) -> (r:
    Row)
    requires
        widgets::can_truncate(t.name@, 35),
    ensures
        r@ == transaction_row(*t, chosen, cards, theme),
{
    let mut line: Line = Listing::new();
    paint::push_str(&mut line, t.date.as_str());
    paint::push_text(&mut line, widgets::truncate(t.name.as_str(), 35));
    paint::push_str(&mut line, t.account_name.as_str());
    if cards {
        line.push(
            paint::styled_owned(text::or_text(&t.card_holder, ""), theme::colored(theme.fg_dim)),
        );
    }
    let color = if t.amount_cents < 0 {
        theme.success
    } else {
        theme.error
    };
    line.push(paint::styled_owned(format_amount(t.amount_cents), theme::colored(color)));
    assert(line@ =~= transaction_row(*t, chosen, cards, theme).cells);
    paint::row(
        line,
        if chosen {
            theme.selected_style()
        } else {
            Style::plain()
        },
    )
}

/// The table rows that fit on an area of the given height.
pub open spec fn visible_rows(height: u16) -> nat {
    if height >= 3 {
        (height - 3) as nat
    } else {
        0
    }
}

/// How many of `n` rows are shown from `first` on.
pub open spec fn shown_count(n: nat, first: nat, visible: nat) -> nat {
    if first >= n {
        0
    } else if n - first < visible {
        (n - first) as nat
    } else {
        visible
    }
}

fn count_shown(n: usize, first: usize, visible: usize) -> (r: usize)
    ensures
        r == shown_count(n as nat, first as nat, visible as nat),
        r > 0 ==> first + r <= n,
{
    if first >= n {
        0
    } else if n - first < visible {
        n - first
    } else {
        visible
    }
}

impl StagedState {
    /// The scroll positions after the screen was drawn on areas of the given
    /// heights.
    pub open spec fn drawn(self, transfer_height: u16, unmatched_height: u16) -> StagedState {
        StagedState {
            transfer_scroll: if self.transfers.len() == 0 {
                self.transfer_scroll
            } else {
                selection::scrolled(
                    self.transfer_scroll,
                    self.transfer_index,
                    visible_rows(transfer_height),
                )
            },
            unmatched_scroll: if self.unmatched.len() == 0 {
                self.unmatched_scroll
            } else {
                selection::scrolled(
                    self.unmatched_scroll,
                    self.unmatched_index,
                    visible_rows(unmatched_height),
                )
            },
            ..self
        }
    }

    pub open spec fn has_cards(self) -> bool {
        exists|i: int| 0 <= i < self.unmatched.len() && (#[trigger] self.unmatched[i]).card_holder is Some
    }

    /// The transfer rows shown after scrolling.
    pub open spec fn transfer_rows(self, height: u16, theme: &Theme) -> Seq<RowView> {
        let first = self.transfer_scroll as int;
        Seq::new(
            shown_count(self.transfers.len(), first as nat, visible_rows(height)),
            |k: int|
                transfer_row(
                    self.transfers[first + k],
                    self.section == StagedSection::Transfers && first + k == self.transfer_index,
                    theme,
                ),
        )
    }

    /// The transaction rows shown after scrolling.
    pub open spec fn transaction_rows(self, height: u16, theme: &Theme) -> Seq<RowView> {
        let first = self.unmatched_scroll as int;
        Seq::new(
            shown_count(self.unmatched.len(), first as nat, visible_rows(height)),
            |k: int|
                transaction_row(
                    self.unmatched[first + k],
                    self.section == StagedSection::Unmatched && first + k == self.unmatched_index,
                    self.has_cards(),
                    theme,
                ),
        )
    }

    /// Whether the names of the transactions that are shown can be cut.
    pub open spec fn can_draw(self, height: u16) -> bool {
        forall|i: int|
            self.unmatched_scroll <= i < self.unmatched_scroll + shown_count(
                self.unmatched.len(),
                self.unmatched_scroll as nat,
                visible_rows(height),
            ) ==> widgets::can_truncate((#[trigger] self.unmatched[i]).name@, 35)
    }

    pub open spec fn unmatched_header(self) -> Seq<Seq<char>> {
        if self.has_cards() {
            seq!["Date"@, "Name"@, "Account"@, "Card"@, "Amount"@]
        } else {
            seq!["Date"@, "Name"@, "Account"@, "Amount"@]
        }
    }
}

/// Every transaction shows its day, its name, its account, its card holder, if
/// any transaction has one, and its amount under their headings. Amounts below
/// zero stand in parentheses.
pub proof fn unmatched_columns_match_their_headings(
    s: StagedState,
    t: StagedTransactionDisplay,
    chosen: bool,
    theme: &Theme,
)
    ensures
        ({
            let headings = paint::plain_cells(s.unmatched_header());
            let row = transaction_row(t, chosen, s.has_cards(), theme);
            &&& paint::shows_under(headings, row, "Date"@, t.date@)
            &&& paint::shows_under(headings, row, "Name"@, widgets::truncated(t.name@, 35))
            &&& paint::shows_under(headings, row, "Account"@, t.account_name@)
            &&& s.has_cards() ==> (t.card_holder matches Some(h) ==> paint::shows_under(
                headings,
                row,
                "Card"@,
                h@,
            ))
            &&& t.amount_cents >= 0 ==> paint::shows_under(
                headings,
                row,
                "Amount"@,
                money::dollars(t.amount_cents as nat),
            )
            &&& t.amount_cents < 0 ==> paint::shows_under(
                headings,
                row,
                "Amount"@,
                "("@ + money::dollars((-t.amount_cents) as nat) + ")"@,
            )
        }),
{
    reveal_strlit("Date");
    reveal_strlit("Name");
    reveal_strlit("Account");
    reveal_strlit("Card");
    reveal_strlit("Amount");
    let h = paint::plain_cells(s.unmatched_header());
    let row = transaction_row(t, chosen, s.has_cards(), theme);
    assert("Date"@[0] == 'D' && "Name"@[0] == 'N' && "Card"@[0] == 'C');
    assert("Date"@.len() == 4 && "Name"@.len() == 4 && "Card"@.len() == 4);
    assert("Account"@.len() == 7 && "Amount"@.len() == 6);
    assert(h[0].0 == "Date"@ && h[1].0 == "Name"@ && h[2].0 == "Account"@);
    if s.has_cards() {
        assert(h.len() == 5 && row.cells.len() == 5);
        assert(h[3].0 == "Card"@ && h[4].0 == "Amount"@);
    } else {
        assert(h.len() == 4 && row.cells.len() == 4);
        assert(h[3].0 == "Amount"@);
    }
}

pub open spec fn help_line(theme: &Theme) -> LineView {
    let h = theme.header;
    let a = paint::hint(Seq::empty(), "Tab"@, ": switch section  "@, h);
    let b = paint::hint(a, "Enter/y"@, ": confirm  "@, h);
    let c = paint::hint(b, "n"@, ": reject  "@, h);
    let d = paint::hint(c, "A"@, ": confirm all transfers  "@, h);
    let e = paint::hint(d, "I"@, ": import all  "@, h);
    paint::hint(e, "Esc"@, ": back"@, h)
}

/// The screen as it is drawn.
pub struct PlaidStagedPainting {
    pub summary: Line,
    pub transfers_title: &'static str,
    pub transfers_border: Color,
    pub transfers_header: Line,
    pub transfers: Listing<Row>,
    /// The line in place of an empty list of transfers.
    pub no_transfers: Option<Line>,
    pub unmatched_title: &'static str,
    pub unmatched_border: Color,
    pub unmatched_header: Line,
    pub unmatched: Listing<Row>,
    /// The line in place of an empty list of transactions.
    pub no_unmatched: Option<Line>,
    pub help: Line,
    /// The line over the end of the screen.
    pub status: Option<Line>,
}

/// The title over the transfers.
pub const TRANSFERS_TITLE: &'static str =
    " Transfer Candidates (Enter: confirm, n: reject, A: confirm all) ";

/// The title over the transactions.
pub const UNMATCHED_TITLE: &'static str = " Unmatched Transactions (Enter: import, I: import all) ";

/// A line in place of an empty list.
pub open spec fn empty_line(is_empty: bool, words: Seq<char>, theme: &Theme) -> Option<LineView> {
    if is_empty {
        Some(seq![(words, theme::colored(theme.fg_dim))])
    } else {
        None
    }
}

fn draw_empty(is_empty: bool, words: &str, theme: &Theme) -> (r: Option<Line>)
    ensures
        paint::opt_line(r) == empty_line(is_empty, words@, theme),
{
    if is_empty {
        Some(paint::styled_line(words, theme::colored(theme.fg_dim)))
    } else {
        None
    }
}

/// The line in place of an empty list of transfers.
pub const NO_TRANSFERS: &'static str = "  No transfer candidates detected.";

/// The line in place of an empty list of transactions.
pub const NO_UNMATCHED: &'static str = "  No unmatched staged transactions.";

impl PlaidStagedView {
    fn any_cards(&self) -> (r: bool)
        ensures
            r == self@.has_cards(),
    {
        let mut i: usize = 0;
        while i < self.unmatched.len()
            invariant
                i <= self.unmatched@.len(),
                forall|j: int| 0 <= j < i ==> (#[trigger] self.unmatched@[j]).card_holder is None,
            decreases self.unmatched@.len() - i,
        {
            if self.unmatched[i].card_holder.is_some() {
                assert(self@.unmatched[i as int].card_holder is Some);
                return true;
            }
            i = i + 1;
        }
        false
    }

    fn draw_transfers(&self, height: u16, theme: &Theme) -> (r: Listing<Row>)
        ensures
            r@ == self@.transfer_rows(height, theme),
    {
        let first: usize = self.transfer_scroll;
        let n: usize = self.transfer_candidates.len();
        let count: usize = count_shown(n, first, height.saturating_sub(3) as usize);
        let active: bool = self.section == StagedSection::Transfers;
        let mut rows: Listing<Row> = Listing::new();
        let mut k: usize = 0;
        while k < count
            invariant
                k <= count,
                count > 0 ==> first + count <= n,
                n == self.transfer_candidates@.len(),
                first == self.transfer_scroll,
                active == (self.section == StagedSection::Transfers),
                rows@ =~= Seq::new(
                    k as nat,
                    |k: int|
                        transfer_row(
                            self@.transfers[first as int + k],
                            self@.section == StagedSection::Transfers && first as int + k
                                == self@.transfer_index,
                            theme,
                        ),
                ),
            decreases count - k,
        {
            let i: usize = first + k;
            rows.push(
                draw_transfer(
                    &self.transfer_candidates[i],
                    active && i == self.transfer_index,
                    theme,
                ),
            );
            k = k + 1;
        }
        assert(rows@ =~= self@.transfer_rows(height, theme));
        rows
    }

    fn draw_unmatched(&self, height: u16, theme: &Theme) -> (r: Listing<Row>)
        requires
            self@.can_draw(height),
        ensures
            r@ == self@.transaction_rows(height, theme),
    {
        let first: usize = self.unmatched_scroll;
        let n: usize = self.unmatched.len();
        let count: usize = count_shown(n, first, height.saturating_sub(3) as usize);
        let active: bool = self.section == StagedSection::Unmatched;
        let cards: bool = self.any_cards();
        let mut rows: Listing<Row> = Listing::new();
        let mut k: usize = 0;
        while k < count
            invariant
                k <= count,
                count > 0 ==> first + count <= n,
                n == self.unmatched@.len(),
                first == self.unmatched_scroll,
                cards == self@.has_cards(),
                active == (self.section == StagedSection::Unmatched),
                forall|i: int|
                    first <= i < first + count ==> widgets::can_truncate(
                        (#[trigger] self@.unmatched[i]).name@,
                        35,
                    ),
                rows@ =~= Seq::new(
                    k as nat,
                    |k: int|
                        transaction_row(
                            self@.unmatched[first as int + k],
                            self@.section == StagedSection::Unmatched && first as int + k
                                == self@.unmatched_index,
                            self@.has_cards(),
                            theme,
                        ),
                ),
            decreases count - k,
        {
            let i: usize = first + k;
            assert(widgets::can_truncate(self@.unmatched[i as int].name@, 35));
            rows.push(
                draw_transaction(
                    &self.unmatched[i],
                    active && i == self.unmatched_index,
                    cards,
                    theme,
                ),
            );
            k = k + 1;
        }
        assert(rows@ =~= self@.transaction_rows(height, theme));
        rows
    }

    fn draw_unmatched_header(&self) -> (r: Line)
        ensures
            r@ == paint::plain_cells(self@.unmatched_header()),
    {
        let mut line: Line = Listing::new();
        paint::push_str(&mut line, "Date");
        paint::push_str(&mut line, "Name");
        paint::push_str(&mut line, "Account");
        if self.any_cards() {
            paint::push_str(&mut line, "Card");
        }
        paint::push_str(&mut line, "Amount");
        assert(line@ =~= paint::plain_cells(self@.unmatched_header()));
        line
    }

    /// Checks that the screen can be drawn on areas of the given heights.
    pub fn is_drawable(&self, transfer_height: u16, unmatched_height: u16) -> (r: bool)
        ensures
            r == self@.drawn(transfer_height, unmatched_height).can_draw(unmatched_height),
    {
        let visible: usize = unmatched_height.saturating_sub(3) as usize;
        let n: usize = self.unmatched.len();
        let first: usize = if n > 0 {
            selection::scroll_to(self.unmatched_scroll, self.unmatched_index, visible)
        } else {
            self.unmatched_scroll
        };
        let count: usize = count_shown(n, first, visible);
        let ghost t = self@.drawn(transfer_height, unmatched_height);
        let mut k: usize = 0;
        while k < count
            invariant
                k <= count,
                count > 0 ==> first + count <= n,
                n == self.unmatched@.len(),
                t == self@.drawn(transfer_height, unmatched_height),
                t.unmatched == self@.unmatched,
                t.unmatched_scroll == first,
                count == shown_count(n as nat, first as nat, visible_rows(unmatched_height)),
                forall|i: int|
                    first <= i < first + k ==> widgets::can_truncate(
                        (#[trigger] t.unmatched[i]).name@,
                        35,
                    ),
            decreases count - k,
        {
            assert(t.unmatched[first + k] == self.unmatched@[first + k]);
            if !widgets::fits(self.unmatched[first + k].name.as_str(), 35) {
                assert(!widgets::can_truncate(t.unmatched[first + k].name@, 35));
                assert(!t.can_draw(unmatched_height));
                return false;
            }
            k = k + 1;
        }
        true
    }

    /// Draws the screen, the two lists on areas of the given heights, after
    /// scrolling the highlighted rows into view.
    pub fn render(&mut self, transfer_height: u16, unmatched_height: u16, theme: &Theme) -> (r:
        PlaidStagedPainting)
        requires
            old(self)@.drawn(transfer_height, unmatched_height).can_draw(unmatched_height),
        ensures
            final(self)@ == old(self)@.drawn(transfer_height, unmatched_height),
            r.summary@ == seq![
                (
                    " "@ + text::decimal(old(self)@.transfers.len()) + " transfer candidates, "@
                        + text::decimal(old(self)@.unmatched.len())
                        + " unmatched transactions "@,
                    theme::colored(theme.header),
                ),
            ],
            r.transfers_border == (if old(self).section == StagedSection::Transfers {
                theme.accent
            } else {
                theme.fg_dim
            }),
            r.transfers_header@ == paint::plain_cells(
                seq![
                    "From Account"@,
                    "To Account"@,
                    "Amount"@,
                    "Date (From)"@,
                    "Date (To)"@,
                    "Confidence"@,
                ],
            ),
            r.transfers@ == final(self)@.transfer_rows(transfer_height, theme),
            r.transfers_title@ == TRANSFERS_TITLE@,
            r.unmatched_title@ == UNMATCHED_TITLE@,
            paint::opt_line(r.no_transfers) == empty_line(
                old(self)@.transfers.len() == 0,
                NO_TRANSFERS@,
                theme,
            ),
            paint::opt_line(r.no_unmatched) == empty_line(
                old(self)@.unmatched.len() == 0,
                NO_UNMATCHED@,
                theme,
            ),
            paint::opt_line(r.status) == (match old(self)@.status {
                Some(message) => Some(seq![(message, theme::colored(theme.accent))]),
                None => None::<LineView>,
            }),
            r.unmatched_border == (if old(self).section == StagedSection::Unmatched {
                theme.accent
            } else {
                theme.fg_dim
            }),
            r.unmatched_header@ == paint::plain_cells(old(self)@.unmatched_header()),
            r.unmatched@ == final(self)@.transaction_rows(unmatched_height, theme),
            r.help@ == help_line(theme),
    {
        if self.transfer_candidates.len() > 0 {
            self.transfer_scroll = selection::scroll_to(
                self.transfer_scroll,
                self.transfer_index,
                transfer_height.saturating_sub(3) as usize,
            );
        }
        if self.unmatched.len() > 0 {
            self.unmatched_scroll = selection::scroll_to(
                self.unmatched_scroll,
                self.unmatched_index,
                unmatched_height.saturating_sub(3) as usize,
            );
        }
        assert(self@ =~= old(self)@.drawn(transfer_height, unmatched_height));
        let a = text::count(self.transfer_candidates.len());
        let b = text::count(self.unmatched.len());
        let summary = paint::styled_owned_line(
            text::cat5(
                " ",
                a.as_str(),
                " transfer candidates, ",
                b.as_str(),
                " unmatched transactions ",
            ),
            theme::colored(theme.header),
        );
        let mut header: Line = Listing::new();
        paint::push_str(&mut header, "From Account");
        paint::push_str(&mut header, "To Account");
        paint::push_str(&mut header, "Amount");
        paint::push_str(&mut header, "Date (From)");
        paint::push_str(&mut header, "Date (To)");
        paint::push_str(&mut header, "Confidence");
        assert(header@ =~= paint::plain_cells(
            seq![
                "From Account"@,
                "To Account"@,
                "Amount"@,
                "Date (From)"@,
                "Date (To)"@,
                "Confidence"@,
            ],
        ));
        let mut help: Line = Listing::new();
        paint::push_hint(&mut help, "Tab", ": switch section  ", theme.header);
        paint::push_hint(&mut help, "Enter/y", ": confirm  ", theme.header);
        paint::push_hint(&mut help, "n", ": reject  ", theme.header);
        paint::push_hint(&mut help, "A", ": confirm all transfers  ", theme.header);
        paint::push_hint(&mut help, "I", ": import all  ", theme.header);
        paint::push_hint(&mut help, "Esc", ": back", theme.header);
        let transfers_active: bool = self.section == StagedSection::Transfers;
        let status = match &self.status_message {
            Some(m) => Some(paint::styled_line(m.as_str(), theme::colored(theme.accent))),
            None => None,
        };
        PlaidStagedPainting {
            summary,
            transfers_title: TRANSFERS_TITLE,
            no_transfers: draw_empty(self.transfer_candidates.len() == 0, NO_TRANSFERS, theme),
            unmatched_title: UNMATCHED_TITLE,
            no_unmatched: draw_empty(self.unmatched.len() == 0, NO_UNMATCHED, theme),
            status,
            transfers_border: if transfers_active {
                theme.accent
            } else {
                theme.fg_dim
            },
            transfers_header: header,
            transfers: self.draw_transfers(transfer_height, theme),
            unmatched_border: if transfers_active {
                theme.fg_dim
            } else {
                theme.accent
            },
            unmatched_header: self.draw_unmatched_header(),
            unmatched: self.draw_unmatched(unmatched_height, theme),
            help,
        }
    }
}

/// On an area with room for rows the highlighted transfer is among the shown
/// ones.
pub proof fn highlighted_transfer_is_shown(s: StagedState, a: u16, b: u16)
    requires
        s.transfer_index < s.transfers.len(),
        visible_rows(a) > 0,
    ensures
        ({
            let t = s.drawn(a, b);
            t.transfer_scroll <= t.transfer_index < t.transfer_scroll + shown_count(
                t.transfers.len(),
                t.transfer_scroll as nat,
                visible_rows(a),
            )
        }),
{
    selection::scrolled_shows_selected(s.transfer_scroll, s.transfer_index, visible_rows(a));
}

/// On an area with room for rows the highlighted transaction is among the
/// shown ones.
pub proof fn highlighted_transaction_is_shown(s: StagedState, a: u16, b: u16)
    requires
        s.unmatched_index < s.unmatched.len(),
        visible_rows(b) > 0,
    ensures
        ({
            let t = s.drawn(a, b);
            t.unmatched_scroll <= t.unmatched_index < t.unmatched_scroll + shown_count(
                t.unmatched.len(),
                t.unmatched_scroll as nat,
                visible_rows(b),
            )
        }),
{
    selection::scrolled_shows_selected(s.unmatched_scroll, s.unmatched_index, visible_rows(b));
}

} // verus!
