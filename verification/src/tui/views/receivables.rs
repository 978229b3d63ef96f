//! The screen of open invoices.

use vstd::prelude::*;

use crate::date::Date;
use crate::input::KeyCode;
use crate::queries::{AgingBucket, InvoiceRow};
use crate::selection;
use crate::tui::paint;
use crate::tui::paint::{Line, Listing, Row, RowView};
use crate::tui::theme;
use crate::tui::theme::Theme;
use crate::tui::views::aging;

verus! {

/// What the program is to do for the screen.
#[derive(Debug, Clone, Copy, PartialEq, Eq, Structural)]
pub enum ReceivablesAction {
    Nothing,
    Refresh,
}

/// The screen of open invoices.
pub struct ReceivablesView {
    pub invoices: Vec<InvoiceRow>,
    pub aging: AgingBucket,
    pub selected: usize,
}

/// The meaning of the screen.
#[verifier::ext_equal]
pub ghost struct ReceivablesState {
    pub invoices: Seq<InvoiceRow>,
    pub aging: AgingBucket,
    pub selected: usize,
}

impl View for ReceivablesView {
    type V = ReceivablesState;

    open spec fn view(&self) -> ReceivablesState {
        ReceivablesState { invoices: self.invoices@, aging: self.aging, selected: self.selected }
    }
}

impl ReceivablesState {
    pub open spec fn after_key(self, key: KeyCode) -> (ReceivablesState, ReceivablesAction) {
        match key {
            KeyCode::Char('j') | KeyCode::Down => (
                ReceivablesState {
                    selected: selection::down_to_last(self.selected, self.invoices.len()),
                    ..self
                },
                ReceivablesAction::Nothing,
            ),
            KeyCode::Char('k') | KeyCode::Up => (
                ReceivablesState { selected: selection::up_to_first(self.selected), ..self },
                ReceivablesAction::Nothing,
            ),
            KeyCode::Char('r') => (self, ReceivablesAction::Refresh),
            _ => (self, ReceivablesAction::Nothing),
        }
    }
}

pub open spec fn invoice_row(b: InvoiceRow, selected: bool, today: Date, theme: &Theme) -> RowView {
    (aging::DueItem {
        due_date: b.due_date@,
        party: b.customer@,
        amount: b.amount as int,
        paid: b.amount_paid as int,
        status: b.status@,
    }).row(selected, today, theme)
}

/// The screen as it is drawn: the summary, and a message or the rows.
pub struct ReceivablesPainting {
    pub aging: Line,
    pub message: Option<Line>,
    pub rows: Listing<Row>,
}

impl ReceivablesView {
    pub fn new() -> (r: Self)
        ensures
            r@ == (ReceivablesState { invoices: Seq::empty(), aging: r.aging, selected: 0 }),
            r.aging == (AgingBucket {
                current: 0,
                days_1_30: 0,
                days_31_60: 0,
                days_61_90: 0,
                days_over_90: 0,
                total: 0,
            }),
    {
        ReceivablesView { invoices: Vec::new(), aging: AgingBucket::default(), selected: 0 }
    }

    pub fn set_data(&mut self, invoices: Vec<InvoiceRow>, aging: AgingBucket)
        ensures
            final(self)@ == (ReceivablesState {
                invoices: invoices@,
                aging,
                selected: selection::kept_within(old(self).selected, invoices@.len()),
            }),
    {
        self.invoices = invoices;
        self.aging = aging;
        self.selected = selection::keep_within(self.selected, self.invoices.len());
    }

    pub fn handle_key(&mut self, key: KeyCode) -> (r: ReceivablesAction)
        ensures
            (final(self)@, r) == old(self)@.after_key(key),
    {
        match key {
            KeyCode::Char('j') | KeyCode::Down => {
                self.selected = selection::move_down(self.selected, self.invoices.len());
                ReceivablesAction::Nothing
            },
            KeyCode::Char('k') | KeyCode::Up => {
                self.selected = selection::move_up(self.selected);
                ReceivablesAction::Nothing
            },
            KeyCode::Char('r') => ReceivablesAction::Refresh,
            _ => ReceivablesAction::Nothing,
        }
    }

    /// Draws the screen on a day.
    pub fn render(&self, today: &Date, theme: &Theme) -> (r: ReceivablesPainting)
        ensures
            r.aging@ == aging::aging_line(self.aging, theme),
            match r.message {
                Some(line) => self.invoices@.len() == 0 && line@ == seq![
                    ("No open invoices."@, theme::colored(theme.fg_dim)),
                ],
                None => self.invoices@.len() > 0,
            },
            r.rows@ == Seq::new(
                self.invoices@.len(),
                |i: int| invoice_row(self.invoices@[i], i == self.selected, *today, theme),
            ),
    {
        let mut rows: Listing<Row> = Listing::new();
        let mut i: usize = 0;
        while i < self.invoices.len()
            invariant
                i <= self.invoices@.len(),
                rows@ =~= Seq::new(
                    i as nat,
                    |i: int| invoice_row(self.invoices@[i], i == self.selected, *today, theme),
                ),
            decreases self.invoices@.len() - i,
        {
            let b = &self.invoices[i];
            rows.push(
                aging::draw_due(
                    b.due_date.as_str(),
                    b.customer.as_str(),
                    b.amount,
                    b.amount_paid,
                    b.status.as_str(),
                    i == self.selected,
                    today,
                    theme,
                ),
            );
            i = i + 1;
        }
        ReceivablesPainting {
            aging: aging::draw_aging(&self.aging, theme),
            message: if self.invoices.len() == 0 {
                Some(paint::styled_line("No open invoices.", theme::colored(theme.fg_dim)))
            } else {
                None
            },
            rows,
        }
    }
}

impl Default for ReceivablesView {
    fn default() -> (r: Self)
        ensures
            r@ == (ReceivablesState { invoices: Seq::empty(), aging: r.aging, selected: 0 }),
            r.aging == (AgingBucket {
                current: 0,
                days_1_30: 0,
                days_31_60: 0,
                days_61_90: 0,
                days_over_90: 0,
                total: 0,
            }),
    {
        Self::new()
    }
}

} // verus!
