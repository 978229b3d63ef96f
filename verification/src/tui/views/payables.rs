//! The screen of open bills.

use vstd::prelude::*;

use crate::date::Date;
use crate::input::KeyCode;
use crate::queries::{AgingBucket, BillRow};
use crate::selection;
use crate::tui::paint;
use crate::tui::paint::{Line, Listing, Row, RowView};
use crate::tui::theme;
use crate::tui::theme::Theme;
use crate::tui::views::aging;

verus! {

/// What the program is to do for the screen.
#[derive(Debug, Clone, Copy, PartialEq, Eq, Structural)]
pub enum PayablesAction {
    Nothing,
    Refresh,
}

/// The screen of open bills.
pub struct PayablesView {
    pub bills: Vec<BillRow>,
    pub aging: AgingBucket,
    pub selected: usize,
}

/// The meaning of the screen.
#[verifier::ext_equal]
pub ghost struct PayablesState {
    pub bills: Seq<BillRow>,
    pub aging: AgingBucket,
    pub selected: usize,
}

impl View for PayablesView {
    type V = PayablesState;

    open spec fn view(&self) -> PayablesState {
        PayablesState { bills: self.bills@, aging: self.aging, selected: self.selected }
    }
}

impl PayablesState {
    pub open spec fn after_key(self, key: KeyCode) -> (PayablesState, PayablesAction) {
        match key {
            KeyCode::Char('j') | KeyCode::Down => (
                PayablesState {
                    selected: selection::down_to_last(self.selected, self.bills.len()),
                    ..self
                },
                PayablesAction::Nothing,
            ),
            KeyCode::Char('k') | KeyCode::Up => (
                PayablesState { selected: selection::up_to_first(self.selected), ..self },
                PayablesAction::Nothing,
            ),
            KeyCode::Char('r') => (self, PayablesAction::Refresh),
            _ => (self, PayablesAction::Nothing),
        }
    }
}

pub open spec fn bill_row(b: BillRow, selected: bool, today: Date, theme: &Theme) -> RowView {
    (aging::DueItem {
        due_date: b.due_date@,
        party: b.vendor@,
        amount: b.amount as int,
        paid: b.amount_paid as int,
        status: b.status@,
    }).row(selected, today, theme)
}

/// The screen as it is drawn: the summary, and a message or the rows.
pub struct PayablesPainting {
    pub aging: Line,
    pub message: Option<Line>,
    pub rows: Listing<Row>,
}

impl PayablesView {
    pub fn new() -> (r: Self)
        ensures
            r@ == (PayablesState { bills: Seq::empty(), aging: r.aging, selected: 0 }),
            r.aging == (AgingBucket {
                current: 0,
                days_1_30: 0,
                days_31_60: 0,
                days_61_90: 0,
                days_over_90: 0,
                total: 0,
            }),
    {
        PayablesView { bills: Vec::new(), aging: AgingBucket::default(), selected: 0 }
    }

    pub fn set_data(&mut self, bills: Vec<BillRow>, aging: AgingBucket)
        ensures
            final(self)@ == (PayablesState {
                bills: bills@,
                aging,
                selected: selection::kept_within(old(self).selected, bills@.len()),
            }),
    {
        self.bills = bills;
        self.aging = aging;
        self.selected = selection::keep_within(self.selected, self.bills.len());
    }

    pub fn handle_key(&mut self, key: KeyCode) -> (r: PayablesAction)
        ensures
            (final(self)@, r) == old(self)@.after_key(key),
    {
        match key {
            KeyCode::Char('j') | KeyCode::Down => {
                self.selected = selection::move_down(self.selected, self.bills.len());
                PayablesAction::Nothing
            },
            KeyCode::Char('k') | KeyCode::Up => {
                self.selected = selection::move_up(self.selected);
                PayablesAction::Nothing
            },
            KeyCode::Char('r') => PayablesAction::Refresh,
            _ => PayablesAction::Nothing,
        }
    }

    /// Draws the screen on a day.
    pub fn render(&self, today: &Date, theme: &Theme) -> (r: PayablesPainting)
        ensures
            r.aging@ == aging::aging_line(self.aging, theme),
            match r.message {
                Some(line) => self.bills@.len() == 0 && line@ == seq![
                    ("No open bills."@, theme::colored(theme.fg_dim)),
                ],
                None => self.bills@.len() > 0,
            },
            r.rows@ == Seq::new(
                self.bills@.len(),
                |i: int| bill_row(self.bills@[i], i == self.selected, *today, theme),
            ),
    {
        let mut rows: Listing<Row> = Listing::new();
        let mut i: usize = 0;
        while i < self.bills.len()
            invariant
                i <= self.bills@.len(),
                rows@ =~= Seq::new(
                    i as nat,
                    |i: int| bill_row(self.bills@[i], i == self.selected, *today, theme),
                ),
            decreases self.bills@.len() - i,
        {
            let b = &self.bills[i];
            rows.push(
                aging::draw_due(
                    b.due_date.as_str(),
                    b.vendor.as_str(),
                    b.amount,
                    b.amount_paid,
                    b.status.as_str(),
                    i == self.selected,
                    today,
                    theme,
                ),
            );
            i = i + 1;
        }
        PayablesPainting {
            aging: aging::draw_aging(&self.aging, theme),
            message: if self.bills.len() == 0 {
                Some(paint::styled_line("No open bills.", theme::colored(theme.fg_dim)))
            } else {
                None
            },
            rows,
        }
    }
}

impl Default for PayablesView {
    fn default() -> (r: Self)
        ensures
            r@ == (PayablesState { bills: Seq::empty(), aging: r.aging, selected: 0 }),
            r.aging == (AgingBucket {
                current: 0,
                days_1_30: 0,
                days_31_60: 0,
                days_61_90: 0,
                days_over_90: 0,
                total: 0,
            }),
    {
        Self::new()
    }
}

} // verus!
