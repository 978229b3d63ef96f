//! What the screens of open bills and open invoices have in common.

use vstd::prelude::*;

use crate::date::Date;
use crate::money;
use crate::queries::AgingBucket;
use crate::text;
use crate::tui::paint;
use crate::tui::paint::{Line, LineView, Listing, Row, RowView};
use crate::tui::theme;
use crate::tui::theme::{Color, Style, Theme};
use crate::tui::widgets;

verus! {

/// A label and an amount behind what a line holds so far.
pub open spec fn amount_after(
    line: LineView,
    label: Seq<char>,
    cents: int,
    label_style: Style,
    style: Style,
) -> LineView {
    line.push((label, label_style)).push((widgets::currency(cents), style))
}

fn push_amount(line: &mut Line, label: &str, cents: i64, label_style: Style, style: Style)
    ensures
        final(line)@ == amount_after(old(line)@, label@, cents as int, label_style, style),
{
    line.push(paint::styled(label, label_style));
    line.push(paint::styled_owned(widgets::format_currency(cents), style));
}

/// The line that sums up how long amounts are overdue.
pub open spec fn aging_line(a: AgingBucket, theme: &Theme) -> LineView {
    let dim = theme::colored(theme.fg_dim);
    let gap = paint::raw_view("  "@);
    let current = amount_after(
        Seq::empty(),
        "Current: "@,
        a.current as int,
        dim,
        theme::colored(theme.success),
    ).push(gap);
    let first = amount_after(
        current,
        "1-30: "@,
        a.days_1_30 as int,
        dim,
        theme::colored(Color::Yellow),
    ).push(gap);
    let second = amount_after(
        first,
        "31-60: "@,
        a.days_31_60 as int,
        dim,
        theme::colored(Color::Yellow),
    ).push(gap);
    let third = amount_after(
        second,
        "61-90: "@,
        a.days_61_90 as int,
        dim,
        theme::colored(theme.error),
    ).push(gap);
    let rest = amount_after(
        third,
        "90+: "@,
        a.days_over_90 as int,
        dim,
        theme::colored(theme.error),
    ).push(gap);
    amount_after(
        rest,
        "Total: "@,
        a.total as int,
        dim.in_bold(),
        theme::bold_colored(theme.fg),
    )
}

/// Every amount of the summary stands behind the label of its age, from what is
/// not yet due to what is overdue longest, and the total comes last.
pub proof fn amounts_stand_behind_their_age(a: AgingBucket, theme: &Theme)
    ensures
        ({
            let line = aging_line(a, theme);
            &&& line.len() == 17
            &&& line[0].0 == "Current: "@ && line[1].0 == widgets::currency(a.current as int)
            &&& line[3].0 == "1-30: "@ && line[4].0 == widgets::currency(a.days_1_30 as int)
            &&& line[6].0 == "31-60: "@ && line[7].0 == widgets::currency(a.days_31_60 as int)
            &&& line[9].0 == "61-90: "@ && line[10].0 == widgets::currency(a.days_61_90 as int)
            &&& line[12].0 == "90+: "@ && line[13].0 == widgets::currency(a.days_over_90 as int)
            &&& line[15].0 == "Total: "@ && line[16].0 == widgets::currency(a.total as int)
        }),
{
}

/// Draws the line that sums up how long amounts are overdue.
pub fn draw_aging(a: &AgingBucket, theme: &Theme) -> (r: Line)
    ensures
        r@ == aging_line(*a, theme),
{
    let dim = theme::colored(theme.fg_dim);
    let mut line: Line = Listing::new();
    push_amount(&mut line, "Current: ", a.current, dim, theme::colored(theme.success));
    paint::push_str(&mut line, "  ");
    push_amount(&mut line, "1-30: ", a.days_1_30, dim, theme::colored(Color::Yellow));
    paint::push_str(&mut line, "  ");
    push_amount(&mut line, "31-60: ", a.days_31_60, dim, theme::colored(Color::Yellow));
    paint::push_str(&mut line, "  ");
    push_amount(&mut line, "61-90: ", a.days_61_90, dim, theme::colored(theme.error));
    paint::push_str(&mut line, "  ");
    push_amount(&mut line, "90+: ", a.days_over_90, dim, theme::colored(theme.error));
    paint::push_str(&mut line, "  ");
    push_amount(&mut line, "Total: ", a.total, dim.in_bold(), theme::bold_colored(theme.fg));
    line
}

/// Whether something due on a day, written as a date, is late: the day comes
/// before today and the matter is neither paid nor void.
pub open spec fn overdue(due_date: Seq<char>, status: Seq<char>, today: Date) -> bool {
    &&& text::text_less(due_date, today.iso())
    &&& status != "paid"@
    &&& status != "void"@
}

fn is_overdue(due_date: &str, status: &str, today: &Date) -> (r: bool)
    ensures
        r == overdue(due_date@, status@, *today),
{
    let now = today.iso_text();
    text::is_before(due_date, now.as_str()) && !text::same_text(status, "paid")
        && !text::same_text(status, "void")
}

/// What is due, to or from whom, how much of it, how much was paid, and how
/// much is left.
#[verifier::ext_equal]
pub ghost struct DueItem {
    pub due_date: Seq<char>,
    pub party: Seq<char>,
    pub amount: int,
    pub paid: int,
    pub status: Seq<char>,
}

impl DueItem {
    /// The amount that is left.
    pub open spec fn balance(self) -> int {
        money::wrap64(self.amount - self.paid)
    }

    pub open spec fn row(self, selected: bool, today: Date, theme: &Theme) -> RowView {
        RowView {
            cells: paint::plain_cells(
                seq![
                    self.due_date,
                    self.party,
                    widgets::currency(self.amount),
                    widgets::currency(self.paid),
                    widgets::currency(self.balance()),
                    self.status,
                ],
            ),
            style: if selected {
                theme::bold_colored(theme.accent)
            } else if overdue(self.due_date, self.status, today) {
                theme::colored(theme.error)
            } else {
                theme::colored(theme.fg)
            },
        }
    }
}

/// The row of something due shows its amount, what was paid of it, and the
/// difference, which is what is left. It stands out as late only if it was due
/// before today and is neither paid nor void.
pub proof fn what_is_left_is_shown(item: DueItem, selected: bool, today: Date, theme: &Theme)
    ensures
        ({
            let row = item.row(selected, today, theme);
            &&& row.cells.len() == 6
            &&& row.cells[0].0 == item.due_date
            &&& row.cells[1].0 == item.party
            &&& row.cells[2].0 == widgets::currency(item.amount)
            &&& row.cells[3].0 == widgets::currency(item.paid)
            &&& i64::MIN <= item.amount - item.paid <= i64::MAX ==> row.cells[4].0
                == widgets::currency(item.amount - item.paid)
            &&& row.cells[5].0 == item.status
            &&& !selected && text::text_less(item.due_date, today.iso()) && item.status != "paid"@
                && item.status != "void"@ ==> row.style == theme::colored(theme.error)
            &&& !selected && (item.status == "paid"@ || item.status == "void"@
                || !text::text_less(item.due_date, today.iso())) ==> row.style == theme::colored(
                theme.fg,
            )
        }),
{
}

/// Draws the row of something due.
pub fn draw_due(
    due_date: &str,
    party: &str,
    amount: i64,
    paid: i64,
    status: &str,
    selected: bool,
    today: &Date,
    theme: &Theme,
) -> (r: Row)
    ensures
        r@ == (DueItem {
            due_date: due_date@,
            party: party@,
            amount: amount as int,
            paid: paid as int,
            status: status@,
        }).row(selected, *today, theme),
{
    let ghost item = DueItem {
        due_date: due_date@,
        party: party@,
        amount: amount as int,
        paid: paid as int,
        status: status@,
    };
    let style = if selected {
        theme::bold_colored(theme.accent)
    } else if is_overdue(due_date, status, today) {
        theme::colored(theme.error)
    } else {
        theme::colored(theme.fg)
    };
    let mut cells: Line = Listing::new();
    paint::push_str(&mut cells, due_date);
    paint::push_str(&mut cells, party);
    paint::push_text(&mut cells, widgets::format_currency(amount));
    paint::push_text(&mut cells, widgets::format_currency(paid));
    paint::push_text(&mut cells, widgets::format_currency(money::minus(amount, paid)));
    paint::push_str(&mut cells, status);
    assert(cells@ =~= item.row(selected, *today, theme).cells);
    paint::row(cells, style)
}

} // verus!
