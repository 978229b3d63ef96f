//! The overview of the books.

use vstd::prelude::*;

use crate::domain::AccountType;
use crate::input::KeyCode;
use crate::lists;
use crate::money;
use crate::queries::AccountBalance;
use crate::tui::paint;
use crate::tui::paint::{Line, LineView, Listing, Page, Row, RowView};
use crate::tui::theme;
use crate::tui::theme::{Color, Style, Theme};
use crate::tui::widgets;

verus! {

/// The overview of the books.
pub struct DashboardView {
    pub balances: Vec<AccountBalance>,
}

/// The sum of the balances of the accounts of one kind, debits counted as
/// positive.
pub open spec fn kind_total(v: Seq<AccountBalance>, kind: AccountType) -> int
    decreases v.len(),
{
    if v.len() == 0 {
        0
    } else {
        kind_total(v.drop_last(), kind) + if v.last().account_type == kind {
            v.last().balance as int
        } else {
            0
        }
    }
}

/// The sum of all balances.
pub open spec fn grand_total(v: Seq<AccountBalance>) -> int
    decreases v.len(),
{
    if v.len() == 0 {
        0
    } else {
        grand_total(v.drop_last()) + v.last().balance
    }
}

/// The four numbers of the summary.
pub ghost struct Summary {
    pub assets: int,
    pub liabilities: int,
    pub equity: int,
    pub net_income: int,
}

/// The summary of the books: what is owned, what is owed, what is invested,
/// and revenue less expenses. Kinds with credit balances count the other way.
pub open spec fn summary(v: Seq<AccountBalance>) -> Summary {
    Summary {
        assets: money::wrap64(kind_total(v, AccountType::Asset)),
        liabilities: money::wrap64(-kind_total(v, AccountType::Liability)),
        equity: money::wrap64(-kind_total(v, AccountType::Equity)),
        net_income: money::wrap64(
            -kind_total(v, AccountType::Revenue) - kind_total(v, AccountType::Expense),
        ),
    }
}

proof fn kinds_make_the_whole(v: Seq<AccountBalance>)
    ensures
        grand_total(v) == kind_total(v, AccountType::Asset) + kind_total(v, AccountType::Liability)
            + kind_total(v, AccountType::Equity) + kind_total(v, AccountType::Revenue)
            + kind_total(v, AccountType::Expense),
    decreases v.len(),
{
    if v.len() > 0 {
        kinds_make_the_whole(v.drop_last());
    }
}

/// In books whose balances sum up to zero, assets equal liabilities plus equity
/// plus net income.
pub proof fn balanced_books_show_the_equation(v: Seq<AccountBalance>)
    requires
        grand_total(v) == 0,
    ensures
        summary(v).assets == money::wrap64(
            summary(v).liabilities + summary(v).equity + summary(v).net_income,
        ),
{
    kinds_make_the_whole(v);
    let l = -kind_total(v, AccountType::Liability);
    let e = -kind_total(v, AccountType::Equity);
    let n = -kind_total(v, AccountType::Revenue) - kind_total(v, AccountType::Expense);
    money::wrapping_is_uniform(l, money::wrap64(e) + money::wrap64(n));
    money::wrapping_is_uniform(e, l + money::wrap64(n));
    money::wrapping_is_uniform(n, l + e);
}

proof fn kind_by_field(v: Seq<AccountBalance>, kind: AccountType, value: spec_fn(int) -> int)
    requires
        forall|i: int|
            0 <= i < v.len() ==> #[trigger] value(i) == (if v[i].account_type == kind {
                v[i].balance as int
            } else {
                0
            }),
    ensures
        kind_total(v, kind) == lists::sum_at(v.len(), value),
    decreases v.len(),
{
    if v.len() > 0 {
        kind_by_field(v.drop_last(), kind, value);
        assert(value(v.len() - 1) == (if v.last().account_type == kind {
            v.last().balance as int
        } else {
            0
        }));
    }
}

/// The summary adds up the balances of each kind of account. Assets count as
/// they stand in the books; what is owed, what is invested and what is earned
/// stand there as credits and count with the opposite sign, and expenses lower
/// the income.
pub proof fn summary_counts_each_kind(v: Seq<AccountBalance>)
    ensures
        summary(v).assets == money::wrap64(
            lists::sum_at(
                v.len(),
                |i: int|
                    if v[i].account_type is Asset {
                        v[i].balance as int
                    } else {
                        0
                    },
            ),
        ),
        summary(v).liabilities == money::wrap64(
            -lists::sum_at(
                v.len(),
                |i: int|
                    if v[i].account_type is Liability {
                        v[i].balance as int
                    } else {
                        0
                    },
            ),
        ),
        summary(v).equity == money::wrap64(
            -lists::sum_at(
                v.len(),
                |i: int|
                    if v[i].account_type is Equity {
                        v[i].balance as int
                    } else {
                        0
                    },
            ),
        ),
        summary(v).net_income == money::wrap64(
            -lists::sum_at(
                v.len(),
                |i: int|
                    if v[i].account_type is Revenue {
                        v[i].balance as int
                    } else {
                        0
                    },
            ) - lists::sum_at(
                v.len(),
                |i: int|
                    if v[i].account_type is Expense {
                        v[i].balance as int
                    } else {
                        0
                    },
            ),
        ),
{
    kind_by_field(
        v,
        AccountType::Asset,
        |i: int|
            if v[i].account_type is Asset {
                v[i].balance as int
            } else {
                0
            },
    );
    kind_by_field(
        v,
        AccountType::Liability,
        |i: int|
            if v[i].account_type is Liability {
                v[i].balance as int
            } else {
                0
            },
    );
    kind_by_field(
        v,
        AccountType::Equity,
        |i: int|
            if v[i].account_type is Equity {
                v[i].balance as int
            } else {
                0
            },
    );
    kind_by_field(
        v,
        AccountType::Revenue,
        |i: int|
            if v[i].account_type is Revenue {
                v[i].balance as int
            } else {
                0
            },
    );
    kind_by_field(
        v,
        AccountType::Expense,
        |i: int|
            if v[i].account_type is Expense {
                v[i].balance as int
            } else {
                0
            },
    );
}

/// The table of a kind lists the accounts of that kind whose balance is not
/// zero, in order, each with its number, its name and its balance: as it stands
/// in the books for assets and expenses, with the opposite sign for the rest.
pub proof fn tables_list_accounts_with_a_balance(v: Seq<AccountBalance>, kind: AccountType)
    ensures
        ({
            let rows = kind_rows(v, kind);
            let accounts = v.filter(
                |b: AccountBalance| b.account_type == kind && b.balance != 0,
            );
            &&& rows.len() == accounts.len()
            &&& forall|i: int|
                0 <= i < rows.len() ==> {
                    let cells = (#[trigger] rows[i]).cells;
                    let b = accounts[i];
                    &&& cells.len() == 3
                    &&& cells[0].0 == b.account_number@
                    &&& cells[1].0 == b.account_name@
                    &&& kind is Asset || kind is Expense ==> cells[2].0 == widgets::currency(
                        b.balance as int,
                    )
                    &&& (kind is Liability || kind is Equity || kind is Revenue) && b.balance
                        != i64::MIN ==> cells[2].0 == widgets::currency(-b.balance)
                }
        }),
{
    let p = |b: AccountBalance| b.account_type == kind && b.balance != 0;
    let q = |b: AccountBalance| listed(b, kind);
    assert(p =~= q);
    let accounts = v.filter(p);
    assert forall|i: int| 0 <= i < accounts.len() implies (
    #[trigger] accounts[i]).account_type == kind by {
        broadcast use vstd::seq_lib::group_filter_ensures;

        assert(p(accounts[i]));
    }
    assert forall|i: int| 0 <= i < accounts.len() implies #[trigger] kind_rows(v, kind)[i]
        == balance_row(accounts[i]) by {}
}

/// The balance of an account as it is shown: debits positive for assets and
/// expenses, credits positive for the rest.
pub open spec fn shown_balance(kind: AccountType, balance: i64) -> int {
    if kind.debit_side() {
        balance as int
    } else {
        money::wrap64(-balance)
    }
}

pub open spec fn balance_row(b: AccountBalance) -> RowView {
    RowView {
        cells: paint::plain_cells(
            seq![
                b.account_number@,
                b.account_name@,
                widgets::currency(shown_balance(b.account_type, b.balance)),
            ],
        ),
        style: Style::plain(),
    }
}

/// Whether an account is listed in the table of a kind.
pub open spec fn listed(b: AccountBalance, kind: AccountType) -> bool {
    b.account_type == kind && b.balance != 0
}

/// The table of the accounts of one kind that have a balance.
pub open spec fn kind_rows(v: Seq<AccountBalance>, kind: AccountType) -> Seq<RowView> {
    v.filter(|b: AccountBalance| listed(b, kind)).map_values(|b: AccountBalance| balance_row(b))
}

fn draw_balance(b: &AccountBalance) -> (r: Row)
    ensures
        r@ == balance_row(*b),
{
    let shown: i64 = if b.account_type.is_debit_side() {
        b.balance
    } else {
        money::negated(b.balance)
    };
    let mut cells: Line = Listing::new();
    paint::push_str(&mut cells, b.account_number.as_str());
    paint::push_str(&mut cells, b.account_name.as_str());
    paint::push_text(&mut cells, widgets::format_currency(shown));
    assert(cells@ =~= balance_row(*b).cells);
    paint::row(cells, Style::plain())
}

pub open spec fn summary_lines(s: Summary, theme: &Theme) -> Seq<LineView> {
    seq![
        seq![
            paint::raw_view("Total Assets: "@),
            (widgets::currency(s.assets), theme::colored(theme.success)),
            paint::raw_view("  |  Total Liabilities: "@),
            (widgets::currency(s.liabilities), theme::colored(theme.error)),
            paint::raw_view("  |  Equity: "@),
            (widgets::currency(s.equity), theme::colored(theme.info)),
        ],
        seq![
            paint::raw_view("Net Income: "@),
            (
                widgets::currency(s.net_income),
                theme::colored(
                    if s.net_income >= 0 {
                        theme.success
                    } else {
                        theme.error
                    },
                ),
            ),
        ],
    ]
}

/// Every number of the summary stands behind its label.
pub proof fn numbers_stand_behind_their_labels(s: Summary, theme: &Theme)
    ensures
        ({
            let lines = summary_lines(s, theme);
            &&& lines.len() == 2 && lines[0].len() == 6 && lines[1].len() == 2
            &&& lines[0][0].0 == "Total Assets: "@ && lines[0][1].0 == widgets::currency(s.assets)
            &&& lines[0][2].0 == "  |  Total Liabilities: "@ && lines[0][3].0
                == widgets::currency(s.liabilities)
            &&& lines[0][4].0 == "  |  Equity: "@ && lines[0][5].0 == widgets::currency(s.equity)
            &&& lines[1][0].0 == "Net Income: "@ && lines[1][1].0 == widgets::currency(
                s.net_income,
            )
        }),
{
}

/// The four numbers of the summary, in 64 bits.
pub struct Totals {
    pub assets: i64,
    pub liabilities: i64,
    pub equity: i64,
    pub net_income: i64,
}

impl View for Totals {
    type V = Summary;

    open spec fn view(&self) -> Summary {
        Summary {
            assets: self.assets as int,
            liabilities: self.liabilities as int,
            equity: self.equity as int,
            net_income: self.net_income as int,
        }
    }
}

fn push_amount(line: &mut Line, cents: i64, color: Color)
    ensures
        final(line)@ == old(line)@.push((widgets::currency(cents as int), theme::colored(color))),
{
    line.push(paint::styled_owned(widgets::format_currency(cents), theme::colored(color)));
}

/// The dashboard as it is drawn.
pub struct DashboardPainting {
    pub summary: Page,
    pub assets: Listing<Row>,
    pub liabilities: Listing<Row>,
    pub revenue: Listing<Row>,
    pub expenses: Listing<Row>,
}

impl DashboardView {
    pub fn new() -> (r: Self)
        ensures
            r.balances@ == Seq::<AccountBalance>::empty(),
    {
        DashboardView { balances: Vec::new() }
    }

    /// The dashboard reacts to no key.
    pub fn handle_key(&mut self, _key: KeyCode)
        ensures
            *final(self) == *old(self),
    {
    }

    /// The sum of the balances of one kind, in 64 bits.
    fn sum_of(&self, kind: AccountType) -> (r: i64)
        ensures
            r == money::wrap64(kind_total(self.balances@, kind)),
    {
        let mut sum: i64 = 0;
        let mut i: usize = 0;
        while i < self.balances.len()
            invariant
                i <= self.balances@.len(),
                sum == money::wrap64(kind_total(self.balances@.take(i as int), kind)),
            decreases self.balances@.len() - i,
        {
            let b = &self.balances[i];
            proof {
                let next = self.balances@.take(i + 1);
                assert(next.drop_last() =~= self.balances@.take(i as int));
                assert(next.last() == *b);
                money::wrapping_is_uniform(
                    kind_total(self.balances@.take(i as int), kind),
                    b.balance as int,
                );
            }
            if b.account_type == kind {
                sum = money::plus(sum, b.balance);
            }
            i = i + 1;
        }
        assert(self.balances@.take(i as int) =~= self.balances@);
        sum
    }

    /// The sum of the balances of one kind, credits counted as positive.
    fn credits_of(&self, kind: AccountType) -> (r: i64)
        ensures
            r == money::wrap64(-kind_total(self.balances@, kind)),
    {
        let sum: i64 = self.sum_of(kind);
        proof {
            money::wrapping_difference(0, kind_total(self.balances@, kind));
        }
        money::minus(0, sum)
    }

    /// Revenue less expenses.
    fn income(&self) -> (r: i64)
        ensures
            r == summary(self.balances@).net_income,
    {
        let revenue: i64 = self.credits_of(AccountType::Revenue);
        let expenses: i64 = self.sum_of(AccountType::Expense);
        proof {
            money::wrapping_difference(
                -kind_total(self.balances@, AccountType::Revenue),
                kind_total(self.balances@, AccountType::Expense),
            );
        }
        money::minus(revenue, expenses)
    }

    /// Adds up the four numbers of the summary.
    pub fn totals(&self) -> (r: Totals)
        ensures
            r@ == summary(self.balances@),
    {
        Totals {
            assets: self.sum_of(AccountType::Asset),
            liabilities: self.credits_of(AccountType::Liability),
            equity: self.credits_of(AccountType::Equity),
            net_income: self.income(),
        }
    }

    /// Draws the summary.
    pub fn draw_summary(&self, theme: &Theme) -> (r: Page)
        ensures
            r@ == summary_lines(summary(self.balances@), theme),
    {
        let t = self.totals();
        let mut first: Line = Listing::new();
        paint::push_str(&mut first, "Total Assets: ");
        push_amount(&mut first, t.assets, theme.success);
        paint::push_str(&mut first, "  |  Total Liabilities: ");
        push_amount(&mut first, t.liabilities, theme.error);
        paint::push_str(&mut first, "  |  Equity: ");
        push_amount(&mut first, t.equity, theme.info);
        let mut second: Line = Listing::new();
        paint::push_str(&mut second, "Net Income: ");
        push_amount(
            &mut second,
            t.net_income,
            if t.net_income >= 0 {
                theme.success
            } else {
                theme.error
            },
        );
        assert(first@ =~= summary_lines(t@, theme)[0]);
        assert(second@ =~= summary_lines(t@, theme)[1]);
        paint::list2(first, second)
    }

    /// Draws the table of the accounts of one kind that have a balance.
    pub fn draw_account_type_table(&self, account_type: AccountType) -> (r: Listing<Row>)
        ensures
            r@ == kind_rows(self.balances@, account_type),
    {
        let ghost keep = |b: AccountBalance| listed(b, account_type);
        let ghost f = |b: AccountBalance| balance_row(b);
        let mut rows: Listing<Row> = Listing::new();
        let mut i: usize = 0;
        proof {
            reveal(Seq::filter);
            assert(self.balances@.take(0).filter(keep).map_values(f) =~= Seq::<RowView>::empty());
        }
        while i < self.balances.len()
            invariant
                i <= self.balances@.len(),
                keep == (|b: AccountBalance| listed(b, account_type)),
                f == (|b: AccountBalance| balance_row(b)),
                rows@ =~= self.balances@.take(i as int).filter(keep).map_values(f),
            decreases self.balances@.len() - i,
        {
            let b = &self.balances[i];
            proof {
                reveal(Seq::filter);
                let next = self.balances@.take(i + 1);
                assert(next.drop_last() =~= self.balances@.take(i as int));
                assert(next.last() == *b);
                assert(keep(*b) == listed(*b, account_type));
            }
            if b.account_type == account_type && b.balance != 0 {
                rows.push(draw_balance(b));
            }
            i = i + 1;
        }
        assert(self.balances@.take(i as int) =~= self.balances@);
        rows
    }

    /// Draws the dashboard.
    pub fn draw(&self, theme: &Theme) -> (r: DashboardPainting)
        ensures
            r.summary@ == summary_lines(summary(self.balances@), theme),
            r.assets@ == kind_rows(self.balances@, AccountType::Asset),
            r.liabilities@ == kind_rows(self.balances@, AccountType::Liability),
            r.revenue@ == kind_rows(self.balances@, AccountType::Revenue),
            r.expenses@ == kind_rows(self.balances@, AccountType::Expense),
    {
        DashboardPainting {
            summary: self.draw_summary(theme),
            assets: self.draw_account_type_table(AccountType::Asset),
            liabilities: self.draw_account_type_table(AccountType::Liability),
            revenue: self.draw_account_type_table(AccountType::Revenue),
            expenses: self.draw_account_type_table(AccountType::Expense),
        }
    }
}

impl Default for DashboardView {
    fn default() -> (r: Self)
        ensures
            r.balances@.len() == 0,
    {
        Self::new()
    }
}

} // verus!
