//! The reports: trial balance, balance sheet and income statement.

use vstd::prelude::*;

use crate::date;
use crate::date::Date;
use crate::input;
use crate::input::KeyCode;
use crate::lists;
use crate::money;
use crate::queries::{BalanceSheet, IncomeStatement, TrialBalanceLine};
use crate::text;
use crate::tui::paint;
use crate::tui::paint::{Line, Listing, Rect, Row, RowView};
use crate::tui::theme;
use crate::tui::theme::{Style, Theme};
use crate::tui::views::report_tree;
use crate::tui::views::report_tree::{ReportRow, TreeInput, TreeNode, TreeRow};
use crate::tui::widgets;

verus! {

/// Which report is shown.
#[derive(Debug, Clone, Copy, PartialEq, Eq, Structural)]
pub enum ReportType {
    TrialBalance,
    BalanceSheet,
    IncomeStatement,
}

impl ReportType {
    pub open spec fn place(self) -> nat {
        match self {
            ReportType::TrialBalance => 0,
            ReportType::BalanceSheet => 1,
            ReportType::IncomeStatement => 2,
        }
    }

    /// The report at a place; the first one at places past the last.
    pub open spec fn at(place: int) -> ReportType {
        if place == 1 {
            ReportType::BalanceSheet
        } else if place == 2 {
            ReportType::IncomeStatement
        } else {
            ReportType::TrialBalance
        }
    }

    pub fn index(&self) -> (r: usize)
        ensures
            r == self.place(),
            r < 3,
    {
        match self {
            ReportType::TrialBalance => 0,
            ReportType::BalanceSheet => 1,
            ReportType::IncomeStatement => 2,
        }
    }

    pub fn from_index(index: usize) -> (r: Self)
        ensures
            r == ReportType::at(index as int),
    {
        if index == 1 {
            ReportType::BalanceSheet
        } else if index == 2 {
            ReportType::IncomeStatement
        } else {
            ReportType::TrialBalance
        }
    }

    pub open spec fn following(self) -> ReportType {
        match self {
            ReportType::TrialBalance => ReportType::BalanceSheet,
            ReportType::BalanceSheet => ReportType::IncomeStatement,
            ReportType::IncomeStatement => ReportType::TrialBalance,
        }
    }

    pub open spec fn preceding(self) -> ReportType {
        match self {
            ReportType::TrialBalance => ReportType::IncomeStatement,
            ReportType::BalanceSheet => ReportType::TrialBalance,
            ReportType::IncomeStatement => ReportType::BalanceSheet,
        }
    }
}

/// Places and reports correspond, and the two directions undo each other.
pub proof fn reports_form_a_cycle(r: ReportType)
    ensures
        ReportType::at(r.place() as int) == r,
        r.following().preceding() == r,
        r.preceding().following() == r,
        r.following().following().following() == r,
{
}

/// The reports screen.
pub struct ReportsView {
    pub active_report: ReportType,
    pub trial_balance: Vec<TrialBalanceLine>,
    pub balance_sheet: Option<BalanceSheet>,
    pub income_statement: Option<IncomeStatement>,
    pub scroll_offset: usize,
    /// The day the balance sheet and the income statement are made for.
    pub report_date: Date,
    /// Whether the reports have to be made again for another day.
    pub needs_reload: bool,
    pub editing_date: bool,
    pub date_input: String,
    /// Accounts deeper than this are added into their ancestors.
    pub collapse_depth: Option<usize>,
}

/// The meaning of the reports screen.
#[verifier::ext_equal]
pub ghost struct ReportsState {
    pub active_report: ReportType,
    pub trial_balance: Seq<TrialBalanceLine>,
    pub balance_sheet: Option<BalanceSheet>,
    pub income_statement: Option<IncomeStatement>,
    pub scroll_offset: int,
    pub report_date: Date,
    pub needs_reload: bool,
    pub editing_date: bool,
    pub date_input: Seq<char>,
    pub collapse_depth: Option<usize>,
}

impl ReportsState {
    /// The state of a new screen.
    pub open spec fn fresh(today: Date) -> ReportsState {
        ReportsState {
            active_report: ReportType::TrialBalance,
            trial_balance: Seq::empty(),
            balance_sheet: None,
            income_statement: None,
            scroll_offset: 0,
            report_date: today,
            needs_reload: false,
            editing_date: false,
            date_input: Seq::empty(),
            collapse_depth: None,
        }
    }
}

impl View for ReportsView {
    type V = ReportsState;

    open spec fn view(&self) -> ReportsState {
        ReportsState {
            active_report: self.active_report,
            trial_balance: self.trial_balance@,
            balance_sheet: self.balance_sheet,
            income_statement: self.income_statement,
            scroll_offset: self.scroll_offset as int,
            report_date: self.report_date,
            needs_reload: self.needs_reload,
            editing_date: self.editing_date,
            date_input: self.date_input@,
            collapse_depth: self.collapse_depth,
        }
    }
}

/// All accounts of a balance sheet.
pub open spec fn sheet_tree(bs: BalanceSheet) -> Seq<TreeNode> {
    report_tree::sheet_nodes(bs.assets.lines@) + report_tree::sheet_nodes(bs.liabilities.lines@)
        + report_tree::sheet_nodes(bs.equity.lines@)
}

/// All accounts of an income statement.
pub open spec fn statement_tree(is: IncomeStatement) -> Seq<TreeNode> {
    report_tree::statement_nodes(is.revenue.lines@) + report_tree::statement_nodes(
        is.expenses.lines@,
    )
}

/// Whether no account of a section of a balance sheet stands under itself.
pub open spec fn sheet_ok(bs: BalanceSheet) -> bool {
    &&& report_tree::acyclic(report_tree::sheet_nodes(bs.assets.lines@))
    &&& report_tree::acyclic(report_tree::sheet_nodes(bs.liabilities.lines@))
    &&& report_tree::acyclic(report_tree::sheet_nodes(bs.equity.lines@))
}

/// Whether no account of a section of an income statement stands under itself.
pub open spec fn statement_ok(is: IncomeStatement) -> bool {
    &&& report_tree::acyclic(report_tree::statement_nodes(is.revenue.lines@))
    &&& report_tree::acyclic(report_tree::statement_nodes(is.expenses.lines@))
}

/// Checks that no account of a section of a balance sheet stands under itself.
pub fn check_sheet(bs: &BalanceSheet) -> (r: bool)
    ensures
        r == sheet_ok(*bs),
{
    report_tree::is_acyclic(&report_tree::bs_to_inputs(&bs.assets.lines)) && report_tree::is_acyclic(&report_tree::bs_to_inputs(&bs.liabilities.lines))
        && report_tree::is_acyclic(&report_tree::bs_to_inputs(&bs.equity.lines))
}

/// Checks that no account of a section of an income statement stands under
/// itself.
pub fn check_statement(is: &IncomeStatement) -> (r: bool)
    ensures
        r == statement_ok(*is),
{
    report_tree::is_acyclic(&report_tree::is_to_inputs(&is.revenue.lines)) && report_tree::is_acyclic(&report_tree::is_to_inputs(&is.expenses.lines))
}

fn sheet_inputs(bs: &BalanceSheet) -> (r: Vec<TreeInput<'_>>)
    ensures
        report_tree::nodes(r@) == sheet_tree(*bs),
{
    let mut all = report_tree::bs_to_inputs(&bs.assets.lines);
    report_tree::push_sheet_inputs(&bs.liabilities.lines, &mut all);
    report_tree::push_sheet_inputs(&bs.equity.lines, &mut all);
    all
}

fn statement_inputs(is: &IncomeStatement) -> (r: Vec<TreeInput<'_>>)
    ensures
        report_tree::nodes(r@) == statement_tree(*is),
{
    let mut all = report_tree::is_to_inputs(&is.revenue.lines);
    report_tree::push_statement_inputs(&is.expenses.lines, &mut all);
    all
}

/// The day a text stands for: year first, or month first, or day first, with
/// dashes or slashes.
pub open spec fn typed_date(s: Seq<char>) -> Option<Date> {
    let dashed = text::replaced(s, '/', '-');
    match date::date_in_format(dashed, "%Y-%m-%d"@) {
        Some(d) => Some(d),
        None => match date::date_in_format(dashed, "%m-%d-%Y"@) {
            Some(d) => Some(d),
            None => date::date_in_format(dashed, "%d-%m-%Y"@),
        },
    }
}

/// Three numbers joined by slashes or dashes are read as a day with the year
/// first; if they are none, with the month first and the year last; and only if
/// they are none either, with the day first.
pub proof fn typed_days_are_read_as_written(
    s: Seq<char>,
    a: Seq<char>,
    b: Seq<char>,
    c: Seq<char>,
    separator: char,
)
    requires
        s == date::joined(a, b, c, separator),
        date::are_numbers(a, b, c, separator),
        ({
            let t = date::joined(a, b, c, '-');
            let first = date::date_in_format(t, "%Y-%m-%d"@);
            let second = date::date_in_format(t, "%m-%d-%Y"@);
            let third = date::date_in_format(t, "%d-%m-%Y"@);
            &&& date::reads_numbers(t, "%Y-%m-%d"@, first)
            &&& first is None ==> date::reads_numbers(t, "%m-%d-%Y"@, second)
            &&& first is None && second is None ==> date::reads_numbers(t, "%d-%m-%Y"@, third)
        }),
    ensures
        typed_date(s) == (if date::written_day(a, b, c) is Some {
            date::written_day(a, b, c)
        } else if date::written_day(c, a, b) is Some {
            date::written_day(c, a, b)
        } else {
            date::written_day(c, b, a)
        }),
{
    all_dashes(a, b, c, separator);
    assert(date::are_numbers(a, b, c, '-'));
}

proof fn all_dashes(a: Seq<char>, b: Seq<char>, c: Seq<char>, separator: char)
    requires
        date::are_numbers(a, b, c, separator),
    ensures
        text::replaced(date::joined(a, b, c, separator), '/', '-') == date::joined(a, b, c, '-'),
{
    let s = date::joined(a, b, c, separator);
    let t = date::joined(a, b, c, '-');
    let m = (a.len() + b.len()) as int;
    assert forall|i: int| 0 <= i < s.len() implies #[trigger] text::replaced(s, '/', '-')[i]
        == t[i] by {
        if i < a.len() {
            assert(input::is_digit(a[i]));
        } else if a.len() < i <= m {
            assert(input::is_digit(b[i - a.len() - 1]));
        } else if i >= m + 2 {
            assert(input::is_digit(c[i - m - 2]));
        }
    }
    assert(text::replaced(s, '/', '-') =~= t);
}

impl ReportsState {
    /// The day is one of the calendar.
    pub open spec fn wf(self) -> bool {
        self.report_date.valid()
    }

    /// Whether the shown report can be drawn: its sections are trees.
    pub open spec fn can_draw(self) -> bool {
        match self.active_report {
            ReportType::BalanceSheet => self.balance_sheet is Some ==> sheet_ok(
                self.balance_sheet->0,
            ),
            ReportType::IncomeStatement => self.income_statement is Some ==> statement_ok(
                self.income_statement->0,
            ),
            ReportType::TrialBalance => true,
        }
    }

    /// Whether the accounts of the shown report, taken together, are a tree.
    pub open spec fn can_measure(self) -> bool {
        match self.active_report {
            ReportType::BalanceSheet => self.balance_sheet is Some ==> report_tree::acyclic(
                sheet_tree(self.balance_sheet->0),
            ),
            ReportType::IncomeStatement => self.income_statement is Some ==> report_tree::acyclic(
                statement_tree(self.income_statement->0),
            ),
            ReportType::TrialBalance => true,
        }
    }

    /// Whether a key asks how deep the accounts are nested.
    pub open spec fn measures(self, key: KeyCode) -> bool {
        &&& !self.editing_date
        &&& match key {
            KeyCode::Char('+') | KeyCode::Char('=') => self.collapse_depth is Some,
            KeyCode::Char('-') => self.collapse_depth is None,
            _ => false,
        }
    }

    /// Whether a key can be handled: if it asks for the depth of the accounts,
    /// they are a tree.
    pub open spec fn can_take(self, key: KeyCode) -> bool {
        self.measures(key) ==> self.can_measure()
    }

    /// How deep the accounts of the shown report are nested.
    pub open spec fn max_depth(self) -> nat {
        match self.active_report {
            ReportType::BalanceSheet => match self.balance_sheet {
                Some(bs) => report_tree::deepest(sheet_tree(bs), sheet_tree(bs).len()),
                None => 0,
            },
            ReportType::IncomeStatement => match self.income_statement {
                Some(is) => report_tree::deepest(statement_tree(is), statement_tree(is).len()),
                None => 0,
            },
            ReportType::TrialBalance => 0,
        }
    }

    /// One level more is shown; past the deepest level, all.
    pub open spec fn deeper(self) -> ReportsState {
        match self.collapse_depth {
            None => self,
            Some(d) => ReportsState {
                collapse_depth: if d + 1 > self.max_depth() {
                    None
                } else {
                    Some((d + 1) as usize)
                },
                ..self
            },
        }
    }

    /// One level less is shown, down to the top accounts.
    pub open spec fn shallower(self) -> ReportsState {
        match self.collapse_depth {
            None => if self.max_depth() > 0 {
                ReportsState { collapse_depth: Some(self.max_depth() as usize), ..self }
            } else {
                self
            },
            Some(d) => if d > 0 {
                ReportsState { collapse_depth: Some((d - 1) as usize), ..self }
            } else {
                self
            },
        }
    }

    /// The reports for another day, if there is one.
    pub open spec fn on_day(self, day: Option<Date>) -> ReportsState {
        match day {
            Some(d) => ReportsState { report_date: d, needs_reload: true, ..self },
            None => self,
        }
    }

    pub open spec fn date_edited(self) -> ReportsState {
        ReportsState { editing_date: true, date_input: self.report_date.iso(), ..self }
    }

    /// The typed day taken over, if it is one, and the input closed.
    pub open spec fn date_applied(self) -> ReportsState {
        ReportsState {
            editing_date: false,
            date_input: Seq::empty(),
            ..self.on_day(typed_date(self.date_input))
        }
    }

    pub open spec fn after_edit_key(self, key: KeyCode) -> ReportsState {
        match key {
            KeyCode::Esc => ReportsState {
                editing_date: false,
                date_input: Seq::empty(),
                ..self
            },
            KeyCode::Enter => self.date_applied(),
            KeyCode::Backspace => ReportsState {
                date_input: text::without_last(self.date_input),
                ..self
            },
            KeyCode::Char(c) => if input::is_digit(c) || c == '-' || c == '/' {
                ReportsState { date_input: self.date_input.push(c), ..self }
            } else {
                self
            },
            _ => self,
        }
    }

    pub open spec fn after_key(self, key: KeyCode, today: Date) -> ReportsState {
        if self.editing_date {
            self.after_edit_key(key)
        } else {
            match key {
                KeyCode::Left | KeyCode::Char('h') => ReportsState {
                    active_report: self.active_report.preceding(),
                    scroll_offset: 0,
                    ..self
                },
                KeyCode::Right | KeyCode::Char('l') => ReportsState {
                    active_report: self.active_report.following(),
                    scroll_offset: 0,
                    ..self
                },
                KeyCode::Up | KeyCode::Char('k') => ReportsState {
                    scroll_offset: if self.scroll_offset > 0 {
                        self.scroll_offset - 1
                    } else {
                        0
                    },
                    ..self
                },
                KeyCode::Down | KeyCode::Char('j') => ReportsState {
                    scroll_offset: if self.scroll_offset < usize::MAX {
                        self.scroll_offset + 1
                    } else {
                        self.scroll_offset
                    },
                    ..self
                },
                KeyCode::Char('[') => self.on_day(self.report_date.preceding()),
                KeyCode::Char(']') => self.on_day(self.report_date.following()),
                KeyCode::Char('t') => self.on_day(Some(today)),
                KeyCode::Char('d') => self.date_edited(),
                KeyCode::Char('+') | KeyCode::Char('=') => self.deeper(),
                KeyCode::Char('-') => self.shallower(),
                _ => self,
            }
        }
    }
}

/// Going a day back and a day forward again, away from the ends of the
/// calendar, asks for the same day.
pub proof fn days_step_back_and_forth(s: ReportsState, today: Date)
    requires
        s.wf(),
        !s.editing_date,
        s.report_date.preceding() is Some,
    ensures
        s.after_key(KeyCode::Char('['), today).after_key(KeyCode::Char(']'), today).report_date
            == s.report_date,
{
    date::days_are_linked(s.report_date);
}

/// Keys other than Enter never change the day while a day is typed.
pub proof fn typing_a_date_keeps_the_day(s: ReportsState, key: KeyCode, today: Date)
    requires
        s.editing_date,
        key != KeyCode::Enter,
    ensures
        s.after_key(key, today).report_date == s.report_date,
        s.after_key(key, today).needs_reload == s.needs_reload,
{
}

impl ReportsView {
    /// The reports of today, still empty.
    pub fn new(today: Date) -> (r: Self)
        ensures
            r@ == ReportsState::fresh(today),
    {
        ReportsView {
            active_report: ReportType::TrialBalance,
            trial_balance: Vec::new(),
            balance_sheet: None,
            income_statement: None,
            scroll_offset: 0,
            report_date: today,
            needs_reload: false,
            editing_date: false,
            date_input: String::new(),
            collapse_depth: None,
        }
    }

    /// Moves the report day back by one.
    pub fn previous_day(&mut self)
        requires
            old(self).report_date.valid(),
        ensures
            final(self)@ == old(self)@.on_day(old(self).report_date.preceding()),
    {
        if let Some(prev) = date::previous_day(self.report_date) {
            self.report_date = prev;
            self.needs_reload = true;
        }
    }

    /// Moves the report day forward by one.
    pub fn next_day(&mut self)
        requires
            old(self).report_date.valid(),
        ensures
            final(self)@ == old(self)@.on_day(old(self).report_date.following()),
    {
        if let Some(next) = date::next_day(self.report_date) {
            self.report_date = next;
            self.needs_reload = true;
        }
    }

    /// Takes today as the report day.
    pub fn reset_to_today(&mut self, today: Date)
        ensures
            final(self)@ == old(self)@.on_day(Some(today)),
    {
        self.report_date = today;
        self.needs_reload = true;
    }

    fn increase_depth(&mut self)
        requires
            old(self)@.collapse_depth is Some ==> old(self)@.can_measure(),
        ensures
            final(self)@ == old(self)@.deeper(),
    {
        if let Some(d) = self.collapse_depth {
            let max: usize = self.max_account_depth();
            if d >= max {
                self.collapse_depth = None;
            } else {
                self.collapse_depth = Some(d + 1);
            }
        }
    }

    fn decrease_depth(&mut self)
        requires
            old(self)@.collapse_depth is None ==> old(self)@.can_measure(),
        ensures
            final(self)@ == old(self)@.shallower(),
    {
        match self.collapse_depth {
            None => {
                let max: usize = self.max_account_depth();
                if max > 0 {
                    self.collapse_depth = Some(max);
                }
            },
            Some(d) => {
                if d > 0 {
                    self.collapse_depth = Some(d - 1);
                }
            },
        }
    }

    /// The largest depth in the account tree of the shown report.
    fn max_account_depth(&self) -> (r: usize)
        requires
            self@.can_measure(),
        ensures
            r == self@.max_depth(),
    {
        match self.active_report {
            ReportType::BalanceSheet => match &self.balance_sheet {
                Some(bs) => {
                    let inputs = sheet_inputs(bs);
                    assert(report_tree::nodes(inputs@).len() == inputs@.len());
                    report_tree::compute_max_depth(&inputs)
                },
                None => 0,
            },
            ReportType::IncomeStatement => match &self.income_statement {
                Some(is) => {
                    let inputs = statement_inputs(is);
                    assert(report_tree::nodes(inputs@).len() == inputs@.len());
                    report_tree::compute_max_depth(&inputs)
                },
                None => 0,
            },
            ReportType::TrialBalance => 0,
        }
    }

    fn handle_edit_key(&mut self, key: KeyCode)
        ensures
            final(self)@ == old(self)@.after_edit_key(key),
            old(self)@.wf() ==> final(self)@.wf(),
    {
        match key {
            KeyCode::Esc => {
                self.editing_date = false;
                self.date_input.clear();
            },
            KeyCode::Enter => {
                self.apply_date_input();
            },
            KeyCode::Backspace => {
                self.date_input.pop();
            },
            KeyCode::Char(c) => {
                if input::ascii_digit(c) || c == '-' || c == '/' {
                    self.date_input.push(c);
                }
            },
            _ => {},
        }
    }

    /// Checks that a key can be handled.
    pub fn takes(&self, key: KeyCode) -> (r: bool)
        ensures
            r == self@.can_take(key),
    {
        let measures: bool = !self.editing_date && match key {
            KeyCode::Char('+') | KeyCode::Char('=') => self.collapse_depth.is_some(),
            KeyCode::Char('-') => self.collapse_depth.is_none(),
            _ => false,
        };
        if !measures {
            return true;
        }
        match self.active_report {
            ReportType::BalanceSheet => match &self.balance_sheet {
                Some(bs) => report_tree::is_acyclic(&sheet_inputs(bs)),
                None => true,
            },
            ReportType::IncomeStatement => match &self.income_statement {
                Some(is) => report_tree::is_acyclic(&statement_inputs(is)),
                None => true,
            },
            ReportType::TrialBalance => true,
        }
    }

    /// Checks that the shown report can be drawn.
    pub fn is_drawable(&self) -> (r: bool)
        ensures
            r == self@.can_draw(),
    {
        match self.active_report {
            ReportType::BalanceSheet => match &self.balance_sheet {
                Some(bs) => check_sheet(bs),
                None => true,
            },
            ReportType::IncomeStatement => match &self.income_statement {
                Some(is) => check_statement(is),
                None => true,
            },
            ReportType::TrialBalance => true,
        }
    }

    pub fn handle_key(&mut self, key: KeyCode, today: Date)
        requires
            old(self)@.wf(),
            old(self)@.can_take(key),
            today.valid(),
        ensures
            final(self)@ == old(self)@.after_key(key, today),
            final(self)@.wf(),
    {
        if self.editing_date {
            self.handle_edit_key(key);
            return ;
        }
        proof {
            date::days_are_linked(self.report_date);
        }
        match key {
            KeyCode::Left | KeyCode::Char('h') => {
                self.previous_report();
            },
            KeyCode::Right | KeyCode::Char('l') => {
                self.next_report();
            },
            KeyCode::Up | KeyCode::Char('k') => {
                self.scroll_offset = self.scroll_offset.saturating_sub(1);
            },
            KeyCode::Down | KeyCode::Char('j') => {
                self.scroll_offset = self.scroll_offset.saturating_add(1);
            },
            KeyCode::Char('[') => {
                self.previous_day();
            },
            KeyCode::Char(']') => {
                self.next_day();
            },
            KeyCode::Char('t') => {
                self.reset_to_today(today);
            },
            KeyCode::Char('d') => {
                self.start_date_edit();
            },
            KeyCode::Char('+') | KeyCode::Char('=') => {
                self.increase_depth();
            },
            KeyCode::Char('-') => {
                self.decrease_depth();
            },
            _ => {},
        }
    }

    fn start_date_edit(&mut self)
        ensures
            final(self)@ == old(self)@.date_edited(),
    {
        self.editing_date = true;
        self.date_input = self.report_date.iso_text();
    }

    fn apply_date_input(&mut self)
        ensures
            final(self)@ == old(self)@.date_applied(),
            old(self)@.wf() ==> final(self)@.wf(),
            forall|a: Seq<char>, b: Seq<char>, c: Seq<char>, x: char|
                old(self).date_input@ == #[trigger] date::joined(a, b, c, x) && date::are_numbers(
                    a,
                    b,
                    c,
                    x,
                ) ==> final(self).report_date == (if date::written_day(a, b, c) is Some {
                    date::written_day(a, b, c)->0
                } else if date::written_day(c, a, b) is Some {
                    date::written_day(c, a, b)->0
                } else if date::written_day(c, b, a) is Some {
                    date::written_day(c, b, a)->0
                } else {
                    old(self).report_date
                }),
    {
        let input = text::replace_char(self.date_input.as_str(), '/', '-');
        let typed: Option<Date> = match date::parse_in_format(input.as_str(), "%Y-%m-%d") {
            Some(d) => Some(d),
            None => match date::parse_in_format(input.as_str(), "%m-%d-%Y") {
                Some(d) => Some(d),
                None => date::parse_in_format(input.as_str(), "%d-%m-%Y"),
            },
        };
        assert forall|a: Seq<char>, b: Seq<char>, c: Seq<char>, x: char|
            self.date_input@ == #[trigger] date::joined(a, b, c, x) && date::are_numbers(
                a,
                b,
                c,
                x,
            ) implies typed == (if date::written_day(a, b, c) is Some {
            date::written_day(a, b, c)
        } else if date::written_day(c, a, b) is Some {
            date::written_day(c, a, b)
        } else {
            date::written_day(c, b, a)
        }) by {
            all_dashes(a, b, c, x);
            typed_days_are_read_as_written(self.date_input@, a, b, c, x);
        }
        if let Some(d) = typed {
            self.report_date = d;
            self.needs_reload = true;
        }
        self.editing_date = false;
        self.date_input.clear();
    }

    fn next_report(&mut self)
        ensures
            final(self)@ == (ReportsState {
                active_report: old(self).active_report.following(),
                scroll_offset: 0,
                ..old(self)@
            }),
    {
        let next: usize = (self.active_report.index() + 1) % 3;
        self.active_report = ReportType::from_index(next);
        self.scroll_offset = 0;
    }

    fn previous_report(&mut self)
        ensures
            final(self)@ == (ReportsState {
                active_report: old(self).active_report.preceding(),
                scroll_offset: 0,
                ..old(self)@
            }),
    {
        let index: usize = self.active_report.index();
        let prev: usize = if index == 0 {
            2
        } else {
            index - 1
        };
        self.active_report = ReportType::from_index(prev);
        self.scroll_offset = 0;
    }
}

// ---- drawing ----

/// A table with a title in its border.
pub struct TablePainting {
    pub title: String,
    pub rows: Listing<Row>,
}

/// The meaning of a table.
#[verifier::ext_equal]
pub ghost struct TableView {
    pub title: Seq<char>,
    pub rows: Seq<RowView>,
}

impl View for TablePainting {
    type V = TableView;

    open spec fn view(&self) -> TableView {
        TableView { title: self.title@, rows: self.rows@ }
    }
}

/// What the reports screen shows below its tabs.
pub enum ReportPainting {
    /// A titled message in place of a report.
    Message { title: String, text: String },
    /// A table under a header line.
    Trial { header: Line, table: TablePainting },
    /// Two tables side by side.
    Sheet { left: TablePainting, right: TablePainting },
    Statement { table: TablePainting },
}

/// The line over a sum.
pub const SINGLE_LINE: &'static str = "───────────────";

/// The line under a final sum.
pub const DOUBLE_LINE: &'static str = "═══════════════";

/// A row of texts.
pub open spec fn text_row(cells: Seq<Seq<char>>, style: Style) -> RowView {
    RowView { cells: paint::plain_cells(cells), style }
}

pub open spec fn single_rule() -> RowView {
    text_row(seq![""@, SINGLE_LINE@, SINGLE_LINE@], Style::plain())
}

pub open spec fn double_rule() -> RowView {
    text_row(seq![""@, DOUBLE_LINE@, DOUBLE_LINE@], Style::plain())
}

pub open spec fn empty_row() -> RowView {
    text_row(seq![""@, ""@, ""@], Style::plain())
}

fn push3(rows: &mut Listing<Row>, a: &str, b: &str, c: &str, style: Style)
    ensures
        final(rows)@ == old(rows)@.push(text_row(seq![a@, b@, c@], style)),
{
    let cells = paint::list3(paint::raw(a), paint::raw(b), paint::raw(c));
    assert(cells@ =~= paint::plain_cells(seq![a@, b@, c@]));
    rows.push(paint::row(cells, style));
}

fn push4(rows: &mut Listing<Row>, a: &str, b: &str, c: &str, d: &str, style: Style)
    ensures
        final(rows)@ == old(rows)@.push(text_row(seq![a@, b@, c@, d@], style)),
{
    let cells = paint::list4(paint::raw(a), paint::raw(b), paint::raw(c), paint::raw(d));
    assert(cells@ =~= paint::plain_cells(seq![a@, b@, c@, d@]));
    rows.push(paint::row(cells, style));
}

fn push_single_rule(rows: &mut Listing<Row>)
    ensures
        final(rows)@ == old(rows)@.push(single_rule()),
{
    push3(rows, "", SINGLE_LINE, SINGLE_LINE, Style::plain());
}

fn push_double_rule(rows: &mut Listing<Row>)
    ensures
        final(rows)@ == old(rows)@.push(double_rule()),
{
    push3(rows, "", DOUBLE_LINE, DOUBLE_LINE, Style::plain());
}

fn push_empty_row(rows: &mut Listing<Row>)
    ensures
        final(rows)@ == old(rows)@.push(empty_row()),
{
    push3(rows, "", "", "", Style::plain());
}

/// The area no wider than `max_width`, from the left.
pub open spec fn narrowed(area: Rect, max_width: u16) -> Rect {
    if area.width <= max_width {
        area
    } else {
        Rect { width: max_width, ..area }
    }
}

pub fn constrain_width(area: Rect, max_width: u16) -> (r: Rect)
    ensures
        r == narrowed(area, max_width),
{
    if area.width <= max_width {
        area
    } else {
        Rect { x: area.x, y: area.y, width: max_width, height: area.height }
    }
}

/// A balance as a section shows it: with or without its sign.
pub open spec fn shown_balance(balance: int, absolute: bool) -> Seq<char> {
    widgets::currency(
        if absolute && balance < 0 {
            money::wrap64(-balance)
        } else {
            balance
        },
    )
}

fn show_balance(balance: i64, absolute: bool) -> (r: String)
    ensures
        r@ == shown_balance(balance as int, absolute),
{
    if absolute && balance < 0 {
        widgets::format_currency(money::negated(balance))
    } else {
        widgets::format_currency(balance)
    }
}

/// The table rows of one row of the tree.
pub open spec fn rendered(row: TreeRow, absolute: bool) -> Seq<RowView> {
    match row {
        TreeRow::Account { name, balance, depth, is_last, ancestors } => seq![
            text_row(
                seq![
                    "  "@ + report_tree::tree_prefix(depth, is_last, ancestors) + name,
                    shown_balance(balance, absolute),
                    ""@,
                ],
                Style::plain(),
            ),
        ],
        TreeRow::Header { name, depth, is_last, ancestors } => seq![
            text_row(
                seq![
                    "  "@ + report_tree::tree_prefix(depth, is_last, ancestors) + name,
                    ""@,
                    ""@,
                ],
                theme::bold(),
            ),
        ],
        TreeRow::Subtotal { name, amount, depth } => seq![
            text_row(seq![""@, ""@, SINGLE_LINE@], Style::plain()),
            text_row(
                seq![
                    "  "@ + text::repeated("   "@, depth) + "  Total "@ + name,
                    ""@,
                    shown_balance(amount, absolute),
                ],
                theme::bold(),
            ),
        ],
    }
}

/// The table rows of the rows of a tree.
pub open spec fn rendered_all(rows: Seq<TreeRow>, absolute: bool) -> Seq<RowView>
    decreases rows.len(),
{
    if rows.len() == 0 {
        Seq::empty()
    } else {
        rendered_all(rows.drop_last(), absolute) + rendered(rows.last(), absolute)
    }
}

fn render_row(row: &ReportRow, absolute: bool, out: &mut Listing<Row>)
    ensures
        final(out)@ == old(out)@ + rendered(row@, absolute),
{
    match row {
        ReportRow::Account { name, balance, depth, is_last_child, ancestor_is_last } => {
            let prefix = report_tree::make_tree_prefix(*depth, *is_last_child, ancestor_is_last);
            let label = text::cat3("  ", prefix.as_str(), name.as_str());
            let amount = show_balance(*balance, absolute);
            push3(out, label.as_str(), amount.as_str(), "", Style::plain());
        },
        ReportRow::ParentHeader { name, depth, is_last_child, ancestor_is_last } => {
            let prefix = report_tree::make_tree_prefix(*depth, *is_last_child, ancestor_is_last);
            let label = text::cat3("  ", prefix.as_str(), name.as_str());
            push3(out, label.as_str(), "", "", theme::bold());
        },
        ReportRow::Subtotal { parent_name, amount, depth } => {
            push3(out, "", "", SINGLE_LINE, Style::plain());
            let indent = text::repeat("   ", *depth);
            let label = text::cat4("  ", indent.as_str(), "  Total ", parent_name.as_str());
            let sum = show_balance(*amount, absolute);
            push3(out, label.as_str(), "", sum.as_str(), theme::bold());
        },
    }
    assert(out@ =~= old(out)@ + rendered(row@, absolute));
}

fn render_report_rows(rows: &Vec<ReportRow>, absolute: bool, out: &mut Listing<Row>)
    ensures
        final(out)@ == old(out)@ + rendered_all(report_tree::tree_rows(rows@), absolute),
{
    let ghost all = report_tree::tree_rows(rows@);
    let ghost before = out@;
    let mut i: usize = 0;
    assert(rendered_all(all.take(0), absolute) =~= Seq::<RowView>::empty());
    assert(out@ =~= before + rendered_all(all.take(0), absolute));
    while i < rows.len()
        invariant
            i <= rows@.len(),
            all == report_tree::tree_rows(rows@),
            out@ == before + rendered_all(all.take(i as int), absolute),
        decreases rows@.len() - i,
    {
        render_row(&rows[i], absolute, out);
        proof {
            let upto = all.take(i + 1);
            assert(upto.drop_last() =~= all.take(i as int));
            assert(upto.last() == rows@[i as int]@);
            assert(out@ =~= before + rendered_all(upto, absolute));
        }
        i = i + 1;
    }
    assert(all.take(i as int) =~= all);
}

/// The rows of a section of a report.
pub open spec fn section_rows(
    t: Seq<TreeNode>,
    limit: Option<usize>,
    absolute: bool,
) -> Seq<RowView> {
    rendered_all(report_tree::report_rows(t, limit), absolute)
}

fn push_section(inputs: &Vec<TreeInput>, limit: Option<usize>, absolute: bool, out: &mut Listing<
    Row,
>)
    requires
        report_tree::acyclic(report_tree::nodes(inputs@)),
    ensures
        final(out)@ == old(out)@ + section_rows(report_tree::nodes(inputs@), limit, absolute),
{
    let rows = report_tree::build_report_rows(inputs, limit);
    render_report_rows(&rows, absolute, out);
}

/// A heading over a section and a blank row.
pub open spec fn headed(rows: Seq<RowView>, title: Seq<char>, style: Style) -> Seq<RowView> {
    rows.push(text_row(seq![title, ""@, ""@], style)).push(empty_row())
}

/// A sum between a line above and one below.
pub open spec fn summed(
    rows: Seq<RowView>,
    label: Seq<char>,
    amount: Seq<char>,
    style: Style,
    rule: RowView,
) -> Seq<RowView> {
    rows.push(single_rule()).push(text_row(seq![label, ""@, amount], style)).push(rule)
}

fn push_heading(rows: &mut Listing<Row>, title: &str, style: Style)
    ensures
        final(rows)@ == headed(old(rows)@, title@, style),
{
    push3(rows, title, "", "", style);
    push_empty_row(rows);
}

fn push_sum(rows: &mut Listing<Row>, label: &str, amount: &str, style: Style)
    ensures
        final(rows)@ == summed(old(rows)@, label@, amount@, style, single_rule()),
{
    push_single_rule(rows);
    push3(rows, label, "", amount, style);
    push_single_rule(rows);
}

fn push_final_sum(rows: &mut Listing<Row>, label: &str, amount: &str, style: Style)
    ensures
        final(rows)@ == summed(old(rows)@, label@, amount@, style, double_rule()),
{
    push_single_rule(rows);
    push3(rows, label, "", amount, style);
    push_double_rule(rows);
}

pub open spec fn optional_amount(a: Option<i64>) -> Seq<char> {
    match a {
        Some(x) => widgets::currency(x as int),
        None => Seq::empty(),
    }
}

fn show_optional(a: Option<i64>) -> (r: String)
    ensures
        r@ == optional_amount(a),
{
    match a {
        Some(x) => widgets::format_currency(x),
        None => String::new(),
    }
}

pub open spec fn or_zero(a: Option<i64>) -> int {
    match a {
        Some(x) => x as int,
        None => 0,
    }
}

/// The sum of the debits of the first `n` lines.
pub open spec fn debits(v: Seq<TrialBalanceLine>, n: nat) -> int
    decreases n,
{
    if n == 0 {
        0
    } else {
        debits(v, (n - 1) as nat) + or_zero(v[n - 1].debit)
    }
}

/// The sum of the credits of the first `n` lines.
pub open spec fn credits(v: Seq<TrialBalanceLine>, n: nat) -> int
    decreases n,
{
    if n == 0 {
        0
    } else {
        credits(v, (n - 1) as nat) + or_zero(v[n - 1].credit)
    }
}

pub open spec fn trial_row(l: TrialBalanceLine) -> RowView {
    text_row(
        seq![
            l.account_number@,
            l.account_name@,
            optional_amount(l.debit),
            optional_amount(l.credit),
        ],
        Style::plain(),
    )
}

/// The title in the border while a day is typed.
pub open spec fn typing_title(input: Seq<char>) -> Seq<char> {
    " Enter date: "@ + input + "▏ (Enter/Esc) "@
}

/// How deep the tree is shown.
pub open spec fn depth_label(limit: Option<usize>) -> Seq<char> {
    match limit {
        None => "all"@,
        Some(d) => text::decimal(d as nat),
    }
}

pub open spec fn depth_hint(limit: Option<usize>) -> Seq<char> {
    "depth: "@ + depth_label(limit) + " (+/-)"@
}

impl ReportsState {
    pub open spec fn total_debits(self) -> int {
        money::wrap64(debits(self.trial_balance, self.trial_balance.len()))
    }

    pub open spec fn total_credits(self) -> int {
        money::wrap64(credits(self.trial_balance, self.trial_balance.len()))
    }

    /// The lines of the trial balance from the first shown one on, and the
    /// totals of all lines.
    pub open spec fn trial_table(self) -> TableView {
        let n = self.trial_balance.len();
        let first = if self.scroll_offset < n {
            self.scroll_offset
        } else {
            n as int
        };
        TableView {
            title: " Trial Balance - "@ + (if self.total_debits() == self.total_credits() {
                "BALANCED"@
            } else {
                "OUT OF BALANCE"@
            }) + " "@,
            rows: self.trial_balance.skip(first).map_values(|l: TrialBalanceLine| trial_row(l))
                + seq![
                text_row(seq![""@, ""@, SINGLE_LINE@, SINGLE_LINE@], Style::plain()),
                text_row(
                    seq![
                        ""@,
                        "Totals"@,
                        widgets::currency(self.total_debits()),
                        widgets::currency(self.total_credits()),
                    ],
                    theme::bold(),
                ),
                text_row(seq![""@, ""@, DOUBLE_LINE@, DOUBLE_LINE@], Style::plain()),
            ],
        }
    }

    pub open spec fn assets_table(self, bs: BalanceSheet) -> TableView {
        TableView {
            title: if self.editing_date {
                typing_title(self.date_input)
            } else {
                " Assets (as of "@ + bs.as_of_date.iso() + ") [/]: nav, d: date, t: today, "@
                    + depth_hint(self.collapse_depth) + " "@
            },
            rows: summed(
                headed(Seq::empty(), "ASSETS"@, theme::bold()) + section_rows(
                    report_tree::sheet_nodes(bs.assets.lines@),
                    self.collapse_depth,
                    false,
                ),
                "Total Assets"@,
                widgets::currency(bs.total_assets as int),
                theme::bold(),
                double_rule(),
            ),
        }
    }

    /// The rows of the liabilities section.
    pub open spec fn liability_rows(self, bs: BalanceSheet) -> Seq<RowView> {
        summed(
            headed(Seq::empty(), "LIABILITIES"@, theme::bold()) + section_rows(
                report_tree::sheet_nodes(bs.liabilities.lines@),
                self.collapse_depth,
                true,
            ),
            "Total Liabilities"@,
            widgets::currency(bs.liabilities.total as int),
            theme::bold(),
            single_rule(),
        )
    }

    /// The rows of the equity section behind those of the liabilities.
    pub open spec fn equity_rows(self, bs: BalanceSheet) -> Seq<RowView> {
        summed(
            headed(self.liability_rows(bs).push(empty_row()), "EQUITY"@, theme::bold())
                + section_rows(
                report_tree::sheet_nodes(bs.equity.lines@),
                self.collapse_depth,
                true,
            ),
            "Total Equity"@,
            widgets::currency(bs.equity.total as int),
            theme::bold(),
            single_rule(),
        )
    }

    pub open spec fn claims_table(self, bs: BalanceSheet, theme: Theme) -> TableView {
        TableView {
            title: " Liabilities & Equity "@,
            rows: summed(
                self.equity_rows(bs).push(empty_row()),
                "Total L+E"@,
                widgets::currency(bs.total_liabilities_and_equity as int),
                theme::bold_colored(theme.header),
                double_rule(),
            ),
        }
    }

    pub open spec fn revenue_rows(self, is: IncomeStatement, theme: Theme) -> Seq<RowView> {
        summed(
            headed(Seq::empty(), "REVENUE"@, theme::bold_colored(theme.success)) + section_rows(
                report_tree::statement_nodes(is.revenue.lines@),
                self.collapse_depth,
                false,
            ),
            "Total Revenue"@,
            widgets::currency(is.revenue.total as int),
            theme::bold(),
            single_rule(),
        )
    }

    pub open spec fn expense_rows(self, is: IncomeStatement, theme: Theme) -> Seq<RowView> {
        summed(
            headed(
                self.revenue_rows(is, theme).push(empty_row()),
                "EXPENSES"@,
                theme::bold_colored(theme.error),
            ) + section_rows(
                report_tree::statement_nodes(is.expenses.lines@),
                self.collapse_depth,
                false,
            ),
            "Total Expenses"@,
            widgets::currency(is.expenses.total as int),
            theme::bold(),
            single_rule(),
        )
    }

    pub open spec fn income_table(self, is: IncomeStatement, theme: Theme) -> TableView {
        TableView {
            title: if self.editing_date {
                typing_title(self.date_input)
            } else {
                " Income Statement ("@ + is.start_date.iso() + " to "@ + is.end_date.iso()
                    + ") [/]: nav, d: date, "@ + depth_hint(self.collapse_depth) + " "@
            },
            rows: summed(
                self.expense_rows(is, theme).push(empty_row()),
                "NET INCOME"@,
                net_income_text(is.net_income as int),
                theme::bold_colored(
                    if is.net_income >= 0 {
                        theme.success
                    } else {
                        theme.error
                    },
                ),
                double_rule(),
            ),
        }
    }
}

pub open spec fn net_income_text(net: int) -> Seq<char> {
    if net >= 0 {
        widgets::currency(net)
    } else {
        "("@ + widgets::currency(money::wrap64(-net)) + ") LOSS"@
    }
}

/// Whether a row has a label in its first column and an amount in its last.
pub open spec fn totals_row(row: RowView, label: Seq<char>, amount: Seq<char>) -> bool {
    row.cells.len() == 3 && row.cells[0].0 == label && row.cells[1].0 == ""@ && row.cells[2].0
        == amount
}

/// The balance sheet lists the assets and ends in their total. Beside them it
/// lists the liabilities above their total, the equity above its total, and
/// ends in the total of both.
pub proof fn sheet_sections_have_their_totals(s: ReportsState, bs: BalanceSheet, theme: Theme)
    ensures
        ({
            let left = s.assets_table(bs).rows;
            let right = s.claims_table(bs, theme).rows;
            let a = section_rows(
                report_tree::sheet_nodes(bs.assets.lines@),
                s.collapse_depth,
                false,
            );
            let l = section_rows(
                report_tree::sheet_nodes(bs.liabilities.lines@),
                s.collapse_depth,
                true,
            );
            let e = section_rows(
                report_tree::sheet_nodes(bs.equity.lines@),
                s.collapse_depth,
                true,
            );
            let k = a.len() as int;
            let n = l.len() as int;
            let m = n + e.len();
            &&& left.len() == k + 5
            &&& totals_row(left[0], "ASSETS"@, ""@)
            &&& left.subrange(2, 2 + k) == a
            &&& totals_row(
                left[k + 3],
                "Total Assets"@,
                widgets::currency(bs.total_assets as int),
            )
            &&& right.len() == m + 15
            &&& totals_row(right[0], "LIABILITIES"@, ""@)
            &&& right.subrange(2, 2 + n) == l
            &&& totals_row(
                right[n + 3],
                "Total Liabilities"@,
                widgets::currency(bs.liabilities.total as int),
            )
            &&& totals_row(right[n + 6], "EQUITY"@, ""@)
            &&& right.subrange(n + 8, m + 8) == e
            &&& totals_row(
                right[m + 9],
                "Total Equity"@,
                widgets::currency(bs.equity.total as int),
            )
            &&& totals_row(
                right[m + 13],
                "Total L+E"@,
                widgets::currency(bs.total_liabilities_and_equity as int),
            )
        }),
{
    let left = s.assets_table(bs).rows;
    let right = s.claims_table(bs, theme).rows;
    let a = section_rows(report_tree::sheet_nodes(bs.assets.lines@), s.collapse_depth, false);
    let l = section_rows(report_tree::sheet_nodes(bs.liabilities.lines@), s.collapse_depth, true);
    let e = section_rows(report_tree::sheet_nodes(bs.equity.lines@), s.collapse_depth, true);
    let k = a.len() as int;
    let n = l.len() as int;
    let m = n + e.len();
    assert(left.subrange(2, 2 + k) =~= a);
    assert(right.subrange(2, 2 + n) =~= l);
    assert(right.subrange(n + 8, m + 8) =~= e);
}

/// The income statement lists the revenue above its total and the expenses
/// above theirs, and ends in the net income; a loss is shown without its sign,
/// in parentheses.
pub proof fn statement_sections_have_their_totals(
    s: ReportsState,
    is: IncomeStatement,
    theme: Theme,
)
    ensures
        ({
            let rows = s.income_table(is, theme).rows;
            let r = section_rows(
                report_tree::statement_nodes(is.revenue.lines@),
                s.collapse_depth,
                false,
            );
            let e = section_rows(
                report_tree::statement_nodes(is.expenses.lines@),
                s.collapse_depth,
                false,
            );
            let n = r.len() as int;
            let m = n + e.len();
            &&& rows.len() == m + 15
            &&& totals_row(rows[0], "REVENUE"@, ""@)
            &&& rows.subrange(2, 2 + n) == r
            &&& totals_row(
                rows[n + 3],
                "Total Revenue"@,
                widgets::currency(is.revenue.total as int),
            )
            &&& totals_row(rows[n + 6], "EXPENSES"@, ""@)
            &&& rows.subrange(n + 8, m + 8) == e
            &&& totals_row(
                rows[m + 9],
                "Total Expenses"@,
                widgets::currency(is.expenses.total as int),
            )
            &&& is.net_income >= 0 ==> totals_row(
                rows[m + 13],
                "NET INCOME"@,
                widgets::currency(is.net_income as int),
            )
            &&& i64::MIN < is.net_income < 0 ==> totals_row(
                rows[m + 13],
                "NET INCOME"@,
                "("@ + widgets::currency(-is.net_income) + ") LOSS"@,
            )
        }),
{
    let rows = s.income_table(is, theme).rows;
    let r = section_rows(
        report_tree::statement_nodes(is.revenue.lines@),
        s.collapse_depth,
        false,
    );
    let e = section_rows(
        report_tree::statement_nodes(is.expenses.lines@),
        s.collapse_depth,
        false,
    );
    let n = r.len() as int;
    let m = n + e.len();
    assert(rows.subrange(2, 2 + n) =~= r);
    assert(rows.subrange(n + 8, m + 8) =~= e);
}

/// An account shows its balance in the middle column and a subtotal its amount
/// in the last one. Sections of accounts that live on the credit side leave the
/// sign out.
pub proof fn amounts_stand_in_their_column(row: TreeRow, absolute: bool)
    ensures
        row matches TreeRow::Account { balance, .. } ==> {
            let cells = rendered(row, absolute)[0].cells;
            &&& rendered(row, absolute).len() == 1
            &&& cells.len() == 3
            &&& !absolute || balance >= 0 ==> cells[1].0 == widgets::currency(balance)
            &&& absolute && i64::MIN < balance < 0 ==> cells[1].0 == widgets::currency(-balance)
            &&& cells[2].0 == ""@
        },
        row matches TreeRow::Subtotal { amount, .. } ==> {
            let cells = rendered(row, absolute)[1].cells;
            &&& rendered(row, absolute).len() == 2
            &&& cells.len() == 3
            &&& cells[1].0 == ""@
            &&& !absolute || amount >= 0 ==> cells[2].0 == widgets::currency(amount)
            &&& absolute && i64::MIN < amount < 0 ==> cells[2].0 == widgets::currency(-amount)
        },
        row matches TreeRow::Header { .. } ==> rendered(row, absolute).len() == 1 && rendered(
            row,
            absolute,
        )[0].cells[1].0 == ""@ && rendered(row, absolute)[0].cells[2].0 == ""@,
{
}

/// The books are in balance as far as the trial balance shows exactly if it
/// is titled so.
pub proof fn balanced_title_is_true(s: ReportsState)
    ensures
        s.total_debits() == s.total_credits() <==> s.trial_table().title == " Trial Balance - "@
            + "BALANCED"@ + " "@,
{
    reveal_strlit(" Trial Balance - ");
    reveal_strlit("BALANCED");
    reveal_strlit("OUT OF BALANCE");
    reveal_strlit(" ");
    let a = " Trial Balance - "@ + "BALANCED"@ + " "@;
    let b = " Trial Balance - "@ + "OUT OF BALANCE"@ + " "@;
    assert(a.len() != b.len());
}

proof fn columns_by_heading(row: RowView, cells: Seq<Seq<char>>)
    requires
        cells.len() == 4,
        row.cells == paint::plain_cells(cells),
    ensures
        ({
            let headings = paint::plain_cells(seq!["Number"@, "Account"@, "Debit"@, "Credit"@]);
            &&& paint::shows_under(headings, row, "Number"@, cells[0])
            &&& paint::shows_under(headings, row, "Account"@, cells[1])
            &&& paint::shows_under(headings, row, "Debit"@, cells[2])
            &&& paint::shows_under(headings, row, "Credit"@, cells[3])
        }),
{
    reveal_strlit("Number");
    reveal_strlit("Account");
    reveal_strlit("Debit");
    reveal_strlit("Credit");
    let headings = paint::plain_cells(seq!["Number"@, "Account"@, "Debit"@, "Credit"@]);
    assert(headings[0].0 == "Number"@ && headings[1].0 == "Account"@ && headings[2].0 == "Debit"@
        && headings[3].0 == "Credit"@);
    assert("Number"@[0] == 'N' && "Account"@[0] == 'A' && "Debit"@[0] == 'D' && "Credit"@[0]
        == 'C');
    assert(row.cells[0].0 == cells[0] && row.cells[1].0 == cells[1] && row.cells[2].0 == cells[2]
        && row.cells[3].0 == cells[3]);
}

proof fn sides_by_field(lines: Seq<TrialBalanceLine>, n: nat)
    ensures
        debits(lines, n) == lists::sum_at(
            n,
            |i: int|
                match lines[i].debit {
                    Some(x) => x as int,
                    None => 0,
                },
        ),
        credits(lines, n) == lists::sum_at(
            n,
            |i: int|
                match lines[i].credit {
                    Some(x) => x as int,
                    None => 0,
                },
        ),
    decreases n,
{
    if n > 0 {
        sides_by_field(lines, (n - 1) as nat);
    }
}

/// Every row of the trial balance shows the number and the name of its account,
/// the debit under the heading for debits and the credit under the one for
/// credits; a side without an amount is left empty. The rows are those of the
/// lines from the first shown one on, and beneath them each column has the sum
/// of that side over all lines.
pub proof fn trial_columns_match_their_headings(s: ReportsState)
    requires
        s.scroll_offset >= 0,
    ensures
        ({
            let headings = paint::plain_cells(seq!["Number"@, "Account"@, "Debit"@, "Credit"@]);
            let rows = s.trial_table().rows;
            let lines = s.trial_balance;
            let first = if s.scroll_offset < lines.len() {
                s.scroll_offset
            } else {
                lines.len() as int
            };
            &&& rows.len() == lines.len() - first + 3
            &&& forall|i: int|
                first <= i < lines.len() ==> {
                    let row = rows[i - first];
                    let line = #[trigger] lines[i];
                    &&& paint::shows_under(headings, row, "Number"@, line.account_number@)
                    &&& paint::shows_under(headings, row, "Account"@, line.account_name@)
                    &&& line.debit matches Some(x) ==> paint::shows_under(
                        headings,
                        row,
                        "Debit"@,
                        widgets::currency(x as int),
                    )
                    &&& line.debit is None ==> paint::shows_under(headings, row, "Debit"@, Seq::empty())
                    &&& line.credit matches Some(x) ==> paint::shows_under(
                        headings,
                        row,
                        "Credit"@,
                        widgets::currency(x as int),
                    )
                    &&& line.credit is None ==> paint::shows_under(headings, row, "Credit"@, Seq::empty())
                }
            &&& paint::shows_under(
                headings,
                rows[rows.len() - 2],
                "Debit"@,
                widgets::currency(
                    money::wrap64(
                        lists::sum_at(
                            lines.len(),
                            |i: int|
                                match lines[i].debit {
                                    Some(x) => x as int,
                                    None => 0,
                                },
                        ),
                    ),
                ),
            )
            &&& paint::shows_under(
                headings,
                rows[rows.len() - 2],
                "Credit"@,
                widgets::currency(
                    money::wrap64(
                        lists::sum_at(
                            lines.len(),
                            |i: int|
                                match lines[i].credit {
                                    Some(x) => x as int,
                                    None => 0,
                                },
                        ),
                    ),
                ),
            )
        }),
{
    let rows = s.trial_table().rows;
    let lines = s.trial_balance;
    let n = lines.len() as int;
    let first = if s.scroll_offset < n {
        s.scroll_offset
    } else {
        n
    };
    sides_by_field(lines, lines.len());
    assert(rows.len() == n - first + 3);
    assert forall|i: int| first <= i < n implies rows[i - first] == trial_row(
        #[trigger] lines[i],
    ) by {
        assert(lines.skip(first)[i - first] == lines[i]);
    }
    assert forall|i: int| first <= i < n implies ({
        let headings = paint::plain_cells(seq!["Number"@, "Account"@, "Debit"@, "Credit"@]);
        let row = rows[i - first];
        let line = #[trigger] lines[i];
        &&& paint::shows_under(headings, row, "Number"@, line.account_number@)
        &&& paint::shows_under(headings, row, "Account"@, line.account_name@)
        &&& paint::shows_under(headings, row, "Debit"@, optional_amount(line.debit))
        &&& paint::shows_under(headings, row, "Credit"@, optional_amount(line.credit))
    }) by {
        let line = lines[i];
        columns_by_heading(
            rows[i - first],
            seq![
                line.account_number@,
                line.account_name@,
                optional_amount(line.debit),
                optional_amount(line.credit),
            ],
        );
    }
    columns_by_heading(
        rows[rows.len() - 2],
        seq![
            ""@,
            "Totals"@,
            widgets::currency(s.total_debits()),
            widgets::currency(s.total_credits()),
        ],
    );
}

impl ReportsView {
    fn sum_debits(&self) -> (r: i64)
        ensures
            r == self@.total_debits(),
    {
        let mut sum: i64 = 0;
        let mut i: usize = 0;
        while i < self.trial_balance.len()
            invariant
                i <= self.trial_balance@.len(),
                sum == money::wrap64(debits(self.trial_balance@, i as nat)),
            decreases self.trial_balance@.len() - i,
        {
            let x: i64 = match self.trial_balance[i].debit {
                Some(d) => d,
                None => 0,
            };
            proof {
                money::wrapping_is_uniform(debits(self.trial_balance@, i as nat), x as int);
            }
            sum = money::plus(sum, x);
            i = i + 1;
        }
        sum
    }

    fn sum_credits(&self) -> (r: i64)
        ensures
            r == self@.total_credits(),
    {
        let mut sum: i64 = 0;
        let mut i: usize = 0;
        while i < self.trial_balance.len()
            invariant
                i <= self.trial_balance@.len(),
                sum == money::wrap64(credits(self.trial_balance@, i as nat)),
            decreases self.trial_balance@.len() - i,
        {
            let x: i64 = match self.trial_balance[i].credit {
                Some(d) => d,
                None => 0,
            };
            proof {
                money::wrapping_is_uniform(credits(self.trial_balance@, i as nat), x as int);
            }
            sum = money::plus(sum, x);
            i = i + 1;
        }
        sum
    }

    fn draw_trial_balance(&self) -> (r: TablePainting)
        ensures
            r@ == self@.trial_table(),
    {
        let n: usize = self.trial_balance.len();
        let first: usize = if self.scroll_offset < n {
            self.scroll_offset
        } else {
            n
        };
        let mut rows: Listing<Row> = Listing::new();
        let ghost shown = self.trial_balance@.skip(first as int);
        let ghost f = |l: TrialBalanceLine| trial_row(l);
        let mut i: usize = first;
        while i < n
            invariant
                first <= i <= n,
                n == self.trial_balance@.len(),
                shown == self.trial_balance@.skip(first as int),
                f == (|l: TrialBalanceLine| trial_row(l)),
                rows@ =~= shown.take(i - first).map_values(f),
            decreases n - i,
        {
            let l = &self.trial_balance[i];
            let debit = show_optional(l.debit);
            let credit = show_optional(l.credit);
            push4(
                &mut rows,
                l.account_number.as_str(),
                l.account_name.as_str(),
                debit.as_str(),
                credit.as_str(),
                Style::plain(),
            );
            assert(shown[i - first] == *l);
            i = i + 1;
        }
        assert(shown.take(n - first) =~= shown);
        let d: i64 = self.sum_debits();
        let c: i64 = self.sum_credits();
        let total_debits = widgets::format_currency(d);
        let total_credits = widgets::format_currency(c);
        push4(&mut rows, "", "", SINGLE_LINE, SINGLE_LINE, Style::plain());
        push4(
            &mut rows,
            "",
            "Totals",
            total_debits.as_str(),
            total_credits.as_str(),
            theme::bold(),
        );
        push4(&mut rows, "", "", DOUBLE_LINE, DOUBLE_LINE, Style::plain());
        let label = if d == c {
            "BALANCED"
        } else {
            "OUT OF BALANCE"
        };
        assert(rows@ =~= self@.trial_table().rows);
        TablePainting { title: text::cat3(" Trial Balance - ", label, " "), rows }
    }

    fn typing(&self) -> (r: String)
        ensures
            r@ == typing_title(self.date_input@),
    {
        text::cat3(" Enter date: ", self.date_input.as_str(), "▏ (Enter/Esc) ")
    }

    fn depth_note(&self) -> (r: String)
        ensures
            r@ == depth_hint(self.collapse_depth),
    {
        let label = self.collapse_depth_label();
        text::cat3("depth: ", label.as_str(), " (+/-)")
    }

    fn collapse_depth_label(&self) -> (r: String)
        ensures
            r@ == depth_label(self.collapse_depth),
    {
        match self.collapse_depth {
            None => text::owned("all"),
            Some(d) => text::count(d),
        }
    }

    fn draw_assets(&self, bs: &BalanceSheet) -> (r: TablePainting)
        requires
            sheet_ok(*bs),
        ensures
            r@ == self@.assets_table(*bs),
    {
        let mut rows: Listing<Row> = Listing::new();
        push_heading(&mut rows, "ASSETS", theme::bold());
        let inputs = report_tree::bs_to_inputs(&bs.assets.lines);
        push_section(&inputs, self.collapse_depth, false, &mut rows);
        let total = widgets::format_currency(bs.total_assets);
        push_final_sum(&mut rows, "Total Assets", total.as_str(), theme::bold());
        let title = if self.editing_date {
            self.typing()
        } else {
            let day = bs.as_of_date.iso_text();
            let depth = self.depth_note();
            text::cat5(
                " Assets (as of ",
                day.as_str(),
                ") [/]: nav, d: date, t: today, ",
                depth.as_str(),
                " ",
            )
        };
        TablePainting { title, rows }
    }

    fn draw_claims(&self, bs: &BalanceSheet, theme: &Theme) -> (r: TablePainting)
        requires
            sheet_ok(*bs),
        ensures
            r@ == self@.claims_table(*bs, *theme),
    {
        let mut rows: Listing<Row> = Listing::new();
        push_heading(&mut rows, "LIABILITIES", theme::bold());
        let liabilities = report_tree::bs_to_inputs(&bs.liabilities.lines);
        push_section(&liabilities, self.collapse_depth, true, &mut rows);
        let total = widgets::format_currency(bs.liabilities.total);
        push_sum(&mut rows, "Total Liabilities", total.as_str(), theme::bold());
        assert(rows@ == self@.liability_rows(*bs));
        push_empty_row(&mut rows);
        push_heading(&mut rows, "EQUITY", theme::bold());
        let equity = report_tree::bs_to_inputs(&bs.equity.lines);
        push_section(&equity, self.collapse_depth, true, &mut rows);
        let total = widgets::format_currency(bs.equity.total);
        push_sum(&mut rows, "Total Equity", total.as_str(), theme::bold());
        assert(rows@ == self@.equity_rows(*bs));
        push_empty_row(&mut rows);
        let total = widgets::format_currency(bs.total_liabilities_and_equity);
        push_final_sum(&mut rows, "Total L+E", total.as_str(), theme::bold_colored(theme.header));
        TablePainting { title: text::owned(" Liabilities & Equity "), rows }
    }

    fn draw_income(&self, is: &IncomeStatement, theme: &Theme) -> (r: TablePainting)
        requires
            statement_ok(*is),
        ensures
            r@ == self@.income_table(*is, *theme),
    {
        let mut rows: Listing<Row> = Listing::new();
        push_heading(&mut rows, "REVENUE", theme::bold_colored(theme.success));
        let revenue = report_tree::is_to_inputs(&is.revenue.lines);
        push_section(&revenue, self.collapse_depth, false, &mut rows);
        let total = widgets::format_currency(is.revenue.total);
        push_sum(&mut rows, "Total Revenue", total.as_str(), theme::bold());
        assert(rows@ == self@.revenue_rows(*is, *theme));
        push_empty_row(&mut rows);
        push_heading(&mut rows, "EXPENSES", theme::bold_colored(theme.error));
        let expenses = report_tree::is_to_inputs(&is.expenses.lines);
        push_section(&expenses, self.collapse_depth, false, &mut rows);
        let total = widgets::format_currency(is.expenses.total);
        push_sum(&mut rows, "Total Expenses", total.as_str(), theme::bold());
        assert(rows@ == self@.expense_rows(*is, *theme));
        push_empty_row(&mut rows);
        let net = if is.net_income >= 0 {
            widgets::format_currency(is.net_income)
        } else {
            let loss = widgets::format_currency(money::negated(is.net_income));
            text::cat3("(", loss.as_str(), ") LOSS")
        };
        let color = if is.net_income >= 0 {
            theme.success
        } else {
            theme.error
        };
        push_final_sum(&mut rows, "NET INCOME", net.as_str(), theme::bold_colored(color));
        let title = if self.editing_date {
            self.typing()
        } else {
            let start = is.start_date.iso_text();
            let end = is.end_date.iso_text();
            let depth = self.depth_note();
            let mut out = text::cat5(
                " Income Statement (",
                start.as_str(),
                " to ",
                end.as_str(),
                ") [/]: nav, d: date, ",
            );
            out.append(depth.as_str());
            out.append(" ");
            out
        };
        TablePainting { title, rows }
    }

    /// Draws the active report.
    pub fn draw(&self, theme: &Theme) -> (r: ReportPainting)
        requires
            self@.can_draw(),
        ensures
            match self.active_report {
                ReportType::TrialBalance => r matches ReportPainting::Trial { header, table }
                    && header@ == paint::plain_cells(
                    seq!["Number"@, "Account"@, "Debit"@, "Credit"@],
                ) && table@ == self@.trial_table(),
                ReportType::BalanceSheet => match self.balance_sheet {
                    Some(bs) => r matches ReportPainting::Sheet { left, right } && left@
                        == self@.assets_table(bs) && right@ == self@.claims_table(bs, *theme),
                    None => r matches ReportPainting::Message { title, text } && title@
                        == " Balance Sheet "@ && text@ == "No balance sheet data available"@,
                },
                ReportType::IncomeStatement => match self.income_statement {
                    Some(is) => r matches ReportPainting::Statement { table } && table@
                        == self@.income_table(is, *theme),
                    None => r matches ReportPainting::Message { title, text } && title@
                        == " Income Statement "@ && text@ == "No income statement data available"@,
                },
            },
    {
        match self.active_report {
            ReportType::TrialBalance => {
                let header = paint::list4(
                    paint::raw("Number"),
                    paint::raw("Account"),
                    paint::raw("Debit"),
                    paint::raw("Credit"),
                );
                assert(header@ =~= paint::plain_cells(
                    seq!["Number"@, "Account"@, "Debit"@, "Credit"@],
                ));
                ReportPainting::Trial { header, table: self.draw_trial_balance() }
            },
            ReportType::BalanceSheet => match &self.balance_sheet {
                Some(bs) => ReportPainting::Sheet {
                    left: self.draw_assets(bs),
                    right: self.draw_claims(bs, theme),
                },
                None => ReportPainting::Message {
                    title: text::owned(" Balance Sheet "),
                    text: text::owned("No balance sheet data available"),
                },
            },
            ReportType::IncomeStatement => match &self.income_statement {
                Some(is) => ReportPainting::Statement { table: self.draw_income(is, theme) },
                None => ReportPainting::Message {
                    title: text::owned(" Income Statement "),
                    text: text::owned("No income statement data available"),
                },
            },
        }
    }
}

} // verus!
