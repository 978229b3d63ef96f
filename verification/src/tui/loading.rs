//! What the screens get from the books after a change.

use vstd::prelude::*;

use crate::collections::TextMap;
use crate::date;
use crate::date::Date;
use crate::domain;
use crate::domain::Account;
use crate::money;
use crate::queries::{
    AccountBalance,
    BalanceSheet,
    EntrySearchResult,
    IncomeStatement,
    TrialBalanceLine,
};
use crate::text;
use crate::tui::app::{App, AppState};
use crate::tui::views::accounts;
use crate::tui::views::accounts::PlaidMapping;
use crate::tui::views::bank_import;
use crate::tui::views::bank_import::PendingImport;
use crate::tui::views::entry_detail::{EntryDetail, EntryLineDetail};
use crate::tui::views::event_log;
use crate::tui::views::event_log::StoredEvent;
use crate::tui::views::journal;
use crate::tui::views::plaid::PlaidItemDisplay;
use crate::tui::views::plaid_link;
use crate::tui::views::plaid_link::{CurrentMapping, PlaidAccountOption};
use crate::tui::views::plaid_staged;
use crate::tui::views::plaid_staged::{
    ConfidenceLevel,
    StagedTransactionDisplay,
    TransferCandidateDisplay,
};
use crate::tui::views::report_tree;
use crate::tui::views::reports;

verus! {

/// What was loaded from the books. What could not be loaded is missing, and the
/// screens keep what they had.
pub struct LoadedData {
    pub accounts: Option<Vec<Account>>,
    pub balances: Option<Vec<AccountBalance>>,
    pub trial_balance: Option<Vec<TrialBalanceLine>>,
    pub balance_sheet: Option<BalanceSheet>,
    pub income_statement: Option<IncomeStatement>,
    pub entries: Vec<EntrySearchResult>,
    pub events: Option<Vec<StoredEvent>>,
    pub plaid_mappings: Vec<PlaidMapping>,
    pub plaid_items: Vec<PlaidItemDisplay>,
    /// How many transactions and how many transfers are staged.
    pub staged_counts: Option<(usize, usize)>,
    pub imports: Vec<PendingImport>,
    /// The account of each bank.
    pub bank_accounts: TextMap,
}

impl LoadedData {
    /// The accounts can be shown as a tree.
    pub open spec fn wf(self) -> bool {
        self.accounts is Some ==> accounts_ok(self.accounts->0@)
    }
}

/// Whether accounts can be shown as a chart.
pub open spec fn accounts_ok(v: Seq<Account>) -> bool {
    report_tree::walkable(accounts::account_nodes(v)) && v.len() < usize::MAX
}

impl AppState {
    pub open spec fn with_accounts(self, v: Option<Seq<Account>>) -> AppState {
        match v {
            Some(v) => AppState { accounts: self.accounts.with_accounts(v), ..self },
            None => self,
        }
    }

    pub open spec fn with_balances(self, v: Option<Seq<AccountBalance>>) -> AppState {
        match v {
            Some(v) => AppState {
                balances: v,
                accounts: accounts::AccountsState { balances: v, ..self.accounts },
                ..self
            },
            None => self,
        }
    }

    pub open spec fn with_trial_balance(self, v: Option<Seq<TrialBalanceLine>>) -> AppState {
        match v {
            Some(v) => AppState {
                reports: reports::ReportsState { trial_balance: v, ..self.reports },
                ..self
            },
            None => self,
        }
    }

    /// The reports made for the chosen day.
    pub open spec fn with_reports(
        self,
        sheet: Option<BalanceSheet>,
        statement: Option<IncomeStatement>,
    ) -> AppState {
        AppState {
            reports: reports::ReportsState {
                balance_sheet: if sheet is Some {
                    sheet
                } else {
                    self.reports.balance_sheet
                },
                income_statement: if statement is Some {
                    statement
                } else {
                    self.reports.income_statement
                },
                needs_reload: false,
                ..self.reports
            },
            ..self
        }
    }

    /// The entries in the chosen order.
    pub open spec fn with_entries(self, v: Seq<EntrySearchResult>) -> AppState {
        AppState {
            journal: (journal::JournalState { entries: v, ..self.journal }).sorted(),
            ..self
        }
    }

    pub open spec fn with_events(self, v: Option<Seq<StoredEvent>>) -> AppState {
        match v {
            Some(v) => AppState {
                event_log: event_log::LogState {
                    events: v,
                    selected: event_log::last_of(v.len()),
                    ..self.event_log
                },
                ..self
            },
            None => self,
        }
    }

    pub open spec fn with_plaid_mappings(self, v: Seq<PlaidMapping>) -> AppState {
        AppState {
            accounts: accounts::AccountsState { plaid_mappings: v, ..self.accounts },
            ..self
        }
    }

    pub open spec fn with_plaid_items(
        self,
        v: Seq<PlaidItemDisplay>,
        counts: Option<(usize, usize)>,
    ) -> AppState {
        AppState {
            plaid_view: self.plaid_view.loaded(v, counts),
            ..self
        }
    }

    /// The statements that wait, the accounts of the banks, and the accounts to
    /// choose from.
    pub open spec fn with_imports(
        self,
        v: Seq<PendingImport>,
        banks: Map<Seq<char>, Seq<char>>,
    ) -> AppState {
        AppState {
            pending_import_count: v.len() as usize,
            bank_import: bank_import::BankState {
                bank_account_mappings: banks,
                available_accounts: self.accounts.accounts,
                ..self.bank_import.with_imports(v)
            },
            ..self
        }
    }

    /// Everything loaded anew.
    pub open spec fn loaded(self, d: LoadedData) -> AppState {
        self.with_accounts(opt_seq(d.accounts)).with_balances(
            opt_seq(d.balances),
        ).with_trial_balance(opt_seq(d.trial_balance)).with_reports(
            d.balance_sheet,
            d.income_statement,
        ).with_entries(d.entries@).with_events(opt_seq(d.events)).with_plaid_mappings(
            d.plaid_mappings@,
        ).with_plaid_items(d.plaid_items@, d.staged_counts).with_imports(
            d.imports@,
            d.bank_accounts@,
        )
    }
}

/// The items of a list, if there is one.
pub open spec fn opt_seq<T>(v: Option<Vec<T>>) -> Option<Seq<T>> {
    match v {
        Some(v) => Some(v@),
        None => None,
    }
}

fn copy_balances(v: &Vec<AccountBalance>) -> (r: Vec<AccountBalance>)
    ensures
        r@ == v@,
{
    let mut out: Vec<AccountBalance> = Vec::new();
    let mut i: usize = 0;
    while i < v.len()
        invariant
            i <= v@.len(),
            out@ == v@.take(i as int),
        decreases v@.len() - i,
    {
        let b = &v[i];
        out.push(
            AccountBalance {
                account_id: b.account_id.clone(),
                account_number: b.account_number.clone(),
                account_name: b.account_name.clone(),
                account_type: b.account_type,
                balance: b.balance,
            },
        );
        i = i + 1;
        assert(v@.take(i as int) =~= v@.take(i - 1).push(v@[i - 1]));
    }
    assert(v@.take(i as int) =~= v@);
    out
}

impl App {
    fn load_accounts(&mut self, v: Option<Vec<Account>>)
        requires
            old(self)@.wf(),
            v is Some ==> accounts_ok(v->0@),
        ensures
            final(self)@ == old(self)@.with_accounts(opt_seq(v)),
            final(self)@.wf(),
    {
        proof {
            reveal(App::state);
        }
        if let Some(v) = v {
            self.accounts.set_accounts(v);
        }
    }

    fn load_balances(&mut self, v: Option<Vec<AccountBalance>>)
        requires
            old(self)@.wf(),
        ensures
            final(self)@ == old(self)@.with_balances(opt_seq(v)),
            final(self)@.wf(),
    {
        proof {
            reveal(App::state);
        }
        if let Some(v) = v {
            self.dashboard.balances = copy_balances(&v);
            self.accounts.balances = v;
        }
    }

    fn load_trial_balance(&mut self, v: Option<Vec<TrialBalanceLine>>)
        requires
            old(self)@.wf(),
        ensures
            final(self)@ == old(self)@.with_trial_balance(opt_seq(v)),
            final(self)@.wf(),
    {
        proof {
            reveal(App::state);
        }
        if let Some(v) = v {
            self.reports.trial_balance = v;
        }
    }

    /// The days that the income statement covers: from the start of the year of
    /// the chosen day. The balance sheet is of its last day.
    pub fn report_period(&self) -> (r: (Date, Date))
        ensures
            r.1 == self@.reports.report_date,
            r.0 == (Date { year: self@.reports.report_date.year, month: 1, day: 1 }),
    {
        proof {
            reveal(App::state);
        }
        let day = self.reports.report_date;
        (Date { year: day.year, month: 1, day: 1 }, day)
    }

    /// Shows the reports of the chosen day.
    pub fn load_reports(
        &mut self,
        sheet: Option<BalanceSheet>,
        statement: Option<IncomeStatement>,
    )
        requires
            old(self)@.wf(),
        ensures
            final(self)@ == old(self)@.with_reports(sheet, statement),
            final(self)@.wf(),
    {
        proof {
            reveal(App::state);
        }
        if sheet.is_some() {
            self.reports.balance_sheet = sheet;
        }
        if statement.is_some() {
            self.reports.income_statement = statement;
        }
        self.reports.needs_reload = false;
    }

    /// Shows the entries of the journal in the chosen order.
    pub fn load_journal_entries(&mut self, v: Vec<EntrySearchResult>)
        requires
            old(self)@.wf(),
        ensures
            final(self)@ == old(self)@.with_entries(v@),
            final(self)@.wf(),
    {
        proof {
            reveal(App::state);
        }
        self.journal.entries = v;
        self.journal.sort_entries();
    }

    fn load_events(&mut self, v: Option<Vec<StoredEvent>>)
        requires
            old(self)@.wf(),
        ensures
            final(self)@ == old(self)@.with_events(opt_seq(v)),
            final(self)@.wf(),
    {
        proof {
            reveal(App::state);
        }
        if let Some(v) = v {
            self.event_log.set_events(v);
        }
    }

    fn load_plaid_mappings(&mut self, v: Vec<PlaidMapping>)
        requires
            old(self)@.wf(),
        ensures
            final(self)@ == old(self)@.with_plaid_mappings(v@),
            final(self)@.wf(),
    {
        proof {
            reveal(App::state);
        }
        self.accounts.plaid_mappings = v;
    }

    fn load_plaid_items(&mut self, v: Vec<PlaidItemDisplay>, counts: Option<(usize, usize)>)
        requires
            old(self)@.wf(),
        ensures
            final(self)@ == old(self)@.with_plaid_items(v@, counts),
            final(self)@.wf(),
    {
        proof {
            reveal(App::state);
        }
        self.plaid_view.load(v, counts);
    }

    /// Shows the statements that wait to be imported.
    pub fn load_pending_imports(&mut self, v: Vec<PendingImport>, banks: TextMap)
        requires
            old(self)@.wf(),
        ensures
            final(self)@ == old(self)@.with_imports(v@, banks@),
            final(self)@.wf(),
    {
        proof {
            reveal(App::state);
        }
        self.pending_import_count = v.len();
        self.bank_import.set_pending_imports(v);
        self.bank_import.set_mappings(banks);
        self.bank_import.set_accounts(domain::copy_accounts(&self.accounts.accounts));
    }

    /// Shows everything that was loaded from the books.
    pub fn load_data(&mut self, d: LoadedData)
        requires
            old(self)@.wf(),
            d.wf(),
        ensures
            final(self)@ == old(self)@.loaded(d),
            final(self)@.wf(),
    {
        self.load_accounts(d.accounts);
        self.load_balances(d.balances);
        self.load_trial_balance(d.trial_balance);
        self.load_reports(d.balance_sheet, d.income_statement);
        self.load_journal_entries(d.entries);
        self.load_events(d.events);
        self.load_plaid_mappings(d.plaid_mappings);
        self.load_plaid_items(d.plaid_items, d.staged_counts);
        self.load_pending_imports(d.imports, d.bank_accounts);
    }

    /// Whether the statements that wait have to be loaded again: it was time to
    /// count them, and there are more or fewer of them.
    pub fn check_for_new_imports(&self, elapsed_millis: u64, count: usize) -> (r: bool)
        ensures
            r == (elapsed_millis >= IMPORT_CHECK_MILLIS && count != self@.pending_import_count),
    {
        proof {
            reveal(App::state);
        }
        import_check_due(elapsed_millis) && count != self.pending_import_count
    }
}

/// How often the statements that wait are counted: every two seconds.
pub const IMPORT_CHECK_MILLIS: u64 = 2000;

/// Whether it is time to count the statements that wait.
pub fn import_check_due(elapsed_millis: u64) -> (r: bool)
    ensures
        r == (elapsed_millis >= IMPORT_CHECK_MILLIS),
{
    elapsed_millis >= IMPORT_CHECK_MILLIS
}

/// Loading keeps the colors, the open forms, and what the user asked for.
pub proof fn loading_keeps_the_work(s: AppState, d: LoadedData)
    ensures
        ({
            let t = s.loaded(d);
            &&& t.phase == s.phase
            &&& t.active_view == s.active_view
            &&& t.theme == s.theme
            &&& t.entry_form == s.entry_form
            &&& t.account_form == s.account_form
            &&& t.csv_import == s.csv_import
            &&& t.status == s.status
            &&& t.pending_plaid_action == s.pending_plaid_action
            &&& t.pending_staged_action == s.pending_staged_action
            &&& t.should_quit == s.should_quit
            &&& !t.reports.needs_reload
        }),
{
}

// ---- an entry with its lines ----

/// The two sides of an amount: debits are positive, credits negative.
pub open spec fn sides(amount: int) -> (int, int) {
    if amount >= 0 {
        (amount, 0)
    } else {
        (0, money::wrap64(-amount))
    }
}

/// An amount is the difference of its sides, and one side is always empty.
pub proof fn sides_make_the_amount(amount: int)
    requires
        i64::MIN <= amount <= i64::MAX,
    ensures
        money::wrap64(sides(amount).0 - sides(amount).1) == amount,
        sides(amount).0 == 0 || sides(amount).1 == 0,
{
}

/// A line with an amount above zero is shown as a debit of that amount, and one
/// below zero as a credit of the opposite amount; the other side is zero.
pub proof fn lines_show_their_side(l: LineRow)
    ensures
        l.amount >= 0 ==> line_detail(l).debit == l.amount && line_detail(l).credit == 0,
        i64::MIN < l.amount < 0 ==> line_detail(l).debit == 0 && line_detail(l).credit
            == -l.amount,
        line_detail(l).account_number == l.account_number,
        line_detail(l).account_name == l.account_name,
        line_detail(l).memo == l.memo,
{
}

/// A line of an entry as the books hold it.
pub struct LineRow {
    pub amount: i64,
    pub memo: Option<String>,
    pub account_number: String,
    pub account_name: String,
}

/// The head of an entry as the books hold it.
pub struct EntryRow {
    pub date: String,
    pub memo: String,
    pub reference: Option<String>,
    pub is_void: i32,
}

pub open spec fn line_detail(l: LineRow) -> EntryLineDetail {
    EntryLineDetail {
        account_number: l.account_number,
        account_name: l.account_name,
        debit: sides(l.amount as int).0 as i64,
        credit: sides(l.amount as int).1 as i64,
        memo: l.memo,
    }
}

fn make_line(l: &LineRow) -> (r: EntryLineDetail)
    ensures
        r == line_detail(*l),
{
    let (debit, credit): (i64, i64) = if l.amount >= 0 {
        (l.amount, 0)
    } else {
        (0, money::negated(l.amount))
    };
    EntryLineDetail {
        account_number: l.account_number.clone(),
        account_name: l.account_name.clone(),
        debit,
        credit,
        memo: text::clone_opt(&l.memo),
    }
}

impl App {
    /// The entry to be shown, if its head was found and its date can be read.
    pub fn load_entry_detail(
        &self,
        entry_id: &str,
        row: Option<EntryRow>,
        lines: &Vec<LineRow>,
    ) -> (r: Option<EntryDetail>)
        ensures
            r is Some <==> row is Some && date::date_in_format(row->0.date@, "%Y-%m-%d"@) is Some,
            r is Some ==> {
                &&& r->0.entry_id@ == entry_id@
                &&& Some(r->0.date) == date::date_in_format(row->0.date@, "%Y-%m-%d"@)
                &&& r->0.memo == row->0.memo
                &&& r->0.reference == row->0.reference
                &&& r->0.is_void == (row->0.is_void == 1)
                &&& r->0.lines@ == lines@.map_values(|l: LineRow| line_detail(l))
            },
            row is Some ==> date::reads_numbers(
                row->0.date@,
                "%Y-%m-%d"@,
                if r is Some {
                    Some(r->0.date)
                } else {
                    None
                },
            ),
    {
        match row {
            None => None,
            Some(row) => match date::parse_in_format(row.date.as_str(), "%Y-%m-%d") {
                None => None,
                Some(day) => {
                    let ghost f = |l: LineRow| line_detail(l);
                    let mut out: Vec<EntryLineDetail> = Vec::new();
                    let mut i: usize = 0;
                    while i < lines.len()
                        invariant
                            i <= lines@.len(),
                            f == (|l: LineRow| line_detail(l)),
                            out@ =~= lines@.take(i as int).map_values(f),
                        decreases lines@.len() - i,
                    {
                        out.push(make_line(&lines[i]));
                        i = i + 1;
                    }
                    assert(lines@.take(i as int) =~= lines@);
                    Some(
                        EntryDetail {
                            entry_id: text::owned(entry_id),
                            date: day,
                            memo: row.memo,
                            reference: row.reference,
                            is_void: row.is_void == 1,
                            lines: out,
                        },
                    )
                },
            },
        }
    }
}

// ---- bank accounts to link ----

/// A bank account with the name of the account it is linked to.
pub open spec fn with_local_name(a: PlaidAccountOption, accounts: Seq<Account>) -> PlaidAccountOption {
    PlaidAccountOption {
        mapped_to_local_name: match a.mapped_to_local_id {
            Some(id) => match domain::place_of(accounts, id@) {
                Some(i) => Some(accounts[i as int].name),
                None => None,
            },
            None => None,
        },
        ..a
    }
}

fn name_local(a: PlaidAccountOption, accounts: &Vec<Account>) -> (r: PlaidAccountOption)
    ensures
        r == with_local_name(a, accounts@),
{
    let name = match &a.mapped_to_local_id {
        Some(id) => match domain::find_account(accounts, id.as_str()) {
            Some(i) => Some(accounts[i].name.clone()),
            None => None,
        },
        None => None,
    };
    PlaidAccountOption { mapped_to_local_name: name, ..a }
}

fn name_all(options: Vec<PlaidAccountOption>, accounts: &Vec<Account>) -> (r: Vec<
    PlaidAccountOption,
>)
    ensures
        r@ == options@.map_values(|a: PlaidAccountOption| with_local_name(a, accounts@)),
{
    let ghost f = |a: PlaidAccountOption| with_local_name(a, accounts@);
    let ghost all = options@;
    let mut rest = options;
    let mut out: Vec<PlaidAccountOption> = Vec::new();
    while rest.len() > 0
        invariant
            f == (|a: PlaidAccountOption| with_local_name(a, accounts@)),
            out@.len() + rest@.len() == all.len(),
            rest@ == all.skip(out@.len() as int),
            out@ =~= all.take(out@.len() as int).map_values(f),
        decreases rest@.len(),
    {
        let ghost n = out@.len() as int;
        let a = rest.remove(0);
        assert(a == all[n]);
        out.push(name_local(a, accounts));
        assert(rest@ =~= all.skip(n + 1));
        assert(all.take(n + 1).map_values(f) =~= all.take(n).map_values(f).push(f(all[n])));
    }
    assert(all.take(out@.len() as int) =~= all);
    out
}

impl AppState {
    /// The choice of a bank account for an account.
    pub open spec fn link_opened(
        self,
        id: Seq<char>,
        current: Option<CurrentMapping>,
        options: Seq<PlaidAccountOption>,
    ) -> AppState {
        AppState {
            plaid_link: plaid_link::LinkState {
                visible: true,
                result: plaid_link::LinkOutcome::Nothing,
                local_id: id,
                local_name: match domain::place_of(self.accounts.accounts, id) {
                    Some(i) => self.accounts.accounts[i as int].name@,
                    None => Seq::empty(),
                },
                current,
                options: options.map_values(
                    |a: PlaidAccountOption| with_local_name(a, self.accounts.accounts),
                ),
                selected: 0,
            },
            ..self
        }
    }
}

impl App {
    fn local_name(&self, id: &str) -> (r: String)
        ensures
            r@ == (match domain::place_of(self@.accounts.accounts, id@) {
                Some(i) => self@.accounts.accounts[i as int].name@,
                None => Seq::empty(),
            }),
    {
        proof {
            reveal(App::state);
        }
        match domain::find_account(&self.accounts.accounts, id) {
            Some(i) => self.accounts.accounts[i].name.clone(),
            None => String::new(),
        }
    }

    /// Lets the user choose a bank account for an account.
    pub fn open_plaid_link_modal(
        &mut self,
        local_account_id: String,
        current: Option<CurrentMapping>,
        options: Vec<PlaidAccountOption>,
    )
        requires
            old(self)@.wf(),
        ensures
            final(self)@ == old(self)@.link_opened(local_account_id@, current, options@),
            final(self)@.wf(),
    {
        let name = self.local_name(local_account_id.as_str());
        proof {
            reveal(App::state);
        }
        let named = name_all(options, &self.accounts.accounts);
        self.plaid_link.show(local_account_id, name, current, named);
    }
}

// ---- staged transactions ----

/// A staged transaction as the books hold it, with the name of the account it
/// is linked to.
pub struct StagedRow {
    pub id: String,
    pub date: String,
    pub name: String,
    pub merchant_name: Option<String>,
    pub account_name: Option<String>,
    pub amount_cents: i64,
    pub card_holder: Option<String>,
}

impl StagedRow {
    /// What a transaction is called: by the merchant if that is known.
    pub open spec fn called(self) -> Seq<char> {
        text::text_or(self.merchant_name, self.name@)
    }

    /// The name of its account.
    pub open spec fn on_account(self) -> Seq<char> {
        text::text_or(self.account_name, "Unmapped"@)
    }
}

/// A pair of staged transactions that may be a transfer.
pub struct TransferRow {
    pub id: String,
    pub first: StagedRow,
    pub second: StagedRow,
    /// The confidence as a percentage, as it is written.
    pub confidence: String,
    pub confidence_level: ConfidenceLevel,
}

/// Whether a staged transaction is shown as it is.
pub open spec fn shows_staged(t: StagedRow, d: StagedTransactionDisplay) -> bool {
    &&& d.id == t.id
    &&& d.date == t.date
    &&& d.name@ == t.called()
    &&& d.account_name@ == t.on_account()
    &&& d.amount_cents == t.amount_cents
    &&& d.card_holder == t.card_holder
}

/// Whether a transfer is shown as it is.
pub open spec fn shows_transfer(t: TransferRow, d: TransferCandidateDisplay) -> bool {
    &&& d.candidate_id == t.id
    &&& d.txn1_name@ == t.first.called()
    &&& d.txn1_account@ == t.first.on_account()
    &&& d.txn1_date == t.first.date
    &&& d.txn1_amount_cents == t.first.amount_cents
    &&& d.txn2_name@ == t.second.called()
    &&& d.txn2_account@ == t.second.on_account()
    &&& d.txn2_date == t.second.date
    &&& d.txn2_amount_cents == t.second.amount_cents
    &&& d.confidence == t.confidence
    &&& d.confidence_level == t.confidence_level
}

fn show_staged(t: &StagedRow) -> (r: StagedTransactionDisplay)
    ensures
        shows_staged(*t, r),
{
    StagedTransactionDisplay {
        id: t.id.clone(),
        date: t.date.clone(),
        name: text::or_text(&t.merchant_name, t.name.as_str()),
        account_name: text::or_text(&t.account_name, "Unmapped"),
        amount_cents: t.amount_cents,
        card_holder: text::clone_opt(&t.card_holder),
    }
}

fn show_transfer(t: &TransferRow) -> (r: TransferCandidateDisplay)
    ensures
        shows_transfer(*t, r),
{
    TransferCandidateDisplay {
        candidate_id: t.id.clone(),
        txn1_name: text::or_text(&t.first.merchant_name, t.first.name.as_str()),
        txn1_account: text::or_text(&t.first.account_name, "Unmapped"),
        txn1_date: t.first.date.clone(),
        txn1_amount_cents: t.first.amount_cents,
        txn2_name: text::or_text(&t.second.merchant_name, t.second.name.as_str()),
        txn2_account: text::or_text(&t.second.account_name, "Unmapped"),
        txn2_date: t.second.date.clone(),
        txn2_amount_cents: t.second.amount_cents,
        confidence: t.confidence.clone(),
        confidence_level: t.confidence_level,
    }
}

/// The staged transactions as they are shown, in order.
pub fn show_all_staged(rows: &Vec<StagedRow>) -> (r: Vec<StagedTransactionDisplay>)
    ensures
        r@.len() == rows@.len(),
        forall|i: int| 0 <= i < rows@.len() ==> shows_staged(rows@[i], #[trigger] r@[i]),
{
    let mut out: Vec<StagedTransactionDisplay> = Vec::new();
    let mut i: usize = 0;
    while i < rows.len()
        invariant
            i <= rows@.len(),
            out@.len() == i,
            forall|k: int| 0 <= k < i ==> shows_staged(rows@[k], #[trigger] out@[k]),
        decreases rows@.len() - i,
    {
        out.push(show_staged(&rows[i]));
        i = i + 1;
    }
    out
}

/// The transfers as they are shown, in order.
pub fn show_all_transfers(rows: &Vec<TransferRow>) -> (r: Vec<TransferCandidateDisplay>)
    ensures
        r@.len() == rows@.len(),
        forall|i: int| 0 <= i < rows@.len() ==> shows_transfer(rows@[i], #[trigger] r@[i]),
{
    let mut out: Vec<TransferCandidateDisplay> = Vec::new();
    let mut i: usize = 0;
    while i < rows.len()
        invariant
            i <= rows@.len(),
            out@.len() == i,
            forall|k: int| 0 <= k < i ==> shows_transfer(rows@[k], #[trigger] out@[k]),
        decreases rows@.len() - i,
    {
        out.push(show_transfer(&rows[i]));
        i = i + 1;
    }
    out
}

impl AppState {
    pub open spec fn with_staged(
        self,
        transfers: Seq<TransferCandidateDisplay>,
        unmatched: Seq<StagedTransactionDisplay>,
    ) -> AppState {
        AppState {
            plaid_staged: plaid_staged::StagedState { transfers, unmatched, ..self.plaid_staged },
            ..self
        }
    }
}

impl App {
    fn put_staged(
        &mut self,
        transfers: Vec<TransferCandidateDisplay>,
        unmatched: Vec<StagedTransactionDisplay>,
    )
        requires
            old(self)@.wf(),
        ensures
            final(self)@ == old(self)@.with_staged(transfers@, unmatched@),
            final(self)@.wf(),
    {
        proof {
            reveal(App::state);
        }
        self.plaid_staged.transfer_candidates = transfers;
        self.plaid_staged.unmatched = unmatched;
    }

    /// Shows the staged transactions and the transfers found among them.
    pub fn load_plaid_staged(&mut self, transfers: &Vec<TransferRow>, unmatched: &Vec<StagedRow>)
        requires
            old(self)@.wf(),
        ensures
            final(self)@.wf(),
            ({
                let t = final(self)@.plaid_staged.transfers;
                let u = final(self)@.plaid_staged.unmatched;
                &&& final(self)@ == old(self)@.with_staged(t, u)
                &&& t.len() == transfers@.len()
                &&& forall|i: int|
                    0 <= i < t.len() ==> shows_transfer(transfers@[i], #[trigger] t[i])
                &&& u.len() == unmatched@.len()
                &&& forall|i: int| 0 <= i < u.len() ==> shows_staged(unmatched@[i], #[trigger] u[i])
            }),
    {
        let t = show_all_transfers(transfers);
        let u = show_all_staged(unmatched);
        self.put_staged(t, u);
    }
}

// ---- the entries of the journal ----

/// Which entries the journal shows.
pub enum EntryQuery {
    /// All entries of an account, void ones among them.
    OfAccount(String),
    /// The latest entries, at most so many.
    Recent(usize),
}

impl App {
    /// The entries that are to be loaded: those of the account of the ledger,
    /// or else the latest hundred.
    pub fn entry_query(&self) -> (r: EntryQuery)
        ensures
            match self@.journal.filter_account {
                Some(a) => r matches EntryQuery::OfAccount(id) && id@ == a.id@,
                None => r matches EntryQuery::Recent(n) && n == 100,
            },
    {
        proof {
            reveal(App::state);
        }
        match &self.journal.filter_account {
            Some(a) => EntryQuery::OfAccount(a.id.clone()),
            None => EntryQuery::Recent(100),
        }
    }

    fn highlight_entry(&mut self, entry_id: &str)
        requires
            old(self)@.wf(),
        ensures
            final(self)@ == (AppState {
                journal: old(self)@.journal.on_entry(entry_id@),
                ..old(self)@
            }),
            final(self)@.wf(),
    {
        proof {
            reveal(App::state);
        }
        self.journal.select_entry(entry_id);
    }

    /// Shows the entries of a ledger with one of them highlighted, if it is
    /// there.
    pub fn load_entries_and_select(&mut self, v: Vec<EntrySearchResult>, entry_id: &str)
        requires
            old(self)@.wf(),
        ensures
            ({
                let s = old(self)@.with_entries(v@);
                final(self)@ == (AppState { journal: s.journal.on_entry(entry_id@), ..s })
            }),
            final(self)@.wf(),
    {
        self.load_journal_entries(v);
        self.highlight_entry(entry_id);
    }
}

} // verus!
