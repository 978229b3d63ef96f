//! What has happened to the books: the events of the log.

use vstd::prelude::*;

use crate::date::Date;
use crate::domain::AccountType;
use crate::lists;
use crate::money;
use crate::text;
use crate::tui::widgets;

verus! {

/// Something that happened to the books.
pub enum Event {
    CompanyCreated { name: String, base_currency: String },
    CompanySettingsUpdated { field: String, new_value: String },
    /// The role by its name.
    UserAdded { username: String, role: String },
    UserModified { user_id: String, field: String },
    UserRemoved { user_id: String },
    AccountCreated { account_number: String, name: String, account_type: AccountType },
    AccountUpdated { account_id: String, field: String, new_value: String },
    AccountDeactivated { account_id: String },
    AccountReactivated { account_id: String },
    /// The amounts of the lines: debits positive, credits negative.
    JournalEntryPosted { memo: String, amounts: Vec<i64> },
    JournalEntryVoided { entry_id: String, reason: String },
    JournalEntryUnvoided { entry_id: String, reason: String },
    JournalEntryAnnotated { entry_id: String, annotation: String },
    JournalLineReassigned { line_id: String, new_account_id: String },
    FiscalYearOpened { year: i32 },
    PeriodClosed { year: i32, period: u32 },
    PeriodReopened { year: i32, period: u32, reason: String },
    YearEndClosed { year: i32 },
    CurrencyEnabled { code: String, name: String },
    /// The rate as it is written.
    ExchangeRateRecorded { from_currency: String, to_currency: String, rate: String },
    ReconciliationStarted { account_id: String, statement_date: Date },
    TransactionCleared { entry_id: String },
    TransactionUncleared { entry_id: String },
    ReconciliationCompleted { reconciliation_id: String, difference: i64 },
    ReconciliationAbandoned { reconciliation_id: String },
    PlaidItemConnected { institution_name: String, account_count: usize },
    PlaidItemDisconnected { item_id: String, reason: String },
    PlaidAccountMapped { plaid_account_id: String, local_account_id: String },
    PlaidAccountUnmapped { plaid_account_id: String, local_account_id: String },
    PlaidTransactionsSynced { transactions_added: u64, item_id: String },
}

/// The sum of the positive ones of the first `n` amounts.
pub open spec fn debit_sum(v: Seq<i64>, n: nat) -> int
    decreases n,
{
    if n == 0 {
        0
    } else {
        debit_sum(v, (n - 1) as nat) + if v[n - 1] > 0 {
            v[n - 1] as int
        } else {
            0
        }
    }
}

/// The size of a posted entry is the sum of its amounts above zero.
pub proof fn debits_are_above_zero(v: Seq<i64>, n: nat)
    requires
        n <= v.len(),
    ensures
        debit_sum(v, n) == lists::sum_at(
            n,
            |i: int|
                if v[i] > 0 {
                    v[i] as int
                } else {
                    0
                },
        ),
    decreases n,
{
    if n > 0 {
        debits_are_above_zero(v, (n - 1) as nat);
    }
}

fn sum_debits(v: &Vec<i64>) -> (r: i64)
    ensures
        r == money::wrap64(debit_sum(v@, v@.len())),
{
    let mut sum: i64 = 0;
    let mut i: usize = 0;
    while i < v.len()
        invariant
            i <= v@.len(),
            sum == money::wrap64(debit_sum(v@, i as nat)),
        decreases v@.len() - i,
    {
        proof {
            money::wrapping_is_uniform(debit_sum(v@, i as nat), v@[i as int] as int);
        }
        if v[i] > 0 {
            sum = money::plus(sum, v[i]);
        }
        i = i + 1;
    }
    sum
}

/// A text cut to at most `n` bytes.
pub open spec fn brief(s: String, n: nat) -> Seq<char> {
    widgets::truncated(s@, n)
}

/// Whether a text can be cut to `n` bytes between two characters.
pub open spec fn can_cut(s: String, n: nat) -> bool {
    widgets::can_truncate(s@, n)
}

impl Event {
    /// Whether the texts that the summary shows cut can be cut.
    pub open spec fn can_summarize(self) -> bool {
        match self {
            Event::UserModified { user_id, .. } => can_cut(user_id, 8),
            Event::UserRemoved { user_id } => can_cut(user_id, 8),
            Event::AccountCreated { name, .. } => can_cut(name, 20),
            Event::AccountUpdated { account_id, .. } => can_cut(account_id, 8),
            Event::AccountDeactivated { account_id } => can_cut(account_id, 8),
            Event::AccountReactivated { account_id } => can_cut(account_id, 8),
            Event::JournalEntryPosted { memo, .. } => can_cut(memo, 40),
            Event::JournalEntryVoided { entry_id, reason } => can_cut(entry_id, 8) && can_cut(
                reason,
                30,
            ),
            Event::JournalEntryUnvoided { entry_id, reason } => can_cut(entry_id, 8) && can_cut(
                reason,
                30,
            ),
            Event::JournalEntryAnnotated { entry_id, annotation } => can_cut(entry_id, 8)
                && can_cut(annotation, 30),
            Event::JournalLineReassigned { line_id, new_account_id } => can_cut(line_id, 8)
                && can_cut(new_account_id, 8),
            Event::PeriodReopened { reason, .. } => can_cut(reason, 20),
            Event::ReconciliationStarted { account_id, .. } => can_cut(account_id, 8),
            Event::TransactionCleared { entry_id } => can_cut(entry_id, 8),
            Event::TransactionUncleared { entry_id } => can_cut(entry_id, 8),
            Event::ReconciliationCompleted { reconciliation_id, .. } => can_cut(
                reconciliation_id,
                8,
            ),
            Event::ReconciliationAbandoned { reconciliation_id } => can_cut(reconciliation_id, 8),
            Event::PlaidItemDisconnected { item_id, reason } => can_cut(item_id, 8) && can_cut(
                reason,
                30,
            ),
            Event::PlaidAccountMapped { plaid_account_id, local_account_id } => can_cut(
                plaid_account_id,
                8,
            ) && can_cut(local_account_id, 8),
            Event::PlaidAccountUnmapped { plaid_account_id, local_account_id } => can_cut(
                plaid_account_id,
                8,
            ) && can_cut(local_account_id, 8),
            Event::PlaidTransactionsSynced { item_id, .. } => can_cut(item_id, 8),
            _ => true,
        }
    }

    /// What happened, in a few words.
    pub open spec fn summary(self) -> Seq<char> {
        match self {
            Event::CompanyCreated { name, base_currency } => "Created company '"@ + name@ + "' ("@
                + base_currency@ + ")"@,
            Event::CompanySettingsUpdated { field, new_value } => "Updated "@ + field@ + " to '"@
                + new_value@ + "'"@,
            Event::UserAdded { username, role } => "Added user '"@ + username@ + "' as "@ + role@,
            Event::UserModified { user_id, field } => "Modified "@ + field@ + " for user "@
                + brief(user_id, 8),
            Event::UserRemoved { user_id } => "Removed user "@ + brief(user_id, 8),
            Event::AccountCreated { account_number, name, account_type } => account_number@ + " "@
                + name@ + " - "@ + brief(name, 20) + " ("@ + account_type.title() + ")"@,
            Event::AccountUpdated { account_id, field, new_value } => "Updated "@ + field@
                + " to '"@ + new_value@ + "' on "@ + brief(account_id, 8),
            Event::AccountDeactivated { account_id } => "Deactivated account "@ + brief(
                account_id,
                8,
            ),
            Event::AccountReactivated { account_id } => "Reactivated account "@ + brief(
                account_id,
                8,
            ),
            Event::JournalEntryPosted { memo, amounts } => brief(memo, 40) + " ($"@
                + money::signed_dollars(money::wrap64(debit_sum(amounts@, amounts@.len())))
                + ")"@,
            Event::JournalEntryVoided { entry_id, reason } => "Voided "@ + brief(entry_id, 8)
                + " - "@ + brief(reason, 30),
            Event::JournalEntryUnvoided { entry_id, reason } => "Unvoided "@ + brief(entry_id, 8)
                + " - "@ + brief(reason, 30),
            Event::JournalEntryAnnotated { entry_id, annotation } => "Annotated "@ + brief(
                entry_id,
                8,
            ) + " - "@ + brief(annotation, 30),
            Event::JournalLineReassigned { line_id, new_account_id } => "Reassigned line "@
                + brief(line_id, 8) + " to account "@ + brief(new_account_id, 8),
            Event::FiscalYearOpened { year } => "Opened fiscal year "@ + text::signed_decimal(
                year as int,
            ),
            Event::PeriodClosed { year, period } => "Closed period "@ + text::decimal(
                period as nat,
            ) + " of "@ + text::signed_decimal(year as int),
            Event::PeriodReopened { year, period, reason } => "Reopened period "@ + text::decimal(
                period as nat,
            ) + " of "@ + text::signed_decimal(year as int) + " - "@ + brief(reason, 20),
            Event::YearEndClosed { year } => "Closed year-end "@ + text::signed_decimal(
                year as int,
            ),
            Event::CurrencyEnabled { code, name } => "Enabled currency "@ + code@ + " ("@ + name@
                + ")"@,
            Event::ExchangeRateRecorded { from_currency, to_currency, rate } => from_currency@
                + "/"@ + to_currency@ + " = "@ + rate@,
            Event::ReconciliationStarted { account_id, statement_date } =>
                "Started reconciliation for "@ + brief(account_id, 8) + " on "@
                + statement_date.iso(),
            Event::TransactionCleared { entry_id } => "Cleared transaction "@ + brief(entry_id, 8),
            Event::TransactionUncleared { entry_id } => "Uncleared transaction "@ + brief(
                entry_id,
                8,
            ),
            Event::ReconciliationCompleted { reconciliation_id, difference } =>
                "Completed reconciliation "@ + brief(reconciliation_id, 8) + " (diff: "@
                + text::signed_decimal(difference as int) + ")"@,
            Event::ReconciliationAbandoned { reconciliation_id } => "Abandoned reconciliation "@
                + brief(reconciliation_id, 8),
            Event::PlaidItemConnected { institution_name, account_count } => "Connected "@
                + institution_name@ + " ("@ + text::decimal(account_count as nat) + " accounts)"@,
            Event::PlaidItemDisconnected { item_id, reason } => "Disconnected "@ + brief(
                item_id,
                8,
            ) + " - "@ + brief(reason, 30),
            Event::PlaidAccountMapped { plaid_account_id, local_account_id } => "Mapped Plaid "@
                + brief(plaid_account_id, 8) + " to "@ + brief(local_account_id, 8),
            Event::PlaidAccountUnmapped { plaid_account_id, local_account_id } =>
                "Unmapped Plaid "@ + brief(plaid_account_id, 8) + " from "@ + brief(
                local_account_id,
                8,
            ),
            Event::PlaidTransactionsSynced { transactions_added, item_id } => "Synced "@
                + text::decimal(transactions_added as nat) + " transactions for "@ + brief(
                item_id,
                8,
            ),
        }
    }

    /// Checks that the summary can be written.
    pub fn can_be_summarized(&self) -> (r: bool)
        ensures
            r == self.can_summarize(),
    {
        match self {
            Event::UserModified { user_id, .. } => widgets::fits(user_id.as_str(), 8),
            Event::UserRemoved { user_id } => widgets::fits(user_id.as_str(), 8),
            Event::AccountCreated { name, .. } => widgets::fits(name.as_str(), 20),
            Event::AccountUpdated { account_id, .. } => widgets::fits(account_id.as_str(), 8),
            Event::AccountDeactivated { account_id } => widgets::fits(account_id.as_str(), 8),
            Event::AccountReactivated { account_id } => widgets::fits(account_id.as_str(), 8),
            Event::JournalEntryPosted { memo, .. } => widgets::fits(memo.as_str(), 40),
            Event::JournalEntryVoided { entry_id, reason } => fit2(entry_id, 8, reason, 30),
            Event::JournalEntryUnvoided { entry_id, reason } => fit2(entry_id, 8, reason, 30),
            Event::JournalEntryAnnotated { entry_id, annotation } => fit2(
                entry_id,
                8,
                annotation,
                30,
            ),
            Event::JournalLineReassigned { line_id, new_account_id } => fit2(
                line_id,
                8,
                new_account_id,
                8,
            ),
            Event::PeriodReopened { reason, .. } => widgets::fits(reason.as_str(), 20),
            Event::ReconciliationStarted { account_id, .. } => widgets::fits(
                account_id.as_str(),
                8,
            ),
            Event::TransactionCleared { entry_id } => widgets::fits(entry_id.as_str(), 8),
            Event::TransactionUncleared { entry_id } => widgets::fits(entry_id.as_str(), 8),
            Event::ReconciliationCompleted { reconciliation_id, .. } => widgets::fits(
                reconciliation_id.as_str(),
                8,
            ),
            Event::ReconciliationAbandoned { reconciliation_id } => widgets::fits(
                reconciliation_id.as_str(),
                8,
            ),
            Event::PlaidItemDisconnected { item_id, reason } => fit2(item_id, 8, reason, 30),
            Event::PlaidAccountMapped { plaid_account_id, local_account_id } => fit2(
                plaid_account_id,
                8,
                local_account_id,
                8,
            ),
            Event::PlaidAccountUnmapped { plaid_account_id, local_account_id } => fit2(
                plaid_account_id,
                8,
                local_account_id,
                8,
            ),
            Event::PlaidTransactionsSynced { item_id, .. } => widgets::fits(item_id.as_str(), 8),
            _ => true,
        }
    }
}

/// Whether a text begins with another one.
pub open spec fn begins(s: Seq<char>, w: Seq<char>) -> bool {
    w.len() <= s.len() && forall|i: int| 0 <= i < w.len() ==> s[i] == #[trigger] w[i]
}

/// Whether a text ends with another one.
pub open spec fn ends(s: Seq<char>, w: Seq<char>) -> bool {
    w.len() <= s.len() && forall|i: int|
        0 <= i < w.len() ==> s[s.len() - w.len() + i] == #[trigger] w[i]
}

/// The summary of an event begins by saying what was done.
pub proof fn summaries_say_what_was_done(e: Event)
    ensures
        e is CompanyCreated ==> begins(e.summary(), "Created company '"@),
        e is CompanySettingsUpdated ==> begins(e.summary(), "Updated "@),
        e is UserAdded ==> begins(e.summary(), "Added user '"@),
        e is UserModified ==> begins(e.summary(), "Modified "@),
        e is UserRemoved ==> begins(e.summary(), "Removed user "@),
        e is AccountUpdated ==> begins(e.summary(), "Updated "@),
        e is AccountDeactivated ==> begins(e.summary(), "Deactivated account "@),
        e is AccountReactivated ==> begins(e.summary(), "Reactivated account "@),
        e is JournalEntryVoided ==> begins(e.summary(), "Voided "@),
        e is JournalEntryUnvoided ==> begins(e.summary(), "Unvoided "@),
        e is JournalEntryAnnotated ==> begins(e.summary(), "Annotated "@),
        e is JournalLineReassigned ==> begins(e.summary(), "Reassigned line "@),
        e is FiscalYearOpened ==> begins(e.summary(), "Opened fiscal year "@),
        e is PeriodClosed ==> begins(e.summary(), "Closed period "@),
        e is PeriodReopened ==> begins(e.summary(), "Reopened period "@),
        e is YearEndClosed ==> begins(e.summary(), "Closed year-end "@),
        e is CurrencyEnabled ==> begins(e.summary(), "Enabled currency "@),
        e is ReconciliationStarted ==> begins(e.summary(), "Started reconciliation for "@),
        e is TransactionCleared ==> begins(e.summary(), "Cleared transaction "@),
        e is TransactionUncleared ==> begins(e.summary(), "Uncleared transaction "@),
        e is ReconciliationCompleted ==> begins(e.summary(), "Completed reconciliation "@),
        e is ReconciliationAbandoned ==> begins(e.summary(), "Abandoned reconciliation "@),
        e is PlaidItemConnected ==> begins(e.summary(), "Connected "@),
        e is PlaidItemDisconnected ==> begins(e.summary(), "Disconnected "@),
        e is PlaidAccountMapped ==> begins(e.summary(), "Mapped Plaid "@),
        e is PlaidAccountUnmapped ==> begins(e.summary(), "Unmapped Plaid "@),
        e is PlaidTransactionsSynced ==> begins(e.summary(), "Synced "@),
{
}

/// The summary of an event names what was changed before what it was changed
/// to, or why: an entry before the reason, a line before its new account, a bank
/// account before the account it goes with, and a currency before its rate. A
/// posted entry is summed up by its memo and the sum of its amounts above zero.
pub proof fn summaries_end_with_the_details(e: Event)
    ensures
        e matches Event::JournalEntryVoided { entry_id, reason } ==> begins(
            e.summary().skip("Voided "@.len() as int),
            brief(entry_id, 8),
        ) && ends(e.summary(), brief(reason, 30)),
        e matches Event::JournalEntryUnvoided { entry_id, reason } ==> begins(
            e.summary().skip("Unvoided "@.len() as int),
            brief(entry_id, 8),
        ) && ends(e.summary(), brief(reason, 30)),
        e matches Event::JournalEntryAnnotated { entry_id, annotation } ==> begins(
            e.summary().skip("Annotated "@.len() as int),
            brief(entry_id, 8),
        ) && ends(e.summary(), brief(annotation, 30)),
        e matches Event::JournalLineReassigned { line_id, new_account_id } ==> begins(
            e.summary().skip("Reassigned line "@.len() as int),
            brief(line_id, 8),
        ) && ends(e.summary(), brief(new_account_id, 8)),
        e matches Event::PlaidItemDisconnected { item_id, reason } ==> begins(
            e.summary().skip("Disconnected "@.len() as int),
            brief(item_id, 8),
        ) && ends(e.summary(), brief(reason, 30)),
        e matches Event::PlaidAccountMapped { plaid_account_id, local_account_id } ==> begins(
            e.summary().skip("Mapped Plaid "@.len() as int),
            brief(plaid_account_id, 8),
        ) && ends(e.summary(), brief(local_account_id, 8)),
        e matches Event::PlaidAccountUnmapped { plaid_account_id, local_account_id } ==> begins(
            e.summary().skip("Unmapped Plaid "@.len() as int),
            brief(plaid_account_id, 8),
        ) && ends(e.summary(), brief(local_account_id, 8)),
        e matches Event::ExchangeRateRecorded { from_currency, to_currency, rate } ==> begins(
            e.summary(),
            from_currency@,
        ) && ends(e.summary(), rate@) && begins(
            e.summary().skip((from_currency@.len() + "/"@.len()) as int),
            to_currency@,
        ),
        e matches Event::JournalEntryPosted { memo, amounts } ==> begins(
            e.summary(),
            brief(memo, 40),
        ) && ends(
            e.summary(),
            money::signed_dollars(
                money::wrap64(
                    lists::sum_at(
                        amounts@.len(),
                        |i: int|
                            if amounts@[i] > 0 {
                                amounts@[i] as int
                            } else {
                                0
                            },
                    ),
                ),
            ) + ")"@,
        ),
        e matches Event::AccountCreated { account_number, name, account_type } ==> begins(
            e.summary(),
            account_number@,
        ) && begins(e.summary().skip((account_number@.len() + " "@.len()) as int), name@) && ends(
            e.summary(),
            account_type.title() + ")"@,
        ),
{
    if let Event::JournalEntryPosted { memo, amounts } = e {
        debits_are_above_zero(amounts@, amounts@.len());
    }
}

fn fit2(a: &String, n: usize, b: &String, m: usize) -> (r: bool)
    ensures
        r == (can_cut(*a, n as nat) && can_cut(*b, m as nat)),
{
    widgets::fits(a.as_str(), n) && widgets::fits(b.as_str(), m)
}

fn cut(s: &String, n: usize) -> (r: String)
    requires
        can_cut(*s, n as nat),
    ensures
        r@ == brief(*s, n as nat),
{
    widgets::truncate(s.as_str(), n)
}

/// A lead and a text cut short.
fn lead1(lead: &str, s: &String, n: usize) -> (r: String)
    requires
        can_cut(*s, n as nat),
    ensures
        r@ == lead@ + brief(*s, n as nat),
{
    let a = cut(s, n);
    text::cat2(lead, a.as_str())
}

/// A lead, a text cut short, a word between, and another text cut short.
fn lead2(lead: &str, s: &String, n: usize, between: &str, t: &String, m: usize) -> (r: String)
    requires
        can_cut(*s, n as nat),
        can_cut(*t, m as nat),
    ensures
        r@ == lead@ + brief(*s, n as nat) + between@ + brief(*t, m as nat),
{
    let a = cut(s, n);
    let b = cut(t, m);
    text::cat4(lead, a.as_str(), between, b.as_str())
}

/// Says in a few words what happened.
pub fn format_event_summary(event: &Event) -> (r: String)
    requires
        event.can_summarize(),
    ensures
        r@ == event.summary(),
{
    match event {
        Event::CompanyCreated { name, base_currency } => text::cat5(
            "Created company '",
            name.as_str(),
            "' (",
            base_currency.as_str(),
            ")",
        ),
        Event::CompanySettingsUpdated { field, new_value } => text::cat5(
            "Updated ",
            field.as_str(),
            " to '",
            new_value.as_str(),
            "'",
        ),
        Event::UserAdded { username, role } => text::cat4(
            "Added user '",
            username.as_str(),
            "' as ",
            role.as_str(),
        ),
        Event::UserModified { user_id, field } => {
            let lead = text::cat3("Modified ", field.as_str(), " for user ");
            lead1(lead.as_str(), user_id, 8)
        },
        Event::UserRemoved { user_id } => lead1("Removed user ", user_id, 8),
        Event::AccountCreated { account_number, name, account_type } => {
            let short = cut(name, 20);
            let mut out = text::cat5(
                account_number.as_str(),
                " ",
                name.as_str(),
                " - ",
                short.as_str(),
            );
            out.append(" (");
            out.append(account_type.label());
            out.append(")");
            out
        },
        Event::AccountUpdated { account_id, field, new_value } => {
            let lead = text::cat5(
                "Updated ",
                field.as_str(),
                " to '",
                new_value.as_str(),
                "' on ",
            );
            lead1(lead.as_str(), account_id, 8)
        },
        Event::AccountDeactivated { account_id } => lead1("Deactivated account ", account_id, 8),
        Event::AccountReactivated { account_id } => lead1("Reactivated account ", account_id, 8),
        Event::JournalEntryPosted { memo, amounts } => {
            let short = cut(memo, 40);
            let amount = money::signed_dollar_text(sum_debits(amounts));
            text::cat4(short.as_str(), " ($", amount.as_str(), ")")
        },
        _ => format_more(event),
    }
}

fn format_more(event: &Event) -> (r: String)
    requires
        event.can_summarize(),
        !(event is CompanyCreated),
        !(event is CompanySettingsUpdated),
        !(event is UserAdded),
        !(event is UserModified),
        !(event is UserRemoved),
        !(event is AccountCreated),
        !(event is AccountUpdated),
        !(event is AccountDeactivated),
        !(event is AccountReactivated),
        !(event is JournalEntryPosted),
    ensures
        r@ == event.summary(),
{
    match event {
        Event::JournalEntryVoided { entry_id, reason } => lead2(
            "Voided ",
            entry_id,
            8,
            " - ",
            reason,
            30,
        ),
        Event::JournalEntryUnvoided { entry_id, reason } => lead2(
            "Unvoided ",
            entry_id,
            8,
            " - ",
            reason,
            30,
        ),
        Event::JournalEntryAnnotated { entry_id, annotation } => lead2(
            "Annotated ",
            entry_id,
            8,
            " - ",
            annotation,
            30,
        ),
        Event::JournalLineReassigned { line_id, new_account_id } => lead2(
            "Reassigned line ",
            line_id,
            8,
            " to account ",
            new_account_id,
            8,
        ),
        Event::FiscalYearOpened { year } => {
            let y = text::signed_number(*year as i64);
            text::cat2("Opened fiscal year ", y.as_str())
        },
        Event::PeriodClosed { year, period } => {
            let y = text::signed_number(*year as i64);
            let p = text::number(*period as u64);
            text::cat4("Closed period ", p.as_str(), " of ", y.as_str())
        },
        Event::PeriodReopened { year, period, reason } => {
            let y = text::signed_number(*year as i64);
            let p = text::number(*period as u64);
            let lead = text::cat5("Reopened period ", p.as_str(), " of ", y.as_str(), " - ");
            lead1(lead.as_str(), reason, 20)
        },
        Event::YearEndClosed { year } => {
            let y = text::signed_number(*year as i64);
            text::cat2("Closed year-end ", y.as_str())
        },
        Event::CurrencyEnabled { code, name } => text::cat5(
            "Enabled currency ",
            code.as_str(),
            " (",
            name.as_str(),
            ")",
        ),
        Event::ExchangeRateRecorded { from_currency, to_currency, rate } => text::cat5(
            from_currency.as_str(),
            "/",
            to_currency.as_str(),
            " = ",
            rate.as_str(),
        ),
        Event::ReconciliationStarted { account_id, statement_date } => {
            let id = cut(account_id, 8);
            let day = statement_date.iso_text();
            text::cat4("Started reconciliation for ", id.as_str(), " on ", day.as_str())
        },
        Event::TransactionCleared { entry_id } => lead1("Cleared transaction ", entry_id, 8),
        Event::TransactionUncleared { entry_id } => lead1("Uncleared transaction ", entry_id, 8),
        Event::ReconciliationCompleted { reconciliation_id, difference } => {
            let id = cut(reconciliation_id, 8);
            let d = text::signed_number(*difference);
            text::cat5(
                "Completed reconciliation ",
                id.as_str(),
                " (diff: ",
                d.as_str(),
                ")",
            )
        },
        Event::ReconciliationAbandoned { reconciliation_id } => lead1(
            "Abandoned reconciliation ",
            reconciliation_id,
            8,
        ),
        Event::PlaidItemConnected { institution_name, account_count } => {
            let n = text::count(*account_count);
            text::cat5("Connected ", institution_name.as_str(), " (", n.as_str(), " accounts)")
        },
        Event::PlaidItemDisconnected { item_id, reason } => lead2(
            "Disconnected ",
            item_id,
            8,
            " - ",
            reason,
            30,
        ),
        Event::PlaidAccountMapped { plaid_account_id, local_account_id } => lead2(
            "Mapped Plaid ",
            plaid_account_id,
            8,
            " to ",
            local_account_id,
            8,
        ),
        Event::PlaidAccountUnmapped { plaid_account_id, local_account_id } => lead2(
            "Unmapped Plaid ",
            plaid_account_id,
            8,
            " from ",
            local_account_id,
            8,
        ),
        Event::PlaidTransactionsSynced { transactions_added, item_id } => {
            let n = text::number(*transactions_added);
            let lead = text::cat3("Synced ", n.as_str(), " transactions for ");
            lead1(lead.as_str(), item_id, 8)
        },
        _ => String::new(),
    }
}

} // verus!
