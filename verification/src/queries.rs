//! What the screens get from the books.

use vstd::prelude::*;

use crate::date::Date;
use crate::domain::{AccountType, ReportingFrequency};
use crate::text;

verus! {

/// A journal entry as a search finds it.
pub struct EntrySearchResult {
    pub entry_id: String,
    pub date: Date,
    pub memo: String,
    pub reference: Option<String>,
    pub total_amount: i64,
    pub is_void: bool,
    /// What the entry does to the account whose ledger is shown.
    pub account_amount: Option<i64>,
    /// The account on the other side, by name.
    pub other_account: Option<String>,
    pub other_account_id: Option<String>,
}

impl EntrySearchResult {
    /// An exact copy.
    pub fn duplicate(&self) -> (r: EntrySearchResult)
        ensures
            r == *self,
    {
        EntrySearchResult {
            entry_id: self.entry_id.clone(),
            date: self.date,
            memo: self.memo.clone(),
            reference: text::clone_opt(&self.reference),
            total_amount: self.total_amount,
            is_void: self.is_void,
            account_amount: self.account_amount,
            other_account: text::clone_opt(&self.other_account),
            other_account_id: text::clone_opt(&self.other_account_id),
        }
    }
}

/// An account with its balance.
pub struct AccountBalance {
    pub account_id: String,
    pub account_number: String,
    pub account_name: String,
    pub account_type: AccountType,
    pub balance: i64,
}

/// A line of the trial balance.
pub struct TrialBalanceLine {
    pub account_number: String,
    pub account_name: String,
    pub debit: Option<i64>,
    pub credit: Option<i64>,
}

/// A line of the balance sheet.
pub struct BalanceSheetLine {
    pub account_id: String,
    pub account_number: String,
    pub account_name: String,
    pub parent_id: Option<String>,
    pub balance: i64,
}

/// A section of the balance sheet.
pub struct BalanceSheetSection {
    pub lines: Vec<BalanceSheetLine>,
    pub total: i64,
}

/// A balance sheet.
pub struct BalanceSheet {
    pub as_of_date: Date,
    pub assets: BalanceSheetSection,
    pub liabilities: BalanceSheetSection,
    pub equity: BalanceSheetSection,
    pub total_assets: i64,
    pub total_liabilities_and_equity: i64,
}

/// A line of the income statement.
pub struct IncomeStatementLine {
    pub account_id: String,
    pub account_number: String,
    pub account_name: String,
    pub parent_id: Option<String>,
    pub balance: i64,
}

/// A section of the income statement.
pub struct IncomeStatementSection {
    pub lines: Vec<IncomeStatementLine>,
    pub total: i64,
}

/// An income statement.
pub struct IncomeStatement {
    pub start_date: Date,
    pub end_date: Date,
    pub revenue: IncomeStatementSection,
    pub expenses: IncomeStatementSection,
    pub net_income: i64,
}

/// Open amounts by how long they are overdue.
#[derive(Debug, Clone, Copy, PartialEq, Eq, Structural)]
pub struct AgingBucket {
    pub current: i64,
    pub days_1_30: i64,
    pub days_31_60: i64,
    pub days_61_90: i64,
    pub days_over_90: i64,
    pub total: i64,
}

impl Default for AgingBucket {
    fn default() -> (r: Self)
        ensures
            r == (AgingBucket {
                current: 0,
                days_1_30: 0,
                days_31_60: 0,
                days_61_90: 0,
                days_over_90: 0,
                total: 0,
            }),
    {
        AgingBucket {
            current: 0,
            days_1_30: 0,
            days_31_60: 0,
            days_61_90: 0,
            days_over_90: 0,
            total: 0,
        }
    }
}

/// A bill to be paid.
pub struct BillRow {
    pub due_date: String,
    pub vendor: String,
    pub amount: i64,
    pub amount_paid: i64,
    pub status: String,
}

/// An invoice to be received.
pub struct InvoiceRow {
    pub due_date: String,
    pub customer: String,
    pub amount: i64,
    pub amount_paid: i64,
    pub status: String,
}

/// How often a subscription recurs.
#[derive(Debug, Clone, Copy, PartialEq, Eq, Structural)]
pub enum SubscriptionFrequency {
    Weekly,
    Biweekly,
    Monthly,
    Quarterly,
    Annual,
}

impl SubscriptionFrequency {
    pub open spec fn title(self) -> Seq<char> {
        match self {
            SubscriptionFrequency::Weekly => "Weekly"@,
            SubscriptionFrequency::Biweekly => "Biweekly"@,
            SubscriptionFrequency::Monthly => "Monthly"@,
            SubscriptionFrequency::Quarterly => "Quarterly"@,
            SubscriptionFrequency::Annual => "Annual"@,
        }
    }

    pub fn label(&self) -> (r: &'static str)
        ensures
            r@ == self.title(),
    {
        match self {
            SubscriptionFrequency::Weekly => "Weekly",
            SubscriptionFrequency::Biweekly => "Biweekly",
            SubscriptionFrequency::Monthly => "Monthly",
            SubscriptionFrequency::Quarterly => "Quarterly",
            SubscriptionFrequency::Annual => "Annual",
        }
    }
}

/// A recurring transaction.
pub struct DetectedSubscription {
    pub memo: String,
    pub frequency: SubscriptionFrequency,
    pub avg_amount: i64,
    pub occurrence_count: usize,
    pub last_date: Date,
}

/// A registered event service.
pub struct ServiceDisplay {
    pub id: String,
    pub name: String,
    pub root_url: String,
    pub reporting: ReportingFrequency,
    pub status: String,
    pub last_synced_at: Option<String>,
    pub events_processed: i64,
    pub entries_created: i64,
}

/// What became of an event of a service.
pub enum SyncEventStatus {
    Created { entry_id: String },
    Skipped { reason: String },
    Error { message: String },
}

/// An event of a service and what became of it.
pub struct SyncEventResult {
    pub event_id: String,
    pub event_type: String,
    pub status: SyncEventStatus,
}

} // verus!
