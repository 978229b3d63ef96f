//! Accounts and the other things the books are made of.

use vstd::prelude::*;

use crate::lists;
use crate::text;

verus! {

/// The five kinds of accounts.
#[derive(Debug, Clone, Copy, PartialEq, Eq, Structural)]
pub enum AccountType {
    Asset,
    Liability,
    Equity,
    Revenue,
    Expense,
}

impl AccountType {
    /// What the kind is called.
    pub open spec fn title(self) -> Seq<char> {
        match self {
            AccountType::Asset => "Asset"@,
            AccountType::Liability => "Liability"@,
            AccountType::Equity => "Equity"@,
            AccountType::Revenue => "Revenue"@,
            AccountType::Expense => "Expense"@,
        }
    }

    pub fn label(&self) -> (r: &'static str)
        ensures
            r@ == self.title(),
    {
        match self {
            AccountType::Asset => "Asset",
            AccountType::Liability => "Liability",
            AccountType::Equity => "Equity",
            AccountType::Revenue => "Revenue",
            AccountType::Expense => "Expense",
        }
    }

    /// Whether accounts of this kind normally have a debit balance.
    pub open spec fn debit_side(self) -> bool {
        self is Asset || self is Expense
    }

    pub fn is_debit_side(&self) -> (r: bool)
        ensures
            r == self.debit_side(),
    {
        matches!(self, AccountType::Asset) || matches!(self, AccountType::Expense)
    }
}

/// An account of the chart of accounts.
pub struct Account {
    pub id: String,
    pub account_number: String,
    pub name: String,
    pub account_type: AccountType,
    pub parent_id: Option<String>,
    pub description: Option<String>,
    pub is_active: bool,
}

impl Account {
    /// An exact copy.
    pub fn duplicate(&self) -> (r: Account)
        ensures
            r == *self,
    {
        Account {
            id: self.id.clone(),
            account_number: self.account_number.clone(),
            name: self.name.clone(),
            account_type: self.account_type,
            parent_id: text::clone_opt(&self.parent_id),
            description: text::clone_opt(&self.description),
            is_active: self.is_active,
        }
    }
}

/// Copies accounts.
pub fn copy_accounts(v: &Vec<Account>) -> (r: Vec<Account>)
    ensures
        r@ == v@,
{
    let mut out: Vec<Account> = Vec::new();
    let mut i: usize = 0;
    while i < v.len()
        invariant
            i <= v@.len(),
            out@ == v@.take(i as int),
        decreases v@.len() - i,
    {
        out.push(v[i].duplicate());
        i = i + 1;
        assert(v@.take(i as int) =~= v@.take(i - 1).push(v@[i - 1]));
    }
    assert(v@.take(i as int) =~= v@);
    out
}

/// The first account with an identifier, by position.
pub open spec fn place_of(accounts: Seq<Account>, id: Seq<char>) -> Option<usize> {
    lists::first_position(accounts.len(), |i: int| accounts[i].id@ == id)
}

/// The first account with an identifier, by position.
pub fn find_account(accounts: &Vec<Account>, id: &str) -> (r: Option<usize>)
    ensures
        r == place_of(accounts@, id@),
        r is Some ==> r->0 < accounts@.len() && accounts@[r->0 as int].id@ == id@,
        forall|j: int|
            0 <= j < (if r is Some {
                r->0 as int
            } else {
                accounts@.len() as int
            }) ==> (#[trigger] accounts@[j]).id@ != id@,
{
    let mut i: usize = 0;
    let ghost p = |i: int| accounts@[i].id@ == id@;
    while i < accounts.len()
        invariant
            i <= accounts@.len(),
            p == (|i: int| accounts@[i].id@ == id@),
            forall|j: int| 0 <= j < i ==> (#[trigger] accounts@[j]).id@ != id@,
            forall|j: int| 0 <= j < i ==> !#[trigger] p(j),
        decreases accounts@.len() - i,
    {
        let found: bool = text::same_text(accounts[i].id.as_str(), id);
        assert(found == p(i as int));
        if found {
            proof {
                lists::first_position_is_first(accounts@.len(), p);
            }
            return Some(i);
        }
        i = i + 1;
    }
    proof {
        lists::first_position_is_first(accounts@.len(), p);
    }
    None
}

/// How often the sales of an event service are posted, from most detail to
/// least.
#[derive(Debug, Clone, Copy, PartialEq, Eq, Hash, Structural)]
pub enum ReportingFrequency {
    PerEvent,
    Daily,
    Weekly,
    Monthly,
}

impl ReportingFrequency {
    pub const ALL: [ReportingFrequency; 4] = [
        ReportingFrequency::PerEvent,
        ReportingFrequency::Daily,
        ReportingFrequency::Weekly,
        ReportingFrequency::Monthly,
    ];

    /// The next less detailed frequency, and from the least the most detailed.
    pub open spec fn following(self) -> ReportingFrequency {
        match self {
            ReportingFrequency::PerEvent => ReportingFrequency::Daily,
            ReportingFrequency::Daily => ReportingFrequency::Weekly,
            ReportingFrequency::Weekly => ReportingFrequency::Monthly,
            ReportingFrequency::Monthly => ReportingFrequency::PerEvent,
        }
    }

    pub open spec fn title(self) -> Seq<char> {
        match self {
            ReportingFrequency::PerEvent => "Per event"@,
            ReportingFrequency::Daily => "Daily"@,
            ReportingFrequency::Weekly => "Weekly"@,
            ReportingFrequency::Monthly => "Monthly"@,
        }
    }

    pub fn label(&self) -> (r: &'static str)
        ensures
            r@ == self.title(),
    {
        match self {
            ReportingFrequency::PerEvent => "Per event",
            ReportingFrequency::Daily => "Daily",
            ReportingFrequency::Weekly => "Weekly",
            ReportingFrequency::Monthly => "Monthly",
        }
    }
}

/// Stepping through the frequencies visits each of the four once and returns.
pub proof fn frequencies_form_a_cycle(f: ReportingFrequency, g: ReportingFrequency)
    ensures
        f.following() != f,
        f.following().following() != f,
        f.following().following().following() != f,
        f.following().following().following().following() == f,
        g == f || g == f.following() || g == f.following().following() || g
            == f.following().following().following(),
{
}

} // verus!
