//! The journal and the ledgers of single accounts: sorting, running balances,
//! selecting, voiding and reassigning entries.

use vstd::prelude::*;

use crate::collections;
use crate::collections::TextSet;
use crate::date::Date;
use crate::domain::Account;
use crate::input::KeyCode;
use crate::lists;
use crate::lists::{SortKey, SortValue};
use crate::money;
use crate::queries::EntrySearchResult;
use crate::selection;
use crate::selection::Selection;
use crate::text;

verus! {

/// An account an entry can be reassigned to.
pub struct ReassignAccount {
    pub id: String,
    pub account_number: String,
    pub name: String,
}

/// The line that is about to be reassigned.
pub struct PendingReassign {
    pub entry_id: String,
    pub line_id: String,
    pub current_account_name: String,
}

/// What the entries are sorted by.
#[derive(Debug, Clone, Copy, PartialEq, Eq, Structural)]
pub enum SortField {
    Date,
    Memo,
    Reference,
    Amount,
}

impl SortField {
    pub open spec fn following(self) -> SortField {
        match self {
            SortField::Date => SortField::Memo,
            SortField::Memo => SortField::Reference,
            SortField::Reference => SortField::Amount,
            SortField::Amount => SortField::Date,
        }
    }

    pub open spec fn title(self) -> Seq<char> {
        match self {
            SortField::Date => "Date"@,
            SortField::Memo => "Memo"@,
            SortField::Reference => "Reference"@,
            SortField::Amount => "Amount"@,
        }
    }

    pub fn next(&self) -> (r: Self)
        ensures
            r == self.following(),
    {
        match self {
            SortField::Date => SortField::Memo,
            SortField::Memo => SortField::Reference,
            SortField::Reference => SortField::Amount,
            SortField::Amount => SortField::Date,
        }
    }

    pub fn label(&self) -> (r: &'static str)
        ensures
            r@ == self.title(),
    {
        match self {
            SortField::Date => "Date",
            SortField::Memo => "Memo",
            SortField::Reference => "Reference",
            SortField::Amount => "Amount",
        }
    }
}

/// The direction of the sort.
#[derive(Debug, Clone, Copy, PartialEq, Eq, Structural)]
pub enum SortDirection {
    Ascending,
    Descending,
}

impl SortDirection {
    pub open spec fn opposite(self) -> SortDirection {
        match self {
            SortDirection::Ascending => SortDirection::Descending,
            SortDirection::Descending => SortDirection::Ascending,
        }
    }

    pub open spec fn arrow(self) -> Seq<char> {
        match self {
            SortDirection::Ascending => "↑"@,
            SortDirection::Descending => "↓"@,
        }
    }

    pub fn toggle(&self) -> (r: Self)
        ensures
            r == self.opposite(),
    {
        match self {
            SortDirection::Ascending => SortDirection::Descending,
            SortDirection::Descending => SortDirection::Ascending,
        }
    }

    pub fn symbol(&self) -> (r: &'static str)
        ensures
            r@ == self.arrow(),
    {
        match self {
            SortDirection::Ascending => "↑",
            SortDirection::Descending => "↓",
        }
    }
}

/// Four steps through the sort fields return, and turning the direction twice
/// changes nothing.
pub proof fn sort_settings_form_cycles(f: SortField, d: SortDirection)
    ensures
        f.following().following().following().following() == f,
        f.following() != f,
        f.following().following() != f,
        d.opposite().opposite() == d,
        d.opposite() != d,
{
}

pub struct JournalView {
    pub entries: Vec<EntrySearchResult>,
    pub state: Selection,
    pub filter_account: Option<Account>,
    pub sort_field: SortField,
    pub sort_direction: SortDirection,
    /// The entry whose voiding is to be confirmed.
    pub pending_void: Option<String>,
    pub confirm_void: bool,
    /// The balance after each entry, in the order of the entries.
    pub running_balances: Vec<i64>,
    pub show_void: bool,
    pub show_id_column: bool,
    pub multiselect_mode: bool,
    /// Whether moving selects the entries passed.
    pub multiselect_selecting: bool,
    pub selected_entry_ids: TextSet,
    pub reassign_mode: bool,
    pub reassign_pending: Option<PendingReassign>,
    pub reassign_accounts: Vec<ReassignAccount>,
    pub reassign_filter: String,
    pub reassign_state: Selection,
    /// The entry, the line and the new account of a confirmed reassignment.
    pub reassign_confirmed: Option<(String, String, String)>,
    /// The entries and the new account of a confirmed reassignment.
    pub bulk_reassign_confirmed: Option<(Vec<String>, String)>,
    pub bulk_void_pending: bool,
    pub bulk_void_confirmed: Option<Vec<String>>,
    /// How many rows fit on the screen.
    pub visible_height: u16,
    /// The account whose ledger is to be opened, and the entry to show there.
    pub pending_goto_account: Option<(String, String)>,
}

/// The meaning of the journal.
#[verifier::ext_equal]
pub ghost struct JournalState {
    pub entries: Seq<EntrySearchResult>,
    pub state: Selection,
    pub filter_account: Option<Account>,
    pub sort_field: SortField,
    pub sort_direction: SortDirection,
    pub pending_void: Option<Seq<char>>,
    pub confirm_void: bool,
    pub running_balances: Seq<i64>,
    pub show_void: bool,
    pub show_id_column: bool,
    pub multiselect_mode: bool,
    pub multiselect_selecting: bool,
    pub selected_entry_ids: Seq<Seq<char>>,
    pub reassign_mode: bool,
    pub reassign_pending: Option<PendingReassign>,
    pub reassign_accounts: Seq<ReassignAccount>,
    pub reassign_filter: Seq<char>,
    pub reassign_state: Selection,
    pub reassign_confirmed: Option<(Seq<char>, Seq<char>, Seq<char>)>,
    pub bulk_reassign_confirmed: Option<(Seq<Seq<char>>, Seq<char>)>,
    pub bulk_void_pending: bool,
    pub bulk_void_confirmed: Option<Seq<Seq<char>>>,
    pub visible_height: int,
    pub pending_goto_account: Option<(Seq<char>, Seq<char>)>,
}

/// The first offered account with an identifier, by position.
pub open spec fn place_of_choice(accounts: Seq<ReassignAccount>, id: Seq<char>) -> Option<usize> {
    lists::first_position(accounts.len(), |i: int| accounts[i].id@ == id)
}

impl JournalState {
    /// The choice of another account for a line, starting at the account it is
    /// on.
    pub open spec fn reassigning(
        self,
        accounts: Seq<ReassignAccount>,
        pending: PendingReassign,
        other: Option<Seq<char>>,
    ) -> JournalState {
        JournalState {
            reassign_mode: true,
            reassign_pending: Some(pending),
            reassign_accounts: accounts,
            reassign_filter: Seq::empty(),
            reassign_state: self.reassign_state.moved(
                Some(
                    match other {
                        Some(id) => match place_of_choice(accounts, id) {
                            Some(i) => i,
                            None => 0,
                        },
                        None => 0,
                    },
                ),
            ),
            reassign_confirmed: None,
            ..self
        }
    }

    /// The ledger of an account, its first entry highlighted.
    pub open spec fn in_ledger(self, account: Account) -> JournalState {
        JournalState {
            filter_account: Some(account),
            state: self.state.moved(Some(0)),
            ..self
        }
    }

    /// The choice of another account for all selected entries, if there are
    /// any.
    pub open spec fn bulk_reassigning(self, accounts: Seq<ReassignAccount>) -> JournalState {
        if self.selected_entry_ids.len() == 0 {
            self
        } else {
            JournalState {
                reassign_mode: true,
                reassign_pending: None,
                reassign_accounts: accounts,
                reassign_filter: Seq::empty(),
                reassign_state: self.reassign_state.moved(Some(0)),
                reassign_confirmed: None,
                bulk_reassign_confirmed: None,
                ..self
            }
        }
    }
}

impl JournalState {
    /// The state of a new screen.
    pub open spec fn fresh() -> JournalState {
        JournalState {
            entries: Seq::empty(),
            state: Selection::none(),
            filter_account: None,
            sort_field: SortField::Date,
            sort_direction: SortDirection::Descending,
            pending_void: None,
            confirm_void: false,
            running_balances: Seq::empty(),
            show_void: true,
            show_id_column: false,
            multiselect_mode: false,
            multiselect_selecting: false,
            selected_entry_ids: Seq::empty(),
            reassign_mode: false,
            reassign_pending: None,
            reassign_accounts: Seq::empty(),
            reassign_filter: Seq::empty(),
            reassign_state: Selection::none(),
            reassign_confirmed: None,
            bulk_reassign_confirmed: None,
            bulk_void_pending: false,
            bulk_void_confirmed: None,
            visible_height: 20,
            pending_goto_account: None,
        }
    }
}

impl View for JournalView {
    type V = JournalState;

    open spec fn view(&self) -> JournalState {
        JournalState {
            entries: self.entries@,
            state: self.state,
            filter_account: self.filter_account,
            sort_field: self.sort_field,
            sort_direction: self.sort_direction,
            pending_void: text::opt_text(self.pending_void),
            confirm_void: self.confirm_void,
            running_balances: self.running_balances@,
            show_void: self.show_void,
            show_id_column: self.show_id_column,
            multiselect_mode: self.multiselect_mode,
            multiselect_selecting: self.multiselect_selecting,
            selected_entry_ids: self.selected_entry_ids@,
            reassign_mode: self.reassign_mode,
            reassign_pending: self.reassign_pending,
            reassign_accounts: self.reassign_accounts@,
            reassign_filter: self.reassign_filter@,
            reassign_state: self.reassign_state,
            reassign_confirmed: match self.reassign_confirmed {
                Some((a, b, c)) => Some((a@, b@, c@)),
                None => None,
            },
            bulk_reassign_confirmed: match self.bulk_reassign_confirmed {
                Some((a, b)) => Some((text::texts(a@), b@)),
                None => None,
            },
            bulk_void_pending: self.bulk_void_pending,
            bulk_void_confirmed: match self.bulk_void_confirmed {
                Some(a) => Some(text::texts(a@)),
                None => None,
            },
            visible_height: self.visible_height as int,
            pending_goto_account: match self.pending_goto_account {
                Some((a, b)) => Some((a@, b@)),
                None => None,
            },
        }
    }
}

// ---- running balances ----

/// What an entry adds to the balance of the account: nothing if it is void.
pub open spec fn contribution(e: EntrySearchResult) -> int {
    if e.is_void {
        0
    } else {
        match e.account_amount {
            Some(a) => a as int,
            None => 0,
        }
    }
}

/// The sum of the contributions of the entries at positions below `n` that
/// satisfy `p`.
pub open spec fn sum_where(
    entries: Seq<EntrySearchResult>,
    n: nat,
    p: spec_fn(int) -> bool,
) -> int
    decreases n,
{
    if n == 0 {
        0
    } else {
        sum_where(entries, (n - 1) as nat, p) + (if p(n - 1) {
            contribution(entries[n - 1])
        } else {
            0
        })
    }
}

/// The dates of the entries.
pub open spec fn entry_dates(entries: Seq<EntrySearchResult>) -> Seq<SortValue> {
    entries.map_values(|e: EntrySearchResult| SortValue::Day(e.date))
}

/// Whether entry `j` is posted no later than entry `i`: on an earlier day, or
/// on the same day and no further down.
pub open spec fn posted_by(entries: Seq<EntrySearchResult>, j: int, i: int) -> bool {
    j == i || lists::sorts_before(entry_dates(entries), false, j, i)
}

/// The balance after entry `i`: what every entry posted by then contributes.
pub open spec fn balance_after(entries: Seq<EntrySearchResult>, i: int) -> int {
    sum_where(entries, entries.len(), |j: int| posted_by(entries, j, i))
}

/// The balance after each entry, in 64 bits.
pub open spec fn balances(entries: Seq<EntrySearchResult>) -> Seq<i64> {
    Seq::new(entries.len(), |i: int| money::wrap64(balance_after(entries, i)) as i64)
}

/// The sum of all contributions.
pub open spec fn final_balance(entries: Seq<EntrySearchResult>) -> int {
    sum_where(entries, entries.len(), |j: int| true)
}

proof fn sum_same(
    entries: Seq<EntrySearchResult>,
    n: nat,
    p: spec_fn(int) -> bool,
    q: spec_fn(int) -> bool,
)
    requires
        forall|j: int| 0 <= j < n ==> #[trigger] p(j) == q(j),
    ensures
        sum_where(entries, n, p) == sum_where(entries, n, q),
    decreases n,
{
    if n > 0 {
        sum_same(entries, (n - 1) as nat, p, q);
        assert(p(n - 1) == q(n - 1));
    }
}

proof fn sum_insert(
    entries: Seq<EntrySearchResult>,
    n: nat,
    p: spec_fn(int) -> bool,
    q: spec_fn(int) -> bool,
    x: int,
)
    requires
        0 <= x < n,
        !p(x),
        q(x),
        forall|j: int| 0 <= j < n && j != x ==> #[trigger] p(j) == q(j),
    ensures
        sum_where(entries, n, q) == sum_where(entries, n, p) + contribution(entries[x]),
    decreases n,
{
    if x == n - 1 {
        sum_same(entries, (n - 1) as nat, p, q);
    } else {
        sum_insert(entries, (n - 1) as nat, p, q, x);
        assert(p(n - 1) == q(n - 1));
    }
}

proof fn sum_none(entries: Seq<EntrySearchResult>, n: nat, p: spec_fn(int) -> bool)
    requires
        forall|j: int| 0 <= j < n ==> !#[trigger] p(j),
    ensures
        sum_where(entries, n, p) == 0,
    decreases n,
{
    if n > 0 {
        sum_none(entries, (n - 1) as nat, p);
        assert(!p(n - 1));
    }
}

/// After the last entry posted, the balance is the sum of all entries that are
/// not void.
pub proof fn last_balance_is_total(entries: Seq<EntrySearchResult>, last: int)
    requires
        0 <= last < entries.len(),
        forall|j: int| 0 <= j < entries.len() ==> #[trigger] posted_by(entries, j, last),
    ensures
        balance_after(entries, last) == final_balance(entries),
{
    sum_same(
        entries,
        entries.len(),
        |j: int| posted_by(entries, j, last),
        |j: int| true,
    );
}

/// A void entry leaves the balance as it was before it: between two entries
/// posted one right after the other, the balance changes by what the later one
/// contributes.
pub proof fn balance_steps_by_contribution(
    entries: Seq<EntrySearchResult>,
    earlier: int,
    later: int,
)
    requires
        0 <= earlier < entries.len(),
        0 <= later < entries.len(),
        earlier != later,
        posted_by(entries, earlier, later),
        forall|j: int|
            0 <= j < entries.len() && j != later ==> (#[trigger] posted_by(entries, j, later)
                <==> posted_by(entries, j, earlier)),
        !posted_by(entries, later, earlier),
    ensures
        balance_after(entries, later) == balance_after(entries, earlier) + contribution(
            entries[later],
        ),
{
    let p = |j: int| posted_by(entries, j, earlier);
    let q = |j: int| posted_by(entries, j, later);
    assert forall|j: int| 0 <= j < entries.len() && j != later implies #[trigger] p(j) == q(j) by {
        assert(posted_by(entries, j, later) <==> posted_by(entries, j, earlier));
    }
    sum_insert(entries, entries.len(), p, q, later);
}

/// The balance after an entry is the sum of the amounts of the entries that are
/// not void and stand on an earlier day, or on the same day and no further
/// down.
pub proof fn balances_add_up_what_is_not_void(entries: Seq<EntrySearchResult>, i: int)
    requires
        0 <= i < entries.len(),
    ensures
        balances(entries).len() == entries.len(),
        balances(entries)[i] == money::wrap64(
            lists::sum_at(
                entries.len(),
                |j: int|
                    if !entries[j].is_void && (entries[j].date.earlier(entries[i].date) || (
                    entries[j].date == entries[i].date && j <= i)) {
                        match entries[j].account_amount {
                            Some(a) => a as int,
                            None => 0,
                        }
                    } else {
                        0
                    },
            ),
        ),
{
    let value = |j: int|
        if !entries[j].is_void && (entries[j].date.earlier(entries[i].date) || (entries[j].date
            == entries[i].date && j <= i)) {
            match entries[j].account_amount {
                Some(a) => a as int,
                None => 0,
            }
        } else {
            0
        };
    let p = |j: int| posted_by(entries, j, i);
    assert forall|j: int| 0 <= j < entries.len() implies #[trigger] value(j) == (if p(j) {
        contribution(entries[j])
    } else {
        0
    }) by {
        let dates = entry_dates(entries);
        assert(dates[j] == SortValue::Day(entries[j].date));
        assert(dates[i] == SortValue::Day(entries[i].date));
    }
    sum_by_value(entries, entries.len(), p, value);
    money::wrapping_is_uniform(balance_after(entries, i), 0);
}

proof fn sum_by_value(
    entries: Seq<EntrySearchResult>,
    n: nat,
    p: spec_fn(int) -> bool,
    value: spec_fn(int) -> int,
)
    requires
        forall|j: int|
            0 <= j < n ==> #[trigger] value(j) == (if p(j) {
                contribution(entries[j])
            } else {
                0
            }),
    ensures
        sum_where(entries, n, p) == lists::sum_at(n, value),
    decreases n,
{
    if n > 0 {
        sum_by_value(entries, (n - 1) as nat, p, value);
        assert(value(n - 1) == (if p(n - 1) {
            contribution(entries[n - 1])
        } else {
            0
        }));
    }
}

/// Taking a void entry out of a ledger leaves the balances after all other
/// entries as they are.
pub proof fn void_entries_leave_the_balances(entries: Seq<EntrySearchResult>, x: int)
    requires
        0 <= x < entries.len(),
        entries[x].is_void,
    ensures
        balances(entries.remove(x)) == balances(entries).remove(x),
{
    let rest = entries.remove(x);
    assert forall|i: int| 0 <= i < rest.len() implies balances(rest)[i] == balances(
        entries,
    ).remove(x)[i] by {
        let at = if i < x {
            i
        } else {
            i + 1
        };
        balances_add_up_what_is_not_void(rest, i);
        balances_add_up_what_is_not_void(entries, at);
        let a = |j: int|
            if !entries[j].is_void && (entries[j].date.earlier(entries[at].date) || (
            entries[j].date == entries[at].date && j <= at)) {
                match entries[j].account_amount {
                    Some(a) => a as int,
                    None => 0,
                }
            } else {
                0
            };
        let b = |j: int|
            if !rest[j].is_void && (rest[j].date.earlier(rest[i].date) || (rest[j].date
                == rest[i].date && j <= i)) {
                match rest[j].account_amount {
                    Some(a) => a as int,
                    None => 0,
                }
            } else {
                0
            };
        assert(rest[i] == entries[at]);
        lists::sum_without(entries.len(), a, b, x);
    }
    assert(balances(rest) =~= balances(entries).remove(x));
}

/// The balance after each entry.
pub fn compute_balances(entries: &Vec<EntrySearchResult>) -> (r: Vec<i64>)
    ensures
        r@ == balances(entries@),
        r@.len() == entries@.len(),
        forall|i: int|
            0 <= i < r@.len() ==> #[trigger] r@[i] == money::wrap64(
                lists::sum_at(
                    entries@.len(),
                    |j: int|
                        if !entries@[j].is_void && (entries@[j].date.earlier(entries@[i].date) || (
                        entries@[j].date == entries@[i].date && j <= i)) {
                            match entries@[j].account_amount {
                                Some(a) => a as int,
                                None => 0,
                            }
                        } else {
                            0
                        },
                ),
            ),
{
    let n: usize = entries.len();
    let mut keys: Vec<SortKey> = Vec::new();
    let mut out: Vec<i64> = Vec::new();
    let mut i: usize = 0;
    while i < n
        invariant
            i <= n,
            n == entries@.len(),
            keys@.len() == i,
            out@.len() == i,
            forall|k: int|
                0 <= k < i ==> (#[trigger] keys@[k])@ == SortValue::Day(entries@[k].date),
        decreases n - i,
    {
        keys.push(SortKey::Day(entries[i].date));
        out.push(0);
        i = i + 1;
    }
    let ghost v = entry_dates(entries@);
    assert(lists::sort_values(keys@) =~= v);
    let order = lists::stable_order(&keys, false);
    let ghost ord = order@;
    proof {
        lists::stable_order_is_permutation(v, false, ord);
        sum_none(entries@, n as nat, |j: int| seen(ord, 0, j));
    }
    let mut running: i64 = 0;
    let mut k: usize = 0;
    while k < n
        invariant
            k <= n,
            n == entries@.len(),
            v == entry_dates(entries@),
            order@ == ord,
            lists::is_stable_order(v, false, ord),
            ord.no_duplicates(),
            forall|i: usize| i < v.len() ==> ord.contains(i),
            out@.len() == n,
            running == money::wrap64(
                sum_where(entries@, n as nat, |j: int| seen(ord, k as int, j)),
            ),
            forall|m: int|
                0 <= m < k ==> out@[#[trigger] ord[m] as int] == money::wrap64(
                    balance_after(entries@, ord[m] as int),
                ),
        decreases n - k,
    {
        let idx: usize = order[k];
        let e = &entries[idx];
        let amount: i64 = match e.account_amount {
            Some(a) => a,
            None => 0,
        };
        let ghost before = sum_where(entries@, n as nat, |j: int| seen(ord, k as int, j));
        proof {
            let p = |j: int| seen(ord, k as int, j);
            let q = |j: int| seen(ord, k + 1, j);
            assert(seen(ord, k + 1, idx as int)) by {
                assert(ord[k as int] == idx);
            }
            assert(!seen(ord, k as int, idx as int)) by {
                if seen(ord, k as int, idx as int) {
                    let m = choose|m: int| 0 <= m < k && ord[m] == idx as int;
                    assert(ord[m] == ord[k as int]);
                }
            }
            assert forall|j: int| 0 <= j < n && j != idx implies #[trigger] p(j) == q(j) by {
                if q(j) {
                    let m = choose|m: int| 0 <= m < k + 1 && ord[m] == j;
                    assert(m != k);
                    assert(ord[m] == j);
                }
                if p(j) {
                    let m = choose|m: int| 0 <= m < k && ord[m] == j;
                    assert(0 <= m < k + 1 && ord[m] == j);
                }
            }
            sum_insert(entries@, n as nat, p, q, idx as int);
            money::wrapping_is_uniform(before, contribution(*e));
            // What has been seen so far is what is posted by this entry.
            let b = |j: int| posted_by(entries@, j, idx as int);
            assert forall|j: int| 0 <= j < n implies #[trigger] q(j) == b(j) by {
                assert(ord.contains(j as usize));
                let m = choose|m: int| 0 <= m < ord.len() && ord[m] == j as usize;
                if m < k {
                    assert(lists::sorts_before(v, false, ord[m] as int, ord[k as int] as int));
                    assert(ord[m] == j);
                    assert(q(j));
                } else if m > k {
                    assert(lists::sorts_before(v, false, ord[k as int] as int, ord[m] as int));
                    lists::order_is_strict(v, false, ord[k as int] as int, ord[m] as int);
                    if q(j) {
                        let l = choose|l: int| 0 <= l < k + 1 && ord[l] == j;
                        assert(ord[l] == ord[m]);
                    }
                } else {
                    assert(ord[k as int] == j);
                    assert(q(j));
                }
            }
            sum_same(entries@, n as nat, q, b);
        }
        if !e.is_void {
            running = money::plus(running, amount);
        } else {
            proof {
                money::wrapping_is_uniform(before, 0);
            }
        }
        let ghost prior = out@;
        out.set(idx, running);
        proof {
            assert forall|m: int| 0 <= m < k + 1 implies out@[#[trigger] ord[m] as int]
                == money::wrap64(balance_after(entries@, ord[m] as int)) by {
                if m < k {
                    assert(ord[m] != ord[k as int]);
                    assert(out@[ord[m] as int] == prior[ord[m] as int]);
                }
            }
        }
        k = k + 1;
    }
    proof {
        assert forall|i: int| 0 <= i < n implies out@[i] == money::wrap64(
            balance_after(entries@, i),
        ) by {
            assert(ord.contains(i as usize));
            let m = choose|m: int| 0 <= m < ord.len() && ord[m] == i as usize;
            assert(out@[ord[m] as int] == money::wrap64(balance_after(entries@, ord[m] as int)));
        }
        assert(out@ =~= balances(entries@));
        let ledger = entries@;
        assert forall|i: int| 0 <= i < ledger.len() implies #[trigger] out@[i] == money::wrap64(
            lists::sum_at(
                ledger.len(),
                |j: int|
                    if !ledger[j].is_void && (ledger[j].date.earlier(ledger[i].date) || (
                    ledger[j].date == ledger[i].date && j <= i)) {
                        match ledger[j].account_amount {
                            Some(a) => a as int,
                            None => 0,
                        }
                    } else {
                        0
                    },
            ),
        ) by {
            balances_add_up_what_is_not_void(ledger, i);
        }
    }
    out
}

/// Whether position `j` is among the first `k` of an order.
spec fn seen(order: Seq<usize>, k: int, j: int) -> bool {
    exists|m: int| 0 <= m < k && order[m] == j
}

// ---- the state machine ----

/// What an entry is sorted by.
pub open spec fn sort_value(e: EntrySearchResult, field: SortField) -> SortValue {
    match field {
        SortField::Date => SortValue::Day(e.date),
        SortField::Memo => SortValue::Words(text::lowercase(e.memo@)),
        SortField::Reference => SortValue::Words(text::text_or_empty(e.reference)),
        SortField::Amount => SortValue::Amount(e.total_amount as int),
    }
}

/// The entries in sorted order, equal ones as they were.
pub open spec fn sorted_entries(
    entries: Seq<EntrySearchResult>,
    field: SortField,
    direction: SortDirection,
) -> Seq<EntrySearchResult> {
    let values = entries.map_values(|e: EntrySearchResult| sort_value(e, field));
    lists::order_of(values, direction is Descending).map_values(|k: usize| entries[k as int])
}

/// Whether an account matches a filter: its name in any case, or its number.
pub open spec fn account_matches(a: ReassignAccount, filter: Seq<char>) -> bool {
    let f = text::lowercase(filter);
    filter.len() == 0 || text::has_text(text::lowercase(a.name@), f) || text::has_text(
        a.account_number@,
        f,
    )
}

/// The smaller of two numbers.
pub open spec fn least(a: int, b: int) -> int {
    if a < b {
        a
    } else {
        b
    }
}

/// `a - b`, but not below zero.
pub open spec fn reduced(a: int, b: int) -> int {
    if a > b {
        a - b
    } else {
        0
    }
}

impl JournalState {
    /// The positions of the entries that are shown.
    pub open spec fn visible(self) -> Seq<usize> {
        lists::positions(
            self.entries.len(),
            |i: int| self.show_void || !self.entries[i].is_void,
        )
    }

    /// The highlighted entry.
    pub open spec fn current(self) -> Option<EntrySearchResult> {
        match self.state.selected {
            Some(i) => if i < self.visible().len() {
                Some(self.entries[self.visible()[i as int] as int])
            } else {
                None
            },
            None => None,
        }
    }

    /// The running balances of a ledger; the journal has none.
    pub open spec fn rebalanced(self) -> JournalState {
        JournalState {
            running_balances: if self.filter_account is Some {
                balances(self.entries)
            } else {
                Seq::empty()
            },
            ..self
        }
    }

    /// Sorted by the current field and direction.
    pub open spec fn sorted(self) -> JournalState {
        JournalState {
            entries: sorted_entries(self.entries, self.sort_field, self.sort_direction),
            ..self
        }.rebalanced()
    }

    /// An entry is highlighted, if it is shown.
    pub open spec fn on_entry(self, id: Seq<char>) -> JournalState {
        match self.shown_at(id) {
            Some(i) => JournalState { state: self.state.moved(Some(i)), ..self },
            None => self,
        }
    }

    pub open spec fn without_multiselect(self) -> JournalState {
        JournalState {
            multiselect_mode: false,
            multiselect_selecting: false,
            selected_entry_ids: Seq::empty(),
            ..self
        }
    }

    /// The highlighted entry selected, unless it is void.
    pub open spec fn with_current(self) -> JournalState {
        match self.current() {
            Some(e) => if e.is_void {
                self
            } else {
                JournalState {
                    selected_entry_ids: collections::including(
                        self.selected_entry_ids,
                        e.entry_id@,
                    ),
                    ..self
                }
            },
            None => self,
        }
    }

    pub open spec fn multiselect_toggled(self) -> JournalState {
        if self.filter_account is None {
            self
        } else if self.multiselect_mode {
            self.without_multiselect()
        } else {
            JournalState {
                multiselect_mode: true,
                multiselect_selecting: true,
                ..self
            }.with_current()
        }
    }

    pub open spec fn current_toggled(self) -> JournalState {
        match self.current() {
            Some(e) => if e.is_void {
                self
            } else if self.selected_entry_ids.contains(e.entry_id@) {
                JournalState {
                    selected_entry_ids: collections::without(
                        self.selected_entry_ids,
                        e.entry_id@,
                    ),
                    ..self
                }
            } else {
                JournalState {
                    selected_entry_ids: self.selected_entry_ids.push(e.entry_id@),
                    ..self
                }
            },
            None => self,
        }
    }

    /// The shown position of an entry.
    pub open spec fn shown_at(self, entry_id: Seq<char>) -> Option<usize> {
        lists::first_position(self.visible().len(), self.is_shown_at(entry_id))
    }

    /// Whether an entry stands at a shown position.
    pub open spec fn is_shown_at(self, entry_id: Seq<char>) -> spec_fn(int) -> bool {
        |k: int| self.entries[self.visible()[k] as int].entry_id@ == entry_id
    }

    /// Void entries hidden or shown. The highlighted entry stays highlighted
    /// if it is still there; otherwise the position is kept as far as it goes.
    pub open spec fn void_toggled(self) -> JournalState {
        let s = JournalState { show_void: !self.show_void, ..self };
        let n = s.visible().len();
        let same = match self.current() {
            Some(e) => s.shown_at(e.entry_id@),
            None => None,
        };
        let to = if n == 0 {
            None
        } else if same is Some {
            same
        } else {
            match self.state.selected {
                Some(i) => Some(least(i as int, n - 1) as usize),
                None => Some(0usize),
            }
        };
        JournalState { state: s.state.moved(to), ..s }
    }

    pub open spec fn with_offset(self, offset: int) -> JournalState {
        JournalState {
            state: Selection { selected: self.state.selected, offset: offset as usize },
            ..self
        }
    }

    /// Scrolled after moving down to `to`, keeping a fifth of the rows below.
    pub open spec fn scrolled_down(self, to: int) -> JournalState {
        let h = self.visible_height;
        let threshold = (h * 80) / 100;
        let count = self.visible().len();
        if h == 0 {
            self
        } else if to == 0 {
            self.with_offset(0)
        } else if reduced(to, self.state.offset as int) >= threshold {
            self.with_offset(least(reduced(to, threshold), reduced(count as int, h)))
        } else {
            self
        }
    }

    /// Scrolled after moving up to `to`, keeping a fifth of the rows above.
    pub open spec fn scrolled_up(self, to: int) -> JournalState {
        let h = self.visible_height;
        let threshold = (h * 20) / 100;
        let count = self.visible().len();
        let at = reduced(to, self.state.offset as int);
        if h == 0 {
            self
        } else if to == count - 1 {
            self.with_offset(reduced(count as int, h))
        } else if at <= threshold && self.state.offset > 0 {
            self.with_offset(reduced(self.state.offset as int, reduced(threshold, at) + 1))
        } else {
            self
        }
    }

    pub open spec fn moved_down(self) -> JournalState {
        let n = self.visible().len();
        if n == 0 {
            self
        } else {
            let to = selection::down_around(self.state.selected, n);
            JournalState { state: self.state.moved(Some(to)), ..self }.scrolled_down(to as int)
        }
    }

    pub open spec fn moved_up(self) -> JournalState {
        let n = self.visible().len();
        if n == 0 {
            self
        } else {
            let to = match self.state.selected {
                Some(i) => selection::up_around(Some(i), n),
                None => 0,
            };
            JournalState { state: self.state.moved(Some(to)), ..self }.scrolled_up(to as int)
        }
    }

    pub open spec fn at_first(self) -> JournalState {
        if self.visible().len() > 0 {
            JournalState { state: Selection { selected: Some(0), offset: 0 }, ..self }
        } else {
            self
        }
    }

    pub open spec fn at_last(self) -> JournalState {
        let n = self.visible().len();
        if n > 0 {
            JournalState {
                state: Selection {
                    selected: Some((n - 1) as usize),
                    offset: reduced(n - 1, reduced(self.visible_height, 1)) as usize,
                },
                ..self
            }
        } else {
            self
        }
    }

    /// How far a page goes.
    pub open spec fn page(self) -> int {
        if self.visible_height > 10 {
            self.visible_height
        } else {
            10
        }
    }

    pub open spec fn paged_up(self) -> JournalState {
        if self.visible().len() == 0 {
            self
        } else {
            JournalState {
                state: Selection {
                    selected: Some(
                        match self.state.selected {
                            Some(i) => reduced(i as int, self.page()) as usize,
                            None => 0,
                        },
                    ),
                    offset: reduced(self.state.offset as int, self.page()) as usize,
                },
                ..self
            }
        }
    }

    pub open spec fn paged_down(self) -> JournalState {
        let n = self.visible().len();
        if n == 0 {
            self
        } else {
            JournalState {
                state: Selection {
                    selected: Some(
                        match self.state.selected {
                            Some(i) => least(i + self.page(), n - 1) as usize,
                            None => 0,
                        },
                    ),
                    offset: least(
                        self.state.offset + self.page(),
                        reduced(n as int, self.visible_height),
                    ) as usize,
                },
                ..self
            }
        }
    }

    pub open spec fn void_started(self) -> JournalState {
        match self.current() {
            Some(e) => JournalState {
                pending_void: Some(e.entry_id@),
                confirm_void: false,
                ..self
            },
            None => self,
        }
    }

    pub open spec fn goto_requested(self) -> JournalState {
        match self.current() {
            Some(e) => match e.other_account_id {
                Some(other) => JournalState {
                    pending_goto_account: Some((other@, e.entry_id@)),
                    ..self
                },
                None => self,
            },
            None => self,
        }
    }

    pub open spec fn unfiltered(self) -> JournalState {
        JournalState { filter_account: None, ..self }.without_multiselect()
    }

    /// The accounts that match the filter, by position.
    pub open spec fn filtered(self) -> Seq<usize> {
        lists::positions(
            self.reassign_accounts.len(),
            |i: int| account_matches(self.reassign_accounts[i], self.reassign_filter),
        )
    }

    pub open spec fn reassign_cancelled(self) -> JournalState {
        JournalState {
            reassign_mode: false,
            reassign_pending: None,
            reassign_filter: Seq::empty(),
            ..self
        }
    }

    pub open spec fn after_reassign_key(self, key: KeyCode) -> JournalState {
        let n = self.filtered().len();
        match key {
            KeyCode::Esc => self.reassign_cancelled(),
            KeyCode::Enter => match self.reassign_state.selected {
                Some(i) => if i < n {
                    let account = self.reassign_accounts[self.filtered()[i as int] as int];
                    match self.reassign_pending {
                        None => JournalState {
                            bulk_reassign_confirmed: Some(
                                (self.selected_entry_ids, account.id@),
                            ),
                            ..self
                        }.without_multiselect().reassign_cancelled(),
                        Some(pending) => JournalState {
                            reassign_confirmed: Some(
                                (pending.entry_id@, pending.line_id@, account.id@),
                            ),
                            ..self
                        }.reassign_cancelled(),
                    }
                } else {
                    self
                },
                None => self,
            },
            KeyCode::Up => if n > 0 {
                JournalState {
                    reassign_state: self.reassign_state.moved(
                        Some(selection::up_around(self.reassign_state.selected, n)),
                    ),
                    ..self
                }
            } else {
                self
            },
            KeyCode::Down => if n > 0 {
                JournalState {
                    reassign_state: self.reassign_state.moved(
                        Some(selection::down_around(self.reassign_state.selected, n)),
                    ),
                    ..self
                }
            } else {
                self
            },
            KeyCode::Backspace => JournalState {
                reassign_filter: text::without_last(self.reassign_filter),
                reassign_state: self.reassign_state.moved(Some(0)),
                ..self
            },
            KeyCode::Char(c) => JournalState {
                reassign_filter: self.reassign_filter.push(c),
                reassign_state: self.reassign_state.moved(Some(0)),
                ..self
            },
            _ => self,
        }
    }

    pub open spec fn after_void_key(self, key: KeyCode) -> JournalState {
        match key {
            KeyCode::Char('y') | KeyCode::Char('Y') => JournalState {
                confirm_void: true,
                ..self
            },
            KeyCode::Char('n') | KeyCode::Char('N') | KeyCode::Esc | KeyCode::Enter =>
                JournalState { pending_void: None, ..self },
            _ => self,
        }
    }

    pub open spec fn after_bulk_void_key(self, key: KeyCode) -> JournalState {
        match key {
            KeyCode::Char('y') | KeyCode::Char('Y') => JournalState {
                bulk_void_confirmed: Some(self.selected_entry_ids),
                bulk_void_pending: false,
                ..self
            }.without_multiselect(),
            KeyCode::Char('n') | KeyCode::Char('N') | KeyCode::Esc | KeyCode::Enter =>
                JournalState { bulk_void_pending: false, ..self },
            _ => self,
        }
    }

    /// Whether moving selects, changed; the highlighted entry goes with it.
    pub open spec fn selecting_toggled(self) -> JournalState {
        let s = JournalState { multiselect_selecting: !self.multiselect_selecting, ..self };
        if s.multiselect_selecting {
            s.with_current()
        } else {
            match s.current() {
                Some(e) => JournalState {
                    selected_entry_ids: collections::without(s.selected_entry_ids, e.entry_id@),
                    ..s
                },
                None => s,
            }
        }
    }

    pub open spec fn after_multiselect_key(self, key: KeyCode) -> (JournalState, bool) {
        match key {
            KeyCode::Up | KeyCode::Char('k') => (
                if self.multiselect_selecting {
                    self.moved_up().with_current()
                } else {
                    self.moved_up()
                },
                false,
            ),
            KeyCode::Down | KeyCode::Char('j') => (
                if self.multiselect_selecting {
                    self.moved_down().with_current()
                } else {
                    self.moved_down()
                },
                false,
            ),
            KeyCode::Char(' ') => (self.selecting_toggled(), false),
            KeyCode::Char('a') => (self, true),
            KeyCode::Char('x') => (
                JournalState {
                    bulk_void_pending: self.bulk_void_pending || self.selected_entry_ids.len()
                        > 0,
                    ..self
                },
                false,
            ),
            KeyCode::Esc => (self.without_multiselect(), false),
            KeyCode::Home => (self.at_first(), false),
            KeyCode::End => (self.at_last(), false),
            _ => (self, false),
        }
    }

    pub open spec fn after_plain_key(self, key: KeyCode) -> (JournalState, bool) {
        let ledger = self.filter_account is Some;
        match key {
            KeyCode::Up | KeyCode::Char('k') => (self.moved_up(), false),
            KeyCode::Down | KeyCode::Char('j') => (self.moved_down(), false),
            KeyCode::Home => (self.at_first(), false),
            KeyCode::End => (self.at_last(), false),
            KeyCode::PageUp => (self.paged_up(), false),
            KeyCode::PageDown => (self.paged_down(), false),
            KeyCode::Char('s') => (
                JournalState { sort_field: self.sort_field.following(), ..self }.sorted(),
                false,
            ),
            KeyCode::Char('r') => (
                JournalState { sort_direction: self.sort_direction.opposite(), ..self }.sorted(),
                false,
            ),
            KeyCode::Char('v') => (
                if ledger {
                    self.multiselect_toggled()
                } else {
                    self
                },
                false,
            ),
            KeyCode::Char('x') => (self.void_started(), false),
            KeyCode::Char('h') => (self.void_toggled(), false),
            KeyCode::Char('c') => (
                JournalState { show_id_column: !self.show_id_column, ..self },
                false,
            ),
            KeyCode::Char('a') => (self, true),
            KeyCode::Char('g') => (
                if ledger {
                    self.goto_requested()
                } else {
                    self
                },
                false,
            ),
            KeyCode::Esc | KeyCode::Backspace => if ledger {
                (self.unfiltered(), true)
            } else {
                (self, false)
            },
            _ => (self, false),
        }
    }

    /// What a key does. The answer is true if it calls for a reassignment or
    /// left a ledger.
    pub open spec fn after_key(self, key: KeyCode) -> (JournalState, bool) {
        if self.reassign_mode {
            (self.after_reassign_key(key), false)
        } else if self.pending_void is Some {
            (self.after_void_key(key), false)
        } else if self.bulk_void_pending {
            (self.after_bulk_void_key(key), false)
        } else if self.multiselect_mode {
            self.after_multiselect_key(key)
        } else {
            self.after_plain_key(key)
        }
    }

    /// Whether the entry whose voiding is to be confirmed is void already.
    pub open spec fn unvoiding(self) -> bool {
        self.pending_void is Some && exists|i: int|
            0 <= i < self.entries.len() && (#[trigger] self.entries[i]).entry_id@
                == self.pending_void->0 && self.entries[i].is_void
    }
}

/// Sorting shows the same entries: every entry once, in another order.
pub proof fn sorting_keeps_entries(s: JournalState)
    requires
        s.entries.len() <= usize::MAX,
    ensures
        s.sorted().entries.len() == s.entries.len(),
        s.sorted().entries.to_multiset() == s.entries.to_multiset(),
{
    let values = s.entries.map_values(|e: EntrySearchResult| sort_value(e, s.sort_field));
    let d = s.sort_direction is Descending;
    let order = lists::order_of(values, d);
    lists::stable_order_exists(values, d);
    lists::stable_order_is_permutation(values, d, order);
    lists::permuted_multiset(s.entries, order);
    assert(s.sorted().entries =~= order.map_values(|k: usize| s.entries[k as int]));
}

/// After sorting by date in ascending order, no entry is dated before the one
/// above it.
pub proof fn sorting_by_date_orders_days(s: JournalState, i: int, j: int)
    requires
        s.entries.len() <= usize::MAX,
        s.sort_field is Date,
        s.sort_direction is Ascending,
        0 <= i < j < s.entries.len(),
    ensures
        !s.sorted().entries[j].date.earlier(s.sorted().entries[i].date),
{
    let values = s.entries.map_values(|e: EntrySearchResult| sort_value(e, s.sort_field));
    let order = lists::order_of(values, false);
    lists::stable_order_exists(values, false);
    assert(lists::sorts_before(values, false, order[i] as int, order[j] as int));
    lists::order_is_strict(values, false, order[i] as int, order[j] as int);
}

/// After sorting, the entries are in the order of the chosen field: days by the
/// calendar, amounts by size, references by code points, and memos by code
/// points without regard to case. The first of two entries never comes after
/// the second one in ascending order, nor before it in descending order.
pub proof fn sorting_orders_by_the_field(s: JournalState, i: int, j: int)
    requires
        s.entries.len() <= usize::MAX,
        0 <= i < j < s.entries.len(),
    ensures
        ({
            let rising = s.sort_direction is Ascending;
            let a = s.sorted().entries[i];
            let b = s.sorted().entries[j];
            let (low, high) = if rising {
                (a, b)
            } else {
                (b, a)
            };
            &&& s.sort_field is Date ==> !high.date.earlier(low.date)
            &&& s.sort_field is Amount ==> low.total_amount <= high.total_amount
            &&& s.sort_field is Memo ==> !text::text_less(
                text::lowercase(high.memo@),
                text::lowercase(low.memo@),
            )
            &&& s.sort_field is Reference ==> !text::text_less(
                text::text_or_empty(high.reference),
                text::text_or_empty(low.reference),
            )
        }),
{
    let values = s.entries.map_values(|e: EntrySearchResult| sort_value(e, s.sort_field));
    let d = s.sort_direction is Descending;
    let order = lists::order_of(values, d);
    lists::stable_order_exists(values, d);
    let x = order[i] as int;
    let y = order[j] as int;
    assert(lists::sorts_before(values, d, x, y));
    lists::order_is_strict(values, d, x, y);
    assert(s.sorted().entries[i] == s.entries[x]);
    assert(s.sorted().entries[j] == s.entries[y]);
    assert(values[x] == sort_value(s.entries[x], s.sort_field));
    assert(values[y] == sort_value(s.entries[y], s.sort_field));
}

/// Entries are hidden exactly if they are void and void entries are not to be
/// shown; the shown ones stay in order.
pub proof fn only_void_entries_are_hidden(s: JournalState)
    requires
        s.entries.len() <= usize::MAX,
    ensures
        forall|i: usize|
            i < s.entries.len() ==> (#[trigger] s.visible().contains(i) <==> s.show_void
                || !s.entries[i as int].is_void),
        forall|j: int, k: int|
            0 <= j < k < s.visible().len() ==> #[trigger] s.visible()[j] < #[trigger] s.visible()[k],
{
    let p = |i: int| s.show_void || !s.entries[i].is_void;
    lists::positions_are_exact(s.entries.len(), p);
    assert forall|i: usize| i < s.entries.len() implies (#[trigger] s.visible().contains(i)
        <==> s.show_void || !s.entries[i as int].is_void) by {
        assert(p(i as int) == (s.show_void || !s.entries[i as int].is_void));
    }
}

/// Confirming a reassignment takes the highlighted one of the accounts that
/// match the filter: the pending line goes there, or, if none is pending, all
/// selected entries do. Leaving it with Escape reassigns nothing.
pub proof fn reassigning_takes_the_highlighted_account(s: JournalState)
    requires
        s.reassign_state.selected is Some,
        s.reassign_state.selected->0 < s.filtered().len(),
        s.reassign_confirmed is None,
        s.bulk_reassign_confirmed is None,
    ensures
        ({
            let chosen = s.reassign_accounts[s.filtered()[s.reassign_state.selected->0 as int] as int];
            let t = s.after_reassign_key(KeyCode::Enter);
            let u = s.after_reassign_key(KeyCode::Esc);
            &&& s.reassign_pending matches Some(p) ==> t.reassign_confirmed == Some(
                (p.entry_id@, p.line_id@, chosen.id@),
            ) && t.bulk_reassign_confirmed is None
            &&& s.reassign_pending is None ==> t.bulk_reassign_confirmed == Some(
                (s.selected_entry_ids, chosen.id@),
            ) && t.reassign_confirmed is None
            &&& !t.reassign_mode
            &&& u.reassign_confirmed is None && u.bulk_reassign_confirmed is None
                && !u.reassign_mode
            &&& t.entries == s.entries && u.entries == s.entries
        }),
{
}

/// Voiding concerns the highlighted entry: it is pending until it is confirmed
/// with "y", and given up with "n", Escape or Enter.
pub proof fn voiding_concerns_the_highlighted_entry(s: JournalState)
    requires
        s.current() is Some,
    ensures
        ({
            let asked = s.void_started();
            let yes = asked.after_void_key(KeyCode::Char('y'));
            &&& yes.confirm_void && yes.pending_void == Some(s.current()->0.entry_id@)
            &&& !asked.confirm_void
            &&& asked.after_void_key(KeyCode::Char('n')).pending_void is None
            &&& asked.after_void_key(KeyCode::Esc).pending_void is None
            &&& asked.after_void_key(KeyCode::Enter).pending_void is None
            &&& yes.entries == s.entries
        }),
{
}

proof fn shown_entry_is_found(t: JournalState, id: Seq<char>, at: int)
    requires
        t.visible().len() <= usize::MAX,
        0 <= at < t.visible().len(),
        t.entries[t.visible()[at] as int].entry_id@ == id,
    ensures
        t.shown_at(id) is Some,
        t.shown_at(id)->0 < t.visible().len(),
        t.entries[t.visible()[t.shown_at(id)->0 as int] as int].entry_id@ == id,
{
    let named = t.is_shown_at(id);
    lists::first_position_is_first(t.visible().len(), named);
    assert(named(at));
}

/// Hiding or showing void entries keeps the highlighted entry highlighted, if
/// it is still shown.
pub proof fn hiding_keeps_the_highlight(s: JournalState)
    requires
        s.entries.len() <= usize::MAX,
        s.current() is Some,
        !s.current()->0.is_void,
    ensures
        s.void_toggled().current() is Some,
        s.void_toggled().current()->0.entry_id@ == s.current()->0.entry_id@,
{
    let t = JournalState { show_void: !s.show_void, ..s };
    let id = s.current()->0.entry_id@;
    let p = |i: int| s.show_void || !s.entries[i].is_void;
    let q = |i: int| t.show_void || !t.entries[i].is_void;
    lists::positions_are_exact(s.entries.len(), p);
    lists::positions_are_exact(t.entries.len(), q);
    let at = s.visible()[s.state.selected->0 as int];
    assert(q(at as int));
    assert(t.visible().contains(at));
    let k = choose|k: int| 0 <= k < t.visible().len() && t.visible()[k] == at;
    shown_entry_is_found(t, id, k);
    let u = s.void_toggled();
    let r = |i: int| u.show_void || !u.entries[i].is_void;
    assert(u.show_void == t.show_void && u.entries == t.entries);
    lists::positions_agree(u.entries.len(), r, q);
    assert(u.visible() == t.visible());
    assert(u.state.selected == t.shown_at(id));
}

/// An entry of the list that is not void has the identifier.
pub open spec fn valid_entry(entries: Seq<EntrySearchResult>, id: Seq<char>) -> bool {
    exists|i: int|
        0 <= i < entries.len() && (#[trigger] entries[i]).entry_id@ == id && !entries[i].is_void
}

proof fn added_entry_is_valid(s: JournalState, id: Seq<char>)
    requires
        s.entries.len() <= usize::MAX,
        s.with_current().selected_entry_ids.contains(id),
    ensures
        s.selected_entry_ids.contains(id) || valid_entry(s.entries, id),
{
    if !s.selected_entry_ids.contains(id) && s.current() is Some {
        let p = |i: int| s.show_void || !s.entries[i].is_void;
        lists::positions_are_exact(s.entries.len(), p);
        let at = s.visible()[s.state.selected->0 as int] as int;
        let e = s.entries[at];
        let added = collections::including(s.selected_entry_ids, e.entry_id@);
        assert(added.contains(id));
        let k = choose|k: int| 0 <= k < added.len() && added[k] == id;
        if k < s.selected_entry_ids.len() {
            assert(s.selected_entry_ids[k] == id);
        }
        assert(s.entries[at].entry_id@ == id && !s.entries[at].is_void);
    }
}

/// Keys never select a void entry: what they add to the selection is an entry
/// of the list that is not void.
pub proof fn void_entries_are_not_selected(s: JournalState, key: KeyCode, id: Seq<char>)
    requires
        s.entries.len() <= usize::MAX,
        s.after_key(key).0.selected_entry_ids.contains(id),
        !s.selected_entry_ids.contains(id),
    ensures
        valid_entry(s.entries, id),
{
    let open = JournalState { multiselect_mode: true, multiselect_selecting: true, ..s };
    let selecting = JournalState { multiselect_selecting: !s.multiselect_selecting, ..s };
    assert(s.after_key(key).0 == s.moved_up().with_current() || s.after_key(key).0
        == s.moved_down().with_current() || s.after_key(key).0 == selecting.with_current()
        || s.after_key(key).0 == open.with_current()) by {
        if let Some(e) = selecting.current() {
            let keep = |y: Seq<char>| y != e.entry_id@;
            let left = collections::without(s.selected_entry_ids, e.entry_id@);
            if left.contains(id) {
                let k = choose|k: int| 0 <= k < left.len() && left[k] == id;
                filtered_is_contained(s.selected_entry_ids, keep, k);
            }
        }
    }
    if s.after_key(key).0 == s.moved_up().with_current() {
        added_entry_is_valid(s.moved_up(), id);
    } else if s.after_key(key).0 == s.moved_down().with_current() {
        added_entry_is_valid(s.moved_down(), id);
    } else if s.after_key(key).0 == selecting.with_current() {
        added_entry_is_valid(selecting, id);
    } else {
        added_entry_is_valid(open, id);
    }
}

proof fn filtered_is_contained(v: Seq<Seq<char>>, keep: spec_fn(Seq<char>) -> bool, k: int)
    requires
        0 <= k < v.filter(keep).len(),
    ensures
        v.contains(v.filter(keep)[k]),
    decreases v.len(),
{
    reveal(Seq::filter);
    if v.len() > 0 {
        let front = v.drop_last();
        let kept = front.filter(keep);
        if k < kept.len() {
            filtered_is_contained(front, keep, k);
            let j = choose|j: int| 0 <= j < front.len() && front[j] == kept[k];
            assert(v[j] == kept[k]);
            assert(v.filter(keep)[k] == kept[k]);
        } else {
            assert(v.filter(keep)[k] == v[v.len() - 1]);
        }
    }
}

/// While a confirmation or the reassignment is open, keys change nothing of
/// the entries, the filter, the sort settings or the highlighted row.
pub proof fn confirmations_capture_keys(s: JournalState, key: KeyCode)
    requires
        s.reassign_mode || s.pending_void is Some || s.bulk_void_pending,
    ensures
        ({
            let t = s.after_key(key).0;
            &&& t.entries == s.entries
            &&& t.state == s.state
            &&& t.filter_account == s.filter_account
            &&& t.sort_field == s.sort_field
            &&& t.sort_direction == s.sort_direction
            &&& t.show_void == s.show_void
            &&& !s.after_key(key).1
        }),
{
}

/// The entries confirmed for voiding are exactly the selected ones, and only
/// the answer yes confirms them.
pub proof fn bulk_void_needs_yes(s: JournalState, key: KeyCode)
    requires
        !s.reassign_mode,
        s.pending_void is None,
        s.bulk_void_pending,
        s.bulk_void_confirmed is None,
    ensures
        s.after_key(key).0.bulk_void_confirmed is Some <==> key == KeyCode::Char('y') || key
            == KeyCode::Char('Y'),
        s.after_key(key).0.bulk_void_confirmed is Some ==> s.after_key(key).0.bulk_void_confirmed->0
            == s.selected_entry_ids,
{
}

fn key_of(e: &EntrySearchResult, field: SortField) -> (r: SortKey)
    ensures
        r@ == sort_value(*e, field),
{
    match field {
        SortField::Date => SortKey::Day(e.date),
        SortField::Memo => SortKey::Words(e.memo.as_str().to_lowercase()),
        SortField::Reference => SortKey::Words(text::or_empty(&e.reference)),
        SortField::Amount => SortKey::Amount(e.total_amount),
    }
}

fn lower_matches(a: &ReassignAccount, filter: &str, filter_lower: &str) -> (r: bool)
    requires
        filter_lower@ == text::lowercase(filter@),
    ensures
        r == account_matches(*a, filter@),
{
    if filter.is_empty() {
        return true;
    }
    let name = a.name.as_str().to_lowercase();
    text::contains(name.as_str(), filter_lower) || text::contains(
        a.account_number.as_str(),
        filter_lower,
    )
}

fn minimum(a: usize, b: usize) -> (r: usize)
    ensures
        r == least(a as int, b as int),
{
    if a < b {
        a
    } else {
        b
    }
}

impl JournalView {
    pub fn new() -> (r: Self)
        ensures
            r@ == JournalState::fresh(),
    {
        JournalView {
            entries: Vec::new(),
            state: Selection::none(),
            filter_account: None,
            sort_field: SortField::Date,
            sort_direction: SortDirection::Descending,
            pending_void: None,
            confirm_void: false,
            running_balances: Vec::new(),
            show_void: true,
            show_id_column: false,
            multiselect_mode: false,
            multiselect_selecting: false,
            selected_entry_ids: TextSet::new(),
            reassign_mode: false,
            reassign_pending: None,
            reassign_accounts: Vec::new(),
            reassign_filter: String::new(),
            reassign_state: Selection::none(),
            reassign_confirmed: None,
            bulk_reassign_confirmed: None,
            bulk_void_pending: false,
            bulk_void_confirmed: None,
            visible_height: 20,
            pending_goto_account: None,
        }
    }

    /// Opens the reassignment of one line; the account on the other side is
    /// highlighted, if it is among the choices.
    pub fn start_reassign(
        &mut self,
        accounts: Vec<ReassignAccount>,
        entry_id: String,
        line_id: String,
        current_account_name: String,
        other_account_id: Option<String>,
    )
        ensures
            final(self)@ == old(self)@.reassigning(
                accounts@,
                PendingReassign { entry_id, line_id, current_account_name },
                text::opt_text(other_account_id),
            ),
    {
        let initial: usize = match &other_account_id {
            Some(other) => match find_choice(&accounts, other.as_str()) {
                Some(i) => i,
                None => 0,
            },
            None => 0,
        };
        self.reassign_mode = true;
        self.reassign_pending = Some(PendingReassign { entry_id, line_id, current_account_name });
        self.reassign_accounts = accounts;
        self.reassign_filter.clear();
        self.reassign_state = self.reassign_state.moved(Some(initial));
        self.reassign_confirmed = None;
    }

    pub fn cancel_reassign(&mut self)
        ensures
            final(self)@ == old(self)@.reassign_cancelled(),
    {
        self.reassign_mode = false;
        self.reassign_pending = None;
        self.reassign_filter.clear();
    }

    /// The accounts that match the filter, by position.
    pub fn filtered_reassign_accounts(&self) -> (r: Vec<usize>)
        ensures
            r@ == self@.filtered(),
            forall|k: int| 0 <= k < r@.len() ==> (#[trigger] r@[k]) < self.reassign_accounts@.len(),
    {
        let filter = self.reassign_filter.as_str().to_lowercase();
        let mut out: Vec<usize> = Vec::new();
        let mut i: usize = 0;
        let ghost p = |i: int| account_matches(self.reassign_accounts@[i], self.reassign_filter@);
        while i < self.reassign_accounts.len()
            invariant
                i <= self.reassign_accounts@.len(),
                filter@ == text::lowercase(self.reassign_filter@),
                p == (|i: int| account_matches(self.reassign_accounts@[i], self.reassign_filter@)),
                out@ == lists::positions(i as nat, p),
            decreases self.reassign_accounts@.len() - i,
        {
            let fits: bool = lower_matches(
                &self.reassign_accounts[i],
                self.reassign_filter.as_str(),
                filter.as_str(),
            );
            assert(fits == p(i as int));
            if fits {
                out.push(i);
            }
            i = i + 1;
        }
        proof {
            lists::positions_are_exact(self.reassign_accounts@.len(), p);
            let q = |i: int| account_matches(self@.reassign_accounts[i], self@.reassign_filter);
            assert(p =~= q);
        }
        out
    }

    /// Hands over a confirmed reassignment, once.
    pub fn take_reassign_confirmed(&mut self) -> (r: Option<(String, String, String)>)
        ensures
            r == old(self).reassign_confirmed,
            final(self)@ == (JournalState { reassign_confirmed: None, ..old(self)@ }),
    {
        self.reassign_confirmed.take()
    }

    pub fn is_reassigning(&self) -> (r: bool)
        ensures
            r == self.reassign_mode,
    {
        self.reassign_mode
    }

    /// Opens the reassignment of the selected entries, if there are any.
    pub fn start_bulk_reassign(&mut self, accounts: Vec<ReassignAccount>)
        ensures
            final(self)@ == old(self)@.bulk_reassigning(accounts@),
    {
        if self.selected_entry_ids.len() == 0 {
            return ;
        }
        self.reassign_mode = true;
        self.reassign_pending = None;
        self.reassign_accounts = accounts;
        self.reassign_filter.clear();
        self.reassign_state = self.reassign_state.moved(Some(0));
        self.reassign_confirmed = None;
        self.bulk_reassign_confirmed = None;
    }

    /// Hands over a confirmed reassignment of several entries, once.
    pub fn take_bulk_reassign_confirmed(&mut self) -> (r: Option<(Vec<String>, String)>)
        ensures
            r == old(self).bulk_reassign_confirmed,
            final(self)@ == (JournalState { bulk_reassign_confirmed: None, ..old(self)@ }),
    {
        self.bulk_reassign_confirmed.take()
    }

    /// Starts or ends the selection of several entries, in a ledger only.
    pub fn toggle_multiselect(&mut self)
        ensures
            final(self)@ == old(self)@.multiselect_toggled(),
    {
        if self.filter_account.is_none() {
            return ;
        }
        if self.multiselect_mode {
            self.exit_multiselect();
        } else {
            self.multiselect_mode = true;
            self.multiselect_selecting = true;
            self.select_current();
        }
    }

    pub fn exit_multiselect(&mut self)
        ensures
            final(self)@ == old(self)@.without_multiselect(),
    {
        self.multiselect_mode = false;
        self.multiselect_selecting = false;
        self.selected_entry_ids.clear();
    }

    /// Selects or deselects the highlighted entry, unless it is void.
    pub fn toggle_current_selection(&mut self)
        ensures
            final(self)@ == old(self)@.current_toggled(),
    {
        if let Some(k) = self.current_index() {
            if self.entries[k].is_void {
                return ;
            }
            let id = self.entries[k].entry_id.clone();
            if self.selected_entry_ids.contains(id.as_str()) {
                self.selected_entry_ids.remove(id.as_str());
            } else {
                self.selected_entry_ids.insert(id);
            }
        }
    }

    fn select_current(&mut self)
        ensures
            final(self)@ == old(self)@.with_current(),
    {
        if let Some(k) = self.current_index() {
            if !self.entries[k].is_void {
                let id = self.entries[k].entry_id.clone();
                self.selected_entry_ids.insert(id);
            }
        }
    }

    pub fn is_entry_selected(&self, entry_id: &str) -> (r: bool)
        ensures
            r == self@.selected_entry_ids.contains(entry_id@),
    {
        self.selected_entry_ids.contains(entry_id)
    }

    pub fn get_selected_entry_ids(&self) -> (r: Vec<String>)
        ensures
            text::texts(r@) == self@.selected_entry_ids,
            text::texts(r@).no_duplicates(),
    {
        self.selected_entry_ids.to_vec()
    }

    /// The positions of the entries that are shown.
    pub fn visible_indices(&self) -> (r: Vec<usize>)
        ensures
            r@ == self@.visible(),
            forall|k: int| 0 <= k < r@.len() ==> (#[trigger] r@[k]) < self.entries@.len(),
    {
        let mut out: Vec<usize> = Vec::new();
        let mut i: usize = 0;
        let ghost p = |i: int| self.show_void || !self.entries@[i].is_void;
        while i < self.entries.len()
            invariant
                i <= self.entries@.len(),
                p == (|i: int| self.show_void || !self.entries@[i].is_void),
                out@ == lists::positions(i as nat, p),
            decreases self.entries@.len() - i,
        {
            let shown: bool = self.show_void || !self.entries[i].is_void;
            assert(shown == p(i as int));
            if shown {
                out.push(i);
            }
            i = i + 1;
        }
        proof {
            lists::positions_are_exact(self.entries@.len(), p);
            let q = |i: int| self@.show_void || !self@.entries[i].is_void;
            assert(p =~= q);
        }
        out
    }

    /// The entries that are shown.
    pub fn visible_entries(&self) -> (r: Vec<&EntrySearchResult>)
        ensures
            r@.len() == self@.visible().len(),
            forall|k: int|
                0 <= k < r@.len() ==> *(#[trigger] r@[k])
                    == self.entries@[self@.visible()[k] as int],
    {
        let at = self.visible_indices();
        let mut out: Vec<&EntrySearchResult> = Vec::new();
        let mut i: usize = 0;
        while i < at.len()
            invariant
                i <= at@.len(),
                at@ == self@.visible(),
                forall|k: int| 0 <= k < at@.len() ==> (#[trigger] at@[k]) < self.entries@.len(),
                out@.len() == i,
                forall|k: int|
                    0 <= k < i ==> *(#[trigger] out@[k]) == self.entries@[at@[k] as int],
            decreases at@.len() - i,
        {
            out.push(&self.entries[at[i]]);
            i = i + 1;
        }
        out
    }

    /// The position of the highlighted entry among all entries.
    fn current_index(&self) -> (r: Option<usize>)
        ensures
            r is Some <==> self@.current() is Some,
            r is Some ==> r->0 < self.entries@.len() && self@.current()
                == Some(self.entries@[r->0 as int]),
    {
        match self.state.selected {
            Some(i) => {
                let at = self.visible_indices();
                if i < at.len() {
                    Some(at[i])
                } else {
                    None
                }
            },
            None => None,
        }
    }

    pub fn visible_count(&self) -> (r: usize)
        ensures
            r == self@.visible().len(),
    {
        self.visible_indices().len()
    }

    /// Shows or hides void entries.
    pub fn toggle_show_void(&mut self)
        ensures
            final(self)@ == old(self)@.void_toggled(),
    {
        let old_selection: Option<usize> = self.state.selected;
        let id: Option<String> = match self.current_index() {
            Some(k) => Some(self.entries[k].entry_id.clone()),
            None => None,
        };
        self.show_void = !self.show_void;
        let at = self.visible_indices();
        let n: usize = at.len();
        if n == 0 {
            self.state = self.state.moved(None);
            return ;
        }
        if let Some(entry_id) = id {
            if let Some(pos) = self.shown_at(entry_id.as_str()) {
                self.state = self.state.moved(Some(pos));
                return ;
            }
        }
        match old_selection {
            Some(i) => {
                self.state = self.state.moved(Some(minimum(i, n - 1)));
            },
            None => {
                self.state = self.state.moved(Some(0));
            },
        }
    }

    /// The shown position of an entry.
    fn shown_at(&self, entry_id: &str) -> (r: Option<usize>)
        ensures
            r == self@.shown_at(entry_id@),
    {
        let at = self.visible_indices();
        let mut k: usize = 0;
        let ghost p = self@.is_shown_at(entry_id@);
        while k < at.len()
            invariant
                k <= at@.len(),
                at@ == self@.visible(),
                forall|k: int| 0 <= k < at@.len() ==> (#[trigger] at@[k]) < self.entries@.len(),
                p == self@.is_shown_at(entry_id@),
                forall|j: int| 0 <= j < k ==> !#[trigger] p(j),
            decreases at@.len() - k,
        {
            let found: bool = text::same_text(self.entries[at[k]].entry_id.as_str(), entry_id);
            assert(found == p(k as int));
            if found {
                proof {
                    lists::first_position_is_first(at@.len(), p);
                }
                return Some(k);
            }
            k = k + 1;
        }
        proof {
            lists::first_position_is_first(at@.len(), p);
        }
        None
    }

    /// Highlights an entry, if it is shown.
    pub fn select_entry(&mut self, entry_id: &str)
        ensures
            final(self)@ == old(self)@.on_entry(entry_id@),
    {
        if let Some(i) = self.shown_at(entry_id) {
            self.state = self.state.moved(Some(i));
        }
    }

    pub fn toggle_id_column(&mut self)
        ensures
            final(self)@ == (JournalState {
                show_id_column: !old(self).show_id_column,
                ..old(self)@
            }),
    {
        self.show_id_column = !self.show_id_column;
    }

    /// Computes the balance after each entry of a ledger.
    pub fn calculate_running_balances(&mut self)
        ensures
            final(self)@ == old(self)@.rebalanced(),
    {
        if self.filter_account.is_none() {
            self.running_balances = Vec::new();
            return ;
        }
        self.running_balances = compute_balances(&self.entries);
    }

    /// Opens the ledger of an account.
    pub fn set_filter(&mut self, account: Account)
        ensures
            final(self)@ == old(self)@.in_ledger(account),
    {
        self.filter_account = Some(account);
        self.state = self.state.moved(Some(0));
    }

    /// Goes back from a ledger to the journal.
    pub fn clear_filter(&mut self)
        ensures
            final(self)@ == old(self)@.unfiltered(),
    {
        self.filter_account = None;
        self.exit_multiselect();
    }

    pub fn is_filtered(&self) -> (r: bool)
        ensures
            r == (self.filter_account is Some),
    {
        self.filter_account.is_some()
    }

    /// Sorts the entries by the current field and direction.
    pub fn sort_entries(&mut self)
        ensures
            final(self)@ == old(self)@.sorted(),
    {
        let n: usize = self.entries.len();
        let mut keys: Vec<SortKey> = Vec::new();
        let mut i: usize = 0;
        while i < n
            invariant
                i <= n,
                n == self.entries@.len(),
                keys@.len() == i,
                forall|k: int|
                    0 <= k < i ==> (#[trigger] keys@[k])@ == sort_value(
                        self.entries@[k],
                        self.sort_field,
                    ),
            decreases n - i,
        {
            keys.push(key_of(&self.entries[i], self.sort_field));
            i = i + 1;
        }
        let ghost values = self.entries@.map_values(
            |e: EntrySearchResult| sort_value(e, self.sort_field),
        );
        assert(lists::sort_values(keys@) =~= values);
        let order = lists::stable_order(
            &keys,
            self.sort_direction == SortDirection::Descending,
        );
        let mut sorted: Vec<EntrySearchResult> = Vec::new();
        let mut k: usize = 0;
        while k < order.len()
            invariant
                k <= order@.len(),
                forall|j: int| 0 <= j < order@.len() ==> (#[trigger] order@[j]) < self.entries@.len(),
                sorted@.len() == k,
                forall|j: int|
                    0 <= j < k ==> #[trigger] sorted@[j] == self.entries@[order@[j] as int],
            decreases order@.len() - k,
        {
            sorted.push(self.entries[order[k]].duplicate());
            k = k + 1;
        }
        assert(sorted@ =~= sorted_entries(self.entries@, self.sort_field, self.sort_direction));
        self.entries = sorted;
        self.calculate_running_balances();
    }

    pub fn next_sort_field(&mut self)
        ensures
            final(self)@ == (JournalState {
                sort_field: old(self).sort_field.following(),
                ..old(self)@
            }).sorted(),
    {
        self.sort_field = self.sort_field.next();
        self.sort_entries();
    }

    pub fn toggle_sort_direction(&mut self)
        ensures
            final(self)@ == (JournalState {
                sort_direction: old(self).sort_direction.opposite(),
                ..old(self)@
            }).sorted(),
    {
        self.sort_direction = self.sort_direction.toggle();
        self.sort_entries();
    }

    /// Handles a key; the answer is true if it calls for a reassignment or
    /// left a ledger.
    pub fn handle_key(&mut self, key: KeyCode) -> (r: bool)
        ensures
            (final(self)@, r) == old(self)@.after_key(key),
    {
        if self.reassign_mode {
            self.handle_reassign_key(key);
            return false;
        }
        if self.pending_void.is_some() {
            match key {
                KeyCode::Char('y') | KeyCode::Char('Y') => {
                    self.confirm_void = true;
                },
                KeyCode::Char('n') | KeyCode::Char('N') | KeyCode::Esc | KeyCode::Enter => {
                    self.pending_void = None;
                },
                _ => {},
            }
            return false;
        }
        if self.bulk_void_pending {
            match key {
                KeyCode::Char('y') | KeyCode::Char('Y') => {
                    let ids = self.selected_entry_ids.to_vec();
                    self.bulk_void_confirmed = Some(ids);
                    self.bulk_void_pending = false;
                    self.exit_multiselect();
                },
                KeyCode::Char('n') | KeyCode::Char('N') | KeyCode::Esc | KeyCode::Enter => {
                    self.bulk_void_pending = false;
                },
                _ => {},
            }
            return false;
        }
        if self.multiselect_mode {
            return self.handle_multiselect_key(key);
        }
        self.handle_plain_key(key)
    }

    fn toggle_selecting(&mut self)
        ensures
            final(self)@ == old(self)@.selecting_toggled(),
    {
        self.multiselect_selecting = !self.multiselect_selecting;
        if self.multiselect_selecting {
            self.select_current();
        } else {
            if let Some(k) = self.current_index() {
                let id = self.entries[k].entry_id.clone();
                self.selected_entry_ids.remove(id.as_str());
            }
        }
    }

    fn handle_multiselect_key(&mut self, key: KeyCode) -> (r: bool)
        ensures
            (final(self)@, r) == old(self)@.after_multiselect_key(key),
    {
        match key {
            KeyCode::Up | KeyCode::Char('k') => {
                self.previous();
                if self.multiselect_selecting {
                    self.select_current();
                }
                false
            },
            KeyCode::Down | KeyCode::Char('j') => {
                self.next();
                if self.multiselect_selecting {
                    self.select_current();
                }
                false
            },
            KeyCode::Char(' ') => {
                self.toggle_selecting();
                false
            },
            KeyCode::Char('a') => true,
            KeyCode::Char('x') => {
                if self.selected_entry_ids.len() > 0 {
                    self.bulk_void_pending = true;
                }
                false
            },
            KeyCode::Esc => {
                self.exit_multiselect();
                false
            },
            KeyCode::Home => {
                self.first();
                false
            },
            KeyCode::End => {
                self.last();
                false
            },
            _ => false,
        }
    }

    fn handle_plain_key(&mut self, key: KeyCode) -> (r: bool)
        ensures
            (final(self)@, r) == old(self)@.after_plain_key(key),
    {
        let is_ledger: bool = self.filter_account.is_some();
        match key {
            KeyCode::Up | KeyCode::Char('k') => {
                self.previous();
            },
            KeyCode::Down | KeyCode::Char('j') => {
                self.next();
            },
            KeyCode::Home => {
                self.first();
            },
            KeyCode::End => {
                self.last();
            },
            KeyCode::PageUp => {
                self.page_up();
            },
            KeyCode::PageDown => {
                self.page_down();
            },
            KeyCode::Char('s') => {
                self.next_sort_field();
            },
            KeyCode::Char('r') => {
                self.toggle_sort_direction();
            },
            KeyCode::Char('v') => {
                if is_ledger {
                    self.toggle_multiselect();
                }
            },
            KeyCode::Char('x') => {
                self.start_void();
            },
            KeyCode::Char('h') => {
                self.toggle_show_void();
            },
            KeyCode::Char('c') => {
                self.toggle_id_column();
            },
            KeyCode::Char('a') => {
                return true;
            },
            KeyCode::Char('g') => {
                if is_ledger {
                    self.request_goto_other_account();
                }
            },
            KeyCode::Esc | KeyCode::Backspace => {
                if is_ledger {
                    self.clear_filter();
                    return true;
                }
            },
            _ => {},
        }
        false
    }

    fn start_void(&mut self)
        ensures
            final(self)@ == old(self)@.void_started(),
    {
        if let Some(k) = self.current_index() {
            self.pending_void = Some(self.entries[k].entry_id.clone());
            self.confirm_void = false;
        }
    }

    fn request_goto_other_account(&mut self)
        ensures
            final(self)@ == old(self)@.goto_requested(),
    {
        if let Some(k) = self.current_index() {
            let target: Option<(String, String)> = match &self.entries[k].other_account_id {
                Some(other) => Some((other.clone(), self.entries[k].entry_id.clone())),
                None => None,
            };
            if target.is_some() {
                self.pending_goto_account = target;
            }
        }
    }

    /// Hands over the ledger to open and the entry to show there, once.
    pub fn take_pending_goto_account(&mut self) -> (r: Option<(String, String)>)
        ensures
            r == old(self).pending_goto_account,
            final(self)@ == (JournalState { pending_goto_account: None, ..old(self)@ }),
    {
        self.pending_goto_account.take()
    }

    /// Whether the entry whose voiding is to be confirmed is void already.
    pub fn is_pending_unvoid(&self) -> (r: bool)
        ensures
            r == self@.unvoiding(),
    {
        match &self.pending_void {
            Some(id) => {
                let mut i: usize = 0;
                while i < self.entries.len()
                    invariant
                        i <= self.entries@.len(),
                        self.pending_void is Some,
                        id@ == self.pending_void->0@,
                        forall|j: int|
                            0 <= j < i ==> !((#[trigger] self.entries@[j]).entry_id@ == id@
                                && self.entries@[j].is_void),
                    decreases self.entries@.len() - i,
                {
                    if self.entries[i].is_void && text::same_text(
                        self.entries[i].entry_id.as_str(),
                        id.as_str(),
                    ) {
                        assert(self@.entries[i as int].is_void);
                        return true;
                    }
                    i = i + 1;
                }
                false
            },
            None => false,
        }
    }

    /// Hands over the entry whose voiding was confirmed, once.
    pub fn take_confirmed_void(&mut self) -> (r: Option<String>)
        ensures
            old(self).confirm_void ==> r == old(self).pending_void && final(self)@ == (
            JournalState { confirm_void: false, pending_void: None, ..old(self)@ }),
            !old(self).confirm_void ==> r is None && final(self)@ == old(self)@,
    {
        if self.confirm_void {
            self.confirm_void = false;
            self.pending_void.take()
        } else {
            None
        }
    }

    pub fn is_confirming_void(&self) -> (r: bool)
        ensures
            r == (self.pending_void is Some && !self.confirm_void),
    {
        self.pending_void.is_some() && !self.confirm_void
    }

    /// The identifier of the highlighted entry, and whether it is void.
    pub fn highlighted(&self) -> (r: Option<(String, bool)>)
        ensures
            match r {
                Some((id, void)) => self@.current() is Some && id@ == self@.current()->0.entry_id@
                    && void == self@.current()->0.is_void,
                None => self@.current() is None,
            },
    {
        match self.current_index() {
            Some(i) => Some((self.entries[i].entry_id.clone(), self.entries[i].is_void)),
            None => None,
        }
    }

    /// Whether entries are selected for a bulk operation.
    pub fn has_selections(&self) -> (r: bool)
        ensures
            r == (self@.selected_entry_ids.len() > 0),
    {
        self.selected_entry_ids.len() > 0
    }

    pub fn is_confirming_bulk_void(&self) -> (r: bool)
        ensures
            r == self.bulk_void_pending,
    {
        self.bulk_void_pending
    }

    /// Hands over the entries whose voiding was confirmed, once.
    pub fn take_bulk_void_confirmed(&mut self) -> (r: Option<Vec<String>>)
        ensures
            r == old(self).bulk_void_confirmed,
            final(self)@ == (JournalState { bulk_void_confirmed: None, ..old(self)@ }),
    {
        self.bulk_void_confirmed.take()
    }

    fn handle_reassign_key(&mut self, key: KeyCode)
        ensures
            final(self)@ == old(self)@.after_reassign_key(key),
    {
        let filtered = self.filtered_reassign_accounts();
        let n: usize = filtered.len();
        match key {
            KeyCode::Esc => {
                self.cancel_reassign();
            },
            KeyCode::Enter => {
                if let Some(i) = self.reassign_state.selected {
                    if i < n {
                        let account_id = self.reassign_accounts[filtered[i]].id.clone();
                        let single: Option<(String, String)> = match &self.reassign_pending {
                            Some(p) => Some((p.entry_id.clone(), p.line_id.clone())),
                            None => None,
                        };
                        match single {
                            None => {
                                let ids = self.selected_entry_ids.to_vec();
                                self.bulk_reassign_confirmed = Some((ids, account_id));
                                self.exit_multiselect();
                            },
                            Some((entry_id, line_id)) => {
                                self.reassign_confirmed = Some((entry_id, line_id, account_id));
                            },
                        }
                        self.cancel_reassign();
                    }
                }
            },
            KeyCode::Up => {
                if n > 0 {
                    let i: usize = selection::move_up_around(self.reassign_state.selected, n);
                    self.reassign_state = self.reassign_state.moved(Some(i));
                }
            },
            KeyCode::Down => {
                if n > 0 {
                    let i: usize = selection::move_down_around(self.reassign_state.selected, n);
                    self.reassign_state = self.reassign_state.moved(Some(i));
                }
            },
            KeyCode::Backspace => {
                self.reassign_filter.pop();
                self.reassign_state = self.reassign_state.moved(Some(0));
            },
            KeyCode::Char(c) => {
                self.reassign_filter.push(c);
                self.reassign_state = self.reassign_state.moved(Some(0));
            },
            _ => {},
        }
    }

    fn set_offset(&mut self, offset: usize)
        ensures
            final(self)@ == old(self)@.with_offset(offset as int),
    {
        self.state = Selection { selected: self.state.selected, offset };
    }

    fn next(&mut self)
        ensures
            final(self)@ == old(self)@.moved_down(),
    {
        let count: usize = self.visible_count();
        if count == 0 {
            return ;
        }
        let i: usize = selection::move_down_around(self.state.selected, count);
        self.state = self.state.moved(Some(i));
        self.adjust_scroll_down(i);
    }

    fn previous(&mut self)
        ensures
            final(self)@ == old(self)@.moved_up(),
    {
        let count: usize = self.visible_count();
        if count == 0 {
            return ;
        }
        let i: usize = match self.state.selected {
            Some(i) => selection::move_up_around(Some(i), count),
            None => 0,
        };
        self.state = self.state.moved(Some(i));
        self.adjust_scroll_up(i);
    }

    fn first(&mut self)
        ensures
            final(self)@ == old(self)@.at_first(),
    {
        if self.visible_count() > 0 {
            self.state = Selection { selected: Some(0), offset: 0 };
        }
    }

    fn last(&mut self)
        ensures
            final(self)@ == old(self)@.at_last(),
    {
        let count: usize = self.visible_count();
        if count > 0 {
            let last: usize = count - 1;
            let rows: usize = (self.visible_height as usize).saturating_sub(1);
            self.state = Selection { selected: Some(last), offset: last.saturating_sub(rows) };
        }
    }

    fn adjust_scroll_down(&mut self, selected: usize)
        ensures
            final(self)@ == old(self)@.scrolled_down(selected as int),
    {
        if self.visible_height == 0 {
            return ;
        }
        let count: usize = self.visible_count();
        let offset: usize = self.state.offset;
        if selected == 0 {
            self.set_offset(0);
            return ;
        }
        let height: usize = self.visible_height as usize;
        let position: usize = selected.saturating_sub(offset);
        let threshold: usize = (height * 80) / 100;
        if position >= threshold {
            let wanted: usize = selected.saturating_sub(threshold);
            let limit: usize = count.saturating_sub(height);
            self.set_offset(minimum(wanted, limit));
        }
    }

    fn adjust_scroll_up(&mut self, selected: usize)
        requires
            old(self)@.visible().len() > 0,
        ensures
            final(self)@ == old(self)@.scrolled_up(selected as int),
    {
        if self.visible_height == 0 {
            return ;
        }
        let count: usize = self.visible_count();
        let offset: usize = self.state.offset;
        let height: usize = self.visible_height as usize;
        if selected == count - 1 {
            self.set_offset(count.saturating_sub(height));
            return ;
        }
        let position: usize = selected.saturating_sub(offset);
        let threshold: usize = (height * 20) / 100;
        if position <= threshold && offset > 0 {
            let amount: usize = threshold.saturating_sub(position) + 1;
            self.set_offset(offset.saturating_sub(amount));
        }
    }

    fn page_size(&self) -> (r: usize)
        ensures
            r == self@.page(),
    {
        if self.visible_height > 10 {
            self.visible_height as usize
        } else {
            10
        }
    }

    fn page_up(&mut self)
        ensures
            final(self)@ == old(self)@.paged_up(),
    {
        if self.visible_count() == 0 {
            return ;
        }
        let page: usize = self.page_size();
        let i: usize = match self.state.selected {
            Some(i) => i.saturating_sub(page),
            None => 0,
        };
        self.state = Selection {
            selected: Some(i),
            offset: self.state.offset.saturating_sub(page),
        };
    }

    fn page_down(&mut self)
        ensures
            final(self)@ == old(self)@.paged_down(),
    {
        let count: usize = self.visible_count();
        if count == 0 {
            return ;
        }
        let page: usize = self.page_size();
        let i: usize = match self.state.selected {
            Some(i) => minimum(i.saturating_add(page), count - 1),
            None => 0,
        };
        let limit: usize = count.saturating_sub(self.visible_height as usize);
        let offset: usize = minimum(self.state.offset.saturating_add(page), limit);
        self.state = Selection { selected: Some(i), offset };
    }
}

fn find_choice(accounts: &Vec<ReassignAccount>, id: &str) -> (r: Option<usize>)
    ensures
        r == place_of_choice(accounts@, id@),
{
    let mut i: usize = 0;
    let ghost p = |i: int| accounts@[i].id@ == id@;
    while i < accounts.len()
        invariant
            i <= accounts@.len(),
            p == (|i: int| accounts@[i].id@ == id@),
            forall|j: int| 0 <= j < i ==> !#[trigger] p(j),
        decreases accounts@.len() - i,
    {
        let found: bool = text::same_text(accounts[i].id.as_str(), id);
        assert(found == p(i as int));
        if found {
            proof {
                lists::first_position_is_first(accounts@.len(), p);
            }
            return Some(i);
        }
        i = i + 1;
    }
    proof {
        lists::first_position_is_first(accounts@.len(), p);
    }
    None
}

impl Default for JournalView {
    fn default() -> (r: Self)
        ensures
            r@ == JournalState::fresh(),
    {
        Self::new()
    }
}

} // verus!
