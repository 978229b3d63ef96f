//! The tree of accounts in a report: who stands under whom, subtotals, and the
//! rows in which the tree is written down.

use vstd::prelude::*;

use crate::lists;
use crate::lists::{SortKey, SortValue};
use crate::money;
use crate::queries::{BalanceSheetLine, IncomeStatementLine};
use crate::text;

verus! {

/// An account of a report and the account it stands under.
pub struct TreeInput<'a> {
    pub account_id: &'a str,
    pub account_number: &'a str,
    pub account_name: &'a str,
    pub parent_id: Option<&'a str>,
    pub balance: i64,
}

/// The meaning of an account of a report.
#[verifier::ext_equal]
pub ghost struct TreeNode {
    pub id: Seq<char>,
    pub number: Seq<char>,
    pub name: Seq<char>,
    pub parent: Option<Seq<char>>,
    pub balance: int,
}

impl<'a> View for TreeInput<'a> {
    type V = TreeNode;

    open spec fn view(&self) -> TreeNode {
        TreeNode {
            id: self.account_id@,
            number: self.account_number@,
            name: self.account_name@,
            parent: match self.parent_id {
                Some(p) => Some(p@),
                None => None,
            },
            balance: self.balance as int,
        }
    }
}

pub open spec fn nodes(v: Seq<TreeInput>) -> Seq<TreeNode> {
    v.map_values(|t: TreeInput| t@)
}

pub open spec fn sheet_nodes(v: Seq<BalanceSheetLine>) -> Seq<TreeNode> {
    v.map_values(
        |l: BalanceSheetLine|
            TreeNode {
                id: l.account_id@,
                number: l.account_number@,
                name: l.account_name@,
                parent: text::opt_text(l.parent_id),
                balance: l.balance as int,
            },
    )
}

pub open spec fn statement_nodes(v: Seq<IncomeStatementLine>) -> Seq<TreeNode> {
    v.map_values(
        |l: IncomeStatementLine|
            TreeNode {
                id: l.account_id@,
                number: l.account_number@,
                name: l.account_name@,
                parent: text::opt_text(l.parent_id),
                balance: l.balance as int,
            },
    )
}

/// The text of an optional parent.
pub fn parent_str(p: &Option<String>) -> (r: Option<&str>)
    ensures
        text::opt_text(*p) == (match r {
            Some(s) => Some(s@),
            None => None,
        }),
{
    match p {
        Some(s) => Some(s.as_str()),
        None => None,
    }
}

/// Adds the accounts of a section of a balance sheet.
pub fn push_sheet_inputs<'a>(lines: &'a Vec<BalanceSheetLine>, out: &mut Vec<TreeInput<'a>>)
    ensures
        nodes(final(out)@) == nodes(old(out)@) + sheet_nodes(lines@),
{
    let ghost before = out@;
    let mut i: usize = 0;
    assert(nodes(out@) =~= nodes(before) + sheet_nodes(lines@.take(0)));
    while i < lines.len()
        invariant
            i <= lines@.len(),
            nodes(out@) == nodes(before) + sheet_nodes(lines@.take(i as int)),
        decreases lines@.len() - i,
    {
        let l = &lines[i];
        let ghost sofar = out@;
        out.push(
            TreeInput {
                account_id: l.account_id.as_str(),
                account_number: l.account_number.as_str(),
                account_name: l.account_name.as_str(),
                parent_id: parent_str(&l.parent_id),
                balance: l.balance,
            },
        );
        proof {
            let want = sheet_nodes(lines@)[i as int];
            assert(out@.last()@ =~= want);
            assert(nodes(out@) =~= nodes(sofar).push(want));
            assert(sheet_nodes(lines@.take(i + 1)) =~= sheet_nodes(lines@.take(i as int)).push(want));
            assert(nodes(out@) =~= nodes(before) + sheet_nodes(lines@.take(i + 1)));
        }
        i = i + 1;
    }
    assert(lines@.take(i as int) =~= lines@);
}

/// The accounts of a section of a balance sheet.
pub fn bs_to_inputs(lines: &Vec<BalanceSheetLine>) -> (r: Vec<TreeInput<'_>>)
    ensures
        nodes(r@) == sheet_nodes(lines@),
{
    let mut out: Vec<TreeInput<'_>> = Vec::new();
    push_sheet_inputs(lines, &mut out);
    assert(nodes(out@) =~= sheet_nodes(lines@));
    out
}

/// Adds the accounts of a section of an income statement.
pub fn push_statement_inputs<'a>(
    lines: &'a Vec<IncomeStatementLine>,
    out: &mut Vec<TreeInput<'a>>,
)
    ensures
        nodes(final(out)@) == nodes(old(out)@) + statement_nodes(lines@),
{
    let ghost before = out@;
    let mut i: usize = 0;
    assert(nodes(out@) =~= nodes(before) + statement_nodes(lines@.take(0)));
    while i < lines.len()
        invariant
            i <= lines@.len(),
            nodes(out@) == nodes(before) + statement_nodes(lines@.take(i as int)),
        decreases lines@.len() - i,
    {
        let l = &lines[i];
        let ghost sofar = out@;
        out.push(
            TreeInput {
                account_id: l.account_id.as_str(),
                account_number: l.account_number.as_str(),
                account_name: l.account_name.as_str(),
                parent_id: parent_str(&l.parent_id),
                balance: l.balance,
            },
        );
        proof {
            let want = statement_nodes(lines@)[i as int];
            assert(out@.last()@ =~= want);
            assert(nodes(out@) =~= nodes(sofar).push(want));
            assert(statement_nodes(lines@.take(i + 1)) =~= statement_nodes(lines@.take(i as int)).push(want));
            assert(nodes(out@) =~= nodes(before) + statement_nodes(lines@.take(i + 1)));
        }
        i = i + 1;
    }
    assert(lines@.take(i as int) =~= lines@);
}

/// The accounts of a section of an income statement.
pub fn is_to_inputs(lines: &Vec<IncomeStatementLine>) -> (r: Vec<TreeInput<'_>>)
    ensures
        nodes(r@) == statement_nodes(lines@),
{
    let mut out: Vec<TreeInput<'_>> = Vec::new();
    push_statement_inputs(lines, &mut out);
    assert(nodes(out@) =~= statement_nodes(lines@));
    out
}

// ---- the tree ----

/// Whether an account is in the report.
pub open spec fn listed(t: Seq<TreeNode>, id: Seq<char>) -> bool {
    exists|i: int| 0 <= i < t.len() && (#[trigger] t[i]).id == id
}

/// The account that account `i` stands under; accounts whose parent is not in
/// the report stand at the top.
pub open spec fn parent_of(t: Seq<TreeNode>, i: int) -> Option<Seq<char>> {
    match t[i].parent {
        Some(p) => if listed(t, p) {
            Some(p)
        } else {
            None
        },
        None => None,
    }
}

/// Whether the tree under an account has at most `n` levels, its own included.
pub open spec fn height_within(t: Seq<TreeNode>, id: Seq<char>, n: nat) -> bool
    decreases n,
{
    n > 0 && forall|i: int|
        0 <= i < t.len() && #[trigger] parent_of(t, i) == Some(id) ==> height_within(
            t,
            t[i].id,
            (n - 1) as nat,
        )
}

/// Whether no account stands under itself, directly or through others.
pub open spec fn acyclic(t: Seq<TreeNode>) -> bool {
    forall|i: int| 0 <= i < t.len() ==> height_within(t, (#[trigger] t[i]).id, t.len())
}

/// The accounts that satisfy a condition, by account number.
pub open spec fn by_number(t: Seq<TreeNode>, p: spec_fn(int) -> bool) -> Seq<usize> {
    let at = lists::positions(t.len(), p);
    lists::order_of(
        at.map_values(|i: usize| SortValue::Words(t[i as int].number)),
        false,
    ).map_values(|k: usize| at[k as int])
}

/// The accounts directly under another one, or at the top, by account number.
pub open spec fn kids_of(t: Seq<TreeNode>, parent: Option<Seq<char>>) -> Seq<usize> {
    by_number(t, |i: int| parent_of(t, i) == parent)
}

/// The account's own balance.
pub open spec fn own_balance(t: Seq<TreeNode>, id: Seq<char>) -> int {
    match lists::first_position(t.len(), |i: int| t[i].id == id) {
        Some(i) => t[i as int].balance,
        None => 0,
    }
}

/// The balance of an account and of all accounts under it, down `n` levels.
pub open spec fn subtotal(t: Seq<TreeNode>, id: Seq<char>, n: nat) -> int
    decreases n, t.len() + 1,
{
    if n == 0 {
        0
    } else {
        own_balance(t, id) + below(t, id, t.len(), n)
    }
}

/// The subtotals of those of the first `k` accounts that stand directly under
/// an account.
pub open spec fn below(t: Seq<TreeNode>, id: Seq<char>, k: nat, n: nat) -> int
    decreases n, k,
{
    if k == 0 || n == 0 {
        0
    } else {
        below(t, id, (k - 1) as nat, n) + if parent_of(t, k - 1) == Some(id) {
            subtotal(t, t[k - 1].id, (n - 1) as nat)
        } else {
            0
        }
    }
}

/// The balance of an account and of all accounts under it.
pub open spec fn total_of(t: Seq<TreeNode>, id: Seq<char>) -> int {
    subtotal(t, id, t.len())
}

proof fn enough_levels(t: Seq<TreeNode>, id: Seq<char>, n: nat, m: nat)
    requires
        height_within(t, id, n),
        n <= m,
    ensures
        subtotal(t, id, n) == subtotal(t, id, m),
{
    enough_levels_below(t, id, t.len(), n, m);
}

proof fn enough_levels_below(t: Seq<TreeNode>, id: Seq<char>, k: nat, n: nat, m: nat)
    requires
        height_within(t, id, n),
        n <= m,
        k <= t.len(),
    ensures
        below(t, id, k, n) == below(t, id, k, m),
    decreases n, k,
{
    if k > 0 {
        enough_levels_below(t, id, (k - 1) as nat, n, m);
        if parent_of(t, k - 1) == Some(id) {
            let child = t[k - 1].id;
            let a = (n - 1) as nat;
            let b = (m - 1) as nat;
            assert(height_within(t, child, a));
            assert(a > 0);
            enough_levels_below(t, child, t.len(), a, b);
            assert(subtotal(t, child, a) == own_balance(t, child) + below(t, child, t.len(), a));
            assert(subtotal(t, child, b) == own_balance(t, child) + below(t, child, t.len(), b));
        }
        assert(below(t, id, k, n) == below(t, id, (k - 1) as nat, n) + if parent_of(t, k - 1)
            == Some(id) {
            subtotal(t, t[k - 1].id, (n - 1) as nat)
        } else {
            0
        });
        assert(below(t, id, k, m) == below(t, id, (k - 1) as nat, m) + if parent_of(t, k - 1)
            == Some(id) {
            subtotal(t, t[k - 1].id, (m - 1) as nat)
        } else {
            0
        });
    }
}

/// The subtotal of an account is its own balance and the subtotals of the
/// accounts directly under it.
pub proof fn subtotal_adds_children(t: Seq<TreeNode>, id: Seq<char>)
    requires
        acyclic(t),
        listed(t, id),
    ensures
        total_of(t, id) == own_balance(t, id) + children_total(t, id, t.len()),
{
    let i = choose|i: int| 0 <= i < t.len() && (#[trigger] t[i]).id == id;
    assert(height_within(t, t[i].id, t.len()));
    children_by_total(t, id, t.len(), t.len());
}

/// The subtotals of those of the first `k` accounts that stand directly under
/// an account.
pub open spec fn children_total(t: Seq<TreeNode>, id: Seq<char>, k: nat) -> int
    decreases k,
{
    if k == 0 {
        0
    } else {
        children_total(t, id, (k - 1) as nat) + if parent_of(t, k - 1) == Some(id) {
            total_of(t, t[k - 1].id)
        } else {
            0
        }
    }
}

proof fn children_by_total(t: Seq<TreeNode>, id: Seq<char>, k: nat, n: nat)
    requires
        height_within(t, id, n),
        n <= t.len(),
        k <= t.len(),
    ensures
        below(t, id, k, n) == children_total(t, id, k),
    decreases k,
{
    if k > 0 {
        children_by_total(t, id, (k - 1) as nat, n);
        if parent_of(t, k - 1) == Some(id) {
            enough_levels(t, t[k - 1].id, (n - 1) as nat, t.len());
        }
    }
}

/// Whether no two accounts have the same identifier.
pub open spec fn distinct_ids(t: Seq<TreeNode>) -> bool {
    forall|i: int, j: int| 0 <= i < j < t.len() ==> (#[trigger] t[i]).id != (#[trigger] t[j]).id
}

/// The balances of the first `k` accounts.
pub open spec fn all_balances(t: Seq<TreeNode>, k: nat) -> int
    decreases k,
{
    if k == 0 {
        0
    } else {
        all_balances(t, (k - 1) as nat) + t[k - 1].balance
    }
}

/// The totals of those of the first `k` accounts that stand at the top, or of
/// those that do not.
pub open spec fn totals_where(t: Seq<TreeNode>, top: bool, k: nat) -> int
    decreases k,
{
    if k == 0 {
        0
    } else {
        totals_where(t, top, (k - 1) as nat) + if (parent_of(t, k - 1) is None) == top {
            total_of(t, t[k - 1].id)
        } else {
            0
        }
    }
}

/// What the first `k` accounts add to the totals of the first `m` accounts as
/// their children.
spec fn children_totals(t: Seq<TreeNode>, m: nat, k: nat) -> int
    decreases m,
{
    if m == 0 {
        0
    } else {
        children_totals(t, (m - 1) as nat, k) + children_total(t, t[m - 1].id, k)
    }
}

/// One more child counts once, if its parent is among the accounts.
proof fn child_counts_once(t: Seq<TreeNode>, m: nat, k: nat)
    requires
        distinct_ids(t),
        0 < k <= t.len(),
        m <= t.len(),
    ensures
        children_totals(t, m, k) == children_totals(t, m, (k - 1) as nat) + if exists|i: int|
            0 <= i < m && parent_of(t, k - 1) == Some((#[trigger] t[i]).id) {
            total_of(t, t[k - 1].id)
        } else {
            0
        },
    decreases m,
{
    if m > 0 {
        child_counts_once(t, (m - 1) as nat, k);
        let p = parent_of(t, k - 1);
        if p == Some(t[m - 1].id) {
            assert forall|i: int| 0 <= i < m - 1 implies p != Some((#[trigger] t[i]).id) by {
                assert(t[i].id != t[m - 1].id);
            }
        } else if exists|i: int| 0 <= i < m && p == Some((#[trigger] t[i]).id) {
            let i = choose|i: int| 0 <= i < m && p == Some((#[trigger] t[i]).id);
            assert(0 <= i < m - 1 && p == Some(t[i].id));
        }
    }
}

proof fn children_are_those_below(t: Seq<TreeNode>, k: nat)
    requires
        distinct_ids(t),
        k <= t.len(),
    ensures
        children_totals(t, t.len(), k) == totals_where(t, false, k),
    decreases k,
{
    if k == 0 {
        no_children(t, t.len());
    } else {
        children_are_those_below(t, (k - 1) as nat);
        child_counts_once(t, t.len(), k);
        if let Some(p) = parent_of(t, k - 1) {
            assert(listed(t, p));
            let i = choose|i: int| 0 <= i < t.len() && (#[trigger] t[i]).id == p;
            assert(parent_of(t, k - 1) == Some(t[i].id));
        }
    }
}

proof fn no_children(t: Seq<TreeNode>, m: nat)
    ensures
        children_totals(t, m, 0) == 0,
    decreases m,
{
    if m > 0 {
        no_children(t, (m - 1) as nat);
    }
}

proof fn totals_by_balances(t: Seq<TreeNode>, k: nat)
    requires
        acyclic(t),
        distinct_ids(t),
        t.len() <= usize::MAX,
        k <= t.len(),
    ensures
        totals_where(t, true, k) + totals_where(t, false, k) == all_balances(t, k)
            + children_totals(t, k, t.len()),
    decreases k,
{
    if k > 0 {
        totals_by_balances(t, (k - 1) as nat);
        let id = t[k - 1].id;
        assert(listed(t, id));
        subtotal_adds_children(t, id);
        let p = |i: int| t[i].id == id;
        lists::first_position_is_first(t.len(), p);
        assert(p(k - 1));
        if let Some(i) = lists::first_position(t.len(), p) {
            assert(p(i as int));
            assert(i == k - 1);
        }
    }
}

/// The totals of the accounts at the top add up to the balances of all
/// accounts: every balance is part of exactly one of them.
pub proof fn totals_at_the_top_add_up(t: Seq<TreeNode>)
    requires
        acyclic(t),
        distinct_ids(t),
        t.len() <= usize::MAX,
    ensures
        totals_where(t, true, t.len()) == all_balances(t, t.len()),
{
    totals_by_balances(t, t.len());
    children_are_those_below(t, t.len());
}

/// Which accounts stand directly under another one, by position.
struct Links {
    /// The first account with the same identifier.
    same: Vec<usize>,
    /// The first account with the parent's identifier.
    parent: Vec<Option<usize>>,
}

impl Links {
    spec fn fits(self, t: Seq<TreeNode>) -> bool {
        &&& self.same@.len() == t.len()
        &&& self.parent@.len() == t.len()
        &&& forall|i: int|
            0 <= i < t.len() ==> {
                &&& (#[trigger] self.same@[i]) < t.len()
                &&& t[self.same@[i] as int].id == t[i].id
                &&& forall|j: int| 0 <= j < self.same@[i] ==> t[j].id != t[i].id
            }
        &&& forall|i: int|
            0 <= i < t.len() ==> match #[trigger] self.parent@[i] {
                Some(p) => {
                    &&& p < t.len()
                    &&& parent_of(t, i) == Some(t[p as int].id)
                    &&& self.same@[p as int] == p
                },
                None => parent_of(t, i) is None,
            }
    }

    proof fn same_is_idempotent(self, t: Seq<TreeNode>, i: int)
        requires
            self.fits(t),
            0 <= i < t.len(),
        ensures
            self.same@[self.same@[i] as int] == self.same@[i],
    {
        let s = self.same@[i] as int;
        assert(self.same@[s] <= s);
        if self.same@[s] < s {
            assert(t[self.same@[s] as int].id != t[i].id);
        }
    }

    proof fn parent_is_link(self, t: Seq<TreeNode>, i: int, p: int)
        requires
            self.fits(t),
            0 <= i < t.len(),
            0 <= p < t.len(),
            self.same@[p] == p,
        ensures
            parent_of(t, i) == Some(t[p].id) <==> self.parent@[i] == Some(p as usize),
    {
        match self.parent@[i] {
            Some(q) => {
                if t[q as int].id == t[p].id {
                    if q < p {
                        assert(t[q as int].id != t[p].id);
                    }
                    if p < q {
                        assert(self.same@[q as int] == q);
                        assert(t[p].id != t[q as int].id);
                    }
                }
            },
            None => {},
        }
    }
}

fn find_id(inputs: &Vec<TreeInput>, id: &str) -> (r: Option<usize>)
    ensures
        match r {
            Some(i) => i < inputs@.len() && inputs@[i as int].account_id@ == id@ && forall|j: int|
                0 <= j < i ==> (#[trigger] inputs@[j]).account_id@ != id@,
            None => forall|j: int|
                0 <= j < inputs@.len() ==> (#[trigger] inputs@[j]).account_id@ != id@,
        },
{
    let mut i: usize = 0;
    while i < inputs.len()
        invariant
            i <= inputs@.len(),
            forall|j: int| 0 <= j < i ==> (#[trigger] inputs@[j]).account_id@ != id@,
        decreases inputs@.len() - i,
    {
        if text::same_text(inputs[i].account_id, id) {
            return Some(i);
        }
        i = i + 1;
    }
    None
}

fn link(inputs: &Vec<TreeInput>) -> (r: Links)
    ensures
        r.fits(nodes(inputs@)),
{
    let ghost t = nodes(inputs@);
    let mut same: Vec<usize> = Vec::new();
    let mut i: usize = 0;
    while i < inputs.len()
        invariant
            i <= inputs@.len(),
            t == nodes(inputs@),
            same@.len() == i,
            forall|k: int|
                0 <= k < i ==> {
                    &&& (#[trigger] same@[k]) < t.len()
                    &&& t[same@[k] as int].id == t[k].id
                    &&& forall|j: int| 0 <= j < same@[k] ==> t[j].id != t[k].id
                },
        decreases inputs@.len() - i,
    {
        let first: usize = match find_id(inputs, inputs[i].account_id) {
            Some(j) => j,
            None => {
                assert(inputs@[i as int].account_id@ != inputs@[i as int].account_id@);
                i
            },
        };
        proof {
            assert forall|j: int| 0 <= j < first implies t[j].id != t[i as int].id by {
                assert(t[j].id == inputs@[j].account_id@);
            }
        }
        same.push(first);
        i = i + 1;
    }
    let mut parent: Vec<Option<usize>> = Vec::new();
    let mut i: usize = 0;
    while i < inputs.len()
        invariant
            i <= inputs@.len(),
            t == nodes(inputs@),
            same@.len() == t.len(),
            forall|k: int|
                0 <= k < t.len() ==> {
                    &&& (#[trigger] same@[k]) < t.len()
                    &&& t[same@[k] as int].id == t[k].id
                    &&& forall|j: int| 0 <= j < same@[k] ==> t[j].id != t[k].id
                },
            parent@.len() == i,
            forall|k: int|
                0 <= k < i ==> match #[trigger] parent@[k] {
                    Some(p) => {
                        &&& p < t.len()
                        &&& parent_of(t, k) == Some(t[p as int].id)
                        &&& same@[p as int] == p
                    },
                    None => parent_of(t, k) is None,
                },
        decreases inputs@.len() - i,
    {
        let p: Option<usize> = match inputs[i].parent_id {
            Some(pid) => {
                let found: Option<usize> = find_id(inputs, pid);
                proof {
                    match found {
                        Some(q) => {
                            assert(t[q as int].id == pid@);
                            assert(listed(t, pid@));
                            let s = same@[q as int] as int;
                            if s < q {
                                assert(inputs@[s].account_id@ == t[s].id);
                            }
                            if q < s {
                                assert(t[q as int].id != t[q as int].id);
                            }
                        },
                        None => {
                            if listed(t, pid@) {
                                let j = choose|j: int|
                                    0 <= j < t.len() && (#[trigger] t[j]).id == pid@;
                                assert(inputs@[j].account_id@ == pid@);
                            }
                        },
                    }
                }
                found
            },
            None => None,
        };
        parent.push(p);
        i = i + 1;
    }
    Links { same, parent }
}

/// The identifier of the account at a position, if there is one.
spec fn id_at(t: Seq<TreeNode>, p: Option<usize>) -> Option<Seq<char>> {
    match p {
        Some(i) => Some(t[i as int].id),
        None => None,
    }
}

proof fn kids_are_children(t: Seq<TreeNode>, parent: Option<Seq<char>>)
    requires
        t.len() <= usize::MAX,
    ensures
        forall|k: int|
            0 <= k < kids_of(t, parent).len() ==> (#[trigger] kids_of(t, parent)[k]) < t.len()
                && parent_of(t, kids_of(t, parent)[k] as int) == parent,
        forall|i: int|
            0 <= i < t.len() && #[trigger] parent_of(t, i) == parent ==> kids_of(
                t,
                parent,
            ).contains(i as usize),
        kids_of(t, parent).len() <= t.len(),
{
    let p = |i: int| parent_of(t, i) == parent;
    let at = lists::positions(t.len(), p);
    lists::positions_are_exact(t.len(), p);
    let v = at.map_values(|i: usize| SortValue::Words(t[i as int].number));
    lists::stable_order_exists(v, false);
    let order = lists::order_of(v, false);
    lists::stable_order_is_permutation(v, false, order);
    let kids = kids_of(t, parent);
    assert forall|k: int| 0 <= k < kids.len() implies (#[trigger] kids[k]) < t.len() && parent_of(
        t,
        kids[k] as int,
    ) == parent by {
        assert(kids[k] == at[order[k] as int]);
        assert(p(at[order[k] as int] as int));
    }
    assert forall|i: int| 0 <= i < t.len() && #[trigger] parent_of(t, i) == parent implies kids.contains(
        i as usize,
    ) by {
        assert(p(i));
        assert(at.contains(i as usize));
        let j = choose|j: int| 0 <= j < at.len() && at[j] == i as usize;
        assert(order.contains(j as usize));
        let k = choose|k: int| 0 <= k < order.len() && order[k] == j as usize;
        assert(kids[k] == i as usize);
    }
}

fn sorted_where(inputs: &Vec<TreeInput>, flags: &Vec<bool>) -> (r: Vec<usize>)
    requires
        flags@.len() == inputs@.len(),
    ensures
        r@ == by_number(nodes(inputs@), |i: int| flags@[i]),
        forall|k: int| 0 <= k < r@.len() ==> (#[trigger] r@[k]) < inputs@.len(),
{
    let ghost t = nodes(inputs@);
    let ghost p = |i: int| flags@[i];
    let mut at: Vec<usize> = Vec::new();
    let mut keys: Vec<SortKey> = Vec::new();
    let mut i: usize = 0;
    while i < inputs.len()
        invariant
            i <= inputs@.len(),
            t == nodes(inputs@),
            flags@.len() == inputs@.len(),
            p == (|i: int| flags@[i]),
            at@ == lists::positions(i as nat, p),
            keys@.len() == at@.len(),
            forall|k: int| 0 <= k < at@.len() ==> (#[trigger] at@[k]) < inputs@.len(),
            forall|k: int|
                0 <= k < keys@.len() ==> (#[trigger] keys@[k])@ == SortValue::Words(
                    t[at@[k] as int].number,
                ),
        decreases inputs@.len() - i,
    {
        assert(flags@[i as int] == p(i as int));
        if flags[i] {
            at.push(i);
            keys.push(SortKey::Words(text::owned(inputs[i].account_number)));
        }
        i = i + 1;
    }
    let order = lists::stable_order(&keys, false);
    let ghost v = at@.map_values(|i: usize| SortValue::Words(t[i as int].number));
    assert(lists::sort_values(keys@) =~= v);
    let mut out: Vec<usize> = Vec::new();
    let mut k: usize = 0;
    while k < order.len()
        invariant
            k <= order@.len(),
            out@.len() == k,
            forall|j: int| 0 <= j < order@.len() ==> (#[trigger] order@[j]) < at@.len(),
            forall|j: int| 0 <= j < at@.len() ==> (#[trigger] at@[j]) < inputs@.len(),
            forall|j: int| 0 <= j < k ==> #[trigger] out@[j] == at@[order@[j] as int],
        decreases order@.len() - k,
    {
        out.push(at[order[k]]);
        k = k + 1;
    }
    assert(out@ =~= by_number(t, p));
    out
}

fn kids(inputs: &Vec<TreeInput>, links: &Links, parent: Option<usize>) -> (r: Vec<usize>)
    requires
        links.fits(nodes(inputs@)),
        parent is Some ==> parent->0 < inputs@.len() && links.same@[parent->0 as int] == parent->0,
    ensures
        r@ == kids_of(nodes(inputs@), id_at(nodes(inputs@), parent)),
{
    let ghost t = nodes(inputs@);
    let ghost p = |i: int| parent_of(t, i) == id_at(t, parent);
    let mut flags: Vec<bool> = Vec::new();
    let mut i: usize = 0;
    while i < inputs.len()
        invariant
            i <= inputs@.len(),
            t == nodes(inputs@),
            links.fits(t),
            parent is Some ==> parent->0 < inputs@.len() && links.same@[parent->0 as int]
                == parent->0,
            p == (|i: int| parent_of(t, i) == id_at(t, parent)),
            flags@.len() == i,
            forall|k: int| 0 <= k < i ==> #[trigger] flags@[k] == p(k),
        decreases inputs@.len() - i,
    {
        let here: bool = match (links.parent[i], parent) {
            (Some(a), Some(b)) => a == b,
            (None, None) => true,
            _ => false,
        };
        proof {
            if parent is Some {
                links.parent_is_link(t, i as int, parent->0 as int);
            }
            assert(here == p(i as int));
        }
        flags.push(here);
        i = i + 1;
    }
    let r = sorted_where(inputs, &flags);
    proof {
        let q = |i: int| flags@[i];
        assert forall|i: int| 0 <= i < t.len() implies #[trigger] q(i) == p(i) by {
            assert(flags@[i] == p(i));
        }
        lists::positions_agree(t.len(), q, p);
    }
    r
}

/// The subtotal of the account at `i`, the first with its identifier.
fn compute_subtotal(inputs: &Vec<TreeInput>, links: &Links, i: usize, levels: usize) -> (r: i64)
    requires
        links.fits(nodes(inputs@)),
        i < inputs@.len(),
        links.same@[i as int] == i,
        height_within(nodes(inputs@), nodes(inputs@)[i as int].id, levels as nat),
    ensures
        r == money::wrap64(subtotal(nodes(inputs@), nodes(inputs@)[i as int].id, levels as nat)),
    decreases levels,
{
    let ghost t = nodes(inputs@);
    let ghost id = t[i as int].id;
    let mut sum: i64 = inputs[i].balance;
    let count: usize = inputs.len();
    proof {
        assert(t.len() == count);
        let p = |j: int| t[j].id == id;
        lists::first_position_is_first(t.len(), p);
        assert(p(i as int));
        let f = lists::first_position(t.len(), p)->0 as int;
        if f < i {
            assert(t[f].id != t[i as int].id);
        }
        assert(own_balance(t, id) == sum);
        money::wrapping_is_uniform(sum as int, 0);
    }
    let mut k: usize = 0;
    while k < inputs.len()
        invariant
            k <= inputs@.len(),
            t == nodes(inputs@),
            id == t[i as int].id,
            i < inputs@.len(),
            links.fits(t),
            links.same@[i as int] == i,
            height_within(t, id, levels as nat),
            sum == money::wrap64(own_balance(t, id) + below(t, id, k as nat, levels as nat)),
        decreases inputs@.len() - k,
    {
        proof {
            links.parent_is_link(t, k as int, i as int);
            links.same_is_idempotent(t, k as int);
        }
        if let Some(p) = links.parent[k] {
            if p == i {
                assert(parent_of(t, k as int) == Some(id));
                let child: i64 = compute_subtotal(inputs, links, links.same[k], levels - 1);
                proof {
                    let sub = subtotal(t, t[k as int].id, (levels - 1) as nat);
                    let so_far = own_balance(t, id) + below(t, id, k as nat, levels as nat);
                    money::wrapping_is_uniform(sub, sum as int);
                    money::wrapping_is_uniform(so_far, sub);
                }
                sum = money::plus(child, sum);
            }
        }
        k = k + 1;
    }
    sum
}

// ---- rows ----

/// A row of the tree.
pub enum ReportRow {
    /// An account without shown accounts under it, and the balance of all of
    /// them.
    Account {
        name: String,
        balance: i64,
        depth: usize,
        is_last_child: bool,
        ancestor_is_last: Vec<bool>,
    },
    /// The head of an account whose accounts follow.
    ParentHeader {
        name: String,
        depth: usize,
        is_last_child: bool,
        ancestor_is_last: Vec<bool>,
    },
    /// The sum of an account and all accounts under it, after them.
    Subtotal {
        parent_name: String,
        amount: i64,
        depth: usize,
    },
}

/// The meaning of a row of the tree.
#[verifier::ext_equal]
pub ghost enum TreeRow {
    Account {
        name: Seq<char>,
        balance: int,
        depth: nat,
        is_last: bool,
        ancestors: Seq<bool>,
    },
    Header {
        name: Seq<char>,
        depth: nat,
        is_last: bool,
        ancestors: Seq<bool>,
    },
    Subtotal {
        name: Seq<char>,
        amount: int,
        depth: nat,
    },
}

impl View for ReportRow {
    type V = TreeRow;

    open spec fn view(&self) -> TreeRow {
        match self {
            ReportRow::Account { name, balance, depth, is_last_child, ancestor_is_last } =>
                TreeRow::Account {
                name: name@,
                balance: *balance as int,
                depth: *depth as nat,
                is_last: *is_last_child,
                ancestors: ancestor_is_last@,
            },
            ReportRow::ParentHeader { name, depth, is_last_child, ancestor_is_last } =>
                TreeRow::Header {
                name: name@,
                depth: *depth as nat,
                is_last: *is_last_child,
                ancestors: ancestor_is_last@,
            },
            ReportRow::Subtotal { parent_name, amount, depth } => TreeRow::Subtotal {
                name: parent_name@,
                amount: *amount as int,
                depth: *depth as nat,
            },
        }
    }
}

pub open spec fn tree_rows(v: Seq<ReportRow>) -> Seq<TreeRow> {
    v.map_values(|r: ReportRow| r@)
}

/// Whether accounts at this depth still show what is under them.
pub open spec fn within_limit(depth: nat, limit: Option<usize>) -> bool {
    match limit {
        None => true,
        Some(d) => depth < d,
    }
}

/// The rows of the first `k` accounts directly under another one (or at the
/// top) and of everything shown under them, down `n` levels.
pub open spec fn rows_under(
    t: Seq<TreeNode>,
    parent: Option<Seq<char>>,
    depth: nat,
    limit: Option<usize>,
    ancestors: Seq<bool>,
    k: nat,
    n: nat,
) -> Seq<TreeRow>
    decreases n, k,
{
    if k == 0 || n == 0 {
        Seq::empty()
    } else {
        let kids = kids_of(t, parent);
        let node = t[kids[k - 1] as int];
        let is_last = k == kids.len();
        rows_under(t, parent, depth, limit, ancestors, (k - 1) as nat, n) + if kids_of(
            t,
            Some(node.id),
        ).len() > 0 && within_limit(depth, limit) {
            seq![TreeRow::Header { name: node.name, depth, is_last, ancestors }] + rows_under(
                t,
                Some(node.id),
                depth + 1,
                limit,
                ancestors.push(is_last),
                kids_of(t, Some(node.id)).len(),
                (n - 1) as nat,
            ) + seq![
                TreeRow::Subtotal {
                    name: node.name,
                    amount: money::wrap64(total_of(t, node.id)),
                    depth,
                },
            ]
        } else {
            seq![
                TreeRow::Account {
                    name: node.name,
                    balance: money::wrap64(total_of(t, node.id)),
                    depth,
                    is_last,
                    ancestors,
                },
            ]
        }
    }
}

/// The rows of a report section.
pub open spec fn report_rows(t: Seq<TreeNode>, limit: Option<usize>) -> Seq<TreeRow> {
    rows_under(t, None, 0, limit, Seq::empty(), kids_of(t, None).len(), t.len())
}

/// An exact copy of some marks.
pub fn copy_flags(v: &Vec<bool>) -> (r: Vec<bool>)
    ensures
        r@ == v@,
{
    let mut out: Vec<bool> = Vec::new();
    let mut i: usize = 0;
    while i < v.len()
        invariant
            i <= v@.len(),
            out@ == v@.take(i as int),
        decreases v@.len() - i,
    {
        out.push(v[i]);
        i = i + 1;
    }
    assert(v@.take(i as int) =~= v@);
    out
}

fn emit_rows(
    inputs: &Vec<TreeInput>,
    links: &Links,
    parent: Option<usize>,
    depth: usize,
    collapse_depth: Option<usize>,
    ancestor_is_last: &Vec<bool>,
    levels: usize,
    out: &mut Vec<ReportRow>,
)
    requires
        links.fits(nodes(inputs@)),
        acyclic(nodes(inputs@)),
        parent is Some ==> parent->0 < inputs@.len() && links.same@[parent->0 as int] == parent->0,
        forall|i: int|
            0 <= i < inputs@.len() && #[trigger] parent_of(nodes(inputs@), i) == id_at(
                nodes(inputs@),
                parent,
            ) ==> height_within(nodes(inputs@), nodes(inputs@)[i].id, levels as nat),
        depth + levels <= usize::MAX,
    ensures
        tree_rows(final(out)@) == tree_rows(old(out)@) + rows_under(
            nodes(inputs@),
            id_at(nodes(inputs@), parent),
            depth as nat,
            collapse_depth,
            ancestor_is_last@,
            kids_of(nodes(inputs@), id_at(nodes(inputs@), parent)).len(),
            levels as nat,
        ),
    decreases levels,
{
    let ghost t = nodes(inputs@);
    let ghost pid = id_at(t, parent);
    let ghost before = tree_rows(out@);
    let children = kids(inputs, links, parent);
    let count: usize = children.len();
    let n: usize = inputs.len();
    proof {
        kids_are_children(t, pid);
        assert(rows_under(t, pid, depth as nat, collapse_depth, ancestor_is_last@, 0, levels as nat)
            =~= Seq::<TreeRow>::empty());
        assert(before + Seq::<TreeRow>::empty() =~= before);
    }
    let mut i: usize = 0;
    while i < count
        invariant
            i <= count,
            n == inputs@.len(),
            count == children@.len(),
            t == nodes(inputs@),
            pid == id_at(t, parent),
            children@ == kids_of(t, pid),
            links.fits(t),
            acyclic(t),
            forall|k: int|
                0 <= k < children@.len() ==> (#[trigger] children@[k]) < t.len() && parent_of(
                    t,
                    children@[k] as int,
                ) == pid,
            forall|j: int|
                0 <= j < t.len() && #[trigger] parent_of(t, j) == pid ==> height_within(
                    t,
                    t[j].id,
                    levels as nat,
                ),
            depth + levels <= usize::MAX,
            tree_rows(out@) == before + rows_under(
                t,
                pid,
                depth as nat,
                collapse_depth,
                ancestor_is_last@,
                i as nat,
                levels as nat,
            ),
        decreases count - i,
    {
        let index: usize = children[i];
        let input = &inputs[index];
        let is_last: bool = i == count - 1;
        let first: usize = links.same[index];
        let ghost node = t[index as int];
        assert(parent_of(t, index as int) == pid);
        assert(height_within(t, node.id, levels as nat));
        proof {
            links.same_is_idempotent(t, index as int);
            assert(height_within(t, t[first as int].id, t.len()));
            kids_are_children(t, Some(node.id));
        }
        let total: i64 = compute_subtotal(inputs, links, first, n);
        let grandchildren = kids(inputs, links, Some(first));
        let within: bool = match collapse_depth {
            None => true,
            Some(max) => depth < max,
        };
        let ghost sofar = tree_rows(out@);
        if grandchildren.len() > 0 && within {
            proof {
                let g = grandchildren@[0] as int;
                assert(parent_of(t, g) == Some(node.id));
                assert(height_within(t, t[g].id, (levels - 1) as nat));
            }
            out.push(
                ReportRow::ParentHeader {
                    name: text::owned(input.account_name),
                    depth,
                    is_last_child: is_last,
                    ancestor_is_last: copy_flags(ancestor_is_last),
                },
            );
            let ghost head = out@.last()@;
            assert(tree_rows(out@) =~= sofar.push(head));
            let mut deeper = copy_flags(ancestor_is_last);
            deeper.push(is_last);
            emit_rows(
                inputs,
                links,
                Some(first),
                depth + 1,
                collapse_depth,
                &deeper,
                levels - 1,
                out,
            );
            let ghost inner = rows_under(
                t,
                Some(node.id),
                depth as nat + 1,
                collapse_depth,
                ancestor_is_last@.push(is_last),
                kids_of(t, Some(node.id)).len(),
                (levels - 1) as nat,
            );
            assert(tree_rows(out@) =~= sofar.push(head) + inner);
            out.push(
                ReportRow::Subtotal {
                    parent_name: text::owned(input.account_name),
                    amount: total,
                    depth,
                },
            );
            proof {
                let tail = out@.last()@;
                assert(tree_rows(out@) =~= (sofar.push(head) + inner).push(tail));
                assert(head =~= TreeRow::Header {
                    name: node.name,
                    depth: depth as nat,
                    is_last,
                    ancestors: ancestor_is_last@,
                });
                assert((sofar.push(head) + inner).push(tail) =~= sofar + (seq![head] + inner
                    + seq![tail]));
            }
        } else {
            out.push(
                ReportRow::Account {
                    name: text::owned(input.account_name),
                    balance: total,
                    depth,
                    is_last_child: is_last,
                    ancestor_is_last: copy_flags(ancestor_is_last),
                },
            );
            proof {
                let row = out@.last()@;
                assert(tree_rows(out@) =~= sofar.push(row));
                assert(row =~= TreeRow::Account {
                    name: node.name,
                    balance: money::wrap64(total_of(t, node.id)),
                    depth: depth as nat,
                    is_last,
                    ancestors: ancestor_is_last@,
                });
                assert(sofar.push(row) =~= sofar + seq![row]);
            }
        }
        proof {
            let so = rows_under(
                t,
                pid,
                depth as nat,
                collapse_depth,
                ancestor_is_last@,
                i as nat,
                levels as nat,
            );
            let next = rows_under(
                t,
                pid,
                depth as nat,
                collapse_depth,
                ancestor_is_last@,
                (i + 1) as nat,
                levels as nat,
            );
            assert(levels > 0);
            assert(tree_rows(out@) =~= before + next);
        }
        i = i + 1;
    }
}

/// Writes a report section down as rows: every account under its parent and
/// before the accounts under it, siblings by account number; with a limit,
/// deeper accounts are added into their ancestor at that depth.
pub fn build_report_rows(inputs: &Vec<TreeInput>, collapse_depth: Option<usize>) -> (r: Vec<
    ReportRow,
>)
    requires
        acyclic(nodes(inputs@)),
    ensures
        tree_rows(r@) == report_rows(nodes(inputs@), collapse_depth),
{
    let mut out: Vec<ReportRow> = Vec::new();
    let ghost t = nodes(inputs@);
    let links = link(inputs);
    let none: Vec<bool> = Vec::new();
    proof {
        assert forall|i: int| 0 <= i < inputs@.len() && #[trigger] parent_of(t, i) == id_at(
            t,
            None,
        ) implies height_within(t, t[i].id, inputs@.len()) by {
            assert(height_within(t, t[i].id, t.len()));
        }
        assert(none@ =~= Seq::<bool>::empty());
        assert(tree_rows(out@) =~= Seq::<TreeRow>::empty());
    }
    emit_rows(inputs, &links, None, 0, collapse_depth, &none, inputs.len(), &mut out);
    assert(tree_rows(out@) =~= report_rows(t, collapse_depth));
    out
}

// ---- the chart of accounts ----

/// An account in its place in the chart.
pub struct Placed {
    pub index: usize,
    pub depth: usize,
    pub is_last_child: bool,
    pub ancestor_is_last: Vec<bool>,
}

/// The meaning of an account in its place.
#[verifier::ext_equal]
pub ghost struct Place {
    pub index: int,
    pub depth: nat,
    pub is_last: bool,
    pub ancestors: Seq<bool>,
}

impl View for Placed {
    type V = Place;

    open spec fn view(&self) -> Place {
        Place {
            index: self.index as int,
            depth: self.depth as nat,
            is_last: self.is_last_child,
            ancestors: self.ancestor_is_last@,
        }
    }
}

pub open spec fn places(v: Seq<Placed>) -> Seq<Place> {
    v.map_values(|p: Placed| p@)
}

/// The accounts that name no parent, by account number.
pub open spec fn roots(t: Seq<TreeNode>) -> Seq<usize> {
    by_number(t, |i: int| t[i].parent is None)
}

/// The first `k` accounts of a group of siblings, each followed by everything
/// under it, down `n` levels.
pub open spec fn placed_under(
    t: Seq<TreeNode>,
    group: Seq<usize>,
    depth: nat,
    ancestors: Seq<bool>,
    k: nat,
    n: nat,
) -> Seq<Place>
    decreases n, k,
{
    if k == 0 || n == 0 {
        Seq::empty()
    } else {
        let i = group[k - 1] as int;
        let is_last = k == group.len();
        let under = kids_of(t, Some(t[i].id));
        placed_under(t, group, depth, ancestors, (k - 1) as nat, n) + seq![
            Place { index: i, depth, is_last, ancestors },
        ] + placed_under(
            t,
            under,
            depth + 1,
            ancestors.push(is_last),
            under.len(),
            (n - 1) as nat,
        )
    }
}

/// The chart: every account that hangs under an account without a parent,
/// parents before children, siblings by number.
pub open spec fn chart(t: Seq<TreeNode>) -> Seq<Place> {
    placed_under(t, roots(t), 0, Seq::empty(), roots(t).len(), t.len())
}

/// Whether the accounts under those without a parent form no cycle.
pub open spec fn walkable(t: Seq<TreeNode>) -> bool {
    forall|i: int|
        0 <= i < t.len() && (#[trigger] t[i]).parent is None ==> height_within(
            t,
            t[i].id,
            t.len(),
        )
}

proof fn group_is_within(t: Seq<TreeNode>, p: spec_fn(int) -> bool)
    requires
        t.len() <= usize::MAX,
    ensures
        forall|k: int|
            0 <= k < by_number(t, p).len() ==> (#[trigger] by_number(t, p)[k]) < t.len() && p(
                by_number(t, p)[k] as int,
            ),
{
    let at = lists::positions(t.len(), p);
    lists::positions_are_exact(t.len(), p);
    let v = at.map_values(|i: usize| SortValue::Words(t[i as int].number));
    lists::stable_order_exists(v, false);
    let order = lists::order_of(v, false);
    let group = by_number(t, p);
    assert forall|k: int| 0 <= k < group.len() implies (#[trigger] group[k]) < t.len() && p(
        group[k] as int,
    ) by {
        assert(group[k] == at[order[k] as int]);
        assert(p(at[order[k] as int] as int));
    }
}

fn place_all(
    inputs: &Vec<TreeInput>,
    links: &Links,
    group: &Vec<usize>,
    depth: usize,
    ancestor_is_last: &Vec<bool>,
    levels: usize,
    out: &mut Vec<Placed>,
)
    requires
        links.fits(nodes(inputs@)),
        forall|k: int|
            0 <= k < group@.len() ==> (#[trigger] group@[k]) < inputs@.len() && height_within(
                nodes(inputs@),
                nodes(inputs@)[group@[k] as int].id,
                levels as nat,
            ),
        depth + levels <= usize::MAX,
    ensures
        places(final(out)@) == places(old(out)@) + placed_under(
            nodes(inputs@),
            group@,
            depth as nat,
            ancestor_is_last@,
            group@.len(),
            levels as nat,
        ),
    decreases levels,
{
    let ghost t = nodes(inputs@);
    let ghost before = places(out@);
    let count: usize = group.len();
    let n: usize = inputs.len();
    proof {
        assert(placed_under(t, group@, depth as nat, ancestor_is_last@, 0, levels as nat)
            =~= Seq::<Place>::empty());
        assert(before + Seq::<Place>::empty() =~= before);
    }
    let mut i: usize = 0;
    while i < count
        invariant
            i <= count,
            n == inputs@.len(),
            count == group@.len(),
            t == nodes(inputs@),
            links.fits(t),
            forall|k: int|
                0 <= k < group@.len() ==> (#[trigger] group@[k]) < inputs@.len() && height_within(
                    t,
                    t[group@[k] as int].id,
                    levels as nat,
                ),
            depth + levels <= usize::MAX,
            places(out@) == before + placed_under(
                t,
                group@,
                depth as nat,
                ancestor_is_last@,
                i as nat,
                levels as nat,
            ),
        decreases count - i,
    {
        let index: usize = group[i];
        let is_last: bool = i == count - 1;
        let first: usize = links.same[index];
        let ghost id = t[index as int].id;
        assert(height_within(t, id, levels as nat));
        assert(levels > 0);
        proof {
            links.same_is_idempotent(t, index as int);
            kids_are_children(t, Some(id));
        }
        let under = kids(inputs, links, Some(first));
        let ghost sofar = places(out@);
        out.push(
            Placed {
                index,
                depth,
                is_last_child: is_last,
                ancestor_is_last: copy_flags(ancestor_is_last),
            },
        );
        let ghost here = out@.last()@;
        assert(places(out@) =~= sofar.push(here));
        let mut deeper = copy_flags(ancestor_is_last);
        deeper.push(is_last);
        assert forall|k: int| 0 <= k < under@.len() implies (#[trigger] under@[k]) < inputs@.len()
            && height_within(t, t[under@[k] as int].id, (levels - 1) as nat) by {
            assert(parent_of(t, under@[k] as int) == Some(id));
        }
        place_all(inputs, links, &under, depth + 1, &deeper, levels - 1, out);
        proof {
            let inner = placed_under(
                t,
                under@,
                depth as nat + 1,
                ancestor_is_last@.push(is_last),
                under@.len(),
                (levels - 1) as nat,
            );
            assert(places(out@) =~= sofar.push(here) + inner);
            assert(here =~= Place {
                index: index as int,
                depth: depth as nat,
                is_last,
                ancestors: ancestor_is_last@,
            });
            let next = placed_under(
                t,
                group@,
                depth as nat,
                ancestor_is_last@,
                (i + 1) as nat,
                levels as nat,
            );
            let prev = placed_under(
                t,
                group@,
                depth as nat,
                ancestor_is_last@,
                i as nat,
                levels as nat,
            );
            assert(next =~= prev + seq![here] + inner);
            assert(places(out@) =~= before + next);
        }
        i = i + 1;
    }
}

fn find_roots(inputs: &Vec<TreeInput>) -> (r: Vec<usize>)
    ensures
        r@ == roots(nodes(inputs@)),
        forall|k: int|
            0 <= k < r@.len() ==> (#[trigger] r@[k]) < inputs@.len()
                && inputs@[r@[k] as int].parent_id is None,
{
    let ghost t = nodes(inputs@);
    let ghost p = |i: int| t[i].parent is None;
    let n: usize = inputs.len();
    let mut flags: Vec<bool> = Vec::new();
    let mut i: usize = 0;
    while i < n
        invariant
            i <= n,
            n == inputs@.len(),
            t == nodes(inputs@),
            p == (|i: int| t[i].parent is None),
            flags@.len() == i,
            forall|k: int| 0 <= k < i ==> #[trigger] flags@[k] == p(k),
        decreases n - i,
    {
        flags.push(inputs[i].parent_id.is_none());
        i = i + 1;
    }
    let r = sorted_where(inputs, &flags);
    proof {
        let q = |i: int| flags@[i];
        assert forall|i: int| 0 <= i < t.len() implies #[trigger] q(i) == p(i) by {
            assert(flags@[i] == p(i));
        }
        lists::positions_agree(t.len(), q, p);
        group_is_within(t, p);
        assert(r@ == by_number(t, p));
        assert forall|k: int| 0 <= k < r@.len() implies (#[trigger] r@[k]) < inputs@.len()
            && inputs@[r@[k] as int].parent_id is None by {
            assert(r@[k] == by_number(t, p)[k]);
            assert(p(r@[k] as int));
        }
    }
    r
}

/// Puts the accounts in their places in the chart.
pub fn place_accounts(inputs: &Vec<TreeInput>) -> (r: Vec<Placed>)
    requires
        walkable(nodes(inputs@)),
    ensures
        places(r@) == chart(nodes(inputs@)),
        forall|k: int| 0 <= k < r@.len() ==> (#[trigger] r@[k]).index < inputs@.len(),
{
    let ghost t = nodes(inputs@);
    let links = link(inputs);
    let top = find_roots(inputs);
    let none: Vec<bool> = Vec::new();
    let mut out: Vec<Placed> = Vec::new();
    let n: usize = inputs.len();
    proof {
        assert forall|k: int| 0 <= k < top@.len() implies (#[trigger] top@[k]) < inputs@.len()
            && height_within(t, t[top@[k] as int].id, n as nat) by {
            assert(t[top@[k] as int].parent is None);
        }
        assert(none@ =~= Seq::<bool>::empty());
    }
    place_all(inputs, &links, &top, 0, &none, n, &mut out);
    proof {
        assert(places(out@) =~= chart(t));
        chart_is_within(t, roots(t), 0, Seq::empty(), roots(t).len(), t.len());
        assert forall|k: int| 0 <= k < out@.len() implies (#[trigger] out@[k]).index
            < inputs@.len() by {
            assert(places(out@)[k] == out@[k]@);
        }
    }
    out
}

proof fn chart_is_within(
    t: Seq<TreeNode>,
    group: Seq<usize>,
    depth: nat,
    ancestors: Seq<bool>,
    k: nat,
    n: nat,
)
    requires
        t.len() <= usize::MAX,
        k <= group.len(),
        forall|j: int| 0 <= j < group.len() ==> (#[trigger] group[j]) < t.len(),
    ensures
        forall|j: int|
            0 <= j < placed_under(t, group, depth, ancestors, k, n).len() ==> 0 <= (
            #[trigger] placed_under(t, group, depth, ancestors, k, n)[j]).index < t.len(),
        ancestors.len() == depth ==> forall|j: int|
            0 <= j < placed_under(t, group, depth, ancestors, k, n).len() ==> (
            #[trigger] placed_under(t, group, depth, ancestors, k, n)[j]).ancestors.len()
                == placed_under(t, group, depth, ancestors, k, n)[j].depth,
    decreases n, k,
{
    if k > 0 && n > 0 {
        let i = group[k - 1] as int;
        let is_last = k == group.len();
        let under = kids_of(t, Some(t[i].id));
        chart_is_within(t, group, depth, ancestors, (k - 1) as nat, n);
        kids_are_children(t, Some(t[i].id));
        chart_is_within(
            t,
            under,
            depth + 1,
            ancestors.push(is_last),
            under.len(),
            (n - 1) as nat,
        );
        let a = placed_under(t, group, depth, ancestors, (k - 1) as nat, n);
        let c = placed_under(
            t,
            under,
            depth + 1,
            ancestors.push(is_last),
            under.len(),
            (n - 1) as nat,
        );
        let here = Place { index: i, depth, is_last, ancestors };
        let all = placed_under(t, group, depth, ancestors, k, n);
        assert(all =~= a + seq![here] + c);
        assert forall|j: int| 0 <= j < all.len() implies 0 <= (#[trigger] all[j]).index < t.len() && (
        ancestors.len() == depth ==> all[j].ancestors.len() == all[j].depth) by {
            if j < a.len() {
                assert(all[j] == a[j]);
            } else if j == a.len() {
                assert(all[j] == here);
            } else {
                assert(all[j] == c[j - a.len() - 1]);
            }
        }
    }
}

/// Every account of the chart has one mark for each account above it.
pub proof fn chart_depths_match(t: Seq<TreeNode>)
    requires
        t.len() <= usize::MAX,
    ensures
        forall|j: int|
            0 <= j < chart(t).len() ==> 0 <= (#[trigger] chart(t)[j]).index < t.len()
                && chart(t)[j].ancestors.len() == chart(t)[j].depth,
{
    group_is_within(t, |i: int| t[i].parent is None);
    chart_is_within(t, roots(t), 0, Seq::empty(), roots(t).len(), t.len());
}

/// Checks that the accounts under those without a parent form no cycle.
pub fn is_walkable(inputs: &Vec<TreeInput>) -> (r: bool)
    ensures
        r == walkable(nodes(inputs@)),
{
    let ghost t = nodes(inputs@);
    let links = link(inputs);
    let mut i: usize = 0;
    while i < inputs.len()
        invariant
            i <= inputs@.len(),
            t == nodes(inputs@),
            links.fits(t),
            forall|j: int|
                0 <= j < i && (#[trigger] t[j]).parent is None ==> height_within(
                    t,
                    t[j].id,
                    t.len(),
                ),
        decreases inputs@.len() - i,
    {
        proof {
            links.same_is_idempotent(t, i as int);
        }
        if inputs[i].parent_id.is_none() && !has_height(inputs, &links, links.same[i], inputs.len()) {
            assert(t[i as int].parent is None);
            return false;
        }
        i = i + 1;
    }
    true
}

// ---- depth ----

/// The last position below `n` that satisfies `p`.
pub open spec fn last_position(n: nat, p: spec_fn(int) -> bool) -> Option<int>
    decreases n,
{
    if n == 0 {
        None
    } else if p(n - 1) {
        Some(n - 1)
    } else {
        last_position((n - 1) as nat, p)
    }
}

/// The account that an identifier stands under.
pub open spec fn parent_of_id(t: Seq<TreeNode>, id: Seq<char>) -> Option<Seq<char>> {
    match last_position(t.len(), |i: int| t[i].id == id) {
        Some(i) => parent_of(t, i),
        None => None,
    }
}

/// How many accounts an account stands under, up to `n`.
pub open spec fn depth_of(t: Seq<TreeNode>, id: Seq<char>, n: nat) -> nat
    decreases n,
{
    if n == 0 {
        0
    } else {
        match parent_of_id(t, id) {
            Some(p) => 1 + depth_of(t, p, (n - 1) as nat),
            None => 0,
        }
    }
}

/// The largest depth among the first `k` accounts.
pub open spec fn deepest(t: Seq<TreeNode>, k: nat) -> nat
    decreases k,
{
    if k == 0 {
        0
    } else {
        let d = depth_of(t, t[k - 1].id, t.len());
        let before = deepest(t, (k - 1) as nat);
        if d > before {
            d
        } else {
            before
        }
    }
}

proof fn last_position_is_last(n: nat, p: spec_fn(int) -> bool)
    ensures
        match last_position(n, p) {
            Some(i) => 0 <= i < n && p(i) && forall|j: int| i < j < n ==> !#[trigger] p(j),
            None => forall|j: int| 0 <= j < n ==> !#[trigger] p(j),
        },
    decreases n,
{
    if n > 0 {
        last_position_is_last((n - 1) as nat, p);
    }
}

fn parent_link(links: &Links, i: usize, Ghost(t): Ghost<Seq<TreeNode>>) -> (r: Option<usize>)
    requires
        links.fits(t),
        i < t.len(),
        links.same@[i as int] == i,
    ensures
        match r {
            Some(p) => p < t.len() && links.same@[p as int] == p && parent_of_id(t, t[i as int].id)
                == Some(t[p as int].id),
            None => parent_of_id(t, t[i as int].id) is None,
        },
{
    let mut k: usize = links.same.len();
    let ghost p = |j: int| t[j].id == t[i as int].id;
    while k > 0
        invariant
            k <= t.len(),
            links.fits(t),
            i < t.len(),
            links.same@[i as int] == i,
            p == (|j: int| t[j].id == t[i as int].id),
            last_position(t.len(), p) == last_position(k as nat, p),
        decreases k,
    {
        let here: bool = links.same[k - 1] == i;
        proof {
            let s = links.same@[k - 1] as int;
            if s == i {
                assert(p(k - 1));
            } else {
                if t[k - 1].id == t[i as int].id {
                    if s < i {
                        assert(t[s].id != t[i as int].id);
                    } else {
                        assert(t[i as int].id != t[k - 1].id);
                    }
                }
                assert(!p(k - 1));
            }
        }
        if here {
            return links.parent[k - 1];
        }
        k = k - 1;
    }
    proof {
        last_position_is_last(t.len(), p);
    }
    None
}

/// The largest number of accounts that one account stands under.
pub fn compute_max_depth(inputs: &Vec<TreeInput>) -> (r: usize)
    requires
        acyclic(nodes(inputs@)),
    ensures
        r == deepest(nodes(inputs@), inputs@.len()),
{
    let ghost t = nodes(inputs@);
    let links = link(inputs);
    let n: usize = inputs.len();
    let mut max_depth: usize = 0;
    let mut i: usize = 0;
    while i < n
        invariant
            i <= n,
            n == inputs@.len(),
            t == nodes(inputs@),
            links.fits(t),
            max_depth == deepest(t, i as nat),
        decreases n - i,
    {
        proof {
            links.same_is_idempotent(t, i as int);
        }
        let mut current: usize = links.same[i];
        let mut depth: usize = 0;
        let mut going: bool = n > 0;
        while going
            invariant
                i < n,
                n == t.len(),
                links.fits(t),
                current < n,
                links.same@[current as int] == current,
                depth <= n,
                going ==> depth < n,
                going ==> depth + depth_of(t, t[current as int].id, (n - depth) as nat) == depth_of(
                    t,
                    t[i as int].id,
                    n as nat,
                ),
                !going ==> depth == depth_of(t, t[i as int].id, n as nat),
            decreases n - depth + if going { 1int } else { 0int },
        {
            let ghost id = t[current as int].id;
            let ghost left = (n - depth) as nat;
            match parent_link(&links, current, Ghost(t)) {
                Some(p) => {
                    assert(depth_of(t, id, left) == 1 + depth_of(
                        t,
                        t[p as int].id,
                        (left - 1) as nat,
                    ));
                    assert(depth_of(t, t[p as int].id, 0) == 0);
                    depth = depth + 1;
                    current = p;
                    going = depth < n;
                },
                None => {
                    assert(depth_of(t, id, left) == 0);
                    going = false;
                },
            }
        }
        if depth > max_depth {
            max_depth = depth;
        }
        i = i + 1;
    }
    max_depth
}

fn has_height(inputs: &Vec<TreeInput>, links: &Links, i: usize, levels: usize) -> (r: bool)
    requires
        links.fits(nodes(inputs@)),
        i < inputs@.len(),
        links.same@[i as int] == i,
    ensures
        r == height_within(nodes(inputs@), nodes(inputs@)[i as int].id, levels as nat),
    decreases levels,
{
    if levels == 0 {
        return false;
    }
    let ghost t = nodes(inputs@);
    let ghost id = t[i as int].id;
    let mut k: usize = 0;
    while k < inputs.len()
        invariant
            k <= inputs@.len(),
            t == nodes(inputs@),
            id == t[i as int].id,
            i < inputs@.len(),
            links.fits(t),
            links.same@[i as int] == i,
            levels > 0,
            forall|j: int|
                0 <= j < k && #[trigger] parent_of(t, j) == Some(id) ==> height_within(
                    t,
                    t[j].id,
                    (levels - 1) as nat,
                ),
        decreases inputs@.len() - k,
    {
        proof {
            links.parent_is_link(t, k as int, i as int);
            links.same_is_idempotent(t, k as int);
        }
        if let Some(p) = links.parent[k] {
            if p == i {
                if !has_height(inputs, links, links.same[k], levels - 1) {
                    assert(parent_of(t, k as int) == Some(id));
                    return false;
                }
            }
        }
        k = k + 1;
    }
    true
}

/// Checks that no account stands under itself.
pub fn is_acyclic(inputs: &Vec<TreeInput>) -> (r: bool)
    ensures
        r == acyclic(nodes(inputs@)),
{
    let ghost t = nodes(inputs@);
    let links = link(inputs);
    let mut i: usize = 0;
    while i < inputs.len()
        invariant
            i <= inputs@.len(),
            t == nodes(inputs@),
            links.fits(t),
            forall|j: int| 0 <= j < i ==> height_within(t, (#[trigger] t[j]).id, t.len()),
        decreases inputs@.len() - i,
    {
        proof {
            links.same_is_idempotent(t, i as int);
        }
        if !has_height(inputs, &links, links.same[i], inputs.len()) {
            assert(!height_within(t, t[i as int].id, t.len()));
            return false;
        }
        i = i + 1;
    }
    true
}

// ---- prefixes ----

/// The lines that connect a row to the rows of its ancestors.
pub open spec fn ancestor_lines(ancestors: Seq<bool>) -> Seq<char>
    decreases ancestors.len(),
{
    if ancestors.len() == 0 {
        Seq::empty()
    } else {
        ancestor_lines(ancestors.drop_last()) + if ancestors.last() {
            "   "@
        } else {
            "│  "@
        }
    }
}

pub open spec fn tree_prefix(depth: nat, is_last: bool, ancestors: Seq<bool>) -> Seq<char> {
    if depth == 0 {
        Seq::empty()
    } else {
        ancestor_lines(ancestors) + if is_last {
            "└─ "@
        } else {
            "├─ "@
        }
    }
}

/// Draws the branches in front of an account at the given depth.
pub fn make_tree_prefix(depth: usize, is_last_child: bool, ancestor_is_last: &Vec<bool>) -> (r:
    String)
    ensures
        r@ == tree_prefix(depth as nat, is_last_child, ancestor_is_last@),
{
    if depth == 0 {
        return String::new();
    }
    let mut prefix = String::new();
    let mut i: usize = 0;
    while i < ancestor_is_last.len()
        invariant
            i <= ancestor_is_last@.len(),
            prefix@ == ancestor_lines(ancestor_is_last@.take(i as int)),
        decreases ancestor_is_last@.len() - i,
    {
        proof {
            let upto = ancestor_is_last@.take(i + 1);
            assert(upto.drop_last() =~= ancestor_is_last@.take(i as int));
        }
        if ancestor_is_last[i] {
            prefix.append("   ");
        } else {
            prefix.append("│  ");
        }
        i = i + 1;
    }
    assert(ancestor_is_last@.take(i as int) =~= ancestor_is_last@);
    if is_last_child {
        prefix.append("└─ ");
    } else {
        prefix.append("├─ ");
    }
    prefix
}

proof fn ancestor_lines_are_wide(ancestors: Seq<bool>)
    ensures
        ancestor_lines(ancestors).len() == 3 * ancestors.len(),
    decreases ancestors.len(),
{
    reveal_strlit("   ");
    reveal_strlit("│  ");
    if ancestors.len() > 0 {
        ancestor_lines_are_wide(ancestors.drop_last());
    }
}

/// Rows at one depth are indented alike: three columns for every ancestor and
/// three for the branch.
pub proof fn prefixes_line_up(depth: nat, is_last: bool, ancestors: Seq<bool>)
    requires
        depth > 0,
    ensures
        tree_prefix(depth, is_last, ancestors).len() == 3 * (ancestors.len() + 1),
{
    ancestor_lines_are_wide(ancestors);
    reveal_strlit("└─ ");
    reveal_strlit("├─ ");
}

} // verus!
