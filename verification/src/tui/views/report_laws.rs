//! What holds of the rows of a report as a whole: amounts are neither lost nor
//! doubled, rows stay within the chosen depth, and every account is shown.

use vstd::prelude::*;

use crate::lists;
use crate::lists::SortValue;
use crate::money;
use crate::tui::views::report_tree;
use crate::tui::views::report_tree::{TreeNode, TreeRow};

verus! {

// ---- sums in another order ----

proof fn total_without(v: Seq<int>, j: int)
    requires
        0 <= j < v.len(),
    ensures
        money::total(v) == money::total(v.remove(j)) + v[j],
    decreases v.len(),
{
    if j == v.len() - 1 {
        assert(v.remove(j) =~= v.drop_last());
    } else {
        total_without(v.drop_last(), j);
        assert(v.remove(j).drop_last() =~= v.drop_last().remove(j));
        assert(v.remove(j).last() == v.last());
    }
}

/// The order of amounts does not matter for their sum.
pub proof fn order_does_not_matter(a: Seq<int>, b: Seq<int>)
    requires
        a.to_multiset() == b.to_multiset(),
    ensures
        money::total(a) == money::total(b),
    decreases a.len(),
{
    a.to_multiset_ensures();
    b.to_multiset_ensures();
    if a.len() > 0 {
        let x = b.last();
        assert(b.contains(x));
        assert(b.to_multiset().count(x) > 0);
        assert(a.contains(x));
        let j = choose|j: int| 0 <= j < a.len() && a[j] == x;
        total_without(a, j);
        assert(b.drop_last() =~= b.remove(b.len() - 1));
        assert(a.remove(j).to_multiset() =~= a.to_multiset().remove(x));
        assert(b.remove(b.len() - 1).to_multiset() =~= b.to_multiset().remove(x));
        order_does_not_matter(a.remove(j), b.drop_last());
    }
}

/// The sum of a quantity over those of the first `k` accounts that stand under
/// another one, or at the top.
pub open spec fn sum_under(
    t: Seq<TreeNode>,
    parent: Option<Seq<char>>,
    f: spec_fn(int) -> int,
    k: nat,
) -> int
    decreases k,
{
    if k == 0 {
        0
    } else {
        sum_under(t, parent, f, (k - 1) as nat) + if report_tree::parent_of(t, k - 1) == parent {
            f(k - 1)
        } else {
            0
        }
    }
}

proof fn sum_of_positions(
    t: Seq<TreeNode>,
    parent: Option<Seq<char>>,
    f: spec_fn(int) -> int,
    k: nat,
)
    requires
        k <= t.len() <= usize::MAX,
    ensures
        money::total(
            lists::positions(k, |i: int| report_tree::parent_of(t, i) == parent).map_values(
                |i: usize| f(i as int),
            ),
        ) == sum_under(t, parent, f, k),
    decreases k,
{
    let p = |i: int| report_tree::parent_of(t, i) == parent;
    let g = |i: usize| f(i as int);
    if k > 0 {
        sum_of_positions(t, parent, f, (k - 1) as nat);
        let before = lists::positions((k - 1) as nat, p);
        if p(k - 1) {
            let now = before.push((k - 1) as usize).map_values(g);
            assert(now.drop_last() =~= before.map_values(g));
            assert(now.last() == f(k - 1));
        }
    } else {
        assert(lists::positions(0, p).map_values(g) =~= Seq::<int>::empty());
    }
}

/// Summing over the shown order of accounts is summing over the accounts.
proof fn sum_of_kids(t: Seq<TreeNode>, parent: Option<Seq<char>>, f: spec_fn(int) -> int)
    requires
        t.len() <= usize::MAX,
    ensures
        money::total(report_tree::kids_of(t, parent).map_values(|i: usize| f(i as int)))
            == sum_under(t, parent, f, t.len()),
{
    let p = |i: int| report_tree::parent_of(t, i) == parent;
    let g = |i: usize| f(i as int);
    let at = lists::positions(t.len(), p);
    lists::positions_are_exact(t.len(), p);
    let v = at.map_values(|i: usize| SortValue::Words(t[i as int].number));
    lists::stable_order_exists(v, false);
    let order = lists::order_of(v, false);
    lists::stable_order_is_permutation(v, false, order);
    let a = at.map_values(g);
    lists::permuted_multiset(a, order);
    assert(order.map_values(|k: usize| a[k as int]) =~= report_tree::kids_of(
        t,
        parent,
    ).map_values(g));
    order_does_not_matter(a, report_tree::kids_of(t, parent).map_values(g));
    sum_of_positions(t, parent, f, t.len());
}

proof fn kids_are_accounts(t: Seq<TreeNode>, parent: Option<Seq<char>>)
    requires
        t.len() <= usize::MAX,
    ensures
        forall|k: int|
            0 <= k < report_tree::kids_of(t, parent).len() ==> (#[trigger] report_tree::kids_of(
                t,
                parent,
            )[k]) < t.len() && report_tree::parent_of(
                t,
                report_tree::kids_of(t, parent)[k] as int,
            ) == parent,
{
    let p = |i: int| report_tree::parent_of(t, i) == parent;
    let at = lists::positions(t.len(), p);
    lists::positions_are_exact(t.len(), p);
    let v = at.map_values(|i: usize| SortValue::Words(t[i as int].number));
    lists::stable_order_exists(v, false);
    let order = lists::order_of(v, false);
    let kids = report_tree::kids_of(t, parent);
    assert forall|k: int| 0 <= k < kids.len() implies (#[trigger] kids[k]) < t.len()
        && report_tree::parent_of(t, kids[k] as int) == parent by {
        assert(kids[k] == at[order[k] as int]);
        assert(p(at[order[k] as int] as int));
    }
}

// ---- depths ----

/// How deep a row stands.
pub open spec fn depth_of_row(r: TreeRow) -> nat {
    match r {
        TreeRow::Account { depth, .. } => depth,
        TreeRow::Header { depth, .. } => depth,
        TreeRow::Subtotal { depth, .. } => depth,
    }
}

spec fn depths_between(rows: Seq<TreeRow>, low: nat, limit: Option<usize>) -> bool {
    forall|i: int|
        0 <= i < rows.len() ==> low <= depth_of_row(#[trigger] rows[i]) && (limit is Some
            ==> depth_of_row(rows[i]) <= limit->0)
}

proof fn rows_keep_depth(
    t: Seq<TreeNode>,
    parent: Option<Seq<char>>,
    depth: nat,
    limit: Option<usize>,
    ancestors: Seq<bool>,
    k: nat,
    n: nat,
)
    requires
        limit is Some ==> depth <= limit->0,
    ensures
        depths_between(
            report_tree::rows_under(t, parent, depth, limit, ancestors, k, n),
            depth,
            limit,
        ),
    decreases n, k,
{
    if k > 0 && n > 0 {
        rows_keep_depth(t, parent, depth, limit, ancestors, (k - 1) as nat, n);
        let kids = report_tree::kids_of(t, parent);
        let id = t[kids[k - 1] as int].id;
        if report_tree::within_limit(depth, limit) {
            rows_keep_depth(
                t,
                Some(id),
                depth + 1,
                limit,
                ancestors.push(k == kids.len()),
                report_tree::kids_of(t, Some(id)).len(),
                (n - 1) as nat,
            );
        }
    }
}

/// No row stands deeper than the chosen depth.
pub proof fn rows_stay_within_the_depth(t: Seq<TreeNode>, limit: usize, i: int)
    requires
        0 <= i < report_tree::report_rows(t, Some(limit)).len(),
    ensures
        depth_of_row(report_tree::report_rows(t, Some(limit))[i]) <= limit,
{
    rows_keep_depth(
        t,
        None,
        0,
        Some(limit),
        Seq::empty(),
        report_tree::kids_of(t, None).len(),
        t.len(),
    );
}

// ---- amounts ----

/// The amounts of the accounts and subtotals at the top.
pub open spec fn top_amounts(rows: Seq<TreeRow>) -> int
    decreases rows.len(),
{
    if rows.len() == 0 {
        0
    } else {
        top_amounts(rows.drop_last()) + top_amount(rows.last())
    }
}

/// What a row adds to the amounts at the top.
pub open spec fn top_amount(r: TreeRow) -> int {
    match r {
        TreeRow::Account { balance, depth, .. } => if depth == 0 {
            balance
        } else {
            0
        },
        TreeRow::Header { .. } => 0,
        TreeRow::Subtotal { amount, depth, .. } => if depth == 0 {
            amount
        } else {
            0
        },
    }
}

proof fn top_amounts_add(a: Seq<TreeRow>, b: Seq<TreeRow>)
    ensures
        top_amounts(a + b) == top_amounts(a) + top_amounts(b),
    decreases b.len(),
{
    if b.len() == 0 {
        assert(a + b =~= a);
    } else {
        top_amounts_add(a, b.drop_last());
        assert((a + b).drop_last() =~= a + b.drop_last());
        assert((a + b).last() == b.last());
    }
}

proof fn no_top_amounts(rows: Seq<TreeRow>, limit: Option<usize>)
    requires
        depths_between(rows, 1, limit),
    ensures
        top_amounts(rows) == 0,
    decreases rows.len(),
{
    if rows.len() > 0 {
        let front = rows.drop_last();
        assert(depths_between(front, 1, limit)) by {
            assert forall|i: int| 0 <= i < front.len() implies 1 <= depth_of_row(
                #[trigger] front[i],
            ) && (limit is Some ==> depth_of_row(front[i]) <= limit->0) by {
                assert(front[i] == rows[i]);
            }
        }
        no_top_amounts(front, limit);
        assert(depth_of_row(rows[rows.len() - 1]) >= 1);
    }
}

proof fn one_top_amount(r: TreeRow)
    ensures
        top_amounts(seq![r]) == top_amount(r),
{
    assert(seq![r].drop_last() =~= Seq::<TreeRow>::empty());
    assert(top_amounts(seq![r].drop_last()) == 0);
}

spec fn shown_total(t: Seq<TreeNode>, i: int) -> int {
    money::wrap64(report_tree::total_of(t, t[i].id))
}

proof fn amounts_of_the_first(
    t: Seq<TreeNode>,
    limit: Option<usize>,
    ancestors: Seq<bool>,
    k: nat,
    n: nat,
)
    requires
        n > 0,
        k <= report_tree::kids_of(t, None).len(),
    ensures
        top_amounts(report_tree::rows_under(t, None, 0, limit, ancestors, k, n)) == money::total(
            report_tree::kids_of(t, None).take(k as int).map_values(
                |i: usize| shown_total(t, i as int),
            ),
        ),
    decreases k,
{
    let kids = report_tree::kids_of(t, None);
    let g = |i: usize| shown_total(t, i as int);
    if k == 0 {
        assert(kids.take(0).map_values(g) =~= Seq::<int>::empty());
    } else {
        amounts_of_the_first(t, limit, ancestors, (k - 1) as nat, n);
        let now = kids.take(k as int).map_values(g);
        assert(now.drop_last() =~= kids.take(k - 1).map_values(g));
        let node = t[kids[k - 1] as int];
        assert(now.last() == shown_total(t, kids[k - 1] as int));
        let before = report_tree::rows_under(t, None, 0, limit, ancestors, (k - 1) as nat, n);
        let is_last = k == kids.len();
        let below = report_tree::kids_of(t, Some(node.id)).len();
        let amount = money::wrap64(report_tree::total_of(t, node.id));
        if below > 0 && report_tree::within_limit(0, limit) {
            let head = TreeRow::Header { name: node.name, depth: 0, is_last, ancestors };
            let foot = TreeRow::Subtotal { name: node.name, amount, depth: 0 };
            let inner = report_tree::rows_under(
                t,
                Some(node.id),
                1,
                limit,
                ancestors.push(is_last),
                below,
                (n - 1) as nat,
            );
            rows_keep_depth(
                t,
                Some(node.id),
                1,
                limit,
                ancestors.push(is_last),
                below,
                (n - 1) as nat,
            );
            no_top_amounts(inner, limit);
            one_top_amount(head);
            one_top_amount(foot);
            top_amounts_add(seq![head], inner);
            top_amounts_add(seq![head] + inner, seq![foot]);
            top_amounts_add(before, seq![head] + inner + seq![foot]);
        } else {
            let row = TreeRow::Account {
                name: node.name,
                balance: amount,
                depth: 0,
                is_last,
                ancestors,
            };
            one_top_amount(row);
            top_amounts_add(before, seq![row]);
        }
    }
}

proof fn sums_wrap(t: Seq<TreeNode>, k: nat)
    requires
        k <= t.len(),
    ensures
        money::wrap64(sum_under(t, None, |i: int| shown_total(t, i), k)) == money::wrap64(
            report_tree::totals_where(t, true, k),
        ),
        (forall|i: int|
            0 <= i < k && #[trigger] report_tree::parent_of(t, i) is None ==> i64::MIN
                <= report_tree::total_of(t, t[i].id) <= i64::MAX) ==> sum_under(
            t,
            None,
            |i: int| shown_total(t, i),
            k,
        ) == report_tree::totals_where(t, true, k),
    decreases k,
{
    if k > 0 {
        sums_wrap(t, (k - 1) as nat);
        let a = sum_under(t, None, |i: int| shown_total(t, i), (k - 1) as nat);
        let b = report_tree::totals_where(t, true, (k - 1) as nat);
        let x = report_tree::total_of(t, t[k - 1].id);
        if report_tree::parent_of(t, k - 1) is None {
            money::wrapping_is_uniform(x, a);
            money::wrapping_is_uniform(a, x);
            money::wrapping_is_uniform(b, x);
        }
    }
}

/// Whatever depth is chosen, the amounts of the rows at the top add up to the
/// balances of all accounts: nothing is lost or counted twice. Amounts are
/// reduced to 64 bits; as long as the totals fit, the sum is exact.
pub proof fn amounts_at_the_top_add_up(t: Seq<TreeNode>, limit: Option<usize>)
    requires
        report_tree::acyclic(t),
        report_tree::distinct_ids(t),
        t.len() <= usize::MAX,
    ensures
        money::wrap64(top_amounts(report_tree::report_rows(t, limit))) == money::wrap64(
            report_tree::all_balances(t, t.len()),
        ),
        (forall|i: int|
            0 <= i < t.len() && #[trigger] report_tree::parent_of(t, i) is None ==> i64::MIN
                <= report_tree::total_of(t, t[i].id) <= i64::MAX) ==> top_amounts(
            report_tree::report_rows(t, limit),
        ) == report_tree::all_balances(t, t.len()),
{
    let kids = report_tree::kids_of(t, None);
    let f = |i: int| shown_total(t, i);
    report_tree::totals_at_the_top_add_up(t);
    sums_wrap(t, t.len());
    sum_of_kids(t, None, f);
    if t.len() > 0 {
        amounts_of_the_first(t, limit, Seq::empty(), kids.len(), t.len());
        assert(kids.take(kids.len() as int) =~= kids);
        assert(kids.map_values(|i: usize| f(i as int)) =~= kids.map_values(
            |i: usize| shown_total(t, i as int),
        ));
    }
}

// ---- counts ----

/// How many rows start an account that others are shown under.
pub open spec fn header_count(rows: Seq<TreeRow>) -> nat
    decreases rows.len(),
{
    if rows.len() == 0 {
        0
    } else {
        header_count(rows.drop_last()) + if rows.last() is Header {
            1nat
        } else {
            0nat
        }
    }
}

/// How many rows hold a subtotal.
pub open spec fn subtotal_count(rows: Seq<TreeRow>) -> nat
    decreases rows.len(),
{
    if rows.len() == 0 {
        0
    } else {
        subtotal_count(rows.drop_last()) + if rows.last() is Subtotal {
            1nat
        } else {
            0nat
        }
    }
}

/// How many rows hold an account without others under it.
pub open spec fn account_count(rows: Seq<TreeRow>) -> nat
    decreases rows.len(),
{
    if rows.len() == 0 {
        0
    } else {
        account_count(rows.drop_last()) + if rows.last() is Account {
            1nat
        } else {
            0nat
        }
    }
}

proof fn counts_add(a: Seq<TreeRow>, b: Seq<TreeRow>)
    ensures
        header_count(a + b) == header_count(a) + header_count(b),
        subtotal_count(a + b) == subtotal_count(a) + subtotal_count(b),
        account_count(a + b) == account_count(a) + account_count(b),
    decreases b.len(),
{
    if b.len() == 0 {
        assert(a + b =~= a);
    } else {
        counts_add(a, b.drop_last());
        assert((a + b).drop_last() =~= a + b.drop_last());
        assert((a + b).last() == b.last());
    }
}

proof fn one_count(r: TreeRow)
    ensures
        header_count(seq![r]) == if r is Header { 1nat } else { 0nat },
        subtotal_count(seq![r]) == if r is Subtotal { 1nat } else { 0nat },
        account_count(seq![r]) == if r is Account { 1nat } else { 0nat },
{
    let front = seq![r].drop_last();
    assert(front =~= Seq::<TreeRow>::empty());
    assert(header_count(front) == 0 && subtotal_count(front) == 0 && account_count(front) == 0);
}

proof fn headers_match(
    t: Seq<TreeNode>,
    parent: Option<Seq<char>>,
    depth: nat,
    limit: Option<usize>,
    ancestors: Seq<bool>,
    k: nat,
    n: nat,
)
    ensures
        header_count(report_tree::rows_under(t, parent, depth, limit, ancestors, k, n))
            == subtotal_count(report_tree::rows_under(t, parent, depth, limit, ancestors, k, n)),
    decreases n, k,
{
    if k > 0 && n > 0 {
        headers_match(t, parent, depth, limit, ancestors, (k - 1) as nat, n);
        let kids = report_tree::kids_of(t, parent);
        let node = t[kids[k - 1] as int];
        let is_last = k == kids.len();
        let before = report_tree::rows_under(t, parent, depth, limit, ancestors, (k - 1) as nat, n);
        let below = report_tree::kids_of(t, Some(node.id)).len();
        let amount = money::wrap64(report_tree::total_of(t, node.id));
        if below > 0 && report_tree::within_limit(depth, limit) {
            let head = TreeRow::Header { name: node.name, depth, is_last, ancestors };
            let foot = TreeRow::Subtotal { name: node.name, amount, depth };
            let marks = ancestors.push(is_last);
            let inner = report_tree::rows_under(
                t,
                Some(node.id),
                depth + 1,
                limit,
                marks,
                below,
                (n - 1) as nat,
            );
            headers_match(t, Some(node.id), depth + 1, limit, marks, below, (n - 1) as nat);
            one_count(head);
            one_count(foot);
            counts_add(seq![head], inner);
            counts_add(seq![head] + inner, seq![foot]);
            counts_add(before, seq![head] + inner + seq![foot]);
        } else {
            let row = TreeRow::Account {
                name: node.name,
                balance: amount,
                depth,
                is_last,
                ancestors,
            };
            one_count(row);
            counts_add(before, seq![row]);
        }
    }
}

/// Every account that others are shown under has one header and one subtotal.
pub proof fn headers_have_subtotals(t: Seq<TreeNode>, limit: Option<usize>)
    ensures
        header_count(report_tree::report_rows(t, limit)) == subtotal_count(
            report_tree::report_rows(t, limit),
        ),
{
    headers_match(
        t,
        None,
        0,
        limit,
        Seq::empty(),
        report_tree::kids_of(t, None).len(),
        t.len(),
    );
}

/// The same accounts, each with a balance of one.
spec fn ones(t: Seq<TreeNode>) -> Seq<TreeNode> {
    t.map_values(|n: TreeNode| TreeNode { balance: 1, ..n })
}

proof fn ones_are_alike(t: Seq<TreeNode>)
    ensures
        ones(t).len() == t.len(),
        forall|id: Seq<char>| #[trigger]
            report_tree::listed(ones(t), id) == report_tree::listed(t, id),
        forall|i: int|
            0 <= i < t.len() ==> #[trigger] report_tree::parent_of(ones(t), i)
                == report_tree::parent_of(t, i),
        report_tree::distinct_ids(t) ==> report_tree::distinct_ids(ones(t)),
{
    let u = ones(t);
    assert forall|id: Seq<char>| #[trigger] report_tree::listed(u, id) == report_tree::listed(
        t,
        id,
    ) by {
        if report_tree::listed(t, id) {
            let i = choose|i: int| 0 <= i < t.len() && (#[trigger] t[i]).id == id;
            assert(u[i].id == id);
        }
        if report_tree::listed(u, id) {
            let i = choose|i: int| 0 <= i < u.len() && (#[trigger] u[i]).id == id;
            assert(t[i].id == id);
        }
    }
    if report_tree::distinct_ids(t) {
        assert forall|i: int, j: int| 0 <= i < j < u.len() implies (#[trigger] u[i]).id
            != (#[trigger] u[j]).id by {
            assert(t[i].id != t[j].id);
        }
    }
}

proof fn ones_have_heights(t: Seq<TreeNode>, id: Seq<char>, n: nat)
    requires
        report_tree::height_within(t, id, n),
    ensures
        report_tree::height_within(ones(t), id, n),
    decreases n,
{
    let u = ones(t);
    ones_are_alike(t);
    assert forall|i: int|
        0 <= i < u.len() && #[trigger] report_tree::parent_of(u, i) == Some(
            id,
        ) implies report_tree::height_within(u, u[i].id, (n - 1) as nat) by {
        assert(report_tree::parent_of(t, i) == Some(id));
        ones_have_heights(t, t[i].id, (n - 1) as nat);
    }
}

spec fn family(t: Seq<TreeNode>, i: int) -> int {
    report_tree::total_of(ones(t), ones(t)[i].id)
}

proof fn family_of_children(t: Seq<TreeNode>, id: Seq<char>, k: nat)
    requires
        k <= t.len(),
    ensures
        report_tree::children_total(ones(t), id, k) == sum_under(
            t,
            Some(id),
            |i: int| family(t, i),
            k,
        ),
    decreases k,
{
    ones_are_alike(t);
    if k > 0 {
        family_of_children(t, id, (k - 1) as nat);
        assert(report_tree::parent_of(ones(t), k - 1) == report_tree::parent_of(t, k - 1));
    }
}

/// The rows of the first accounts under another one, when nothing is
/// collapsed, show those accounts and all accounts under them.
proof fn families_are_shown(
    t: Seq<TreeNode>,
    parent: Option<Seq<char>>,
    depth: nat,
    ancestors: Seq<bool>,
    k: nat,
    n: nat,
)
    requires
        report_tree::acyclic(ones(t)),
        report_tree::distinct_ids(t),
        t.len() <= usize::MAX,
        k <= report_tree::kids_of(t, parent).len(),
        forall|j: int|
            0 <= j < report_tree::kids_of(t, parent).len() ==> report_tree::height_within(
                t,
                t[#[trigger] report_tree::kids_of(t, parent)[j] as int].id,
                n,
            ),
        n > 0,
    ensures
        ({
            let rows = report_tree::rows_under(t, parent, depth, None, ancestors, k, n);
            account_count(rows) + header_count(rows) == money::total(
                report_tree::kids_of(t, parent).take(k as int).map_values(
                    |i: usize| family(t, i as int),
                ),
            )
        }),
    decreases n, k,
{
    let kids = report_tree::kids_of(t, parent);
    let g = |i: usize| family(t, i as int);
    if k == 0 {
        assert(kids.take(0).map_values(g) =~= Seq::<int>::empty());
    } else {
        families_are_shown(t, parent, depth, ancestors, (k - 1) as nat, n);
        let now = kids.take(k as int).map_values(g);
        assert(now.drop_last() =~= kids.take(k - 1).map_values(g));
        kids_are_accounts(t, parent);
        let at = kids[k - 1] as int;
        let node = t[at];
        assert(now.last() == family(t, at));
        family_is_one_and_children(t, at);
        let before = report_tree::rows_under(t, parent, depth, None, ancestors, (k - 1) as nat, n);
        let is_last = k == kids.len();
        let inner_kids = report_tree::kids_of(t, Some(node.id));
        let below = inner_kids.len();
        let amount = money::wrap64(report_tree::total_of(t, node.id));
        let h = |i: int| family(t, i);
        sum_of_kids(t, Some(node.id), h);
        assert(inner_kids.map_values(|i: usize| h(i as int)) =~= inner_kids.map_values(g));
        if below > 0 {
            kids_are_accounts(t, Some(node.id));
            assert(report_tree::height_within(t, node.id, n));
            assert forall|j: int| 0 <= j < below implies report_tree::height_within(
                t,
                t[#[trigger] inner_kids[j] as int].id,
                (n - 1) as nat,
            ) by {
                assert(report_tree::parent_of(t, inner_kids[j] as int) == Some(node.id));
            }
            assert(report_tree::height_within(t, t[inner_kids[0] as int].id, (n - 1) as nat));
            let head = TreeRow::Header { name: node.name, depth, is_last, ancestors };
            let foot = TreeRow::Subtotal { name: node.name, amount, depth };
            let marks = ancestors.push(is_last);
            let inner = report_tree::rows_under(
                t,
                Some(node.id),
                depth + 1,
                None,
                marks,
                below,
                (n - 1) as nat,
            );
            families_are_shown(t, Some(node.id), depth + 1, marks, below, (n - 1) as nat);
            assert(inner_kids.take(below as int) =~= inner_kids);
            one_count(head);
            one_count(foot);
            counts_add(seq![head], inner);
            counts_add(seq![head] + inner, seq![foot]);
            counts_add(before, seq![head] + inner + seq![foot]);
        } else {
            assert(inner_kids.map_values(g) =~= Seq::<int>::empty());
            let row = TreeRow::Account {
                name: node.name,
                balance: amount,
                depth,
                is_last,
                ancestors,
            };
            one_count(row);
            counts_add(before, seq![row]);
        }
    }
}

proof fn family_is_one_and_children(t: Seq<TreeNode>, i: int)
    requires
        report_tree::acyclic(ones(t)),
        report_tree::distinct_ids(t),
        t.len() <= usize::MAX,
        0 <= i < t.len(),
    ensures
        family(t, i) == 1 + sum_under(t, Some(t[i].id), |j: int| family(t, j), t.len()),
{
    let u = ones(t);
    ones_are_alike(t);
    let id = u[i].id;
    assert(report_tree::listed(u, id));
    report_tree::subtotal_adds_children(u, id);
    family_of_children(t, id, t.len());
    let p = |j: int| u[j].id == id;
    lists::first_position_is_first(u.len(), p);
    assert(p(i));
}

proof fn balances_of_ones(t: Seq<TreeNode>, k: nat)
    requires
        k <= t.len(),
    ensures
        report_tree::all_balances(ones(t), k) == k,
        sum_under(t, None, |i: int| family(t, i), k) == report_tree::totals_where(
            ones(t),
            true,
            k,
        ),
    decreases k,
{
    ones_are_alike(t);
    if k > 0 {
        balances_of_ones(t, (k - 1) as nat);
        assert(report_tree::parent_of(ones(t), k - 1) == report_tree::parent_of(t, k - 1));
    }
}

/// When nothing is collapsed, every account is shown once: as a row of its own
/// or as the header of those under it.
pub proof fn every_account_is_shown(t: Seq<TreeNode>)
    requires
        report_tree::acyclic(t),
        report_tree::distinct_ids(t),
        t.len() <= usize::MAX,
    ensures
        account_count(report_tree::report_rows(t, None)) + header_count(
            report_tree::report_rows(t, None),
        ) == t.len(),
{
    let u = ones(t);
    ones_are_alike(t);
    assert(report_tree::acyclic(u)) by {
        assert forall|i: int| 0 <= i < u.len() implies report_tree::height_within(
            u,
            (#[trigger] u[i]).id,
            u.len(),
        ) by {
            assert(report_tree::height_within(t, t[i].id, t.len()));
            ones_have_heights(t, t[i].id, t.len());
        }
    }
    let kids = report_tree::kids_of(t, None);
    if t.len() > 0 {
        kids_are_accounts(t, None);
        assert forall|j: int| 0 <= j < kids.len() implies report_tree::height_within(
            t,
            t[#[trigger] kids[j] as int].id,
            t.len(),
        ) by {
            assert(kids[j] < t.len());
        }
        families_are_shown(t, None, 0, Seq::empty(), kids.len(), t.len());
        assert(kids.take(kids.len() as int) =~= kids);
        let f = |i: int| family(t, i);
        sum_of_kids(t, None, f);
        assert(kids.map_values(|i: usize| f(i as int)) =~= kids.map_values(
            |i: usize| family(t, i as int),
        ));
        report_tree::totals_at_the_top_add_up(u);
        balances_of_ones(t, t.len());
    }
}

// ---- depths beyond the deepest ----

spec fn stands_at(t: Seq<TreeNode>, parent: Option<Seq<char>>, depth: nat) -> bool {
    match parent {
        None => depth == 0,
        Some(id) => depth > 0 && forall|m: nat|
            m + 1 >= depth ==> #[trigger] report_tree::depth_of(t, id, m) + 1 >= depth,
    }
}

proof fn only_position_is_last(n: nat, p: spec_fn(int) -> bool, i: int)
    requires
        0 <= i < n,
        p(i),
        forall|j: int| 0 <= j < n && #[trigger] p(j) ==> j == i,
    ensures
        report_tree::last_position(n, p) == Some(i),
    decreases n,
{
    if i < n - 1 {
        assert(!p(n - 1));
        only_position_is_last((n - 1) as nat, p, i);
    }
}

proof fn kid_stands_at(t: Seq<TreeNode>, parent: Option<Seq<char>>, depth: nat, i: int)
    requires
        report_tree::distinct_ids(t),
        t.len() <= usize::MAX,
        stands_at(t, parent, depth),
        0 <= i < t.len(),
        report_tree::parent_of(t, i) == parent,
    ensures
        stands_at(t, Some(t[i].id), depth + 1),
{
    let id = t[i].id;
    let p = |j: int| t[j].id == id;
    assert forall|j: int| 0 <= j < t.len() && #[trigger] p(j) implies j == i by {
        assert(t[j].id == t[i].id);
    }
    only_position_is_last(t.len(), p, i);
    assert forall|m: nat| m + 1 >= depth + 1 implies #[trigger] report_tree::depth_of(t, id, m) + 1
        >= depth + 1 by {
        if depth > 0 {
            assert(report_tree::parent_of_id(t, id) == parent);
            assert(report_tree::depth_of(t, parent->0, (m - 1) as nat) + 1 >= depth);
        }
    }
}

proof fn deepest_is_deepest(t: Seq<TreeNode>, k: nat, i: int)
    requires
        0 <= i < k <= t.len(),
    ensures
        report_tree::depth_of(t, t[i].id, t.len()) <= report_tree::deepest(t, k),
    decreases k,
{
    if i < k - 1 {
        deepest_is_deepest(t, (k - 1) as nat, i);
    }
}

proof fn nothing_collapses(
    t: Seq<TreeNode>,
    parent: Option<Seq<char>>,
    depth: nat,
    limit: usize,
    ancestors: Seq<bool>,
    k: nat,
    n: nat,
)
    requires
        report_tree::distinct_ids(t),
        t.len() <= usize::MAX,
        stands_at(t, parent, depth),
        report_tree::deepest(t, t.len()) <= limit,
        n + depth == t.len(),
        k <= report_tree::kids_of(t, parent).len(),
    ensures
        report_tree::rows_under(t, parent, depth, Some(limit), ancestors, k, n)
            == report_tree::rows_under(t, parent, depth, None, ancestors, k, n),
    decreases n, k,
{
    if k > 0 && n > 0 {
        nothing_collapses(t, parent, depth, limit, ancestors, (k - 1) as nat, n);
        kids_are_accounts(t, parent);
        let kids = report_tree::kids_of(t, parent);
        let at = kids[k - 1] as int;
        let id = t[at].id;
        kid_stands_at(t, parent, depth, at);
        let inner = report_tree::kids_of(t, Some(id));
        if inner.len() > 0 {
            kids_are_accounts(t, Some(id));
            let j = inner[0] as int;
            kid_stands_at(t, Some(id), depth + 1, j);
            assert(report_tree::depth_of(t, t[j].id, t.len()) + 1 >= depth + 2);
            deepest_is_deepest(t, t.len(), j);
            assert(report_tree::within_limit(depth, Some(limit)));
            nothing_collapses(
                t,
                Some(id),
                depth + 1,
                limit,
                ancestors.push(k == kids.len()),
                inner.len(),
                (n - 1) as nat,
            );
        }
    }
}

/// A depth that no account exceeds collapses nothing.
pub proof fn deep_enough_shows_all(t: Seq<TreeNode>, limit: usize)
    requires
        report_tree::distinct_ids(t),
        t.len() <= usize::MAX,
        report_tree::deepest(t, t.len()) <= limit,
    ensures
        report_tree::report_rows(t, Some(limit)) == report_tree::report_rows(t, None),
{
    nothing_collapses(
        t,
        None,
        0,
        limit,
        Seq::empty(),
        report_tree::kids_of(t, None).len(),
        t.len(),
    );
}

} // verus!
