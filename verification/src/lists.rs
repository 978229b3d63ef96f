//! Filtering and stable sorting by position.

use vstd::prelude::*;

use crate::date::Date;
use crate::text;

verus! {

/// The positions below `n` that satisfy `p`, in increasing order.
pub open spec fn positions(n: nat, p: spec_fn(int) -> bool) -> Seq<usize>
    decreases n,
{
    if n == 0 {
        Seq::empty()
    } else {
        let before = positions((n - 1) as nat, p);
        if p(n - 1) {
            before.push((n - 1) as usize)
        } else {
            before
        }
    }
}

/// Every position listed satisfies the condition, every one that satisfies it
/// is listed, and they increase.
pub proof fn positions_are_exact(n: nat, p: spec_fn(int) -> bool)
    requires
        n <= usize::MAX,
    ensures
        positions(n, p).len() <= n,
        forall|k: int|
            0 <= k < positions(n, p).len() ==> (#[trigger] positions(n, p)[k]) < n && p(
                positions(n, p)[k] as int,
            ),
        forall|i: int| 0 <= i < n && #[trigger] p(i) ==> positions(n, p).contains(i as usize),
        forall|j: int, k: int|
            0 <= j < k < positions(n, p).len() ==> positions(n, p)[j] < positions(n, p)[k],
    decreases n,
{
    if n > 0 {
        let before = positions((n - 1) as nat, p);
        positions_are_exact((n - 1) as nat, p);
        let all = positions(n, p);
        assert forall|i: int| 0 <= i < n && #[trigger] p(i) implies all.contains(i as usize) by {
            if i < n - 1 {
                assert(before.contains(i as usize));
                let k = choose|k: int| 0 <= k < before.len() && before[k] == i as usize;
                assert(all[k] == i as usize);
            } else {
                assert(all.last() == i as usize);
            }
        }
    }
}

/// Conditions that agree below `n` have the same positions there.
pub proof fn positions_agree(n: nat, p: spec_fn(int) -> bool, q: spec_fn(int) -> bool)
    requires
        forall|i: int| 0 <= i < n ==> #[trigger] p(i) == q(i),
    ensures
        positions(n, p) == positions(n, q),
    decreases n,
{
    if n > 0 {
        assert(p(n - 1) == q(n - 1));
        positions_agree((n - 1) as nat, p, q);
    }
}

/// The first position below `n` that satisfies `p`.
pub open spec fn first_position(n: nat, p: spec_fn(int) -> bool) -> Option<usize>
    decreases n,
{
    if n == 0 {
        None
    } else {
        match first_position((n - 1) as nat, p) {
            Some(i) => Some(i),
            None => if p(n - 1) {
                Some((n - 1) as usize)
            } else {
                None
            },
        }
    }
}

/// The first position satisfies the condition and none before it does; there
/// is none exactly if no position satisfies it.
pub proof fn first_position_is_first(n: nat, p: spec_fn(int) -> bool)
    requires
        n <= usize::MAX,
    ensures
        match first_position(n, p) {
            Some(i) => i < n && p(i as int) && forall|j: int| 0 <= j < i ==> !#[trigger] p(j),
            None => forall|j: int| 0 <= j < n ==> !#[trigger] p(j),
        },
    decreases n,
{
    if n > 0 {
        first_position_is_first((n - 1) as nat, p);
    }
}

/// What items are sorted by.
pub enum SortKey {
    Day(Date),
    Words(String),
    Amount(i64),
}

/// The meaning of a sort key.
pub ghost enum SortValue {
    Day(Date),
    Words(Seq<char>),
    Amount(int),
}

impl View for SortKey {
    type V = SortValue;

    open spec fn view(&self) -> SortValue {
        match self {
            SortKey::Day(d) => SortValue::Day(*d),
            SortKey::Words(s) => SortValue::Words(s@),
            SortKey::Amount(n) => SortValue::Amount(*n as int),
        }
    }
}

/// The order of sort values: days by the calendar, texts by code points,
/// amounts by size.
pub open spec fn value_less(a: SortValue, b: SortValue) -> bool {
    match (a, b) {
        (SortValue::Day(x), SortValue::Day(y)) => x.earlier(y),
        (SortValue::Words(x), SortValue::Words(y)) => text::text_less(x, y),
        (SortValue::Amount(x), SortValue::Amount(y)) => x < y,
        (SortValue::Day(_), _) => true,
        (SortValue::Words(_), SortValue::Amount(_)) => true,
        _ => false,
    }
}

fn key_less(a: &SortKey, b: &SortKey) -> (r: bool)
    ensures
        r == value_less(a@, b@),
{
    match a {
        SortKey::Day(x) => match b {
            SortKey::Day(y) => x.is_before(y),
            _ => true,
        },
        SortKey::Words(x) => match b {
            SortKey::Words(y) => text::is_before(x.as_str(), y.as_str()),
            SortKey::Amount(_) => true,
            SortKey::Day(_) => false,
        },
        SortKey::Amount(x) => match b {
            SortKey::Amount(y) => *x < *y,
            _ => false,
        },
    }
}

proof fn value_order(a: SortValue, b: SortValue, c: SortValue)
    ensures
        a != b ==> value_less(a, b) || value_less(b, a),
        !(value_less(a, b) && value_less(b, a)),
        value_less(a, b) && value_less(b, c) ==> value_less(a, c),
        !value_less(a, a),
{
    if let SortValue::Words(x) = a {
        if let SortValue::Words(y) = b {
            text::text_order_total(x, y);
            if let SortValue::Words(z) = c {
                if text::text_less(x, y) && text::text_less(y, z) {
                    text::text_order_transitive(x, y, z);
                }
            }
        }
        text::text_order_total(x, x);
    }
}

/// The order of the values, or the opposite order.
pub open spec fn directed_less(a: SortValue, b: SortValue, descending: bool) -> bool {
    if descending {
        value_less(b, a)
    } else {
        value_less(a, b)
    }
}

fn directed_key_less(a: &SortKey, b: &SortKey, descending: bool) -> (r: bool)
    ensures
        r == directed_less(a@, b@, descending),
{
    if descending {
        key_less(b, a)
    } else {
        key_less(a, b)
    }
}

/// Whether position `i` comes before position `j` in a stable sort of the
/// values: by value, and among equal values by position.
pub open spec fn sorts_before(v: Seq<SortValue>, descending: bool, i: int, j: int) -> bool {
    directed_less(v[i], v[j], descending) || (v[i] == v[j] && i < j)
}

/// Of two positions at most one comes before the other.
pub proof fn order_is_strict(v: Seq<SortValue>, descending: bool, i: int, j: int)
    ensures
        !(sorts_before(v, descending, i, j) && sorts_before(v, descending, j, i)),
        i != j ==> sorts_before(v, descending, i, j) || sorts_before(v, descending, j, i),
{
    value_order(v[i], v[j], v[i]);
}

/// Whether `order` lists every position of `v` once, in stable sorted order.
pub open spec fn is_stable_order(v: Seq<SortValue>, descending: bool, order: Seq<usize>) -> bool {
    &&& order.len() == v.len()
    &&& forall|k: int| 0 <= k < order.len() ==> (#[trigger] order[k]) < v.len()
    &&& forall|j: int, k: int|
        0 <= j < k < order.len() ==> sorts_before(v, descending, order[j] as int, order[k] as int)
}

/// The meanings of sort keys.
pub open spec fn sort_values(keys: Seq<SortKey>) -> Seq<SortValue> {
    keys.map_values(|k: SortKey| k@)
}

/// Sorts positions by their keys, equal ones in their given order.
pub fn stable_order(keys: &Vec<SortKey>, descending: bool) -> (order: Vec<usize>)
    ensures
        is_stable_order(sort_values(keys@), descending, order@),
        order@ == order_of(sort_values(keys@), descending),
{
    let mut order: Vec<usize> = Vec::new();
    let ghost v = sort_values(keys@);
    let mut i: usize = 0;
    while i < keys.len()
        invariant
            i <= keys@.len(),
            v == sort_values(keys@),
            order@.len() == i,
            forall|k: int| 0 <= k < order@.len() ==> (#[trigger] order@[k]) < i,
            forall|j: int, k: int|
                0 <= j < k < order@.len() ==> sorts_before(
                    v,
                    descending,
                    order@[j] as int,
                    order@[k] as int,
                ),
        decreases keys@.len() - i,
    {
        let mut at: usize = order.len();
        while at > 0 && directed_key_less(&keys[i], &keys[order[at - 1]], descending)
            invariant
                at <= order@.len(),
                i < keys@.len(),
                v == sort_values(keys@),
                order@.len() == i,
                forall|k: int| 0 <= k < order@.len() ==> (#[trigger] order@[k]) < i,
                forall|k: int|
                    at <= k < order@.len() ==> directed_less(
                        v[i as int],
                        v[#[trigger] order@[k] as int],
                        descending,
                    ),
            decreases at,
        {
            assert(keys@[order@[at - 1] as int]@ == v[order@[at - 1] as int]);
            at = at - 1;
        }
        let ghost before = order@;
        order.insert(at, i);
        proof {
            assert forall|j: int, k: int| 0 <= j < k < order@.len() implies sorts_before(
                v,
                descending,
                order@[j] as int,
                order@[k] as int,
            ) by {
                let vi = v[i as int];
                if k == at {
                    // Everything before the insertion point comes before the new item.
                    let last = before[at - 1] as int;
                    let x = before[j] as int;
                    assert(order@[j] == before[j]);
                    value_order(v[x], v[last], vi);
                    value_order(v[last], vi, v[x]);
                    value_order(vi, v[last], v[x]);
                    value_order(v[x], vi, v[last]);
                    value_order(vi, v[x], v[last]);
                    if j < at - 1 {
                        assert(sorts_before(v, descending, x, last));
                    }
                } else if j == at {
                    assert(order@[k] == before[k - 1]);
                } else {
                    let jj = if j < at { j } else { j - 1 };
                    let kk = if k < at { k } else { k - 1 };
                    assert(order@[j] == before[jj]);
                    assert(order@[k] == before[kk]);
                }
            }
        }
        i = i + 1;
    }
    proof {
        stable_order_is_unique(v, descending, order@, order_of(v, descending));
    }
    order
}

/// The stable sorted order of some values.
pub open spec fn order_of(v: Seq<SortValue>, descending: bool) -> Seq<usize> {
    choose|order: Seq<usize>| is_stable_order(v, descending, order)
}

/// There is only one stable sorted order.
pub proof fn stable_order_is_unique(
    v: Seq<SortValue>,
    descending: bool,
    a: Seq<usize>,
    b: Seq<usize>,
)
    requires
        is_stable_order(v, descending, a),
        is_stable_order(v, descending, b),
    ensures
        a == b,
{
    stable_order_is_permutation(v, descending, a);
    stable_order_is_permutation(v, descending, b);
    assert forall|k: int| 0 <= k < a.len() implies a[k] == b[k] by {
        same_up_to(v, descending, a, b, k + 1);
    }
    assert(a =~= b);
}

/// Every list of values has a stable sorted order.
pub proof fn stable_order_exists(v: Seq<SortValue>, descending: bool)
    requires
        v.len() <= usize::MAX,
    ensures
        is_stable_order(v, descending, order_of(v, descending)),
    decreases v.len(),
{
    if v.len() == 0 {
        assert(is_stable_order(v, descending, Seq::<usize>::empty()));
    } else {
        let init = v.drop_last();
        stable_order_exists(init, descending);
        let before = order_of(init, descending);
        let x = v.last();
        let n = (v.len() - 1) as usize;
        let at = insertion_point(init, descending, before, x, before.len());
        insertion_point_splits(init, descending, before, x, before.len());
        let made = before.insert(at as int, n);
        assert forall|j: int, k: int| 0 <= j < k < made.len() implies sorts_before(
            v,
            descending,
            made[j] as int,
            made[k] as int,
        ) by {
            if k == at {
                assert(made[j] == before[j]);
                let y = init[before[j] as int];
                value_order(y, x, y);
                assert(!directed_less(x, y, descending));
            } else if j == at {
                assert(made[k] == before[k - 1]);
                assert(directed_less(x, init[before[k - 1] as int], descending));
            } else {
                let jj = if j < at { j } else { j - 1 };
                let kk = if k < at { k } else { k - 1 };
                assert(made[j] == before[jj]);
                assert(made[k] == before[kk]);
                assert(sorts_before(init, descending, before[jj] as int, before[kk] as int));
            }
        }
        assert(is_stable_order(v, descending, made));
    }
}

/// After which of the first `n` positions of an order a value belongs: those
/// that it does not come before.
spec fn insertion_point(
    v: Seq<SortValue>,
    descending: bool,
    order: Seq<usize>,
    x: SortValue,
    n: nat,
) -> nat
    decreases n,
{
    if n > 0 && directed_less(x, v[order[n - 1] as int], descending) {
        insertion_point(v, descending, order, x, (n - 1) as nat)
    } else {
        n
    }
}

proof fn insertion_point_splits(
    v: Seq<SortValue>,
    descending: bool,
    order: Seq<usize>,
    x: SortValue,
    n: nat,
)
    requires
        is_stable_order(v, descending, order),
        n <= order.len(),
        forall|k: int|
            n <= k < order.len() ==> directed_less(x, v[#[trigger] order[k] as int], descending),
    ensures
        ({
            let at = insertion_point(v, descending, order, x, n);
            &&& at <= n
            &&& forall|k: int|
                at <= k < order.len() ==> directed_less(
                    x,
                    v[#[trigger] order[k] as int],
                    descending,
                )
            &&& forall|k: int|
                0 <= k < at ==> !directed_less(x, v[#[trigger] order[k] as int], descending)
        }),
    decreases n,
{
    if n > 0 {
        let y = v[order[n - 1] as int];
        if directed_less(x, y, descending) {
            insertion_point_splits(v, descending, order, x, (n - 1) as nat);
        } else {
            assert forall|k: int| 0 <= k < n implies !directed_less(
                x,
                v[#[trigger] order[k] as int],
                descending,
            ) by {
                let z = v[order[k] as int];
                if k < n - 1 {
                    assert(sorts_before(v, descending, order[k] as int, order[n - 1] as int));
                }
                value_order(x, z, y);
                value_order(z, y, x);
                value_order(y, z, x);
                value_order(z, x, y);
                value_order(y, x, z);
            }
        }
    }
}

/// Listing the items of a sequence in another order keeps them all.
pub proof fn permuted_multiset<A>(s: Seq<A>, order: Seq<usize>)
    requires
        s.len() <= usize::MAX,
        order.len() == s.len(),
        order.no_duplicates(),
        forall|k: int| 0 <= k < order.len() ==> (#[trigger] order[k]) < s.len(),
    ensures
        order.map_values(|k: usize| s[k as int]).to_multiset() == s.to_multiset(),
    decreases s.len(),
{
    let t = order.map_values(|k: usize| s[k as int]);
    if s.len() == 0 {
        assert(t =~= s);
    } else {
        pigeonhole(order, s.len());
        let last = (s.len() - 1) as usize;
        assert(order.contains(last));
        let p = choose|p: int| 0 <= p < order.len() && order[p] == last;
        let rest = order.remove(p);
        let init = s.drop_last();
        assert forall|k: int| 0 <= k < rest.len() implies (#[trigger] rest[k]) < init.len() by {
            let kk = if k < p { k } else { k + 1 };
            assert(rest[k] == order[kk]);
            assert(order[kk] != order[p]);
        }
        assert(rest.no_duplicates()) by {
            assert forall|j: int, k: int|
                0 <= j < rest.len() && 0 <= k < rest.len() && j != k implies rest[j]
                != rest[k] by {
                let jj = if j < p { j } else { j + 1 };
                let kk = if k < p { k } else { k + 1 };
                assert(rest[j] == order[jj]);
                assert(rest[k] == order[kk]);
            }
        }
        permuted_multiset(init, rest);
        let u = rest.map_values(|k: usize| init[k as int]);
        assert(t.remove(p) =~= u);
        broadcast use vstd::seq_lib::group_to_multiset_ensures;
        assert(t.remove(p).to_multiset() =~= t.to_multiset().remove(t[p]));
        assert(s =~= init.push(s.last()));
        assert(s.to_multiset() =~= init.to_multiset().insert(s.last()));
        assert(t.to_multiset().count(t[p]) > 0) by {
            assert(t.contains(t[p]));
        }
        assert(t[p] == s.last());
        assert(t.to_multiset() =~= u.to_multiset().insert(s.last()));
    }
}

proof fn same_up_to(
    v: Seq<SortValue>,
    descending: bool,
    a: Seq<usize>,
    b: Seq<usize>,
    n: int,
)
    requires
        is_stable_order(v, descending, a),
        is_stable_order(v, descending, b),
        a.no_duplicates(),
        b.no_duplicates(),
        forall|i: usize| i < v.len() ==> a.contains(i),
        forall|i: usize| i < v.len() ==> b.contains(i),
        0 <= n <= a.len(),
    ensures
        forall|k: int| 0 <= k < n ==> a[k] == b[k],
    decreases n,
{
    if n > 0 {
        same_up_to(v, descending, a, b, n - 1);
        let k = n - 1;
        if a[k] != b[k] {
            assert(b.contains(a[k]));
            let p = choose|p: int| 0 <= p < b.len() && b[p] == a[k];
            assert(a.contains(b[k]));
            let q = choose|q: int| 0 <= q < a.len() && a[q] == b[k];
            assert(p > k) by {
                if p < k {
                    assert(a[p] == b[p]);
                }
            }
            assert(q > k) by {
                if q < k {
                    assert(a[q] == b[q]);
                }
            }
            assert(sorts_before(v, descending, b[k] as int, b[p] as int));
            assert(sorts_before(v, descending, a[k] as int, a[q] as int));
            value_order(v[a[k] as int], v[b[k] as int], v[a[k] as int]);
        }
    }
}

/// A stable order lists every position, each once.
pub proof fn stable_order_is_permutation(v: Seq<SortValue>, descending: bool, order: Seq<usize>)
    requires
        is_stable_order(v, descending, order),
    ensures
        order.no_duplicates(),
        forall|i: usize| i < v.len() ==> order.contains(i),
{
    assert forall|j: int, k: int| 0 <= j < order.len() && 0 <= k < order.len() && j != k implies order[j]
        != order[k] by {
        let (a, b) = if j < k { (j, k) } else { (k, j) };
        assert(sorts_before(v, descending, order[a] as int, order[b] as int));
        value_order(v[order[a] as int], v[order[b] as int], v[order[a] as int]);
    }
    pigeonhole(order, v.len());
}

/// A list of `n` different numbers below `n` contains all of them.
pub proof fn pigeonhole(s: Seq<usize>, n: nat)
    requires
        s.len() == n,
        s.no_duplicates(),
        forall|k: int| 0 <= k < s.len() ==> (#[trigger] s[k]) < n,
    ensures
        forall|i: usize| i < n ==> s.contains(i),
{
    let t = s.map_values(|x: usize| x as int);
    let whole = vstd::set_lib::set_int_range(0, n as int);
    vstd::set_lib::lemma_int_range(0, n as int);
    assert(t.no_duplicates());
    t.unique_seq_to_set();
    assert(t.to_set().subset_of(whole));
    vstd::set_lib::lemma_subset_equality(t.to_set(), whole);
    assert forall|i: usize| i < n implies s.contains(i) by {
        assert(whole.contains(i as int));
        assert(t.to_set().contains(i as int));
        let k = choose|k: int| 0 <= k < t.len() && t[k] == i as int;
        assert(s[k] == i);
    }
}

// ---- sums ----

/// The sum of the values at the positions below `n`.
pub open spec fn sum_at(n: nat, value: spec_fn(int) -> int) -> int
    decreases n,
{
    if n == 0 {
        0
    } else {
        sum_at((n - 1) as nat, value) + value(n - 1)
    }
}

/// Equal values have equal sums.
pub proof fn sums_agree(n: nat, a: spec_fn(int) -> int, b: spec_fn(int) -> int)
    requires
        forall|i: int| 0 <= i < n ==> #[trigger] a(i) == b(i),
    ensures
        sum_at(n, a) == sum_at(n, b),
    decreases n,
{
    if n > 0 {
        sums_agree((n - 1) as nat, a, b);
        assert(a(n - 1) == b(n - 1));
    }
}

/// The sum without the value at position `x`, where `b` lists the other values
/// in order.
pub proof fn sum_without(n: nat, a: spec_fn(int) -> int, b: spec_fn(int) -> int, x: int)
    requires
        0 <= x < n,
        forall|i: int| 0 <= i < x ==> #[trigger] a(i) == b(i),
        forall|i: int| x <= i < n - 1 ==> #[trigger] b(i) == a(i + 1),
    ensures
        sum_at(n, a) == sum_at((n - 1) as nat, b) + a(x),
    decreases n,
{
    if x == n - 1 {
        sums_agree((n - 1) as nat, a, b);
    } else {
        sum_without((n - 1) as nat, a, b, x);
        assert(b(n - 2) == a(n - 1));
    }
}

} // verus!
