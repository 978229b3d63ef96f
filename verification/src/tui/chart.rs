//! Accounts that the program makes by itself, and the numbers of new accounts.

use vstd::prelude::*;

use crate::domain::{Account, AccountType};
use crate::input;
use crate::text;

verus! {

// ---- reading account numbers ----

/// The number that a text of digits writes.
pub open spec fn digits_number(s: Seq<char>) -> nat
    decreases s.len(),
{
    if s.len() == 0 {
        0
    } else {
        10 * digits_number(s.drop_last()) + input::digit_value(s.last())
    }
}

/// A text without its leading plus sign, if it has one.
pub open spec fn unsigned_part(s: Seq<char>) -> Seq<char> {
    if s.len() > 0 && s[0] == '+' {
        s.drop_first()
    } else {
        s
    }
}

/// Whether all characters are ASCII digits.
pub open spec fn only_digits(s: Seq<char>) -> bool {
    forall|i: int| 0 <= i < s.len() ==> input::is_digit(#[trigger] s[i])
}

/// The number that a text writes, if it is one below 2 to the 32.
pub open spec fn written_number(s: Seq<char>) -> Option<nat> {
    let t = unsigned_part(s);
    if t.len() > 0 && only_digits(t) && digits_number(t) <= u32::MAX {
        Some(digits_number(t))
    } else {
        None
    }
}

/// Reads the number that a text writes, if it is one below 2 to the 32.
pub fn read_number(s: &str) -> (r: Option<u32>)
    ensures
        match r {
            Some(n) => written_number(s@) == Some(n as nat),
            None => written_number(s@) is None,
        },
{
    let v = text::chars_of(s);
    let n: usize = v.len();
    let from: usize = if n > 0 && v[0] == '+' {
        1
    } else {
        0
    };
    let ghost t = unsigned_part(s@);
    assert(t =~= v@.skip(from as int));
    if from == n {
        return None;
    }
    let mut value: u64 = 0;
    let mut large: bool = false;
    let mut i: usize = from;
    while i < n
        invariant
            from <= i <= n,
            n == v@.len(),
            t == v@.skip(from as int),
            t == unsigned_part(s@),
            only_digits(t.take(i - from)),
            large ==> digits_number(t.take(i - from)) > u32::MAX,
            !large ==> value == digits_number(t.take(i - from)) && value <= u32::MAX,
        decreases n - i,
    {
        let c: char = v[i];
        assert(c == t[i - from]);
        if !input::ascii_digit(c) {
            assert(!only_digits(t));
            return None;
        }
        let d: u64 = input::value_of_digit(c);
        proof {
            let next = t.take(i - from + 1);
            assert(next.drop_last() =~= t.take(i - from));
            assert(next.last() == c);
            assert forall|k: int| 0 <= k < next.len() implies input::is_digit(
                #[trigger] next[k],
            ) by {
                if k < i - from {
                    assert(next[k] == t.take(i - from)[k]);
                }
            }
        }
        if !large {
            value = 10 * value + d;
            if value > 0xffff_ffff {
                large = true;
            }
        }
        i = i + 1;
    }
    assert(t.take(i - from) =~= t);
    if large {
        None
    } else {
        Some(value as u32)
    }
}

// ---- numbers for new accounts ----

/// The first number of a range that lies above all used ones of the range.
pub open spec fn next_number(used: Seq<Option<nat>>, from: nat, to: nat) -> nat
    decreases used.len(),
{
    if used.len() == 0 {
        from
    } else {
        let before = next_number(used.drop_last(), from, to);
        match used.last() {
            Some(k) => if from <= k <= to && k >= before {
                k + 1
            } else {
                before
            },
            None => before,
        }
    }
}

/// The next number is above every used number of the range, and at most one
/// beyond the range.
pub proof fn next_number_is_free(used: Seq<Option<nat>>, from: nat, to: nat)
    requires
        from <= to,
    ensures
        from <= next_number(used, from, to) <= to + 1,
        forall|i: int|
            0 <= i < used.len() && (#[trigger] used[i]) is Some && from <= used[i]->0 <= to
                ==> used[i]->0 < next_number(used, from, to),
    decreases used.len(),
{
    if used.len() > 0 {
        let front = used.drop_last();
        next_number_is_free(front, from, to);
        assert forall|i: int|
            0 <= i < used.len() && (#[trigger] used[i]) is Some && from <= used[i]->0 <= to
            implies used[i]->0 < next_number(used, from, to) by {
            if i < used.len() - 1 {
                assert(front[i] == used[i]);
            }
        }
    }
}

/// The numbers of accounts that begin with a character.
pub open spec fn numbers_beginning(accounts: Seq<Account>, first: char) -> Seq<Option<nat>> {
    accounts.map_values(
        |a: Account|
            if a.account_number@.len() > 0 && a.account_number@[0] == first {
                written_number(a.account_number@)
            } else {
                None
            },
    )
}

/// The numbers that a new account should not get: those of accounts that begin
/// with a character, and those that an account has written in the same way.
pub open spec fn numbers_taken(accounts: Seq<Account>, first: char) -> Seq<Option<nat>> {
    accounts.map_values(|a: Account| number_taken(a, first))
}

/// The number that an account keeps from new accounts, if it does.
pub open spec fn number_taken(a: Account, first: char) -> Option<nat> {
    match written_number(a.account_number@) {
        Some(k) => if a.account_number@[0] == first || a.account_number@ == text::decimal(k) {
            Some(k)
        } else {
            None
        },
        None => None,
    }
}

/// The numbers of accounts.
pub open spec fn all_numbers(accounts: Seq<Account>) -> Seq<Option<nat>> {
    accounts.map_values(|a: Account| written_number(a.account_number@))
}

/// The first character of a number; one if there is none.
pub open spec fn leading(number: Seq<char>) -> char {
    if number.len() > 0 {
        number[0]
    } else {
        '1'
    }
}

/// The start of the thousand that numbers beginning with a character belong to.
pub open spec fn thousand(first: char) -> nat {
    1000 * (if input::is_digit(first) {
        input::digit_value(first)
    } else {
        1
    })
}

/// Whether a number is in use.
pub open spec fn in_use(used: Seq<Option<nat>>, k: nat) -> bool {
    exists|i: int| 0 <= i < used.len() && #[trigger] used[i] == Some(k)
}

/// The first number of a range that is not in use.
pub open spec fn first_unused(used: Seq<Option<nat>>, from: nat, to: nat) -> Option<nat>
    decreases to + 1 - from,
{
    if from > to {
        None
    } else if !in_use(used, from) {
        Some(from)
    } else {
        first_unused(used, from + 1, to)
    }
}

/// The first number of a range, from a place in it on, that is not in use; at
/// the end of the range the search goes on at its start.
pub open spec fn next_unused(used: Seq<Option<nat>>, start: nat, from: nat, to: nat) -> Option<
    nat,
> {
    match first_unused(used, start, to) {
        Some(k) => Some(k),
        None => first_unused(used, from, to),
    }
}

/// The first unused number lies in the range and is not in use; there is none
/// exactly if all numbers of the range are in use.
pub proof fn first_unused_is_unused(used: Seq<Option<nat>>, from: nat, to: nat)
    ensures
        match first_unused(used, from, to) {
            Some(k) => from <= k <= to && !in_use(used, k) && forall|j: nat|
                from <= j < k ==> #[trigger] in_use(used, j),
            None => forall|j: nat| from <= j <= to ==> #[trigger] in_use(used, j),
        },
    decreases to + 1 - from,
{
    if from <= to && in_use(used, from) {
        first_unused_is_unused(used, from + 1, to);
    }
}

/// The number proposed for a new account under another one: the next one of
/// the thousand, above the used numbers with the same first digit, that no
/// account has. If there is none above them, it is the lowest one that no
/// account has, and only if the whole thousand is used up, its last number.
pub open spec fn proposed_number(accounts: Seq<Account>, parent_number: Seq<char>) -> nat {
    let first = leading(parent_number);
    let from = thousand(first);
    let start = next_number(numbers_beginning(accounts, first), from, from + 999);
    match next_unused(numbers_taken(accounts, first), start, from, from + 999) {
        Some(k) => k,
        None => from + 999,
    }
}

/// The numbers of accounts as far as they can be read.
fn numbers_of(accounts: &Vec<Account>) -> (r: Vec<Option<u32>>)
    ensures
        r@.map_values(|n: Option<u32>| number_seen(n)) == all_numbers(accounts@),
{
    let mut out: Vec<Option<u32>> = Vec::new();
    let mut i: usize = 0;
    while i < accounts.len()
        invariant
            i <= accounts@.len(),
            out@.len() == i,
            forall|j: int|
                0 <= j < i ==> number_seen(#[trigger] out@[j]) == written_number(
                    accounts@[j].account_number@,
                ),
        decreases accounts@.len() - i,
    {
        out.push(read_number(accounts[i].account_number.as_str()));
        i = i + 1;
    }
    assert(out@.map_values(|n: Option<u32>| number_seen(n)) =~= all_numbers(accounts@));
    out
}

/// The numbers that accounts keep from new ones.
fn taken_numbers(accounts: &Vec<Account>, first: char) -> (r: Vec<Option<u32>>)
    ensures
        r@.map_values(|n: Option<u32>| number_seen(n)) == numbers_taken(accounts@, first),
{
    let mut out: Vec<Option<u32>> = Vec::new();
    let mut i: usize = 0;
    while i < accounts.len()
        invariant
            i <= accounts@.len(),
            out@.len() == i,
            forall|j: int|
                0 <= j < i ==> number_seen(#[trigger] out@[j]) == number_taken(
                    accounts@[j],
                    first,
                ),
        decreases accounts@.len() - i,
    {
        let written = accounts[i].account_number.as_str();
        let taken: Option<u32> = match read_number(written) {
            Some(k) => {
                let chars = text::chars_of(written);
                let plain = text::number(k as u64);
                if (chars.len() > 0 && chars[0] == first) || text::same_text(
                    written,
                    plain.as_str(),
                ) {
                    Some(k)
                } else {
                    None
                }
            },
            None => None,
        };
        out.push(taken);
        i = i + 1;
    }
    assert(out@.map_values(|n: Option<u32>| number_seen(n)) =~= numbers_taken(accounts@, first));
    out
}

spec fn number_seen(n: Option<u32>) -> Option<nat> {
    match n {
        Some(k) => Some(k as nat),
        None => None,
    }
}

fn is_in_use(numbers: &Vec<Option<u32>>, k: u64) -> (r: bool)
    ensures
        r == in_use(numbers@.map_values(|n: Option<u32>| number_seen(n)), k as nat),
{
    let ghost used = numbers@.map_values(|n: Option<u32>| number_seen(n));
    let mut i: usize = 0;
    while i < numbers.len()
        invariant
            i <= numbers@.len(),
            used == numbers@.map_values(|n: Option<u32>| number_seen(n)),
            forall|j: int| 0 <= j < i ==> #[trigger] used[j] != Some(k as nat),
        decreases numbers@.len() - i,
    {
        if let Some(n) = numbers[i] {
            if n as u64 == k {
                assert(used[i as int] == Some(k as nat));
                return true;
            }
        }
        i = i + 1;
    }
    false
}

fn find_unused(numbers: &Vec<Option<u32>>, from: u64, to: u64) -> (r: Option<u64>)
    requires
        to < 20000,
    ensures
        match r {
            Some(k) => first_unused(
                numbers@.map_values(|n: Option<u32>| number_seen(n)),
                from as nat,
                to as nat,
            ) == Some(k as nat),
            None => first_unused(
                numbers@.map_values(|n: Option<u32>| number_seen(n)),
                from as nat,
                to as nat,
            ) is None,
        },
{
    let ghost used = numbers@.map_values(|n: Option<u32>| number_seen(n));
    let mut k: u64 = from;
    while k <= to
        invariant
            to < 20000,
            used == numbers@.map_values(|n: Option<u32>| number_seen(n)),
            first_unused(used, from as nat, to as nat) == first_unused(used, k as nat, to as nat),
        decreases to + 1 - k,
    {
        if !is_in_use(numbers, k) {
            return Some(k);
        }
        k = k + 1;
    }
    None
}

fn find_next_unused(numbers: &Vec<Option<u32>>, start: u64, from: u64, to: u64) -> (r: Option<u64>)
    requires
        to < 20000,
    ensures
        number_found(r) == next_unused(
            numbers@.map_values(|n: Option<u32>| number_seen(n)),
            start as nat,
            from as nat,
            to as nat,
        ),
{
    match find_unused(numbers, start, to) {
        Some(k) => Some(k),
        None => find_unused(numbers, from, to),
    }
}

spec fn number_found(n: Option<u64>) -> Option<nat> {
    match n {
        Some(k) => Some(k as nat),
        None => None,
    }
}

/// Proposes a number for a new account under another one.
pub fn calculate_next_account_number(accounts: &Vec<Account>, parent_number: &str) -> (r: String)
    ensures
        r@ == text::decimal(proposed_number(accounts@, parent_number@)),
{
    let chars = text::chars_of(parent_number);
    let first: char = if chars.len() > 0 {
        chars[0]
    } else {
        '1'
    };
    let digit: u64 = if input::ascii_digit(first) {
        input::value_of_digit(first)
    } else {
        1
    };
    let from: u64 = 1000 * digit;
    let to: u64 = from + 999;
    let ghost used = numbers_beginning(accounts@, first);
    let mut next: u64 = from;
    let mut i: usize = 0;
    assert(used.take(0) =~= Seq::<Option<nat>>::empty());
    while i < accounts.len()
        invariant
            i <= accounts@.len(),
            used == numbers_beginning(accounts@, first),
            to == from + 999,
            from <= 9000,
            next <= to + 1,
            next == next_number(used.take(i as int), from as nat, to as nat),
        decreases accounts@.len() - i,
    {
        let a = &accounts[i];
        let number = a.account_number.as_str();
        let chars = text::chars_of(number);
        proof {
            assert(used.take(i + 1).drop_last() =~= used.take(i as int));
            assert(used.take(i + 1).last() == used[i as int]);
        }
        if chars.len() > 0 && chars[0] == first {
            if let Some(k) = read_number(number) {
                let k: u64 = k as u64;
                if k >= from && k <= to && k >= next {
                    next = k + 1;
                }
            }
        }
        i = i + 1;
    }
    assert(used.take(i as int) =~= used);
    let taken = taken_numbers(accounts, first);
    let free = find_next_unused(&taken, next, from, to);
    text::number(
        match free {
            Some(k) => k,
            None => to,
        },
    )
}

/// A number below 2 to the 32 in decimal is read back.
proof fn decimals_are_read_back(n: nat)
    ensures
        only_digits(text::decimal(n)),
        text::decimal(n).len() > 0,
        digits_number(text::decimal(n)) == n,
    decreases n,
{
    let s = text::decimal(n);
    assert(input::is_digit(text::digit_char(n % 10)));
    assert(input::digit_value(text::digit_char(n % 10)) == n % 10);
    if n < 10 {
        assert(s.drop_last() =~= Seq::<char>::empty());
        assert(digits_number(s.drop_last()) == 0);
    } else {
        decimals_are_read_back(n / 10);
        assert(s.drop_last() =~= text::decimal(n / 10));
        assert forall|i: int| 0 <= i < s.len() implies input::is_digit(#[trigger] s[i]) by {
            if i < s.len() - 1 {
                assert(s[i] == text::decimal(n / 10)[i]);
            }
        }
    }
}

/// As long as some number of the thousand is not taken, the proposed number
/// belongs to the thousand and to no account.
pub proof fn proposed_number_is_free(
    accounts: Seq<Account>,
    parent_number: Seq<char>,
    free: nat,
    i: int,
)
    requires
        thousand(leading(parent_number)) <= free <= thousand(leading(parent_number)) + 999,
        !in_use(numbers_taken(accounts, leading(parent_number)), free),
        0 <= i < accounts.len(),
    ensures
        thousand(leading(parent_number)) <= proposed_number(accounts, parent_number) <= thousand(
            leading(parent_number),
        ) + 999,
        accounts[i].account_number@ != text::decimal(proposed_number(accounts, parent_number)),
{
    let first = leading(parent_number);
    let from = thousand(first);
    let used = numbers_taken(accounts, first);
    let start = next_number(numbers_beginning(accounts, first), from, from + 999);
    next_number_is_free(numbers_beginning(accounts, first), from, from + 999);
    first_unused_is_unused(used, start, from + 999);
    first_unused_is_unused(used, from, from + 999);
    let n = proposed_number(accounts, parent_number);
    assert(!in_use(used, n));
    assert(used[i] == number_taken(accounts[i], first));
    decimals_are_read_back(n);
    assert(unsigned_part(text::decimal(n)) == text::decimal(n)) by {
        assert(input::is_digit(text::decimal(n)[0]));
    }
}

/// A proposed number begins with the digit of its parent's, if that is not a
/// zero.
pub proof fn proposed_number_keeps_the_digit(accounts: Seq<Account>, parent_number: Seq<char>)
    requires
        parent_number.len() > 0,
        '1' <= parent_number[0] <= '9',
    ensures
        text::decimal(proposed_number(accounts, parent_number)).len() == 4,
        text::decimal(proposed_number(accounts, parent_number))[0] == parent_number[0],
{
    let first = leading(parent_number);
    let from = thousand(first);
    let used = numbers_taken(accounts, first);
    let start = next_number(numbers_beginning(accounts, first), from, from + 999);
    next_number_is_free(numbers_beginning(accounts, first), from, from + 999);
    first_unused_is_unused(used, start, from + 999);
    first_unused_is_unused(used, from, from + 999);
    let n = proposed_number(accounts, parent_number);
    assert(from <= n <= from + 999);
    assert(text::decimal(n) == text::decimal(n / 10).push(text::digit_char(n % 10)));
    assert(text::decimal(n / 10) == text::decimal(n / 10 / 10).push(
        text::digit_char(n / 10 % 10),
    ));
    assert(text::decimal(n / 10 / 10) == text::decimal(n / 10 / 10 / 10).push(
        text::digit_char(n / 10 / 10 % 10),
    ));
    assert(n / 10 / 10 / 10 == input::digit_value(first));
}

// ---- the account of what is not sorted yet ----

/// Whether an account is the one for what is not sorted yet.
pub open spec fn is_uncategorized(a: Account) -> bool {
    text::lowercase(a.name@) == "uncategorized"@
}

/// Where imports put what they cannot sort: an account that exists, or one to
/// be made under a number.
#[verifier::ext_equal]
pub ghost enum OffsetAccount {
    Existing(Seq<char>),
    Missing(nat),
}

/// The number for the account of what is not sorted yet: the next one of the
/// nine thousands that no account has, or ten thousand if they are used up.
pub open spec fn unsorted_number(accounts: Seq<Account>) -> nat {
    let used = all_numbers(accounts);
    match next_unused(used, next_number(used, 9000, 9999), 9000, 9999) {
        Some(k) => k,
        None => 10000,
    }
}

/// The number for the account of what is not sorted yet belongs to no account
/// as long as one of the nine thousands does not, and it is one of them.
pub proof fn unsorted_number_is_free(accounts: Seq<Account>, free: nat)
    requires
        9000 <= free <= 9999,
        !in_use(all_numbers(accounts), free),
    ensures
        9000 <= unsorted_number(accounts) <= 9999,
        !in_use(all_numbers(accounts), unsorted_number(accounts)),
{
    let used = all_numbers(accounts);
    next_number_is_free(used, 9000, 9999);
    first_unused_is_unused(used, next_number(used, 9000, 9999), 9999);
    first_unused_is_unused(used, 9000, 9999);
}

/// The account for what is not sorted yet: the first of that name, or a new
/// one.
pub open spec fn offset_account(accounts: Seq<Account>) -> OffsetAccount {
    match first_uncategorized(accounts) {
        Some(i) => OffsetAccount::Existing(accounts[i].id@),
        None => OffsetAccount::Missing(unsorted_number(accounts)),
    }
}

/// The first account for what is not sorted yet.
pub open spec fn first_uncategorized(accounts: Seq<Account>) -> Option<int>
    decreases accounts.len(),
{
    if accounts.len() == 0 {
        None
    } else {
        match first_uncategorized(accounts.drop_last()) {
            Some(i) => Some(i),
            None => if is_uncategorized(accounts.last()) {
                Some(accounts.len() - 1)
            } else {
                None
            },
        }
    }
}

/// Imports use the first account whose name is "uncategorized" in any case, and
/// ask for a new account exactly if there is none.
pub proof fn the_first_uncategorized_account_is_used(accounts: Seq<Account>)
    ensures
        match offset_account(accounts) {
            OffsetAccount::Existing(id) => exists|i: int|
                0 <= i < accounts.len() && (#[trigger] accounts[i]).id@ == id && text::lowercase(
                    accounts[i].name@,
                ) == "uncategorized"@ && forall|j: int|
                    0 <= j < i ==> text::lowercase((#[trigger] accounts[j]).name@)
                        != "uncategorized"@,
            OffsetAccount::Missing(_) => forall|j: int|
                0 <= j < accounts.len() ==> text::lowercase((#[trigger] accounts[j]).name@)
                    != "uncategorized"@,
        },
{
    uncategorized_by_position(accounts);
}

proof fn uncategorized_by_position(accounts: Seq<Account>)
    ensures
        match first_uncategorized(accounts) {
            Some(i) => 0 <= i < accounts.len() && text::lowercase(accounts[i].name@)
                == "uncategorized"@ && forall|j: int|
                0 <= j < i ==> text::lowercase((#[trigger] accounts[j]).name@)
                    != "uncategorized"@,
            None => forall|j: int|
                0 <= j < accounts.len() ==> text::lowercase((#[trigger] accounts[j]).name@)
                    != "uncategorized"@,
        },
    decreases accounts.len(),
{
    if accounts.len() > 0 {
        let before = accounts.drop_last();
        uncategorized_by_position(before);
        assert forall|j: int| 0 <= j < before.len() implies before[j] == #[trigger] accounts[j] by {}
    }
}

/// An account to be made.
pub struct AccountPlan {
    pub account_type: AccountType,
    pub account_number: String,
    pub name: String,
    pub description: Option<String>,
}

/// Finds the account for what is not sorted yet, or says which one to make.
pub fn find_or_create_uncategorized_account(accounts: &Vec<Account>) -> (r: Result<
    String,
    AccountPlan,
>)
    ensures
        match r {
            Ok(id) => offset_account(accounts@) == OffsetAccount::Existing(id@),
            Err(plan) => {
                &&& offset_account(accounts@) is Missing
                &&& plan.account_type == AccountType::Expense
                &&& plan.account_number@ == text::decimal(offset_account(accounts@)->Missing_0)
                &&& plan.name@ == "Uncategorized"@
                &&& text::opt_text(plan.description) == Some(
                    "Uncategorized transactions from CSV import"@,
                )
            },
        },
{
    let mut i: usize = 0;
    assert(accounts@.take(0) =~= Seq::<Account>::empty());
    while i < accounts.len()
        invariant
            i <= accounts@.len(),
            first_uncategorized(accounts@.take(i as int)) is None,
        decreases accounts@.len() - i,
    {
        let lower = accounts[i].name.as_str().to_lowercase();
        proof {
            let next = accounts@.take(i + 1);
            assert(next.drop_last() =~= accounts@.take(i as int));
            assert(next.last() == accounts@[i as int]);
        }
        if text::same_text(lower.as_str(), "uncategorized") {
            proof {
                found_stays_first(accounts@, i as int);
            }
            return Ok(accounts[i].id.clone());
        }
        i = i + 1;
    }
    assert(accounts@.take(i as int) =~= accounts@);
    let next: u64 = next_of_all(accounts);
    Err(
        AccountPlan {
            account_type: AccountType::Expense,
            account_number: text::number(next),
            name: text::owned("Uncategorized"),
            description: Some(text::owned("Uncategorized transactions from CSV import")),
        },
    )
}

proof fn found_stays_first(accounts: Seq<Account>, i: int)
    requires
        0 <= i < accounts.len(),
        first_uncategorized(accounts.take(i + 1)) == Some(i),
    ensures
        first_uncategorized(accounts) == Some(i),
    decreases accounts.len(),
{
    if i + 1 == accounts.len() {
        assert(accounts.take(i + 1) =~= accounts);
    } else {
        assert(accounts.drop_last().take(i + 1) =~= accounts.take(i + 1));
        found_stays_first(accounts.drop_last(), i);
    }
}

fn next_of_all(accounts: &Vec<Account>) -> (r: u64)
    ensures
        r == unsorted_number(accounts@),
{
    let ghost used = all_numbers(accounts@);
    let mut next: u64 = 9000;
    let mut i: usize = 0;
    assert(used.take(0) =~= Seq::<Option<nat>>::empty());
    while i < accounts.len()
        invariant
            i <= accounts@.len(),
            used == all_numbers(accounts@),
            next <= 10000,
            next == next_number(used.take(i as int), 9000, 9999),
        decreases accounts@.len() - i,
    {
        proof {
            assert(used.take(i + 1).drop_last() =~= used.take(i as int));
            assert(used.take(i + 1).last() == used[i as int]);
        }
        if let Some(k) = read_number(accounts[i].account_number.as_str()) {
            let k: u64 = k as u64;
            if k >= 9000 && k < 10000 && k >= next {
                next = k + 1;
            }
        }
        i = i + 1;
    }
    assert(used.take(i as int) =~= used);
    let numbers = numbers_of(accounts);
    match find_next_unused(&numbers, next, 9000, 9999) {
        Some(k) => k,
        None => 10000,
    }
}

/// What an import goes on with after the account was made.
pub fn uncategorized_created(outcome: Result<Option<String>, String>) -> (r: Result<String, String>)
    ensures
        match outcome {
            Ok(Some(id)) => r == Ok::<String, String>(id),
            Ok(None) => r is Err && r->Err_0@ == "Unexpected event type returned"@,
            Err(e) => r is Err && r->Err_0@ == "Failed to create Uncategorized account: "@ + e@,
        },
{
    match outcome {
        Ok(Some(id)) => Ok(id),
        Ok(None) => Err(text::owned("Unexpected event type returned")),
        Err(e) => Err(text::cat2("Failed to create Uncategorized account: ", e.as_str())),
    }
}

// ---- the default chart ----

/// An account of the default chart.
#[derive(Debug, Clone, Copy, PartialEq, Eq)]
pub struct DefaultAccount {
    pub number: &'static str,
    pub name: &'static str,
    pub account_type: AccountType,
    /// The position of the parent in the default chart.
    pub parent: Option<usize>,
}

/// The accounts of the default chart, in the order they are made.
pub open spec fn default_account(i: int) -> DefaultAccount {
    if i == 0 {
        DefaultAccount {
            number: "1000",
            name: "Assets",
            account_type: AccountType::Asset,
            parent: None,
        }
    } else if i == 1 {
        DefaultAccount {
            number: "1001",
            name: "Business Checking",
            account_type: AccountType::Asset,
            parent: Some(0),
        }
    } else if i == 2 {
        DefaultAccount {
            number: "2000",
            name: "Income",
            account_type: AccountType::Revenue,
            parent: None,
        }
    } else if i == 3 {
        DefaultAccount {
            number: "3000",
            name: "Expenses",
            account_type: AccountType::Expense,
            parent: None,
        }
    } else if i == 4 {
        DefaultAccount {
            number: "4000",
            name: "Equity",
            account_type: AccountType::Equity,
            parent: None,
        }
    } else if i == 5 {
        DefaultAccount {
            number: "4001",
            name: "Opening Balances",
            account_type: AccountType::Equity,
            parent: Some(4),
        }
    } else {
        DefaultAccount {
            number: "5000",
            name: "Liabilities",
            account_type: AccountType::Liability,
            parent: None,
        }
    }
}

/// How many accounts the default chart has.
pub const DEFAULT_COUNT: usize = 7;

/// An account of the default chart.
pub fn default_at(i: usize) -> (r: DefaultAccount)
    ensures
        r == default_account(i as int),
{
    match i {
        0 => DefaultAccount {
            number: "1000",
            name: "Assets",
            account_type: AccountType::Asset,
            parent: None,
        },
        1 => DefaultAccount {
            number: "1001",
            name: "Business Checking",
            account_type: AccountType::Asset,
            parent: Some(0),
        },
        2 => DefaultAccount {
            number: "2000",
            name: "Income",
            account_type: AccountType::Revenue,
            parent: None,
        },
        3 => DefaultAccount {
            number: "3000",
            name: "Expenses",
            account_type: AccountType::Expense,
            parent: None,
        },
        4 => DefaultAccount {
            number: "4000",
            name: "Equity",
            account_type: AccountType::Equity,
            parent: None,
        },
        5 => DefaultAccount {
            number: "4001",
            name: "Opening Balances",
            account_type: AccountType::Equity,
            parent: Some(4),
        },
        _ => DefaultAccount {
            number: "5000",
            name: "Liabilities",
            account_type: AccountType::Liability,
            parent: None,
        },
    }
}

/// In the default chart a parent is a root, is made before its children, and
/// is of their kind.
pub proof fn default_parents_come_first(i: int)
    requires
        0 <= i < DEFAULT_COUNT,
        default_account(i).parent is Some,
    ensures
        default_account(i).parent->0 < i,
        default_account(default_account(i).parent->0 as int).parent is None,
        default_account(default_account(i).parent->0 as int).account_type == default_account(
            i,
        ).account_type,
{
}

/// The default chart in the making: the identifiers of the accounts made so
/// far, how many accounts were looked at for their parents, and what failed.
pub struct DefaultChart {
    pub ids: Vec<Option<String>>,
    pub linked: usize,
    pub failure: Option<String>,
}

/// What is to be done next for the default chart.
pub enum ChartStep {
    /// Make the account at this position of the default chart.
    Create(usize),
    /// Put an account under another one.
    SetParent { account_id: String, parent_id: String },
    /// The chart is done with so many accounts, or was given up.
    Done(Result<usize, String>),
}

/// The meaning of what is to be done next.
#[verifier::ext_equal]
pub ghost enum ChartWish {
    Create(int),
    SetParent(Seq<char>, Seq<char>),
    Made(nat),
    Failed(Seq<char>),
}

impl View for ChartStep {
    type V = ChartWish;

    open spec fn view(&self) -> ChartWish {
        match self {
            ChartStep::Create(i) => ChartWish::Create(*i as int),
            ChartStep::SetParent { account_id, parent_id } => ChartWish::SetParent(
                account_id@,
                parent_id@,
            ),
            ChartStep::Done(Ok(n)) => ChartWish::Made(*n as nat),
            ChartStep::Done(Err(e)) => ChartWish::Failed(e@),
        }
    }
}

/// The meaning of the default chart in the making.
#[verifier::ext_equal]
pub ghost struct ChartState {
    pub ids: Seq<Option<Seq<char>>>,
    pub linked: nat,
    pub failure: Option<Seq<char>>,
}

impl View for DefaultChart {
    type V = ChartState;

    open spec fn view(&self) -> ChartState {
        ChartState {
            ids: self.ids@.map_values(|s: Option<String>| text::opt_text(s)),
            linked: self.linked as nat,
            failure: text::opt_text(self.failure),
        }
    }
}

impl ChartState {
    /// The account that is to be put under a parent at a position, if both
    /// have an identifier.
    pub open spec fn link(self, i: int) -> Option<(Seq<char>, Seq<char>)> {
        match default_account(i).parent {
            Some(p) => if self.ids[i] is Some && self.ids[p as int] is Some {
                Some((self.ids[i]->0, self.ids[p as int]->0))
            } else {
                None
            },
            None => None,
        }
    }

    /// The next account from a position on that is to be put under a parent.
    pub open spec fn next_link(self, i: nat) -> nat
        decreases DEFAULT_COUNT - i,
    {
        if i >= DEFAULT_COUNT || self.link(i as int) is Some {
            i
        } else {
            self.next_link(i + 1)
        }
    }

    /// First all accounts are made, then they are put under their parents; a
    /// failure ends it.
    pub open spec fn next(self) -> ChartWish {
        if self.failure is Some {
            ChartWish::Failed(self.failure->0)
        } else if self.ids.len() < DEFAULT_COUNT {
            ChartWish::Create(self.ids.len() as int)
        } else {
            let i = self.next_link(self.linked);
            match self.link(i as int) {
                Some((account, parent)) if i < DEFAULT_COUNT => ChartWish::SetParent(
                    account,
                    parent,
                ),
                _ => ChartWish::Made(DEFAULT_COUNT as nat),
            }
        }
    }

    pub open spec fn created(self, outcome: Result<Option<Seq<char>>, Seq<char>>) -> ChartState {
        match outcome {
            Ok(id) => ChartState { ids: self.ids.push(id), ..self },
            Err(e) => ChartState {
                failure: Some(
                    "Failed to create account "@ + default_account(
                        self.ids.len() as int,
                    ).number@ + ": "@ + e,
                ),
                ..self
            },
        }
    }

    pub open spec fn parent_set(self, failure: Option<Seq<char>>) -> ChartState {
        let i = self.next_link(self.linked);
        match failure {
            None => ChartState { linked: i + 1, ..self },
            Some(e) => ChartState {
                failure: Some(
                    "Failed to set parent for "@ + default_account(i as int).number@ + ": "@ + e,
                ),
                ..self
            },
        }
    }
}

/// The meaning of the outcome of making an account.
pub open spec fn outcome_text(r: Result<Option<String>, String>) -> Result<
    Option<Seq<char>>,
    Seq<char>,
> {
    match r {
        Ok(id) => Ok(text::opt_text(id)),
        Err(e) => Err(e@),
    }
}

/// Starts the default chart. The steps are performed one by one until it is
/// done.
pub fn create_default_accounts() -> (r: DefaultChart)
    ensures
        r@ == (ChartState { ids: Seq::empty(), linked: 0, failure: None }),
{
    let r = DefaultChart { ids: Vec::new(), linked: 0, failure: None };
    assert(r@.ids =~= Seq::<Option<Seq<char>>>::empty());
    r
}

impl DefaultChart {
    fn find_link(&self) -> (r: usize)
        requires
            self.ids@.len() >= DEFAULT_COUNT,
        ensures
            r == self@.next_link(self@.linked),
            r < DEFAULT_COUNT ==> self@.link(r as int) is Some,
    {
        let mut i: usize = self.linked;
        while i < DEFAULT_COUNT && !self.has_link(i)
            invariant
                self.ids@.len() >= DEFAULT_COUNT,
                self@.next_link(i as nat) == self@.next_link(self@.linked),
            decreases DEFAULT_COUNT - i,
        {
            i = i + 1;
        }
        i
    }

    fn has_link(&self, i: usize) -> (r: bool)
        requires
            i < DEFAULT_COUNT,
            self.ids@.len() >= DEFAULT_COUNT,
        ensures
            r == (self@.link(i as int) is Some),
    {
        match default_at(i).parent {
            Some(p) => self.ids[i].is_some() && self.ids[p].is_some(),
            None => false,
        }
    }

    /// What is to be done next.
    pub fn next(&self) -> (r: ChartStep)
        ensures
            r@ == self@.next(),
    {
        if let Some(e) = &self.failure {
            return ChartStep::Done(Err(e.clone()));
        }
        if self.ids.len() < DEFAULT_COUNT {
            return ChartStep::Create(self.ids.len());
        }
        let i: usize = self.find_link();
        if i < DEFAULT_COUNT {
            if let Some(p) = default_at(i).parent {
                if let (Some(a), Some(b)) = (&self.ids[i], &self.ids[p]) {
                    return ChartStep::SetParent { account_id: a.clone(), parent_id: b.clone() };
                }
            }
        }
        ChartStep::Done(Ok(DEFAULT_COUNT))
    }

    /// Goes on after an account was made, with its identifier, or could not be.
    pub fn created(&mut self, outcome: Result<Option<String>, String>)
        requires
            old(self).ids@.len() < DEFAULT_COUNT,
        ensures
            final(self)@ == old(self)@.created(outcome_text(outcome)),
    {
        match outcome {
            Ok(id) => {
                self.ids.push(id);
                assert(self@.ids =~= old(self)@.ids.push(text::opt_text(id)));
            },
            Err(e) => {
                let account = default_at(self.ids.len());
                self.failure = Some(
                    text::cat4("Failed to create account ", account.number, ": ", e.as_str()),
                );
            },
        }
    }

    /// Goes on after an account was put under its parent, or could not be.
    pub fn parent_set(&mut self, failure: Option<String>)
        requires
            old(self).ids@.len() >= DEFAULT_COUNT,
            old(self)@.next() is SetParent,
        ensures
            final(self)@ == old(self)@.parent_set(text::opt_text(failure)),
    {
        let i: usize = self.find_link();
        match failure {
            None => {
                self.linked = i + 1;
            },
            Some(e) => {
                let account = default_at(i);
                self.failure = Some(
                    text::cat4("Failed to set parent for ", account.number, ": ", e.as_str()),
                );
            },
        }
    }
}

/// The default chart is done only after all its accounts were made.
pub proof fn default_chart_is_complete(c: ChartState)
    requires
        c.next() is Made,
    ensures
        c.failure is None,
        c.ids.len() >= DEFAULT_COUNT,
        forall|i: int| c.linked <= i < DEFAULT_COUNT ==> (#[trigger] c.link(i)) is None,
{
    no_link_before_next(c, c.linked);
}

proof fn no_link_before_next(c: ChartState, i: nat)
    ensures
        c.next_link(i) < DEFAULT_COUNT ==> c.link(c.next_link(i) as int) is Some,
        c.next_link(i) >= DEFAULT_COUNT ==> forall|k: int|
            i <= k < DEFAULT_COUNT ==> (#[trigger] c.link(k)) is None,
    decreases DEFAULT_COUNT - i,
{
    if i < DEFAULT_COUNT && c.link(i as int) is None {
        no_link_before_next(c, i + 1);
    }
}

/// Whether the books have no active accounts, given their number, if it could
/// be found out.
pub fn has_no_accounts(count: Option<i64>) -> (r: bool)
    ensures
        r == (count is None || count == Some(0i64)),
{
    match count {
        Some(n) => n == 0,
        None => true,
    }
}

} // verus!
