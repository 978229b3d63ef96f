//! Amounts of money in cents: reading them from text the way a double-precision
//! calculator does, adding them up in 64 bits, and writing them out.

use vstd::prelude::*;

use crate::input;
use crate::text;

verus! {

// ---- 64-bit arithmetic ----

/// A number reduced to the range of a signed 64-bit integer.
pub open spec fn wrap64(n: int) -> int {
    (n + 0x8000_0000_0000_0000) % 0x1_0000_0000_0000_0000 - 0x8000_0000_0000_0000
}

/// Adds in 64 bits.
pub fn plus(a: i64, b: i64) -> (r: i64)
    ensures
        r == wrap64(a + b),
{
    a.wrapping_add(b)
}

/// Subtracts in 64 bits.
pub fn minus(a: i64, b: i64) -> (r: i64)
    ensures
        r == wrap64(a - b),
{
    a.wrapping_sub(b)
}

/// Changes the sign in 64 bits.
pub fn negated(a: i64) -> (r: i64)
    ensures
        r == wrap64(-a),
{
    minus(0, a)
}

/// Sums taken step by step in 64 bits are the exact sums reduced once.
pub proof fn wrapping_is_uniform(a: int, b: int)
    ensures
        wrap64(wrap64(a) + b) == wrap64(a + b),
        i64::MIN <= a <= i64::MAX ==> wrap64(a) == a,
        i64::MIN <= wrap64(a) <= i64::MAX,
{
}

/// Differences taken of reduced numbers are the exact differences reduced once.
pub proof fn wrapping_difference(a: int, b: int)
    ensures
        wrap64(wrap64(a) - wrap64(b)) == wrap64(a - b),
{
    let c = wrap64(b);
    assert(wrap64(wrap64(a) - c) == wrap64(a - c));
    assert(wrap64(a - c) == wrap64(a - b));
}

/// The exact sum of a list of amounts.
pub open spec fn total(v: Seq<int>) -> int
    decreases v.len(),
{
    if v.len() == 0 {
        0
    } else {
        total(v.drop_last()) + v.last()
    }
}

// ---- powers and digits ----

pub open spec fn two_to(n: nat) -> nat
    decreases n,
{
    if n == 0 {
        1
    } else {
        2 * two_to((n - 1) as nat)
    }
}

pub open spec fn ten_to(n: nat) -> nat
    decreases n,
{
    if n == 0 {
        1
    } else {
        10 * ten_to((n - 1) as nat)
    }
}

/// Whether a text consists of ASCII digits only.
pub open spec fn all_digits(s: Seq<char>) -> bool {
    forall|i: int| 0 <= i < s.len() ==> input::is_digit(#[trigger] s[i])
}

/// The number that a text of digits writes.
pub open spec fn digits_value(s: Seq<char>) -> nat
    decreases s.len(),
{
    if s.len() == 0 {
        0
    } else {
        input::digit_value(s[0]) * ten_to((s.len() - 1) as nat) + digits_value(s.drop_first())
    }
}

// ---- double precision ----

/// `m` times two to the power of `e`.
pub ghost struct Dyadic {
    pub m: nat,
    pub e: int,
}

/// The quotient `n / d` rounded to the nearest integer, ties to the even one.
pub open spec fn half_even(n: nat, d: nat) -> nat {
    let q = n / d;
    let r = n % d;
    if 2 * r > d || (2 * r == d && q % 2 == 1) {
        q + 1
    } else {
        q
    }
}

/// The binary scale at which `n / d` has at most 53 bits before the point:
/// the scaled denominator and the exponent.
pub open spec fn scale_down(n: nat, d: nat, e: int) -> (nat, int)
    decreases (if n >= 0x20_0000_0000_0000 * d { n - 0x20_0000_0000_0000 * d + 1 } else { 0 }),
{
    if d > 0 && n >= 0x20_0000_0000_0000 * d {
        scale_down(n, 2 * d, e + 1)
    } else {
        (d, e)
    }
}

/// The binary scale at which `n / d` has 53 bits before the point, but no
/// smaller exponent than a double has: the scaled numerator and the exponent.
pub open spec fn scale_up(n: nat, d: nat, e: int) -> (nat, int)
    decreases e + 1074,
{
    if n < 0x10_0000_0000_0000 * d && e > -1074 {
        scale_up(2 * n, d, e - 1)
    } else {
        (n, e)
    }
}

/// The double nearest to `n / d`, ties to the even mantissa.
pub open spec fn nearest_double(n: nat, d: nat) -> Dyadic {
    if n >= 0x10_0000_0000_0000 * d {
        let (b, e) = scale_down(n, d, 0);
        Dyadic { m: half_even(n, b), e }
    } else {
        let (a, e) = scale_up(n, d, 0);
        Dyadic { m: half_even(a, d), e }
    }
}

/// The double nearest to one hundred times a double.
pub open spec fn times_hundred(x: Dyadic) -> Dyadic {
    let p = 100 * x.m;
    let (b, j) = scale_down(p, 1, 0);
    Dyadic { m: half_even(p, b), e: x.e + j }
}

/// A double rounded to the nearest integer, halves upwards.
pub open spec fn nearest_integer(x: Dyadic) -> nat {
    if x.e >= 0 {
        x.m * two_to(x.e as nat)
    } else {
        (2 * x.m + two_to((-x.e) as nat)) / (2 * two_to((-x.e) as nat))
    }
}

/// The double nearest to an integer.
pub open spec fn rounded(p: nat) -> Dyadic {
    let (b, j) = scale_down(p, 1, 0);
    Dyadic { m: half_even(p, b), e: j }
}

/// The double nearest to an integer, taken as a double, times a double that is
/// not tiny.
pub open spec fn product(n: nat, factor: Dyadic) -> Dyadic {
    let x = rounded(n);
    let y = rounded(x.m * factor.m);
    Dyadic { m: y.m, e: y.e + x.e + factor.e }
}

/// One hundred quintillion dollars, beyond which every amount of cents lies
/// outside 64 bits.
pub open spec fn huge() -> nat {
    100_000_000_000_000_000_000
}

/// The cents of `n / d` dollars as double-precision arithmetic gives them:
/// the nearest double, multiplied by one hundred, rounded with halves away
/// from zero, and limited to 64 bits.
pub open spec fn double_cents(negative: bool, n: nat, d: nat) -> int {
    let c = if n >= huge() * d {
        huge()
    } else {
        nearest_integer(times_hundred(nearest_double(n, d)))
    };
    if negative {
        if c > 0x8000_0000_0000_0000 {
            -0x8000_0000_0000_0000
        } else {
            -(c as int)
        }
    } else if c > 0x7fff_ffff_ffff_ffff {
        0x7fff_ffff_ffff_ffff
    } else {
        c as int
    }
}

/// The sign, the digits before the point and the digits after it, of a text
/// that writes a number without an exponent: an optional minus sign, then
/// digits with at most one point among them, and at least one digit.
pub open spec fn number_parts(s: Seq<char>) -> Option<(bool, Seq<char>, Seq<char>)> {
    let negative = s.len() > 0 && s[0] == '-';
    let body = if negative {
        s.drop_first()
    } else {
        s
    };
    let at = text::find_char(body, '.') as int;
    let whole = body.take(at);
    let fraction = if at < body.len() {
        body.skip(at + 1)
    } else {
        Seq::empty()
    };
    if all_digits(whole) && all_digits(fraction) && whole.len() + fraction.len() > 0 {
        Some((negative, whole, fraction))
    } else {
        None
    }
}

/// The cents that a text of digits, points and minus signs stands for.
pub open spec fn cents_of_number(s: Seq<char>) -> Option<int> {
    match number_parts(s) {
        Some((negative, whole, fraction)) => {
            let d = ten_to(fraction.len());
            Some(double_cents(negative, digits_value(whole) * d + digits_value(fraction), d))
        },
        None => None,
    }
}

proof fn ten_to_positive(n: nat)
    ensures
        ten_to(n) > 0,
    decreases n,
{
    if n > 0 {
        ten_to_positive((n - 1) as nat);
    }
}

proof fn two_to_positive(n: nat)
    ensures
        two_to(n) > 0,
    decreases n,
{
    if n > 0 {
        two_to_positive((n - 1) as nat);
    }
}

/// The number held by digits with the least significant one first.
spec fn le_value(s: Seq<u8>) -> nat
    decreases s.len(),
{
    if s.len() == 0 {
        0
    } else {
        le_value(s.drop_last()) + s.last() as nat * ten_to((s.len() - 1) as nat)
    }
}

spec fn le_digits(s: Seq<u8>) -> bool {
    forall|i: int| 0 <= i < s.len() ==> (#[trigger] s[i]) < 10
}

proof fn le_value_bound(s: Seq<u8>)
    requires
        le_digits(s),
    ensures
        le_value(s) < ten_to(s.len()),
    decreases s.len(),
{
    if s.len() > 0 {
        let init = s.drop_last();
        assert(le_digits(init));
        le_value_bound(init);
        let p = ten_to((s.len() - 1) as nat);
        let d = s.last() as nat;
        assert(d < 10);
        assert(d * p + p <= 10 * p) by (nonlinear_arith)
            requires
                d < 10,
        ;
    }
}

/// Doubles a fraction held as digits, least significant first; the result is
/// what is carried over to the integer part.
fn double_fraction(f: &mut Vec<u8>) -> (carry: u8)
    requires
        le_digits(old(f)@),
    ensures
        le_digits(final(f)@),
        final(f)@.len() == old(f)@.len(),
        carry < 2,
        le_value(final(f)@) + carry as nat * ten_to(old(f)@.len()) == 2 * le_value(old(f)@),
{
    let mut carry: u8 = 0;
    let mut i: usize = 0;
    let ghost before = f@;
    assert(f@.take(0) =~= Seq::<u8>::empty());
    while i < f.len()
        invariant
            i <= f@.len(),
            f@.len() == before.len(),
            le_digits(before),
            le_digits(f@),
            carry < 2,
            forall|j: int| i <= j < f@.len() ==> f@[j] == before[j],
            le_value(f@.take(i as int)) + carry as nat * ten_to(i as nat) == 2 * le_value(
                before.take(i as int),
            ),
        decreases f@.len() - i,
    {
        let d: u8 = f[i];
        assert(d < 10);
        let t: u8 = 2 * d + carry;
        let (low, up): (u8, u8) = if t >= 10 {
            (t - 10, 1)
        } else {
            (t, 0)
        };
        let ghost f0 = f@;
        f.set(i, low);
        proof {
            let p = ten_to(i as nat);
            assert(f@.take(i + 1).drop_last() =~= f0.take(i as int));
            assert(before.take(i + 1).drop_last() =~= before.take(i as int));
            assert(f@.take(i + 1).last() == low);
            assert(before.take(i + 1).last() == d);
            assert(ten_to((i + 1) as nat) == 10 * p);
            assert(low as nat * p + up as nat * (10 * p) == 2 * (d as nat * p) + carry as nat * p)
                by (nonlinear_arith)
                requires
                    low + 10 * up == 2 * d + carry,
            ;
        }
        carry = up;
        i = i + 1;
    }
    assert(f@.take(i as int) =~= f@);
    assert(before.take(i as int) =~= before);
    carry
}

fn any_nonzero(f: &Vec<u8>) -> (r: bool)
    ensures
        r == (le_value(f@) > 0),
{
    let mut i: usize = 0;
    assert(f@.take(0) =~= Seq::<u8>::empty());
    while i < f.len()
        invariant
            i <= f@.len(),
            le_value(f@.take(i as int)) == 0,
        decreases f@.len() - i,
    {
        proof {
            assert(f@.take(i + 1).drop_last() =~= f@.take(i as int));
            ten_to_positive(i as nat);
        }
        if f[i] != 0 {
            proof {
                le_value_grows(f@, i + 1);
                let d = f@[i as int] as nat;
                let p = ten_to(i as nat);
                assert(d * p > 0) by (nonlinear_arith)
                    requires
                        d > 0,
                        p > 0,
                ;
            }
            return true;
        }
        i = i + 1;
    }
    assert(f@.take(i as int) =~= f@);
    false
}

proof fn le_value_grows(s: Seq<u8>, i: int)
    requires
        0 <= i <= s.len(),
    ensures
        le_value(s.take(i)) <= le_value(s),
    decreases s.len(),
{
    if i == s.len() {
        assert(s.take(i) =~= s);
    } else {
        le_value_grows(s.drop_last(), i);
        assert(s.drop_last().take(i) =~= s.take(i));
    }
}

/// The quotient and remainder of a sum of a multiple and a smaller rest.
proof fn split_division(i: nat, f: nat, d: nat)
    requires
        f < d,
    ensures
        (i * d + f) / d == i,
        (i * d + f) % d == f,
{
    vstd::arithmetic::div_mod::lemma_fundamental_div_mod_converse(
        (i * d + f) as int,
        d as int,
        i as int,
        f as int,
    );
}

/// Rounds a number below 2^53 with a fraction given as digits, ties to even.
fn round_fraction(whole: u64, f: Vec<u8>) -> (r: u64)
    requires
        le_digits(f@),
        whole < 0x20_0000_0000_0000,
    ensures
        r == half_even(whole as nat * ten_to(f@.len()) + le_value(f@), ten_to(f@.len())),
        r <= 0x20_0000_0000_0000,
{
    let mut g = f;
    let ghost v = le_value(g@);
    let ghost d = ten_to(g@.len());
    proof {
        le_value_bound(g@);
        split_division(whole as nat, v, d);
    }
    let carry: u8 = double_fraction(&mut g);
    proof {
        le_value_bound(g@);
    }
    if carry == 1 {
        if any_nonzero(&g) || whole % 2 == 1 {
            whole + 1
        } else {
            whole
        }
    } else {
        whole
    }
}

/// Scales a number with a fraction up until its integer part has 53 bits, and
/// rounds it there; the second result is the negated exponent.
fn scale_fraction(whole0: u64, f0: Vec<u8>) -> (r: (u64, u64))
    requires
        le_digits(f0@),
        whole0 < 0x10_0000_0000_0000,
    ensures
        ({
            let d = ten_to(f0@.len());
            let (a, e) = scale_up(whole0 as nat * d + le_value(f0@), d, 0);
            r.0 == half_even(a, d) && -(r.1 as int) == e
        }),
        r.0 <= 0x20_0000_0000_0000,
        r.1 <= 1074,
{
    let mut whole: u64 = whole0;
    let mut f = f0;
    let mut steps: u64 = 0;
    let ghost d = ten_to(f@.len());
    let ghost n0 = whole as nat * d + le_value(f@);
    while whole < 0x10_0000_0000_0000 && steps < 1074
        invariant
            whole < 0x20_0000_0000_0000,
            steps <= 1074,
            le_digits(f@),
            f@.len() == f0@.len(),
            d == ten_to(f@.len()),
            scale_up(n0, d, 0) == scale_up(
                whole as nat * d + le_value(f@),
                d,
                -(steps as int),
            ),
        decreases 1074 - steps,
    {
        let ghost n = whole as nat * d + le_value(f@);
        proof {
            le_value_bound(f@);
            let w = whole as nat;
            let v = le_value(f@);
            assert(n < 0x10_0000_0000_0000 * d) by (nonlinear_arith)
                requires
                    n == w * d + v,
                    v < d,
                    w + 1 <= 0x10_0000_0000_0000,
            ;
        }
        let carry: u8 = double_fraction(&mut f);
        proof {
            let w = whole as nat;
            let c = carry as nat;
            let v2 = le_value(f@);
            assert((2 * w + c) * d + v2 == 2 * n) by (nonlinear_arith)
                requires
                    2 * n == 2 * (w * d) + (v2 + c * d),
            ;
        }
        whole = 2 * whole + carry as u64;
        steps = steps + 1;
    }
    proof {
        let w = whole as nat;
        let v = le_value(f@);
        if whole >= 0x10_0000_0000_0000 {
            assert(w * d + v >= 0x10_0000_0000_0000 * d) by (nonlinear_arith)
                requires
                    w >= 0x10_0000_0000_0000,
            ;
        }
    }
    let m: u64 = round_fraction(whole, f);
    (m, steps)
}

/// Rounds a number of at most 67 bits, with a fraction that is either zero or
/// not, to 53 bits; the second result is the exponent.
fn scale_whole(whole: u128, f: &Vec<u8>) -> (r: (u64, u64))
    requires
        le_digits(f@),
        0x10_0000_0000_0000 <= whole < huge(),
    ensures
        ({
            let d = ten_to(f@.len());
            let n = whole as nat * d + le_value(f@);
            let (b, e) = scale_down(n, d, 0);
            r.0 == half_even(n, b) && r.1 == e
        }),
        r.0 <= 0x20_0000_0000_0000,
        r.1 <= 20,
{
    let ghost d = ten_to(f@.len());
    let ghost v = le_value(f@);
    let ghost n = whole as nat * d + v;
    let ghost w = whole as nat;
    let mut p: u128 = 1;
    let mut e: u64 = 0;
    proof {
        le_value_bound(f@);
        assert(1 * d == d);
    }
    while whole / p >= 0x20_0000_0000_0000
        invariant
            n == w * d + v,
            v < d,
            w == whole as nat,
            whole < huge(),
            0 < p,
            e <= 20,
            p == two_to(e as nat),
            p <= 0x10_0000,
            whole >= 0x10_0000_0000_0000 * p,
            scale_down(n, d, 0) == scale_down(n, (p as nat * d) as nat, e as int),
        decreases 0x10_0000 - p,
    {
        proof {
            let q = p as nat;
            assert(w >= 0x20_0000_0000_0000 * q) by (nonlinear_arith)
                requires
                    w / q >= 0x20_0000_0000_0000,
                    q > 0,
            ;
            assert(n >= 0x20_0000_0000_0000 * (q * d)) by (nonlinear_arith)
                requires
                    n == w * d + v,
                    w >= 0x20_0000_0000_0000 * q,
            ;
            assert(q * d > 0) by (nonlinear_arith)
                requires
                    q > 0,
                    d > 0,
            ;
            assert(2 * (q * d) == (2 * q) * d) by (nonlinear_arith);
            assert(q < 0x8_0000);
            if e >= 20 {
                two_to_large(e as nat);
            }
        }
        p = 2 * p;
        e = e + 1;
    }
    let q: u128 = whole / p;
    let low: u128 = whole % p;
    proof {
        let s = p as nat;
        let b = s * d;
        assert(w == q as nat * s + low as nat) by {
            vstd::arithmetic::div_mod::lemma_fundamental_div_mod(w as int, s as int);
            assert(s * (w / s) == (w / s) * s) by (nonlinear_arith);
        }
        let r = low as nat * d + v;
        let qn = q as nat;
        let ln = low as nat;
        assert(n == qn * b + r) by (nonlinear_arith)
            requires
                n == w * d + v,
                w == qn * s + ln,
                b == s * d,
                r == ln * d + v,
        ;
        assert(r < b) by (nonlinear_arith)
            requires
                r == ln * d + v,
                v < d,
                ln + 1 <= s,
                b == s * d,
        ;
        split_division(qn, r, b);
        assert(n < 0x20_0000_0000_0000 * b) by (nonlinear_arith)
            requires
                n == qn * b + r,
                r < b,
                qn + 1 <= 0x20_0000_0000_0000,
        ;
        assert(scale_down(n, b, e as int) == (b, e as int));
        // The rest is compared with one half of the last place.
        if 2 * ln > s {
            assert(2 * r > b) by (nonlinear_arith)
                requires
                    r == ln * d + v,
                    2 * ln >= s + 1,
                    b == s * d,
                    d > 0,
            ;
        } else if 2 * ln == s {
            assert(2 * r == b + 2 * v) by (nonlinear_arith)
                requires
                    r == ln * d + v,
                    2 * ln == s,
                    b == s * d,
            ;
        } else {
            assert(2 * r <= b - d + 2 * v) by (nonlinear_arith)
                requires
                    r == ln * d + v,
                    2 * ln <= s - 1,
                    b == s * d,
            ;
            if s == 1 {
                assert(ln == 0);
            } else {
                two_to_even(e as nat);
                assert(2 * ln <= s - 2);
                assert(2 * r < b) by (nonlinear_arith)
                    requires
                        r == ln * d + v,
                        2 * ln <= s - 2,
                        v < d,
                        b == s * d,
                ;
            }
        }
    }
    if p == 1 {
        proof {
            assert(q == whole) by (nonlinear_arith)
                requires
                    q == whole / p,
                    p == 1,
            ;
            assert(1 * d == d);
        }
        let m: u64 = round_fraction(whole as u64, clone_digits(f));
        (m, e)
    } else {
        let rest: bool = any_nonzero(f);
        let up: bool = 2 * low > p || (2 * low == p && (rest || q % 2 == 1));
        if up {
            (q as u64 + 1, e)
        } else {
            (q as u64, e)
        }
    }
}

proof fn two_to_even(n: nat)
    requires
        two_to(n) > 1,
    ensures
        two_to(n) % 2 == 0,
{
}

proof fn two_to_large(n: nat)
    requires
        n >= 20,
    ensures
        two_to(n) >= 0x10_0000,
    decreases n,
{
    if n == 20 {
        reveal_with_fuel(two_to, 21);
    } else {
        two_to_large((n - 1) as nat);
    }
}

fn clone_digits(f: &Vec<u8>) -> (r: Vec<u8>)
    ensures
        r@ == f@,
{
    let mut r: Vec<u8> = Vec::new();
    let mut i: usize = 0;
    while i < f.len()
        invariant
            i <= f@.len(),
            r@ == f@.take(i as int),
        decreases f@.len() - i,
    {
        r.push(f[i]);
        i = i + 1;
        assert(f@.take(i as int) =~= f@.take(i - 1).push(f@[i - 1]));
    }
    assert(f@.take(i as int) =~= f@);
    r
}


/// Reads digits into a number, or answers that it is one hundred quintillion
/// or more.
fn read_whole(v: &Vec<char>) -> (r: Option<u128>)
    requires
        all_digits(v@),
    ensures
        r is None <==> digits_value(v@) >= huge(),
        r is Some ==> r->0 == digits_value(v@),
{
    let mut acc: u128 = 0;
    let mut i: usize = 0;
    assert(v@.skip(0) =~= v@);
    while i < v.len()
        invariant
            i <= v@.len(),
            all_digits(v@),
            acc < huge(),
            acc as nat * ten_to((v@.len() - i) as nat) + digits_value(v@.skip(i as int))
                == digits_value(v@),
        decreases v@.len() - i,
    {
        let ghost rest = v@.skip(i as int);
        let ghost p = ten_to((v@.len() - i - 1) as nat);
        let d: u64 = input::value_of_digit(v[i]);
        let ghost a = acc as nat;
        proof {
            assert(rest.drop_first() =~= v@.skip(i + 1));
            assert(rest[0] == v@[i as int]);
            let dn = d as nat;
            assert(a * (10 * p) + dn * p == (10 * a + dn) * p) by (nonlinear_arith);
        }
        acc = 10 * acc + d as u128;
        if acc >= 100_000_000_000_000_000_000 {
            proof {
                ten_to_positive((v@.len() - i - 1) as nat);
                let b = acc as nat;
                assert(b * p >= b) by (nonlinear_arith)
                    requires
                        p >= 1,
                ;
            }
            return None;
        }
        i = i + 1;
    }
    assert(v@.skip(i as int) =~= Seq::<char>::empty());
    assert(acc as nat * 1 == acc);
    Some(acc)
}

/// Reads digits into a list with the least significant one first.
fn read_fraction(v: &Vec<char>) -> (r: Vec<u8>)
    requires
        all_digits(v@),
    ensures
        le_digits(r@),
        r@.len() == v@.len(),
        le_value(r@) == digits_value(v@),
{
    let mut out: Vec<u8> = Vec::new();
    let mut j: usize = v.len();
    assert(v@.skip(v@.len() as int) =~= Seq::<char>::empty());
    while j > 0
        invariant
            j <= v@.len(),
            all_digits(v@),
            le_digits(out@),
            out@.len() == v@.len() - j,
            le_value(out@) == digits_value(v@.skip(j as int)),
        decreases j,
    {
        let d: u64 = input::value_of_digit(v[j - 1]);
        let ghost before = out@;
        out.push(d as u8);
        j = j - 1;
        proof {
            assert(out@.drop_last() =~= before);
            assert(v@.skip(j as int).drop_first() =~= v@.skip(j + 1));
            assert(v@.skip(j as int)[0] == v@[j as int]);
        }
    }
    assert(v@.skip(0) =~= v@);
    out
}

/// The unsigned cents of `whole` dollars and the given fraction.
fn unsigned_cents(whole: &Vec<char>, fraction: &Vec<char>) -> (r: u128)
    requires
        all_digits(whole@),
        all_digits(fraction@),
    ensures
        ({
            let d = ten_to(fraction@.len());
            let n = digits_value(whole@) * d + digits_value(fraction@);
            r == (if n >= huge() * d {
                huge()
            } else {
                nearest_integer(times_hundred(nearest_double(n, d)))
            })
        }),
{
    let f = read_fraction(fraction);
    let ghost d = ten_to(fraction@.len());
    let ghost v = digits_value(fraction@);
    let ghost w = digits_value(whole@);
    let ghost n = w * d + v;
    proof {
        ten_to_positive(fraction@.len());
        le_value_bound(f@);
        if w >= huge() {
            assert(n >= huge() * d) by (nonlinear_arith)
                requires
                    n == w * d + v,
                    w >= huge(),
            ;
        } else {
            assert(n < huge() * d) by (nonlinear_arith)
                requires
                    n == w * d + v,
                    v < d,
                    w + 1 <= huge(),
            ;
        }
        if w >= 0x10_0000_0000_0000 {
            assert(n >= 0x10_0000_0000_0000 * d) by (nonlinear_arith)
                requires
                    n == w * d + v,
                    w >= 0x10_0000_0000_0000,
            ;
        } else {
            assert(n < 0x10_0000_0000_0000 * d) by (nonlinear_arith)
                requires
                    n == w * d + v,
                    v < d,
                    w + 1 <= 0x10_0000_0000_0000,
            ;
        }
    }
    match read_whole(whole) {
        None => 100_000_000_000_000_000_000,
        Some(i) => {
            if i >= 0x10_0000_0000_0000 {
                let (m, e): (u64, u64) = scale_whole(i, &f);
                cents_of_double(m, e, 0)
            } else {
                let (m, k): (u64, u64) = scale_fraction(i as u64, f);
                cents_of_double(m, 0, k)
            }
        },
    }
}

/// Multiplies a double by one hundred and rounds to an integer. The exponent
/// is `up` or, if that is zero, minus `down`.
fn cents_of_double(m: u64, up: u64, down: u64) -> (r: u128)
    requires
        m <= 0x20_0000_0000_0000,
        up <= 20,
        down <= 1074,
        up == 0 || down == 0,
    ensures
        r == nearest_integer(times_hundred(Dyadic { m: m as nat, e: up - down })),
{
    let p: u64 = 100 * m;
    let mut b: u64 = 1;
    let mut j: u64 = 0;
    let ghost pn = p as nat;
    while p / b >= 0x20_0000_0000_0000
        invariant
            p <= 100 * 0x20_0000_0000_0000,
            pn == p,
            0 < b <= 128,
            j <= 7,
            b == two_to(j as nat),
            scale_down(pn, 1, 0) == scale_down(pn, b as nat, j as int),
        decreases 128 - b,
    {
        proof {
            let bn = b as nat;
            assert(pn >= 0x20_0000_0000_0000 * bn) by (nonlinear_arith)
                requires
                    pn / bn >= 0x20_0000_0000_0000,
                    bn > 0,
            ;
            assert(b < 128);
            two_to_known();
            if j < 7 {
                two_to_monotone(j as nat, 6);
            }
        }
        b = 2 * b;
        j = j + 1;
    }
    proof {
        let bn = b as nat;
        assert(pn < 0x20_0000_0000_0000 * bn) by (nonlinear_arith)
            requires
                pn / bn < 0x20_0000_0000_0000,
                bn > 0,
        ;
        assert(scale_down(pn, bn, j as int) == (bn, j as int));
    }
    let q: u64 = p / b;
    let rest: u64 = p % b;
    let m2: u64 = if 2 * rest > b || (2 * rest == b && q % 2 == 1) {
        q + 1
    } else {
        q
    };
    assert(m2 == half_even(pn, b as nat));
    if down <= j + up {
        let s: u64 = j + up - down;
        let t: u128 = power_of_two(s);
        proof {
            let x = m2 as nat;
            let y = t as nat;
            assert(x * y <= 0x20_0000_0000_0001 * 0x800_0000) by (nonlinear_arith)
                requires
                    x <= 0x20_0000_0000_0001,
                    y <= 0x800_0000,
            ;
        }
        m2 as u128 * t
    } else {
        let s: u64 = down - j;
        if s >= 64 {
            proof {
                two_to_monotone(64, s as nat);
                two_to_known();
                let t = two_to(s as nat);
                let m = m2 as nat;
                assert((2 * m + t) / (2 * t) == 0) by (nonlinear_arith)
                    requires
                        2 * m < t,
                ;
            }
            0
        } else {
            let t: u128 = power_of_two(s);
            (2 * m2 as u128 + t) / (2 * t)
        }
    }
}

proof fn two_to_known()
    ensures
        two_to(6) == 64,
        two_to(7) == 128,
        two_to(27) == 0x800_0000,
        two_to(12) == 0x1000,
        two_to(55) == 0x80_0000_0000_0000,
        two_to(63) == 0x8000_0000_0000_0000,
        two_to(64) == 0x1_0000_0000_0000_0000,
{
    reveal_with_fuel(two_to, 65);
}

proof fn two_to_monotone(a: nat, b: nat)
    requires
        a <= b,
    ensures
        two_to(a) <= two_to(b),
    decreases b,
{
    if a < b {
        two_to_monotone(a, (b - 1) as nat);
    }
}

fn power_of_two(s: u64) -> (r: u128)
    requires
        s < 64,
    ensures
        r == two_to(s as nat),
        0 < r <= 0x8000_0000_0000_0000,
        s <= 27 ==> r <= 0x800_0000,
{
    let mut r: u128 = 1;
    let mut i: u64 = 0;
    proof {
        two_to_known();
        two_to_monotone(s as nat, 63);
        if s <= 27 {
            two_to_monotone(s as nat, 27);
        }
    }
    while i < s
        invariant
            i <= s < 64,
            r == two_to(i as nat),
            two_to(s as nat) <= 0x8000_0000_0000_0000,
        decreases s - i,
    {
        proof {
            two_to_monotone((i + 1) as nat, s as nat);
        }
        r = 2 * r;
        i = i + 1;
    }
    proof {
        two_to_positive(s as nat);
    }
    r
}

fn only_digits(v: &Vec<char>) -> (r: bool)
    ensures
        r == all_digits(v@),
{
    let mut i: usize = 0;
    while i < v.len()
        invariant
            i <= v@.len(),
            forall|j: int| 0 <= j < i ==> input::is_digit(#[trigger] v@[j]),
        decreases v@.len() - i,
    {
        if !input::ascii_digit(v[i]) {
            return false;
        }
        i = i + 1;
    }
    true
}

fn part(v: &Vec<char>, from: usize, to: usize) -> (r: Vec<char>)
    requires
        from <= to <= v@.len(),
    ensures
        r@ == v@.subrange(from as int, to as int),
{
    let mut r: Vec<char> = Vec::new();
    let mut i: usize = from;
    while i < to
        invariant
            from <= i <= to <= v@.len(),
            r@ == v@.subrange(from as int, i as int),
        decreases to - i,
    {
        r.push(v[i]);
        i = i + 1;
        assert(v@.subrange(from as int, i as int) =~= v@.subrange(from as int, i - 1).push(
            v@[i - 1],
        ));
    }
    r
}

/// The cents that a text of digits, points and minus signs stands for.
pub fn parse_cents(s: &Vec<char>) -> (r: Option<i64>)
    ensures
        r is Some <==> cents_of_number(s@) is Some,
        r is Some ==> r->0 == cents_of_number(s@)->0,
{
    let negative: bool = s.len() > 0 && s[0] == '-';
    let start: usize = if negative { 1 } else { 0 };
    let ghost body = if negative {
        s@.drop_first()
    } else {
        s@
    };
    assert(body =~= s@.skip(start as int));
    let mut at: usize = start;
    while at < s.len() && s[at] != '.'
        invariant
            start <= at <= s@.len(),
            body == s@.skip(start as int),
            forall|i: int| 0 <= i < at - start ==> body[i] != '.',
        decreases s@.len() - at,
    {
        assert(body[at - start] == s@[at as int]);
        at = at + 1;
    }
    proof {
        text::find_char_is(body, '.', at - start);
        assert(body.take(at - start) =~= s@.subrange(start as int, at as int));
    }
    let whole = part(s, start, at);
    let fraction = if at < s.len() {
        assert(body.skip(at - start + 1) =~= s@.subrange(at + 1, s@.len() as int));
        part(s, at + 1, s.len())
    } else {
        let empty: Vec<char> = Vec::new();
        assert(empty@ =~= Seq::<char>::empty());
        empty
    };
    if !only_digits(&whole) || !only_digits(&fraction) || (whole.len() == 0 && fraction.len() == 0) {
        return None;
    }
    let c: u128 = unsigned_cents(&whole, &fraction);
    if negative {
        if c >= 0x8000_0000_0000_0000 {
            Some(i64::MIN)
        } else {
            Some(-(c as i64))
        }
    } else if c > 0x7fff_ffff_ffff_ffff {
        Some(i64::MAX)
    } else {
        Some(c as i64)
    }
}

// ---- multiplying by a fraction ----

/// The double nearest to an integer below two to the 107: its mantissa and
/// its exponent.
fn round_to_double(p: u128) -> (r: (u64, u64))
    requires
        p <= 0x800_0000_0000_0000_0000_0000_0000,
    ensures
        rounded(p as nat) == (Dyadic { m: r.0 as nat, e: r.1 as int }),
        r.0 <= 0x20_0000_0000_0000,
        r.1 <= 55,
        p < 0x1_0000_0000_0000_0000 ==> r.1 <= 12,
{
    let mut b: u128 = 1;
    let mut j: u64 = 0;
    let ghost pn = p as nat;
    while p / b >= 0x20_0000_0000_0000
        invariant
            p <= 0x800_0000_0000_0000_0000_0000_0000,
            pn == p,
            0 < b <= 0x80_0000_0000_0000,
            p < 0x1_0000_0000_0000_0000 ==> b <= 0x1000,
            j <= 55,
            p < 0x1_0000_0000_0000_0000 ==> j <= 12,
            b == two_to(j as nat),
            scale_down(pn, 1, 0) == scale_down(pn, b as nat, j as int),
        decreases 0x80_0000_0000_0000 - b,
    {
        proof {
            let bn = b as nat;
            assert(pn >= 0x20_0000_0000_0000 * bn) by (nonlinear_arith)
                requires
                    pn / bn >= 0x20_0000_0000_0000,
                    bn > 0,
            ;
            two_to_known();
            assert(b < 0x80_0000_0000_0000);
            assert(p < 0x1_0000_0000_0000_0000 ==> b < 0x1000);
            if j >= 55 {
                two_to_monotone(55, j as nat);
            }
            if j >= 12 {
                two_to_monotone(12, j as nat);
            }
            doubling_stays_below(j as nat, 55);
            if p < 0x1_0000_0000_0000_0000 {
                doubling_stays_below(j as nat, 12);
            }
        }
        b = 2 * b;
        j = j + 1;
    }
    proof {
        let bn = b as nat;
        assert(pn < 0x20_0000_0000_0000 * bn) by (nonlinear_arith)
            requires
                pn / bn < 0x20_0000_0000_0000,
                bn > 0,
        ;
        assert(scale_down(pn, bn, j as int) == (bn, j as int));
    }
    let q: u128 = p / b;
    let rest: u128 = p % b;
    let m: u128 = if 2 * rest > b || (2 * rest == b && q % 2 == 1) {
        q + 1
    } else {
        q
    };
    assert(m == half_even(pn, b as nat));
    (m as u64, j)
}

proof fn doubling_stays_below(j: nat, limit: nat)
    requires
        two_to(j) < two_to(limit),
    ensures
        2 * two_to(j) <= two_to(limit),
        j < limit,
{
    if j >= limit {
        two_to_monotone(limit, j);
    } else {
        two_to_monotone(j + 1, limit);
    }
}

/// The integer nearest to a number taken as a double.
pub fn nearest_of(n: u64) -> (r: u128)
    ensures
        r == nearest_integer(rounded(n as nat)),
{
    let (m, e): (u64, u64) = round_to_double(n as u128);
    let t: u128 = power_of_two(e);
    proof {
        let x = m as nat;
        let y = t as nat;
        assert(x * y <= 0x20_0000_0000_0000 * 0x8000_0000_0000_0000) by (nonlinear_arith)
            requires
                x <= 0x20_0000_0000_0000,
                y <= 0x8000_0000_0000_0000,
        ;
    }
    m as u128 * t
}

/// The integer nearest to a number, taken as a double, times a double whose
/// exponent is minus `down`.
pub fn nearest_multiple(n: u64, m: u64, down: u64) -> (r: u128)
    requires
        m <= 0x20_0000_0000_0000,
        50 <= down <= 60,
    ensures
        r == nearest_integer(product(n as nat, Dyadic { m: m as nat, e: -down })),
{
    let (x, up): (u64, u64) = round_to_double(n as u128);
    proof {
        let a = x as nat;
        let b = m as nat;
        assert(a * b <= 0x20_0000_0000_0000 * 0x20_0000_0000_0000) by (nonlinear_arith)
            requires
                a <= 0x20_0000_0000_0000,
                b <= 0x20_0000_0000_0000,
        ;
    }
    let (y, more): (u64, u64) = round_to_double(x as u128 * m as u128);
    if down <= up + more {
        let t: u128 = power_of_two(up + more - down);
        proof {
            let a = y as nat;
            let b = t as nat;
            assert(a * b <= 0x20_0000_0000_0000 * 0x8000_0000_0000_0000) by (nonlinear_arith)
                requires
                    a <= 0x20_0000_0000_0000,
                    b <= 0x8000_0000_0000_0000,
            ;
        }
        y as u128 * t
    } else {
        let t: u128 = power_of_two(down - up - more);
        (2 * y as u128 + t) / (2 * t)
    }
}

/// The mantissas and exponents of the doubles nearest to 4.33, 2.17, a third
/// and a twelfth.
pub proof fn known_doubles()
    ensures
        nearest_double(433, 100) == (Dyadic { m: 0x11_51eb_851e_b852, e: -50 }),
        nearest_double(217, 100) == (Dyadic { m: 0x11_5c28_f5c2_8f5c, e: -51 }),
        nearest_double(1, 3) == (Dyadic { m: 0x15_5555_5555_5555, e: -54 }),
        nearest_double(1, 12) == (Dyadic { m: 0x15_5555_5555_5555, e: -56 }),
{
    reveal_with_fuel(scale_up, 58);
}

// ---- amounts to the cent ----

proof fn half_even_is_near(n: nat, d: nat)
    requires
        d > 0,
    ensures
        -d <= 2 * (half_even(n, d) * d - n) <= d,
{
    let q = (n / d) as int;
    let r = (n % d) as int;
    vstd::arithmetic::div_mod::lemma_fundamental_div_mod(n as int, d as int);
    assert(n == d * q + r);
    assert(0 <= r < d);
    assert((q + 1) * d == d * q + d) by (nonlinear_arith);
    assert(q * d == d * q) by (nonlinear_arith);
}

proof fn two_to_adds(a: nat, b: nat)
    ensures
        two_to(a + b) == two_to(a) * two_to(b),
    decreases a,
{
    if a > 0 {
        two_to_adds((a - 1) as nat, b);
        let x = two_to((a - 1) as nat) as int;
        let y = two_to(b) as int;
        assert(two_to(a + b) == 2 * two_to((a + b - 1) as nat));
        assert(((a - 1) as nat) + b == (a + b - 1) as nat);
        assert((2 * x) * y == 2 * (x * y)) by (nonlinear_arith);
    } else {
        assert(two_to(0) == 1);
        assert(two_to(a) * two_to(b) == two_to(b)) by (nonlinear_arith)
            requires
                two_to(a) == 1,
        ;
    }
}

proof fn two_to_small(k: nat, limit: nat)
    requires
        two_to(k) > limit,
        limit >= 256,
    ensures
        k >= 9,
{
    if k < 9 {
        reveal_with_fuel(two_to, 10);
    }
}

#[verifier::spinoff_prover]
proof fn scaled_up(n: nat, d: nat, e: int)
    requires
        d > 0,
        e >= -1074,
    ensures
        ({
            let (a, f) = scale_up(n, d, e);
            &&& -1074 <= f <= e
            &&& a == n * two_to((e - f) as nat)
            &&& n < 0x20_0000_0000_0000 * d ==> a < 0x20_0000_0000_0000 * d
            &&& a >= 0x10_0000_0000_0000 * d || f == -1074
        }),
    decreases e + 1074,
{
    if n < 0x10_0000_0000_0000 * d && e > -1074 {
        scaled_up(2 * n, d, e - 1);
        let (a, f) = scale_up(n, d, e);
        let k = (e - 1 - f) as nat;
        let x = two_to(k) as int;
        assert(two_to(k + 1) == 2 * x);
        assert((e - f) as nat == k + 1);
        assert((2 * n) * x == n * (2 * x)) by (nonlinear_arith);
        assert(a == n * two_to((e - f) as nat));
        assert(2 * n < 0x20_0000_0000_0000 * d);
    } else {
        assert(two_to(0) == 1);
        assert(n * two_to(0) == n);
    }
}

proof fn scaled_down(n: nat, i: nat)
    ensures
        ({
            let (b, j) = scale_down(n, two_to(i), i as int);
            &&& j >= i
            &&& b == two_to(j as nat)
            &&& n < 0x20_0000_0000_0000 * b
            &&& j > i ==> n >= 0x10_0000_0000_0000 * b
        }),
    decreases
            (if n >= 0x20_0000_0000_0000 * two_to(i) {
                n - 0x20_0000_0000_0000 * two_to(i) + 1
            } else {
                0
            }),
{
    two_to_positive(i);
    if n >= 0x20_0000_0000_0000 * two_to(i) {
        assert(two_to(i + 1) == 2 * two_to(i));
        scaled_down(n, i + 1);
    }
}

/// An amount of whole cents below one hundred trillion dollars goes through
/// double precision unharmed.
#[verifier::spinoff_prover]
proof fn whole_cents_survive(n: nat, d: nat, c: nat)
    requires
        d > 0,
        c * d == 100 * n,
        n < 0x1000_0000_0000 * d,
    ensures
        nearest_integer(times_hundred(nearest_double(n, d))) == c,
{
    scaled_up(n, d, 0);
    let (a, f) = scale_up(n, d, 0);
    let k = (-f) as nat;
    let big = two_to(k) as int;
    assert(k >= 9) by {
        if k < 1074 {
            assert(big > 256) by (nonlinear_arith)
                requires
                    n * big >= 0x10_0000_0000_0000 * d,
                    n < 0x1000_0000_0000 * d,
                    d > 0,
                    n >= 0,
            ;
            two_to_small(k, 256);
        }
    }
    assert(big >= 512) by {
        two_to_adds(9, (k - 9) as nat);
        two_to_positive((k - 9) as nat);
        let rest = two_to((k - 9) as nat) as int;
        reveal_with_fuel(two_to, 10);
        assert(two_to(9) == 512);
        assert(512 * rest >= 512) by (nonlinear_arith)
            requires
                rest >= 1,
        ;
    }
    let x = nearest_double(n, d);
    let m = x.m as int;
    half_even_is_near(a, d);
    assert(x == (Dyadic { m: half_even(a, d), e: f }));
    assert(m <= 0x20_0000_0000_0000) by (nonlinear_arith)
        requires
            2 * (m * d - a) <= d,
            a < 0x20_0000_0000_0000 * d,
            d > 0,
    ;
    let p = (100 * m) as nat;
    scaled_down(p, 0);
    assert(two_to(0) == 1);
    let (b, j) = scale_down(p, 1, 0);
    assert(b <= 200);
    two_to_positive(j as nat);
    half_even_is_near(p, b);
    let m2 = half_even(p, b) as int;
    assert(times_hundred(x) == (Dyadic { m: half_even(p, b), e: f + j }));
    assert(j < 8) by {
        if j >= 8 {
            two_to_adds(8, (j - 8) as nat);
            two_to_positive((j - 8) as nat);
            reveal_with_fuel(two_to, 9);
            assert(two_to(8) == 256);
            let rest = two_to((j - 8) as nat) as int;
            assert(256 * rest >= 256) by (nonlinear_arith)
                requires
                    rest >= 1,
            ;
        }
    }
    let t = two_to((k - j) as nat) as int;
    two_to_positive((k - j) as nat);
    two_to_adds((k - j) as nat, j as nat);
    assert(((k - j) as nat) + (j as nat) == k);
    assert(t * b == big);
    let cc = c as int;
    let hundred = (100 * n) as int;
    assert(cc * d == hundred);
    assert(big * hundred == 100 * (n * big)) by (nonlinear_arith)
        requires
            hundred == 100 * n,
    ;
    assert(-100 <= 2 * (100 * m - big * cc) <= 100) by (nonlinear_arith)
        requires
            -d <= 2 * (m * d - a) <= d,
            a == n * big,
            big * (cc * d) == 100 * (n * big),
            d > 0,
    {
        assert(d * (100 * m - big * cc) == 100 * (m * d) - big * (cc * d)) by (nonlinear_arith);
    }
    assert(-t < 2 * m2 - 2 * (t * cc) < t) by (nonlinear_arith)
        requires
            -100 <= 2 * (100 * m - big * cc) <= 100,
            p == 100 * m,
            -b <= 2 * (m2 * b - p) <= b,
            b <= 200,
            b > 0,
            t * b == big,
            big >= 512,
    {
        assert((2 * m2 - 2 * (t * cc)) * b == 2 * (m2 * b - p) + 2 * (p - big * cc))
            by (nonlinear_arith)
            requires
                t * b == big,
        ;
    }
    assert((2 * m2 + t) / (2 * t) == cc) by (nonlinear_arith)
        requires
            -t < 2 * m2 - 2 * (t * cc) < t,
            t > 0,
    ;
}

/// A number is smaller than the power of ten with as many zeros as it has
/// digits.
pub proof fn digits_are_bounded(s: Seq<char>)
    requires
        all_digits(s),
    ensures
        digits_value(s) < ten_to(s.len()),
    decreases s.len(),
{
    if s.len() > 0 {
        let rest = s.drop_first();
        assert forall|i: int| 0 <= i < rest.len() implies input::is_digit(#[trigger] rest[i]) by {
            assert(rest[i] == s[i + 1]);
        }
        digits_are_bounded(rest);
        assert(input::is_digit(s[0]));
        let v = input::digit_value(s[0]) as int;
        let t = ten_to(rest.len()) as int;
        assert(v <= 9);
        assert(v * t <= 9 * t) by (nonlinear_arith)
            requires
                v <= 9,
                t >= 0,
        ;
    }
}

/// The number of cents of a text of whole dollars, with a point and one or two
/// more digits or without, is exact: a hundred times the dollars, and the cents
/// behind the point. With a minus sign in front it is the opposite.
#[verifier::spinoff_prover]
pub proof fn amounts_are_read_to_the_cent(whole: Seq<char>, fraction: Seq<char>)
    requires
        whole.len() > 0,
        all_digits(whole),
        all_digits(fraction),
        fraction.len() <= 2,
        digits_value(whole) < 0xfff_ffff_ffff,
    ensures
        ({
            let cents = 100 * digits_value(whole) + (if fraction.len() == 2 {
                digits_value(fraction)
            } else {
                10 * digits_value(fraction)
            });
            let s = if fraction.len() == 0 {
                whole
            } else {
                whole + seq!['.'] + fraction
            };
            &&& cents_of_number(s) == Some(cents as int)
            &&& cents_of_number(seq!['-'] + s) == Some(-(cents as int))
        }),
{
    let s = if fraction.len() == 0 {
        whole
    } else {
        whole + seq!['.'] + fraction
    };
    let at = whole.len() as int;
    assert forall|i: int| 0 <= i < at implies s[i] == whole[i] && s[i] != '.' by {
        assert(input::is_digit(whole[i]));
    }
    assert(fraction.len() > 0 ==> s[at] == '.');
    text::find_char_is(s, '.', at);
    assert(s.take(at) =~= whole);
    if fraction.len() > 0 {
        assert(s.skip(at + 1) =~= fraction);
    }
    assert(s[0] != '-') by {
        assert(input::is_digit(whole[0]));
    }
    assert((seq!['-'] + s).drop_first() =~= s);
    digits_are_bounded(fraction);
    cents_of_parts(digits_value(whole), digits_value(fraction), fraction.len());
}

#[verifier::spinoff_prover]
proof fn cents_of_parts(w: nat, f: nat, len: nat)
    requires
        len <= 2,
        f < ten_to(len),
        w < 0xfff_ffff_ffff,
    ensures
        ({
            let cents = 100 * w + (if len == 2 {
                f
            } else {
                10 * f
            });
            &&& double_cents(false, w * ten_to(len) + f, ten_to(len)) == cents
            &&& double_cents(true, w * ten_to(len) + f, ten_to(len)) == -cents
        }),
{
    assert(ten_to(0) == 1);
    assert(ten_to(1) == 10);
    assert(ten_to(2) == 100);
    let d = ten_to(len);
    let n = w * d + f;
    let cents = 100 * w + (if len == 2 {
        f
    } else {
        10 * f
    });
    if len == 0 {
        assert(d == 1 && f == 0);
        assert(n == w) by (nonlinear_arith)
            requires
                n == w * d + f,
                d == 1,
                f == 0,
        ;
        assert(cents * d == 100 * n) by (nonlinear_arith)
            requires
                d == 1,
                cents == 100 * w,
                n == w,
        ;
        assert(n < 0x1000_0000_0000 * d);
        assert(n < huge() * d);
    } else if len == 1 {
        assert(d == 10);
        assert(n == 10 * w + f) by (nonlinear_arith)
            requires
                n == w * d + f,
                d == 10,
        ;
        assert(cents * d == 100 * n) by (nonlinear_arith)
            requires
                d == 10,
                cents == 100 * w + 10 * f,
                n == 10 * w + f,
        ;
        assert(n < 0x1000_0000_0000 * d);
        assert(n < huge() * d);
    } else {
        assert(d == 100);
        assert(n == 100 * w + f) by (nonlinear_arith)
            requires
                n == w * d + f,
                d == 100,
        ;
        assert(cents * d == 100 * n) by (nonlinear_arith)
            requires
                d == 100,
                cents == 100 * w + f,
                n == 100 * w + f,
        ;
        assert(n < 0x1000_0000_0000 * d);
        assert(n < huge() * d);
    }
    whole_cents_survive(n, d, cents);
}

// ---- writing amounts ----

/// A number of cents as dollars with two decimals, without a sign.
pub open spec fn dollars(cents: nat) -> Seq<char> {
    text::decimal(cents / 100) + "."@ + text::two_digits(cents % 100)
}

/// Writes cents as dollars with two decimals.
pub fn dollar_text(cents: u64) -> (r: String)
    ensures
        r@ == dollars(cents as nat),
{
    let whole = text::number(cents / 100);
    let rest = text::at_least_two(cents % 100);
    text::cat3(whole.as_str(), ".", rest.as_str())
}

/// A signed number of cents as dollars: a minus sign, if any, then the amount.
pub open spec fn signed_dollars(cents: int) -> Seq<char> {
    if cents < 0 {
        "-"@ + dollars(text::magnitude(cents))
    } else {
        dollars(text::magnitude(cents))
    }
}

/// Writes signed cents as dollars with two decimals.
pub fn signed_dollar_text(cents: i64) -> (r: String)
    ensures
        r@ == signed_dollars(cents as int),
{
    let amount = dollar_text(text::abs_of(cents));
    if cents < 0 {
        text::cat2("-", amount.as_str())
    } else {
        amount
    }
}

} // verus!
