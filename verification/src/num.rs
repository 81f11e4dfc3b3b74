//! Exact decimal arithmetic for prices and pricing ratios.
//!
//! A [`Decimal`] is `mantissa / 10^exp`. The gateway's ratio tables hold plain
//! JSON numbers, so a derived ratio is only publishable when the quotient of
//! the two prices has a finite decimal expansion; [`dec_div`] finds that
//! expansion or reports that none exists within the supported range.

use vstd::prelude::*;
use vstd::arithmetic::mul::*;
use vstd::arithmetic::div_mod::*;

verus! {

/// A decimal number `mantissa / 10^exp`: the library's representation of
/// per-million-token prices and of derived pricing ratios.
#[derive(Clone, Copy, PartialEq, Eq, Structural, Debug)]
pub struct Decimal {
    pub mantissa: u64,
    pub exp: u32,
}

pub open spec fn pow10(e: nat) -> int
    decreases e,
{
    if e == 0 {
        1
    } else {
        10 * pow10((e - 1) as nat)
    }
}

pub proof fn lemma_pow10_pos(e: nat)
    ensures
        pow10(e) >= 1,
    decreases e,
{
    if e > 0 {
        lemma_pow10_pos((e - 1) as nat);
    }
}

impl Decimal {
    /// Well-formed enough to take part in a quotient computation: the scale
    /// stays within what a 64-bit power of ten can express.
    pub open spec fn wf(self) -> bool {
        self.exp <= 19
    }

    /// The exact rational value is `self.num() / self.den()`.
    pub open spec fn num(self) -> int {
        self.mantissa as int
    }

    pub open spec fn den(self) -> int {
        pow10(self.exp as nat)
    }
}

/// `10^e` as an executable value.
pub fn pow10_u64(e: u32) -> (r: u64)
    requires
        e <= 19,
    ensures
        r == pow10(e as nat),
{
    let mut r: u64 = 1;
    let mut i: u32 = 0;
    proof {
        reveal_with_fuel(pow10, 20);
        assert(pow10(19) == 10_000_000_000_000_000_000);
    }
    while i < e
        invariant
            i <= e <= 19,
            r == pow10(i as nat),
            pow10(19) == 10_000_000_000_000_000_000,
        decreases e - i,
    {
        proof {
            lemma_pow10_monotone(i as nat + 1, 19);
        }
        r = r * 10;
        i = i + 1;
    }
    r
}

pub proof fn lemma_pow10_monotone(a: nat, b: nat)
    requires
        a <= b,
    ensures
        pow10(a) <= pow10(b),
    decreases b,
{
    if a < b {
        lemma_pow10_monotone(a, (b - 1) as nat);
        lemma_pow10_pos((b - 1) as nat);
    }
}

/// The search for the finite decimal expansion of `n / d`: the smallest
/// `e <= 38` with `d` dividing `n * 10^e` and a quotient that fits in `u64`,
/// provided every intermediate `n * 10^e` stays within `u128`.
pub open spec fn quot_search(n: int, d: int, e: nat) -> Option<(int, int)>
    decreases 39 - e,
{
    if e > 38 {
        None
    } else if n % d == 0 {
        if n / d <= u64::MAX as int {
            Some((n / d, e as int))
        } else {
            None
        }
    } else if n * 10 > u128::MAX as int {
        None
    } else {
        quot_search(n * 10, d, e + 1)
    }
}

/// What a successful search means mathematically: the returned pair is the
/// exact quotient, in its canonical form (no trailing zero in the mantissa
/// unless the exponent is zero).
pub proof fn lemma_quot_search_exact(n: int, d: int, e: nat)
    requires
        d >= 1,
        n >= 0,
        quot_search(n, d, e) is Some,
    ensures
        ({
            let (m, e2) = quot_search(n, d, e)->Some_0;
            &&& e <= e2 <= 38
            &&& 0 <= m <= u64::MAX as int
            &&& m * d == n * pow10((e2 - e) as nat)
            &&& (e2 == e || m % 10 != 0)
        }),
    decreases 39 - e,
{
    let (m, e2) = quot_search(n, d, e)->Some_0;
    if n % d == 0 {
        lemma_fundamental_div_mod(n, d);
        lemma_div_pos_is_pos(n, d);
        assert(m * d == n * pow10(0)) by {
            assert(pow10(0) == 1);
            assert((n / d) * d == n) by (nonlinear_arith)
                requires
                    n == d * (n / d) + n % d,
                    n % d == 0,
            ;
        }
    } else {
        lemma_quot_search_exact(n * 10, d, e + 1);
        assert(m * d == (n * 10) * pow10((e2 - e - 1) as nat));
        assert((n * 10) * pow10((e2 - e - 1) as nat) == n * pow10((e2 - e) as nat)) by {
            assert(pow10((e2 - e) as nat) == 10 * pow10((e2 - e - 1) as nat));
            lemma_mul_is_associative(n, 10, pow10((e2 - e - 1) as nat));
        }
        if e2 == e + 1 {
            assert(m * d == n * 10);
            if m % 10 == 0 {
                lemma_fundamental_div_mod(m, 10);
                assert(m == 10 * (m / 10));
                assert((10 * (m / 10)) * d == (m / 10) * d * 10) by (nonlinear_arith);
                assert((m / 10) * d * 10 == n * 10);
                assert((m / 10) * d == n) by (nonlinear_arith)
                    requires
                        (m / 10) * d * 10 == n * 10,
                ;
                lemma_mod_multiples_basic(m / 10, d);
                assert(n % d == 0);
                assert(false);
            }
        }
    }
}

/// The finite decimal expansion of `n / d`, if one exists in range.
pub fn dec_div(n: u128, d: u128) -> (r: Option<Decimal>)
    requires
        1 <= d,
    ensures
        match r {
            Some(v) => quot_search(n as int, d as int, 0) == Some((v.mantissa as int, v.exp as int)),
            None => quot_search(n as int, d as int, 0) is None,
        },
{
    let mut cur: u128 = n;
    let mut e: u32 = 0;
    loop
        invariant
            1 <= d,
            e <= 39,
            quot_search(n as int, d as int, 0) == quot_search(cur as int, d as int, e as nat),
        decreases 39 - e,
    {
        if e > 38 {
            return None;
        }
        if cur % d == 0 {
            let q: u128 = cur / d;
            if q <= u64::MAX as u128 {
                return Some(Decimal { mantissa: q as u64, exp: e });
            } else {
                return None;
            }
        }
        if cur > u128::MAX / 10 {
            proof {
                assert((cur as int) * 10 > u128::MAX as int) by (nonlinear_arith)
                    requires
                        cur as int > (u128::MAX as int) / 10,
                        u128::MAX as int == ((u128::MAX as int) / 10) * 10 + 5,
                ;
            }
            return None;
        }
        proof {
            assert((cur as int) * 10 <= u128::MAX as int) by (nonlinear_arith)
                requires
                    cur as int <= (u128::MAX as int) / 10,
                    u128::MAX as int == ((u128::MAX as int) / 10) * 10 + 5,
            ;
        }
        cur = cur * 10;
        e = e + 1;
    }
}

/// The quotient search applied to two decimals `a / b`, over their exact
/// rational values.
pub open spec fn quot_spec(a: Decimal, b: Decimal) -> Option<(int, int)> {
    quot_search(a.num() * b.den(), b.num() * a.den(), 0)
}

/// The finite decimal expansion of `a / b`, if one exists in range.
pub fn quotient(a: Decimal, b: Decimal) -> (r: Option<Decimal>)
    requires
        a.wf(),
        b.wf(),
        b.mantissa >= 1,
    ensures
        match r {
            Some(v) => quot_spec(a, b) == Some((v.mantissa as int, v.exp as int)),
            None => quot_spec(a, b) is None,
        },
{
    let pa: u64 = pow10_u64(a.exp);
    let pb: u64 = pow10_u64(b.exp);
    proof {
        reveal_with_fuel(pow10, 20);
        assert(pow10(19) == 10_000_000_000_000_000_000);
        lemma_pow10_monotone(a.exp as nat, 19);
        lemma_pow10_monotone(b.exp as nat, 19);
        lemma_pow10_pos(a.exp as nat);
        lemma_pow10_pos(b.exp as nat);
        lemma_mul_upper_bound(a.mantissa as int, u64::MAX as int, pb as int, pow10(19));
        lemma_mul_upper_bound(b.mantissa as int, u64::MAX as int, pa as int, pow10(19));
        assert(b.num() * a.den() >= 1) by (nonlinear_arith)
            requires
                b.num() >= 1,
                a.den() >= 1,
        ;
    }
    let n: u128 = (a.mantissa as u128) * (pb as u128);
    let d: u128 = (b.mantissa as u128) * (pa as u128);
    dec_div(n, d)
}

/// A successful quotient is exact: `v = a / b` as rationals, and `v` is in
/// canonical form.
pub proof fn lemma_quotient_exact(a: Decimal, b: Decimal, v: Decimal)
    requires
        b.num() * a.den() >= 1,
        quot_spec(a, b) == Some((v.mantissa as int, v.exp as int)),
    ensures
        v.num() * (b.num() * a.den()) == (a.num() * b.den()) * pow10(v.exp as nat),
        v.exp == 0 || v.mantissa % 10 != 0,
{
    lemma_pow10_pos(a.exp as nat);
    lemma_pow10_pos(b.exp as nat);
    assert(a.num() * b.den() >= 0) by (nonlinear_arith)
        requires
            a.num() >= 0,
            b.den() >= 1,
    ;
    lemma_quot_search_exact(a.num() * b.den(), b.num() * a.den(), 0);
}

} // verus!
