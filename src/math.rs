//! Integer arithmetic behind the probability model: powers, binomial
//! coefficients and the binomial probability mass function, with chances
//! written in hundredths.

use vstd::prelude::*;

verus! {

/// `b` raised to the power `e`.
pub open spec fn power(b: nat, e: nat) -> nat
    decreases e,
{
    if e == 0 {
        1
    } else {
        b * power(b, (e - 1) as nat)
    }
}

/// The number of ways to choose `k` items out of `n`, by Pascal's rule.
pub open spec fn binomial_coefficient(n: nat, k: nat) -> nat
    decreases n,
{
    if k == 0 {
        1
    } else if n == 0 {
        0
    } else {
        binomial_coefficient((n - 1) as nat, (k - 1) as nat) + binomial_coefficient((n - 1) as nat, k)
    }
}

/// `v` bounded below by `lo` and above by `hi`.
pub open spec fn clamp_spec(v: int, lo: int, hi: int) -> int {
    if v < lo {
        lo
    } else if v > hi {
        hi
    } else {
        v
    }
}

/// The probability of exactly `k` successes in `n` independent trials,
/// each succeeding with chance `c` hundredths, scaled by `100^n`:
/// `C(n, k) * c^k * (100 - c)^(n - k)`.
pub open spec fn pmf_numerator(n: nat, k: nat, c: nat) -> nat {
    if k > n {
        0
    } else {
        binomial_coefficient(n, k) * power(c, k) * power((100 - c) as nat, (n - k) as nat)
    }
}

/// A probability as an exact fraction `numerator / denominator`.
#[derive(Debug, Copy, Clone, PartialEq, Eq, Structural)]
pub struct Probability {
    pub numerator: u128,
    pub denominator: u128,
}

/// Relies on num::clamp: `input` bounded below by `min` and above by `max`
/// (in debug builds it asserts `min <= max`).
#[verifier::external_body]
pub(crate) fn clamp(input: u8, min: u8, max: u8) -> (r: u8)
    requires
        min <= max,
    ensures
        r == clamp_spec(input as int, min as int, max as int),
{
    num::clamp(input, min, max)
}

/// Relies on num::integer::binomial: the binomial coefficient, which does not
/// overflow a `u8` for `n` up to 10.
#[verifier::external_body]
fn binomial(n: u8, k: u8) -> (r: u8)
    requires
        n <= 10,
    ensures
        r == binomial_coefficient(n as nat, k as nat),
{
    num::integer::binomial(n, k)
}

/// A power of a positive base is positive.
proof fn lemma_power_positive(b: nat, e: nat)
    requires
        b > 0,
    ensures
        power(b, e) > 0,
    decreases e,
{
    if e > 0 {
        lemma_power_positive(b, (e - 1) as nat);
        assert(b * power(b, (e - 1) as nat) > 0) by (nonlinear_arith)
            requires
                b > 0,
                power(b, (e - 1) as nat) > 0,
        ;
    }
}

/// Exponents add when powers of one base multiply.
proof fn lemma_power_add(b: nat, e1: nat, e2: nat)
    ensures
        power(b, e1 + e2) == power(b, e1) * power(b, e2),
    decreases e1,
{
    if e1 == 0 {
        assert(power(b, e1 + e2) == power(b, e2));
        assert(power(b, e1) == 1);
        assert(power(b, e1 + e2) == power(b, e1) * power(b, e2));
    } else {
        let d = (e1 - 1) as nat;
        lemma_power_add(b, d, e2);
        let x = power(b, d);
        let y = power(b, e2);
        assert(x * y >= 0 && b * x >= 0) by (nonlinear_arith)
            requires
                x >= 0,
                y >= 0,
                b >= 0,
        ;
        assert(power(b, d + e2) == x * y);
        assert(e1 + e2 == (d + e2) + 1);
        assert(power(b, e1 + e2) == b * power(b, d + e2));
        assert(power(b, e1) == b * power(b, d));
        assert(b * (x * y) == (b * x) * y) by (nonlinear_arith);
        assert(power(b, e1 + e2) == power(b, e1) * power(b, e2));
    }
}

/// A power grows with its base.
pub proof fn lemma_power_base_le(b1: nat, b2: nat, e: nat)
    requires
        b1 <= b2,
    ensures
        power(b1, e) <= power(b2, e),
    decreases e,
{
    if e > 0 {
        lemma_power_base_le(b1, b2, (e - 1) as nat);
        let p1 = power(b1, (e - 1) as nat);
        let p2 = power(b2, (e - 1) as nat);
        assert(b1 * p1 <= b2 * p2) by (nonlinear_arith)
            requires
                b1 <= b2,
                p1 <= p2,
        ;
    }
}

/// A hundred to the power of at most ten stays within `10^20`.
pub proof fn lemma_power_hundred_bound(e: nat)
    requires
        e <= 10,
    ensures
        power(100, e) <= 100_000_000_000_000_000_000,
{
    reveal_with_fuel(power, 11);
    lemma_power_add(100, e, (10 - e) as nat);
    lemma_power_positive(100, (10 - e) as nat);
    let a = power(100, e);
    let b = power(100, (10 - e) as nat);
    assert(a <= a * b) by (nonlinear_arith)
        requires
            b >= 1,
    ;
}

/// `b` raised to the power `e`, for `b` at most a hundred and `e` at most ten.
pub fn power_u128(b: u8, e: u8) -> (r: u128)
    requires
        b <= 100,
        e <= 10,
    ensures
        r == power(b as nat, e as nat),
{
    let mut r: u128 = 1;
    let mut i: u8 = 0;
    while i < e
        invariant
            i <= e,
            e <= 10,
            b <= 100,
            r == power(b as nat, i as nat),
        decreases e - i,
    {
        proof {
            lemma_power_base_le(b as nat, 100, (i + 1) as nat);
            lemma_power_hundred_bound((i + 1) as nat);
            assert(power(b as nat, (i + 1) as nat) == b * power(b as nat, i as nat));
        }
        r = (b as u128) * r;
        i = i + 1;
    }
    r
}

/// The probability of exactly `successes` successes in `num_tries`
/// independent trials that each succeed with chance `chance` hundredths,
/// as a numerator over `100^num_tries`.
pub fn binomial_pmf(num_tries: u8, successes: u8, chance: u8) -> (r: u128)
    requires
        num_tries <= 10,
        chance <= 100,
    ensures
        r == pmf_numerator(num_tries as nat, successes as nat, chance as nat),
{
    if successes > num_tries {
        return 0;
    }
    let ways = binomial(num_tries, successes);
    let hits = power_u128(chance, successes);
    let misses = power_u128(100 - chance, num_tries - successes);
    proof {
        let k = successes as nat;
        let m = (num_tries - successes) as nat;
        lemma_power_base_le(chance as nat, 100, k);
        lemma_power_base_le((100 - chance) as nat, 100, m);
        lemma_power_add(100, k, m);
        lemma_power_hundred_bound(num_tries as nat);
        let h = hits as nat;
        let s = misses as nat;
        assert(h * s <= power(100, k) * power(100, m)) by (nonlinear_arith)
            requires
                h <= power(100, k),
                s <= power(100, m),
        ;
        assert(ways as nat * (h * s) <= 255 * 100_000_000_000_000_000_000) by (nonlinear_arith)
            requires
                ways <= 255,
                h * s <= 100_000_000_000_000_000_000,
        ;
        lemma_power_hundred_bound(k);
        assert(ways as nat * h <= 255 * 100_000_000_000_000_000_000) by (nonlinear_arith)
            requires
                ways <= 255,
                h <= 100_000_000_000_000_000_000,
        ;
        assert(ways as nat * h * s == ways as nat * (h * s)) by (nonlinear_arith);
    }
    (ways as u128) * hits * misses
}

} // verus!
