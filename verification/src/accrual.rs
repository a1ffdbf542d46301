//! Reward accrual in integer arithmetic: yearly compounding with interest credited in
//! whole units, pro-rata interest within the running year, and saturation at the
//! ceiling of the amount type.

use vstd::arithmetic::power::pow;
use vstd::prelude::*;

verus! {

/// Seconds in a year of 365 days.
pub const SECONDS_PER_YEAR: u64 = 31_536_000;

/// The annual rate is one part in this many: five percent.
pub const RATE_DIVISOR: u64 = 20;

/// The balance that `principal` has grown to after `years` whole years, the interest of
/// each year being a twentieth of the balance, rounded down, and added to it.
pub open spec fn compounded(principal: nat, years: nat) -> nat
    decreases years,
{
    if years == 0 {
        principal
    } else {
        let balance = compounded(principal, (years - 1) as nat);
        balance + balance / 20
    }
}

/// The balance that `principal` has grown to after `elapsed` seconds: compounded over the
/// whole years, plus the running year's interest in proportion to the time gone by,
/// rounded down.
pub open spec fn grown(principal: nat, elapsed: nat) -> nat {
    let balance = compounded(principal, elapsed / 31_536_000);
    balance + balance * (elapsed % 31_536_000) / (20 * 31_536_000)
}

/// Compound interest on `principal` over `elapsed` seconds: nothing for a time that is
/// not positive, and never more than a `u64` holds.
pub open spec fn compound_interest(principal: u64, elapsed: int) -> int {
    if elapsed <= 0 {
        0
    } else {
        let gain = grown(principal as nat, elapsed as nat) - principal;
        if gain >= u64::MAX {
            u64::MAX as int
        } else {
            gain
        }
    }
}

/// Linear interest on `principal` over `elapsed` seconds at the full principal per year,
/// rounded down: nothing for a time that is not positive, and never more than a `u64`
/// holds.
pub open spec fn linear_interest(principal: u64, elapsed: int) -> int {
    if elapsed <= 0 {
        0
    } else {
        let gain = principal * elapsed / 31_536_000;
        if gain >= u64::MAX {
            u64::MAX as int
        } else {
            gain
        }
    }
}

/// A balance never shrinks from one year to a later one.
pub proof fn lemma_compounded_increases(principal: nat, earlier: nat, later: nat)
    requires
        earlier <= later,
    ensures
        compounded(principal, earlier) <= compounded(principal, later),
    decreases later,
{
    if earlier < later {
        lemma_compounded_increases(principal, earlier, (later - 1) as nat);
    }
}

proof fn lemma_compounded_settles(principal: nat, year: nat, later: nat)
    requires
        year <= later,
        compounded(principal, year) / 20 == 0,
    ensures
        compounded(principal, later) == compounded(principal, year),
    decreases later,
{
    if year < later {
        lemma_compounded_settles(principal, year, (later - 1) as nat);
    }
}

proof fn lemma_partial_year_bound(balance: nat, rest: nat)
    requires
        rest < 31_536_000,
    ensures
        balance * rest / (20 * 31_536_000) <= balance / 20,
{
    assert(balance * rest <= balance * 31_536_000) by (nonlinear_arith)
        requires
            rest < 31_536_000,
    ;
    assert(balance * 31_536_000 / (20 * 31_536_000) == balance / 20) by (nonlinear_arith);
    assert(balance * rest / (20 * 31_536_000) <= balance * 31_536_000 / (20 * 31_536_000))
        by (nonlinear_arith)
        requires
            balance * rest <= balance * 31_536_000,
    ;
}

/// Compounding in whole units yields at least simple interest: every year credits at
/// least a twentieth of the principal, rounded down.
pub proof fn lemma_compounded_at_least_simple(principal: nat, years: nat)
    ensures
        compounded(principal, years) >= principal + years * (principal / 20),
    decreases years,
{
    if years > 0 {
        let before = (years - 1) as nat;
        lemma_compounded_at_least_simple(principal, before);
        lemma_compounded_increases(principal, 0, before);
        let step = principal / 20;
        assert(years * step == before * step + step) by (nonlinear_arith)
            requires
                years == before + 1,
        ;
    } else {
        assert(years * (principal / 20) == 0) by (nonlinear_arith)
            requires
                years == 0,
        ;
    }
}

/// Compounding in whole units never yields more than exact compounding at five percent:
/// the balance after `years` years is at most `principal * (21/20)^years`.
pub proof fn lemma_compounded_at_most_exact(principal: nat, years: nat)
    ensures
        compounded(principal, years) * pow(20, years) <= principal * pow(21, years),
    decreases years,
{
    reveal(pow);
    if years > 0 {
        let before = (years - 1) as nat;
        lemma_compounded_at_most_exact(principal, before);
        let b = compounded(principal, before) as int;
        let c = compounded(principal, years) as int;
        let p20 = pow(20, before);
        let p21 = pow(21, before);
        vstd::arithmetic::power::lemma_pow_positive(20, before);
        assert(20 * c <= 21 * b);
        assert(c * (20 * p20) <= principal * (21 * p21)) by (nonlinear_arith)
            requires
                20 * c <= 21 * b,
                b * p20 <= principal * p21,
                p20 > 0,
        {
            assert(c * (20 * p20) == (20 * c) * p20);
            assert((20 * c) * p20 <= (21 * b) * p20);
            assert((21 * b) * p20 == 21 * (b * p20));
            assert(principal * (21 * p21) == 21 * (principal * p21));
        }
    }
}

/// Compounding in whole units stays close to exact compounding at five percent: what
/// rounding down has cost after `years` years is less than `19 * ((21/20)^years - 1)`
/// units.
pub proof fn lemma_compounded_near_exact(principal: nat, years: nat)
    ensures
        compounded(principal, years) * pow(20, years) >= principal * pow(21, years) - 19 * (pow(
            21,
            years,
        ) - pow(20, years)),
    decreases years,
{
    reveal(pow);
    if years > 0 {
        let before = (years - 1) as nat;
        lemma_compounded_near_exact(principal, before);
        let b = compounded(principal, before) as int;
        let c = compounded(principal, years) as int;
        let p = principal as int;
        let p20 = pow(20, before);
        let p21 = pow(21, before);
        vstd::arithmetic::power::lemma_pow_positive(20, before);
        assert(20 * c >= 21 * b - 19);
        assert(c * (20 * p20) >= p * (21 * p21) - 19 * (21 * p21 - 20 * p20)) by (nonlinear_arith)
            requires
                20 * c >= 21 * b - 19,
                b * p20 >= p * p21 - 19 * (p21 - p20),
                p20 > 0,
        {
            assert(c * (20 * p20) == (20 * c) * p20);
            assert((20 * c) * p20 >= (21 * b - 19) * p20);
            assert((21 * b - 19) * p20 == 21 * (b * p20) - 19 * p20);
            assert(21 * (b * p20) >= 21 * (p * p21 - 19 * (p21 - p20)));
            assert(p * (21 * p21) == 21 * (p * p21));
        }
    }
}

/// A balance never shrinks as time goes by.
pub proof fn lemma_grown_increases(principal: nat, earlier: nat, later: nat)
    requires
        earlier <= later,
    ensures
        principal <= grown(principal, earlier) <= grown(principal, later),
{
    let y1 = earlier / 31_536_000;
    let y2 = later / 31_536_000;
    let r1 = earlier % 31_536_000;
    let r2 = later % 31_536_000;
    let b1 = compounded(principal, y1);
    let b2 = compounded(principal, y2);
    lemma_compounded_increases(principal, 0, y1);
    assert(0 <= b1 * r1 / (20 * 31_536_000)) by (nonlinear_arith)
        requires
            0 <= b1,
            0 <= r1,
    ;
    if y1 == y2 {
        assert(b1 * r1 / (20 * 31_536_000) <= b1 * r2 / (20 * 31_536_000)) by (nonlinear_arith)
            requires
                r1 <= r2,
                0 <= b1,
        ;
    } else {
        assert(y1 < y2);
        lemma_compounded_increases(principal, y1 + 1, y2);
        lemma_partial_year_bound(b1, r1);
        assert(0 <= b2 * r2 / (20 * 31_536_000)) by (nonlinear_arith)
            requires
                0 <= b2,
                0 <= r2,
        ;
    }
}

/// Compound interest never shrinks as time goes by.
pub proof fn lemma_compound_interest_increases(principal: u64, earlier: int, later: int)
    requires
        earlier <= later,
    ensures
        0 <= compound_interest(principal, earlier) <= compound_interest(principal, later)
            <= u64::MAX,
{
    if later > 0 {
        lemma_grown_increases(principal as nat, 0, later as nat);
        if earlier > 0 {
            lemma_grown_increases(principal as nat, earlier as nat, later as nat);
        }
    }
}

/// Compound interest accrued from `from` to `now` on `principal`.
pub fn accrued_compound(principal: u64, from: i64, now: i64) -> (interest: u64)
    ensures
        interest == compound_interest(principal, now - from),
{
    if now <= from {
        return 0;
    }
    let elapsed: u64 = (now as i128 - from as i128) as u64;
    let years: u64 = elapsed / SECONDS_PER_YEAR;
    let rest: u64 = elapsed % SECONDS_PER_YEAR;
    let limit: u128 = principal as u128 + u64::MAX as u128;
    let mut balance: u128 = principal as u128;
    let mut year: u64 = 0;
    proof {
        lemma_grown_increases(principal as nat, 0, elapsed as nat);
    }
    while year < years && balance / 20 > 0
        invariant
            year <= years,
            balance == compounded(principal as nat, year as nat),
            balance < limit,
            limit == principal + u64::MAX,
            elapsed == now - from,
            years == elapsed / 31_536_000,
            rest == elapsed % 31_536_000,
        decreases years - year,
    {
        balance = balance + balance / 20;
        year += 1;
        if balance >= limit {
            proof {
                lemma_compounded_increases(principal as nat, year as nat, years as nat);
                let full = compounded(principal as nat, years as nat);
                assert(0 <= full * (rest as nat) / (20 * 31_536_000)) by (nonlinear_arith)
                    requires
                        0 <= full,
                        0 <= rest,
                ;
            }
            return u64::MAX;
        }
    }
    proof {
        if year < years {
            lemma_compounded_settles(principal as nat, year as nat, years as nat);
        }
        lemma_compounded_increases(principal as nat, 0, years as nat);
        assert(balance * rest < 0x1_0000_0000_0000_0000_0000_0000) by (nonlinear_arith)
            requires
                balance < 0x2_0000_0000_0000_0000,
                rest < 0x200_0000,
        ;
        lemma_partial_year_bound(balance as nat, rest as nat);
    }
    let partial: u128 = balance * (rest as u128) / (20 * 31_536_000);
    let gain: u128 = balance + partial - principal as u128;
    if gain >= u64::MAX as u128 {
        u64::MAX
    } else {
        gain as u64
    }
}

/// Linear interest accrued from `from` to `now` on `principal`.
pub fn accrued_linear(principal: u64, from: i64, now: i64) -> (interest: u64)
    ensures
        interest == linear_interest(principal, now - from),
{
    if now <= from {
        return 0;
    }
    let elapsed: u128 = (now as i128 - from as i128) as u128;
    assert(principal * elapsed < 0x1_0000_0000_0000_0000_0000_0000_0000_0000)
        by (nonlinear_arith)
        requires
            principal < 0x1_0000_0000_0000_0000,
            elapsed < 0x1_0000_0000_0000_0000,
    ;
    let gain: u128 = principal as u128 * elapsed / 31_536_000;
    if gain >= u64::MAX as u128 {
        u64::MAX
    } else {
        gain as u64
    }
}

} // verus!
