use vstd::prelude::*;

verus! {

/// Fee rates are parts per million.
pub const FEE_DENOMINATOR: u128 = 1_000_000;

/// What is passed on of `amount_with_fee` at `fee_rate` parts per million:
/// the remaining share, rounded down, so that the rounding favours the fee.
pub open spec fn amount_without_fee(amount_with_fee: int, fee_rate: int) -> int {
    amount_with_fee * (1_000_000 - fee_rate) / 1_000_000
}

/// The fee kept of `amount_with_fee` at `fee_rate`.
pub open spec fn fee_of(amount_with_fee: int, fee_rate: int) -> int {
    amount_with_fee - amount_without_fee(amount_with_fee, fee_rate)
}

/// Computes `amount_without_fee` without leaving the range of `u128`, by
/// splitting the amount into whole millions and a remainder.
pub fn amount_after_fee(amount_with_fee: u128, fee_rate: u128) -> (r: u128)
    requires
        fee_rate < FEE_DENOMINATOR,
    ensures
        r == amount_without_fee(amount_with_fee as int, fee_rate as int),
        r <= amount_with_fee,
{
    let keep: u128 = FEE_DENOMINATOR - fee_rate;
    let whole: u128 = amount_with_fee / FEE_DENOMINATOR;
    let rest: u128 = amount_with_fee % FEE_DENOMINATOR;
    proof {
        lemma_split_share(amount_with_fee as int, keep as int);
    }
    whole * keep + rest * keep / FEE_DENOMINATOR
}

proof fn lemma_split_share(a: int, keep: int)
    requires
        0 <= a,
        0 < keep <= 1_000_000,
    ensures
        (a / 1_000_000) * keep + (a % 1_000_000) * keep / 1_000_000 == a * keep / 1_000_000,
        (a / 1_000_000) * keep <= a,
        (a % 1_000_000) * keep < 1_000_000 * 1_000_000,
        a * keep / 1_000_000 <= a,
{
    let m: int = 1_000_000;
    let q = a / m;
    let r = a % m;
    assert(a == q * m + r && 0 <= r < m) by {
        vstd::arithmetic::div_mod::lemma_fundamental_div_mod(a, m);
    }
    assert(a * keep == (q * keep) * m + r * keep) by (nonlinear_arith)
        requires
            a == q * m + r,
    ;
    assert(r * keep >= 0) by (nonlinear_arith)
        requires
            r >= 0,
            keep > 0,
    ;
    assert(((q * keep) * m + r * keep) / m == q * keep + (r * keep) / m) by {
        vstd::arithmetic::div_mod::lemma_fundamental_div_mod_converse(
            (q * keep) * m + r * keep,
            m,
            q * keep + (r * keep) / m,
            (r * keep) % m,
        );
        vstd::arithmetic::div_mod::lemma_fundamental_div_mod(r * keep, m);
    }
    assert(q * keep <= q * m) by (nonlinear_arith)
        requires
            q >= 0,
            keep <= m,
    ;
    assert(r * keep < m * m) by (nonlinear_arith)
        requires
            0 <= r < m,
            0 < keep <= m,
    ;
    assert(a * keep <= a * m) by (nonlinear_arith)
        requires
            a >= 0,
            keep <= m,
    ;
    vstd::arithmetic::div_mod::lemma_div_by_multiple(a, m);
    vstd::arithmetic::div_mod::lemma_div_is_ordered(a * keep, a * m, m);
}

} // verus!

verus! {

/// For any deposit and any fee rate below one million parts per million, what
/// is passed on and the fee add up to the deposit, neither is negative, and the
/// fee is the deposit's share at the fee rate rounded up.
pub proof fn lemma_fee_conservation(amount_with_fee: u128, fee_rate: u128)
    requires
        fee_rate < FEE_DENOMINATOR,
    ensures
        amount_without_fee(amount_with_fee as int, fee_rate as int) + fee_of(
            amount_with_fee as int,
            fee_rate as int,
        ) == amount_with_fee,
        0 <= amount_without_fee(amount_with_fee as int, fee_rate as int) <= amount_with_fee,
        fee_of(amount_with_fee as int, fee_rate as int) == (amount_with_fee * fee_rate + 999_999)
            / 1_000_000,
{
    let m: int = 1_000_000;
    let a = amount_with_fee as int;
    let f = fee_rate as int;
    let x = a * f;
    assert(x >= 0) by (nonlinear_arith)
        requires
            x == a * f,
            a >= 0,
            f >= 0,
    ;
    let c = (x + m - 1) / m;
    let s = (x + m - 1) % m;
    vstd::arithmetic::div_mod::lemma_fundamental_div_mod(x + m - 1, m);
    assert(x + m - 1 == c * m + s && 0 <= s < m);
    assert(a * (m - f) == (a - c) * m + (m - 1 - s)) by (nonlinear_arith)
        requires
            x == a * f,
            x + m - 1 == c * m + s,
    ;
    vstd::arithmetic::div_mod::lemma_fundamental_div_mod_converse(
        a * (m - f),
        m,
        a - c,
        m - 1 - s,
    );
    lemma_split_share(a, m - f);
}

} // verus!
