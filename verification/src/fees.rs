//! Fee arithmetic: splitting a gross amount into platform fee, network fee
//! and the merchant's share, rounding each fee up.

use vstd::prelude::*;

use crate::errors::SettlementError;
use crate::types::{BPS_DENOMINATOR, FeeSplit, SettlementRule};

verus! {

/// Integer division that truncates toward zero, as Rust's `/` does.
pub open spec fn trunc_div(a: int, d: int) -> int {
    if a >= 0 {
        a / d
    } else {
        -((-a) / d)
    }
}

/// The fee on `amount` at `bps` basis points: `(amount * bps + 9 999) / 10 000`,
/// which rounds the exact share up when `amount * bps` is not negative.
pub open spec fn ceil_fee(amount: int, bps: int) -> int {
    trunc_div(amount * bps + (BPS_DENOMINATOR - 1), BPS_DENOMINATOR as int)
}

/// The larger of a rule's two fee rates.
pub open spec fn max_fee_bps(rule: SettlementRule) -> u32 {
    if rule.platform_fee_bps >= rule.network_fee_bps {
        rule.platform_fee_bps
    } else {
        rule.network_fee_bps
    }
}

/// The split is refused when `amount * max_bps + 9 999` could exceed `i128::MAX`.
pub open spec fn split_would_overflow(amount: i128, rule: SettlementRule) -> bool {
    max_fee_bps(rule) > 0 && amount > (i128::MAX - (BPS_DENOMINATOR - 1)) / (max_fee_bps(
        rule,
    ) as int)
}

/// Negative amounts are computed only while `amount * bps` stays in `i128`.
pub open spec fn split_in_range(amount: i128, rule: SettlementRule) -> bool {
    amount >= 0 || (amount * rule.platform_fee_bps >= i128::MIN && amount * rule.network_fee_bps
        >= i128::MIN)
}

/// The split of `amount` under `rule`, when it does not overflow.
pub open spec fn spec_split(amount: i128, rule: SettlementRule) -> FeeSplit {
    let pf = ceil_fee(amount as int, rule.platform_fee_bps as int);
    let nf = ceil_fee(amount as int, rule.network_fee_bps as int);
    FeeSplit {
        gross_amount: amount,
        platform_fee_amount: pf as i128,
        network_fee_amount: nf as i128,
        merchant_amount: (amount - pf - nf) as i128,
    }
}

/// The split that `calculate_split` returns when it succeeds.
pub open spec fn is_split_of(split: FeeSplit, amount: i128, rule: SettlementRule) -> bool {
    &&& split.gross_amount == amount
    &&& split.platform_fee_amount == ceil_fee(amount as int, rule.platform_fee_bps as int)
    &&& split.network_fee_amount == ceil_fee(amount as int, rule.network_fee_bps as int)
    &&& split.merchant_amount == amount - split.platform_fee_amount - split.network_fee_amount
}

proof fn lemma_product_under_bound(a: int, p: int, m: int, q: int)
    requires
        0 <= a,
        0 <= p <= m,
        0 < m,
        0 <= q,
        a <= q / m,
    ensures
        a * p <= q,
{
    assert(a * p <= a * m) by (nonlinear_arith)
        requires
            0 <= a,
            p <= m,
    ;
    assert(a * m <= (q / m) * m) by (nonlinear_arith)
        requires
            0 <= a <= q / m,
            0 < m,
    ;
    assert((q / m) * m <= q) by (nonlinear_arith)
        requires
            0 < m,
            0 <= q,
    ;
}

proof fn lemma_div_bounds(n: int)
    requires
        -170141183460469231731687303715884105728 <= n <= 170141183460469231731687303715884105727,
    ensures
        n >= 0 ==> 0 <= n / 10000 <= 17014118346046923173168730371588410,
        n < 0 ==> 0 <= (-n) / 10000 <= 17014118346046923173168730371588410,
{
    if n >= 0 {
        assert(0 <= n / 10000 <= 17014118346046923173168730371588410) by (nonlinear_arith)
            requires
                0 <= n <= 170141183460469231731687303715884105727,
        ;
    } else {
        assert(0 <= (-n) / 10000 <= 17014118346046923173168730371588410) by (nonlinear_arith)
            requires
                0 < -n <= 170141183460469231731687303715884105728,
        ;
    }
}

/// One fee, rounded as `ceil_fee` says.
fn fee_amount(amount: i128, bps: u32) -> (r: i128)
    requires
        amount * bps >= i128::MIN,
        amount * bps + (BPS_DENOMINATOR - 1) <= i128::MAX,
    ensures
        r == ceil_fee(amount as int, bps as int),
        -17014118346046923173168730371588410 <= r <= 17014118346046923173168730371588410,
        amount >= 0 ==> r >= 0,
        amount < 0 ==> r <= 0,
{
    let denom: i128 = 10_000;
    let n: i128 = amount * (bps as i128) + (denom - 1);
    proof {
        lemma_div_bounds(n as int);
        if amount >= 0 {
            assert(amount * bps >= 0) by (nonlinear_arith)
                requires
                    amount >= 0,
            ;
        } else {
            assert(amount * bps <= 0) by (nonlinear_arith)
                requires
                    amount < 0,
            ;
        }
    }
    if n >= 0 {
        n / denom
    } else {
        -((-n) / denom)
    }
}

/// Computes the platform, network and merchant amounts for `amount` under
/// `rule`, rounding each fee up.
///
/// Each fee is rounded up on its own, so for small amounts the two fees can
/// together exceed the gross amount and the merchant amount is then negative;
/// the three parts always add up to the gross amount. An amount large enough
/// that `amount * bps + 9 999` could overflow is refused with `AmountOverflow`
/// before any multiplication.
pub fn calculate_split(amount: i128, rule: &SettlementRule) -> (r: Result<FeeSplit, SettlementError>)
    requires
        split_in_range(amount, *rule),
    ensures
        split_would_overflow(amount, *rule) ==> r == Err::<FeeSplit, SettlementError>(
            SettlementError::AmountOverflow,
        ),
        !split_would_overflow(amount, *rule) ==> (r matches Ok(split) && is_split_of(
            split,
            amount,
            *rule,
        )),
        !split_would_overflow(amount, *rule) ==> r == Ok::<FeeSplit, SettlementError>(
            spec_split(amount, *rule),
        ),
{
    let denom: i128 = 10_000;
    let max_bps: u32 = if rule.platform_fee_bps >= rule.network_fee_bps {
        rule.platform_fee_bps
    } else {
        rule.network_fee_bps
    };
    let max_bps_wide: i128 = max_bps as i128;
    if max_bps_wide > 0 && amount > (i128::MAX - (denom - 1)) / max_bps_wide {
        return Err(SettlementError::AmountOverflow);
    }
    proof {
        if amount >= 0 {
            if max_bps > 0 {
                lemma_product_under_bound(
                    amount as int,
                    rule.platform_fee_bps as int,
                    max_bps as int,
                    i128::MAX - 9999,
                );
                lemma_product_under_bound(
                    amount as int,
                    rule.network_fee_bps as int,
                    max_bps as int,
                    i128::MAX - 9999,
                );
            }
            assert(amount * rule.platform_fee_bps >= 0) by (nonlinear_arith)
                requires
                    amount >= 0,
            ;
            assert(amount * rule.network_fee_bps >= 0) by (nonlinear_arith)
                requires
                    amount >= 0,
            ;
        } else {
            assert(amount * rule.platform_fee_bps <= 0) by (nonlinear_arith)
                requires
                    amount < 0,
            ;
            assert(amount * rule.network_fee_bps <= 0) by (nonlinear_arith)
                requires
                    amount < 0,
            ;
        }
    }
    let platform_fee_amount: i128 = fee_amount(amount, rule.platform_fee_bps);
    let network_fee_amount: i128 = fee_amount(amount, rule.network_fee_bps);
    let merchant_amount: i128 = amount - platform_fee_amount - network_fee_amount;
    Ok(
        FeeSplit {
            gross_amount: amount,
            platform_fee_amount,
            network_fee_amount,
            merchant_amount,
        },
    )
}


/// The three parts of a split always add up to the gross amount, and the
/// merchant amount is negative exactly when the rounded fees exceed it.
pub proof fn lemma_split_conserves_gross(split: FeeSplit, amount: i128, rule: SettlementRule)
    requires
        is_split_of(split, amount, rule),
    ensures
        split.merchant_amount + split.platform_fee_amount + split.network_fee_amount
            == split.gross_amount,
        split.merchant_amount < 0 <==> split.platform_fee_amount + split.network_fee_amount
            > split.gross_amount,
{
}

/// A fee is never under-collected: it is the exact share `amount * bps / 10 000`
/// rounded up, so it exceeds the exact share by less than one unit, and it is
/// never negative.
pub proof fn lemma_fee_rounds_up(amount: int, bps: int)
    requires
        amount >= 0,
        bps >= 0,
    ensures
        ceil_fee(amount, bps) >= 0,
        ceil_fee(amount, bps) * BPS_DENOMINATOR >= amount * bps,
        ceil_fee(amount, bps) * BPS_DENOMINATOR < amount * bps + BPS_DENOMINATOR,
{
    let x = amount * bps;
    assert(x >= 0) by (nonlinear_arith)
        requires
            x == amount * bps,
            amount >= 0,
            bps >= 0,
    ;
    let c = (x + 9999) / 10000;
    assert(c * 10000 <= x + 9999 < c * 10000 + 10000) by (nonlinear_arith)
        requires
            x >= 0,
            c == (x + 9999) / 10000,
    ;
    assert(c >= 0) by (nonlinear_arith)
        requires
            x >= 0,
            c == (x + 9999) / 10000,
    ;
}

/// A zero rate takes nothing.
pub proof fn lemma_zero_rate_takes_nothing(amount: int)
    requires
        amount >= 0,
    ensures
        ceil_fee(amount, 0) == 0,
{
    assert(amount * 0 == 0);
}

/// When the two rates add up to at most 100%, rounding costs the merchant at
/// most one unit: the merchant amount is never below -1.
pub proof fn lemma_merchant_amount_at_least_minus_one(
    split: FeeSplit,
    amount: i128,
    rule: SettlementRule,
)
    requires
        is_split_of(split, amount, rule),
        amount >= 0,
        rule.platform_fee_bps + rule.network_fee_bps <= BPS_DENOMINATOR,
    ensures
        split.merchant_amount >= -1,
{
    let p = rule.platform_fee_bps as int;
    let n = rule.network_fee_bps as int;
    let a = amount as int;
    lemma_fee_rounds_up(a, p);
    lemma_fee_rounds_up(a, n);
    let pf = split.platform_fee_amount as int;
    let nf = split.network_fee_amount as int;
    assert(a * p + a * n <= a * 10000) by (nonlinear_arith)
        requires
            a >= 0,
            p + n <= 10000,
            p >= 0,
            n >= 0,
    ;
    assert(pf + nf <= a + 1) by (nonlinear_arith)
        requires
            pf * 10000 < a * p + 10000,
            nf * 10000 < a * n + 10000,
            a * p + a * n <= a * 10000,
    ;
}

} // verus!
