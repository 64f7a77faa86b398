//! What holds of the pool's rules for all pools and all amounts.

use vstd::prelude::*;
use crate::amounts::SCALE;
use crate::arith::{lemma_floor_bounds, lemma_floor_monotone, lemma_mul_div_part};
use crate::model::{init_rejection, PoolState};

verus! {

/// No pool is created with a price of zero, and none with a minimum fee
/// above the maximum fee; every other choice of parameters gives a well
/// formed, empty pool.
pub proof fn creation_rules(price: int, fee_min: int, fee_max: int, target: int)
    requires
        0 <= price <= u64::MAX,
        0 <= fee_min <= u64::MAX,
        0 <= fee_max <= u64::MAX,
        0 <= target <= u64::MAX,
    ensures
        price == 0 ==> init_rejection(price, fee_min, fee_max) is Some,
        fee_min > fee_max ==> init_rejection(price, fee_min, fee_max) is Some,
        init_rejection(price, fee_min, fee_max) is None ==> PoolState::fresh(
            price,
            fee_min,
            fee_max,
            target,
        ).wf(),
{
}

/// The first deposit into a new pool is accepted whatever its size, and
/// issues exactly as many shares as base tokens were deposited.
pub proof fn first_deposit_is_one_to_one(
    price: int,
    fee_min: int,
    fee_max: int,
    target: int,
    deposit: int,
)
    requires
        PoolState::fresh(price, fee_min, fee_max, target).wf(),
        0 <= deposit <= u64::MAX,
    ensures
        PoolState::fresh(price, fee_min, fee_max, target).deposit_rejection(deposit) is None,
        PoolState::fresh(price, fee_min, fee_max, target).shares_for(deposit) == deposit,
        PoolState::fresh(price, fee_min, fee_max, target).after_deposit(deposit).shares
            == deposit,
        PoolState::fresh(price, fee_min, fee_max, target).after_deposit(deposit).token
            == deposit,
{
}

/// A deposit into a pool that has shares in issue never dilutes them: the
/// shares issued are worth no more than the deposit, so the number of shares
/// per base token of pool value does not rise.
pub proof fn deposit_never_dilutes(s: PoolState, deposit: int)
    requires
        s.wf(),
        0 <= deposit,
        s.shares > 0,
        s.deposit_rejection(deposit) is None,
    ensures
        s.after_deposit(deposit).wf(),
        s.after_deposit(deposit).value() == s.value() + deposit,
        0 <= s.shares_for(deposit),
        s.shares_for(deposit) * s.value() <= s.shares * deposit,
        s.after_deposit(deposit).shares * s.value() <= s.shares * s.after_deposit(
            deposit,
        ).value(),
{
    let issued = s.shares_for(deposit);
    let value = s.value();
    assert(0 <= s.staked * s.price) by (nonlinear_arith)
        requires
            0 <= s.staked,
            0 <= s.price,
    ;
    assert(value > 0);
    assert(0 <= s.shares * deposit) by (nonlinear_arith)
        requires
            0 <= s.shares,
            0 <= deposit,
    ;
    lemma_floor_bounds(s.shares * deposit, value);
    assert((s.shares + issued) * value <= s.shares * (value + deposit)) by (nonlinear_arith)
        requires
            issued * value <= s.shares * deposit,
    ;
}

/// The fee rate lies between the pool's two bounds, is the minimum wherever
/// the remaining balance has reached the target, and never falls as the
/// remaining balance shrinks.
pub proof fn fee_rate_rises_as_pool_drains(s: PoolState, lower: int, higher: int)
    requires
        s.wf(),
        0 <= lower <= higher,
    ensures
        s.fee_min <= s.fee_rate(higher) <= s.fee_rate(lower) <= s.fee_max,
        higher >= s.target ==> s.fee_rate(higher) == s.fee_min,
        lower == 0 && s.target > 0 ==> s.fee_rate(lower) == s.fee_max,
{
    let spread = s.fee_max - s.fee_min;
    if lower < s.target {
        lemma_mul_div_part(spread, lower, s.target);
        if higher < s.target {
            lemma_mul_div_part(spread, higher, s.target);
            assert(0 <= spread * lower <= spread * higher) by (nonlinear_arith)
                requires
                    0 <= spread,
                    0 <= lower <= higher,
            ;
            lemma_floor_monotone(spread * lower, spread * higher, s.target);
        }
        if lower == 0 {
            assert(spread * lower == 0) by (nonlinear_arith)
                requires
                    lower == 0,
            ;
        }
    }
}

/// Of two swaps that the pool's balance covers, the larger is never charged
/// the lower fee rate.
pub proof fn larger_swap_never_pays_lower_rate(s: PoolState, smaller: int, larger: int)
    requires
        s.wf(),
        0 <= smaller <= larger,
        s.swap_gross(larger) <= s.token,
    ensures
        0 <= s.swap_gross(smaller) <= s.swap_gross(larger),
        s.swap_fee_rate(smaller) <= s.swap_fee_rate(larger),
{
    assert(0 <= s.price * smaller <= s.price * larger) by (nonlinear_arith)
        requires
            0 <= s.price,
            0 <= smaller <= larger,
    ;
    lemma_floor_monotone(s.price * smaller, s.price * larger, SCALE as int);
    lemma_floor_bounds(s.price * smaller, SCALE as int);
    fee_rate_rises_as_pool_drains(
        s,
        s.token - s.swap_gross(larger),
        s.token - s.swap_gross(smaller),
    );
}

/// An accepted swap pays out no more than the gross worth of the staked
/// tokens, which in turn is no more than the pool holds, and leaves a well
/// formed pool.
pub proof fn swap_pays_within_balance(s: PoolState, staked: int)
    requires
        s.wf(),
        s.swap_rejection(staked) is None,
    ensures
        0 <= s.swap_payout(staked) <= s.swap_gross(staked) <= s.token,
        s.after_swap(staked).wf(),
        s.fee_min <= s.swap_fee_rate(staked) <= s.fee_max,
{
    assert(0 <= s.price * staked) by (nonlinear_arith)
        requires
            0 <= s.price,
            0 <= staked,
    ;
    let gross = s.swap_gross(staked);
    fee_rate_rises_as_pool_drains(s, s.token - gross, s.token - gross);
    assert(0 <= gross * s.swap_fee_rate(staked)) by (nonlinear_arith)
        requires
            0 <= gross,
            0 <= s.swap_fee_rate(staked),
    ;
}

/// Redeeming a valid number of shares hands out, of each balance, the part
/// that those shares are of all shares in issue, rounded down: never more
/// than the exact proportion and less than one unit below it.
pub proof fn withdrawal_is_proportional(s: PoolState, lp: int)
    requires
        s.wf(),
        s.withdrawal_rejection(lp) is None,
    ensures
        0 <= s.withdrawn_token(lp) <= s.token,
        0 <= s.withdrawn_staked(lp) <= s.staked,
        s.withdrawn_token(lp) * s.shares <= s.token * lp < (s.withdrawn_token(lp) + 1)
            * s.shares,
        s.withdrawn_staked(lp) * s.shares <= s.staked * lp < (s.withdrawn_staked(lp) + 1)
            * s.shares,
        lp == s.shares ==> s.withdrawn_token(lp) == s.token && s.withdrawn_staked(lp)
            == s.staked,
        s.after_withdrawal(lp).token == s.token - s.withdrawn_token(lp),
        s.after_withdrawal(lp).staked == s.staked - s.withdrawn_staked(lp),
        s.after_withdrawal(lp).shares == s.shares,
        s.after_withdrawal(lp).wf(),
{
    lemma_mul_div_part(s.token, lp, s.shares);
    lemma_mul_div_part(s.staked, lp, s.shares);
    assert(0 <= s.token * lp && 0 <= s.staked * lp) by (nonlinear_arith)
        requires
            0 <= s.token,
            0 <= s.staked,
            0 <= lp,
    ;
    lemma_floor_bounds(s.token * lp, s.shares);
    lemma_floor_bounds(s.staked * lp, s.shares);
    if lp == s.shares {
        assert((s.token * lp) / lp == s.token && (s.staked * lp) / lp == s.staked)
            by (nonlinear_arith)
            requires
                lp > 0,
        ;
    }
}

} // verus!
