//! The pool as mathematical values, and what each operation does to it.

use vstd::prelude::*;
use crate::amounts::SCALE;
use crate::error::PoolError;

verus! {

/// A pool's parameters and balances as integers.
pub struct PoolState {
    /// Base tokens per staked token, in fixed point.
    pub price: int,
    /// The fee rate charged while the pool holds its target or more.
    pub fee_min: int,
    /// The fee rate approached as the pool runs dry.
    pub fee_max: int,
    /// The base-token balance from which on the minimum fee applies.
    pub target: int,
    /// Base tokens held.
    pub token: int,
    /// Staked tokens held.
    pub staked: int,
    /// Pool shares issued.
    pub shares: int,
}

/// The reason for which a pool with these parameters cannot be created, if
/// there is one. A zero price is reported before a bad fee range.
pub open spec fn init_rejection(price: int, fee_min: int, fee_max: int) -> Option<PoolError> {
    if price == 0 {
        Some(PoolError::InvalidPrice)
    } else if fee_min > fee_max {
        Some(PoolError::InvalidFeeRange)
    } else {
        None
    }
}

/// The part of `balance` that `lp` out of `shares` pool shares stand for,
/// rounded down.
pub open spec fn share_of(balance: int, lp: int, shares: int) -> int {
    (balance * lp) / shares
}

impl PoolState {
    /// What every pool satisfies: a positive price, ordered fee bounds,
    /// 64-bit quantities, and no base tokens while no share is issued.
    pub open spec fn wf(self) -> bool {
        &&& 0 < self.price <= u64::MAX
        &&& 0 <= self.fee_min <= self.fee_max <= u64::MAX
        &&& 0 <= self.target <= u64::MAX
        &&& 0 <= self.token <= u64::MAX
        &&& 0 <= self.staked <= u64::MAX
        &&& 0 <= self.shares <= u64::MAX
        &&& self.shares == 0 ==> self.token == 0
    }

    /// The pool right after its creation: the parameters as given, every
    /// balance zero.
    pub open spec fn fresh(price: int, fee_min: int, fee_max: int, target: int) -> PoolState {
        PoolState { price, fee_min, fee_max, target, token: 0, staked: 0, shares: 0 }
    }

    /// The staked tokens held, priced in base tokens.
    pub open spec fn staked_value(self) -> int {
        (self.staked * self.price) / (SCALE as int)
    }

    /// Everything the pool holds, in base tokens.
    pub open spec fn value(self) -> int {
        self.token + self.staked_value()
    }

    /// The fee rate for a trade that would leave `remaining` base tokens in
    /// the pool: the minimum from the target on, and below it the line that
    /// rises to the maximum as `remaining` falls to zero.
    pub open spec fn fee_rate(self, remaining: int) -> int {
        if remaining >= self.target {
            self.fee_min
        } else {
            self.fee_max - ((self.fee_max - self.fee_min) * remaining) / self.target
        }
    }

    /// The pool shares issued for a deposit of `deposit` base tokens: one
    /// per token while no share exists, afterwards the deposit's part of
    /// the pool's value applied to the shares in issue.
    pub open spec fn shares_for(self, deposit: int) -> int {
        if self.shares == 0 {
            deposit
        } else {
            (self.shares * deposit) / self.value()
        }
    }

    /// Why a deposit of `deposit` base tokens fails, if it does: shares are
    /// in issue but the pool is worth nothing, so that no share can be
    /// priced; or a balance would leave the 64-bit range.
    pub open spec fn deposit_rejection(self, deposit: int) -> Option<PoolError> {
        if self.shares > 0 && self.value() == 0 {
            Some(PoolError::InsufficientLiquidity)
        } else if self.token + deposit > u64::MAX || self.shares + self.shares_for(deposit)
            > u64::MAX {
            Some(PoolError::AmountOutOfRange)
        } else {
            None
        }
    }

    /// The pool after an accepted deposit.
    pub open spec fn after_deposit(self, deposit: int) -> PoolState {
        PoolState {
            token: self.token + deposit,
            shares: self.shares + self.shares_for(deposit),
            ..self
        }
    }

    /// The base-token worth of `staked` staked tokens before the fee.
    pub open spec fn swap_gross(self, staked: int) -> int {
        (self.price * staked) / (SCALE as int)
    }

    /// The fee rate of a swap of `staked` staked tokens: that of the balance
    /// which would remain if the gross amount left the pool.
    pub open spec fn swap_fee_rate(self, staked: int) -> int {
        self.fee_rate(self.token - self.swap_gross(staked))
    }

    /// The base tokens that the pool keeps from the gross amount as its fee.
    pub open spec fn swap_fee(self, staked: int) -> int {
        (self.swap_gross(staked) * self.swap_fee_rate(staked)) / (SCALE as int)
    }

    /// The base tokens paid out for `staked` staked tokens.
    pub open spec fn swap_payout(self, staked: int) -> int {
        self.swap_gross(staked) - self.swap_fee(staked)
    }

    /// Why a swap of `staked` staked tokens fails, if it does. In this
    /// order: the amount is zero; the gross amount exceeds the base tokens
    /// held; the fee exceeds the gross amount, or the staked balance would
    /// leave the 64-bit range.
    pub open spec fn swap_rejection(self, staked: int) -> Option<PoolError> {
        if staked <= 0 {
            Some(PoolError::InvalidSwapAmount)
        } else if self.swap_gross(staked) > self.token {
            Some(PoolError::InsufficientLiquidity)
        } else if self.swap_fee(staked) > self.swap_gross(staked) || self.staked + staked
            > u64::MAX {
            Some(PoolError::AmountOutOfRange)
        } else {
            None
        }
    }

    /// The pool after an accepted swap.
    pub open spec fn after_swap(self, staked: int) -> PoolState {
        PoolState {
            token: self.token - self.swap_payout(staked),
            staked: self.staked + staked,
            ..self
        }
    }

    /// Why redeeming `lp` pool shares fails, if it does.
    pub open spec fn withdrawal_rejection(self, lp: int) -> Option<PoolError> {
        if lp <= 0 || lp > self.shares {
            Some(PoolError::InvalidLpAmount)
        } else {
            None
        }
    }

    /// The base tokens handed out for `lp` pool shares.
    pub open spec fn withdrawn_token(self, lp: int) -> int {
        share_of(self.token, lp, self.shares)
    }

    /// The staked tokens handed out for `lp` pool shares.
    pub open spec fn withdrawn_staked(self, lp: int) -> int {
        share_of(self.staked, lp, self.shares)
    }

    /// The pool after an accepted redemption. Both balances shrink by what
    /// was handed out; the number of shares in issue stays as it was.
    pub open spec fn after_withdrawal(self, lp: int) -> PoolState {
        PoolState {
            token: self.token - self.withdrawn_token(lp),
            staked: self.staked - self.withdrawn_staked(lp),
            ..self
        }
    }
}

} // verus!
