//! The pool and its four operations.

use vstd::prelude::*;
use crate::amounts::{LpTokenAmount, Percentage, Price, StakedTokenAmount, TokenAmount, SCALE};
use crate::arith::{lemma_mul_div_part, mul_div};
use crate::error::PoolError;
use crate::laws::deposit_never_dilutes;
use crate::model::{init_rejection, PoolState};

verus! {

/// A liquidity pool: depositors add base tokens for pool shares, traders
/// swap staked tokens for base tokens, and shares are redeemed for a part of
/// both balances.
///
/// Price, fee bounds and liquidity target are fixed at creation. Redeeming
/// shares does not take them out of issue: the total of shares only grows.
#[derive(Debug)]
pub struct LpPool {
    price: Price,
    token_amount: TokenAmount,
    st_token_amount: StakedTokenAmount,
    lp_token_amount: LpTokenAmount,
    liquidity_target: TokenAmount,
    fee_min: Percentage,
    fee_max: Percentage,
}

impl View for LpPool {
    type V = PoolState;

    closed spec fn view(&self) -> PoolState {
        PoolState {
            price: self.price.0 as int,
            fee_min: self.fee_min.0 as int,
            fee_max: self.fee_max.0 as int,
            target: self.liquidity_target.0 as int,
            token: self.token_amount.0 as int,
            staked: self.st_token_amount.0 as int,
            shares: self.lp_token_amount.0 as int,
        }
    }
}

impl LpPool {
    /// Holds of every pool at all times: the price is positive, the fee
    /// bounds are ordered, and base tokens are held only once shares exist.
    #[verifier::type_invariant]
    spec fn inv(self) -> bool {
        &&& self.price.0 > 0
        &&& self.fee_min.0 <= self.fee_max.0
        &&& self.lp_token_amount.0 == 0 ==> self.token_amount.0 == 0
    }

    /// Creates an empty pool. A zero price is refused, and so is a minimum
    /// fee above the maximum fee; any liquidity target is accepted.
    pub fn init(
        price: Price,
        fee_min: Percentage,
        fee_max: Percentage,
        liquidity_target: TokenAmount,
    ) -> (r: Result<Self, PoolError>)
        ensures
            price.0 == 0 ==> r == Err::<Self, PoolError>(PoolError::InvalidPrice),
            price.0 != 0 && fee_min.0 > fee_max.0 ==> r == Err::<Self, PoolError>(
                PoolError::InvalidFeeRange,
            ),
            match r {
                Ok(pool) => {
                    &&& pool@.wf()
                    &&& init_rejection(price.0 as int, fee_min.0 as int, fee_max.0 as int) is None
                    &&& pool@ == PoolState::fresh(
                        price.0 as int,
                        fee_min.0 as int,
                        fee_max.0 as int,
                        liquidity_target.0 as int,
                    )
                },
                Err(e) => init_rejection(price.0 as int, fee_min.0 as int, fee_max.0 as int)
                    == Some(e),
            },
    {
        if price.is_zero() {
            return Err(PoolError::InvalidPrice);
        }
        if fee_min.0 > fee_max.0 {
            return Err(PoolError::InvalidFeeRange);
        }
        Ok(
            LpPool {
                price,
                token_amount: TokenAmount(0),
                st_token_amount: StakedTokenAmount(0),
                lp_token_amount: LpTokenAmount(0),
                liquidity_target,
                fee_min,
                fee_max,
            },
        )
    }

    /// The fee rate at which a trade is charged that leaves `remaining` base
    /// tokens in the pool.
    fn fee_rate_at(&self, remaining: u64) -> (rate: Percentage)
        ensures
            rate.0 == self@.fee_rate(remaining as int),
            self@.fee_min <= rate.0 <= self@.fee_max,
    {
        proof {
            use_type_invariant(self);
        }
        if remaining >= self.liquidity_target.0 {
            return self.fee_min;
        }
        let spread: u64 = self.fee_max.0 - self.fee_min.0;
        let rise: u128 = mul_div(spread, remaining, self.liquidity_target.0 as u128);
        proof {
            lemma_mul_div_part(spread as int, remaining as int, self.liquidity_target.0 as int);
        }
        Percentage(self.fee_max.0 - (rise as u64))
    }

    /// The fee rate for a trade that takes `trade_amount` base tokens out of
    /// the pool, read off the fee curve at the balance that would remain:
    /// the minimum fee while that balance is at or above the liquidity
    /// target, and below the target a rate that rises in a straight line to
    /// the maximum fee at a balance of zero. With a target of zero every
    /// balance is at or above it, so the rate is the minimum fee. Fails only
    /// where the pool holds less than `trade_amount`.
    pub fn calculate_fee(&self, trade_amount: u64) -> (r: Result<Percentage, PoolError>)
        ensures
            self@.wf(),
            match r {
                Ok(rate) => {
                    &&& trade_amount <= self@.token
                    &&& rate.0 == self@.fee_rate(self@.token - trade_amount)
                    &&& self@.fee_min <= rate.0 <= self@.fee_max
                    &&& self@.token - trade_amount >= self@.target ==> rate.0 == self@.fee_min
                },
                Err(e) => trade_amount > self@.token && e == PoolError::InsufficientLiquidity,
            },
    {
        proof {
            use_type_invariant(self);
        }
        if trade_amount > self.token_amount.0 {
            return Err(PoolError::InsufficientLiquidity);
        }
        Ok(self.fee_rate_at(self.token_amount.0 - trade_amount))
    }

    /// Takes a deposit of base tokens and issues pool shares for it: one
    /// share per token while no share is in issue, afterwards the deposit's
    /// part of the pool's value applied to the shares in issue, rounded
    /// down. Returns the shares issued.
    pub fn add_liquidity(&mut self, token_amount: TokenAmount) -> (r: Result<
        LpTokenAmount,
        PoolError,
    >)
        ensures
            final(self)@.wf(),
            old(self)@.shares == 0 ==> r == Ok::<LpTokenAmount, PoolError>(
                LpTokenAmount(token_amount.0),
            ),
            r is Ok && old(self)@.shares > 0 ==> final(self)@.shares * old(self)@.value() <= old(
                self,
            )@.shares * final(self)@.value(),
            match r {
                Ok(issued) => {
                    &&& old(self)@.deposit_rejection(token_amount.0 as int) is None
                    &&& issued.0 == old(self)@.shares_for(token_amount.0 as int)
                    &&& final(self)@ == old(self)@.after_deposit(token_amount.0 as int)
                },
                Err(e) => {
                    &&& old(self)@.deposit_rejection(token_amount.0 as int) == Some(e)
                    &&& final(self)@ == old(self)@
                },
            },
    {
        proof {
            use_type_invariant(&*self);
        }
        let deposit: u64 = token_amount.0;
        let shares: u64 = self.lp_token_amount.0;
        if shares == 0 {
            self.lp_token_amount = LpTokenAmount(deposit);
            self.token_amount = TokenAmount(deposit);
            return Ok(LpTokenAmount(deposit));
        }
        let staked_value: u128 = mul_div(self.st_token_amount.0, self.price.0, SCALE as u128);
        let value: u128 = self.token_amount.0 as u128 + staked_value;
        if value == 0 {
            return Err(PoolError::InsufficientLiquidity);
        }
        let issued: u128 = mul_div(shares, deposit, value);
        if deposit > u64::MAX - self.token_amount.0 || issued > (u64::MAX - shares) as u128 {
            return Err(PoolError::AmountOutOfRange);
        }
        proof {
            deposit_never_dilutes(self@, deposit as int);
        }
        self.token_amount = TokenAmount(self.token_amount.0 + deposit);
        self.lp_token_amount = LpTokenAmount(shares + issued as u64);
        Ok(LpTokenAmount(issued as u64))
    }

    /// Swaps staked tokens for base tokens. The staked tokens are priced in
    /// base tokens, the fee at the rate of the balance that this gross
    /// amount would leave is kept back, and the rest is paid out of the
    /// pool, which takes the staked tokens in. Returns the base tokens paid.
    pub fn swap(&mut self, st_token_amount: StakedTokenAmount) -> (r: Result<
        TokenAmount,
        PoolError,
    >)
        ensures
            final(self)@.wf(),
            st_token_amount.0 == 0 ==> r == Err::<TokenAmount, PoolError>(
                PoolError::InvalidSwapAmount,
            ) && final(self)@ == old(self)@,
            match r {
                Ok(paid) => {
                    &&& old(self)@.swap_rejection(st_token_amount.0 as int) is None
                    &&& paid.0 == old(self)@.swap_payout(st_token_amount.0 as int)
                    &&& final(self)@ == old(self)@.after_swap(st_token_amount.0 as int)
                },
                Err(e) => {
                    &&& old(self)@.swap_rejection(st_token_amount.0 as int) == Some(e)
                    &&& final(self)@ == old(self)@
                },
            },
    {
        proof {
            use_type_invariant(&*self);
        }
        let staked: u64 = st_token_amount.0;
        if staked == 0 {
            return Err(PoolError::InvalidSwapAmount);
        }
        let gross_wide: u128 = mul_div(self.price.0, staked, SCALE as u128);
        if gross_wide > self.token_amount.0 as u128 {
            return Err(PoolError::InsufficientLiquidity);
        }
        let gross: u64 = gross_wide as u64;
        let rate: Percentage = self.fee_rate_at(self.token_amount.0 - gross);
        let fee: u128 = mul_div(gross, rate.0, SCALE as u128);
        if fee > gross_wide || staked > u64::MAX - self.st_token_amount.0 {
            return Err(PoolError::AmountOutOfRange);
        }
        let paid: u64 = gross - fee as u64;
        self.token_amount = TokenAmount(self.token_amount.0 - paid);
        self.st_token_amount = StakedTokenAmount(self.st_token_amount.0 + staked);
        Ok(TokenAmount(paid))
    }

    /// Redeems pool shares: hands out, of the base tokens and of the staked
    /// tokens held, the part that `lp_tokens` is of the shares in issue,
    /// each rounded down. The shares in issue stay as they were.
    pub fn remove_liquidity(&mut self, lp_tokens: LpTokenAmount) -> (r: Result<
        (TokenAmount, StakedTokenAmount),
        PoolError,
    >)
        ensures
            final(self)@.wf(),
            lp_tokens.0 == 0 || lp_tokens.0 > old(self)@.shares ==> r == Err::<
                (TokenAmount, StakedTokenAmount),
                PoolError,
            >(PoolError::InvalidLpAmount) && final(self)@ == old(self)@,
            match r {
                Ok((token, staked)) => {
                    &&& old(self)@.withdrawal_rejection(lp_tokens.0 as int) is None
                    &&& token.0 == old(self)@.withdrawn_token(lp_tokens.0 as int)
                    &&& staked.0 == old(self)@.withdrawn_staked(lp_tokens.0 as int)
                    &&& final(self)@.token == old(self)@.token - token.0
                    &&& final(self)@.staked == old(self)@.staked - staked.0
                    &&& final(self)@ == old(self)@.after_withdrawal(lp_tokens.0 as int)
                },
                Err(e) => {
                    &&& old(self)@.withdrawal_rejection(lp_tokens.0 as int) == Some(e)
                    &&& final(self)@ == old(self)@
                },
            },
    {
        proof {
            use_type_invariant(&*self);
        }
        let lp: u64 = lp_tokens.0;
        let shares: u64 = self.lp_token_amount.0;
        if lp == 0 || lp > shares {
            return Err(PoolError::InvalidLpAmount);
        }
        let token: u128 = mul_div(self.token_amount.0, lp, shares as u128);
        let staked: u128 = mul_div(self.st_token_amount.0, lp, shares as u128);
        proof {
            lemma_mul_div_part(self.token_amount.0 as int, lp as int, shares as int);
            lemma_mul_div_part(self.st_token_amount.0 as int, lp as int, shares as int);
        }
        self.token_amount = TokenAmount(self.token_amount.0 - token as u64);
        self.st_token_amount = StakedTokenAmount(self.st_token_amount.0 - staked as u64);
        Ok((TokenAmount(token as u64), StakedTokenAmount(staked as u64)))
    }

    /// The price that the pool was created with.
    pub fn price(&self) -> (r: Price)
        ensures
            r.0 == self@.price,
    {
        self.price
    }

    /// The lower bound of the fee rate.
    pub fn fee_min(&self) -> (r: Percentage)
        ensures
            r.0 == self@.fee_min,
    {
        self.fee_min
    }

    /// The upper bound of the fee rate.
    pub fn fee_max(&self) -> (r: Percentage)
        ensures
            r.0 == self@.fee_max,
    {
        self.fee_max
    }

    /// The balance of base tokens from which on the minimum fee applies.
    pub fn liquidity_target(&self) -> (r: TokenAmount)
        ensures
            r.0 == self@.target,
    {
        self.liquidity_target
    }

    /// The base tokens held.
    pub fn token_amount(&self) -> (r: TokenAmount)
        ensures
            r.0 == self@.token,
    {
        self.token_amount
    }

    /// The staked tokens held.
    pub fn st_token_amount(&self) -> (r: StakedTokenAmount)
        ensures
            r.0 == self@.staked,
    {
        self.st_token_amount
    }

    /// The pool shares issued so far.
    pub fn lp_token_amount(&self) -> (r: LpTokenAmount)
        ensures
            r.0 == self@.shares,
    {
        self.lp_token_amount
    }
}

} // verus!
