//! Why the pool turns a request down.

use vstd::prelude::*;

verus! {

/// The reasons for which an operation on a pool fails. A failed operation
/// leaves the pool as it was.
#[derive(Debug, Clone, Copy, PartialEq, Eq, Structural)]
pub enum PoolError {
    /// A pool was to be created with a price of zero.
    InvalidPrice,
    /// A pool was to be created with a minimum fee above its maximum fee.
    InvalidFeeRange,
    /// A swap of zero staked tokens was asked for.
    InvalidSwapAmount,
    /// Zero pool shares, or more than the pool has issued, were to be redeemed.
    InvalidLpAmount,
    /// The pool does not hold the base tokens that the operation needs.
    InsufficientLiquidity,
    /// An amount that the operation would compute is negative or does not
    /// fit in 64 bits.
    AmountOutOfRange,
}

} // verus!
