//! The fixed-point quantities that the pool handles.

use vstd::prelude::*;

verus! {

/// One whole unit in fixed point: every amount, price and rate is the real
/// value times this factor.
pub const SCALE: u64 = 1_000_000;

/// An amount of the base token.
#[derive(Debug, Clone, Copy, PartialEq, Eq, Structural)]
pub struct TokenAmount(pub u64);

/// How many base tokens one staked token is worth.
#[derive(Debug, Clone, Copy, PartialEq, Eq, Structural)]
pub struct Price(pub u64);

/// A fee rate, as a fraction of [`SCALE`].
#[derive(Debug, Clone, Copy, PartialEq, Eq, Structural, PartialOrd)]
pub struct Percentage(pub u64);

/// An amount of pool-share tokens.
#[derive(Debug, Clone, Copy, PartialEq, Eq, Structural)]
pub struct LpTokenAmount(pub u64);

/// An amount of the staked token.
#[derive(Debug, Clone, Copy, PartialEq, Eq, Structural)]
pub struct StakedTokenAmount(pub u64);

impl Price {
    /// Whether the price is zero, which no pool accepts.
    pub fn is_zero(&self) -> (zero: bool)
        ensures
            zero == (self.0 == 0),
    {
        self.0 == 0
    }
}

} // verus!
