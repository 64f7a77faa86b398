//! A liquidity pool for a staked-token / base-token pair.
//!
//! All amounts, prices and fee rates are fixed-point integers: the real
//! value multiplied by [`SCALE`]. Every quotient is rounded down.

pub mod amounts;
pub mod arith;
pub mod error;
pub mod laws;
pub mod lp_pool;
pub mod model;

pub use amounts::{LpTokenAmount, Percentage, Price, StakedTokenAmount, TokenAmount, SCALE};
pub use error::PoolError;
pub use lp_pool::LpPool;
pub use model::PoolState;
