//! The constant-product market maker: the pool's record and the handlers
//! that initialise a pool, add and remove liquidity, and swap.

pub mod state;
pub mod pool;
pub mod initialize;
pub mod deposit;
pub mod withdraw;
pub mod swap;
pub mod dispatch;
pub mod laws;
