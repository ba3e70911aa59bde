//! Instruction processing for two ledger programs: a two-party token escrow
//! and a constant-product automated market maker.
//!
//! Every handler is a function from plain values (account handles, payload
//! bytes, the ledger time, balances read live, addresses derived by the
//! runtime) to either an error or the ordered list of invocations the runtime
//! has to perform. Nothing here performs I/O.

pub mod error;
pub mod pubkey;
pub mod programs;
pub mod codec;
pub mod account;
pub mod invocation;
pub mod escrow;
pub mod amm;
