//! The two-party token escrow: its record, its account guards and the
//! refund handler.

pub mod state;
pub mod helpers;
pub mod refund;
pub mod laws;
