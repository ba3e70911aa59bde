use vstd::prelude::*;

verus! {

/// The only observable result of a failed instruction.
#[derive(Clone, Copy, Debug, PartialEq, Eq, Structural)]
pub enum ProgramError {
    /// An account that has to sign the transaction did not.
    MissingRequiredSignature,
    /// An account is controlled by another program than expected, or its
    /// address is not the one derived from its seeds.
    InvalidAccountOwner,
    /// A record has the wrong size, a stored field disagrees with the
    /// accounts given, or the pool is in a state that forbids the operation.
    InvalidAccountData,
    /// Fewer (or, for a fixed list, other than) the accounts a handler needs.
    NotEnoughAccountKeys,
    /// Payload of the wrong size, a zero amount, or a deadline that passed.
    InvalidInstructionData,
    /// A slippage bound is violated or a trade is degenerate.
    InvalidArgument,
    /// A failure of the curve engine, surfaced as a domain error code.
    Custom(u32),
}

} // verus!
