use vstd::prelude::*;
use crate::pubkey::Pubkey;

verus! {

/// The address of the token program.
pub open spec fn token_program() -> Pubkey {
    [
        6u8,
        221u8,
        246u8,
        225u8,
        215u8,
        101u8,
        161u8,
        147u8,
        217u8,
        203u8,
        225u8,
        70u8,
        206u8,
        235u8,
        121u8,
        172u8,
        28u8,
        180u8,
        133u8,
        237u8,
        95u8,
        91u8,
        55u8,
        145u8,
        58u8,
        140u8,
        245u8,
        133u8,
        126u8,
        255u8,
        0u8,
        169u8,
    ]
}

/// The address of the system program: all zero.
pub open spec fn system_program() -> Pubkey {
    [
        0u8,
        0u8,
        0u8,
        0u8,
        0u8,
        0u8,
        0u8,
        0u8,
        0u8,
        0u8,
        0u8,
        0u8,
        0u8,
        0u8,
        0u8,
        0u8,
        0u8,
        0u8,
        0u8,
        0u8,
        0u8,
        0u8,
        0u8,
        0u8,
        0u8,
        0u8,
        0u8,
        0u8,
        0u8,
        0u8,
        0u8,
        0u8,
    ]
}

/// The address of the associated-address program.
pub open spec fn associated_token_program() -> Pubkey {
    [
        140u8,
        151u8,
        37u8,
        143u8,
        78u8,
        36u8,
        137u8,
        241u8,
        187u8,
        61u8,
        16u8,
        41u8,
        20u8,
        142u8,
        13u8,
        131u8,
        11u8,
        90u8,
        19u8,
        153u8,
        218u8,
        255u8,
        16u8,
        132u8,
        4u8,
        142u8,
        123u8,
        216u8,
        219u8,
        233u8,
        248u8,
        89u8,
    ]
}

/// `pinocchio_token::id`. Trusted: it returns the constant `ID` of that
/// crate, which is the base-58 string
/// `TokenkegQfeZyiNwAJbNbGKPFXCWuBvf9Ss623VQ5DA` decoded to 32 bytes; the
/// contract claims that these are the bytes of `token_program`.
#[verifier::external_body]
pub(crate) fn token_program_id() -> (id: Pubkey)
    ensures
        id == token_program(),
{
    pinocchio_token::id()
}

/// `pinocchio_system::id`. Trusted: it returns the constant `ID` of that
/// crate, which is the base-58 string `11111111111111111111111111111111`
/// decoded to 32 bytes; the contract claims that all of them are zero.
#[verifier::external_body]
pub(crate) fn system_program_id() -> (id: Pubkey)
    ensures
        id == system_program(),
{
    pinocchio_system::id()
}

/// `pinocchio_associated_token_account::id`. Trusted: it returns the
/// constant `ID` of that crate, which is the base-58 string
/// `ATokenGPvbdGVxr1b2hvZbsiqW5xWH25efTNsLJA8knL` decoded to 32 bytes; the
/// contract claims that these are the bytes of `associated_token_program`.
#[verifier::external_body]
pub(crate) fn associated_token_program_id() -> (id: Pubkey)
    ensures
        id == associated_token_program(),
{
    pinocchio_associated_token_account::id()
}

/// What the runtime derives an address from: a list of seeds and the
/// program under which to derive.
#[derive(Debug, PartialEq, Eq)]
pub struct Derivation {
    pub seeds: Vec<Vec<u8>>,
    pub program_id: Pubkey,
}

impl Derivation {
    /// The seeds as byte strings.
    pub open spec fn seed_bytes(self) -> Seq<Seq<u8>> {
        self.seeds@.map_values(|s: Vec<u8>| s@)
    }
}

} // verus!
