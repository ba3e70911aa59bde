use vstd::prelude::*;
use crate::codec::{push_bytes, push_u64, u64_le_bytes};
use crate::pubkey::Pubkey;

verus! {

/// The bytes `escrow`.
pub open spec fn escrow_tag() -> Seq<u8> {
    seq![101u8, 115u8, 99u8, 114u8, 111u8, 119u8]
}

/// The bytes `config`.
pub open spec fn config_tag() -> Seq<u8> {
    seq![99u8, 111u8, 110u8, 102u8, 105u8, 103u8]
}

/// The bytes `mint_lp`.
pub open spec fn mint_lp_tag() -> Seq<u8> {
    seq![109u8, 105u8, 110u8, 116u8, 95u8, 108u8, 112u8]
}

/// Who authorises an invocation: a caller that signed the transaction, or
/// this program through one of its derived addresses, named by its seeds.
#[derive(Clone, Copy, Debug, PartialEq, Eq)]
pub enum Signer {
    /// No derived signature: a signing caller authorises.
    Caller,
    /// The escrow's address: `escrow`, the maker, the seed, the bump.
    Escrow { maker: Pubkey, seed: u64, bump: [u8; 1] },
    /// The pool's config address: `config`, the seed, both mints, the bump.
    Config { seed: u64, mint_x: Pubkey, mint_y: Pubkey, bump: [u8; 1] },
    /// The liquidity mint's address: `mint_lp`, the config address, the bump.
    MintLp { config: Pubkey, bump: [u8; 1] },
}

impl Signer {
    /// The seed list from which the signing address is derived; empty for a
    /// signing caller.
    pub open spec fn seed_bytes(self) -> Seq<Seq<u8>> {
        match self {
            Signer::Caller => seq![],
            Signer::Escrow { maker, seed, bump } => seq![
                escrow_tag(),
                maker@,
                u64_le_bytes(seed),
                bump@,
            ],
            Signer::Config { seed, mint_x, mint_y, bump } => seq![
                config_tag(),
                u64_le_bytes(seed),
                mint_x@,
                mint_y@,
                bump@,
            ],
            Signer::MintLp { config, bump } => seq![mint_lp_tag(), config@, bump@],
        }
    }

    /// Whether the invocation carries a derived signature.
    pub fn is_derived(&self) -> (derived: bool)
        ensures
            derived == (*self != Signer::Caller),
    {
        match self {
            Signer::Caller => false,
            _ => true,
        }
    }

    /// Builds the seed list, one byte string per seed.
    pub fn seeds(&self) -> (seeds: Vec<Vec<u8>>)
        ensures
            seeds@.map_values(|s: Vec<u8>| s@) == self.seed_bytes(),
    {
        let mut seeds: Vec<Vec<u8>> = Vec::new();
        match self {
            Signer::Caller => {},
            Signer::Escrow { maker, seed, bump } => {
                let tag: [u8; 6] = [101u8, 115u8, 99u8, 114u8, 111u8, 119u8];
                seeds.push(copy_bytes(tag.as_slice()));
                seeds.push(copy_bytes(maker.as_slice()));
                let mut seed_bytes: Vec<u8> = Vec::new();
                push_u64(&mut seed_bytes, *seed);
                seeds.push(seed_bytes);
                seeds.push(copy_bytes(bump.as_slice()));
                assert(seeds@[0]@ =~= escrow_tag());
                assert(seeds@[2]@ =~= u64_le_bytes(*seed));
            },
            Signer::Config { seed, mint_x, mint_y, bump } => {
                let tag: [u8; 6] = [99u8, 111u8, 110u8, 102u8, 105u8, 103u8];
                seeds.push(copy_bytes(tag.as_slice()));
                let mut seed_bytes: Vec<u8> = Vec::new();
                push_u64(&mut seed_bytes, *seed);
                seeds.push(seed_bytes);
                seeds.push(copy_bytes(mint_x.as_slice()));
                seeds.push(copy_bytes(mint_y.as_slice()));
                seeds.push(copy_bytes(bump.as_slice()));
                assert(seeds@[0]@ =~= config_tag());
                assert(seeds@[1]@ =~= u64_le_bytes(*seed));
            },
            Signer::MintLp { config, bump } => {
                let tag: [u8; 7] = [109u8, 105u8, 110u8, 116u8, 95u8, 108u8, 112u8];
                seeds.push(copy_bytes(tag.as_slice()));
                seeds.push(copy_bytes(config.as_slice()));
                seeds.push(copy_bytes(bump.as_slice()));
                assert(seeds@[0]@ =~= mint_lp_tag());
            },
        }
        assert(seeds@.map_values(|s: Vec<u8>| s@) =~= self.seed_bytes());
        seeds
    }
}

/// Copies a byte string.
pub fn copy_bytes(src: &[u8]) -> (copy: Vec<u8>)
    ensures
        copy@ == src@,
{
    let mut copy: Vec<u8> = Vec::new();
    push_bytes(&mut copy, src);
    assert(copy@ =~= src@);
    copy
}

/// A request to another program, or to the runtime, that a handler issues.
#[derive(Clone, Copy, Debug, PartialEq, Eq)]
pub enum Instruction {
    /// System program: create `to` with `space` bytes, funded by `from` with
    /// the rent minimum for that size, controlled by `owner`.
    CreateAccount { from: Pubkey, to: Pubkey, space: u64, owner: Pubkey },
    /// Token program: initialise a mint.
    InitializeMint2 { mint: Pubkey, decimals: u8, mint_authority: Pubkey },
    /// Associated-address program: create the token account of `wallet` for
    /// `mint`; fails where it exists.
    Create {
        funding_account: Pubkey,
        account: Pubkey,
        wallet: Pubkey,
        mint: Pubkey,
        system_program: Pubkey,
        token_program: Pubkey,
    },
    /// As `Create`, but succeeds where the account exists already.
    CreateIdempotent {
        funding_account: Pubkey,
        account: Pubkey,
        wallet: Pubkey,
        mint: Pubkey,
        system_program: Pubkey,
        token_program: Pubkey,
    },
    /// Token program: move `amount` tokens.
    Transfer { from: Pubkey, to: Pubkey, authority: Pubkey, amount: u64 },
    /// Token program: mint `amount` new tokens to `account`.
    MintTo { mint: Pubkey, account: Pubkey, mint_authority: Pubkey, amount: u64 },
    /// Token program: burn `amount` tokens of `account`.
    Burn { account: Pubkey, mint: Pubkey, authority: Pubkey, amount: u64 },
    /// Token program: close a token account, its lamports go to `destination`.
    CloseAccount { account: Pubkey, destination: Pubkey, authority: Pubkey },
    /// This program's own account is closed: zeroed, released to the system
    /// program, its lamports credited to `destination`.
    CloseProgramAccount { account: Pubkey, destination: Pubkey },
}

/// An instruction together with who authorises it.
#[derive(Clone, Copy, Debug, PartialEq, Eq)]
pub struct Invocation {
    pub instruction: Instruction,
    pub signer: Signer,
}

} // verus!
