use vstd::prelude::*;
use crate::codec::{le_u64, lemma_u64_round_trip, push_bytes, push_u64, read_u64, u64_le_bytes};
use crate::error::ProgramError;
use crate::pubkey::{lemma_pubkey_at, pubkey_at, pubkey_from_slice, Pubkey};

verus! {

/// The record an open escrow keeps in its account.
///
/// Layout, without padding: `seed` at 0 (8 bytes, little-endian), `maker` at
/// 8, `mint_a` at 40, `mint_b` at 72 (32 bytes each), `receive` at 104
/// (8 bytes, little-endian), `bump` at 112.
#[derive(Clone, Copy, Debug, PartialEq, Eq)]
pub struct Escrow {
    pub seed: u64,
    pub maker: Pubkey,
    pub mint_a: Pubkey,
    pub mint_b: Pubkey,
    pub receive: u64,
    pub bump: [u8; 1],
}

impl Escrow {
    /// Width of the record: the sum of the widths of its fields.
    pub const LEN: usize = 113;

    /// The bytes that hold this record.
    pub open spec fn encoding(self) -> Seq<u8> {
        u64_le_bytes(self.seed) + self.maker@ + self.mint_a@ + self.mint_b@ + u64_le_bytes(
            self.receive,
        ) + self.bump@
    }

    /// The record that 113 bytes hold, each field taken from its offset.
    pub open spec fn decode(bytes: Seq<u8>) -> Escrow
        recommends
            bytes.len() == 113,
    {
        Escrow {
            seed: le_u64(bytes.subrange(0, 8)) as u64,
            maker: pubkey_at(bytes, 8),
            mint_a: pubkey_at(bytes, 40),
            mint_b: pubkey_at(bytes, 72),
            receive: le_u64(bytes.subrange(104, 112)) as u64,
            bump: [bytes[112]],
        }
    }

    /// Reads a record out of account bytes. Any length but `LEN` is refused
    /// with `InvalidAccountData`; otherwise every field is taken from its
    /// offset.
    pub fn load(bytes: &[u8]) -> (loaded: Result<Escrow, ProgramError>)
        ensures
            bytes@.len() != 113 ==> loaded == Err::<Escrow, ProgramError>(
                ProgramError::InvalidAccountData,
            ),
            bytes@.len() == 113 ==> loaded == Ok::<Escrow, ProgramError>(Escrow::decode(bytes@)),
    {
        if bytes.len() != Escrow::LEN {
            return Err(ProgramError::InvalidAccountData);
        }
        let bump: [u8; 1] = [bytes[112]];
        assert(bump =~= [bytes@[112]]);
        Ok(
            Escrow {
                seed: read_u64(bytes, 0),
                maker: pubkey_from_slice(bytes, 8),
                mint_a: pubkey_from_slice(bytes, 40),
                mint_b: pubkey_from_slice(bytes, 72),
                receive: read_u64(bytes, 104),
                bump,
            },
        )
    }

    /// Writes the record over account bytes. Any length but `LEN` is refused
    /// with `InvalidAccountData` and the bytes stay as they were.
    pub fn store(&self, data: &mut Vec<u8>) -> (stored: Result<(), ProgramError>)
        ensures
            old(data)@.len() != 113 ==> stored == Err::<(), ProgramError>(
                ProgramError::InvalidAccountData,
            ) && final(data)@ == old(data)@,
            old(data)@.len() == 113 ==> stored is Ok && final(data)@ == self.encoding(),
    {
        if data.len() != Escrow::LEN {
            return Err(ProgramError::InvalidAccountData);
        }
        *data = self.to_bytes();
        Ok(())
    }

    /// The record as fresh bytes.
    pub fn to_bytes(&self) -> (bytes: Vec<u8>)
        ensures
            bytes@ == self.encoding(),
            bytes@.len() == 113,
    {
        let mut bytes: Vec<u8> = Vec::new();
        push_u64(&mut bytes, self.seed);
        push_bytes(&mut bytes, self.maker.as_slice());
        push_bytes(&mut bytes, self.mint_a.as_slice());
        push_bytes(&mut bytes, self.mint_b.as_slice());
        push_u64(&mut bytes, self.receive);
        push_bytes(&mut bytes, self.bump.as_slice());
        bytes
    }

    /// Sets every field of the record.
    pub fn set_inner(
        &mut self,
        seed: u64,
        maker: Pubkey,
        mint_a: Pubkey,
        mint_b: Pubkey,
        receive: u64,
        bump: [u8; 1],
    )
        ensures
            *final(self) == (Escrow { seed, maker, mint_a, mint_b, receive, bump }),
    {
        self.seed = seed;
        self.maker = maker;
        self.mint_a = mint_a;
        self.mint_b = mint_b;
        self.receive = receive;
        self.bump = bump;
    }

    /// Decoding the bytes of a record gives the record back.
    pub proof fn lemma_encoding_round_trip(self)
        ensures
            self.encoding().len() == 113,
            Escrow::decode(self.encoding()) == self,
    {
        lemma_u64_round_trip(self.seed);
        lemma_u64_round_trip(self.receive);
        let bytes = self.encoding();
        assert(bytes.subrange(0, 8) =~= u64_le_bytes(self.seed));
        assert(bytes.subrange(8, 40) =~= self.maker@);
        assert(bytes.subrange(40, 72) =~= self.mint_a@);
        assert(bytes.subrange(72, 104) =~= self.mint_b@);
        assert(bytes.subrange(104, 112) =~= u64_le_bytes(self.receive));
        lemma_pubkey_at(bytes, 8, self.maker);
        lemma_pubkey_at(bytes, 40, self.mint_a);
        lemma_pubkey_at(bytes, 72, self.mint_b);
        assert(Escrow::decode(bytes).bump =~= self.bump);
    }
}

} // verus!
