use vstd::prelude::*;
use crate::account::AccountInfo;
use crate::codec::{
    le_u16,
    le_u64,
    lemma_u16_round_trip,
    lemma_u64_round_trip,
    push_bytes,
    push_u16,
    push_u64,
    read_u16,
    read_u64,
    u16_le_bytes,
    u64_le_bytes,
};
use crate::error::ProgramError;
use crate::pubkey::{
    is_zero_key,
    lemma_pubkey_at,
    pubkey_at,
    pubkey_eq,
    pubkey_from_slice,
    pubkey_is_zero,
    Pubkey,
};

verus! {

/// The states of a pool, stored as one byte.
#[derive(Clone, Copy, Debug, PartialEq, Eq, Structural)]
pub enum AmmState {
    Uninitialized,
    Initialized,
    Disabled,
    WithdrawOnly,
}

impl AmmState {
    /// The byte that stores the state.
    pub open spec fn code(self) -> u8 {
        match self {
            AmmState::Uninitialized => 0,
            AmmState::Initialized => 1,
            AmmState::Disabled => 2,
            AmmState::WithdrawOnly => 3,
        }
    }

    /// The byte that stores the state.
    pub fn as_u8(self) -> (byte: u8)
        ensures
            byte == self.code(),
    {
        match self {
            AmmState::Uninitialized => 0,
            AmmState::Initialized => 1,
            AmmState::Disabled => 2,
            AmmState::WithdrawOnly => 3,
        }
    }
}

/// Fees are basis points: a fee has to be below this.
pub const FEE_LIMIT: u16 = 10_000;

/// The record a pool keeps in its config account.
///
/// Layout, without padding: `state` at 0, `seed` at 1 (8 bytes,
/// little-endian), `authority` at 9, `mint_x` at 41, `mint_y` at 73
/// (32 bytes each), `fee` at 105 (2 bytes, little-endian), `config_bump`
/// at 107.
#[derive(Clone, Copy, Debug, PartialEq, Eq)]
pub struct Config {
    pub state: u8,
    pub seed: u64,
    pub authority: Pubkey,
    pub mint_x: Pubkey,
    pub mint_y: Pubkey,
    pub fee: u16,
    pub config_bump: [u8; 1],
}

impl Config {
    /// Width of the record.
    pub const LEN: usize = 108;

    /// What the setters keep: a known state and a fee below the limit.
    pub open spec fn wf(self) -> bool {
        self.state <= 3 && self.fee < 10_000
    }

    /// The bytes that hold this record.
    pub open spec fn encoding(self) -> Seq<u8> {
        seq![self.state] + u64_le_bytes(self.seed) + self.authority@ + self.mint_x@
            + self.mint_y@ + u16_le_bytes(self.fee) + self.config_bump@
    }

    /// The record that the first 108 bytes hold, each field taken from its
    /// offset.
    pub open spec fn decode(bytes: Seq<u8>) -> Config
        recommends
            bytes.len() >= 108,
    {
        Config {
            state: bytes[0],
            seed: le_u64(bytes.subrange(1, 9)) as u64,
            authority: pubkey_at(bytes, 9),
            mint_x: pubkey_at(bytes, 41),
            mint_y: pubkey_at(bytes, 73),
            fee: le_u16(bytes.subrange(105, 107)) as u16,
            config_bump: [bytes[107]],
        }
    }

    /// What `load` returns for an account, under the program `program_id`.
    pub open spec fn load_spec(account: AccountInfo, program_id: Pubkey) -> Result<
        Config,
        ProgramError,
    > {
        if account.data@.len() != 108 {
            Err(ProgramError::InvalidAccountData)
        } else if account.owner != program_id {
            Err(ProgramError::InvalidAccountOwner)
        } else {
            Ok(Config::decode(account.data@))
        }
    }

    /// Reads a record from bytes whose length the caller has checked.
    pub fn from_bytes_unchecked(bytes: &[u8]) -> (record: Config)
        requires
            bytes@.len() >= 108,
        ensures
            record == Config::decode(bytes@),
    {
        let config_bump: [u8; 1] = [bytes[107]];
        assert(config_bump =~= [bytes@[107]]);
        Config {
            state: bytes[0],
            seed: read_u64(bytes, 1),
            authority: pubkey_from_slice(bytes, 9),
            mint_x: pubkey_from_slice(bytes, 41),
            mint_y: pubkey_from_slice(bytes, 73),
            fee: read_u16(bytes, 105),
            config_bump,
        }
    }

    /// Reads the record of a config account: `InvalidAccountData` unless the
    /// account holds exactly `LEN` bytes, then `InvalidAccountOwner` unless
    /// this program controls it.
    pub fn load(account_info: &AccountInfo, program_id: &Pubkey) -> (loaded: Result<
        Config,
        ProgramError,
    >)
        ensures
            loaded == Config::load_spec(*account_info, *program_id),
    {
        if account_info.data_len() != Config::LEN {
            return Err(ProgramError::InvalidAccountData);
        }
        if !pubkey_eq(&account_info.owner, program_id) {
            return Err(ProgramError::InvalidAccountOwner);
        }
        Ok(Config::from_bytes_unchecked(account_info.data.as_slice()))
    }

    /// Reads the record of an account in order to change it, without asking
    /// who controls the account: `InvalidAccountData` unless the account
    /// holds exactly `LEN` bytes. `store` writes the changed record back.
    pub fn load_mut(account_info: &AccountInfo) -> (loaded: Result<Config, ProgramError>)
        ensures
            account_info.data@.len() != 108 ==> loaded == Err::<Config, ProgramError>(
                ProgramError::InvalidAccountData,
            ),
            account_info.data@.len() == 108 ==> loaded == Ok::<Config, ProgramError>(
                Config::decode(account_info.data@),
            ),
    {
        if account_info.data_len() != Config::LEN {
            return Err(ProgramError::InvalidAccountData);
        }
        Ok(Config::from_bytes_unchecked(account_info.data.as_slice()))
    }

    /// The record as fresh bytes.
    pub fn to_bytes(&self) -> (bytes: Vec<u8>)
        ensures
            bytes@ == self.encoding(),
            bytes@.len() == 108,
    {
        let mut bytes: Vec<u8> = Vec::new();
        bytes.push(self.state);
        assert(bytes@ =~= seq![self.state]);
        push_u64(&mut bytes, self.seed);
        push_bytes(&mut bytes, self.authority.as_slice());
        push_bytes(&mut bytes, self.mint_x.as_slice());
        push_bytes(&mut bytes, self.mint_y.as_slice());
        push_u16(&mut bytes, self.fee);
        push_bytes(&mut bytes, self.config_bump.as_slice());
        bytes
    }

    /// Writes the record over the bytes of an account. An account of any
    /// length but `LEN` is refused with `InvalidAccountData` and stays as it
    /// was; nothing but its bytes ever changes.
    pub fn store(&self, account_info: &mut AccountInfo) -> (stored: Result<(), ProgramError>)
        ensures
            final(account_info).key == old(account_info).key,
            final(account_info).owner == old(account_info).owner,
            final(account_info).is_signer == old(account_info).is_signer,
            final(account_info).lamports == old(account_info).lamports,
            old(account_info).data@.len() != 108 ==> stored == Err::<(), ProgramError>(
                ProgramError::InvalidAccountData,
            ) && final(account_info).data@ == old(account_info).data@,
            old(account_info).data@.len() == 108 ==> stored is Ok && final(account_info).data@
                == self.encoding(),
    {
        if account_info.data.len() != Config::LEN {
            return Err(ProgramError::InvalidAccountData);
        }
        account_info.data = self.to_bytes();
        Ok(())
    }

    /// The stored state byte.
    pub fn state(&self) -> (state: u8)
        ensures
            state == self.state,
    {
        self.state
    }

    /// The seed that tells apart the pools of one pair of mints.
    pub fn seed(&self) -> (seed: u64)
        ensures
            seed == self.seed,
    {
        self.seed
    }

    /// The stored authority; all zero where the pool has none.
    pub fn authority(&self) -> (authority: &Pubkey)
        ensures
            *authority == self.authority,
    {
        &self.authority
    }

    /// The mint of the first reserve.
    pub fn mint_x(&self) -> (mint: &Pubkey)
        ensures
            *mint == self.mint_x,
    {
        &self.mint_x
    }

    /// The mint of the second reserve.
    pub fn mint_y(&self) -> (mint: &Pubkey)
        ensures
            *mint == self.mint_y,
    {
        &self.mint_y
    }

    /// The fee in basis points.
    pub fn fee(&self) -> (fee: u16)
        ensures
            fee == self.fee,
    {
        self.fee
    }

    /// The bump of the config account's derived address.
    pub fn config_bump(&self) -> (bump: [u8; 1])
        ensures
            bump == self.config_bump,
    {
        self.config_bump
    }

    /// Sets the state byte. A byte at or above that of `WithdrawOnly` is
    /// refused with `InvalidAccountData` and the record stays as it was.
    pub fn set_state(&mut self, state: u8) -> (changed: Result<(), ProgramError>)
        ensures
            state >= 3 ==> changed == Err::<(), ProgramError>(ProgramError::InvalidAccountData)
                && *final(self) == *old(self),
            state < 3 ==> changed is Ok && *final(self) == (Config { state, ..*old(self) }),
    {
        if state >= AmmState::WithdrawOnly.as_u8() {
            return Err(ProgramError::InvalidAccountData);
        }
        self.state = state;
        Ok(())
    }

    /// Sets the seed.
    pub fn set_seed(&mut self, seed: u64)
        ensures
            *final(self) == (Config { seed, ..*old(self) }),
    {
        self.seed = seed;
    }

    /// Sets the authority; all zero stands for none.
    pub fn set_authority(&mut self, authority: Pubkey)
        ensures
            *final(self) == (Config { authority, ..*old(self) }),
    {
        self.authority = authority;
    }

    /// Sets the mint of the first reserve.
    pub fn set_mint_x(&mut self, mint_x: Pubkey)
        ensures
            *final(self) == (Config { mint_x, ..*old(self) }),
    {
        self.mint_x = mint_x;
    }

    /// Sets the mint of the second reserve.
    pub fn set_mint_y(&mut self, mint_y: Pubkey)
        ensures
            *final(self) == (Config { mint_y, ..*old(self) }),
    {
        self.mint_y = mint_y;
    }

    /// Sets the fee. A fee of 10 000 basis points or more is refused with
    /// `InvalidAccountData` and the record stays as it was.
    pub fn set_fee(&mut self, fee: u16) -> (changed: Result<(), ProgramError>)
        ensures
            fee >= 10_000 ==> changed == Err::<(), ProgramError>(ProgramError::InvalidAccountData)
                && *final(self) == *old(self),
            fee < 10_000 ==> changed is Ok && *final(self) == (Config { fee, ..*old(self) }),
    {
        if fee >= FEE_LIMIT {
            return Err(ProgramError::InvalidAccountData);
        }
        self.fee = fee;
        Ok(())
    }

    /// Sets the bump of the config account's derived address.
    pub fn set_config_bump(&mut self, config_bump: [u8; 1])
        ensures
            *final(self) == (Config { config_bump, ..*old(self) }),
    {
        self.config_bump = config_bump;
    }

    /// Populates the record of a new pool and marks it `Initialized`.
    ///
    /// With a fee below 10 000 every field is set as given. Otherwise the
    /// call fails with `InvalidAccountData`; the fields that come before
    /// the fee are then already set, the fee and the bump are not.
    pub fn set_inner(
        &mut self,
        seed: u64,
        authority: Pubkey,
        mint_x: Pubkey,
        mint_y: Pubkey,
        fee: u16,
        config_bump: [u8; 1],
    ) -> (populated: Result<(), ProgramError>)
        ensures
            fee < 10_000 ==> populated is Ok && *final(self) == (Config {
                state: 1,
                seed,
                authority,
                mint_x,
                mint_y,
                fee,
                config_bump,
            }) && final(self).wf(),
            fee >= 10_000 ==> populated == Err::<(), ProgramError>(
                ProgramError::InvalidAccountData,
            ) && *final(self) == (Config {
                state: 1,
                seed,
                authority,
                mint_x,
                mint_y,
                ..*old(self)
            }),
    {
        match self.set_state(AmmState::Initialized.as_u8()) {
            Err(e) => {
                return Err(e);
            },
            Ok(_) => {},
        }
        self.set_seed(seed);
        self.set_authority(authority);
        self.set_mint_x(mint_x);
        self.set_mint_y(mint_y);
        match self.set_fee(fee) {
            Err(e) => {
                return Err(e);
            },
            Ok(_) => {},
        }
        self.set_config_bump(config_bump);
        Ok(())
    }

    /// The pool's authority, or `None` where the stored address is the
    /// all-zero one that stands for "no authority".
    pub fn has_authority(&self) -> (authority: Option<Pubkey>)
        ensures
            is_zero_key(self.authority) ==> authority.is_none(),
            !is_zero_key(self.authority) ==> authority == Some(self.authority),
    {
        if pubkey_is_zero(&self.authority) {
            None
        } else {
            Some(self.authority)
        }
    }

    /// Decoding the bytes of a record gives the record back.
    pub proof fn lemma_encoding_round_trip(self)
        ensures
            self.encoding().len() == 108,
            Config::decode(self.encoding()) == self,
    {
        lemma_u64_round_trip(self.seed);
        lemma_u16_round_trip(self.fee);
        let bytes = self.encoding();
        assert(bytes.subrange(1, 9) =~= u64_le_bytes(self.seed));
        assert(bytes.subrange(9, 41) =~= self.authority@);
        assert(bytes.subrange(41, 73) =~= self.mint_x@);
        assert(bytes.subrange(73, 105) =~= self.mint_y@);
        assert(bytes.subrange(105, 107) =~= u16_le_bytes(self.fee));
        lemma_pubkey_at(bytes, 9, self.authority);
        lemma_pubkey_at(bytes, 41, self.mint_x);
        lemma_pubkey_at(bytes, 73, self.mint_y);
        assert(Config::decode(bytes).config_bump =~= self.config_bump);
    }
}

} // verus!
