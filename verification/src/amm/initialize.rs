use vstd::prelude::*;
use crate::account::AccountInfo;
use crate::amm::pool::{LP_DECIMALS, MINT_LEN};
use crate::amm::state::Config;
use crate::codec::{le_u16, le_u64, read_u16, read_u64};
use crate::error::ProgramError;
use crate::invocation::{Instruction, Invocation, Signer};
use crate::programs::{token_program, token_program_id};
use crate::pubkey::{lemma_pubkey_at, pubkey_at, pubkey_from_slice, Pubkey};

verus! {

/// The accounts of a pool's creation, in the order the caller lists them.
pub struct InitializeAccounts<'a> {
    pub initializer: &'a AccountInfo,
    pub mint_lp: &'a AccountInfo,
    pub config: &'a AccountInfo,
    pub system_program: &'a AccountInfo,
    pub token_program: &'a AccountInfo,
}

impl<'a> InitializeAccounts<'a> {
    /// Whether the fields are the first five accounts of the list.
    pub open spec fn taken_from(self, accounts: Seq<AccountInfo>) -> bool {
        &&& accounts.len() >= 5
        &&& *self.initializer == accounts[0]
        &&& *self.mint_lp == accounts[1]
        &&& *self.config == accounts[2]
        &&& *self.system_program == accounts[3]
        &&& *self.token_program == accounts[4]
    }

    /// Takes the accounts from the head of a list; fewer than five fail
    /// with `NotEnoughAccountKeys`.
    pub fn try_from(accounts: &'a [AccountInfo]) -> (parsed: Result<Self, ProgramError>)
        ensures
            accounts@.len() < 5 ==> parsed is Err && parsed->Err_0
                == ProgramError::NotEnoughAccountKeys,
            accounts@.len() >= 5 ==> parsed is Ok && parsed->Ok_0.taken_from(accounts@),
    {
        if accounts.len() < 5 {
            return Err(ProgramError::NotEnoughAccountKeys);
        }
        Ok(
            InitializeAccounts {
                initializer: &accounts[0],
                mint_lp: &accounts[1],
                config: &accounts[2],
                system_program: &accounts[3],
                token_program: &accounts[4],
            },
        )
    }
}

/// The payload of a pool's creation, little-endian, without padding:
/// `seed` at 0, `fee` at 8, `mint_x` at 10, `mint_y` at 42, `config_bump`
/// at 74, `lp_bump` at 75 and, in the longer of the two accepted shapes,
/// `authority` at 76. The shorter shape stands for "no authority": all zero.
#[derive(Clone, Copy, Debug, PartialEq, Eq)]
pub struct InitializeInstructionData {
    pub seed: u64,
    pub fee: u16,
    pub mint_x: [u8; 32],
    pub mint_y: [u8; 32],
    pub config_bump: [u8; 1],
    pub lp_bump: [u8; 1],
    pub authority: [u8; 32],
}

impl InitializeInstructionData {
    /// Width of the payload with an authority.
    pub const LEN_WITH_AUTHORITY: usize = 108;

    /// Width of the payload without an authority.
    pub const LEN: usize = 76;

    /// The payload that 108 bytes spell.
    pub open spec fn decode(data: Seq<u8>) -> Self
        recommends
            data.len() == 108,
    {
        InitializeInstructionData {
            seed: le_u64(data.subrange(0, 8)) as u64,
            fee: le_u16(data.subrange(8, 10)) as u16,
            mint_x: pubkey_at(data, 10),
            mint_y: pubkey_at(data, 42),
            config_bump: [data[74]],
            lp_bump: [data[75]],
            authority: pubkey_at(data, 76),
        }
    }

    /// What parsing returns: 108 bytes are read as they are, 76 bytes are
    /// read as if 32 zero bytes followed them, and any other size is
    /// `InvalidInstructionData`.
    pub open spec fn parse(data: Seq<u8>) -> Result<Self, ProgramError> {
        if data.len() == 108 {
            Ok(Self::decode(data))
        } else if data.len() == 76 {
            Ok(Self::decode(data + Seq::new(32, |i: int| 0u8)))
        } else {
            Err(ProgramError::InvalidInstructionData)
        }
    }

    /// Parses the payload in either shape.
    pub fn try_from(data: &[u8]) -> (parsed: Result<Self, ProgramError>)
        ensures
            parsed == Self::parse(data@),
    {
        let len: usize = data.len();
        if len != Self::LEN_WITH_AUTHORITY && len != Self::LEN {
            return Err(ProgramError::InvalidInstructionData);
        }
        let config_bump: [u8; 1] = [data[74]];
        let lp_bump: [u8; 1] = [data[75]];
        let authority: [u8; 32] = if len == Self::LEN_WITH_AUTHORITY {
            pubkey_from_slice(data, 76)
        } else {
            [0u8; 32]
        };
        let result = InitializeInstructionData {
            seed: read_u64(data, 0),
            fee: read_u16(data, 8),
            mint_x: pubkey_from_slice(data, 10),
            mint_y: pubkey_from_slice(data, 42),
            config_bump,
            lp_bump,
            authority,
        };
        proof {
            let full = if len == 108 {
                data@
            } else {
                data@ + Seq::new(32, |i: int| 0u8)
            };
            assert(full.subrange(0, 8) =~= data@.subrange(0, 8));
            assert(full.subrange(8, 10) =~= data@.subrange(8, 10));
            assert(pubkey_at(full, 10) =~= pubkey_at(data@, 10));
            assert(pubkey_at(full, 42) =~= pubkey_at(data@, 42));
            assert(config_bump =~= [full[74]]);
            assert(lp_bump =~= [full[75]]);
            if len != 108 {
                assert(full.subrange(76, 108) =~= authority@);
                lemma_pubkey_at(full, 76, authority);
            }
            assert(result == Self::decode(full));
        }
        Ok(result)
    }
}

/// What the creation of a pool consists of, in the order in which it is
/// carried out.
#[derive(Clone, Copy, Debug, PartialEq, Eq)]
pub struct InitializePlan {
    /// Creates the config account at its derived address.
    pub create_config: Invocation,
    /// The record to store in the config account.
    pub record: Config,
    /// Creates the liquidity mint's account at its derived address.
    pub create_mint_lp: Invocation,
    /// Initialises the liquidity mint, with the config account as the only
    /// authority that may mint.
    pub initialize_mint_lp: Invocation,
}

/// The creation of a pool.
pub struct Initialize<'a> {
    pub accounts: InitializeAccounts<'a>,
    pub instruction_data: InitializeInstructionData,
}

impl<'a> Initialize<'a> {
    /// The tag byte that selects this handler.
    pub const DISCRIMINATOR: u8 = 0;

    /// What `try_from` returns: the accounts are taken first, then the
    /// payload is parsed.
    pub open spec fn parse(data: Seq<u8>, accounts: Seq<AccountInfo>) -> Result<
        InitializeInstructionData,
        ProgramError,
    > {
        if accounts.len() < 5 {
            Err(ProgramError::NotEnoughAccountKeys)
        } else {
            InitializeInstructionData::parse(data)
        }
    }

    /// Parses accounts and payload.
    pub fn try_from(data: &[u8], accounts: &'a [AccountInfo]) -> (parsed: Result<
        Self,
        ProgramError,
    >)
        ensures
            match parsed {
                Ok(initialize) => Self::parse(data@, accounts@) == Ok::<
                    InitializeInstructionData,
                    ProgramError,
                >(initialize.instruction_data) && initialize.accounts.taken_from(accounts@),
                Err(e) => Self::parse(data@, accounts@) == Err::<
                    InitializeInstructionData,
                    ProgramError,
                >(e),
            },
    {
        let accounts = match InitializeAccounts::try_from(accounts) {
            Ok(accounts) => accounts,
            Err(e) => {
                return Err(e);
            },
        };
        let instruction_data = match InitializeInstructionData::try_from(data) {
            Ok(instruction_data) => instruction_data,
            Err(e) => {
                return Err(e);
            },
        };
        Ok(Initialize { accounts, instruction_data })
    }

    /// The plan of a creation whose fee is admissible.
    ///
    /// The config account gets exactly the width of the record, is paid by
    /// the initializer and controlled by this program; the record is the
    /// payload's, in state `Initialized`; the liquidity mint gets 82 bytes
    /// under the token program and six decimals, and only the config
    /// account may mint.
    pub open spec fn plan(self, program_id: Pubkey) -> InitializePlan {
        let data = self.instruction_data;
        InitializePlan {
            create_config: Invocation {
                instruction: Instruction::CreateAccount {
                    from: self.accounts.initializer.key,
                    to: self.accounts.config.key,
                    space: 108,
                    owner: program_id,
                },
                signer: Signer::Config {
                    seed: data.seed,
                    mint_x: data.mint_x,
                    mint_y: data.mint_y,
                    bump: data.config_bump,
                },
            },
            record: Config {
                state: 1,
                seed: data.seed,
                authority: data.authority,
                mint_x: data.mint_x,
                mint_y: data.mint_y,
                fee: data.fee,
                config_bump: data.config_bump,
            },
            create_mint_lp: Invocation {
                instruction: Instruction::CreateAccount {
                    from: self.accounts.initializer.key,
                    to: self.accounts.mint_lp.key,
                    space: 82,
                    owner: token_program(),
                },
                signer: Signer::MintLp { config: self.accounts.config.key, bump: data.lp_bump },
            },
            initialize_mint_lp: Invocation {
                instruction: Instruction::InitializeMint2 {
                    mint: self.accounts.mint_lp.key,
                    decimals: 6,
                    mint_authority: self.accounts.config.key,
                },
                signer: Signer::Caller,
            },
        }
    }

    /// Decides the creation of a pool: `InvalidAccountData` for a fee of
    /// 10 000 basis points or more, the plan for every other payload.
    pub fn process(&self, program_id: &Pubkey) -> (outcome: Result<InitializePlan, ProgramError>)
        ensures
            self.instruction_data.fee >= 10_000 ==> outcome == Err::<InitializePlan, ProgramError>(
                ProgramError::InvalidAccountData,
            ),
            self.instruction_data.fee < 10_000 ==> outcome == Ok::<InitializePlan, ProgramError>(
                self.plan(*program_id),
            ) && outcome->Ok_0.record.wf(),
    {
        let data = &self.instruction_data;
        let create_config = Invocation {
            instruction: Instruction::CreateAccount {
                from: self.accounts.initializer.key,
                to: self.accounts.config.key,
                space: Config::LEN as u64,
                owner: *program_id,
            },
            signer: Signer::Config {
                seed: data.seed,
                mint_x: data.mint_x,
                mint_y: data.mint_y,
                bump: data.config_bump,
            },
        };
        let mut record = Config {
            state: 0,
            seed: 0,
            authority: [0u8; 32],
            mint_x: [0u8; 32],
            mint_y: [0u8; 32],
            fee: 0,
            config_bump: [0u8; 1],
        };
        match record.set_inner(
            data.seed,
            data.authority,
            data.mint_x,
            data.mint_y,
            data.fee,
            data.config_bump,
        ) {
            Ok(_) => {},
            Err(e) => {
                return Err(e);
            },
        }
        let create_mint_lp = Invocation {
            instruction: Instruction::CreateAccount {
                from: self.accounts.initializer.key,
                to: self.accounts.mint_lp.key,
                space: MINT_LEN,
                owner: token_program_id(),
            },
            signer: Signer::MintLp { config: self.accounts.config.key, bump: data.lp_bump },
        };
        let initialize_mint_lp = Invocation {
            instruction: Instruction::InitializeMint2 {
                mint: self.accounts.mint_lp.key,
                decimals: LP_DECIMALS,
                mint_authority: self.accounts.config.key,
            },
            signer: Signer::Caller,
        };
        Ok(InitializePlan { create_config, record, create_mint_lp, initialize_mint_lp })
    }
}

} // verus!
