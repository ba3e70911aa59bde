use vstd::prelude::*;
use crate::account::AccountInfo;
use crate::amm::pool::{
    check_vaults,
    config_signer,
    config_signer_spec,
    trading_pool,
    trading_pool_spec,
    vaults_check,
};
use crate::amm::state::Config;
use crate::codec::{le_i64, le_u64, read_i64, read_u64};
use crate::error::ProgramError;
use crate::invocation::{Instruction, Invocation, Signer};
use crate::pubkey::Pubkey;

verus! {

/// The accounts of a swap, in the order the caller lists them.
pub struct SwapAccounts<'a> {
    pub user: &'a AccountInfo,
    pub user_x_ata: &'a AccountInfo,
    pub user_y_ata: &'a AccountInfo,
    pub vault_x: &'a AccountInfo,
    pub vault_y: &'a AccountInfo,
    pub config: &'a AccountInfo,
    pub token_program: &'a AccountInfo,
}

impl<'a> SwapAccounts<'a> {
    /// Whether the fields are the first seven accounts of the list.
    pub open spec fn taken_from(self, accounts: Seq<AccountInfo>) -> bool {
        &&& accounts.len() >= 7
        &&& *self.user == accounts[0]
        &&& *self.user_x_ata == accounts[1]
        &&& *self.user_y_ata == accounts[2]
        &&& *self.vault_x == accounts[3]
        &&& *self.vault_y == accounts[4]
        &&& *self.config == accounts[5]
        &&& *self.token_program == accounts[6]
    }

    /// Takes the accounts of a swap from the head of a list; fewer than
    /// seven fail with `NotEnoughAccountKeys`.
    pub fn try_from(accounts: &'a [AccountInfo]) -> (parsed: Result<Self, ProgramError>)
        ensures
            accounts@.len() < 7 ==> parsed is Err && parsed->Err_0
                == ProgramError::NotEnoughAccountKeys,
            accounts@.len() >= 7 ==> parsed is Ok && parsed->Ok_0.taken_from(accounts@),
    {
        if accounts.len() < 7 {
            return Err(ProgramError::NotEnoughAccountKeys);
        }
        Ok(
            SwapAccounts {
                user: &accounts[0],
                user_x_ata: &accounts[1],
                user_y_ata: &accounts[2],
                vault_x: &accounts[3],
                vault_y: &accounts[4],
                config: &accounts[5],
                token_program: &accounts[6],
            },
        )
    }
}

/// The payload of a swap: 25 bytes, little-endian, without padding.
/// `is_x` (nonzero: the user pays token X) at 0, `amount` (input) at 1,
/// `min` (least acceptable output) at 9, `expiration` (unix time) at 17.
#[derive(Clone, Copy, Debug, PartialEq, Eq, Structural)]
pub struct SwapInstructionData {
    pub is_x: u8,
    pub amount: u64,
    pub min: u64,
    pub expiration: i64,
}

impl SwapInstructionData {
    /// Width of the payload.
    pub const LEN: usize = 25;

    /// The payload that 25 bytes spell.
    pub open spec fn decode(data: Seq<u8>) -> Self
        recommends
            data.len() == 25,
    {
        SwapInstructionData {
            is_x: data[0],
            amount: le_u64(data.subrange(1, 9)) as u64,
            min: le_u64(data.subrange(9, 17)) as u64,
            expiration: le_i64(data.subrange(17, 25)) as i64,
        }
    }

    /// What parsing returns at ledger time `now`: the payload, unless the
    /// size is wrong, the amount or the floor is zero, or the deadline has
    /// passed; each of these is `InvalidInstructionData`.
    pub open spec fn parse(data: Seq<u8>, now: i64) -> Result<Self, ProgramError> {
        let payload = Self::decode(data);
        if data.len() != 25 {
            Err(ProgramError::InvalidInstructionData)
        } else if payload.amount == 0 || payload.min == 0 {
            Err(ProgramError::InvalidInstructionData)
        } else if now > payload.expiration {
            Err(ProgramError::InvalidInstructionData)
        } else {
            Ok(payload)
        }
    }

    /// Parses the payload at ledger time `unix_timestamp`.
    pub fn try_from(data: &[u8], unix_timestamp: i64) -> (parsed: Result<Self, ProgramError>)
        ensures
            parsed == Self::parse(data@, unix_timestamp),
    {
        if data.len() != Self::LEN {
            return Err(ProgramError::InvalidInstructionData);
        }
        let result = SwapInstructionData {
            is_x: data[0],
            amount: read_u64(data, 1),
            min: read_u64(data, 9),
            expiration: read_i64(data, 17),
        };
        if result.amount == 0 || result.min == 0 {
            return Err(ProgramError::InvalidInstructionData);
        }
        if unix_timestamp > result.expiration {
            return Err(ProgramError::InvalidInstructionData);
        }
        Ok(result)
    }
}

/// What is handed to the curve engine to price a swap: the reserves of both
/// sides, the pool's fee in basis points, the side the user pays, the input
/// and the least acceptable output.
#[derive(Clone, Copy, Debug, PartialEq, Eq, Structural)]
pub struct SwapRequest {
    pub x: u64,
    pub y: u64,
    pub fee: u16,
    pub pays_x: bool,
    pub amount: u64,
    pub min: u64,
}

/// What the curve engine answers: the input it consumed and the output it
/// produced after the fee.
#[derive(Clone, Copy, Debug, PartialEq, Eq, Structural)]
pub struct SwapQuote {
    pub deposit: u64,
    pub withdraw: u64,
}

/// The error code under which a failure of the curve engine surfaces.
pub const CURVE_ERROR: u32 = 1;

/// The two legs of a swap the engine has priced. An engine error (`None`)
/// surfaces as the domain error; a leg of zero is a degenerate trade,
/// `InvalidArgument`.
pub open spec fn swap_legs(quote: Option<SwapQuote>) -> Result<SwapQuote, ProgramError> {
    match quote {
        None => Err(ProgramError::Custom(1)),
        Some(legs) => if legs.deposit == 0 || legs.withdraw == 0 {
            Err(ProgramError::InvalidArgument)
        } else {
            Ok(legs)
        },
    }
}

/// A swap of one reserve token for the other.
pub struct Swap<'a> {
    pub accounts: SwapAccounts<'a>,
    pub instruction_data: SwapInstructionData,
}

impl<'a> Swap<'a> {
    /// The tag byte that selects this handler.
    pub const DISCRIMINATOR: u8 = 3;

    /// What `try_from` returns: the accounts are taken first, then the
    /// payload is parsed.
    pub open spec fn parse(data: Seq<u8>, accounts: Seq<AccountInfo>, now: i64) -> Result<
        SwapInstructionData,
        ProgramError,
    > {
        if accounts.len() < 7 {
            Err(ProgramError::NotEnoughAccountKeys)
        } else {
            SwapInstructionData::parse(data, now)
        }
    }

    /// Parses accounts and payload at ledger time `unix_timestamp`.
    pub fn try_from(data: &[u8], accounts: &'a [AccountInfo], unix_timestamp: i64) -> (parsed:
        Result<Self, ProgramError>)
        ensures
            match parsed {
                Ok(swap) => Self::parse(data@, accounts@, unix_timestamp) == Ok::<
                    SwapInstructionData,
                    ProgramError,
                >(swap.instruction_data) && swap.accounts.taken_from(accounts@),
                Err(e) => Self::parse(data@, accounts@, unix_timestamp) == Err::<
                    SwapInstructionData,
                    ProgramError,
                >(e),
            },
    {
        let accounts = match SwapAccounts::try_from(accounts) {
            Ok(accounts) => accounts,
            Err(e) => {
                return Err(e);
            },
        };
        let instruction_data = match SwapInstructionData::try_from(data, unix_timestamp) {
            Ok(instruction_data) => instruction_data,
            Err(e) => {
                return Err(e);
            },
        };
        Ok(Swap { accounts, instruction_data })
    }

    /// The two transfers of a priced swap: the user pays `deposit` into the
    /// vault of the side paid, and the opposite vault pays `withdraw` to the
    /// user under the config account's derived signature.
    pub open spec fn transfers(self, config: Config, legs: SwapQuote) -> Seq<Invocation> {
        if self.instruction_data.is_x != 0 {
            seq![
                Invocation {
                    instruction: Instruction::Transfer {
                        from: self.accounts.user_x_ata.key,
                        to: self.accounts.vault_x.key,
                        authority: self.accounts.user.key,
                        amount: legs.deposit,
                    },
                    signer: Signer::Caller,
                },
                Invocation {
                    instruction: Instruction::Transfer {
                        from: self.accounts.vault_y.key,
                        to: self.accounts.user_y_ata.key,
                        authority: self.accounts.config.key,
                        amount: legs.withdraw,
                    },
                    signer: config_signer_spec(config),
                },
            ]
        } else {
            seq![
                Invocation {
                    instruction: Instruction::Transfer {
                        from: self.accounts.user_y_ata.key,
                        to: self.accounts.vault_y.key,
                        authority: self.accounts.user.key,
                        amount: legs.deposit,
                    },
                    signer: Signer::Caller,
                },
                Invocation {
                    instruction: Instruction::Transfer {
                        from: self.accounts.vault_x.key,
                        to: self.accounts.user_x_ata.key,
                        authority: self.accounts.config.key,
                        amount: legs.withdraw,
                    },
                    signer: config_signer_spec(config),
                },
            ]
        }
    }

    /// What a swap does.
    ///
    /// The pool must trade (`trading_pool_spec`); the vaults must stand
    /// at their derived addresses; the legs are those of `swap_legs`. Then
    /// both transfers of `transfers` are issued, never one alone.
    pub open spec fn outcome(
        self,
        program_id: Pubkey,
        derived_vault_x: Pubkey,
        derived_vault_y: Pubkey,
        quote: Option<SwapQuote>,
    ) -> Result<Seq<Invocation>, ProgramError> {
        let loaded = trading_pool_spec(*self.accounts.config, program_id);
        let vaults = vaults_check(
            self.accounts.vault_x.key,
            self.accounts.vault_y.key,
            derived_vault_x,
            derived_vault_y,
        );
        let legs = swap_legs(quote);
        if loaded is Err {
            Err(loaded->Err_0)
        } else if vaults is Err {
            Err(vaults->Err_0)
        } else if legs is Err {
            Err(legs->Err_0)
        } else {
            Ok(self.transfers(loaded->Ok_0, legs->Ok_0))
        }
    }

    /// What to ask of the curve engine before `process`: a swap of `amount`
    /// on the side the payload names, at the balances of both vaults read
    /// live and at the pool's fee, with `min` as the floor of the output.
    pub fn quote_request(&self, config: &Config, vault_x: u64, vault_y: u64) -> (request:
        SwapRequest)
        ensures
            request == (SwapRequest {
                x: vault_x,
                y: vault_y,
                fee: config.fee,
                pays_x: self.instruction_data.is_x != 0,
                amount: self.instruction_data.amount,
                min: self.instruction_data.min,
            }),
    {
        SwapRequest {
            x: vault_x,
            y: vault_y,
            fee: config.fee(),
            pays_x: self.instruction_data.is_x != 0,
            amount: self.instruction_data.amount,
            min: self.instruction_data.min,
        }
    }

    /// The legs of the trade, from what the curve engine answered to
    /// `quote_request` (`None` where it reported an error).
    pub fn legs(quote: Option<SwapQuote>) -> (legs: Result<SwapQuote, ProgramError>)
        ensures
            legs == swap_legs(quote),
    {
        match quote {
            None => Err(ProgramError::Custom(CURVE_ERROR)),
            Some(legs) => {
                if legs.deposit == 0 || legs.withdraw == 0 {
                    return Err(ProgramError::InvalidArgument);
                }
                Ok(legs)
            },
        }
    }

    /// Decides the swap. `derived_vault_x` and `derived_vault_y` are the
    /// addresses the runtime derives for the token accounts of
    /// `(config, mint_x)` and `(config, mint_y)`.
    pub fn process(
        &self,
        program_id: &Pubkey,
        derived_vault_x: &Pubkey,
        derived_vault_y: &Pubkey,
        quote: Option<SwapQuote>,
    ) -> (outcome: Result<Vec<Invocation>, ProgramError>)
        ensures
            match outcome {
                Ok(requests) => self.outcome(*program_id, *derived_vault_x, *derived_vault_y, quote)
                    == Ok::<Seq<Invocation>, ProgramError>(requests@),
                Err(e) => self.outcome(*program_id, *derived_vault_x, *derived_vault_y, quote)
                    == Err::<Seq<Invocation>, ProgramError>(e),
            },
    {
        let config = match trading_pool(self.accounts.config, program_id) {
            Ok(config) => config,
            Err(e) => {
                return Err(e);
            },
        };
        match check_vaults(
            &self.accounts.vault_x.key,
            &self.accounts.vault_y.key,
            derived_vault_x,
            derived_vault_y,
        ) {
            Ok(_) => {},
            Err(e) => {
                return Err(e);
            },
        }
        let legs = match Self::legs(quote) {
            Ok(legs) => legs,
            Err(e) => {
                return Err(e);
            },
        };
        let is_x = self.instruction_data.is_x != 0;
        let signer = config_signer(&config);
        let mut requests: Vec<Invocation> = Vec::new();
        if is_x {
            requests.push(
                Invocation {
                    instruction: Instruction::Transfer {
                        from: self.accounts.user_x_ata.key,
                        to: self.accounts.vault_x.key,
                        authority: self.accounts.user.key,
                        amount: legs.deposit,
                    },
                    signer: Signer::Caller,
                },
            );
            requests.push(
                Invocation {
                    instruction: Instruction::Transfer {
                        from: self.accounts.vault_y.key,
                        to: self.accounts.user_y_ata.key,
                        authority: self.accounts.config.key,
                        amount: legs.withdraw,
                    },
                    signer,
                },
            );
        } else {
            requests.push(
                Invocation {
                    instruction: Instruction::Transfer {
                        from: self.accounts.user_y_ata.key,
                        to: self.accounts.vault_y.key,
                        authority: self.accounts.user.key,
                        amount: legs.deposit,
                    },
                    signer: Signer::Caller,
                },
            );
            requests.push(
                Invocation {
                    instruction: Instruction::Transfer {
                        from: self.accounts.vault_x.key,
                        to: self.accounts.user_x_ata.key,
                        authority: self.accounts.config.key,
                        amount: legs.withdraw,
                    },
                    signer,
                },
            );
        }
        assert(requests@ =~= self.transfers(config, legs));
        Ok(requests)
    }
}

} // verus!
