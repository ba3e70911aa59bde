use vstd::prelude::*;
use crate::account::AccountInfo;
use crate::amm::pool::{
    check_vaults,
    config_signer,
    config_signer_spec,
    paying_pool,
    paying_pool_spec,
    vaults_check,
    LiquidityRequest,
    Reserves,
    XYAmounts,
};
use crate::codec::{le_i64, le_u64, read_i64, read_u64};
use crate::error::ProgramError;
use crate::invocation::{Instruction, Invocation, Signer};
use crate::pubkey::Pubkey;

verus! {

/// The accounts of a withdrawal, in the order the caller lists them.
pub struct WithdrawAccounts<'a> {
    pub user: &'a AccountInfo,
    pub mint_lp: &'a AccountInfo,
    pub vault_x: &'a AccountInfo,
    pub vault_y: &'a AccountInfo,
    pub user_x_ata: &'a AccountInfo,
    pub user_y_ata: &'a AccountInfo,
    pub user_lp_ata: &'a AccountInfo,
    pub config: &'a AccountInfo,
    pub token_program: &'a AccountInfo,
}

impl<'a> WithdrawAccounts<'a> {
    /// Whether the fields are the first nine accounts of the list.
    pub open spec fn taken_from(self, accounts: Seq<AccountInfo>) -> bool {
        &&& accounts.len() >= 9
        &&& *self.user == accounts[0]
        &&& *self.mint_lp == accounts[1]
        &&& *self.vault_x == accounts[2]
        &&& *self.vault_y == accounts[3]
        &&& *self.user_x_ata == accounts[4]
        &&& *self.user_y_ata == accounts[5]
        &&& *self.user_lp_ata == accounts[6]
        &&& *self.config == accounts[7]
        &&& *self.token_program == accounts[8]
    }

    /// Takes the accounts of a withdrawal from the head of a list; fewer than
    /// nine fail with `NotEnoughAccountKeys`.
    pub fn try_from(accounts: &'a [AccountInfo]) -> (parsed: Result<Self, ProgramError>)
        ensures
            accounts@.len() < 9 ==> parsed is Err && parsed->Err_0
                == ProgramError::NotEnoughAccountKeys,
            accounts@.len() >= 9 ==> parsed is Ok && parsed->Ok_0.taken_from(accounts@),
    {
        if accounts.len() < 9 {
            return Err(ProgramError::NotEnoughAccountKeys);
        }
        Ok(
            WithdrawAccounts {
                user: &accounts[0],
                mint_lp: &accounts[1],
                vault_x: &accounts[2],
                vault_y: &accounts[3],
                user_x_ata: &accounts[4],
                user_y_ata: &accounts[5],
                user_lp_ata: &accounts[6],
                config: &accounts[7],
                token_program: &accounts[8],
            },
        )
    }
}

/// The payload of a withdrawal: 32 bytes, little-endian, without padding.
/// `amount` (liquidity shares to burn) at 0, `min_x` at 8, `min_y` at 16
/// (slippage floors), `expiration` (unix time) at 24.
#[derive(Clone, Copy, Debug, PartialEq, Eq, Structural)]
pub struct WithdrawInstructionData {
    pub amount: u64,
    pub min_x: u64,
    pub min_y: u64,
    pub expiration: i64,
}

impl WithdrawInstructionData {
    /// Width of the payload.
    pub const LEN: usize = 32;

    /// The payload that 32 bytes spell.
    pub open spec fn decode(data: Seq<u8>) -> Self
        recommends
            data.len() == 32,
    {
        WithdrawInstructionData {
            amount: le_u64(data.subrange(0, 8)) as u64,
            min_x: le_u64(data.subrange(8, 16)) as u64,
            min_y: le_u64(data.subrange(16, 24)) as u64,
            expiration: le_i64(data.subrange(24, 32)) as i64,
        }
    }

    /// What parsing returns at ledger time `now`: the payload, unless the
    /// size is wrong, the amount is zero, or the deadline has passed; each
    /// of these is `InvalidInstructionData`.
    pub open spec fn parse(data: Seq<u8>, now: i64) -> Result<Self, ProgramError> {
        let payload = Self::decode(data);
        if data.len() != 32 {
            Err(ProgramError::InvalidInstructionData)
        } else if payload.amount == 0 {
            Err(ProgramError::InvalidInstructionData)
        } else if now > payload.expiration {
            Err(ProgramError::InvalidInstructionData)
        } else {
            Ok(payload)
        }
    }

    /// Parses the payload at ledger time `unix_timestamp`.
    pub fn try_from(data: &[u8], unix_timestamp: i64) -> (parsed: Result<Self, ProgramError>)
        ensures
            parsed == Self::parse(data@, unix_timestamp),
    {
        if data.len() != Self::LEN {
            return Err(ProgramError::InvalidInstructionData);
        }
        let result = WithdrawInstructionData {
            amount: read_u64(data, 0),
            min_x: read_u64(data, 8),
            min_y: read_u64(data, 16),
            expiration: read_i64(data, 24),
        };
        if result.amount == 0 {
            return Err(ProgramError::InvalidInstructionData);
        }
        if unix_timestamp > result.expiration {
            return Err(ProgramError::InvalidInstructionData);
        }
        Ok(result)
    }
}

/// Whether a withdrawal redeems every liquidity share there is.
pub open spec fn is_full_exit(data: WithdrawInstructionData, reserves: Reserves) -> bool {
    reserves.supply == data.amount
}

/// The quantities a withdrawal pays out. A full exit redeems exactly the
/// balances of both vaults. Otherwise they are what the curve engine
/// computed (`quote`; `None` where it reported an error, which is
/// `InvalidArgument`). Either of them below its floor is `InvalidArgument`.
pub open spec fn withdraw_amounts(
    data: WithdrawInstructionData,
    reserves: Reserves,
    quote: Option<XYAmounts>,
) -> Result<XYAmounts, ProgramError> {
    let amounts = if is_full_exit(data, reserves) {
        Some(XYAmounts { x: reserves.vault_x, y: reserves.vault_y })
    } else {
        quote
    };
    match amounts {
        None => Err(ProgramError::InvalidArgument),
        Some(amounts) => if amounts.x >= data.min_x && amounts.y >= data.min_y {
            Ok(amounts)
        } else {
            Err(ProgramError::InvalidArgument)
        },
    }
}

/// A withdrawal of liquidity.
pub struct Withdraw<'a> {
    pub accounts: WithdrawAccounts<'a>,
    pub instruction_data: WithdrawInstructionData,
}

impl<'a> Withdraw<'a> {
    /// The tag byte that selects this handler.
    pub const DISCRIMINATOR: u8 = 2;

    /// What `try_from` returns: the accounts are taken first, then the
    /// payload is parsed.
    pub open spec fn parse(data: Seq<u8>, accounts: Seq<AccountInfo>, now: i64) -> Result<
        WithdrawInstructionData,
        ProgramError,
    > {
        if accounts.len() < 9 {
            Err(ProgramError::NotEnoughAccountKeys)
        } else {
            WithdrawInstructionData::parse(data, now)
        }
    }

    /// Parses accounts and payload at ledger time `unix_timestamp`.
    pub fn try_from(data: &[u8], accounts: &'a [AccountInfo], unix_timestamp: i64) -> (parsed:
        Result<Self, ProgramError>)
        ensures
            match parsed {
                Ok(withdraw) => Self::parse(data@, accounts@, unix_timestamp) == Ok::<
                    WithdrawInstructionData,
                    ProgramError,
                >(withdraw.instruction_data) && withdraw.accounts.taken_from(accounts@),
                Err(e) => Self::parse(data@, accounts@, unix_timestamp) == Err::<
                    WithdrawInstructionData,
                    ProgramError,
                >(e),
            },
    {
        let accounts = match WithdrawAccounts::try_from(accounts) {
            Ok(accounts) => accounts,
            Err(e) => {
                return Err(e);
            },
        };
        let instruction_data = match WithdrawInstructionData::try_from(data, unix_timestamp) {
            Ok(instruction_data) => instruction_data,
            Err(e) => {
                return Err(e);
            },
        };
        Ok(Withdraw { accounts, instruction_data })
    }

    /// What a withdrawal does.
    ///
    /// The pool must pay out (`paying_pool_spec`); the vaults must stand
    /// at their derived addresses; the quantities are those of
    /// `withdraw_amounts`. Then both quantities leave the vaults for the
    /// user under the config account's derived signature, and last of all
    /// `amount` shares of the user are burnt.
    pub open spec fn outcome(
        self,
        program_id: Pubkey,
        derived_vault_x: Pubkey,
        derived_vault_y: Pubkey,
        reserves: Reserves,
        quote: Option<XYAmounts>,
    ) -> Result<Seq<Invocation>, ProgramError> {
        let loaded = paying_pool_spec(*self.accounts.config, program_id);
        let vaults = vaults_check(
            self.accounts.vault_x.key,
            self.accounts.vault_y.key,
            derived_vault_x,
            derived_vault_y,
        );
        let amounts = withdraw_amounts(self.instruction_data, reserves, quote);
        if loaded is Err {
            Err(loaded->Err_0)
        } else if vaults is Err {
            Err(vaults->Err_0)
        } else if amounts is Err {
            Err(amounts->Err_0)
        } else {
            Ok(
                seq![
                    Invocation {
                        instruction: Instruction::Transfer {
                            from: self.accounts.vault_x.key,
                            to: self.accounts.user_x_ata.key,
                            authority: self.accounts.config.key,
                            amount: amounts->Ok_0.x,
                        },
                        signer: config_signer_spec(loaded->Ok_0),
                    },
                    Invocation {
                        instruction: Instruction::Transfer {
                            from: self.accounts.vault_y.key,
                            to: self.accounts.user_y_ata.key,
                            authority: self.accounts.config.key,
                            amount: amounts->Ok_0.y,
                        },
                        signer: config_signer_spec(loaded->Ok_0),
                    },
                    Invocation {
                        instruction: Instruction::Burn {
                            account: self.accounts.user_lp_ata.key,
                            mint: self.accounts.mint_lp.key,
                            authority: self.accounts.user.key,
                            amount: self.instruction_data.amount,
                        },
                        signer: Signer::Caller,
                    },
                ],
            )
        }
    }

    /// What to ask of the curve engine before `process`: nothing for a
    /// full exit; otherwise the withdrawal quantities for `amount` shares at
    /// the current reserves and supply, with six decimals of precision.
    pub fn quote_request(&self, reserves: &Reserves) -> (request: Option<LiquidityRequest>)
        ensures
            is_full_exit(self.instruction_data, *reserves) ==> request.is_none(),
            !is_full_exit(self.instruction_data, *reserves) ==> request == Some(
                LiquidityRequest {
                    x: reserves.vault_x,
                    y: reserves.vault_y,
                    l: reserves.supply,
                    a: self.instruction_data.amount,
                    precision: 6,
                },
            ),
    {
        if reserves.supply == self.instruction_data.amount {
            None
        } else {
            Some(
                LiquidityRequest {
                    x: reserves.vault_x,
                    y: reserves.vault_y,
                    l: reserves.supply,
                    a: self.instruction_data.amount,
                    precision: 6,
                },
            )
        }
    }

    /// The quantities to pay out, from the reserves read live and from what
    /// the curve engine answered to `quote_request`.
    pub fn amounts(&self, reserves: &Reserves, quote: Option<XYAmounts>) -> (amounts: Result<
        XYAmounts,
        ProgramError,
    >)
        ensures
            amounts == withdraw_amounts(self.instruction_data, *reserves, quote),
    {
        let amounts = if reserves.supply == self.instruction_data.amount {
            XYAmounts { x: reserves.vault_x, y: reserves.vault_y }
        } else {
            match quote {
                None => {
                    return Err(ProgramError::InvalidArgument);
                },
                Some(amounts) => amounts,
            }
        };
        if !(amounts.x >= self.instruction_data.min_x && amounts.y >= self.instruction_data.min_y) {
            return Err(ProgramError::InvalidArgument);
        }
        Ok(amounts)
    }

    /// Decides the withdrawal. `derived_vault_x` and `derived_vault_y` are the
    /// addresses the runtime derives for the token accounts of
    /// `(config, mint_x)` and `(config, mint_y)`.
    pub fn process(
        &self,
        program_id: &Pubkey,
        derived_vault_x: &Pubkey,
        derived_vault_y: &Pubkey,
        reserves: &Reserves,
        quote: Option<XYAmounts>,
    ) -> (outcome: Result<Vec<Invocation>, ProgramError>)
        ensures
            match outcome {
                Ok(requests) => self.outcome(
                    *program_id,
                    *derived_vault_x,
                    *derived_vault_y,
                    *reserves,
                    quote,
                ) == Ok::<Seq<Invocation>, ProgramError>(requests@),
                Err(e) => self.outcome(
                    *program_id,
                    *derived_vault_x,
                    *derived_vault_y,
                    *reserves,
                    quote,
                ) == Err::<Seq<Invocation>, ProgramError>(e),
            },
    {
        let config = match paying_pool(self.accounts.config, program_id) {
            Ok(config) => config,
            Err(e) => {
                return Err(e);
            },
        };
        match check_vaults(
            &self.accounts.vault_x.key,
            &self.accounts.vault_y.key,
            derived_vault_x,
            derived_vault_y,
        ) {
            Ok(_) => {},
            Err(e) => {
                return Err(e);
            },
        }
        let amounts = match self.amounts(reserves, quote) {
            Ok(amounts) => amounts,
            Err(e) => {
                return Err(e);
            },
        };
        let signer = config_signer(&config);
        let mut requests: Vec<Invocation> = Vec::new();
        requests.push(
            Invocation {
                instruction: Instruction::Transfer {
                    from: self.accounts.vault_x.key,
                    to: self.accounts.user_x_ata.key,
                    authority: self.accounts.config.key,
                    amount: amounts.x,
                },
                signer,
            },
        );
        requests.push(
            Invocation {
                instruction: Instruction::Transfer {
                    from: self.accounts.vault_y.key,
                    to: self.accounts.user_y_ata.key,
                    authority: self.accounts.config.key,
                    amount: amounts.y,
                },
                signer,
            },
        );
        requests.push(
            Invocation {
                instruction: Instruction::Burn {
                    account: self.accounts.user_lp_ata.key,
                    mint: self.accounts.mint_lp.key,
                    authority: self.accounts.user.key,
                    amount: self.instruction_data.amount,
                },
                signer: Signer::Caller,
            },
        );
        assert(requests@ =~= self.outcome(
            *program_id,
            *derived_vault_x,
            *derived_vault_y,
            *reserves,
            quote,
        )->Ok_0);
        Ok(requests)
    }
}

} // verus!
