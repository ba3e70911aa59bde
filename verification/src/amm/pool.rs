use vstd::prelude::*;
use crate::account::AccountInfo;
use crate::error::ProgramError;
use crate::amm::state::{AmmState, Config};
use crate::invocation::Signer;
use crate::pubkey::{pubkey_eq, Pubkey};

verus! {

/// Decimal places of a liquidity share, and the precision handed to the
/// curve engine.
pub const LP_DECIMALS: u8 = 6;

/// Width of a mint account of the token program.
pub const MINT_LEN: u64 = 82;

/// What a handler reads live from the pool's token accounts: the supply of
/// liquidity shares and the balances of the two vaults.
#[derive(Clone, Copy, Debug, PartialEq, Eq, Structural)]
pub struct Reserves {
    pub supply: u64,
    pub vault_x: u64,
    pub vault_y: u64,
}

/// Quantities of the two reserve tokens, as the curve engine computes them
/// for a number of liquidity shares.
#[derive(Clone, Copy, Debug, PartialEq, Eq, Structural)]
pub struct XYAmounts {
    pub x: u64,
    pub y: u64,
}

/// What is handed to the curve engine to price liquidity shares: the two
/// reserves, the share supply, the number of shares and the precision.
#[derive(Clone, Copy, Debug, PartialEq, Eq, Structural)]
pub struct LiquidityRequest {
    pub x: u64,
    pub y: u64,
    pub l: u64,
    pub a: u64,
    pub precision: u32,
}

/// The record of a pool that trades: the config account must hold a record
/// of this program, and its state must be `Initialized`
/// (`InvalidAccountData` otherwise).
pub open spec fn trading_pool_spec(config: AccountInfo, program_id: Pubkey) -> Result<
    Config,
    ProgramError,
> {
    let loaded = Config::load_spec(config, program_id);
    if loaded is Ok && loaded->Ok_0.state != 1 {
        Err(ProgramError::InvalidAccountData)
    } else {
        loaded
    }
}

/// The record of a pool that pays out: the config account must hold a
/// record of this program, in any state but `Disabled` and `Uninitialized`
/// (`InvalidAccountData` otherwise), so that liquidity can leave while
/// trading is halted.
pub open spec fn paying_pool_spec(config: AccountInfo, program_id: Pubkey) -> Result<
    Config,
    ProgramError,
> {
    let loaded = Config::load_spec(config, program_id);
    if loaded is Ok && (loaded->Ok_0.state == 2 || loaded->Ok_0.state == 0) {
        Err(ProgramError::InvalidAccountData)
    } else {
        loaded
    }
}

/// Loads the record of a pool for a deposit or a swap.
pub fn trading_pool(config: &AccountInfo, program_id: &Pubkey) -> (pool: Result<
    Config,
    ProgramError,
>)
    ensures
        pool == trading_pool_spec(*config, *program_id),
{
    let record = match Config::load(config, program_id) {
        Ok(record) => record,
        Err(e) => {
            return Err(e);
        },
    };
    if record.state() != AmmState::Initialized.as_u8() {
        return Err(ProgramError::InvalidAccountData);
    }
    Ok(record)
}

/// Loads the record of a pool for a withdrawal.
pub fn paying_pool(config: &AccountInfo, program_id: &Pubkey) -> (pool: Result<
    Config,
    ProgramError,
>)
    ensures
        pool == paying_pool_spec(*config, *program_id),
{
    let record = match Config::load(config, program_id) {
        Ok(record) => record,
        Err(e) => {
            return Err(e);
        },
    };
    if record.state() == AmmState::Disabled.as_u8() || record.state()
        == AmmState::Uninitialized.as_u8() {
        return Err(ProgramError::InvalidAccountData);
    }
    Ok(record)
}

/// The vaults of a pool are the token accounts at the addresses derived for
/// `(config, mint_x)` and `(config, mint_y)`: `InvalidAccountData` for the
/// first of the two that stands elsewhere.
pub open spec fn vaults_check(
    vault_x: Pubkey,
    vault_y: Pubkey,
    derived_vault_x: Pubkey,
    derived_vault_y: Pubkey,
) -> Result<(), ProgramError> {
    if derived_vault_x != vault_x {
        Err(ProgramError::InvalidAccountData)
    } else if derived_vault_y != vault_y {
        Err(ProgramError::InvalidAccountData)
    } else {
        Ok(())
    }
}

/// Holds the vault accounts a caller passed against the derived addresses.
pub fn check_vaults(
    vault_x: &Pubkey,
    vault_y: &Pubkey,
    derived_vault_x: &Pubkey,
    derived_vault_y: &Pubkey,
) -> (checked: Result<(), ProgramError>)
    ensures
        checked == vaults_check(*vault_x, *vault_y, *derived_vault_x, *derived_vault_y),
{
    if !pubkey_eq(derived_vault_x, vault_x) {
        return Err(ProgramError::InvalidAccountData);
    }
    if !pubkey_eq(derived_vault_y, vault_y) {
        return Err(ProgramError::InvalidAccountData);
    }
    Ok(())
}

/// The derived signature of a pool's config account.
pub open spec fn config_signer_spec(config: Config) -> Signer {
    Signer::Config {
        seed: config.seed,
        mint_x: config.mint_x,
        mint_y: config.mint_y,
        bump: config.config_bump,
    }
}

/// The derived signature of a pool's config account, from its record.
pub fn config_signer(config: &Config) -> (signer: Signer)
    ensures
        signer == config_signer_spec(*config),
{
    Signer::Config {
        seed: config.seed,
        mint_x: config.mint_x,
        mint_y: config.mint_y,
        bump: config.config_bump,
    }
}

} // verus!
