//! What holds of the pool's handlers for every input.

use vstd::prelude::*;
use crate::amm::deposit::{deposit_amounts, is_bootstrap, Deposit, DepositInstructionData};
use crate::amm::initialize::Initialize;
use crate::amm::pool::{Reserves, XYAmounts};
use crate::amm::state::Config;
use crate::amm::swap::{Swap, SwapInstructionData, SwapQuote};
use crate::amm::withdraw::{withdraw_amounts, WithdrawInstructionData};
use crate::error::ProgramError;
use crate::invocation::Instruction;
use crate::pubkey::Pubkey;

verus! {

/// A deposit that succeeds mints exactly the number of shares the payload
/// asks for, after two transfers that stay within the payload's caps.
pub proof fn lemma_deposit_mints_requested_amount(
    deposit: Deposit,
    program_id: Pubkey,
    derived_vault_x: Pubkey,
    derived_vault_y: Pubkey,
    reserves: Reserves,
    quote: Option<XYAmounts>,
)
    requires
        deposit.outcome(program_id, derived_vault_x, derived_vault_y, reserves, quote) is Ok,
    ensures
        ({
            let requests = deposit.outcome(
                program_id,
                derived_vault_x,
                derived_vault_y,
                reserves,
                quote,
            )->Ok_0;
            &&& requests.len() == 3
            &&& requests[0].instruction is Transfer
            &&& requests[0].instruction->Transfer_amount <= deposit.instruction_data.max_x
            &&& requests[1].instruction is Transfer
            &&& requests[1].instruction->Transfer_amount <= deposit.instruction_data.max_y
            &&& requests[2].instruction is MintTo
            &&& requests[2].instruction->MintTo_amount == deposit.instruction_data.amount
        }),
{
}

/// The first deposit into an empty pool moves exactly the caps, whatever
/// the curve engine might have answered.
pub proof fn lemma_first_deposit_sets_price(
    data: DepositInstructionData,
    reserves: Reserves,
    quote: Option<XYAmounts>,
)
    requires
        is_bootstrap(reserves),
    ensures
        deposit_amounts(data, reserves, quote) == Ok::<XYAmounts, ProgramError>(
            XYAmounts { x: data.max_x, y: data.max_y },
        ),
{
}

/// A withdrawal of the whole share supply redeems the full balances of both
/// vaults, whatever the curve engine might have answered: it succeeds
/// exactly where both balances reach the payload's floors, and then leaves
/// nothing behind.
pub proof fn lemma_full_exit_leaves_no_dust(
    data: WithdrawInstructionData,
    reserves: Reserves,
    quote: Option<XYAmounts>,
)
    requires
        data.amount == reserves.supply,
    ensures
        withdraw_amounts(data, reserves, quote) is Ok <==> (reserves.vault_x >= data.min_x
            && reserves.vault_y >= data.min_y),
        withdraw_amounts(data, reserves, quote) is Ok ==> withdraw_amounts(
            data,
            reserves,
            quote,
        )->Ok_0 == (XYAmounts { x: reserves.vault_x, y: reserves.vault_y }),
{
}

/// Round trip through an empty pool: who deposits `amount` shares first and
/// at once withdraws the same `amount` gets back no more than was paid in
/// (in fact, the same), of either token.
pub proof fn lemma_first_deposit_round_trip(
    paid_in: DepositInstructionData,
    paid_out: WithdrawInstructionData,
    deposit_quote: Option<XYAmounts>,
    withdraw_quote: Option<XYAmounts>,
)
    requires
        paid_out.amount == paid_in.amount,
        withdraw_amounts(
            paid_out,
            Reserves { supply: paid_in.amount, vault_x: paid_in.max_x, vault_y: paid_in.max_y },
            withdraw_quote,
        ) is Ok,
    ensures
        ({
            let empty = Reserves { supply: 0, vault_x: 0, vault_y: 0 };
            let x_y_in = deposit_amounts(paid_in, empty, deposit_quote);
            let after = Reserves {
                supply: paid_in.amount,
                vault_x: x_y_in->Ok_0.x,
                vault_y: x_y_in->Ok_0.y,
            };
            let x_y_out = withdraw_amounts(paid_out, after, withdraw_quote);
            &&& x_y_in is Ok
            &&& x_y_out is Ok
            &&& x_y_out->Ok_0.x <= x_y_in->Ok_0.x
            &&& x_y_out->Ok_0.y <= x_y_in->Ok_0.y
        }),
{
}

/// A deposit payload whose deadline lies before the ledger time is refused
/// with `InvalidInstructionData`, whatever its amounts.
pub proof fn lemma_expired_deposit_rejected(data: Seq<u8>, now: i64)
    requires
        DepositInstructionData::decode(data).expiration < now,
    ensures
        DepositInstructionData::parse(data, now) == Err::<DepositInstructionData, ProgramError>(
            ProgramError::InvalidInstructionData,
        ),
{
}

/// A withdrawal payload whose deadline lies before the ledger time is
/// refused with `InvalidInstructionData`, whatever its amounts.
pub proof fn lemma_expired_withdraw_rejected(data: Seq<u8>, now: i64)
    requires
        WithdrawInstructionData::decode(data).expiration < now,
    ensures
        WithdrawInstructionData::parse(data, now) == Err::<WithdrawInstructionData, ProgramError>(
            ProgramError::InvalidInstructionData,
        ),
{
}

/// A swap payload whose deadline lies before the ledger time is refused
/// with `InvalidInstructionData`, whatever its amounts.
pub proof fn lemma_expired_swap_rejected(data: Seq<u8>, now: i64)
    requires
        SwapInstructionData::decode(data).expiration < now,
    ensures
        SwapInstructionData::parse(data, now) == Err::<SwapInstructionData, ProgramError>(
            ProgramError::InvalidInstructionData,
        ),
{
}

/// A payload is accepted only while its deadline has not passed.
pub proof fn lemma_accepted_payload_not_expired(data: Seq<u8>, now: i64)
    ensures
        DepositInstructionData::parse(data, now) is Ok ==> now <= DepositInstructionData::parse(
            data,
            now,
        )->Ok_0.expiration,
        WithdrawInstructionData::parse(data, now) is Ok ==> now <= WithdrawInstructionData::parse(
            data,
            now,
        )->Ok_0.expiration,
        SwapInstructionData::parse(data, now) is Ok ==> now <= SwapInstructionData::parse(
            data,
            now,
        )->Ok_0.expiration,
{
}

/// A swap that succeeds issues both of its transfers, in opposite
/// directions, with the quantities the engine answered, neither of them
/// zero; the user always pays first.
pub proof fn lemma_swap_moves_both_legs(
    swap: Swap,
    program_id: Pubkey,
    derived_vault_x: Pubkey,
    derived_vault_y: Pubkey,
    quote: Option<SwapQuote>,
)
    requires
        swap.outcome(program_id, derived_vault_x, derived_vault_y, quote) is Ok,
    ensures
        ({
            let requests = swap.outcome(program_id, derived_vault_x, derived_vault_y, quote)->Ok_0;
            let pays_x = swap.instruction_data.is_x != 0;
            &&& quote is Some
            &&& quote->Some_0.deposit > 0
            &&& quote->Some_0.withdraw > 0
            &&& requests.len() == 2
            &&& requests[0].instruction == (Instruction::Transfer {
                from: if pays_x {
                    swap.accounts.user_x_ata.key
                } else {
                    swap.accounts.user_y_ata.key
                },
                to: if pays_x {
                    swap.accounts.vault_x.key
                } else {
                    swap.accounts.vault_y.key
                },
                authority: swap.accounts.user.key,
                amount: quote->Some_0.deposit,
            })
            &&& requests[1].instruction == (Instruction::Transfer {
                from: if pays_x {
                    swap.accounts.vault_y.key
                } else {
                    swap.accounts.vault_x.key
                },
                to: if pays_x {
                    swap.accounts.user_y_ata.key
                } else {
                    swap.accounts.user_x_ata.key
                },
                authority: swap.accounts.config.key,
                amount: quote->Some_0.withdraw,
            })
        }),
{
}

/// A pool is created exactly where the fee is below 10 000 basis points,
/// and the fee then comes back unchanged from the bytes of the stored
/// record.
pub proof fn lemma_admissible_fee_is_retrievable(
    initialize: Initialize,
    program_id: Pubkey,
)
    requires
        initialize.instruction_data.fee < 10_000,
    ensures
        ({
            let record = initialize.plan(program_id).record;
            &&& record.wf()
            &&& record.state == 1
            &&& record.fee == initialize.instruction_data.fee
            &&& Config::decode(record.encoding()) == record
        }),
{
    initialize.plan(program_id).record.lemma_encoding_round_trip();
}

} // verus!
