//! What holds of a refund for every input.

use vstd::prelude::*;
use crate::account::AccountInfo;
use crate::error::ProgramError;
use crate::escrow::refund::refund_outcome;
use crate::escrow::state::Escrow;
use crate::invocation::{Instruction, Invocation};
use crate::pubkey::Pubkey;

verus! {

/// An account at any other address than the one derived from the stored
/// seeds is refused with `InvalidAccountOwner`, whoever controls it and
/// whatever record it holds.
pub proof fn lemma_spoofed_escrow_rejected(
    maker: AccountInfo,
    escrow: AccountInfo,
    vault: AccountInfo,
    maker_ata_a: AccountInfo,
    derived_escrow: Pubkey,
    vault_amount: u64,
)
    requires
        escrow.data@.len() == 113,
        derived_escrow != escrow.key,
    ensures
        refund_outcome(maker, escrow, vault, maker_ata_a, derived_escrow, vault_amount) == Err::<
            Seq<Invocation>,
            ProgramError,
        >(ProgramError::InvalidAccountOwner),
{
}

/// An escrow at its derived address whose stored maker is not the signer
/// is refused with `InvalidAccountData`.
pub proof fn lemma_foreign_maker_rejected(
    maker: AccountInfo,
    escrow: AccountInfo,
    vault: AccountInfo,
    maker_ata_a: AccountInfo,
    derived_escrow: Pubkey,
    vault_amount: u64,
)
    requires
        escrow.data@.len() == 113,
        derived_escrow == escrow.key,
        Escrow::decode(escrow.data@).maker != maker.key,
    ensures
        refund_outcome(maker, escrow, vault, maker_ata_a, derived_escrow, vault_amount) == Err::<
            Seq<Invocation>,
            ProgramError,
        >(ProgramError::InvalidAccountData),
{
}

/// A refund that succeeds sends the vault's whole balance, as read, to the
/// maker, then closes the vault, then the escrow, and credits the maker
/// with both.
pub proof fn lemma_refund_returns_whole_balance(
    maker: AccountInfo,
    escrow: AccountInfo,
    vault: AccountInfo,
    maker_ata_a: AccountInfo,
    derived_escrow: Pubkey,
    vault_amount: u64,
)
    requires
        refund_outcome(maker, escrow, vault, maker_ata_a, derived_escrow, vault_amount) is Ok,
    ensures
        ({
            let requests = refund_outcome(
                maker,
                escrow,
                vault,
                maker_ata_a,
                derived_escrow,
                vault_amount,
            )->Ok_0;
            &&& requests.len() == 3
            &&& requests[0].instruction == (Instruction::Transfer {
                from: vault.key,
                to: maker_ata_a.key,
                authority: escrow.key,
                amount: vault_amount,
            })
            &&& requests[1].instruction == (Instruction::CloseAccount {
                account: vault.key,
                destination: maker.key,
                authority: escrow.key,
            })
            &&& requests[2].instruction == (Instruction::CloseProgramAccount {
                account: escrow.key,
                destination: maker.key,
            })
            &&& derived_escrow == escrow.key
            &&& Escrow::decode(escrow.data@).maker == maker.key
        }),
{
}

} // verus!
