use vstd::prelude::*;
use crate::account::AccountInfo;
use crate::error::ProgramError;
use crate::escrow::helpers::{
    derived_address_check,
    verify_derived_address,
    AssociatedTokenAccount,
    MintInterface,
    ProgramAccount,
    SignerAccount,
};
use crate::escrow::state::Escrow;
use crate::invocation::{Instruction, Invocation, Signer};
use crate::programs::token_program;
use crate::pubkey::{pubkey_eq, Pubkey};

verus! {

/// The accounts of a refund, in the order the caller lists them.
pub struct RefundAccounts<'a> {
    pub maker: &'a AccountInfo,
    pub escrow: &'a AccountInfo,
    pub mint_a: &'a AccountInfo,
    pub vault: &'a AccountInfo,
    pub maker_ata_a: &'a AccountInfo,
    pub system_program: &'a AccountInfo,
    pub token_program: &'a AccountInfo,
}

/// What the guards of a refund say of an account list: the first failure in
/// the order arity, maker's signature, escrow's controller, mint's
/// controller, vault's controller, vault's address.
pub open spec fn refund_guards(
    accounts: Seq<AccountInfo>,
    program_id: Pubkey,
    derived_vault: Pubkey,
) -> Result<(), ProgramError> {
    if accounts.len() != 8 {
        Err(ProgramError::NotEnoughAccountKeys)
    } else if !accounts[0].is_signer {
        Err(ProgramError::MissingRequiredSignature)
    } else if accounts[1].owner != program_id {
        Err(ProgramError::InvalidAccountOwner)
    } else if accounts[2].owner != token_program() {
        Err(ProgramError::InvalidAccountOwner)
    } else if accounts[3].owner != accounts[6].key {
        Err(ProgramError::InvalidAccountOwner)
    } else if accounts[3].key != derived_vault {
        Err(ProgramError::InvalidAccountData)
    } else {
        Ok(())
    }
}

impl<'a> RefundAccounts<'a> {
    /// Whether the fields are the first seven accounts of the list.
    pub open spec fn taken_from(self, accounts: Seq<AccountInfo>) -> bool {
        &&& accounts.len() >= 7
        &&& *self.maker == accounts[0]
        &&& *self.escrow == accounts[1]
        &&& *self.mint_a == accounts[2]
        &&& *self.vault == accounts[3]
        &&& *self.maker_ata_a == accounts[4]
        &&& *self.system_program == accounts[5]
        &&& *self.token_program == accounts[6]
    }

    /// Takes the accounts of a refund from a list of exactly eight (the
    /// last is not read) and runs the guards. `derived_vault` is the address
    /// the runtime derives for the token account of `(escrow, mint_a)`.
    pub fn try_from(
        accounts: &'a [AccountInfo],
        program_id: &Pubkey,
        derived_vault: &Pubkey,
    ) -> (parsed: Result<Self, ProgramError>)
        ensures
            match parsed {
                Ok(taken) => refund_guards(accounts@, *program_id, *derived_vault) is Ok
                    && taken.taken_from(accounts@),
                Err(e) => refund_guards(accounts@, *program_id, *derived_vault) == Err::<
                    (),
                    ProgramError,
                >(e),
            },
    {
        if accounts.len() != 8 {
            return Err(ProgramError::NotEnoughAccountKeys);
        }
        let maker = &accounts[0];
        let escrow = &accounts[1];
        let mint_a = &accounts[2];
        let vault = &accounts[3];
        let maker_ata_a = &accounts[4];
        let system_program = &accounts[5];
        let token_program = &accounts[6];
        match SignerAccount::check(maker) {
            Err(e) => {
                return Err(e);
            },
            Ok(_) => {},
        }
        match ProgramAccount::check(escrow, program_id) {
            Err(e) => {
                return Err(e);
            },
            Ok(_) => {},
        }
        match MintInterface::check(mint_a) {
            Err(e) => {
                return Err(e);
            },
            Ok(_) => {},
        }
        match AssociatedTokenAccount::check(vault, token_program, derived_vault) {
            Err(e) => {
                return Err(e);
            },
            Ok(_) => {},
        }
        Ok(
            RefundAccounts {
                maker,
                escrow,
                mint_a,
                vault,
                maker_ata_a,
                system_program,
                token_program,
            },
        )
    }
}

/// A refund: the maker takes back what the escrow's vault holds and the
/// escrow is closed.
pub struct Refund<'a> {
    pub accounts: RefundAccounts<'a>,
}

/// What a refund does, given the address the runtime derived from the
/// stored seeds and the balance read from the vault.
///
/// The escrow's bytes must be a record; the derived address must be the
/// escrow's own (`InvalidAccountOwner` otherwise); the stored maker must be
/// the signer (`InvalidAccountData` otherwise). Then the whole balance goes
/// back to the maker, the vault is closed, and the escrow is closed, the
/// first two under the escrow's derived signature.
pub open spec fn refund_outcome(
    maker: AccountInfo,
    escrow: AccountInfo,
    vault: AccountInfo,
    maker_ata_a: AccountInfo,
    derived_escrow: Pubkey,
    vault_amount: u64,
) -> Result<Seq<Invocation>, ProgramError> {
    let record = Escrow::decode(escrow.data@);
    let signer = Signer::Escrow { maker: maker.key, seed: record.seed, bump: record.bump };
    if escrow.data@.len() != 113 {
        Err(ProgramError::InvalidAccountData)
    } else if derived_address_check(derived_escrow, escrow.key) is Err {
        Err(ProgramError::InvalidAccountOwner)
    } else if maker.key != record.maker {
        Err(ProgramError::InvalidAccountData)
    } else {
        Ok(
            seq![
                Invocation {
                    instruction: Instruction::Transfer {
                        from: vault.key,
                        to: maker_ata_a.key,
                        authority: escrow.key,
                        amount: vault_amount,
                    },
                    signer,
                },
                Invocation {
                    instruction: Instruction::CloseAccount {
                        account: vault.key,
                        destination: maker.key,
                        authority: escrow.key,
                    },
                    signer,
                },
                Invocation {
                    instruction: Instruction::CloseProgramAccount {
                        account: escrow.key,
                        destination: maker.key,
                    },
                    signer: Signer::Caller,
                },
            ],
        )
    }
}

impl<'a> Refund<'a> {
    /// The tag byte that selects this handler.
    pub const DISCRIMINATOR: u8 = 2;

    /// Parses and guards the accounts of a refund.
    pub fn try_from(
        accounts: &'a [AccountInfo],
        program_id: &Pubkey,
        derived_vault: &Pubkey,
    ) -> (parsed: Result<Self, ProgramError>)
        ensures
            match parsed {
                Ok(refund) => refund_guards(accounts@, *program_id, *derived_vault) is Ok
                    && refund.accounts.taken_from(accounts@),
                Err(e) => refund_guards(accounts@, *program_id, *derived_vault) == Err::<
                    (),
                    ProgramError,
                >(e),
            },
    {
        match RefundAccounts::try_from(accounts, program_id, derived_vault) {
            Ok(accounts) => Ok(Refund { accounts }),
            Err(e) => Err(e),
        }
    }

    /// The request that makes sure the maker's token account exists: the
    /// maker may have closed it. It is issued before `process`.
    pub fn init_maker_ata(&self) -> (request: Invocation)
        ensures
            request == (Invocation {
                instruction: Instruction::CreateIdempotent {
                    funding_account: self.accounts.maker.key,
                    account: self.accounts.maker_ata_a.key,
                    wallet: self.accounts.maker.key,
                    mint: self.accounts.mint_a.key,
                    system_program: self.accounts.system_program.key,
                    token_program: self.accounts.token_program.key,
                },
                signer: Signer::Caller,
            }),
    {
        AssociatedTokenAccount::init_if_needed(
            self.accounts.maker_ata_a,
            self.accounts.mint_a,
            self.accounts.maker,
            self.accounts.maker,
            self.accounts.system_program,
            self.accounts.token_program,
        )
    }

    /// The seeds from which the escrow's address is to be derived: the tag,
    /// the signing maker, and the seed and bump that the record stores.
    /// Fails with `InvalidAccountData` where the escrow holds no record.
    pub fn escrow_signer(&self) -> (signer: Result<Signer, ProgramError>)
        ensures
            self.accounts.escrow.data@.len() != 113 ==> signer == Err::<Signer, ProgramError>(
                ProgramError::InvalidAccountData,
            ),
            self.accounts.escrow.data@.len() == 113 ==> signer == Ok::<Signer, ProgramError>(
                Signer::Escrow {
                    maker: self.accounts.maker.key,
                    seed: Escrow::decode(self.accounts.escrow.data@).seed,
                    bump: Escrow::decode(self.accounts.escrow.data@).bump,
                },
            ),
    {
        match Escrow::load(self.accounts.escrow.data.as_slice()) {
            Err(e) => Err(e),
            Ok(record) => Ok(
                Signer::Escrow {
                    maker: self.accounts.maker.key,
                    seed: record.seed,
                    bump: record.bump,
                },
            ),
        }
    }

    /// Decides the refund. `derived_escrow` is the address the runtime
    /// derived from `escrow_signer`; `vault_amount` is the vault's balance,
    /// read live.
    pub fn process(&self, derived_escrow: &Pubkey, vault_amount: u64) -> (outcome: Result<
        Vec<Invocation>,
        ProgramError,
    >)
        ensures
            match outcome {
                Ok(requests) => refund_outcome(
                    *self.accounts.maker,
                    *self.accounts.escrow,
                    *self.accounts.vault,
                    *self.accounts.maker_ata_a,
                    *derived_escrow,
                    vault_amount,
                ) == Ok::<Seq<Invocation>, ProgramError>(requests@),
                Err(e) => refund_outcome(
                    *self.accounts.maker,
                    *self.accounts.escrow,
                    *self.accounts.vault,
                    *self.accounts.maker_ata_a,
                    *derived_escrow,
                    vault_amount,
                ) == Err::<Seq<Invocation>, ProgramError>(e),
            },
    {
        let record = match Escrow::load(self.accounts.escrow.data.as_slice()) {
            Err(e) => {
                return Err(e);
            },
            Ok(record) => record,
        };
        match verify_derived_address(derived_escrow, &self.accounts.escrow.key) {
            Err(e) => {
                return Err(e);
            },
            Ok(_) => {},
        }
        if !pubkey_eq(&self.accounts.maker.key, &record.maker) {
            return Err(ProgramError::InvalidAccountData);
        }
        let signer = Signer::Escrow {
            maker: self.accounts.maker.key,
            seed: record.seed,
            bump: record.bump,
        };
        let mut requests: Vec<Invocation> = Vec::new();
        requests.push(
            Invocation {
                instruction: Instruction::Transfer {
                    from: self.accounts.vault.key,
                    to: self.accounts.maker_ata_a.key,
                    authority: self.accounts.escrow.key,
                    amount: vault_amount,
                },
                signer,
            },
        );
        requests.push(
            Invocation {
                instruction: Instruction::CloseAccount {
                    account: self.accounts.vault.key,
                    destination: self.accounts.maker.key,
                    authority: self.accounts.escrow.key,
                },
                signer,
            },
        );
        requests.push(
            Invocation {
                instruction: Instruction::CloseProgramAccount {
                    account: self.accounts.escrow.key,
                    destination: self.accounts.maker.key,
                },
                signer: Signer::Caller,
            },
        );
        assert(requests@ =~= refund_outcome(
            *self.accounts.maker,
            *self.accounts.escrow,
            *self.accounts.vault,
            *self.accounts.maker_ata_a,
            *derived_escrow,
            vault_amount,
        )->Ok_0);
        Ok(requests)
    }
}

} // verus!
