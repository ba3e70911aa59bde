use vstd::prelude::*;
use crate::account::AccountInfo;
use crate::error::ProgramError;
use crate::invocation::{copy_bytes, Instruction, Invocation, Signer};
use crate::programs::{
    associated_token_program,
    associated_token_program_id,
    system_program,
    system_program_id,
    token_program,
    token_program_id,
    Derivation,
};
use crate::pubkey::{pubkey_eq, Pubkey};

verus! {

/// What the check of a derived address returns: `InvalidAccountOwner`
/// unless the address the runtime derived is the account's own.
pub open spec fn derived_address_check(derived: Pubkey, actual: Pubkey) -> Result<
    (),
    ProgramError,
> {
    if derived == actual {
        Ok(())
    } else {
        Err(ProgramError::InvalidAccountOwner)
    }
}

/// Holds the address derived from an account's seeds against the address
/// the account really has. No record is to be trusted before this passes.
pub fn verify_derived_address(derived: &Pubkey, actual: &Pubkey) -> (checked: Result<
    (),
    ProgramError,
>)
    ensures
        checked == derived_address_check(*derived, *actual),
{
    if pubkey_eq(derived, actual) {
        Ok(())
    } else {
        Err(ProgramError::InvalidAccountOwner)
    }
}

/// Guard: the account signed the transaction.
pub struct SignerAccount;

impl SignerAccount {
    /// What `check` returns.
    pub open spec fn check_spec(account: AccountInfo) -> Result<(), ProgramError> {
        if account.is_signer {
            Ok(())
        } else {
            Err(ProgramError::MissingRequiredSignature)
        }
    }

    /// Fails with `MissingRequiredSignature` unless the account is a signer.
    pub fn check(account: &AccountInfo) -> (checked: Result<(), ProgramError>)
        ensures
            checked == Self::check_spec(*account),
    {
        if !account.is_signer {
            return Err(ProgramError::MissingRequiredSignature);
        }
        Ok(())
    }
}

/// Guard: the account is a mint of the token program.
pub struct MintInterface;

impl MintInterface {
    /// What `check` returns.
    pub open spec fn check_spec(account: AccountInfo) -> Result<(), ProgramError> {
        if account.owner == token_program() {
            Ok(())
        } else {
            Err(ProgramError::InvalidAccountOwner)
        }
    }

    /// Fails with `InvalidAccountOwner` unless the token program controls
    /// the account.
    pub fn check(account: &AccountInfo) -> (checked: Result<(), ProgramError>)
        ensures
            checked == Self::check_spec(*account),
    {
        let token_program = token_program_id();
        if !account.is_owned_by(&token_program) {
            return Err(ProgramError::InvalidAccountOwner);
        }
        Ok(())
    }
}

/// Guard and builders for the token account addressed by owner, token
/// program and mint.
pub struct AssociatedTokenAccount;

impl AssociatedTokenAccount {
    /// The seeds of the associated address: owner, token program, mint.
    pub open spec fn seed_bytes(owner: Pubkey, token_program: Pubkey, mint: Pubkey) -> Seq<
        Seq<u8>,
    > {
        seq![owner@, token_program@, mint@]
    }

    /// What `check` returns: the controller is looked at first, then the
    /// address.
    pub open spec fn check_spec(ata: AccountInfo, token_program: Pubkey, derived: Pubkey) -> Result<
        (),
        ProgramError,
    > {
        if ata.owner != token_program {
            Err(ProgramError::InvalidAccountOwner)
        } else if ata.key != derived {
            Err(ProgramError::InvalidAccountData)
        } else {
            Ok(())
        }
    }

    /// What the runtime derives the associated address from: the seeds
    /// owner, token program and mint, under the associated-address program.
    pub fn derivation(owner: &Pubkey, token_program: &Pubkey, mint: &Pubkey) -> (derivation:
        Derivation)
        ensures
            derivation.seed_bytes() == Self::seed_bytes(*owner, *token_program, *mint),
            derivation.program_id == associated_token_program(),
    {
        let mut seeds: Vec<Vec<u8>> = Vec::new();
        seeds.push(copy_bytes(owner.as_slice()));
        seeds.push(copy_bytes(token_program.as_slice()));
        seeds.push(copy_bytes(mint.as_slice()));
        assert(seeds@.map_values(|s: Vec<u8>| s@) =~= Self::seed_bytes(
            *owner,
            *token_program,
            *mint,
        ));
        Derivation { seeds, program_id: associated_token_program_id() }
    }

    /// Fails with `InvalidAccountOwner` unless the token program controls
    /// `ata`, then with `InvalidAccountData` unless `ata` stands at
    /// `derived`, the address the runtime derived from `derivation`.
    pub fn check(ata: &AccountInfo, token_program: &AccountInfo, derived: &Pubkey) -> (checked:
        Result<(), ProgramError>)
        ensures
            checked == Self::check_spec(*ata, token_program.key, *derived),
    {
        if !ata.is_owned_by(&token_program.key) {
            return Err(ProgramError::InvalidAccountOwner);
        }
        if !pubkey_eq(&ata.key, derived) {
            return Err(ProgramError::InvalidAccountData);
        }
        Ok(())
    }

    /// The request that creates the token account of `authority` for `mint`.
    pub fn init(
        ata: &AccountInfo,
        mint: &AccountInfo,
        payer: &AccountInfo,
        authority: &AccountInfo,
        system_program: &AccountInfo,
        token_program: &AccountInfo,
    ) -> (request: Invocation)
        ensures
            request == (Invocation {
                instruction: Instruction::Create {
                    funding_account: payer.key,
                    account: ata.key,
                    wallet: authority.key,
                    mint: mint.key,
                    system_program: system_program.key,
                    token_program: token_program.key,
                },
                signer: Signer::Caller,
            }),
    {
        Invocation {
            instruction: Instruction::Create {
                funding_account: payer.key,
                account: ata.key,
                wallet: authority.key,
                mint: mint.key,
                system_program: system_program.key,
                token_program: token_program.key,
            },
            signer: Signer::Caller,
        }
    }

    /// The request that creates the token account of `authority` for `mint`
    /// unless it exists.
    pub fn init_if_needed(
        ata: &AccountInfo,
        mint: &AccountInfo,
        payer: &AccountInfo,
        authority: &AccountInfo,
        system_program: &AccountInfo,
        token_program: &AccountInfo,
    ) -> (request: Invocation)
        ensures
            request == (Invocation {
                instruction: Instruction::CreateIdempotent {
                    funding_account: payer.key,
                    account: ata.key,
                    wallet: authority.key,
                    mint: mint.key,
                    system_program: system_program.key,
                    token_program: token_program.key,
                },
                signer: Signer::Caller,
            }),
    {
        Invocation {
            instruction: Instruction::CreateIdempotent {
                funding_account: payer.key,
                account: ata.key,
                wallet: authority.key,
                mint: mint.key,
                system_program: system_program.key,
                token_program: token_program.key,
            },
            signer: Signer::Caller,
        }
    }
}

/// Guard and life cycle of an account that this program controls.
pub struct ProgramAccount;

impl ProgramAccount {
    /// What `check` returns.
    pub open spec fn check_spec(account: AccountInfo, program_id: Pubkey) -> Result<
        (),
        ProgramError,
    > {
        if account.owner == program_id {
            Ok(())
        } else {
            Err(ProgramError::InvalidAccountOwner)
        }
    }

    /// Fails with `InvalidAccountOwner` unless this program controls the
    /// account.
    pub fn check(account: &AccountInfo, program_id: &Pubkey) -> (checked: Result<
        (),
        ProgramError,
    >)
        ensures
            checked == Self::check_spec(*account, *program_id),
    {
        if !account.is_owned_by(program_id) {
            return Err(ProgramError::InvalidAccountOwner);
        }
        Ok(())
    }

    /// The request that creates `account` at its derived address with
    /// `data_len` bytes, paid by `payer` and controlled by this program.
    pub fn init(
        payer: &AccountInfo,
        account: &AccountInfo,
        seeds: Signer,
        data_len: usize,
        program_id: &Pubkey,
    ) -> (request: Invocation)
        ensures
            request == (Invocation {
                instruction: Instruction::CreateAccount {
                    from: payer.key,
                    to: account.key,
                    space: data_len as u64,
                    owner: *program_id,
                },
                signer: seeds,
            }),
    {
        Invocation {
            instruction: Instruction::CreateAccount {
                from: payer.key,
                to: account.key,
                space: data_len as u64,
                owner: *program_id,
            },
            signer: seeds,
        }
    }

    /// Closes an account of this program: its lamports go to `destination`,
    /// every byte of it becomes zero, and it is handed to the system program.
    pub fn close(account: &mut AccountInfo, destination: &mut AccountInfo)
        requires
            old(account).lamports + old(destination).lamports <= u64::MAX,
        ensures
            final(account).lamports == 0,
            final(destination).lamports == old(destination).lamports + old(account).lamports,
            final(account).data@ == Seq::new(old(account).data@.len(), |i: int| 0u8),
            final(account).owner == system_program(),
            final(account).key == old(account).key,
            final(account).is_signer == old(account).is_signer,
            final(destination).key == old(destination).key,
            final(destination).owner == old(destination).owner,
            final(destination).is_signer == old(destination).is_signer,
            final(destination).data == old(destination).data,
    {
        let lamports: u64 = account.lamports;
        account.lamports = 0;
        destination.lamports = destination.lamports + lamports;
        let len: usize = account.data.len();
        let mut i: usize = 0;
        while i < len
            invariant
                i <= len,
                len == account.data@.len(),
                len == old(account).data@.len(),
                forall|j: int| 0 <= j < i ==> account.data@[j] == 0u8,
                account.lamports == 0,
                account.key == old(account).key,
                account.is_signer == old(account).is_signer,
            decreases len - i,
        {
            account.data.set(i, 0u8);
            i += 1;
        }
        account.owner = system_program_id();
        assert(account.data@ =~= Seq::new(old(account).data@.len(), |i: int| 0u8));
    }
}

} // verus!
