use blueshift_core::account::AccountInfo;
use blueshift_core::codec::{push_u16, push_u64, read_i64, read_u16, read_u64};
use blueshift_core::error::ProgramError;
use blueshift_core::escrow::helpers::{
    verify_derived_address, AssociatedTokenAccount, MintInterface, ProgramAccount, SignerAccount,
};
use blueshift_core::escrow::refund::{Refund, RefundAccounts};
use blueshift_core::escrow::state::Escrow;
use blueshift_core::invocation::{Instruction, Invocation, Signer};
use blueshift_core::pubkey::{pubkey_eq, pubkey_from_slice, pubkey_is_zero, Pubkey};

const PROGRAM: Pubkey = [7u8; 32];
const TOKEN_PROGRAM: Pubkey = pinocchio_token::ID;
const SYSTEM_PROGRAM: Pubkey = pinocchio_system::ID;

fn account(tag: u8, owner: Pubkey) -> AccountInfo {
    AccountInfo { key: [tag; 32], owner, is_signer: false, lamports: 1_000, data: Vec::new() }
}

fn record() -> Escrow {
    Escrow {
        seed: 0x0807_0605_0403_0201,
        maker: [1u8; 32],
        mint_a: [3u8; 32],
        mint_b: [9u8; 32],
        receive: 500,
        bump: [254],
    }
}

/// maker, escrow, mint_a, vault, maker_ata_a, system program, token program
/// and one trailing account.
fn refund_accounts() -> Vec<AccountInfo> {
    let mut maker = account(1, SYSTEM_PROGRAM);
    maker.is_signer = true;
    let mut escrow = account(2, PROGRAM);
    escrow.data = record().to_bytes();
    escrow.lamports = 2_500;
    let mint_a = account(3, TOKEN_PROGRAM);
    let vault = account(4, TOKEN_PROGRAM);
    let maker_ata_a = account(5, TOKEN_PROGRAM);
    let mut system_program = account(0, SYSTEM_PROGRAM);
    system_program.key = SYSTEM_PROGRAM;
    let mut token_program = account(6, SYSTEM_PROGRAM);
    token_program.key = TOKEN_PROGRAM;
    let extra = account(11, SYSTEM_PROGRAM);
    vec![maker, escrow, mint_a, vault, maker_ata_a, system_program, token_program, extra]
}

fn parse_refund(accounts: &[AccountInfo]) -> Result<Refund<'_>, ProgramError> {
    Refund::try_from(accounts, &PROGRAM, &[4u8; 32])
}

#[test]
fn little_endian_numbers_are_read_at_their_offset() {
    let bytes: Vec<u8> = vec![0xff, 0x01, 0x02, 0x03, 0x04, 0x05, 0x06, 0x07, 0x08, 0x09];
    assert_eq!(read_u64(&bytes, 1), 0x0807_0605_0403_0201);
    assert_eq!(read_u64(&bytes, 1), u64::from_le_bytes([1, 2, 3, 4, 5, 6, 7, 8]));
    assert_eq!(read_u16(&bytes, 8), 0x0908);
    assert_eq!(read_u16(&bytes, 0), 0x01ff);
}

#[test]
fn signed_numbers_are_twos_complement() {
    assert_eq!(read_i64(&(-1i64).to_le_bytes(), 0), -1);
    assert_eq!(read_i64(&i64::MIN.to_le_bytes(), 0), i64::MIN);
    assert_eq!(read_i64(&i64::MAX.to_le_bytes(), 0), i64::MAX);
    assert_eq!(read_i64(&0i64.to_le_bytes(), 0), 0);
    assert_eq!(read_i64(&(-1_700_000_000i64).to_le_bytes(), 0), -1_700_000_000);
}

#[test]
fn numbers_are_written_little_endian() {
    let mut out: Vec<u8> = vec![9];
    push_u64(&mut out, 0x1122_3344_5566_7788);
    push_u16(&mut out, 9_999);
    assert_eq!(out[0], 9);
    assert_eq!(&out[1..9], &0x1122_3344_5566_7788u64.to_le_bytes());
    assert_eq!(&out[9..11], &9_999u16.to_le_bytes());
    assert_eq!(read_u64(&out, 1), 0x1122_3344_5566_7788);
    assert_eq!(read_u16(&out, 9), 9_999);
    let mut max: Vec<u8> = Vec::new();
    push_u64(&mut max, u64::MAX);
    assert_eq!(max, vec![0xff; 8]);
}

#[test]
fn addresses_compare_byte_by_byte() {
    let a: Pubkey = [5u8; 32];
    let mut b: Pubkey = [5u8; 32];
    assert!(pubkey_eq(&a, &b));
    b[31] = 6;
    assert!(!pubkey_eq(&a, &b));
    assert!(pubkey_is_zero(&[0u8; 32]));
    assert!(!pubkey_is_zero(&b));
    let mut bytes = vec![0u8; 40];
    for (i, byte) in bytes.iter_mut().enumerate() {
        *byte = i as u8;
    }
    let key = pubkey_from_slice(&bytes, 8);
    assert_eq!(key[0], 8);
    assert_eq!(key[31], 39);
}

#[test]
fn escrow_record_has_documented_layout() {
    let bytes = record().to_bytes();
    assert_eq!(bytes.len(), Escrow::LEN);
    assert_eq!(Escrow::LEN, 113);
    assert_eq!(&bytes[0..8], &[1, 2, 3, 4, 5, 6, 7, 8]);
    assert_eq!(&bytes[8..40], &[1u8; 32]);
    assert_eq!(&bytes[40..72], &[3u8; 32]);
    assert_eq!(&bytes[72..104], &[9u8; 32]);
    assert_eq!(&bytes[104..112], &500u64.to_le_bytes());
    assert_eq!(bytes[112], 254);
}

#[test]
fn escrow_record_round_trips() {
    let bytes = record().to_bytes();
    assert_eq!(Escrow::load(&bytes), Ok(record()));
}

#[test]
fn escrow_load_rejects_wrong_length() {
    let mut bytes = record().to_bytes();
    bytes.push(0);
    assert_eq!(Escrow::load(&bytes), Err(ProgramError::InvalidAccountData));
    bytes.truncate(112);
    assert_eq!(Escrow::load(&bytes), Err(ProgramError::InvalidAccountData));
    assert_eq!(Escrow::load(&[]), Err(ProgramError::InvalidAccountData));
}

#[test]
fn escrow_store_overwrites_only_a_record_sized_account() {
    let mut data = vec![0u8; 113];
    assert_eq!(record().store(&mut data), Ok(()));
    assert_eq!(Escrow::load(&data), Ok(record()));
    let mut short = vec![1u8; 10];
    assert_eq!(record().store(&mut short), Err(ProgramError::InvalidAccountData));
    assert_eq!(short, vec![1u8; 10]);
}

#[test]
fn escrow_set_inner_sets_every_field() {
    let mut escrow = record();
    escrow.set_inner(77, [2u8; 32], [4u8; 32], [8u8; 32], 12, [3]);
    assert_eq!(
        escrow,
        Escrow {
            seed: 77,
            maker: [2u8; 32],
            mint_a: [4u8; 32],
            mint_b: [8u8; 32],
            receive: 12,
            bump: [3],
        }
    );
}

#[test]
fn signer_guard_wants_a_signature() {
    let mut maker = account(1, SYSTEM_PROGRAM);
    assert_eq!(SignerAccount::check(&maker), Err(ProgramError::MissingRequiredSignature));
    maker.is_signer = true;
    assert_eq!(SignerAccount::check(&maker), Ok(()));
}

#[test]
fn owner_guards_want_the_expected_controller() {
    let mint = account(3, TOKEN_PROGRAM);
    assert_eq!(MintInterface::check(&mint), Ok(()));
    let stray = account(3, PROGRAM);
    assert_eq!(MintInterface::check(&stray), Err(ProgramError::InvalidAccountOwner));
    let unowned = account(3, [0u8; 32]);
    assert_eq!(MintInterface::check(&unowned), Err(ProgramError::InvalidAccountOwner));
    let escrow = account(2, PROGRAM);
    assert_eq!(ProgramAccount::check(&escrow, &PROGRAM), Ok(()));
    assert_eq!(
        ProgramAccount::check(&escrow, &TOKEN_PROGRAM),
        Err(ProgramError::InvalidAccountOwner)
    );
}

#[test]
fn associated_account_guard_checks_controller_then_address() {
    let accounts = refund_accounts();
    let vault = &accounts[3];
    let token_program = &accounts[6];
    assert_eq!(AssociatedTokenAccount::check(vault, token_program, &[4u8; 32]), Ok(()));
    assert_eq!(
        AssociatedTokenAccount::check(vault, token_program, &[5u8; 32]),
        Err(ProgramError::InvalidAccountData)
    );
    let stray = account(4, PROGRAM);
    assert_eq!(
        AssociatedTokenAccount::check(&stray, token_program, &[5u8; 32]),
        Err(ProgramError::InvalidAccountOwner)
    );
    let derivation = AssociatedTokenAccount::derivation(&[2u8; 32], &TOKEN_PROGRAM, &[3u8; 32]);
    assert_eq!(derivation.seeds, vec![vec![2u8; 32], TOKEN_PROGRAM.to_vec(), vec![3u8; 32]]);
    assert_eq!(derivation.program_id, pinocchio_associated_token_account::ID);
    assert_eq!(derivation.program_id[0], 140);
    assert_eq!(derivation.program_id[31], 89);
}

#[test]
fn program_addresses_are_those_of_the_programs() {
    assert_eq!(
        pinocchio_token::ID,
        [
            6, 221, 246, 225, 215, 101, 161, 147, 217, 203, 225, 70, 206, 235, 121, 172, 28, 180,
            133, 237, 95, 91, 55, 145, 58, 140, 245, 133, 126, 255, 0, 169
        ]
    );
    assert_eq!(pinocchio_system::ID, [0u8; 32]);
    assert_eq!(
        pinocchio_associated_token_account::ID,
        [
            140, 151, 37, 143, 78, 36, 137, 241, 187, 61, 16, 41, 20, 142, 13, 131, 11, 90, 19,
            153, 218, 255, 16, 132, 4, 142, 123, 216, 219, 233, 248, 89
        ]
    );
}

#[test]
fn derived_address_must_be_the_accounts_own() {
    assert_eq!(verify_derived_address(&[2u8; 32], &[2u8; 32]), Ok(()));
    assert_eq!(
        verify_derived_address(&[2u8; 32], &[3u8; 32]),
        Err(ProgramError::InvalidAccountOwner)
    );
}

#[test]
fn associated_account_requests_name_their_accounts() {
    let accounts = refund_accounts();
    let created = AssociatedTokenAccount::init(
        &accounts[4],
        &accounts[2],
        &accounts[0],
        &accounts[1],
        &accounts[5],
        &accounts[6],
    );
    assert_eq!(
        created,
        Invocation {
            instruction: Instruction::Create {
                funding_account: [1u8; 32],
                account: [5u8; 32],
                wallet: [2u8; 32],
                mint: [3u8; 32],
                system_program: SYSTEM_PROGRAM,
                token_program: TOKEN_PROGRAM,
            },
            signer: Signer::Caller,
        }
    );
    let ensured = AssociatedTokenAccount::init_if_needed(
        &accounts[4],
        &accounts[2],
        &accounts[0],
        &accounts[1],
        &accounts[5],
        &accounts[6],
    );
    assert_eq!(
        ensured.instruction,
        Instruction::CreateIdempotent {
            funding_account: [1u8; 32],
            account: [5u8; 32],
            wallet: [2u8; 32],
            mint: [3u8; 32],
            system_program: SYSTEM_PROGRAM,
            token_program: TOKEN_PROGRAM,
        }
    );
}

#[test]
fn program_account_is_created_under_its_seeds() {
    let accounts = refund_accounts();
    let seeds = Signer::Escrow { maker: [1u8; 32], seed: 5, bump: [250] };
    let request = ProgramAccount::init(&accounts[0], &accounts[1], seeds, 113, &PROGRAM);
    assert_eq!(
        request,
        Invocation {
            instruction: Instruction::CreateAccount {
                from: [1u8; 32],
                to: [2u8; 32],
                space: 113,
                owner: PROGRAM,
            },
            signer: seeds,
        }
    );
}

#[test]
fn closing_zeroes_and_releases_the_account() {
    let mut accounts = refund_accounts();
    let (head, tail) = accounts.split_at_mut(1);
    let maker = &mut head[0];
    let escrow = &mut tail[0];
    escrow.owner = PROGRAM;
    ProgramAccount::close(escrow, maker);
    assert_eq!(escrow.lamports, 0);
    assert_eq!(maker.lamports, 3_500);
    assert_eq!(escrow.data, vec![0u8; 113]);
    assert_eq!(escrow.owner, SYSTEM_PROGRAM);
    assert_eq!(escrow.owner, [0u8; 32]);
    assert_eq!(escrow.key, [2u8; 32]);
    assert_eq!(maker.key, [1u8; 32]);
}

#[test]
fn refund_wants_exactly_eight_accounts() {
    let mut accounts = refund_accounts();
    assert!(parse_refund(&accounts).is_ok());
    accounts.pop();
    assert_eq!(parse_refund(&accounts).err(), Some(ProgramError::NotEnoughAccountKeys));
    let mut more = refund_accounts();
    more.push(account(12, SYSTEM_PROGRAM));
    assert_eq!(parse_refund(&more).err(), Some(ProgramError::NotEnoughAccountKeys));
    assert_eq!(parse_refund(&[]).err(), Some(ProgramError::NotEnoughAccountKeys));
}

#[test]
fn refund_guards_fail_in_order() {
    let mut accounts = refund_accounts();
    accounts[0].is_signer = false;
    accounts[1].owner = TOKEN_PROGRAM;
    assert_eq!(TOKEN_PROGRAM[0], 6);
    assert_eq!(TOKEN_PROGRAM[31], 169);
    assert_eq!(parse_refund(&accounts).err(), Some(ProgramError::MissingRequiredSignature));
    accounts[0].is_signer = true;
    assert_eq!(parse_refund(&accounts).err(), Some(ProgramError::InvalidAccountOwner));
    accounts[1].owner = PROGRAM;
    accounts[2].owner = PROGRAM;
    assert_eq!(parse_refund(&accounts).err(), Some(ProgramError::InvalidAccountOwner));
    accounts[2].owner = TOKEN_PROGRAM;
    accounts[3].owner = PROGRAM;
    assert_eq!(parse_refund(&accounts).err(), Some(ProgramError::InvalidAccountOwner));
    accounts[3].owner = TOKEN_PROGRAM;
    accounts[3].key = [44u8; 32];
    assert_eq!(parse_refund(&accounts).err(), Some(ProgramError::InvalidAccountData));
    accounts[3].key = [4u8; 32];
    let parsed = RefundAccounts::try_from(&accounts, &PROGRAM, &[4u8; 32]);
    let taken = parsed.ok().unwrap();
    assert_eq!(taken.maker, &accounts[0]);
    assert_eq!(taken.escrow, &accounts[1]);
    assert_eq!(taken.mint_a, &accounts[2]);
    assert_eq!(taken.vault, &accounts[3]);
    assert_eq!(taken.maker_ata_a, &accounts[4]);
    assert_eq!(taken.system_program, &accounts[5]);
    assert_eq!(taken.token_program, &accounts[6]);
}

#[test]
fn refund_prepares_the_makers_token_account() {
    let accounts = refund_accounts();
    let refund = parse_refund(&accounts).ok().unwrap();
    assert_eq!(
        refund.init_maker_ata(),
        Invocation {
            instruction: Instruction::CreateIdempotent {
                funding_account: [1u8; 32],
                account: [5u8; 32],
                wallet: [1u8; 32],
                mint: [3u8; 32],
                system_program: SYSTEM_PROGRAM,
                token_program: TOKEN_PROGRAM,
            },
            signer: Signer::Caller,
        }
    );
}

#[test]
fn refund_derives_the_escrow_from_stored_seed_and_bump() {
    let accounts = refund_accounts();
    let refund = parse_refund(&accounts).ok().unwrap();
    let signer = refund.escrow_signer().unwrap();
    assert_eq!(signer, Signer::Escrow { maker: [1u8; 32], seed: 0x0807_0605_0403_0201, bump: [254] });
    assert!(signer.is_derived());
    assert_eq!(
        signer.seeds(),
        vec![b"escrow".to_vec(), vec![1u8; 32], vec![1, 2, 3, 4, 5, 6, 7, 8], vec![254]]
    );
    assert!(!Signer::Caller.is_derived());
    assert!(Signer::Caller.seeds().is_empty());
}

#[test]
fn refund_returns_the_whole_vault_and_closes_both_accounts() {
    let accounts = refund_accounts();
    let refund = parse_refund(&accounts).ok().unwrap();
    let signer = Signer::Escrow { maker: [1u8; 32], seed: 0x0807_0605_0403_0201, bump: [254] };
    assert_eq!(
        refund.process(&[2u8; 32], 123_456),
        Ok(vec![
            Invocation {
                instruction: Instruction::Transfer {
                    from: [4u8; 32],
                    to: [5u8; 32],
                    authority: [2u8; 32],
                    amount: 123_456,
                },
                signer,
            },
            Invocation {
                instruction: Instruction::CloseAccount {
                    account: [4u8; 32],
                    destination: [1u8; 32],
                    authority: [2u8; 32],
                },
                signer,
            },
            Invocation {
                instruction: Instruction::CloseProgramAccount {
                    account: [2u8; 32],
                    destination: [1u8; 32],
                },
                signer: Signer::Caller,
            },
        ])
    );
}

#[test]
fn refund_of_a_spoofed_escrow_fails_with_invalid_owner() {
    let accounts = refund_accounts();
    let refund = parse_refund(&accounts).ok().unwrap();
    assert_eq!(refund.process(&[22u8; 32], 10), Err(ProgramError::InvalidAccountOwner));
}

#[test]
fn refund_by_another_maker_fails_with_invalid_account_data() {
    let mut accounts = refund_accounts();
    let mut stored = record();
    stored.maker = [13u8; 32];
    accounts[1].data = stored.to_bytes();
    let refund = parse_refund(&accounts).ok().unwrap();
    assert_eq!(refund.process(&[2u8; 32], 10), Err(ProgramError::InvalidAccountData));
    assert_eq!(refund.process(&[22u8; 32], 10), Err(ProgramError::InvalidAccountOwner));
}

#[test]
fn refund_of_an_account_without_record_fails() {
    let mut accounts = refund_accounts();
    accounts[1].data = vec![0u8; 112];
    let refund = parse_refund(&accounts).ok().unwrap();
    assert_eq!(refund.escrow_signer(), Err(ProgramError::InvalidAccountData));
    assert_eq!(refund.process(&[2u8; 32], 10), Err(ProgramError::InvalidAccountData));
    assert_eq!(Refund::DISCRIMINATOR, 2);
}
