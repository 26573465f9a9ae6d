use secret_dao::account::AccountView;
use secret_dao::bytes::{bytes_equal, read_u64_le, to_array32};
use secret_dao::error::ProgramError;
use secret_dao::secredao_program::{
    burn_and_close_ata, burn_with_encrypted_receipt, mint_and_init_ata, process, process_aborts,
    resume, resume_aborts, transfer_and_close_sender, Pending, Step, TokenInstruction,
};
use solana_program::program_option::COption;
use solana_program::program_pack::Pack;
use solana_program::pubkey::Pubkey;
use spl_associated_token_account::get_associated_token_address;
use spl_token::state::{Account, AccountState, Mint};

const PROGRAM: [u8; 32] = [99u8; 32];

fn token_id() -> [u8; 32] {
    spl_token::id().to_bytes()
}

fn ata(wallet: [u8; 32], mint: [u8; 32]) -> [u8; 32] {
    get_associated_token_address(&Pubkey::new_from_array(wallet), &Pubkey::new_from_array(mint))
        .to_bytes()
}

fn mint_bytes(authority: Option<[u8; 32]>, decimals: u8) -> Vec<u8> {
    let m = Mint {
        mint_authority: match authority {
            Some(k) => COption::Some(Pubkey::new_from_array(k)),
            None => COption::None,
        },
        supply: 1000,
        decimals,
        is_initialized: true,
        freeze_authority: COption::None,
    };
    let mut buf = vec![0u8; Mint::LEN];
    Mint::pack(m, &mut buf).unwrap();
    buf
}

fn token_bytes(mint: [u8; 32], owner: [u8; 32], amount: u64) -> Vec<u8> {
    let a = Account {
        mint: Pubkey::new_from_array(mint),
        owner: Pubkey::new_from_array(owner),
        amount,
        delegate: COption::None,
        state: AccountState::Initialized,
        is_native: COption::None,
        delegated_amount: 0,
        close_authority: COption::None,
    };
    let mut buf = vec![0u8; Account::LEN];
    Account::pack(a, &mut buf).unwrap();
    buf
}

fn acct(key: [u8; 32], owner: [u8; 32], is_signer: bool, data: Vec<u8>) -> AccountView {
    AccountView { key, owner, is_signer, data }
}

const SIGNER: [u8; 32] = [1u8; 32];
const MINT: [u8; 32] = [2u8; 32];
const OWNER: [u8; 32] = [3u8; 32];

fn amount_data(tag: u8, amount: u64) -> Vec<u8> {
    let mut d = vec![tag];
    d.extend_from_slice(&amount.to_le_bytes());
    d
}

fn mint_accounts() -> Vec<AccountView> {
    vec![
        acct(SIGNER, [0u8; 32], true, vec![]),
        acct(MINT, token_id(), false, mint_bytes(Some(SIGNER), 6)),
        acct(ata(OWNER, MINT), [0u8; 32], false, vec![]),
        acct(OWNER, [0u8; 32], false, vec![]),
        acct(token_id(), [0u8; 32], false, vec![]),
        acct([5u8; 32], [0u8; 32], false, vec![]),
        acct([6u8; 32], [0u8; 32], false, vec![]),
        acct([7u8; 32], [0u8; 32], false, vec![]),
    ]
}

fn finished_err(step: Step) -> ProgramError {
    match step {
        Step::Finished(Err(e)) => e,
        other => panic!("expected an error, got {:?}", other),
    }
}

#[test]
fn read_u64_le_decodes_little_endian() {
    assert_eq!(read_u64_le(&[1, 2, 3, 4, 5, 6, 7, 8]), 0x0807060504030201);
    assert_eq!(read_u64_le(&[0xff; 8]), u64::MAX);
    assert!(bytes_equal(&[1, 2], &[1, 2]));
    assert!(!bytes_equal(&[1, 2], &[1, 2, 3]));
    assert_eq!(to_array32(&[4u8; 32]), [4u8; 32]);
}

#[test]
fn unknown_or_empty_instruction_is_invalid() {
    let accts = mint_accounts();
    assert_eq!(finished_err(process(&PROGRAM, &accts, &[])), ProgramError::InvalidInstructionData);
    assert_eq!(finished_err(process(&PROGRAM, &accts, &[5])), ProgramError::InvalidInstructionData);
}

#[test]
fn mint_and_init_ata_creates_then_mints() {
    let accts = mint_accounts();
    let step = process(&PROGRAM, &accts, &amount_data(0, 500));
    assert_eq!(
        step,
        Step::Invoke(
            TokenInstruction::CreateAssociatedTokenAccountIdempotent {
                payer: 0,
                associated_account: 2,
                wallet: 3,
                mint: 1,
                system_program: 6,
                token_program: 4,
                rent_sysvar: 7,
                associated_token_program: 5,
            },
            Pending::MintToNewAccount { amount: 500, decimals: 6 },
        )
    );
    let pending = Pending::MintToNewAccount { amount: 500, decimals: 6 };
    assert!(!resume_aborts(&accts, &[], pending));
    let next = resume(&accts, &[], pending, Ok(()));
    assert_eq!(
        next,
        Step::Invoke(
            TokenInstruction::MintToChecked {
                mint: 1,
                account: 2,
                authority: 0,
                token_program: 4,
                amount: 500,
                decimals: 6,
            },
            Pending::Complete,
        )
    );
    assert_eq!(resume(&accts, &[], Pending::Complete, Ok(())), Step::Finished(Ok(())));
    assert_eq!(
        resume(&accts, &[], pending, Err(ProgramError::Custom(3))),
        Step::Finished(Err(ProgramError::Custom(3)))
    );
}

#[test]
fn mint_and_init_ata_errors() {
    let data = amount_data(0, 1);
    let mut a = mint_accounts();
    a[0].is_signer = false;
    assert_eq!(finished_err(mint_and_init_ata(&a, &data)), ProgramError::MissingRequiredSignature);
    let mut a = mint_accounts();
    a[4].key = [9u8; 32];
    assert_eq!(finished_err(mint_and_init_ata(&a, &data)), ProgramError::IncorrectProgramId);
    let mut a = mint_accounts();
    a[1].owner = [9u8; 32];
    assert_eq!(finished_err(mint_and_init_ata(&a, &data)), ProgramError::IncorrectProgramId);
    let mut a = mint_accounts();
    a[1].data = vec![0u8; 81];
    assert_eq!(finished_err(mint_and_init_ata(&a, &data)), ProgramError::InvalidAccountData);
    let mut a = mint_accounts();
    a[1].data[45] = 0;
    assert_eq!(finished_err(mint_and_init_ata(&a, &data)), ProgramError::UninitializedAccount);
    let mut a = mint_accounts();
    a[1].data = mint_bytes(Some(OWNER), 6);
    assert_eq!(finished_err(mint_and_init_ata(&a, &data)), ProgramError::IllegalOwner);
    let mut a = mint_accounts();
    a[1].data = mint_bytes(None, 6);
    assert_eq!(finished_err(mint_and_init_ata(&a, &data)), ProgramError::IllegalOwner);
    let mut a = mint_accounts();
    a[2].key = ata(SIGNER, MINT);
    assert_eq!(finished_err(mint_and_init_ata(&a, &data)), ProgramError::InvalidAccountData);
    let a = mint_accounts();
    assert_eq!(finished_err(mint_and_init_ata(&a, &data[..8])), ProgramError::InvalidInstructionData);
}

fn burn_accounts(balance: u64) -> Vec<AccountView> {
    vec![
        acct(SIGNER, [0u8; 32], true, vec![]),
        acct(ata(SIGNER, MINT), token_id(), false, token_bytes(MINT, SIGNER, balance)),
        acct(MINT, token_id(), false, mint_bytes(None, 0)),
        acct(token_id(), [0u8; 32], false, vec![]),
    ]
}

#[test]
fn burn_and_close_ata_closes_only_empty_account() {
    let accts = burn_accounts(40);
    assert_eq!(
        process(&PROGRAM, &accts, &amount_data(1, 40)),
        Step::Invoke(
            TokenInstruction::Burn { account: 1, mint: 2, authority: 0, token_program: 3, amount: 40 },
            Pending::CloseDrainedAccount,
        )
    );
    // still holding tokens after the burn: nothing to close
    assert_eq!(resume(&accts, &[], Pending::CloseDrainedAccount, Ok(())), Step::Finished(Ok(())));
    let drained = burn_accounts(0);
    assert_eq!(
        resume(&drained, &[], Pending::CloseDrainedAccount, Ok(())),
        Step::Invoke(
            TokenInstruction::CloseAccount { account: 1, destination: 0, owner: 0, token_program: 3 },
            Pending::Complete,
        )
    );
    let mut broken = burn_accounts(0);
    broken[1].data = vec![];
    assert_eq!(
        resume(&broken, &[], Pending::CloseDrainedAccount, Ok(())),
        Step::Finished(Err(ProgramError::InvalidAccountData))
    );
}

#[test]
fn burn_and_close_ata_errors() {
    let data = amount_data(1, 1);
    let a = burn_accounts(5);
    assert_eq!(finished_err(burn_and_close_ata(&a, &data[..8])), ProgramError::InvalidInstructionData);
    let mut a = burn_accounts(5);
    a[0].is_signer = false;
    assert_eq!(finished_err(burn_and_close_ata(&a, &data)), ProgramError::MissingRequiredSignature);
    let mut a = burn_accounts(5);
    a[1].data = token_bytes(MINT, OWNER, 5);
    assert_eq!(finished_err(burn_and_close_ata(&a, &data)), ProgramError::IllegalOwner);
    let mut a = burn_accounts(5);
    a[1].data = token_bytes([8u8; 32], SIGNER, 5);
    assert_eq!(finished_err(burn_and_close_ata(&a, &data)), ProgramError::InvalidAccountData);
    let mut a = burn_accounts(5);
    a[1].key = [8u8; 32];
    assert_eq!(finished_err(burn_and_close_ata(&a, &data)), ProgramError::InvalidAccountData);
    let mut a = burn_accounts(5);
    a[1].data[72] = 1;
    assert_eq!(finished_err(burn_and_close_ata(&a, &data)), ProgramError::InvalidAccountData);
    let mut a = burn_accounts(5);
    a[1].data[129] = 1;
    assert_eq!(finished_err(burn_and_close_ata(&a, &data)), ProgramError::InvalidAccountData);
    let mut a = burn_accounts(5);
    a[1].data[108] = 0;
    assert_eq!(finished_err(burn_and_close_ata(&a, &data)), ProgramError::UninitializedAccount);
}

fn receipt_accounts() -> Vec<AccountView> {
    let mut a = burn_accounts(0);
    a.insert(3, acct(SIGNER, [0u8; 32], false, vec![]));
    a
}

#[test]
fn burn_with_encrypted_receipt_flow() {
    let accts = receipt_accounts();
    let mut data = amount_data(2, 9);
    data.push(0);
    assert_eq!(
        burn_with_encrypted_receipt(&accts, &data),
        Step::Invoke(
            TokenInstruction::Burn { account: 1, mint: 2, authority: 0, token_program: 4, amount: 9 },
            Pending::CloseDrainedReceiptAccount,
        )
    );
    assert_eq!(
        resume(&accts, &[], Pending::CloseDrainedReceiptAccount, Ok(())),
        Step::Invoke(
            TokenInstruction::CloseAccount { account: 1, destination: 3, owner: 0, token_program: 4 },
            Pending::Complete,
        )
    );
    let mut with_payload = amount_data(2, 9);
    with_payload.push(1);
    with_payload.extend_from_slice(&[0u8; 28]);
    assert!(matches!(process(&PROGRAM, &accts, &with_payload), Step::Invoke(..)));
    let mut short_payload = amount_data(2, 9);
    short_payload.push(1);
    short_payload.extend_from_slice(&[0u8; 27]);
    assert_eq!(finished_err(process(&PROGRAM, &accts, &short_payload)), ProgramError::InvalidInstructionData);
    let mut bad_flag = amount_data(2, 9);
    bad_flag.push(2);
    assert_eq!(finished_err(process(&PROGRAM, &accts, &bad_flag)), ProgramError::InvalidInstructionData);
    assert_eq!(finished_err(process(&PROGRAM, &accts, &amount_data(2, 9))), ProgramError::InvalidInstructionData);
    let mut other_redeem = receipt_accounts();
    other_redeem[3].key = [8u8; 32];
    assert_eq!(finished_err(process(&PROGRAM, &other_redeem, &data)), ProgramError::InvalidAccountData);
}

fn transfer_accounts() -> Vec<AccountView> {
    vec![
        acct(SIGNER, [0u8; 32], true, vec![]),
        acct(ata(SIGNER, MINT), token_id(), false, token_bytes(MINT, SIGNER, 0)),
        acct(ata(OWNER, MINT), token_id(), false, vec![]),
        acct(OWNER, [0u8; 32], false, vec![]),
        acct(MINT, token_id(), false, mint_bytes(None, 0)),
        acct(token_id(), [0u8; 32], false, vec![]),
    ]
}

#[test]
fn transfer_and_close_sender_flow() {
    let accts = transfer_accounts();
    assert_eq!(
        transfer_and_close_sender(&accts, &amount_data(3, 77)),
        Step::Invoke(
            TokenInstruction::Transfer { source: 1, destination: 2, authority: 0, token_program: 5, amount: 77 },
            Pending::CloseDrainedSender,
        )
    );
    assert_eq!(
        resume(&accts, &[], Pending::CloseDrainedSender, Ok(())),
        Step::Invoke(
            TokenInstruction::CloseAccount { account: 1, destination: 0, owner: 0, token_program: 5 },
            Pending::Complete,
        )
    );
    // the receiver's owner may be anybody
    let mut other_receiver = transfer_accounts();
    other_receiver[3].key = [8u8; 32];
    assert!(matches!(process(&PROGRAM, &other_receiver, &amount_data(3, 1)), Step::Invoke(..)));
    // the sender's account must be the signer's associated account
    let mut wrong_ata = transfer_accounts();
    wrong_ata[1].key = ata(OWNER, MINT);
    assert_eq!(finished_err(process(&PROGRAM, &wrong_ata, &amount_data(3, 1))), ProgramError::InvalidAccountData);
    let mut foreign_mint = transfer_accounts();
    foreign_mint[4].owner = [8u8; 32];
    assert_eq!(finished_err(process(&PROGRAM, &foreign_mint, &amount_data(3, 1))), ProgramError::IncorrectProgramId);
}

fn batch_accounts(pairs: usize) -> Vec<AccountView> {
    let mut a = vec![
        acct(SIGNER, [0u8; 32], true, vec![]),
        acct(MINT, token_id(), false, mint_bytes(Some(SIGNER), 2)),
        acct(token_id(), [0u8; 32], false, vec![]),
        acct([5u8; 32], [0u8; 32], false, vec![]),
        acct([6u8; 32], [0u8; 32], false, vec![]),
        acct([7u8; 32], [0u8; 32], false, vec![]),
    ];
    for i in 0..pairs {
        let owner = [20 + i as u8; 32];
        a.push(acct(owner, [0u8; 32], false, vec![]));
        a.push(acct(ata(owner, MINT), [0u8; 32], false, vec![]));
    }
    a
}

fn batch_data(amounts: &[u64]) -> Vec<u8> {
    let mut d = vec![4u8, amounts.len() as u8];
    for a in amounts {
        d.extend_from_slice(&a.to_le_bytes());
    }
    d
}

fn run_batch(accts: &[AccountView], data: &[u8]) -> (Vec<TokenInstruction>, Result<(), ProgramError>) {
    assert!(!process_aborts(accts, data));
    let mut step = process(&PROGRAM, accts, data);
    let mut invoked = Vec::new();
    loop {
        match step {
            Step::Finished(r) => return (invoked, r),
            Step::Invoke(ins, pending) => {
                invoked.push(ins);
                assert!(!resume_aborts(accts, data, pending));
                step = resume(accts, data, pending, Ok(()));
            }
        }
    }
}

#[test]
fn batch_reward_mint_gives_each_recipient_its_amount() {
    let accts = batch_accounts(2);
    let (invoked, result) = run_batch(&accts, &batch_data(&[1000, 7]));
    assert_eq!(result, Ok(()));
    assert_eq!(invoked.len(), 4);
    assert_eq!(
        invoked[0],
        TokenInstruction::CreateAssociatedTokenAccountIdempotent {
            payer: 0,
            associated_account: 7,
            wallet: 6,
            mint: 1,
            system_program: 4,
            token_program: 2,
            rent_sysvar: 5,
            associated_token_program: 3,
        }
    );
    assert_eq!(
        invoked[1],
        TokenInstruction::MintToChecked { mint: 1, account: 7, authority: 0, token_program: 2, amount: 1000, decimals: 2 }
    );
    assert_eq!(
        invoked[2],
        TokenInstruction::CreateAssociatedTokenAccountIdempotent {
            payer: 0,
            associated_account: 9,
            wallet: 8,
            mint: 1,
            system_program: 4,
            token_program: 2,
            rent_sysvar: 5,
            associated_token_program: 3,
        }
    );
    assert_eq!(
        invoked[3],
        TokenInstruction::MintToChecked { mint: 1, account: 9, authority: 0, token_program: 2, amount: 7, decimals: 2 }
    );
    // one recipient, amount zero
    let (invoked, result) = run_batch(&batch_accounts(1), &[4, 1, 0, 0, 0, 0, 0, 0, 0, 0]);
    assert_eq!(result, Ok(()));
    assert_eq!(
        invoked[1],
        TokenInstruction::MintToChecked { mint: 1, account: 7, authority: 0, token_program: 2, amount: 0, decimals: 2 }
    );
}

#[test]
fn batch_reward_mint_without_recipients() {
    let (invoked, result) = run_batch(&batch_accounts(0), &[4, 0]);
    assert_eq!(result, Ok(()));
    assert!(invoked.is_empty());
}

#[test]
fn batch_reward_mint_errors_and_aborts() {
    let data = batch_data(&[1]);
    let mut wrong = batch_accounts(1);
    wrong[7].key = [8u8; 32];
    assert_eq!(finished_err(process(&PROGRAM, &wrong, &data)), ProgramError::InvalidAccountData);
    let mut foreign = batch_accounts(1);
    foreign[1].data = mint_bytes(Some(OWNER), 2);
    assert_eq!(finished_err(process(&PROGRAM, &foreign, &data)), ProgramError::IllegalOwner);
    // the count must match the amounts and the pairs
    assert_eq!(finished_err(process(&PROGRAM, &batch_accounts(2), &data)), ProgramError::InvalidInstructionData);
    assert_eq!(finished_err(process(&PROGRAM, &batch_accounts(0), &data)), ProgramError::InvalidInstructionData);
    let mut odd = batch_accounts(1);
    odd.push(acct([30u8; 32], [0u8; 32], false, vec![]));
    assert!(!process_aborts(&odd, &data));
    assert_eq!(finished_err(process(&PROGRAM, &odd, &data)), ProgramError::InvalidInstructionData);
    assert_eq!(finished_err(process(&PROGRAM, &batch_accounts(1), &data[..9])), ProgramError::InvalidInstructionData);
    assert_eq!(finished_err(process(&PROGRAM, &batch_accounts(0), &[4])), ProgramError::InvalidInstructionData);
    // checks come before the layout
    let mut unsigned = batch_accounts(1);
    unsigned[0].is_signer = false;
    assert_eq!(finished_err(process(&PROGRAM, &unsigned, &[4u8])), ProgramError::MissingRequiredSignature);
    // the fixed accounts must be there
    assert!(process_aborts(&batch_accounts(0)[..5], &data));
    assert!(process_aborts(&mint_accounts()[..7], &amount_data(0, 1)));
    assert!(resume_aborts(&batch_accounts(1), &data, Pending::RewardMint { recipient: 1, amount: 1, decimals: 2 }));
}

#[test]
fn receipt_payload_does_not_change_the_burn() {
    let accts = receipt_accounts();
    let mut plain = amount_data(2, 9);
    plain.push(0);
    let mut with_payload = amount_data(2, 9);
    with_payload.push(1);
    with_payload.extend_from_slice(&[0xEEu8; 40]);
    assert_eq!(process(&PROGRAM, &accts, &plain), process(&PROGRAM, &accts, &with_payload));
}
