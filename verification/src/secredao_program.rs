use vstd::prelude::*;

use crate::account::AccountView;
use crate::bytes::{bytes_equal, le_u64_value, read_u64_le};
use crate::error::ProgramError;
use crate::token::{
    associated_token_address, associated_token_address_exists, mint_authority_is, mint_decimals,
    mint_unpack_error, spl_token_program_id, token_account_unpack_error, token_amount,
    token_has_close_authority, token_has_delegate, token_mint, token_owner, token_program_id,
    try_associated_token_address, unpack_mint, unpack_token_account,
};

verus! {

// ---------------------------------------------------------------------------
// Cross-program invocations and the steps of an instruction
// ---------------------------------------------------------------------------

/// An instruction of the SPL token program (or of the associated token
/// account program) that this program invokes. Each account is given by its
/// index among the accounts that the running instruction received; the
/// invocation passes the accounts in the order of the fields.
#[derive(Debug, Clone, Copy, PartialEq, Eq, Structural)]
pub enum TokenInstruction {
    /// `create_associated_token_account_idempotent(payer, wallet, mint,
    /// token_program)`.
    CreateAssociatedTokenAccountIdempotent {
        payer: usize,
        associated_account: usize,
        wallet: usize,
        mint: usize,
        system_program: usize,
        token_program: usize,
        rent_sysvar: usize,
        associated_token_program: usize,
    },
    /// `mint_to_checked(token_program, mint, account, authority, [], amount, decimals)`.
    MintToChecked {
        mint: usize,
        account: usize,
        authority: usize,
        token_program: usize,
        amount: u64,
        decimals: u8,
    },
    /// `burn(token_program, account, mint, authority, [], amount)`.
    Burn { account: usize, mint: usize, authority: usize, token_program: usize, amount: u64 },
    /// `transfer(token_program, source, destination, authority, [], amount)`.
    Transfer {
        source: usize,
        destination: usize,
        authority: usize,
        token_program: usize,
        amount: u64,
    },
    /// `close_account(token_program, account, destination, owner, [])`.
    CloseAccount { account: usize, destination: usize, owner: usize, token_program: usize },
}

/// What an instruction does once the invocation it asked for has succeeded.
#[derive(Debug, Clone, Copy, PartialEq, Eq, Structural)]
pub enum Pending {
    /// Nothing: the instruction succeeds.
    Complete,
    /// Mint `amount` into the associated account just created (`MintAndInitAta`).
    MintToNewAccount { amount: u64, decimals: u8 },
    /// Close the burnt account if it is empty, rent to the signer (`BurnAndCloseAta`).
    CloseDrainedAccount,
    /// Close the burnt account if it is empty, rent to the redemption
    /// address (`BurnWithEncryptedReceipt`).
    CloseDrainedReceiptAccount,
    /// Close the sender's account if it is empty (`TransferAndCloseSender`).
    CloseDrainedSender,
    /// Mint `amount` into the ata of recipient `recipient`, just created
    /// (`BatchRewardMint`).
    RewardMint { recipient: usize, amount: u64, decimals: u8 },
    /// Go on with recipient `recipient` (`BatchRewardMint`).
    RewardNext { recipient: usize, decimals: u8 },
}

/// The next thing an instruction does: end, or invoke a token instruction
/// and go on as `Pending` says once it has succeeded.
#[derive(Debug, PartialEq, Eq)]
pub enum Step {
    Finished(Result<(), ProgramError>),
    Invoke(TokenInstruction, Pending),
}

// ---------------------------------------------------------------------------
// What each instruction decides
// ---------------------------------------------------------------------------

/// The amount carried in bytes 1..9 of the instruction data.
pub open spec fn instruction_amount(data: Seq<u8>) -> u64 {
    le_u64_value(data.subrange(1, 9)) as u64
}

/// Fails with `e`.
pub open spec fn fail(e: ProgramError) -> Step {
    Step::Finished(Err(e))
}

/// The check that `account` is the associated token account of `wallet` for
/// `mint`: keys from which no address can be derived are `InvalidSeeds`,
/// another address is `InvalidAccountData`.
pub open spec fn address_check(account: Seq<u8>, wallet: Seq<u8>, mint: Seq<u8>) -> Option<
    ProgramError,
> {
    if !associated_token_address_exists(wallet, mint) {
        Some(ProgramError::InvalidSeeds)
    } else if associated_token_address(wallet, mint) != account {
        Some(ProgramError::InvalidAccountData)
    } else {
        None
    }
}

/// The checks that open `MintAndInitAta` and `BatchRewardMint`: the signer
/// signed, the token program is SPL token, the mint unpacks and names the
/// signer as mint authority. `mint_owner_checked` adds the check that SPL
/// token owns the mint.
pub open spec fn mint_authority_checks(
    signer: AccountView,
    mint: AccountView,
    token_program: AccountView,
    mint_owner_checked: bool,
) -> Option<ProgramError> {
    if !signer.is_signer {
        Some(ProgramError::MissingRequiredSignature)
    } else if token_program.key@ != spl_token_program_id() {
        Some(ProgramError::IncorrectProgramId)
    } else if mint_owner_checked && mint.owner@ != spl_token_program_id() {
        Some(ProgramError::IncorrectProgramId)
    } else if mint_unpack_error(mint.data@) is Some {
        mint_unpack_error(mint.data@)
    } else if !mint_authority_is(mint.data@, signer.key@) {
        Some(ProgramError::IllegalOwner)
    } else {
        None
    }
}

/// Tag 0, `MintAndInitAta`: accounts `signer, mint, ata, owner,
/// token_program, ata_program, system_program, rent`, data `amount[8]`.
pub open spec fn mint_and_init_ata_spec(accounts: Seq<AccountView>, data: Seq<u8>) -> Step {
    let signer = accounts[0];
    let mint = accounts[1];
    let ata = accounts[2];
    let owner = accounts[3];
    match mint_authority_checks(signer, mint, accounts[4], true) {
        Some(e) => fail(e),
        None => if address_check(ata.key@, owner.key@, mint.key@) is Some {
            fail(address_check(ata.key@, owner.key@, mint.key@).unwrap())
        } else if data.len() < 9 {
            fail(ProgramError::InvalidInstructionData)
        } else {
            Step::Invoke(
                TokenInstruction::CreateAssociatedTokenAccountIdempotent {
                    payer: 0,
                    associated_account: 2,
                    wallet: 3,
                    mint: 1,
                    system_program: 6,
                    token_program: 4,
                    rent_sysvar: 7,
                    associated_token_program: 5,
                },
                Pending::MintToNewAccount {
                    amount: instruction_amount(data),
                    decimals: mint_decimals(mint.data@),
                },
            )
        },
    }
}

/// The checks of a token account that an instruction burns or sends from:
/// the account unpacks, belongs to `holder` and holds tokens of `mint`; it is
/// the associated account of `holder` for `mint`, a check made at the place
/// the instruction makes it (`address_first`: before the delegate checks,
/// else after them); the account has neither delegate nor close authority.
pub open spec fn token_account_checks(
    account: AccountView,
    holder: AccountView,
    mint: AccountView,
    address_first: bool,
) -> Option<ProgramError> {
    let s = account.data@;
    let address = address_check(account.key@, holder.key@, mint.key@);
    if token_account_unpack_error(s) is Some {
        token_account_unpack_error(s)
    } else if token_owner(s) != holder.key@ {
        Some(ProgramError::IllegalOwner)
    } else if token_mint(s) != mint.key@ {
        Some(ProgramError::InvalidAccountData)
    } else if address_first && address is Some {
        address
    } else if token_has_delegate(s) || token_has_close_authority(s) {
        Some(ProgramError::InvalidAccountData)
    } else if !address_first && address is Some {
        address
    } else {
        None
    }
}

/// The checks that open the burning and sending instructions: the data is
/// long enough, the signer signed, the token program is SPL token and SPL
/// token owns the mint.
pub open spec fn signer_checks(
    data: Seq<u8>,
    min_data: int,
    signer: AccountView,
    mint: AccountView,
    token_program: AccountView,
) -> Option<ProgramError> {
    if data.len() < min_data {
        Some(ProgramError::InvalidInstructionData)
    } else if !signer.is_signer {
        Some(ProgramError::MissingRequiredSignature)
    } else if token_program.key@ != spl_token_program_id() {
        Some(ProgramError::IncorrectProgramId)
    } else if mint.owner@ != spl_token_program_id() {
        Some(ProgramError::IncorrectProgramId)
    } else {
        None
    }
}

/// Tag 1, `BurnAndCloseAta`: accounts `signer, ata, mint, token_program`,
/// data `amount[8]`.
pub open spec fn burn_and_close_ata_spec(accounts: Seq<AccountView>, data: Seq<u8>) -> Step {
    let signer = accounts[0];
    let ata = accounts[1];
    let mint = accounts[2];
    match signer_checks(data, 9, signer, mint, accounts[3]) {
        Some(e) => fail(e),
        None => match token_account_checks(ata, signer, mint, true) {
            Some(e) => fail(e),
            None => Step::Invoke(
                TokenInstruction::Burn {
                    account: 1,
                    mint: 2,
                    authority: 0,
                    token_program: 3,
                    amount: instruction_amount(data),
                },
                Pending::CloseDrainedAccount,
            ),
        },
    }
}

/// The check of the optional receiver payload of `BurnWithEncryptedReceipt`:
/// byte 9 is 0 (none) or 1 (a payload of at least 28 bytes follows).
pub open spec fn receipt_check(data: Seq<u8>) -> Option<ProgramError> {
    if data[9] == 0 {
        None
    } else if data[9] == 1 && data.len() >= 38 {
        None
    } else {
        Some(ProgramError::InvalidInstructionData)
    }
}

/// Tag 2, `BurnWithEncryptedReceipt`: accounts `signer, ata, mint, redeem,
/// token_program`, data `amount[8] has_receiver payload?`.
pub open spec fn burn_with_encrypted_receipt_spec(
    accounts: Seq<AccountView>,
    data: Seq<u8>,
) -> Step {
    let signer = accounts[0];
    let ata = accounts[1];
    let mint = accounts[2];
    let redeem = accounts[3];
    match signer_checks(data, 10, signer, mint, accounts[4]) {
        Some(e) => fail(e),
        None => if redeem.key@ != signer.key@ {
            fail(ProgramError::InvalidAccountData)
        } else {
            match token_account_checks(ata, signer, mint, true) {
                Some(e) => fail(e),
                None => match receipt_check(data) {
                    Some(e) => fail(e),
                    None => Step::Invoke(
                        TokenInstruction::Burn {
                            account: 1,
                            mint: 2,
                            authority: 0,
                            token_program: 4,
                            amount: instruction_amount(data),
                        },
                        Pending::CloseDrainedReceiptAccount,
                    ),
                },
            }
        },
    }
}

/// Tag 3, `TransferAndCloseSender`: accounts `signer, from_ata, to_ata,
/// receiver_owner, mint, token_program`, data `amount[8]`; the sender's
/// account is the signer's associated account.
pub open spec fn transfer_and_close_sender_spec(accounts: Seq<AccountView>, data: Seq<u8>) -> Step {
    let signer = accounts[0];
    let from_ata = accounts[1];
    let mint = accounts[4];
    match signer_checks(data, 9, signer, mint, accounts[5]) {
        Some(e) => fail(e),
        None => match token_account_checks(from_ata, signer, mint, false) {
            Some(e) => fail(e),
            None => Step::Invoke(
                TokenInstruction::Transfer {
                    source: 1,
                    destination: 2,
                    authority: 0,
                    token_program: 5,
                    amount: instruction_amount(data),
                },
                Pending::CloseDrainedSender,
            ),
        },
    }
}

/// The number of recipients that `BatchRewardMint` announces (byte 1).
pub open spec fn reward_count(data: Seq<u8>) -> int {
    data[1] as int
}

/// The amount of recipient `k` of `BatchRewardMint`: the `k`-th little-endian
/// word of eight bytes after the count.
pub open spec fn reward_amount(data: Seq<u8>, k: int) -> u64 {
    le_u64_value(data.subrange(2 + 8 * k, 10 + 8 * k)) as u64
}

/// Whether a `BatchRewardMint` holds one amount, and one `(owner, ata)` pair
/// of accounts after the six fixed ones, for each recipient it announces.
pub open spec fn reward_layout_ok(accounts: Seq<AccountView>, data: Seq<u8>) -> bool {
    &&& data.len() >= 2
    &&& data.len() == 2 + 8 * reward_count(data)
    &&& accounts.len() == 6 + 2 * reward_count(data)
}

/// `BatchRewardMint` at recipient `k`, whose pair is `(owner, ata)` at
/// `6 + 2k`: done past the last recipient; else the ata must be the owner's
/// associated account, which is then created.
pub open spec fn reward_pair_spec(
    accounts: Seq<AccountView>,
    data: Seq<u8>,
    k: usize,
    decimals: u8,
) -> Step {
    let owner = 6 + 2 * k;
    let ata = 7 + 2 * k;
    if k >= reward_count(data) {
        Step::Finished(Ok(()))
    } else if address_check(accounts[ata].key@, accounts[owner].key@, accounts[1].key@) is Some {
        fail(address_check(accounts[ata].key@, accounts[owner].key@, accounts[1].key@).unwrap())
    } else {
        Step::Invoke(
            TokenInstruction::CreateAssociatedTokenAccountIdempotent {
                payer: 0,
                associated_account: ata as usize,
                wallet: owner as usize,
                mint: 1,
                system_program: 4,
                token_program: 2,
                rent_sysvar: 5,
                associated_token_program: 3,
            },
            Pending::RewardMint { recipient: k, amount: reward_amount(data, k as int), decimals },
        )
    }
}

/// Tag 4, `BatchRewardMint`: accounts `signer, mint, token_program,
/// ata_program, system_program, rent` and then one pair `(owner, ata)` per
/// recipient, data `count amounts[8 * count]`: recipient `k` receives the
/// `k`-th amount. A count that does not match the amounts or the pairs is
/// `InvalidInstructionData`.
pub open spec fn batch_reward_mint_spec(accounts: Seq<AccountView>, data: Seq<u8>) -> Step {
    match mint_authority_checks(accounts[0], accounts[1], accounts[2], false) {
        Some(e) => fail(e),
        None => if !reward_layout_ok(accounts, data) {
            fail(ProgramError::InvalidInstructionData)
        } else {
            reward_pair_spec(accounts, data, 0, mint_decimals(accounts[1].data@))
        },
    }
}

/// The first step of an instruction: its tag (byte 0) chooses the handler.
pub open spec fn first_step(accounts: Seq<AccountView>, data: Seq<u8>) -> Step {
    if data.len() == 0 {
        fail(ProgramError::InvalidInstructionData)
    } else if data[0] == 0 {
        mint_and_init_ata_spec(accounts, data)
    } else if data[0] == 1 {
        burn_and_close_ata_spec(accounts, data)
    } else if data[0] == 2 {
        burn_with_encrypted_receipt_spec(accounts, data)
    } else if data[0] == 3 {
        transfer_and_close_sender_spec(accounts, data)
    } else if data[0] == 4 {
        batch_reward_mint_spec(accounts, data)
    } else {
        fail(ProgramError::InvalidInstructionData)
    }
}

/// After a burn or a transfer: the account at index 1, read again, must
/// unpack; it is closed with `close` if its balance is zero.
pub open spec fn close_if_drained(accounts: Seq<AccountView>, close: TokenInstruction) -> Step {
    let s = accounts[1].data@;
    if token_account_unpack_error(s) is Some {
        fail(token_account_unpack_error(s).unwrap())
    } else if token_amount(s) == 0 {
        Step::Invoke(close, Pending::Complete)
    } else {
        Step::Finished(Ok(()))
    }
}

/// The step after an invocation that ended with `outcome`; `accounts` are the
/// instruction's accounts as they are after the invocation, `data` its data.
pub open spec fn next_step(
    accounts: Seq<AccountView>,
    data: Seq<u8>,
    pending: Pending,
    outcome: Result<(), ProgramError>,
) -> Step {
    match outcome {
        Err(e) => fail(e),
        Ok(_) => match pending {
            Pending::Complete => Step::Finished(Ok(())),
            Pending::MintToNewAccount { amount, decimals } => Step::Invoke(
                TokenInstruction::MintToChecked {
                    mint: 1,
                    account: 2,
                    authority: 0,
                    token_program: 4,
                    amount,
                    decimals,
                },
                Pending::Complete,
            ),
            Pending::CloseDrainedAccount => close_if_drained(
                accounts,
                TokenInstruction::CloseAccount {
                    account: 1,
                    destination: 0,
                    owner: 0,
                    token_program: 3,
                },
            ),
            Pending::CloseDrainedReceiptAccount => close_if_drained(
                accounts,
                TokenInstruction::CloseAccount {
                    account: 1,
                    destination: 3,
                    owner: 0,
                    token_program: 4,
                },
            ),
            Pending::CloseDrainedSender => close_if_drained(
                accounts,
                TokenInstruction::CloseAccount {
                    account: 1,
                    destination: 0,
                    owner: 0,
                    token_program: 5,
                },
            ),
            Pending::RewardMint { recipient, amount, decimals } => Step::Invoke(
                TokenInstruction::MintToChecked {
                    mint: 1,
                    account: (7 + 2 * recipient) as usize,
                    authority: 0,
                    token_program: 2,
                    amount,
                    decimals,
                },
                Pending::RewardNext { recipient: (recipient + 1) as usize, decimals },
            ),
            Pending::RewardNext { recipient, decimals } => reward_pair_spec(
                accounts,
                data,
                recipient,
                decimals,
            ),
        },
    }
}

// ---------------------------------------------------------------------------
// Where the instructions stop short (an index or a slice out of bounds)
// ---------------------------------------------------------------------------

/// Whether the first step of an instruction runs out of accounts: each
/// instruction takes its fixed accounts before any check.
pub open spec fn first_step_aborts(accounts: Seq<AccountView>, data: Seq<u8>) -> bool {
    data.len() > 0 && {
        ||| data[0] == 0 && accounts.len() < 8
        ||| data[0] == 1 && accounts.len() < 4
        ||| data[0] == 2 && accounts.len() < 5
        ||| data[0] == 3 && accounts.len() < 6
        ||| data[0] == 4 && accounts.len() < 6
    }
}

/// Whether going on with `pending` stays within the accounts and the data the
/// instruction started with.
pub open spec fn pending_fits(accounts: Seq<AccountView>, data: Seq<u8>, pending: Pending) -> bool {
    match pending {
        Pending::Complete => true,
        Pending::MintToNewAccount { .. } => accounts.len() >= 8,
        Pending::CloseDrainedAccount => accounts.len() >= 4,
        Pending::CloseDrainedReceiptAccount => accounts.len() >= 5,
        Pending::CloseDrainedSender => accounts.len() >= 6,
        Pending::RewardMint { recipient, .. } => reward_layout_ok(accounts, data) && recipient
            < reward_count(data),
        Pending::RewardNext { recipient, .. } => reward_layout_ok(accounts, data) && recipient
            <= reward_count(data),
    }
}

// ---------------------------------------------------------------------------
// The instructions
// ---------------------------------------------------------------------------

fn is_token_program(key: &[u8; 32]) -> (b: bool)
    ensures
        b == (key@ == spl_token_program_id()),
{
    let id = token_program_id();
    bytes_equal(key.as_slice(), id.as_slice())
}

fn amount_of(data: &[u8]) -> (amount: u64)
    requires
        data@.len() >= 9,
    ensures
        amount == instruction_amount(data@),
{
    read_u64_le(&data[1..9])
}

fn check_mint_authority(
    signer: &AccountView,
    mint: &AccountView,
    token_program: &AccountView,
    mint_owner_checked: bool,
) -> (r: Result<u8, ProgramError>)
    ensures
        match mint_authority_checks(*signer, *mint, *token_program, mint_owner_checked) {
            Some(e) => r == Err::<u8, ProgramError>(e),
            None => r == Ok::<u8, ProgramError>(mint_decimals(mint.data@)),
        },
{
    if !signer.is_signer {
        return Err(ProgramError::MissingRequiredSignature);
    }
    if !is_token_program(&token_program.key) {
        return Err(ProgramError::IncorrectProgramId);
    }
    if mint_owner_checked && !is_token_program(&mint.owner) {
        return Err(ProgramError::IncorrectProgramId);
    }
    let mint_data = match unpack_mint(mint.data.as_slice()) {
        Ok(m) => m,
        Err(e) => {
            return Err(e);
        },
    };
    let is_authority = match mint_data.mint_authority {
        Some(k) => bytes_equal(k.as_slice(), signer.key.as_slice()),
        None => false,
    };
    if !is_authority {
        return Err(ProgramError::IllegalOwner);
    }
    Ok(mint_data.decimals)
}

fn check_signer(
    data: &[u8],
    min_data: usize,
    signer: &AccountView,
    mint: &AccountView,
    token_program: &AccountView,
) -> (r: Result<(), ProgramError>)
    ensures
        match signer_checks(data@, min_data as int, *signer, *mint, *token_program) {
            Some(e) => r == Err::<(), ProgramError>(e),
            None => r == Ok::<(), ProgramError>(()),
        },
{
    if data.len() < min_data {
        return Err(ProgramError::InvalidInstructionData);
    }
    if !signer.is_signer {
        return Err(ProgramError::MissingRequiredSignature);
    }
    if !is_token_program(&token_program.key) {
        return Err(ProgramError::IncorrectProgramId);
    }
    if !is_token_program(&mint.owner) {
        return Err(ProgramError::IncorrectProgramId);
    }
    Ok(())
}

fn check_address(account: &[u8; 32], wallet: &[u8; 32], mint: &[u8; 32]) -> (r: Result<
    (),
    ProgramError,
>)
    ensures
        match address_check(account@, wallet@, mint@) {
            Some(e) => r == Err::<(), ProgramError>(e),
            None => r == Ok::<(), ProgramError>(()),
        },
{
    match try_associated_token_address(wallet, mint) {
        None => Err(ProgramError::InvalidSeeds),
        Some(expected) => if bytes_equal(expected.as_slice(), account.as_slice()) {
            Ok(())
        } else {
            Err(ProgramError::InvalidAccountData)
        },
    }
}

fn check_token_account(
    account: &AccountView,
    holder: &AccountView,
    mint: &AccountView,
    address_first: bool,
) -> (r: Result<(), ProgramError>)
    ensures
        match token_account_checks(*account, *holder, *mint, address_first) {
            Some(e) => r == Err::<(), ProgramError>(e),
            None => r == Ok::<(), ProgramError>(()),
        },
{
    let token_data = match unpack_token_account(account.data.as_slice()) {
        Ok(a) => a,
        Err(e) => {
            return Err(e);
        },
    };
    if !bytes_equal(token_data.owner.as_slice(), holder.key.as_slice()) {
        return Err(ProgramError::IllegalOwner);
    }
    if !bytes_equal(token_data.mint.as_slice(), mint.key.as_slice()) {
        return Err(ProgramError::InvalidAccountData);
    }
    let address = check_address(&account.key, &holder.key, &mint.key);
    if address_first && address.is_err() {
        return address;
    }
    if token_data.delegate.is_some() {
        return Err(ProgramError::InvalidAccountData);
    }
    if token_data.close_authority.is_some() {
        return Err(ProgramError::InvalidAccountData);
    }
    if !address_first && address.is_err() {
        return address;
    }
    Ok(())
}

/// Checks a `MintAndInitAta` instruction; its first invocation creates the
/// owner's associated token account.
pub fn mint_and_init_ata(accounts: &[AccountView], data: &[u8]) -> (step: Step)
    requires
        accounts@.len() >= 8,
    ensures
        step == mint_and_init_ata_spec(accounts@, data@),
{
    let signer = &accounts[0];
    let mint = &accounts[1];
    let ata = &accounts[2];
    let owner = &accounts[3];
    let decimals = match check_mint_authority(signer, mint, &accounts[4], true) {
        Ok(d) => d,
        Err(e) => {
            return Step::Finished(Err(e));
        },
    };
    if let Err(e) = check_address(&ata.key, &owner.key, &mint.key) {
        return Step::Finished(Err(e));
    }
    if data.len() < 9 {
        return Step::Finished(Err(ProgramError::InvalidInstructionData));
    }
    let amount = amount_of(data);
    Step::Invoke(
        TokenInstruction::CreateAssociatedTokenAccountIdempotent {
            payer: 0,
            associated_account: 2,
            wallet: 3,
            mint: 1,
            system_program: 6,
            token_program: 4,
            rent_sysvar: 7,
            associated_token_program: 5,
        },
        Pending::MintToNewAccount { amount, decimals },
    )
}

/// Checks a `BurnAndCloseAta` instruction; its first invocation burns the
/// amount from the signer's associated token account.
pub fn burn_and_close_ata(accounts: &[AccountView], data: &[u8]) -> (step: Step)
    requires
        accounts@.len() >= 4,
    ensures
        step == burn_and_close_ata_spec(accounts@, data@),
{
    let signer = &accounts[0];
    let ata = &accounts[1];
    let mint = &accounts[2];
    if let Err(e) = check_signer(data, 9, signer, mint, &accounts[3]) {
        return Step::Finished(Err(e));
    }
    if let Err(e) = check_token_account(ata, signer, mint, true) {
        return Step::Finished(Err(e));
    }
    let amount = amount_of(data);
    Step::Invoke(
        TokenInstruction::Burn { account: 1, mint: 2, authority: 0, token_program: 3, amount },
        Pending::CloseDrainedAccount,
    )
}

/// Checks a `BurnWithEncryptedReceipt` instruction; its first invocation
/// burns the amount from the signer's associated token account.
pub fn burn_with_encrypted_receipt(accounts: &[AccountView], data: &[u8]) -> (step: Step)
    requires
        accounts@.len() >= 5,
    ensures
        step == burn_with_encrypted_receipt_spec(accounts@, data@),
{
    let signer = &accounts[0];
    let ata = &accounts[1];
    let mint = &accounts[2];
    let redeem = &accounts[3];
    if let Err(e) = check_signer(data, 10, signer, mint, &accounts[4]) {
        return Step::Finished(Err(e));
    }
    if !bytes_equal(redeem.key.as_slice(), signer.key.as_slice()) {
        return Step::Finished(Err(ProgramError::InvalidAccountData));
    }
    if let Err(e) = check_token_account(ata, signer, mint, true) {
        return Step::Finished(Err(e));
    }
    let amount = amount_of(data);
    let has_receiver = data[9];
    if has_receiver == 1 {
        if data.len() < 38 {
            return Step::Finished(Err(ProgramError::InvalidInstructionData));
        }
    } else if has_receiver != 0 {
        return Step::Finished(Err(ProgramError::InvalidInstructionData));
    }
    Step::Invoke(
        TokenInstruction::Burn { account: 1, mint: 2, authority: 0, token_program: 4, amount },
        Pending::CloseDrainedReceiptAccount,
    )
}

/// Checks a `TransferAndCloseSender` instruction; its first invocation moves
/// the amount from the signer's associated token account.
pub fn transfer_and_close_sender(accounts: &[AccountView], data: &[u8]) -> (step: Step)
    requires
        accounts@.len() >= 6,
    ensures
        step == transfer_and_close_sender_spec(accounts@, data@),
{
    let signer = &accounts[0];
    let from_ata = &accounts[1];
    let mint = &accounts[4];
    if let Err(e) = check_signer(data, 9, signer, mint, &accounts[5]) {
        return Step::Finished(Err(e));
    }
    if let Err(e) = check_token_account(from_ata, signer, mint, false) {
        return Step::Finished(Err(e));
    }
    let amount = amount_of(data);
    Step::Invoke(
        TokenInstruction::Transfer {
            source: 1,
            destination: 2,
            authority: 0,
            token_program: 5,
            amount,
        },
        Pending::CloseDrainedSender,
    )
}

fn reward_pair(accounts: &[AccountView], data: &[u8], k: usize, decimals: u8) -> (step: Step)
    requires
        reward_layout_ok(accounts@, data@),
        k <= reward_count(data@),
    ensures
        step == reward_pair_spec(accounts@, data@, k, decimals),
{
    if k >= data[1] as usize {
        return Step::Finished(Ok(()));
    }
    let owner = &accounts[6 + 2 * k];
    let ata = &accounts[7 + 2 * k];
    if let Err(e) = check_address(&ata.key, &owner.key, &accounts[1].key) {
        return Step::Finished(Err(e));
    }
    let amount = read_u64_le(&data[2 + 8 * k..10 + 8 * k]);
    Step::Invoke(
        TokenInstruction::CreateAssociatedTokenAccountIdempotent {
            payer: 0,
            associated_account: 7 + 2 * k,
            wallet: 6 + 2 * k,
            mint: 1,
            system_program: 4,
            token_program: 2,
            rent_sysvar: 5,
            associated_token_program: 3,
        },
        Pending::RewardMint { recipient: k, amount, decimals },
    )
}

/// Checks a `BatchRewardMint` instruction; its first invocation creates the
/// associated token account of the first recipient.
pub fn batch_reward_mint(accounts: &[AccountView], data: &[u8]) -> (step: Step)
    requires
        accounts@.len() >= 6,
    ensures
        step == batch_reward_mint_spec(accounts@, data@),
{
    let decimals = match check_mint_authority(&accounts[0], &accounts[1], &accounts[2], false) {
        Ok(d) => d,
        Err(e) => {
            return Step::Finished(Err(e));
        },
    };
    if data.len() < 2 {
        return Step::Finished(Err(ProgramError::InvalidInstructionData));
    }
    let count = data[1] as usize;
    if data.len() != 2 + 8 * count || accounts.len() != 6 + 2 * count {
        return Step::Finished(Err(ProgramError::InvalidInstructionData));
    }
    reward_pair(accounts, data, 0, decimals)
}

/// Whether the first step of an instruction would stop short: see
/// `first_step_aborts`.
pub fn process_aborts(accounts: &[AccountView], data: &[u8]) -> (b: bool)
    ensures
        b == first_step_aborts(accounts@, data@),
{
    if data.len() == 0 {
        return false;
    }
    let n = accounts.len();
    let tag = data[0];
    if tag == 0 {
        n < 8
    } else if tag == 1 {
        n < 4
    } else if tag == 2 {
        n < 5
    } else if tag == 3 || tag == 4 {
        n < 6
    } else {
        false
    }
}

fn layout_ok(accounts: &[AccountView], data: &[u8]) -> (b: bool)
    ensures
        b == reward_layout_ok(accounts@, data@),
{
    data.len() >= 2 && data.len() == 2 + 8 * (data[1] as usize) && accounts.len() == 6 + 2 * (
    data[1] as usize)
}

/// Whether going on with `pending` would stop short: see `pending_fits`.
pub fn resume_aborts(accounts: &[AccountView], data: &[u8], pending: Pending) -> (b: bool)
    ensures
        b == !pending_fits(accounts@, data@, pending),
{
    let n = accounts.len();
    match pending {
        Pending::Complete => false,
        Pending::MintToNewAccount { .. } => n < 8,
        Pending::CloseDrainedAccount => n < 4,
        Pending::CloseDrainedReceiptAccount => n < 5,
        Pending::CloseDrainedSender => n < 6,
        Pending::RewardMint { recipient, .. } => !(layout_ok(accounts, data) && recipient
            < data[1] as usize),
        Pending::RewardNext { recipient, .. } => !(layout_ok(accounts, data) && recipient
            <= data[1] as usize),
    }
}

/// Starts one instruction of the token program front end: tag 0 mints into a
/// new associated account, 1 burns and closes an emptied account, 2 burns with
/// an optional encrypted receipt, 3 transfers and closes an emptied sender, 4
/// mints a reward to each recipient. The step says whether the instruction
/// ends or which token instruction to invoke next.
pub fn process(_program_id: &[u8; 32], accounts: &[AccountView], data: &[u8]) -> (step: Step)
    requires
        !first_step_aborts(accounts@, data@),
    ensures
        step == first_step(accounts@, data@),
        step matches Step::Invoke(_, p) ==> pending_fits(accounts@, data@, p),
{
    if data.len() == 0 {
        return Step::Finished(Err(ProgramError::InvalidInstructionData));
    }
    let tag = data[0];
    if tag == 0 {
        mint_and_init_ata(accounts, data)
    } else if tag == 1 {
        burn_and_close_ata(accounts, data)
    } else if tag == 2 {
        burn_with_encrypted_receipt(accounts, data)
    } else if tag == 3 {
        transfer_and_close_sender(accounts, data)
    } else if tag == 4 {
        batch_reward_mint(accounts, data)
    } else {
        Step::Finished(Err(ProgramError::InvalidInstructionData))
    }
}

fn close_drained(accounts: &[AccountView], close: TokenInstruction) -> (step: Step)
    requires
        accounts@.len() >= 2,
    ensures
        step == close_if_drained(accounts@, close),
{
    match unpack_token_account(accounts[1].data.as_slice()) {
        Err(e) => Step::Finished(Err(e)),
        Ok(token_data) => if token_data.amount == 0 {
            Step::Invoke(close, Pending::Complete)
        } else {
            Step::Finished(Ok(()))
        },
    }
}

/// Goes on with an instruction after the invocation it asked for ended with
/// `outcome`; `accounts` are its accounts as they are now, `data` its data. A
/// failed invocation ends the instruction with that failure.
pub fn resume(
    accounts: &[AccountView],
    data: &[u8],
    pending: Pending,
    outcome: Result<(), ProgramError>,
) -> (step: Step)
    requires
        pending_fits(accounts@, data@, pending),
    ensures
        step == next_step(accounts@, data@, pending, outcome),
        step matches Step::Invoke(_, p) ==> pending_fits(accounts@, data@, p),
{
    match outcome {
        Err(e) => Step::Finished(Err(e)),
        Ok(_) => match pending {
            Pending::Complete => Step::Finished(Ok(())),
            Pending::MintToNewAccount { amount, decimals } => Step::Invoke(
                TokenInstruction::MintToChecked {
                    mint: 1,
                    account: 2,
                    authority: 0,
                    token_program: 4,
                    amount,
                    decimals,
                },
                Pending::Complete,
            ),
            Pending::CloseDrainedAccount => close_drained(
                accounts,
                TokenInstruction::CloseAccount {
                    account: 1,
                    destination: 0,
                    owner: 0,
                    token_program: 3,
                },
            ),
            Pending::CloseDrainedReceiptAccount => close_drained(
                accounts,
                TokenInstruction::CloseAccount {
                    account: 1,
                    destination: 3,
                    owner: 0,
                    token_program: 4,
                },
            ),
            Pending::CloseDrainedSender => close_drained(
                accounts,
                TokenInstruction::CloseAccount {
                    account: 1,
                    destination: 0,
                    owner: 0,
                    token_program: 5,
                },
            ),
            Pending::RewardMint { recipient, amount, decimals } => Step::Invoke(
                TokenInstruction::MintToChecked {
                    mint: 1,
                    account: 7 + 2 * recipient,
                    authority: 0,
                    token_program: 2,
                    amount,
                    decimals,
                },
                Pending::RewardNext { recipient: recipient + 1, decimals },
            ),
            Pending::RewardNext { recipient, decimals } => reward_pair(
                accounts,
                data,
                recipient,
                decimals,
            ),
        },
    }
}

} // verus!
