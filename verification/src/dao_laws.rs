use vstd::prelude::*;

use crate::account::AccountView;
use crate::bytes::le_u64_value;
use crate::error::ProgramError;
use crate::secredao_program::{
    address_check, batch_reward_mint_spec, burn_and_close_ata_spec,
    burn_with_encrypted_receipt_spec, first_step, instruction_amount, mint_and_init_ata_spec,
    mint_authority_checks, next_step, reward_amount, reward_count, reward_layout_ok,
    reward_pair_spec,
    transfer_and_close_sender_spec, Pending, Step, TokenInstruction,
};
use crate::token::{
    associated_token_address, associated_token_address_exists, mint_decimals, spl_token_program_id, token_account_unpack_error, token_amount, token_mint,
    token_owner,
};

verus! {

/// The account that an invocation names as the token program.
pub open spec fn invoked_token_program(ins: TokenInstruction) -> usize {
    match ins {
        TokenInstruction::CreateAssociatedTokenAccountIdempotent { token_program, .. } => token_program,
        TokenInstruction::MintToChecked { token_program, .. } => token_program,
        TokenInstruction::Burn { token_program, .. } => token_program,
        TokenInstruction::Transfer { token_program, .. } => token_program,
        TokenInstruction::CloseAccount { token_program, .. } => token_program,
    }
}

/// How many steps an instruction with data `data` can still take from
/// `pending`.
pub open spec fn steps_left(data: Seq<u8>, pending: Pending) -> int {
    match pending {
        Pending::Complete => 0,
        Pending::MintToNewAccount { .. } => 1,
        Pending::CloseDrainedAccount => 1,
        Pending::CloseDrainedReceiptAccount => 1,
        Pending::CloseDrainedSender => 1,
        Pending::RewardMint { recipient, .. } => 2 * (reward_count(data) - recipient) + 1,
        Pending::RewardNext { recipient, .. } => if recipient >= reward_count(data) {
            0
        } else {
            2 * (reward_count(data) - recipient) + 2
        },
    }
}

/// The tag chooses the instruction: tags 0 to 4 run `MintAndInitAta`,
/// `BurnAndCloseAta`, `BurnWithEncryptedReceipt`, `TransferAndCloseSender`
/// and `BatchRewardMint` on the whole data; an empty instruction and any
/// other tag are refused as invalid data, whatever the accounts.
pub proof fn law_dispatch(accounts: Seq<AccountView>, data: Seq<u8>)
    ensures
        data.len() == 0 || data[0] > 4 ==> first_step(accounts, data) == Step::Finished(
            Err(ProgramError::InvalidInstructionData),
        ),
        data.len() > 0 && data[0] == 0 ==> first_step(accounts, data) == mint_and_init_ata_spec(
            accounts,
            data,
        ),
        data.len() > 0 && data[0] == 1 ==> first_step(accounts, data) == burn_and_close_ata_spec(
            accounts,
            data,
        ),
        data.len() > 0 && data[0] == 2 ==> first_step(accounts, data)
            == burn_with_encrypted_receipt_spec(accounts, data),
        data.len() > 0 && data[0] == 3 ==> first_step(accounts, data)
            == transfer_and_close_sender_spec(accounts, data),
        data.len() > 0 && data[0] == 4 ==> first_step(accounts, data) == batch_reward_mint_spec(
            accounts,
            data,
        ),
{
}

/// No instruction invokes anything unless its first account signed and the
/// account it passes as token program is the SPL token program.
pub proof fn law_invocation_needs_signer_and_token_program(
    accounts: Seq<AccountView>,
    data: Seq<u8>,
)
    ensures
        first_step(accounts, data) matches Step::Invoke(ins, _) ==> {
            &&& accounts[0].is_signer
            &&& accounts[invoked_token_program(ins) as int].key@ == spl_token_program_id()
        },
{
}

/// A failed invocation ends the instruction with the error it returned.
pub proof fn law_failed_invocation_ends(
    accounts: Seq<AccountView>,
    data: Seq<u8>,
    pending: Pending,
    e: ProgramError,
)
    ensures
        next_step(accounts, data, pending, Err(e)) == Step::Finished(Err(e)),
{
}

/// `MintAndInitAta` mints the amount of its data, with the mint's decimals,
/// into the associated account it has just created.
pub proof fn law_mint_amount_is_requested(
    accounts: Seq<AccountView>,
    data: Seq<u8>,
    after: Seq<AccountView>,
)
    requires
        data.len() > 0,
        data[0] == 0,
        first_step(accounts, data) is Invoke,
    ensures
        first_step(accounts, data) matches Step::Invoke(create, pending) && create
            == (TokenInstruction::CreateAssociatedTokenAccountIdempotent {
            payer: 0,
            associated_account: 2,
            wallet: 3,
            mint: 1,
            system_program: 6,
            token_program: 4,
            rent_sysvar: 7,
            associated_token_program: 5,
        }) && next_step(after, data, pending, Ok(())) == Step::Invoke(
            TokenInstruction::MintToChecked {
                mint: 1,
                account: 2,
                authority: 0,
                token_program: 4,
                amount: instruction_amount(data),
                decimals: mint_decimals(accounts[1].data@),
            },
            Pending::Complete,
        ),
{
}

/// A token account is burnt from, or sent from, only if it belongs to the
/// signer, holds tokens of the instruction's mint and is the signer's
/// associated account for that mint; the receiver of a transfer may be
/// anybody.
pub proof fn law_spend_only_own_account(accounts: Seq<AccountView>, data: Seq<u8>)
    ensures
        first_step(accounts, data) matches Step::Invoke(ins, _) ==> (ins is Burn || ins is Transfer)
            ==> {
            let s = accounts[1].data@;
            let mint = if ins is Burn {
                accounts[2]
            } else {
                accounts[4]
            };
            &&& token_account_unpack_error(s) is None
            &&& token_owner(s) == accounts[0].key@
            &&& token_mint(s) == mint.key@
            &&& address_check(accounts[1].key@, accounts[0].key@, mint.key@) is None
            &&& ins matches TokenInstruction::Burn { account, amount, .. } ==> account == 1
                && amount == instruction_amount(data)
            &&& ins matches TokenInstruction::Transfer { source, amount, .. } ==> source == 1
                && amount == instruction_amount(data)
        },
{
}

/// The encrypted receipt payload of `BurnWithEncryptedReceipt` changes
/// nothing: with a payload of at least 28 bytes the instruction takes the
/// same step as without one.
pub proof fn law_receipt_payload_is_inert(
    accounts: Seq<AccountView>,
    head: Seq<u8>,
    payload: Seq<u8>,
)
    requires
        head.len() == 9,
        head[0] == 2,
        payload.len() >= 28,
    ensures
        first_step(accounts, head + seq![1u8] + payload) == first_step(accounts, head + seq![0u8]),
{
    let d0 = head + seq![0u8];
    let d1 = head + seq![1u8] + payload;
    assert(d0.subrange(1, 9) =~= d1.subrange(1, 9));
    assert(d0[9] == 0);
    assert(d1[9] == 1);
    assert(d0[0] == 2 && d1[0] == 2);
}

/// An account is closed only once the invocation before has succeeded and the
/// account, read again, unpacks with a balance of zero.
pub proof fn law_close_only_when_empty(
    accounts: Seq<AccountView>,
    data: Seq<u8>,
    pending: Pending,
    outcome: Result<(), ProgramError>,
)
    ensures
        next_step(accounts, data, pending, outcome) matches Step::Invoke(
            TokenInstruction::CloseAccount { account, .. },
            p,
        ) ==> {
            &&& outcome is Ok
            &&& account == 1
            &&& p == Pending::Complete
            &&& token_account_unpack_error(accounts[1].data@) is None
            &&& token_amount(accounts[1].data@) == 0
        },
{
}

/// `BatchRewardMint` creates the ata of recipient `k` and then mints the
/// `k`-th amount of its data into it, before it goes on with recipient
/// `k + 1`.
pub proof fn law_batch_mints_each_amount(
    accounts: Seq<AccountView>,
    data: Seq<u8>,
    k: usize,
    decimals: u8,
)
    requires
        k < 256,
    ensures
        reward_pair_spec(accounts, data, k, decimals) matches Step::Invoke(create, pending) ==> {
            &&& create matches TokenInstruction::CreateAssociatedTokenAccountIdempotent {
                associated_account,
                wallet,
                ..
            } && associated_account == 7 + 2 * k && wallet == 6 + 2 * k
            &&& pending == Pending::RewardMint {
                recipient: k,
                amount: reward_amount(data, k as int),
                decimals,
            }
            &&& next_step(accounts, data, pending, Ok(())) == Step::Invoke(
                TokenInstruction::MintToChecked {
                    mint: 1,
                    account: (7 + 2 * k) as usize,
                    authority: 0,
                    token_program: 2,
                    amount: reward_amount(data, k as int),
                    decimals,
                },
                Pending::RewardNext { recipient: (k + 1) as usize, decimals },
            )
        },
{
}

/// A `BatchRewardMint` with no recipients succeeds without invoking anything,
/// once its checks pass.
pub proof fn law_batch_without_recipients(accounts: Seq<AccountView>)
    requires
        accounts.len() == 6,
        mint_authority_checks(accounts[0], accounts[1], accounts[2], false) is None,
    ensures
        first_step(accounts, seq![4u8, 0u8]) == Step::Finished(Ok(())),
{
}

/// Every instruction ends: each step that invokes again leaves fewer steps to
/// take.
pub proof fn law_instructions_end(
    accounts: Seq<AccountView>,
    data: Seq<u8>,
    pending: Pending,
    outcome: Result<(), ProgramError>,
)
    requires
        pending matches Pending::RewardMint { recipient, .. } ==> recipient < reward_count(data),
    ensures
        next_step(accounts, data, pending, outcome) matches Step::Invoke(_, p) ==> 0 <= steps_left(
            data,
            p,
        ) < steps_left(data, pending),
{
}

/// The eight little-endian bytes of `x`.
pub open spec fn le_bytes(x: u64) -> Seq<u8> {
    seq![
        (x & 0xff) as u8,
        ((x >> 8u64) & 0xff) as u8,
        ((x >> 16u64) & 0xff) as u8,
        ((x >> 24u64) & 0xff) as u8,
        ((x >> 32u64) & 0xff) as u8,
        ((x >> 40u64) & 0xff) as u8,
        ((x >> 48u64) & 0xff) as u8,
        ((x >> 56u64) & 0xff) as u8,
    ]
}

proof fn lemma_le_bytes_value(x: u64)
    ensures
        le_bytes(x).len() == 8,
        le_u64_value(le_bytes(x)) == x,
{
    let b = le_bytes(x);
    let b0 = (x & 0xff) as u8;
    let b1 = ((x >> 8u64) & 0xff) as u8;
    let b2 = ((x >> 16u64) & 0xff) as u8;
    let b3 = ((x >> 24u64) & 0xff) as u8;
    let b4 = ((x >> 32u64) & 0xff) as u8;
    let b5 = ((x >> 40u64) & 0xff) as u8;
    let b6 = ((x >> 48u64) & 0xff) as u8;
    let b7 = ((x >> 56u64) & 0xff) as u8;
    assert(b[0] == b0 && b[1] == b1 && b[2] == b2 && b[3] == b3);
    assert(b[4] == b4 && b[5] == b5 && b[6] == b6 && b[7] == b7);
    assert(x == b0 as u64 + b1 as u64 * 0x100 + b2 as u64 * 0x1_0000 + b3 as u64 * 0x100_0000
        + b4 as u64 * 0x1_0000_0000 + b5 as u64 * 0x100_0000_0000 + b6 as u64 * 0x1_0000_0000_0000
        + b7 as u64 * 0x100_0000_0000_0000) by (bit_vector)
        requires
            b0 == (x & 0xff) as u8,
            b1 == ((x >> 8u64) & 0xff) as u8,
            b2 == ((x >> 16u64) & 0xff) as u8,
            b3 == ((x >> 24u64) & 0xff) as u8,
            b4 == ((x >> 32u64) & 0xff) as u8,
            b5 == ((x >> 40u64) & 0xff) as u8,
            b6 == ((x >> 48u64) & 0xff) as u8,
            b7 == ((x >> 56u64) & 0xff) as u8,
    ;
}

proof fn lemma_le_value_fits(b: Seq<u8>)
    requires
        b.len() == 8,
    ensures
        0 <= le_u64_value(b) <= u64::MAX,
{
}

/// The amount that `MintAndInitAta` mints, and that the burning and sending
/// instructions burn or send, is the full 64-bit little-endian value of data
/// bytes 1..9.
pub proof fn law_invoked_amount_is_data_bytes(accounts: Seq<AccountView>, data: Seq<u8>)
    ensures
        first_step(accounts, data) matches Step::Invoke(ins, p) ==> {
            &&& data[0] == 0 ==> (p matches Pending::MintToNewAccount { amount, .. } && amount
                == le_u64_value(data.subrange(1, 9)))
            &&& ins matches TokenInstruction::Burn { amount, .. } ==> amount == le_u64_value(
                data.subrange(1, 9),
            )
            &&& ins matches TokenInstruction::Transfer { amount, .. } ==> amount == le_u64_value(
                data.subrange(1, 9),
            )
        },
{
    if data.len() >= 9 {
        lemma_le_value_fits(data.subrange(1, 9));
    }
}

/// `MintAndInitAta` with data `[0] ++ le_bytes(x)` mints exactly `x`, for
/// every 64-bit `x`, once the account it creates exists.
pub proof fn law_mint_and_init_mints_any_amount(
    accounts: Seq<AccountView>,
    x: u64,
    after: Seq<AccountView>,
)
    requires
        first_step(accounts, seq![0u8] + le_bytes(x)) is Invoke,
    ensures
        first_step(accounts, seq![0u8] + le_bytes(x)) matches Step::Invoke(_, p) && p
            == (Pending::MintToNewAccount { amount: x, decimals: mint_decimals(accounts[1].data@) })
            && next_step(after, seq![0u8] + le_bytes(x), p, Ok(())) == Step::Invoke(
            TokenInstruction::MintToChecked {
                mint: 1,
                account: 2,
                authority: 0,
                token_program: 4,
                amount: x,
                decimals: mint_decimals(accounts[1].data@),
            },
            Pending::Complete,
        ),
{
    let data = seq![0u8] + le_bytes(x);
    lemma_le_bytes_value(x);
    assert(data.subrange(1, 9) =~= le_bytes(x));
}

/// `BatchRewardMint` mints into the ata of recipient `k` the full 64-bit
/// little-endian value of data bytes `2 + 8k .. 10 + 8k`: the first
/// recipient from the first step, every later one after the previous mint
/// (for data whose layout the instruction accepted).
pub proof fn law_reward_amount_is_data_bytes(
    accounts: Seq<AccountView>,
    data: Seq<u8>,
    k: usize,
    decimals: u8,
)
    ensures
        reward_layout_ok(accounts, data) ==> (reward_pair_spec(accounts, data, k, decimals) matches Step::Invoke(
            _,
            Pending::RewardMint { recipient, amount, .. },
        ) ==> recipient == k && amount == le_u64_value(data.subrange(2 + 8 * k, 10 + 8 * k))),
        reward_layout_ok(accounts, data) ==> (next_step(
            accounts,
            data,
            Pending::RewardNext { recipient: k, decimals },
            Ok(()),
        ) matches Step::Invoke(_, Pending::RewardMint { recipient, amount, .. }) ==> recipient
            == k && amount == le_u64_value(data.subrange(2 + 8 * k, 10 + 8 * k))),
        data.len() > 0 && data[0] == 4 ==> (first_step(accounts, data) matches Step::Invoke(
            _,
            Pending::RewardMint { recipient, amount, .. },
        ) ==> recipient == 0 && amount == le_u64_value(data.subrange(2, 10))),
{
    if reward_layout_ok(accounts, data) && k < reward_count(data) {
        lemma_le_value_fits(data.subrange(2 + 8 * k, 10 + 8 * k));
    }
    if reward_layout_ok(accounts, data) && 0 < reward_count(data) {
        lemma_le_value_fits(data.subrange(2, 10));
    }
}

/// No instruction burns or sends from a token account that has a delegate or
/// a close authority: both option tags of the account (bytes 72 and 129) are
/// zero whenever a burn or a transfer is invoked.
pub proof fn law_no_spending_from_delegated_account(accounts: Seq<AccountView>, data: Seq<u8>)
    ensures
        first_step(accounts, data) matches Step::Invoke(ins, _) ==> (ins is Burn || ins is Transfer)
            ==> accounts[1].data@[72] == 0 && accounts[1].data@[129] == 0,
{
}

/// What the first invocation of each instruction is, and what holds of the
/// accounts and the data when it is made: the mint's authority (bytes 0..36
/// of the packed mint) is the signer for the minting instructions, accounts
/// are the associated accounts they must be, the data is long enough, and the
/// redemption address of a receipt burn is the signer.
pub proof fn law_first_invocation(accounts: Seq<AccountView>, data: Seq<u8>)
    ensures
        first_step(accounts, data) matches Step::Invoke(ins, p) ==> {
            &&& data.len() > 0 && data[0] <= 4
            &&& data[0] == 0 ==> {
                &&& accounts[1].owner@ == spl_token_program_id()
                &&& accounts[1].data@[0] == 1
                &&& accounts[1].data@.subrange(4, 36) == accounts[0].key@
                &&& associated_token_address_exists(accounts[3].key@, accounts[1].key@)
                &&& associated_token_address(accounts[3].key@, accounts[1].key@)
                    == accounts[2].key@
                &&& data.len() >= 9
                &&& p is MintToNewAccount
            }
            &&& data[0] == 1 ==> {
                &&& accounts[2].owner@ == spl_token_program_id()
                &&& data.len() >= 9
                &&& ins matches TokenInstruction::Burn { account, mint, authority, token_program, .. }
                    && account == 1 && mint == 2 && authority == 0 && token_program == 3
                &&& p == Pending::CloseDrainedAccount
            }
            &&& data[0] == 2 ==> {
                &&& accounts[2].owner@ == spl_token_program_id()
                &&& accounts[3].key@ == accounts[0].key@
                &&& data.len() >= 10
                &&& data[9] == 0 || (data[9] == 1 && data.len() >= 38)
                &&& ins matches TokenInstruction::Burn { account, mint, authority, token_program, .. }
                    && account == 1 && mint == 2 && authority == 0 && token_program == 4
                &&& p == Pending::CloseDrainedReceiptAccount
            }
            &&& data[0] == 3 ==> {
                &&& accounts[4].owner@ == spl_token_program_id()
                &&& data.len() >= 9
                &&& ins matches TokenInstruction::Transfer {
                    source,
                    destination,
                    authority,
                    token_program,
                    ..
                } && source == 1 && destination == 2 && authority == 0 && token_program == 5
                &&& p == Pending::CloseDrainedSender
            }
            &&& data[0] == 4 ==> {
                &&& accounts[1].data@[0] == 1
                &&& accounts[1].data@.subrange(4, 36) == accounts[0].key@
                &&& data.len() >= 2 && data[1] > 0
                &&& data.len() == 2 + 8 * data[1]
                &&& accounts.len() == 6 + 2 * data[1]
                &&& associated_token_address_exists(accounts[6].key@, accounts[1].key@)
                &&& associated_token_address(accounts[6].key@, accounts[1].key@) == accounts[7].key@
                &&& p matches Pending::RewardMint { decimals, .. } && decimals == accounts[1].data@[44]
            }
        },
{
}

/// Where the rent of a closed account goes: to the signer after a plain burn
/// or a transfer, to the redemption address (account 3) after a receipt
/// burn; the signer closes the account at index 1.
pub proof fn law_close_destination(
    accounts: Seq<AccountView>,
    data: Seq<u8>,
    pending: Pending,
    outcome: Result<(), ProgramError>,
)
    ensures
        next_step(accounts, data, pending, outcome) matches Step::Invoke(
            TokenInstruction::CloseAccount { account, destination, owner, token_program },
            _,
        ) ==> {
            &&& account == 1 && owner == 0
            &&& pending == Pending::CloseDrainedAccount ==> destination == 0 && token_program == 3
            &&& pending == Pending::CloseDrainedReceiptAccount ==> destination == 3 && token_program
                == 4
            &&& pending == Pending::CloseDrainedSender ==> destination == 0 && token_program == 5
            &&& pending is CloseDrainedAccount || pending is CloseDrainedReceiptAccount
                || pending is CloseDrainedSender
        },
{
}

/// The first failures: a short amount is invalid data for the burning and
/// sending instructions; then a missing signature and a wrong token program
/// are refused, before anything else is read.
pub proof fn law_first_failures(accounts: Seq<AccountView>, data: Seq<u8>)
    requires
        data.len() > 0,
        data[0] <= 4,
    ensures
        1 <= data[0] <= 3 && data.len() < 9 ==> first_step(accounts, data) == Step::Finished(
            Err(ProgramError::InvalidInstructionData),
        ),
        data[0] == 2 && data.len() < 10 ==> first_step(accounts, data) == Step::Finished(
            Err(ProgramError::InvalidInstructionData),
        ),
        (data[0] == 0 || data[0] == 4 || data.len() >= 10) && !accounts[0].is_signer
            ==> first_step(accounts, data) == Step::Finished(
            Err(ProgramError::MissingRequiredSignature),
        ),
        ({
            let tp = if data[0] == 0 {
                4int
            } else if data[0] == 1 {
                3
            } else if data[0] == 2 {
                4
            } else if data[0] == 3 {
                5
            } else {
                2
            };
            (data[0] == 0 || data[0] == 4 || data.len() >= 10) && accounts[0].is_signer
                && accounts[tp].key@ != spl_token_program_id() ==> first_step(accounts, data)
                == Step::Finished(Err(ProgramError::IncorrectProgramId))
        }),
{
}

/// `BatchRewardMint` stops after its last recipient, and refuses a count
/// that does not match the amounts or the pairs.
pub proof fn law_batch_count(accounts: Seq<AccountView>, data: Seq<u8>, k: usize, decimals: u8)
    ensures
        data.len() >= 2 && k >= data[1] ==> next_step(
            accounts,
            data,
            Pending::RewardNext { recipient: k, decimals },
            Ok(()),
        ) == Step::Finished(Ok(())),
        data.len() > 0 && data[0] == 4 && mint_authority_checks(
            accounts[0],
            accounts[1],
            accounts[2],
            false,
        ) is None && (data.len() < 2 || data.len() != 2 + 8 * data[1] || accounts.len() != 6 + 2
            * data[1]) ==> first_step(accounts, data) == Step::Finished(
            Err(ProgramError::InvalidInstructionData),
        ),
{
}

} // verus!
