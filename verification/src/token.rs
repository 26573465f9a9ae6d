use vstd::prelude::*;

use solana_program::pubkey::Pubkey;
use spl_token::solana_program::program_pack::Pack;

use crate::bytes::le_u64_value;
use crate::error::ProgramError;

verus! {

// ---------------------------------------------------------------------------
// The SPL token program's address
// ---------------------------------------------------------------------------

/// The address of the SPL token program,
/// `TokenkegQfeZyiNwAJbNbGKPFXCWuBvf9Ss623VQ5DA`, as bytes.
pub open spec fn spl_token_program_id() -> Seq<u8> {
    seq![
        6u8, 221, 246, 225, 215, 101, 161, 147, 217, 203, 225, 70, 206, 235, 121, 172,
        28, 180, 133, 237, 95, 91, 55, 145, 58, 140, 245, 133, 126, 255, 0, 169,
    ]
}

/// Calls `spl_token::id`. Claimed: it returns the address declared in that
/// crate, `TokenkegQfeZyiNwAJbNbGKPFXCWuBvf9Ss623VQ5DA`, whose bytes are
/// `spl_token_program_id`.
#[verifier::external_body]
pub(crate) fn token_program_id() -> (id: [u8; 32])
    ensures
        id@ == spl_token_program_id(),
{
    spl_token::id().to_bytes()
}

// ---------------------------------------------------------------------------
// Associated token account addresses
// ---------------------------------------------------------------------------

/// The program-derived address that `Pubkey::try_find_program_address`
/// finds for the seeds `[wallet, spl_token::id(), mint]` under the associated
/// token account program, when it finds one: the associated token account of
/// `wallet` for `mint`.
pub uninterp spec fn associated_token_address(wallet: Seq<u8>, mint: Seq<u8>) -> Seq<u8>;

/// Whether `Pubkey::try_find_program_address` finds a bump seed for the seeds
/// `[wallet, spl_token::id(), mint]` under the associated token account
/// program.
pub uninterp spec fn associated_token_address_exists(wallet: Seq<u8>, mint: Seq<u8>) -> bool;

/// Calls `Pubkey::try_find_program_address` with the seeds that
/// `spl_associated_token_account::get_associated_token_address` uses
/// (`[wallet, spl_token::id(), mint]`, under `spl_associated_token_account::id()`).
/// Claimed: it returns an address exactly when a bump seed exists
/// (`associated_token_address_exists`), and that address is
/// `associated_token_address`; both are functions of the two keys alone.
#[verifier::external_body]
pub(crate) fn try_associated_token_address(wallet: &[u8; 32], mint: &[u8; 32]) -> (address:
    Option<[u8; 32]>)
    ensures
        address is Some <==> associated_token_address_exists(wallet@, mint@),
        address matches Some(a) ==> a@ == associated_token_address(wallet@, mint@),
{
    let token_program = spl_token::id().to_bytes();
    let seeds: [&[u8]; 3] = [&wallet[..], &token_program[..], &mint[..]];
    let program = spl_associated_token_account::id();
    Pubkey::try_find_program_address(&seeds, &program).map(|found: (Pubkey, u8)| found.0.to_bytes())
}

// ---------------------------------------------------------------------------
// Packed token state
// ---------------------------------------------------------------------------

/// Whether the four bytes at `at` are the tag of an optional value: 0 for
/// none, 1 for some, little-endian.
pub open spec fn option_tag_valid(s: Seq<u8>, at: int) -> bool {
    &&& (s[at] == 0 || s[at] == 1)
    &&& s[at + 1] == 0
    &&& s[at + 2] == 0
    &&& s[at + 3] == 0
}

/// `key` is the optional 32-byte key packed at `at` (a valid tag, then the key).
pub open spec fn packed_key_is(key: Option<[u8; 32]>, s: Seq<u8>, at: int) -> bool {
    if s[at] == 0 {
        key is None
    } else {
        key matches Some(k) && k@ == s.subrange(at + 4, at + 36)
    }
}

/// The length of a packed mint.
pub open spec fn mint_len() -> int {
    82
}

/// The length of a packed token account.
pub open spec fn token_account_len() -> int {
    165
}

/// Why packed mint bytes do not unpack, if they do not.
pub open spec fn mint_unpack_error(s: Seq<u8>) -> Option<ProgramError> {
    if s.len() != mint_len() {
        Some(ProgramError::InvalidAccountData)
    } else if !option_tag_valid(s, 0) || s[45] > 1 || !option_tag_valid(s, 46) {
        Some(ProgramError::InvalidAccountData)
    } else if s[45] == 0 {
        Some(ProgramError::UninitializedAccount)
    } else {
        None
    }
}

/// Why packed token-account bytes do not unpack, if they do not.
pub open spec fn token_account_unpack_error(s: Seq<u8>) -> Option<ProgramError> {
    if s.len() != token_account_len() {
        Some(ProgramError::InvalidAccountData)
    } else if !option_tag_valid(s, 72) || s[108] > 2 || !option_tag_valid(s, 109)
        || !option_tag_valid(s, 129) {
        Some(ProgramError::InvalidAccountData)
    } else if s[108] == 0 {
        Some(ProgramError::UninitializedAccount)
    } else {
        None
    }
}

/// Whether a packed mint names `key` as its mint authority.
pub open spec fn mint_authority_is(s: Seq<u8>, key: Seq<u8>) -> bool {
    s[0] == 1 && s.subrange(4, 36) == key
}

/// The decimals of a packed mint.
pub open spec fn mint_decimals(s: Seq<u8>) -> u8 {
    s[44]
}

/// The mint of a packed token account.
pub open spec fn token_mint(s: Seq<u8>) -> Seq<u8> {
    s.subrange(0, 32)
}

/// The owner of a packed token account.
pub open spec fn token_owner(s: Seq<u8>) -> Seq<u8> {
    s.subrange(32, 64)
}

/// The balance of a packed token account.
pub open spec fn token_amount(s: Seq<u8>) -> int {
    le_u64_value(s.subrange(64, 72))
}

/// Whether a packed token account has a delegate.
pub open spec fn token_has_delegate(s: Seq<u8>) -> bool {
    s[72] != 0
}

/// Whether a packed token account has a close authority.
pub open spec fn token_has_close_authority(s: Seq<u8>) -> bool {
    s[129] != 0
}

/// What the logic reads of a mint.
pub struct MintState {
    pub mint_authority: Option<[u8; 32]>,
    pub decimals: u8,
}

/// What the logic reads of a token account.
pub struct TokenAccountState {
    pub mint: [u8; 32],
    pub owner: [u8; 32],
    pub amount: u64,
    pub delegate: Option<[u8; 32]>,
    pub close_authority: Option<[u8; 32]>,
}

/// Calls `spl_token::state::Mint::unpack` (of `Pack`). Claimed, as its source
/// shows: bytes of another length than 82 are `InvalidAccountData`; so is a
/// malformed option tag of either authority (bytes 0..4, 46..50) or an
/// `is_initialized` byte (45) above 1; an `is_initialized` of 0 is
/// `UninitializedAccount`; otherwise the mint authority is the key packed at
/// 0..36 and the decimals are byte 44. No other error comes from it.
#[verifier::external_body]
pub(crate) fn unpack_mint(data: &[u8]) -> (r: Result<MintState, ProgramError>)
    ensures
        match mint_unpack_error(data@) {
            Some(e) => r == Err::<MintState, ProgramError>(e),
            None => r matches Ok(m) && packed_key_is(m.mint_authority, data@, 0) && m.decimals
                == mint_decimals(data@),
        },
{
    match spl_token::state::Mint::unpack(data) {
        Ok(m) => Ok(MintState {
            mint_authority: Option::from(m.mint_authority).map(|k: Pubkey| k.to_bytes()),
            decimals: m.decimals,
        }),
        Err(solana_program::program_error::ProgramError::UninitializedAccount) => Err(
            ProgramError::UninitializedAccount,
        ),
        Err(_) => Err(ProgramError::InvalidAccountData),
    }
}

/// Calls `spl_token::state::Account::unpack` (of `Pack`). Claimed, as its
/// source shows: bytes of another length than 165 are `InvalidAccountData`;
/// so is a malformed option tag (delegate at 72, native amount at 109, close
/// authority at 129) or a state byte (108) above 2; a state of 0 is
/// `UninitializedAccount`; otherwise mint, owner and balance are bytes 0..32,
/// 32..64 and the little-endian 64..72, and the delegate and the close
/// authority are the keys packed at 72 and 129. No other error comes from it.
#[verifier::external_body]
pub(crate) fn unpack_token_account(data: &[u8]) -> (r: Result<TokenAccountState, ProgramError>)
    ensures
        match token_account_unpack_error(data@) {
            Some(e) => r == Err::<TokenAccountState, ProgramError>(e),
            None => r matches Ok(a) && a.mint@ == token_mint(data@) && a.owner@ == token_owner(
                data@,
            ) && a.amount == token_amount(data@) && packed_key_is(a.delegate, data@, 72)
                && packed_key_is(a.close_authority, data@, 129),
        },
{
    match spl_token::state::Account::unpack(data) {
        Ok(a) => Ok(TokenAccountState {
            mint: a.mint.to_bytes(),
            owner: a.owner.to_bytes(),
            amount: a.amount,
            delegate: Option::from(a.delegate).map(|k: Pubkey| k.to_bytes()),
            close_authority: Option::from(a.close_authority).map(|k: Pubkey| k.to_bytes()),
        }),
        Err(solana_program::program_error::ProgramError::UninitializedAccount) => Err(
            ProgramError::UninitializedAccount,
        ),
        Err(_) => Err(ProgramError::InvalidAccountData),
    }
}

} // verus!
