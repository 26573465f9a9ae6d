use vstd::prelude::*;

use crate::account::AccountView;
use crate::bytes::{bytes_equal, to_array32};
use crate::digest::{hashv, hashv_digest, parts_view};
use crate::error::ProgramError;
use crate::merkle::{compute_merkle_root, merkle_root, nodes_view};

verus! {

// ---------------------------------------------------------------------------
// What each instruction decides
// ---------------------------------------------------------------------------

/// The Merkle root that an account stores: its first 32 data bytes.
pub open spec fn stored_root(account: AccountView) -> Seq<u8> {
    account.data@.take(32)
}

/// The checks that both writing instructions make of their two accounts
/// (state account first, then the authority), in the order they are made.
pub open spec fn authority_check(program_id: Seq<u8>, accounts: Seq<AccountView>) -> Result<
    (),
    ProgramError,
> {
    if accounts.len() < 2 {
        Err(ProgramError::NotEnoughAccountKeys)
    } else if !accounts[1].is_signer {
        Err(ProgramError::MissingRequiredSignature)
    } else if accounts[0].owner@ != program_id {
        Err(ProgramError::IncorrectProgramId)
    } else if accounts[0].data@.len() < 32 {
        Err(ProgramError::InvalidAccountData)
    } else {
        Ok(())
    }
}

/// `InitializeRoot` (`data` is what follows the tag): the root to store, or
/// why the instruction fails.
pub open spec fn initialize_root_spec(
    program_id: Seq<u8>,
    accounts: Seq<AccountView>,
    data: Seq<u8>,
) -> Result<Seq<u8>, ProgramError> {
    if data.len() != 32 {
        Err(ProgramError::InvalidInstructionData)
    } else {
        match authority_check(program_id, accounts) {
            Err(e) => Err(e),
            Ok(_) => Ok(data),
        }
    }
}

/// The number of path nodes that an `UpdateLeaf` payload announces.
pub open spec fn update_path_len(data: Seq<u8>) -> int {
    data[64] as int
}

/// The sibling nodes of an `UpdateLeaf` payload with `n` path nodes.
pub open spec fn update_path(data: Seq<u8>, n: int) -> Seq<Seq<u8>> {
    Seq::new(n as nat, |i: int| data.subrange(65 + 32 * i, 97 + 32 * i))
}

/// The directions of an `UpdateLeaf` payload with `n` path nodes.
pub open spec fn update_directions(data: Seq<u8>, n: int) -> Seq<u8> {
    data.subrange(65 + 32 * n, 65 + 33 * n)
}

/// `UpdateLeaf` (`data` is what follows the tag): the new root to store, or
/// why the instruction fails. The payload is
/// `old_leaf[32] new_leaf[32] n siblings[32 * n] directions[n]`.
pub open spec fn update_leaf_spec(
    program_id: Seq<u8>,
    accounts: Seq<AccountView>,
    data: Seq<u8>,
) -> Result<Seq<u8>, ProgramError> {
    if data.len() < 65 {
        Err(ProgramError::InvalidInstructionData)
    } else {
        match authority_check(program_id, accounts) {
            Err(e) => Err(e),
            Ok(_) => {
                let n = update_path_len(data);
                if n == 0 || n > 32 || data.len() < 65 + 33 * n {
                    Err(ProgramError::InvalidInstructionData)
                } else {
                    let path = update_path(data, n);
                    let dirs = update_directions(data, n);
                    if merkle_root(data.subrange(0, 32), path, dirs) != stored_root(accounts[0]) {
                        Err(ProgramError::InvalidAccountData)
                    } else {
                        Ok(merkle_root(data.subrange(32, 64), path, dirs))
                    }
                }
            },
        }
    }
}

/// `VerifyZkProof` (`data` is what follows the tag): succeeds exactly when
/// the digest of the stored root, the public inputs and the proof equals the
/// commitment that the verifier account stores. The payload is
/// `m public[m] k proof[k]`.
pub open spec fn verify_zk_proof_spec(
    program_id: Seq<u8>,
    accounts: Seq<AccountView>,
    data: Seq<u8>,
) -> Result<(), ProgramError> {
    if data.len() < 2 {
        Err(ProgramError::InvalidInstructionData)
    } else if accounts.len() < 2 {
        Err(ProgramError::NotEnoughAccountKeys)
    } else if accounts[0].owner@ != program_id || accounts[1].owner@ != program_id {
        Err(ProgramError::IncorrectProgramId)
    } else if accounts[0].data@.len() < 32 || accounts[1].data@.len() < 32 {
        Err(ProgramError::InvalidAccountData)
    } else {
        let public_end = 1 + data[0];
        if public_end >= data.len() {
            Err(ProgramError::InvalidInstructionData)
        } else {
            let proof_end = public_end + 1 + data[public_end];
            if proof_end > data.len() {
                Err(ProgramError::InvalidInstructionData)
            } else {
                let digest = hashv_digest(
                    seq![
                        stored_root(accounts[0]),
                        data.subrange(1, public_end),
                        data.subrange(public_end + 1, proof_end),
                    ],
                )@;
                if digest != stored_root(accounts[1]) {
                    Err(ProgramError::InvalidInstructionData)
                } else {
                    Ok(())
                }
            }
        }
    }
}

/// A whole instruction: how it ends, and the root it writes into the state
/// account, if any.
pub open spec fn merkle_instruction(
    program_id: Seq<u8>,
    accounts: Seq<AccountView>,
    data: Seq<u8>,
) -> (Result<(), ProgramError>, Option<Seq<u8>>) {
    if data.len() == 0 {
        (Err(ProgramError::InvalidInstructionData), None)
    } else {
        let rest = data.skip(1);
        if data[0] == 0 || data[0] == 1 {
            let r = if data[0] == 0 {
                initialize_root_spec(program_id, accounts, rest)
            } else {
                update_leaf_spec(program_id, accounts, rest)
            };
            match r {
                Ok(root) => (Ok(()), Some(root)),
                Err(e) => (Err(e), None),
            }
        } else if data[0] == 2 {
            (verify_zk_proof_spec(program_id, accounts, rest), None)
        } else {
            (Err(ProgramError::InvalidInstructionData), None)
        }
    }
}

/// `after` is `before` with `root` written over the first 32 data bytes of
/// the state account, when there is a root to write.
pub open spec fn accounts_after(
    before: Seq<AccountView>,
    after: Seq<AccountView>,
    root: Option<Seq<u8>>,
) -> bool {
    &&& after.len() == before.len()
    &&& forall|i: int| 1 <= i < before.len() ==> #[trigger] after[i] == before[i]
    &&& before.len() > 0 ==> {
        &&& after[0].key == before[0].key
        &&& after[0].owner == before[0].owner
        &&& after[0].is_signer == before[0].is_signer
        &&& after[0].data@ == match root {
            Some(r) => r + before[0].data@.skip(32),
            None => before[0].data@,
        }
    }
    &&& root is None ==> after == before
}

/// The root handed back by an instruction is the one the specification gives.
pub open spec fn root_result_is(
    r: Result<[u8; 32], ProgramError>,
    s: Result<Seq<u8>, ProgramError>,
) -> bool {
    match (r, s) {
        (Ok(a), Ok(b)) => a@ == b,
        (Err(e1), Err(e2)) => e1 == e2,
        _ => false,
    }
}

// ---------------------------------------------------------------------------
// The instructions
// ---------------------------------------------------------------------------

fn check_authority(program_id: &[u8; 32], accounts: &[AccountView]) -> (r: Result<
    (),
    ProgramError,
>)
    ensures
        r == authority_check(program_id@, accounts@),
{
    if accounts.len() < 2 {
        return Err(ProgramError::NotEnoughAccountKeys);
    }
    let state_account = &accounts[0];
    let authority = &accounts[1];
    if !authority.is_signer {
        return Err(ProgramError::MissingRequiredSignature);
    }
    if !bytes_equal(state_account.owner.as_slice(), program_id.as_slice()) {
        return Err(ProgramError::IncorrectProgramId);
    }
    if state_account.data.len() < 32 {
        return Err(ProgramError::InvalidAccountData);
    }
    Ok(())
}

/// Checks an `InitializeRoot` payload and its accounts, and returns the root
/// to store.
pub fn initialize_root(program_id: &[u8; 32], accounts: &[AccountView], data: &[u8]) -> (r: Result<
    [u8; 32],
    ProgramError,
>)
    ensures
        root_result_is(r, initialize_root_spec(program_id@, accounts@, data@)),
{
    if data.len() != 32 {
        return Err(ProgramError::InvalidInstructionData);
    }
    match check_authority(program_id, accounts) {
        Err(e) => Err(e),
        Ok(_) => Ok(to_array32(data)),
    }
}

/// Checks an `UpdateLeaf` payload against the stored root, and returns the
/// root with the new leaf in place of the old one.
pub fn update_leaf(program_id: &[u8; 32], accounts: &[AccountView], data: &[u8]) -> (r: Result<
    [u8; 32],
    ProgramError,
>)
    ensures
        root_result_is(r, update_leaf_spec(program_id@, accounts@, data@)),
{
    if data.len() < 65 {
        return Err(ProgramError::InvalidInstructionData);
    }
    match check_authority(program_id, accounts) {
        Err(e) => {
            return Err(e);
        },
        Ok(_) => {},
    }
    let state_account = &accounts[0];
    let old_leaf = to_array32(&data[0..32]);
    let new_leaf = to_array32(&data[32..64]);
    let path_len = data[64] as usize;
    if path_len == 0 || path_len > 32 {
        return Err(ProgramError::InvalidInstructionData);
    }
    let nodes_end = 65 + path_len * 32;
    if data.len() < nodes_end + path_len {
        return Err(ProgramError::InvalidInstructionData);
    }
    let ghost n = path_len as int;
    let mut path_nodes: Vec<[u8; 32]> = Vec::new();
    let mut i: usize = 0;
    while i < path_len
        invariant
            path_len == n,
            1 <= n <= 32,
            data@.len() >= 65 + 33 * n,
            i <= path_len,
            nodes_view(path_nodes@) =~= update_path(data@, n).take(i as int),
        decreases path_len - i,
    {
        let start = 65 + i * 32;
        let node = to_array32(&data[start..start + 32]);
        let ghost before = path_nodes@;
        path_nodes.push(node);
        assert(node@ == update_path(data@, n)[i as int]);
        assert(nodes_view(path_nodes@) =~= nodes_view(before).push(node@));
        assert(update_path(data@, n).take(i + 1) =~= update_path(data@, n).take(i as int).push(
            node@,
        ));
        i = i + 1;
    }
    assert(update_path(data@, n).take(n) =~= update_path(data@, n));
    let directions = &data[nodes_end..nodes_end + path_len];
    let stored = to_array32(&state_account.data.as_slice()[0..32]);
    let current_root = compute_merkle_root(&old_leaf, path_nodes.as_slice(), directions);
    if !bytes_equal(current_root.as_slice(), stored.as_slice()) {
        return Err(ProgramError::InvalidAccountData);
    }
    let updated_root = compute_merkle_root(&new_leaf, path_nodes.as_slice(), directions);
    Ok(updated_root)
}

/// Checks that the digest of the stored root, the public inputs and the proof
/// equals the commitment held by the verifier account.
pub fn verify_zk_proof(program_id: &[u8; 32], accounts: &[AccountView], data: &[u8]) -> (r: Result<
    (),
    ProgramError,
>)
    ensures
        r == verify_zk_proof_spec(program_id@, accounts@, data@),
{
    if data.len() < 2 {
        return Err(ProgramError::InvalidInstructionData);
    }
    if accounts.len() < 2 {
        return Err(ProgramError::NotEnoughAccountKeys);
    }
    let root_account = &accounts[0];
    let verifier_account = &accounts[1];
    if !bytes_equal(root_account.owner.as_slice(), program_id.as_slice()) || !bytes_equal(
        verifier_account.owner.as_slice(),
        program_id.as_slice(),
    ) {
        return Err(ProgramError::IncorrectProgramId);
    }
    if root_account.data.len() < 32 || verifier_account.data.len() < 32 {
        return Err(ProgramError::InvalidAccountData);
    }
    let public_len = data[0] as usize;
    let public_end = 1 + public_len;
    if public_end > data.len() {
        return Err(ProgramError::InvalidInstructionData);
    }
    let public_inputs = &data[1..public_end];
    if public_end >= data.len() {
        return Err(ProgramError::InvalidInstructionData);
    }
    let proof_len = data[public_end] as usize;
    let proof_end = public_end + 1 + proof_len;
    if proof_end > data.len() {
        return Err(ProgramError::InvalidInstructionData);
    }
    let proof_blob = &data[public_end + 1..proof_end];
    let stored = &root_account.data.as_slice()[0..32];
    let parts: Vec<&[u8]> = vec![stored, public_inputs, proof_blob];
    let digest = hashv(parts.as_slice());
    assert(parts_view(parts@) =~= seq![
        stored_root(accounts@[0]),
        data@.subrange(1, public_end as int),
        data@.subrange(public_end + 1, proof_end as int),
    ]);
    let commitment = &verifier_account.data.as_slice()[0..32];
    if !bytes_equal(digest.as_slice(), commitment) {
        return Err(ProgramError::InvalidInstructionData);
    }
    Ok(())
}

/// Writes `root` over the first 32 data bytes of the state account.
fn store_root(accounts: &mut Vec<AccountView>, root: &[u8; 32])
    requires
        old(accounts)@.len() > 0,
        old(accounts)@[0].data@.len() >= 32,
    ensures
        accounts_after(old(accounts)@, final(accounts)@, Some(root@)),
{
    let mut state_account = accounts.remove(0);
    let ghost before = state_account.data@;
    let ghost original = state_account;
    let mut i: usize = 0;
    while i < 32
        invariant
            i <= 32,
            original == old(accounts)@[0],
            state_account.key == original.key,
            state_account.owner == original.owner,
            state_account.is_signer == original.is_signer,
            state_account.data@.len() == before.len(),
            before.len() >= 32,
            forall|j: int| 0 <= j < i ==> state_account.data@[j] == root@[j],
            forall|j: int| i <= j < before.len() ==> state_account.data@[j] == before[j],
        decreases 32 - i,
    {
        state_account.data[i] = root[i];
        i = i + 1;
    }
    assert(state_account.data@ =~= root@ + before.skip(32));
    accounts.insert(0, state_account);
    assert(forall|i: int| 1 <= i < old(accounts)@.len() ==> #[trigger] accounts@[i] == old(accounts)@[i]);
}

/// Runs one instruction of the Merkle-root program: tag 0 initializes the
/// stored root, tag 1 replaces a leaf, tag 2 checks a proof commitment. The
/// state account's root is the only thing written, and only on success.
pub fn process(program_id: &[u8; 32], accounts: &mut Vec<AccountView>, data: &[u8]) -> (r: Result<
    (),
    ProgramError,
>)
    ensures
        r == merkle_instruction(program_id@, old(accounts)@, data@).0,
        accounts_after(
            old(accounts)@,
            final(accounts)@,
            merkle_instruction(program_id@, old(accounts)@, data@).1,
        ),
{
    if data.len() == 0 {
        return Err(ProgramError::InvalidInstructionData);
    }
    let tag = data[0];
    let rest = &data[1..data.len()];
    assert(rest@ =~= data@.skip(1));
    if tag == 0 || tag == 1 {
        let written = if tag == 0 {
            initialize_root(program_id, accounts.as_slice(), rest)
        } else {
            update_leaf(program_id, accounts.as_slice(), rest)
        };
        match written {
            Ok(root) => {
                store_root(accounts, &root);
                Ok(())
            },
            Err(e) => Err(e),
        }
    } else if tag == 2 {
        verify_zk_proof(program_id, accounts.as_slice(), rest)
    } else {
        Err(ProgramError::InvalidInstructionData)
    }
}

} // verus!
