use secret_dao::account::AccountView;
use secret_dao::error::ProgramError;
use secret_dao::merkle::{compute_merkle_root, hash_pair};
use secret_dao::merkle_program::{initialize_root, process, update_leaf, verify_zk_proof};
use solana_program::hash::hashv;

const PROGRAM: [u8; 32] = [7u8; 32];

fn sha(parts: &[&[u8]]) -> [u8; 32] {
    hashv(parts).to_bytes()
}

fn account(key: u8, owner: [u8; 32], is_signer: bool, data: Vec<u8>) -> AccountView {
    AccountView { key: [key; 32], owner, is_signer, data }
}

fn merkle_accounts(state_data: Vec<u8>) -> Vec<AccountView> {
    vec![account(1, PROGRAM, false, state_data), account(2, [0u8; 32], true, vec![])]
}

fn update_data(old_leaf: [u8; 32], new_leaf: [u8; 32], path: &[[u8; 32]], dirs: &[u8]) -> Vec<u8> {
    let mut d = vec![1u8];
    d.extend_from_slice(&old_leaf);
    d.extend_from_slice(&new_leaf);
    d.push(path.len() as u8);
    for node in path {
        d.extend_from_slice(node);
    }
    d.extend_from_slice(dirs);
    d
}

#[test]
fn hash_pair_is_sha256_of_left_then_right() {
    let l = [1u8; 32];
    let r = [2u8; 32];
    assert_eq!(hash_pair(&l, &r), sha(&[&l, &r]));
    assert_ne!(hash_pair(&l, &r), hash_pair(&r, &l));
}

#[test]
fn merkle_root_of_empty_path_is_leaf() {
    let leaf = [9u8; 32];
    assert_eq!(compute_merkle_root(&leaf, &[], &[]), leaf);
}

#[test]
fn merkle_root_follows_directions() {
    let leaf = [3u8; 32];
    let a = [4u8; 32];
    let b = [5u8; 32];
    let step1 = sha(&[&leaf, &a]);
    let expected = sha(&[&b, &step1]);
    assert_eq!(compute_merkle_root(&leaf, &[a, b], &[0, 1]), expected);
    // any non-zero direction puts the running node on the right
    assert_eq!(compute_merkle_root(&leaf, &[a, b], &[0, 200]), expected);
    // extra directions are ignored
    assert_eq!(compute_merkle_root(&leaf, &[a, b], &[0, 1, 0, 0]), expected);
}

#[test]
fn empty_and_unknown_instructions_are_invalid() {
    let mut accts = merkle_accounts(vec![0u8; 40]);
    assert_eq!(process(&PROGRAM, &mut accts, &[]), Err(ProgramError::InvalidInstructionData));
    assert_eq!(process(&PROGRAM, &mut accts, &[3, 1, 2]), Err(ProgramError::InvalidInstructionData));
    assert_eq!(accts[0].data, vec![0u8; 40]);
}

#[test]
fn initialize_root_stores_the_root_only() {
    let mut state = vec![0xAAu8; 40];
    state[35] = 0x11;
    let mut accts = merkle_accounts(state);
    let mut data = vec![0u8];
    data.extend_from_slice(&[0x42u8; 32]);
    assert_eq!(process(&PROGRAM, &mut accts, &data), Ok(()));
    assert_eq!(&accts[0].data[..32], &[0x42u8; 32]);
    assert_eq!(&accts[0].data[32..], &[0xAA, 0xAA, 0xAA, 0x11, 0xAA, 0xAA, 0xAA, 0xAA]);
    assert_eq!(accts[0].key, [1u8; 32]);
    assert_eq!(accts.len(), 2);
}

#[test]
fn initialize_root_errors() {
    let root = [0x42u8; 32];
    let accts = merkle_accounts(vec![0u8; 32]);
    assert_eq!(initialize_root(&PROGRAM, &accts, &root[..31]), Err(ProgramError::InvalidInstructionData));
    assert_eq!(initialize_root(&PROGRAM, &accts[..1], &root), Err(ProgramError::NotEnoughAccountKeys));
    assert_eq!(initialize_root(&PROGRAM, &[], &root), Err(ProgramError::NotEnoughAccountKeys));
    let mut unsigned = merkle_accounts(vec![0u8; 32]);
    unsigned[1].is_signer = false;
    assert_eq!(initialize_root(&PROGRAM, &unsigned, &root), Err(ProgramError::MissingRequiredSignature));
    let mut foreign = merkle_accounts(vec![0u8; 32]);
    foreign[0].owner = [8u8; 32];
    assert_eq!(initialize_root(&PROGRAM, &foreign, &root), Err(ProgramError::IncorrectProgramId));
    let small = merkle_accounts(vec![0u8; 31]);
    assert_eq!(initialize_root(&PROGRAM, &small, &root), Err(ProgramError::InvalidAccountData));
    assert_eq!(initialize_root(&PROGRAM, &accts, &root), Ok(root));
}

#[test]
fn update_leaf_replaces_the_root() {
    let old_leaf = [1u8; 32];
    let new_leaf = [2u8; 32];
    let path = [[10u8; 32], [11u8; 32]];
    let dirs = [1u8, 0u8];
    let old_root = compute_merkle_root(&old_leaf, &path, &dirs);
    let mut state = old_root.to_vec();
    state.extend_from_slice(&[5u8; 4]);
    let mut accts = merkle_accounts(state);
    let data = update_data(old_leaf, new_leaf, &path, &dirs);
    assert_eq!(process(&PROGRAM, &mut accts, &data), Ok(()));
    let new_root = compute_merkle_root(&new_leaf, &path, &dirs);
    assert_eq!(&accts[0].data[..32], &new_root);
    assert_eq!(&accts[0].data[32..], &[5u8; 4]);
    // the leaf just written can be replaced in turn over the same path
    let data2 = update_data(new_leaf, [3u8; 32], &path, &dirs);
    assert_eq!(process(&PROGRAM, &mut accts, &data2), Ok(()));
    assert_eq!(&accts[0].data[..32], &compute_merkle_root(&[3u8; 32], &path, &dirs));
}

#[test]
fn update_leaf_rejects_a_wrong_proof() {
    let path = [[10u8; 32]];
    let mut accts = merkle_accounts(vec![0u8; 32]);
    let data = update_data([1u8; 32], [2u8; 32], &path, &[0]);
    assert_eq!(process(&PROGRAM, &mut accts, &data), Err(ProgramError::InvalidAccountData));
    assert_eq!(accts[0].data, vec![0u8; 32]);
}

#[test]
fn update_leaf_payload_errors() {
    let accts = merkle_accounts(vec![0u8; 32]);
    let short = vec![0u8; 64];
    assert_eq!(update_leaf(&PROGRAM, &accts, &short), Err(ProgramError::InvalidInstructionData));
    let mut zero_path = vec![0u8; 65];
    zero_path[64] = 0;
    assert_eq!(update_leaf(&PROGRAM, &accts, &zero_path), Err(ProgramError::InvalidInstructionData));
    let mut long_path = vec![0u8; 65 + 33 * 33];
    long_path[64] = 33;
    assert_eq!(update_leaf(&PROGRAM, &accts, &long_path), Err(ProgramError::InvalidInstructionData));
    let mut truncated = vec![0u8; 65 + 32];
    truncated[64] = 1;
    assert_eq!(update_leaf(&PROGRAM, &accts, &truncated), Err(ProgramError::InvalidInstructionData));
    // account checks come before the path checks
    assert_eq!(update_leaf(&PROGRAM, &accts[..1], &zero_path), Err(ProgramError::NotEnoughAccountKeys));
}

#[test]
fn update_same_leaf_keeps_root() {
    let leaf = [6u8; 32];
    let path = [[7u8; 32]];
    let root = compute_merkle_root(&leaf, &path, &[0]);
    let accts = merkle_accounts(root.to_vec());
    let data = update_data(leaf, leaf, &path, &[0]);
    assert_eq!(update_leaf(&PROGRAM, &accts, &data[1..]), Ok(root));
}

fn zk_data(public: &[u8], proof: &[u8]) -> Vec<u8> {
    let mut d = vec![2u8, public.len() as u8];
    d.extend_from_slice(public);
    d.push(proof.len() as u8);
    d.extend_from_slice(proof);
    d
}

#[test]
fn verify_zk_proof_against_commitment() {
    let root = [0x33u8; 32];
    let public = [1u8, 2, 3];
    let proof = [9u8, 8];
    let commitment = sha(&[&root, &public, &proof]);
    let mut accts = vec![
        account(1, PROGRAM, false, root.to_vec()),
        account(2, PROGRAM, false, commitment.to_vec()),
    ];
    assert_eq!(process(&PROGRAM, &mut accts, &zk_data(&public, &proof)), Ok(()));
    assert_eq!(accts[0].data, root.to_vec());
    assert_eq!(
        process(&PROGRAM, &mut accts, &zk_data(&public, &[9u8, 7])),
        Err(ProgramError::InvalidInstructionData)
    );
}

#[test]
fn verify_zk_proof_errors() {
    let good = vec![account(1, PROGRAM, false, vec![0u8; 32]), account(2, PROGRAM, false, vec![0u8; 32])];
    assert_eq!(verify_zk_proof(&PROGRAM, &good, &[0]), Err(ProgramError::InvalidInstructionData));
    assert_eq!(verify_zk_proof(&PROGRAM, &good[..1], &[0, 0]), Err(ProgramError::NotEnoughAccountKeys));
    let foreign = vec![account(1, PROGRAM, false, vec![0u8; 32]), account(2, [1u8; 32], false, vec![0u8; 32])];
    assert_eq!(verify_zk_proof(&PROGRAM, &foreign, &[0, 0]), Err(ProgramError::IncorrectProgramId));
    let small = vec![account(1, PROGRAM, false, vec![0u8; 32]), account(2, PROGRAM, false, vec![0u8; 3])];
    assert_eq!(verify_zk_proof(&PROGRAM, &small, &[0, 0]), Err(ProgramError::InvalidAccountData));
    // public inputs longer than the data
    assert_eq!(verify_zk_proof(&PROGRAM, &good, &[5, 1]), Err(ProgramError::InvalidInstructionData));
    // no byte left for the proof length
    assert_eq!(verify_zk_proof(&PROGRAM, &good, &[1, 1]), Err(ProgramError::InvalidInstructionData));
    // proof longer than the data
    assert_eq!(verify_zk_proof(&PROGRAM, &good, &[0, 4, 1]), Err(ProgramError::InvalidInstructionData));
    // empty inputs and proof, commitment not matching
    assert_eq!(verify_zk_proof(&PROGRAM, &good, &[0, 0]), Err(ProgramError::InvalidInstructionData));
}

#[test]
fn initialize_then_update_succeeds() {
    let leaf = [12u8; 32];
    let path = [[13u8; 32], [14u8; 32], [15u8; 32]];
    let dirs = [0u8, 0, 1];
    let mut accts = merkle_accounts(vec![0u8; 32]);
    let mut init = vec![0u8];
    init.extend_from_slice(&compute_merkle_root(&leaf, &path, &dirs));
    assert_eq!(process(&PROGRAM, &mut accts, &init), Ok(()));
    let data = update_data(leaf, [16u8; 32], &path, &dirs);
    assert_eq!(process(&PROGRAM, &mut accts, &data), Ok(()));
    assert_eq!(&accts[0].data[..], &compute_merkle_root(&[16u8; 32], &path, &dirs));
}

#[test]
fn initialize_twice_and_undo_and_compose() {
    let mut accts = merkle_accounts(vec![9u8; 36]);
    let mut init = vec![0u8];
    let leaf = [1u8; 32];
    let path = [[2u8; 32]];
    let dirs = [1u8];
    init.extend_from_slice(&compute_merkle_root(&leaf, &path, &dirs));
    assert_eq!(process(&PROGRAM, &mut accts, &init), Ok(()));
    let once = accts[0].data.clone();
    assert_eq!(process(&PROGRAM, &mut accts, &init), Ok(()));
    assert_eq!(accts[0].data, once);
    // x -> y then y -> x restores the root
    assert_eq!(process(&PROGRAM, &mut accts, &update_data(leaf, [3u8; 32], &path, &dirs)), Ok(()));
    assert_eq!(process(&PROGRAM, &mut accts, &update_data([3u8; 32], leaf, &path, &dirs)), Ok(()));
    assert_eq!(accts[0].data, once);
    // x -> y -> z ends where x -> z ends
    let mut single = merkle_accounts(once.clone());
    assert_eq!(process(&PROGRAM, &mut single, &update_data(leaf, [5u8; 32], &path, &dirs)), Ok(()));
    assert_eq!(process(&PROGRAM, &mut accts, &update_data(leaf, [4u8; 32], &path, &dirs)), Ok(()));
    assert_eq!(process(&PROGRAM, &mut accts, &update_data([4u8; 32], [5u8; 32], &path, &dirs)), Ok(()));
    assert_eq!(accts[0].data, single[0].data);
}
