use vstd::prelude::*;

use crate::account::AccountView;
use crate::digest::hashv_digest;
use crate::error::ProgramError;
use crate::merkle::merkle_root;
use crate::merkle_program::{
    accounts_after, merkle_instruction, stored_root, update_directions, update_path,
    update_path_len,
};

verus! {

/// Instruction data of `UpdateLeaf`: tag 1, the old leaf, the new leaf, then
/// `tail` (the path length, the siblings, the directions).
pub open spec fn update_leaf_data(old_leaf: Seq<u8>, new_leaf: Seq<u8>, tail: Seq<u8>) -> Seq<u8> {
    seq![1u8] + old_leaf + new_leaf + tail
}

/// Instruction data of `InitializeRoot`: tag 0, then the root.
pub open spec fn initialize_root_data(root: Seq<u8>) -> Seq<u8> {
    seq![0u8] + root
}

/// The siblings that `tail` of an `UpdateLeaf` payload lists.
pub open spec fn tail_path(tail: Seq<u8>) -> Seq<Seq<u8>> {
    let p = Seq::<u8>::new(64, |i: int| 0u8) + tail;
    update_path(p, update_path_len(p))
}

/// The directions that `tail` of an `UpdateLeaf` payload lists.
pub open spec fn tail_directions(tail: Seq<u8>) -> Seq<u8> {
    let p = Seq::<u8>::new(64, |i: int| 0u8) + tail;
    update_directions(p, update_path_len(p))
}

proof fn lemma_payload_parts(old_leaf: Seq<u8>, new_leaf: Seq<u8>, tail: Seq<u8>)
    requires
        old_leaf.len() == 32,
        new_leaf.len() == 32,
        tail.len() >= 1,
        tail.len() >= 1 + 33 * tail[0],
    ensures
        ({
            let p = old_leaf + new_leaf + tail;
            &&& update_leaf_data(old_leaf, new_leaf, tail).skip(1) == p
            &&& p.len() == 64 + tail.len()
            &&& update_path_len(p) == tail[0]
            &&& update_path(p, update_path_len(p)) == tail_path(tail)
            &&& update_directions(p, update_path_len(p)) == tail_directions(tail)
            &&& p.subrange(0, 32) == old_leaf
            &&& p.subrange(32, 64) == new_leaf
        }),
{
    let p = old_leaf + new_leaf + tail;
    let q = Seq::<u8>::new(64, |i: int| 0u8) + tail;
    let n = tail[0] as int;
    assert(update_leaf_data(old_leaf, new_leaf, tail).skip(1) =~= p);
    assert(p[64] == tail[0]);
    assert(q[64] == tail[0]);
    assert(forall|i: int| 64 <= i < p.len() ==> p[i] == q[i]);
    assert(update_path(p, n) =~= update_path(q, n)) by {
        assert forall|i: int| 0 <= i < n implies #[trigger] update_path(p, n)[i] == update_path(
            q,
            n,
        )[i] by {
            assert(p.subrange(65 + 32 * i, 97 + 32 * i) =~= q.subrange(65 + 32 * i, 97 + 32 * i));
        }
    }
    assert(update_directions(p, n) =~= update_directions(q, n));
    assert(p.subrange(0, 32) =~= old_leaf);
    assert(p.subrange(32, 64) =~= new_leaf);
}

proof fn lemma_root_len(leaf: Seq<u8>, path: Seq<Seq<u8>>, dirs: Seq<u8>)
    requires
        leaf.len() == 32 || path.len() > 0,
    ensures
        merkle_root(leaf, path, dirs).len() == 32,
{
}

/// A leaf that an `UpdateLeaf` has written can itself be replaced by a second
/// `UpdateLeaf` over the same path: the stored root is then the root of the
/// newest leaf.
pub proof fn law_update_chains(
    program_id: Seq<u8>,
    before: Seq<AccountView>,
    after: Seq<AccountView>,
    old_leaf: Seq<u8>,
    new_leaf: Seq<u8>,
    next_leaf: Seq<u8>,
    tail: Seq<u8>,
)
    requires
        old_leaf.len() == 32,
        new_leaf.len() == 32,
        next_leaf.len() == 32,
        merkle_instruction(program_id, before, update_leaf_data(old_leaf, new_leaf, tail)).0 is Ok,
        accounts_after(
            before,
            after,
            merkle_instruction(program_id, before, update_leaf_data(old_leaf, new_leaf, tail)).1,
        ),
    ensures
        merkle_instruction(program_id, after, update_leaf_data(new_leaf, next_leaf, tail)) == (
            Ok::<(), crate::error::ProgramError>(()),
            Some(merkle_root(next_leaf, tail_path(tail), tail_directions(tail))),
        ),
{
    let d1 = update_leaf_data(old_leaf, new_leaf, tail);
    let p1 = d1.skip(1);
    assert(p1 =~= old_leaf + new_leaf + tail);
    assert(p1[64] == tail[0]);
    lemma_payload_parts(old_leaf, new_leaf, tail);
    lemma_payload_parts(new_leaf, next_leaf, tail);
    let r = merkle_root(new_leaf, tail_path(tail), tail_directions(tail));
    lemma_root_len(new_leaf, tail_path(tail), tail_directions(tail));
    assert(after[0].data@ == r + before[0].data@.skip(32));
    assert(stored_root(after[0]) =~= r);
}

/// After `InitializeRoot` has stored the root of a leaf and its path, an
/// `UpdateLeaf` of that leaf over that path succeeds and stores the root of
/// the new leaf.
pub proof fn law_initialize_then_update(
    program_id: Seq<u8>,
    before: Seq<AccountView>,
    after: Seq<AccountView>,
    leaf: Seq<u8>,
    new_leaf: Seq<u8>,
    tail: Seq<u8>,
)
    requires
        leaf.len() == 32,
        new_leaf.len() == 32,
        tail.len() >= 1,
        1 <= tail[0] <= 32,
        tail.len() >= 1 + 33 * tail[0],
        merkle_instruction(
            program_id,
            before,
            initialize_root_data(merkle_root(leaf, tail_path(tail), tail_directions(tail))),
        ).0 is Ok,
        accounts_after(
            before,
            after,
            merkle_instruction(
                program_id,
                before,
                initialize_root_data(merkle_root(leaf, tail_path(tail), tail_directions(tail))),
            ).1,
        ),
    ensures
        merkle_instruction(program_id, after, update_leaf_data(leaf, new_leaf, tail)) == (
            Ok::<(), crate::error::ProgramError>(()),
            Some(merkle_root(new_leaf, tail_path(tail), tail_directions(tail))),
        ),
{
    let root = merkle_root(leaf, tail_path(tail), tail_directions(tail));
    assert(initialize_root_data(root).skip(1) =~= root);
    lemma_payload_parts(leaf, new_leaf, tail);
    assert(tail_path(tail).len() == tail[0]);
    lemma_root_len(leaf, tail_path(tail), tail_directions(tail));
    assert(after[0].data@ == root + before[0].data@.skip(32));
    assert(stored_root(after[0]) =~= root);
}

/// Replacing a leaf by itself succeeds exactly when the proof checks, and
/// then stores the root that was already stored.
pub proof fn law_update_same_leaf_keeps_root(
    program_id: Seq<u8>,
    accounts: Seq<AccountView>,
    leaf: Seq<u8>,
    tail: Seq<u8>,
)
    requires
        leaf.len() == 32,
        merkle_instruction(program_id, accounts, update_leaf_data(leaf, leaf, tail)).0 is Ok,
    ensures
        merkle_instruction(program_id, accounts, update_leaf_data(leaf, leaf, tail)).1 == Some(
            stored_root(accounts[0]),
        ),
{
    let d = update_leaf_data(leaf, leaf, tail);
    assert(d.skip(1) =~= leaf + leaf + tail);
    assert((leaf + leaf + tail).subrange(0, 32) =~= leaf);
    assert((leaf + leaf + tail).subrange(32, 64) =~= leaf);
}

/// `InitializeRoot` stores exactly the 32 bytes it is given.
pub proof fn law_initialize_stores_root(
    program_id: Seq<u8>,
    accounts: Seq<AccountView>,
    root: Seq<u8>,
)
    requires
        merkle_instruction(program_id, accounts, initialize_root_data(root)).0 is Ok,
    ensures
        root.len() == 32,
        merkle_instruction(program_id, accounts, initialize_root_data(root)).1 == Some(root),
{
    assert(initialize_root_data(root).skip(1) =~= root);
}

/// Only a successful `InitializeRoot` or `UpdateLeaf` writes a root; a failed
/// instruction and `VerifyZkProof` leave every account as it was.
pub proof fn law_only_successful_writes(
    program_id: Seq<u8>,
    accounts: Seq<AccountView>,
    data: Seq<u8>,
)
    ensures
        merkle_instruction(program_id, accounts, data).1 is Some ==> {
            &&& merkle_instruction(program_id, accounts, data).0 is Ok
            &&& data[0] == 0 || data[0] == 1
        },
        merkle_instruction(program_id, accounts, data).0 is Err ==> merkle_instruction(
            program_id,
            accounts,
            data,
        ).1 is None,
{
}

/// A second `InitializeRoot` with the same root succeeds and leaves the state
/// account as the first one left it.
pub proof fn law_initialize_is_idempotent(
    program_id: Seq<u8>,
    before: Seq<AccountView>,
    after: Seq<AccountView>,
    root: Seq<u8>,
)
    requires
        merkle_instruction(program_id, before, initialize_root_data(root)).0 is Ok,
        accounts_after(
            before,
            after,
            merkle_instruction(program_id, before, initialize_root_data(root)).1,
        ),
    ensures
        merkle_instruction(program_id, after, initialize_root_data(root)) == (
            Ok::<(), crate::error::ProgramError>(()),
            Some(root),
        ),
        root + after[0].data@.skip(32) == after[0].data@,
{
    assert(initialize_root_data(root).skip(1) =~= root);
    assert(after[0].data@ == root + before[0].data@.skip(32));
    assert(root + after[0].data@.skip(32) =~= after[0].data@);
}

/// An `UpdateLeaf` is undone by the `UpdateLeaf` that puts the old leaf back
/// over the same path: the stored root is again the one before the first.
pub proof fn law_update_is_undone(
    program_id: Seq<u8>,
    before: Seq<AccountView>,
    after: Seq<AccountView>,
    old_leaf: Seq<u8>,
    new_leaf: Seq<u8>,
    tail: Seq<u8>,
)
    requires
        old_leaf.len() == 32,
        new_leaf.len() == 32,
        merkle_instruction(program_id, before, update_leaf_data(old_leaf, new_leaf, tail)).0 is Ok,
        accounts_after(
            before,
            after,
            merkle_instruction(program_id, before, update_leaf_data(old_leaf, new_leaf, tail)).1,
        ),
    ensures
        merkle_instruction(program_id, after, update_leaf_data(new_leaf, old_leaf, tail)) == (
            Ok::<(), crate::error::ProgramError>(()),
            Some(stored_root(before[0])),
        ),
{
    law_update_chains(program_id, before, after, old_leaf, new_leaf, old_leaf, tail);
    lemma_payload_parts(old_leaf, new_leaf, tail);
}

/// Two `UpdateLeaf`s over the same path, `x` to `y` and then `y` to `z`, end
/// where the single `UpdateLeaf` from `x` to `z` ends, and that one succeeds.
pub proof fn law_updates_compose(
    program_id: Seq<u8>,
    before: Seq<AccountView>,
    mid: Seq<AccountView>,
    after: Seq<AccountView>,
    x: Seq<u8>,
    y: Seq<u8>,
    z: Seq<u8>,
    tail: Seq<u8>,
)
    requires
        x.len() == 32,
        y.len() == 32,
        z.len() == 32,
        merkle_instruction(program_id, before, update_leaf_data(x, y, tail)).0 is Ok,
        accounts_after(
            before,
            mid,
            merkle_instruction(program_id, before, update_leaf_data(x, y, tail)).1,
        ),
        accounts_after(
            mid,
            after,
            merkle_instruction(program_id, mid, update_leaf_data(y, z, tail)).1,
        ),
    ensures
        merkle_instruction(program_id, mid, update_leaf_data(y, z, tail)).0 is Ok,
        merkle_instruction(program_id, before, update_leaf_data(x, z, tail)) == (
            Ok::<(), crate::error::ProgramError>(()),
            Some(merkle_root(z, tail_path(tail), tail_directions(tail))),
        ),
        accounts_after(
            before,
            after,
            merkle_instruction(program_id, before, update_leaf_data(x, z, tail)).1,
        ),
{
    law_update_chains(program_id, before, mid, x, y, z, tail);
    lemma_payload_parts(x, y, tail);
    lemma_payload_parts(x, z, tail);
    let ry = merkle_root(y, tail_path(tail), tail_directions(tail));
    let rz = merkle_root(z, tail_path(tail), tail_directions(tail));
    lemma_root_len(y, tail_path(tail), tail_directions(tail));
    assert(mid[0].data@ == ry + before[0].data@.skip(32));
    assert(mid[0].data@.skip(32) =~= before[0].data@.skip(32));
    assert(after[0].data@ == rz + mid[0].data@.skip(32));
    assert forall|i: int| 1 <= i < before.len() implies #[trigger] after[i] == before[i] by {
        assert(mid[i] == before[i]);
    }
}

/// The root of a path is its leaf when the path is empty, and each further
/// level climbs by its own direction, at any depth: direction 0 hashes the
/// running node before the sibling, any other direction after it.
pub proof fn law_root_climbs_each_level(
    leaf: Seq<u8>,
    path: Seq<Seq<u8>>,
    sibling: Seq<u8>,
    directions: Seq<u8>,
)
    requires
        directions.len() > path.len(),
    ensures
        merkle_root(leaf, Seq::<Seq<u8>>::empty(), directions) == leaf,
        merkle_root(leaf, path.push(sibling), directions) == if directions[path.len() as int]
            == 0 {
            hashv_digest(seq![merkle_root(leaf, path, directions), sibling])@
        } else {
            hashv_digest(seq![sibling, merkle_root(leaf, path, directions)])@
        },
{
    assert(path.push(sibling).drop_last() =~= path);
}

/// `VerifyZkProof` with data `[2, m, public[m], k, proof[k], ...]` (any `m`
/// and `k` up to 255, anything after the proof) and well-owned accounts
/// holding at least 32 bytes succeeds exactly when the digest of the stored
/// root, the public inputs and the whole proof equals the stored
/// commitment, and it writes nothing.
pub proof fn law_verify_zk_proof_checks_digest(
    program_id: Seq<u8>,
    accounts: Seq<AccountView>,
    public: Seq<u8>,
    proof: Seq<u8>,
    rest: Seq<u8>,
)
    requires
        public.len() <= 255,
        proof.len() <= 255,
        accounts.len() >= 2,
        accounts[0].owner@ == program_id,
        accounts[1].owner@ == program_id,
        accounts[0].data@.len() >= 32,
        accounts[1].data@.len() >= 32,
    ensures
        merkle_instruction(
            program_id,
            accounts,
            seq![2u8, public.len() as u8] + public + seq![proof.len() as u8] + proof + rest,
        ) == (
            if hashv_digest(seq![accounts[0].data@.take(32), public, proof])@ == accounts[1].data@.take(
                32,
            ) {
                Ok::<(), ProgramError>(())
            } else {
                Err(ProgramError::InvalidInstructionData)
            },
            None::<Seq<u8>>,
        ),
{
    let m = public.len() as int;
    let k = proof.len() as int;
    let data = seq![2u8, public.len() as u8] + public + seq![proof.len() as u8] + proof + rest;
    let d = data.skip(1);
    assert(d =~= seq![public.len() as u8] + public + seq![proof.len() as u8] + proof + rest);
    assert(d[0] == m);
    assert(d[1 + m] == k);
    assert(d.subrange(1, 1 + m) =~= public);
    assert(d.subrange(2 + m, 2 + m + k) =~= proof);
}

/// The bytes of a list of nodes, one after the other.
pub open spec fn join_nodes(nodes: Seq<Seq<u8>>) -> Seq<u8>
    decreases nodes.len(),
{
    if nodes.len() == 0 {
        Seq::empty()
    } else {
        join_nodes(nodes.drop_last()) + nodes.last()
    }
}

proof fn lemma_join_nodes(nodes: Seq<Seq<u8>>)
    requires
        forall|i: int| 0 <= i < nodes.len() ==> #[trigger] nodes[i].len() == 32,
    ensures
        join_nodes(nodes).len() == 32 * nodes.len(),
        forall|i: int|
            0 <= i < nodes.len() ==> #[trigger] join_nodes(nodes).subrange(32 * i, 32 * i + 32)
                == nodes[i],
    decreases nodes.len(),
{
    if nodes.len() > 0 {
        let front = nodes.drop_last();
        lemma_join_nodes(front);
        let j = join_nodes(front);
        assert forall|i: int| 0 <= i < nodes.len() implies #[trigger] join_nodes(nodes).subrange(
            32 * i,
            32 * i + 32,
        ) == nodes[i] by {
            if i < nodes.len() - 1 {
                assert(front[i] == nodes[i]);
                assert((j + nodes.last()).subrange(32 * i, 32 * i + 32) =~= j.subrange(
                    32 * i,
                    32 * i + 32,
                ));
            } else {
                assert((j + nodes.last()).subrange(32 * i, 32 * i + 32) =~= nodes.last());
            }
        }
    }
}

/// `UpdateLeaf` with data `[1, old, new, n, siblings (n nodes of 32 bytes),
/// directions (n bytes), ...]`, for `n` from 1 to 32, sent by a signing
/// authority for a state account of the program holding at least 32 bytes,
/// succeeds exactly when the root climbed from the old leaf is the stored
/// root, and then stores the root climbed from the new leaf; otherwise it
/// fails with `InvalidAccountData` and writes nothing.
pub proof fn law_update_leaf_outcome(
    program_id: Seq<u8>,
    accounts: Seq<AccountView>,
    old_leaf: Seq<u8>,
    new_leaf: Seq<u8>,
    nodes: Seq<Seq<u8>>,
    directions: Seq<u8>,
    rest: Seq<u8>,
)
    requires
        old_leaf.len() == 32,
        new_leaf.len() == 32,
        1 <= nodes.len() <= 32,
        forall|i: int| 0 <= i < nodes.len() ==> #[trigger] nodes[i].len() == 32,
        directions.len() == nodes.len(),
        accounts.len() >= 2,
        accounts[1].is_signer,
        accounts[0].owner@ == program_id,
        accounts[0].data@.len() >= 32,
    ensures
        merkle_instruction(
            program_id,
            accounts,
            seq![1u8] + old_leaf + new_leaf + seq![nodes.len() as u8] + join_nodes(nodes)
                + directions + rest,
        ) == if merkle_root(old_leaf, nodes, directions) == accounts[0].data@.take(32) {
            (Ok::<(), ProgramError>(()), Some(merkle_root(new_leaf, nodes, directions)))
        } else {
            (Err::<(), ProgramError>(ProgramError::InvalidAccountData), None::<Seq<u8>>)
        },
{
    let n = nodes.len() as int;
    lemma_join_nodes(nodes);
    let j = join_nodes(nodes);
    let data = seq![1u8] + old_leaf + new_leaf + seq![nodes.len() as u8] + j + directions + rest;
    let p = data.skip(1);
    assert(p =~= old_leaf + new_leaf + seq![nodes.len() as u8] + j + directions + rest);
    assert(p[64] == n);
    assert(p.subrange(0, 32) =~= old_leaf);
    assert(p.subrange(32, 64) =~= new_leaf);
    assert(update_directions(p, n) =~= directions);
    assert(update_path(p, n) =~= nodes) by {
        assert forall|i: int| 0 <= i < n implies #[trigger] update_path(p, n)[i] == nodes[i] by {
            assert(p.subrange(65 + 32 * i, 97 + 32 * i) =~= j.subrange(32 * i, 32 * i + 32));
        }
    }
}

/// `InitializeRoot` of a 32-byte root: it needs the state account and the
/// authority, the authority's signature, a state account owned by the
/// program and holding at least 32 bytes (failing in that order), and then
/// stores the root.
pub proof fn law_initialize_root_outcome(
    program_id: Seq<u8>,
    accounts: Seq<AccountView>,
    root: Seq<u8>,
)
    requires
        root.len() == 32,
    ensures
        merkle_instruction(program_id, accounts, initialize_root_data(root)) == if accounts.len()
            < 2 {
            (Err::<(), ProgramError>(ProgramError::NotEnoughAccountKeys), None::<Seq<u8>>)
        } else if !accounts[1].is_signer {
            (Err::<(), ProgramError>(ProgramError::MissingRequiredSignature), None::<Seq<u8>>)
        } else if accounts[0].owner@ != program_id {
            (Err::<(), ProgramError>(ProgramError::IncorrectProgramId), None::<Seq<u8>>)
        } else if accounts[0].data@.len() < 32 {
            (Err::<(), ProgramError>(ProgramError::InvalidAccountData), None::<Seq<u8>>)
        } else {
            (Ok::<(), ProgramError>(()), Some(root))
        },
{
    assert(initialize_root_data(root).skip(1) =~= root);
}

/// Nothing is written unless the authority (second account) signed and the
/// state account belongs to the program; an empty instruction or a tag past
/// 2 is refused as invalid data.
pub proof fn law_writes_need_authority(
    program_id: Seq<u8>,
    accounts: Seq<AccountView>,
    data: Seq<u8>,
)
    ensures
        merkle_instruction(program_id, accounts, data).1 is Some ==> {
            &&& accounts.len() >= 2
            &&& accounts[1].is_signer
            &&& accounts[0].owner@ == program_id
            &&& accounts[0].data@.len() >= 32
        },
        data.len() == 0 || data[0] > 2 ==> merkle_instruction(program_id, accounts, data) == (
            Err::<(), ProgramError>(ProgramError::InvalidInstructionData),
            None::<Seq<u8>>,
        ),
{
}

} // verus!
