use vstd::prelude::*;

use crate::digest::{hashv, hashv_digest, parts_view};

verus! {

/// The digest of a parent node whose children are `left` and `right`.
pub open spec fn pair_digest(left: Seq<u8>, right: Seq<u8>) -> Seq<u8> {
    hashv_digest(seq![left, right])@
}

/// One step up the tree: a direction of 0 puts the running node on the left
/// of its sibling, any other direction puts it on the right.
pub open spec fn climb(current: Seq<u8>, sibling: Seq<u8>, direction: u8) -> Seq<u8> {
    if direction == 0 {
        pair_digest(current, sibling)
    } else {
        pair_digest(sibling, current)
    }
}

/// The root reached from `leaf` by climbing past each sibling of `path` in
/// turn, the `i`-th step going in direction `directions[i]`.
pub open spec fn merkle_root(leaf: Seq<u8>, path: Seq<Seq<u8>>, directions: Seq<u8>) -> Seq<u8>
    decreases path.len(),
{
    if path.len() == 0 {
        leaf
    } else {
        climb(
            merkle_root(leaf, path.drop_last(), directions),
            path.last(),
            directions[path.len() - 1],
        )
    }
}

/// The byte strings held by a list of 32-byte nodes.
pub open spec fn nodes_view(path: Seq<[u8; 32]>) -> Seq<Seq<u8>> {
    path.map_values(|n: [u8; 32]| n@)
}

/// Hashes two nodes into their parent, `left` first.
pub fn hash_pair(left: &[u8; 32], right: &[u8; 32]) -> (parent: [u8; 32])
    ensures
        parent@ == pair_digest(left@, right@),
{
    let parts: Vec<&[u8]> = vec![left.as_slice(), right.as_slice()];
    let parent = hashv(parts.as_slice());
    assert(parts_view(parts@) =~= seq![left@, right@]);
    parent
}

/// Climbs from `leaf` to the root along `path`; `directions[i]` says on which
/// side of `path[i]` the running node stands.
pub fn compute_merkle_root(leaf: &[u8; 32], path: &[[u8; 32]], directions: &[u8]) -> (root: [u8;
    32])
    requires
        directions@.len() >= path@.len(),
    ensures
        root@ == merkle_root(leaf@, nodes_view(path@), directions@),
{
    let mut current: [u8; 32] = *leaf;
    let n = path.len();
    let mut idx: usize = 0;
    assert(nodes_view(path@).take(0) =~= Seq::<Seq<u8>>::empty());
    while idx < n
        invariant
            n == path@.len(),
            directions@.len() >= n,
            idx <= n,
            current@ == merkle_root(leaf@, nodes_view(path@).take(idx as int), directions@),
        decreases n - idx,
    {
        let sibling = &path[idx];
        let dir = directions[idx];
        let ghost prefix = nodes_view(path@).take(idx + 1);
        assert(prefix.drop_last() =~= nodes_view(path@).take(idx as int));
        assert(prefix.last() == sibling@);
        current = if dir == 0 {
            hash_pair(&current, sibling)
        } else {
            hash_pair(sibling, &current)
        };
        idx = idx + 1;
    }
    assert(nodes_view(path@).take(n as int) =~= nodes_view(path@));
    current
}

} // verus!
