use vstd::prelude::*;

verus! {

/// The SHA-256 digest that `solana_program::hash::hashv` computes over the
/// given byte strings, fed to the hasher one after the other.
pub uninterp spec fn hashv_digest(parts: Seq<Seq<u8>>) -> [u8; 32];

/// The byte strings that a list of slices holds.
pub open spec fn parts_view(parts: Seq<&[u8]>) -> Seq<Seq<u8>> {
    parts.map_values(|p: &[u8]| p@)
}

/// Calls `solana_program::hash::hashv`. Claimed: the returned bytes are
/// `hashv_digest` of the byte strings in `parts`, in order; the digest is a
/// function of those bytes alone.
#[verifier::external_body]
pub(crate) fn hashv(parts: &[&[u8]]) -> (digest: [u8; 32])
    ensures
        digest == hashv_digest(parts_view(parts@)),
{
    solana_program::hash::hashv(parts).to_bytes()
}

} // verus!
