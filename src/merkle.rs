//! Folding a leaf hash with a path of sibling hashes into a batch root.
use vstd::prelude::*;
use crate::bytes::{append_bytes, be_ge, be_value, lemma_be_value_injective};
use crate::crypto::{keccak, keccak_of};
use crate::error::BridgeError;

verus! {

/// Whether `a` goes first in a sorted pair with `b`: the larger value as a
/// big-endian integer goes first (where the values tie, the longer string).
pub open spec fn goes_first(a: Seq<u8>, b: Seq<u8>) -> bool {
    be_value(a) > be_value(b) || (be_value(a) == be_value(b) && a.len() >= b.len())
}

/// The parent hash of two nodes: keccak-256 over the sorted pair.
pub open spec fn hash_pair(a: Seq<u8>, b: Seq<u8>) -> Seq<u8> {
    if goes_first(b, a) {
        keccak_of(b + a)
    } else {
        keccak_of(a + b)
    }
}

/// The root reached from `leaf` by hashing in each sibling of `path` in turn.
pub open spec fn merkle_root(leaf: Seq<u8>, path: Seq<Seq<u8>>) -> Seq<u8>
    decreases path.len(),
{
    if path.len() == 0 {
        leaf
    } else {
        hash_pair(merkle_root(leaf, path.drop_last()), path.last())
    }
}

/// The root reached when each step also carries a left/right flag and puts
/// the sibling on the side it names before the pair is hashed.
pub open spec fn merkle_root_sided(leaf: Seq<u8>, path: Seq<Seq<u8>>, sibling_left: Seq<bool>) -> Seq<u8>
    decreases path.len(),
{
    if path.len() == 0 {
        leaf
    } else {
        let running = merkle_root_sided(leaf, path.drop_last(), sibling_left.drop_last());
        if sibling_left.last() {
            hash_pair(path.last(), running)
        } else {
            hash_pair(running, path.last())
        }
    }
}

pub open spec fn path_view(path: Seq<[u8; 32]>) -> Seq<Seq<u8>> {
    path.map_values(|h: [u8; 32]| h@)
}

/// The parent hash of two nodes does not depend on the order they are given in.
pub proof fn lemma_hash_pair_symmetric(a: Seq<u8>, b: Seq<u8>)
    ensures
        hash_pair(a, b) == hash_pair(b, a),
{
    if be_value(a) == be_value(b) && a.len() == b.len() {
        lemma_be_value_injective(a, b);
    }
}

/// Folding is insensitive to left/right metadata: whatever side each step's
/// flag names, the root is the one the sibling values alone give.
pub proof fn lemma_root_ignores_sides(leaf: Seq<u8>, path: Seq<Seq<u8>>, sibling_left: Seq<bool>)
    requires
        sibling_left.len() == path.len(),
    ensures
        merkle_root_sided(leaf, path, sibling_left) == merkle_root(leaf, path),
    decreases path.len(),
{
    if path.len() > 0 {
        lemma_root_ignores_sides(leaf, path.drop_last(), sibling_left.drop_last());
        lemma_hash_pair_symmetric(merkle_root(leaf, path.drop_last()), path.last());
    }
}

/// The 64-byte string `a ++ b`.
fn concat_pair(a: &[u8; 32], b: &[u8; 32]) -> (r: Vec<u8>)
    ensures
        r@ == a@ + b@,
{
    let mut v: Vec<u8> = Vec::new();
    append_bytes(&mut v, a.as_slice());
    append_bytes(&mut v, b.as_slice());
    v
}

/// The root of the batch that holds `leaf`, given its non-empty sibling path.
pub fn get_merkle_root(leaf: &[u8; 32], path: &Vec<[u8; 32]>) -> (r: Result<[u8; 32], BridgeError>)
    ensures
        path@.len() == 0 ==> r == Err::<[u8; 32], BridgeError>(BridgeError::MalformedProof),
        path@.len() > 0 ==> r is Ok && r->Ok_0@ == merkle_root(leaf@, path_view(path@)),
{
    if path.len() == 0 {
        return Err(BridgeError::MalformedProof);
    }
    let mut hash: [u8; 32] = *leaf;
    let mut i: usize = 0;
    while i < path.len()
        invariant
            0 <= i <= path@.len(),
            hash@ == merkle_root(leaf@, path_view(path@).subrange(0, i as int)),
        decreases path@.len() - i,
    {
        let sibling: [u8; 32] = path[i];
        let ghost before = hash@;
        if be_ge(&sibling, &hash) {
            hash = keccak(concat_pair(&sibling, &hash).as_slice());
        } else {
            hash = keccak(concat_pair(&hash, &sibling).as_slice());
        }
        proof {
            let p = path_view(path@).subrange(0, i + 1);
            assert(p.drop_last() =~= path_view(path@).subrange(0, i as int));
            assert(p.last() == sibling@);
            assert(sibling@.len() == 32 && before.len() == 32);
        }
        i = i + 1;
    }
    assert(path_view(path@).subrange(0, path@.len() as int) =~= path_view(path@));
    Ok(hash)
}

} // verus!
