use vstd::prelude::*;

use crate::errors::ForumError;
use crate::hashing::{keccak256, keccak_of};

verus! {

/// Combination of two sibling digests into their parent digest: the hash of
/// the left digest followed by the right digest.
pub open spec fn combine(left: Seq<u8>, right: Seq<u8>) -> Seq<u8> {
    keccak_of(left + right)
}

/// A proof path is a concatenation of whole 32-byte sibling digests.
pub open spec fn well_formed_path(proof_path: Seq<u8>) -> bool {
    proof_path.len() % 32 == 0
}

/// The digest reached by climbing the proof path from `node`: at each level
/// the node is combined with the next sibling digest, standing on the left
/// when the low bit of `index` is 0 and on the right when it is 1, and the
/// index shifts down one bit per level. An empty path returns `node` itself.
pub open spec fn climb(node: Seq<u8>, proof_path: Seq<u8>, index: nat) -> Seq<u8>
    decreases proof_path.len(),
{
    if proof_path.len() < 32 {
        node
    } else {
        let sibling = proof_path.subrange(0, 32);
        let parent = if index % 2 == 0 {
            combine(node, sibling)
        } else {
            combine(sibling, node)
        };
        climb(parent, proof_path.subrange(32, proof_path.len() as int), index / 2)
    }
}

/// The root a well-formed proof path recomputes for the given content: the
/// content is hashed into the leaf digest and the path is climbed from it.
pub open spec fn computed_root(content: Seq<u8>, proof_path: Seq<u8>, index: nat) -> Seq<u8> {
    climb(keccak_of(content), proof_path, index)
}

/// Appends every byte of `src` to `dst`.
fn push_bytes(dst: &mut Vec<u8>, src: &[u8])
    ensures
        final(dst)@ == old(dst)@ + src@,
{
    let mut j: usize = 0;
    while j < src.len()
        invariant
            j <= src@.len(),
            dst@ == old(dst)@ + src@.subrange(0, j as int),
        decreases src@.len() - j,
    {
        let b: u8 = *vstd::slice::slice_index_get(src, j);
        dst.push(b);
        proof {
            assert(dst@ =~= old(dst)@ + src@.subrange(0, j + 1));
        }
        j = j + 1;
    }
    proof {
        assert(dst@ =~= old(dst)@ + src@);
    }
}

/// Recomputes the root committed to by a proof path, per the Merkle Proof
/// Verifier contract: the starting digest is the hash of the full content
/// bytes, each 32-byte sibling digest of the path is combined with it in
/// the order chosen by the corresponding bit of `index` (bit 0 is the
/// lowest tree level), and the final digest is returned. A path whose
/// length is not a multiple of 32 is structurally malformed and is
/// rejected. An empty path is legal and denotes a single-leaf tree.
pub fn merklize(content: &[u8], merkle_proof: &[u8], index: u32) -> (r: Result<
    Vec<u8>,
    ForumError,
>)
    ensures
        well_formed_path(merkle_proof@) ==> (r matches Ok(root) && root@ == computed_root(
            content@,
            merkle_proof@,
            index as nat,
        ) && root@.len() == 32),
        !well_formed_path(merkle_proof@) ==> r == Err::<Vec<u8>, ForumError>(
            ForumError::InvalidMerkleProof,
        ),
{
    if merkle_proof.len() % 32 != 0 {
        return Err(ForumError::InvalidMerkleProof);
    }
    let ghost target = computed_root(content@, merkle_proof@, index as nat);
    let mut node: Vec<u8> = keccak256(content);
    let n: usize = merkle_proof.len();
    let levels: usize = n / 32;
    proof {
        vstd::arithmetic::div_mod::lemma_fundamental_div_mod(merkle_proof@.len() as int, 32);
        assert(32 * levels == merkle_proof@.len());
        assert(merkle_proof@.subrange(0, merkle_proof@.len() as int) =~= merkle_proof@);
    }
    let mut idx: u32 = index;
    let mut i: usize = 0;
    while i < levels
        invariant
            i <= levels,
            32 * levels == merkle_proof@.len(),
            merkle_proof@.len() <= usize::MAX,
            node@.len() == 32,
            climb(
                node@,
                merkle_proof@.subrange(32 * i as int, merkle_proof@.len() as int),
                idx as nat,
            ) == target,
        decreases levels - i,
    {
        let ghost rem = merkle_proof@.subrange(32 * i as int, merkle_proof@.len() as int);
        let off: usize = 32 * i;
        let sibling: &[u8] = vstd::slice::slice_subrange(merkle_proof, off, off + 32);
        proof {
            assert(rem.subrange(0, 32) =~= sibling@);
            assert(rem.subrange(32, rem.len() as int) =~= merkle_proof@.subrange(
                32 * (i + 1) as int,
                merkle_proof@.len() as int,
            ));
        }
        let mut pair: Vec<u8> = Vec::new();
        if idx % 2 == 0 {
            push_bytes(&mut pair, node.as_slice());
            push_bytes(&mut pair, sibling);
            proof {
                assert(pair@ =~= node@ + sibling@);
            }
        } else {
            push_bytes(&mut pair, sibling);
            push_bytes(&mut pair, node.as_slice());
            proof {
                assert(pair@ =~= sibling@ + node@);
            }
        }
        node = keccak256(pair.as_slice());
        idx = idx / 2;
        i = i + 1;
    }
    proof {
        assert(merkle_proof@.subrange(32 * levels as int, merkle_proof@.len() as int).len() == 0);
    }
    Ok(node)
}

} // verus!
