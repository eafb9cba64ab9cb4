use vstd::prelude::*;

use crate::errors::ForumError;
use crate::hashing::keccak_of;
use crate::merkle::{computed_root, well_formed_path};
use crate::state::{
    apply_update, apply_updates, update_outcome, verify_outcome, zero_digest, ForumState,
    UpdateRequest,
};

verus! {

/// One update attempt never regresses the committed count: either the
/// request is accepted with a count at least as large as the stored one, or
/// it is rejected and the record is unchanged.
pub proof fn lemma_update_step_count(s: ForumState, req: UpdateRequest)
    ensures
        apply_update(s, req).total_content_items >= s.total_content_items,
        update_outcome(s, req.caller, req.content_count) is Err ==> apply_update(s, req) == s,
{
}

/// Across any sequence of update attempts, in any order and from any
/// callers, the committed count never decreases.
pub proof fn lemma_count_never_decreases(s: ForumState, reqs: Seq<UpdateRequest>)
    ensures
        apply_updates(s, reqs).total_content_items >= s.total_content_items,
    decreases reqs.len(),
{
    if reqs.len() > 0 {
        lemma_update_step_count(s, reqs[0]);
        lemma_count_never_decreases(apply_update(s, reqs[0]), reqs.subrange(1, reqs.len() as int));
    }
}

/// Soundness: a well-formed proof path that recomputes exactly the stored
/// root always verifies, once a commitment exists.
pub proof fn lemma_verification_soundness(
    s: ForumState,
    content: Seq<u8>,
    proof_path: Seq<u8>,
    index: nat,
)
    ensures
        s.merkle_root@ != zero_digest() && well_formed_path(proof_path) && computed_root(
            content,
            proof_path,
            index,
        ) == s.merkle_root@ ==> verify_outcome(s, content, proof_path, index) is Ok,
{
}

/// Negative completeness: once a commitment exists, a proof path that is
/// malformed or recomputes any root other than the stored one is rejected
/// with `InvalidMerkleProof`.
pub proof fn lemma_verification_negative(
    s: ForumState,
    content: Seq<u8>,
    proof_path: Seq<u8>,
    index: nat,
)
    ensures
        s.merkle_root@ != zero_digest() && (!well_formed_path(proof_path) || computed_root(
            content,
            proof_path,
            index,
        ) != s.merkle_root@) ==> verify_outcome(s, content, proof_path, index) == Err::<
            (),
            ForumError,
        >(ForumError::InvalidMerkleProof),
{
}

/// Zero-root guard: while the record holds the all-zero sentinel — as it
/// does immediately after initialization — every verification attempt is
/// rejected with `EmptyMerkleRoot`.
pub proof fn lemma_zero_root_guard(
    s: ForumState,
    content: Seq<u8>,
    proof_path: Seq<u8>,
    index: nat,
)
    ensures
        s.merkle_root@ == zero_digest() ==> verify_outcome(s, content, proof_path, index) == Err::<
            (),
            ForumError,
        >(ForumError::EmptyMerkleRoot),
{
}

/// Authorization guard: an update attempted by anyone but the stored
/// authority is rejected with `Unauthorized` and leaves the record
/// byte-for-byte unchanged.
pub proof fn lemma_authority_guard(s: ForumState, req: UpdateRequest)
    ensures
        req.caller@ != s.authority@ ==> update_outcome(s, req.caller, req.content_count) == Err::<
            (),
            ForumError,
        >(ForumError::Unauthorized),
        req.caller@ != s.authority@ ==> apply_update(s, req) == s,
{
}

/// Single-leaf tree: the proof path of a one-leaf tree is empty, and once
/// the hash of a leaf is committed as the root, verifying that leaf with an
/// empty path and index 0 succeeds.
pub proof fn lemma_single_leaf(s: ForumState, content: Seq<u8>)
    ensures
        s.merkle_root@ != zero_digest() && s.merkle_root@ == keccak_of(content) ==> verify_outcome(
            s,
            content,
            Seq::empty(),
            0,
        ) is Ok,
{
    assert(computed_root(content, Seq::empty(), 0) == keccak_of(content));
}

} // verus!
