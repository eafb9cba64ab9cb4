use vstd::prelude::*;

use crate::errors::ForumError;
use crate::merkle::{computed_root, well_formed_path};

verus! {

/// The single durable record of one forum's commitment: the owning
/// authority, the committed root, the number of leaves it covers, the
/// timestamp of the last successful mutation, and a one-byte structural
/// version marker fixed at creation.
#[derive(Clone, Copy, Debug, PartialEq, Eq)]
pub struct ForumState {
    pub authority: [u8; 32],
    pub merkle_root: [u8; 32],
    pub total_content_items: u64,
    pub last_updated: i64,
    pub bump: u8,
}

/// The all-zero sentinel digest, meaning "no commitment yet".
pub open spec fn zero_digest() -> Seq<u8> {
    Seq::new(32, |i: int| 0u8)
}

/// The content identity reported in a verification notification: the
/// content bytes truncated or zero-padded to 32 bytes. Reporting only; the
/// cryptographic check uses the full content.
pub open spec fn display_hash(content: Seq<u8>) -> Seq<u8> {
    Seq::new(32, |i: int| if i < content.len() { content[i] } else { 0u8 })
}

/// One attempted root update: who called, and what they proposed.
#[derive(Clone, Copy, Debug, PartialEq, Eq)]
pub struct UpdateRequest {
    pub caller: [u8; 32],
    pub new_root: [u8; 32],
    pub content_count: u64,
    pub now: i64,
}

/// Whether a root update is accepted, and if not, with which error: only
/// the stored authority may mutate the record, and the committed count
/// never regresses (an equal count is allowed).
pub open spec fn update_outcome(s: ForumState, caller: [u8; 32], content_count: u64) -> Result<
    (),
    ForumError,
> {
    if caller@ != s.authority@ {
        Err(ForumError::Unauthorized)
    } else if content_count < s.total_content_items {
        Err(ForumError::InvalidContentCount)
    } else {
        Ok(())
    }
}

/// The record after one attempted update: changed atomically when the
/// update is accepted, byte-for-byte unchanged when it is rejected.
pub open spec fn apply_update(s: ForumState, req: UpdateRequest) -> ForumState {
    if update_outcome(s, req.caller, req.content_count) is Ok {
        ForumState {
            authority: s.authority,
            merkle_root: req.new_root,
            total_content_items: req.content_count,
            last_updated: req.now,
            bump: s.bump,
        }
    } else {
        s
    }
}

/// The record after a whole sequence of attempted updates, applied in
/// order.
pub open spec fn apply_updates(s: ForumState, reqs: Seq<UpdateRequest>) -> ForumState
    decreases reqs.len(),
{
    if reqs.len() == 0 {
        s
    } else {
        apply_updates(apply_update(s, reqs[0]), reqs.subrange(1, reqs.len() as int))
    }
}

/// Whether a membership verification succeeds against the record, and if
/// not, with which error: a record still holding the zero sentinel rejects
/// everything with `EmptyMerkleRoot`; a malformed path, or a recomputed
/// root different from the stored one, is `InvalidMerkleProof`.
pub open spec fn verify_outcome(
    s: ForumState,
    content: Seq<u8>,
    proof_path: Seq<u8>,
    index: nat,
) -> Result<(), ForumError> {
    if s.merkle_root@ == zero_digest() {
        Err(ForumError::EmptyMerkleRoot)
    } else if !well_formed_path(proof_path) {
        Err(ForumError::InvalidMerkleProof)
    } else if computed_root(content, proof_path, index) == s.merkle_root@ {
        Ok(())
    } else {
        Err(ForumError::InvalidMerkleProof)
    }
}

/// Whether two 32-byte values hold the same bytes.
pub fn bytes32_eq(a: &[u8; 32], b: &[u8; 32]) -> (r: bool)
    ensures
        r == (a@ == b@),
{
    let mut i: usize = 0;
    let mut same: bool = true;
    while i < 32
        invariant
            i <= 32,
            same == (forall|k: int| 0 <= k < i ==> a@[k] == b@[k]),
        decreases 32 - i,
    {
        if *vstd::array::array_index_get(a, i) != *vstd::array::array_index_get(b, i) {
            same = false;
        }
        i = i + 1;
    }
    proof {
        if same {
            assert(a@ =~= b@);
        } else {
            assert(!(a@ =~= b@));
        }
    }
    same
}

/// Whether a 32-byte value is the all-zero sentinel.
pub fn is_zero_digest(d: &[u8; 32]) -> (r: bool)
    ensures
        r == (d@ == zero_digest()),
{
    let mut i: usize = 0;
    let mut all_zero: bool = true;
    while i < 32
        invariant
            i <= 32,
            all_zero == (forall|k: int| 0 <= k < i ==> d@[k] == 0u8),
        decreases 32 - i,
    {
        if *vstd::array::array_index_get(d, i) != 0 {
            all_zero = false;
        }
        i = i + 1;
    }
    proof {
        if all_zero {
            assert(d@ =~= zero_digest());
        } else {
            assert(!(d@ =~= zero_digest()));
        }
    }
    all_zero
}

} // verus!
