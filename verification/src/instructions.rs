use vstd::prelude::*;

use crate::errors::ForumError;
use crate::events::{ContentVerified, MerkleRootUpdated};
use crate::merkle::merklize;
use crate::state::{
    apply_update, bytes32_eq, display_hash, is_zero_digest, update_outcome, verify_outcome,
    zero_digest, ForumState, UpdateRequest,
};

verus! {

/// The content identity reported in a `ContentVerified` notification:
/// the content bytes truncated or zero-padded to 32 bytes.
fn make_display_hash(content: &[u8]) -> (r: [u8; 32])
    ensures
        r@ == display_hash(content@),
{
    let mut out: [u8; 32] = [0u8; 32];
    let limit: usize = if content.len() < 32 {
        content.len()
    } else {
        32
    };
    let mut i: usize = 0;
    while i < limit
        invariant
            limit <= 32,
            limit <= content@.len(),
            i <= limit,
            forall|k: int| 0 <= k < i ==> out@[k] == content@[k],
            forall|k: int| i <= k < 32 ==> out@[k] == 0u8,
        decreases limit - i,
    {
        out[i] = *vstd::slice::slice_index_get(content, i);
        i = i + 1;
    }
    proof {
        assert(out@ =~= display_hash(content@));
    }
    out
}

/// Whether a computed digest holds the same bytes as a stored 32-byte
/// digest; a digest of another length never matches.
fn digest_matches(computed: &[u8], stored: &[u8; 32]) -> (r: bool)
    ensures
        r == (computed@ == stored@),
{
    if computed.len() != 32 {
        proof {
            assert(computed@.len() != stored@.len());
        }
        return false;
    }
    let mut i: usize = 0;
    let mut same: bool = true;
    while i < 32
        invariant
            i <= 32,
            computed@.len() == 32,
            same == (forall|k: int| 0 <= k < i ==> computed@[k] == stored@[k]),
        decreases 32 - i,
    {
        if *vstd::slice::slice_index_get(computed, i) != *vstd::array::array_index_get(stored, i) {
            same = false;
        }
        i = i + 1;
    }
    proof {
        if same {
            assert(computed@ =~= stored@);
        } else {
            assert(!(computed@ =~= stored@));
        }
    }
    same
}

impl ForumState {
    /// Creates the record at initialization: owned by `authority`, holding
    /// the zero sentinel root and a count of 0, created at `now`.
    pub fn init(authority: [u8; 32], bump: u8, now: i64) -> (s: ForumState)
        ensures
            s.authority == authority,
            s.merkle_root@ == zero_digest(),
            s.total_content_items == 0,
            s.last_updated == now,
            s.bump == bump,
    {
        let s = ForumState {
            authority,
            merkle_root: [0u8; 32],
            total_content_items: 0,
            last_updated: now,
            bump,
        };
        proof {
            assert(s.merkle_root@ =~= zero_digest());
        }
        s
    }

    /// Replaces the committed root: rejected with `Unauthorized` when the
    /// caller is not the stored authority, with `InvalidContentCount` when
    /// the proposed count regresses below the committed one, and leaves the
    /// record byte-for-byte unchanged in either case; otherwise atomically
    /// sets root, count and timestamp and returns the `MerkleRootUpdated`
    /// notification for the host to deliver.
    pub fn update_merkle_root(
        &mut self,
        caller: [u8; 32],
        new_root: [u8; 32],
        content_count: u64,
        now: i64,
    ) -> (r: Result<MerkleRootUpdated, ForumError>)
        ensures
            *final(self) == apply_update(
                *old(self),
                (UpdateRequest { caller, new_root, content_count, now }),
            ),
            r is Ok <==> update_outcome(*old(self), caller, content_count) is Ok,
            r matches Err(e) ==> update_outcome(*old(self), caller, content_count) == Err::<
                (),
                ForumError,
            >(e),
            r matches Ok(ev) ==> ev.new_root == new_root && ev.content_count == content_count
                && ev.timestamp == now && ev.authority == old(self).authority,
    {
        if !bytes32_eq(&caller, &self.authority) {
            return Err(ForumError::Unauthorized);
        }
        if content_count < self.total_content_items {
            return Err(ForumError::InvalidContentCount);
        }
        self.merkle_root = new_root;
        self.total_content_items = content_count;
        self.last_updated = now;
        Ok(
            MerkleRootUpdated {
                new_root,
                content_count,
                timestamp: now,
                authority: self.authority,
            },
        )
    }

    /// Pure membership query against the committed root: rejected with
    /// `EmptyMerkleRoot` while the record still holds the zero sentinel,
    /// and with `InvalidMerkleProof` when the path is malformed or the
    /// recomputed root differs from the stored one; on success returns the
    /// `ContentVerified` notification for the host to deliver. The record
    /// is never mutated.
    pub fn verify_content(&self, content: Vec<u8>, merkle_proof: Vec<u8>, index: u32, now: i64) -> (r:
        Result<ContentVerified, ForumError>)
        ensures
            r is Ok <==> verify_outcome(*self, content@, merkle_proof@, index as nat) is Ok,
            r matches Err(e) ==> verify_outcome(*self, content@, merkle_proof@, index as nat)
                == Err::<(), ForumError>(e),
            r matches Ok(ev) ==> ev.content_hash@ == display_hash(content@) && ev.merkle_root
                == self.merkle_root && ev.index == index && ev.verified == true && ev.timestamp
                == now,
    {
        if is_zero_digest(&self.merkle_root) {
            return Err(ForumError::EmptyMerkleRoot);
        }
        let computed: Vec<u8> = match merklize(content.as_slice(), merkle_proof.as_slice(), index) {
            Ok(c) => c,
            Err(e) => {
                return Err(e);
            },
        };
        if !digest_matches(computed.as_slice(), &self.merkle_root) {
            return Err(ForumError::InvalidMerkleProof);
        }
        let content_hash = make_display_hash(content.as_slice());
        Ok(
            ContentVerified {
                content_hash,
                merkle_root: self.merkle_root,
                index,
                verified: true,
                timestamp: now,
            },
        )
    }

    /// Authority-gated teardown: only the stored authority may destroy the
    /// record; reclaiming the storage itself is the host's work.
    pub fn delete_forum(&self, caller: [u8; 32]) -> (r: Result<(), ForumError>)
        ensures
            r is Ok <==> caller@ == self.authority@,
            r is Err ==> r == Err::<(), ForumError>(ForumError::Unauthorized),
    {
        if bytes32_eq(&caller, &self.authority) {
            Ok(())
        } else {
            Err(ForumError::Unauthorized)
        }
    }
}

} // verus!
