use vstd::prelude::*;

verus! {

/// Notification emitted after a successful root update. The core produces
/// it; delivery and storage are the host's concern.
#[derive(Clone, Copy, Debug, PartialEq, Eq)]
pub struct MerkleRootUpdated {
    pub new_root: [u8; 32],
    pub content_count: u64,
    pub timestamp: i64,
    pub authority: [u8; 32],
}

/// Notification emitted after a successful membership verification. The
/// `content_hash` field is the content truncated or zero-padded to 32 bytes
/// for reporting only; the cryptographic check uses the full content bytes.
#[derive(Clone, Copy, Debug, PartialEq, Eq)]
pub struct ContentVerified {
    pub content_hash: [u8; 32],
    pub merkle_root: [u8; 32],
    pub index: u32,
    pub verified: bool,
    pub timestamp: i64,
}

} // verus!
