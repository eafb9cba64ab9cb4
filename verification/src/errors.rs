use vstd::prelude::*;

verus! {

/// The failure kinds of the commitment subsystem. Every fallible operation
/// reports exactly one of these to its caller; none is process-fatal.
#[derive(Clone, Copy, Debug, PartialEq, Eq)]
pub enum ForumError {
    /// The recomputed root does not match the stored root, or the proof
    /// path is structurally malformed.
    InvalidMerkleProof,
    /// Verification was attempted while the record still holds the all-zero
    /// sentinel root, i.e. before any commitment exists.
    EmptyMerkleRoot,
    /// The proposed content count regresses below the committed count.
    InvalidContentCount,
    /// The caller is not the stored authority.
    Unauthorized,
}

} // verus!
