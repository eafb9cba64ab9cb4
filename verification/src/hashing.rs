use vstd::prelude::*;

verus! {

/// The digest of the configured hash primitive (Keccak-256) on a byte
/// string. The primitive is collision-resistant; its value on given bytes
/// is not stated here, only named.
pub uninterp spec fn keccak_of(bytes: Seq<u8>) -> Seq<u8>;

/// Relies on sha3::Keccak256 through the Digest trait: the digest depends
/// on the input bytes alone and is always 32 bytes long.
#[verifier::external_body]
pub(crate) fn keccak256(bytes: &[u8]) -> (r: Vec<u8>)
    ensures
        r@ == keccak_of(bytes@),
        r@.len() == 32,
{
    <sha3::Keccak256 as sha3::Digest>::digest(bytes).to_vec()
}

} // verus!
