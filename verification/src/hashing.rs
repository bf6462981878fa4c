use vstd::prelude::*;

verus! {

/// The Keccak-256 digest of a byte string. The digest itself is computed by
/// an outside crate; the contracts here only use that it is 32 bytes long
/// and a function of the input alone.
pub uninterp spec fn keccak_of(input: Seq<u8>) -> Seq<u8>;

/// Relies on alloy_primitives::keccak256: the Keccak-256 digest of the input
/// bytes, always 32 bytes, determined by the input alone.
#[verifier::external_body]
pub fn keccak256(input: &[u8]) -> (r: Vec<u8>)
    ensures
        r@ == keccak_of(input@),
        r@.len() == 32,
{
    alloy_primitives::keccak256(input).to_vec()
}

} // verus!
