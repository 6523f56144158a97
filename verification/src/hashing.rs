use vstd::prelude::*;

verus! {

/// The Keccak-256 digest of a byte string, as `sha3::Keccak256` computes it.
///
/// The digest is a function of the input bytes alone, so the value is given
/// a name here rather than a definition; the only further fact assumed of it
/// is its 32-byte width, stated at the wrapper below.
pub uninterp spec fn keccak256_of(input: Seq<u8>) -> Seq<u8>;

/// Relies on `sha3::Keccak256` through `digest::Digest::digest`: the
/// Keccak-256 digest depends on the input bytes alone, and its output size
/// is fixed at 32 bytes (`Keccak256` is declared with output length `U32`).
#[verifier::external_body]
pub(crate) fn keccak256(input: &Vec<u8>) -> (digest: Vec<u8>)
    ensures
        digest@ == keccak256_of(input@),
        digest@.len() == 32,
{
    let out = <sha3::Keccak256 as sha3::Digest>::digest(input.as_slice());
    out.to_vec()
}

} // verus!
