//! The 128-bit Blake2 hash that turns an encoded payload into DNA.
use vstd::prelude::*;

verus! {

/// The 16-byte Blake2b digest of `data`.
pub uninterp spec fn blake2_128_of(data: Seq<u8>) -> [u8; 16];

/// Relies on sp_io::hashing::blake2_128: a Blake2b hash of 16 bytes, a function
/// of the input bytes alone.
#[verifier::external_body]
pub(crate) fn blake2_128(data: &Vec<u8>) -> (r: [u8; 16])
    ensures
        r == blake2_128_of(data@),
{
    sp_io::hashing::blake2_128(data.as_slice())
}

} // verus!
