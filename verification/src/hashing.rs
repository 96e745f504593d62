//! The two 128-bit hashes that storage keys and asset DNA are built from.

use vstd::prelude::*;

verus! {

/// The 128-bit Blake2b digest of `data`.
pub uninterp spec fn blake2_128_digest(data: Seq<u8>) -> [u8; 16];

/// The 128-bit XX digest of `data`: two 64-bit XX hashes, seeded 0 and 1,
/// each written little-endian.
pub uninterp spec fn twox_128_digest(data: Seq<u8>) -> [u8; 16];

/// Calls `sp_io::hashing::blake2_128`. The digest depends on the bytes of
/// `data` alone; nothing else is claimed of it.
#[verifier::external_body]
pub(crate) fn blake2_128(data: &[u8]) -> (digest: [u8; 16])
    ensures
        digest == blake2_128_digest(data@),
{
    sp_io::hashing::blake2_128(data)
}

/// Calls `sp_io::hashing::twox_128`. The digest depends on the bytes of
/// `data` alone; nothing else is claimed of it.
#[verifier::external_body]
pub(crate) fn twox_128(data: &[u8]) -> (digest: [u8; 16])
    ensures
        digest == twox_128_digest(data@),
{
    sp_io::hashing::twox_128(data)
}

} // verus!
