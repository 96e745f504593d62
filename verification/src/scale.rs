//! The byte encodings of the values that are hashed, signed or stored.
//!
//! Fixed-width integers are written little-endian, byte arrays as they are,
//! an optional value as a presence byte followed by the value, and a tuple as
//! its fields one after the other.

use vstd::bytes::*;
use vstd::prelude::*;

verus! {

/// The encoding of an optional `u32`: `0` alone when absent, `1` and the
/// little-endian value when present.
pub open spec fn option_u32_bytes(v: Option<u32>) -> Seq<u8> {
    match v {
        None => seq![0u8],
        Some(n) => seq![1u8] + spec_u32_to_le_bytes(n),
    }
}

/// The bytes a DNA is hashed from: the block's seed, the caller and the index
/// of the extrinsic being run.
pub open spec fn seed_material(seed: Seq<u8>, who: u64, index: Option<u32>) -> Seq<u8> {
    seed + spec_u64_to_le_bytes(who) + option_u32_bytes(index)
}

/// The bytes a price payload is signed over: the price, the signer's public
/// key and the block number.
pub open spec fn payload_bytes(number: u32, public: Seq<u8>, block_number: u64) -> Seq<u8> {
    spec_u32_to_le_bytes(number) + public + spec_u64_to_le_bytes(block_number)
}

/// Calls `parity_scale_codec::Encode::encode` on the tuple
/// `(seed, who, index)`. The codec writes the array as its 32 bytes, the
/// `u64` little-endian, and the option as a presence byte and, where there
/// is a value, its four little-endian bytes, in that order.
#[verifier::external_body]
pub(crate) fn encode_seed_material(seed: &[u8; 32], who: u64, index: Option<u32>) -> (out: Vec<u8>)
    ensures
        out@ == seed_material(seed@, who, index),
{
    parity_scale_codec::Encode::encode(&(seed, who, index))
}

/// Calls `parity_scale_codec::Encode::encode` on the tuple
/// `(number, public, block_number)`. The codec writes the `u32`
/// little-endian, the array as its 32 bytes and the `u64` little-endian, in
/// that order.
#[verifier::external_body]
pub(crate) fn encode_payload(number: u32, public: &[u8; 32], block_number: u64) -> (out: Vec<u8>)
    ensures
        out@ == payload_bytes(number, public@, block_number),
{
    parity_scale_codec::Encode::encode(&(number, public, block_number))
}

/// Calls `parity_scale_codec::Encode::encode` on a `u64`, which the codec
/// writes as eight little-endian bytes.
#[verifier::external_body]
pub(crate) fn encode_u64(n: u64) -> (out: Vec<u8>)
    ensures
        out@ == spec_u64_to_le_bytes(n),
{
    parity_scale_codec::Encode::encode(&n)
}

/// Whether two byte strings are the same.
pub fn bytes_eq(a: &[u8], b: &[u8]) -> (r: bool)
    ensures
        r == (a@ == b@),
{
    if a.len() != b.len() {
        return false;
    }
    let mut i: usize = 0;
    while i < a.len()
        invariant
            a@.len() == b@.len(),
            0 <= i <= a@.len(),
            forall|k: int| 0 <= k < i ==> a@[k] == b@[k],
        decreases a@.len() - i,
    {
        if a[i] != b[i] {
            return false;
        }
        i = i + 1;
    }
    assert(a@ =~= b@);
    true
}

/// A copy of a byte string.
pub fn copy_bytes(a: &[u8]) -> (r: Vec<u8>)
    ensures
        r@ == a@,
{
    vstd::slice::slice_to_vec(a)
}

/// Appends `tail` to `out`.
pub fn append_bytes(out: &mut Vec<u8>, tail: &[u8])
    ensures
        final(out)@ == old(out)@ + tail@,
{
    let mut i: usize = 0;
    while i < tail.len()
        invariant
            0 <= i <= tail@.len(),
            out@ == old(out)@ + tail@.take(i as int),
        decreases tail@.len() - i,
    {
        out.push(tail[i]);
        assert(tail@.take(i + 1) =~= tail@.take(i as int).push(tail@[i as int]));
        assert(out@ =~= old(out)@ + tail@.take(i + 1));
        i = i + 1;
    }
    assert(tail@.take(i as int) =~= tail@);
}

} // verus!
