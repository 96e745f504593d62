//! The keys that price payloads are signed with.

use vstd::prelude::*;

verus! {

/// The type tag of the keys: `ocwx`.
pub const KEY_TYPE: [u8; 4] = [111u8, 99, 119, 120];

/// A public key.
pub type Public = [u8; 32];

/// A signature.
pub type Signature = [u8; 64];

/// The authority that signs price payloads: sr25519 keys of the type
/// `KEY_TYPE`.
#[derive(Clone, Copy, Debug, PartialEq, Eq)]
pub struct AuthId;

/// Whether `signature` is an sr25519 signature of `message` under the
/// public key `public`.
pub uninterp spec fn sr25519_valid(signature: Seq<u8>, message: Seq<u8>, public: Seq<u8>) -> bool;

/// Calls `sp_io::crypto::sr25519_verify`, after wrapping the two arrays in
/// the types of `sp_core::sr25519`. The answer depends on the three byte
/// strings alone; nothing else is claimed of it.
#[verifier::external_body]
pub(crate) fn sr25519_verify(signature: &Signature, message: &[u8], public: &Public) -> (ok: bool)
    ensures
        ok == sr25519_valid(signature@, message@, public@),
{
    let signature = sp_core::sr25519::Signature::from_raw(*signature);
    let public = sp_core::sr25519::Public::from_raw(*public);
    sp_io::crypto::sr25519_verify(&signature, message, &public)
}

impl AuthId {
    /// Tells whether `signature` signs `message` under `public`.
    pub fn verify(message: &[u8], public: &Public, signature: &Signature) -> (ok: bool)
        ensures
            ok == sr25519_valid(signature@, message@, public@),
    {
        sr25519_verify(signature, message, public)
    }
}

} // verus!
