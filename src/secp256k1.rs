//! ECDSA/secp256k1 keys. The curve arithmetic comes from the k256 crate; the
//! key holds its secret scalar and the public key worked out from it.
use vstd::prelude::*;

use crate::address::is_uncompressed_point;
use crate::error::Error;
use crate::primitives::candidate_view;
use crate::scalar::{is_scalar, is_valid_scalar};

verus! {

/// Length in bytes of a secret scalar and of a prehash.
pub const SCALAR_LENGTH: usize = 32;

/// Length in bytes of an `r || s` signature.
pub const SIGNATURE_LENGTH: usize = 64;

/// The SEC1 uncompressed encoding of the public key of a secret scalar.
pub uninterp spec fn public_key_of(scalar: Seq<u8>) -> Seq<u8>;

/// The deterministic (RFC 6979) ECDSA signature `r || s` of a prehash under a
/// secret scalar, where the signing primitive gives one.
pub uninterp spec fn signature_of(scalar: Seq<u8>, prehash: Seq<u8>) -> Option<Seq<u8>>;

/// The public key (SEC1, uncompressed) that ECDSA public-key recovery gives
/// for a prehash, a signature `r || s` and a recovery id, where it gives one.
pub uninterp spec fn recovered_key_of(prehash: Seq<u8>, signature: Seq<u8>, recovery_id: u8) -> Option<
    Seq<u8>,
>;

/// Relies on `k256::ecdsa::SigningKey::from_slice`, which accepts 32 bytes
/// whose big-endian value is in `[1, n - 1]`, and on
/// `VerifyingKey::to_encoded_point(false)`: the uncompressed SEC1 encoding
/// `4 || x || y` of the (never infinite) public point.
#[verifier::external_body]
fn derive_public_key(scalar: &[u8]) -> (r: Vec<u8>)
    requires
        is_scalar(scalar@),
    ensures
        r@ == public_key_of(scalar@),
        r@.len() == 65,
        r@[0] == 4,
{
    match k256::ecdsa::SigningKey::from_slice(scalar) {
        Ok(key) => key.verifying_key().to_encoded_point(false).as_bytes().to_vec(),
        Err(_) => Vec::new(),
    }
}

/// Relies on k256's `PrehashSigner<Signature>` for `SigningKey`:
/// deterministic (RFC 6979) signing of a 32-byte prehash, normalized to low
/// `s`, which fails only in the degenerate cases of a zero nonce inverse, `r`
/// or `s`; `Signature::to_bytes` gives `r || s`, 32 bytes each.
#[verifier::external_body]
fn sign_with_scalar(scalar: &[u8], prehash: &[u8]) -> (r: Option<Vec<u8>>)
    requires
        is_scalar(scalar@),
        prehash@.len() == SCALAR_LENGTH,
    ensures
        candidate_view(r) == signature_of(scalar@, prehash@),
        r matches Some(sig) ==> sig@.len() == SIGNATURE_LENGTH,
{
    let key = k256::ecdsa::SigningKey::from_slice(scalar).ok()?;
    let signed: Result<k256::ecdsa::Signature, _> =
        k256::ecdsa::signature::hazmat::PrehashSigner::sign_prehash(&key, prehash);
    Some(signed.ok()?.to_bytes().to_vec())
}

/// Relies on `k256::ecdsa::Signature::from_slice`, `RecoveryId::from_byte`
/// and `VerifyingKey::recover_from_prehash`: the key recovered from a
/// prehash, a signature and a recovery id, SEC1-encoded uncompressed.
#[verifier::external_body]
pub(crate) fn recover_verifying_key(prehash: &[u8], signature: &[u8], recovery_id: u8) -> (r:
    Option<Vec<u8>>)
    ensures
        candidate_view(r) == recovered_key_of(prehash@, signature@, recovery_id),
{
    let sig = k256::ecdsa::Signature::from_slice(signature).ok()?;
    let id = k256::ecdsa::RecoveryId::from_byte(recovery_id)?;
    let key = k256::ecdsa::VerifyingKey::recover_from_prehash(prehash, &sig, id).ok()?;
    Some(key.to_encoded_point(false).as_bytes().to_vec())
}

/// ECDSA/secp256k1 signing key: a secret scalar in `[1, n - 1]` and its
/// public key, worked out once when the key is made.
pub struct SigningKey {
    scalar: Vec<u8>,
    verifying_key: Vec<u8>,
}

impl SigningKey {
    /// The key's invariant: a scalar in range, and its public key, which is
    /// an uncompressed point.
    #[verifier::type_invariant]
    spec fn inv(self) -> bool {
        &&& is_scalar(self.scalar@)
        &&& self.verifying_key@ == public_key_of(self.scalar@)
        &&& self.verifying_key@.len() == 65
        &&& self.verifying_key@[0] == 4
    }

    /// The secret scalar, big-endian.
    pub closed spec fn scalar(&self) -> Seq<u8> {
        self.scalar@
    }

    /// The SEC1 uncompressed encoding of the public key.
    pub open spec fn public_key(&self) -> Seq<u8> {
        public_key_of(self.scalar())
    }

    /// The key for a raw scalar: 32 bytes, big-endian, in `[1, n - 1]`.
    /// Other bytes are refused.
    pub fn from_bytes(bytes: &[u8]) -> (r: Result<Self, Error>)
        ensures
            r is Ok <==> is_scalar(bytes@),
            r matches Ok(k) ==> k.scalar() == bytes@,
            r matches Ok(k) ==> is_uncompressed_point(k.public_key()),
    {
        if !is_valid_scalar(bytes) {
            return Err(Error);
        }
        let verifying_key = derive_public_key(bytes);
        Ok(SigningKey { scalar: vstd::slice::slice_to_vec(bytes), verifying_key })
    }

    /// The verifying key that corresponds to this signing key.
    pub fn verifying_key(&self) -> (r: Vec<u8>)
        ensures
            r@ == self.public_key(),
            is_uncompressed_point(r@),
    {
        proof {
            use_type_invariant(self);
        }
        self.verifying_key.clone()
    }

    /// Signs a prehash, which must be 32 bytes long: the result is the
    /// signature that the primitive gives for this key's scalar, and an error
    /// where it gives none.
    pub fn sign_prehash(&self, prehash: &[u8]) -> (r: Result<Vec<u8>, Error>)
        ensures
            prehash@.len() != SCALAR_LENGTH ==> r is Err,
            prehash@.len() == SCALAR_LENGTH ==> (r is Ok <==> signature_of(
                self.scalar(),
                prehash@,
            ) is Some),
            r matches Ok(sig) ==> signature_of(self.scalar(), prehash@) == Some(sig@)
                && sig@.len() == SIGNATURE_LENGTH,
    {
        proof {
            use_type_invariant(self);
        }
        if prehash.len() != SCALAR_LENGTH {
            return Err(Error);
        }
        match sign_with_scalar(self.scalar.as_slice(), prehash) {
            Some(sig) => Ok(sig),
            None => Err(Error),
        }
    }
}

} // verus!
