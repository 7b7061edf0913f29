//! Algorithm-tagged signing and verifying keys.
use vstd::prelude::*;

use crate::address::is_uncompressed_point;
use crate::error::Error;
use crate::primitives::{random_32_bytes, sha256, sha256_of};
use crate::scalar::is_scalar;
use crate::secp256k1::{self, public_key_of, signature_of, SCALAR_LENGTH, SIGNATURE_LENGTH};

verus! {

/// How many 32-byte draws key generation makes before it gives up.
pub const GENERATE_ATTEMPTS: u32 = 128;

/// Verifying key: the public counterpart of a [`SigningKey`]. Equality and
/// order are those of the encoded point.
#[derive(Clone, Debug, Eq, Hash, PartialEq, PartialOrd, Ord)]
pub enum VerifyingKey {
    /// ECDSA/secp256k1, SEC1-encoded.
    EcdsaSecp256k1(Vec<u8>),
}

impl View for VerifyingKey {
    type V = Seq<u8>;

    open spec fn view(&self) -> Seq<u8> {
        match self {
            VerifyingKey::EcdsaSecp256k1(point) => point@,
        }
    }
}

impl VerifyingKey {
    /// The encoded point.
    pub fn as_bytes(&self) -> (r: &[u8])
        ensures
            r@ == self@,
    {
        match self {
            VerifyingKey::EcdsaSecp256k1(point) => point.as_slice(),
        }
    }
}

/// What key generation does with one draw of random bytes.
pub enum GenerationStep {
    /// The random source failed: give up.
    Failed,
    /// The draw is not a scalar in `[1, n - 1]`: draw again.
    Retry,
    /// The draw is a scalar: this is the key.
    Done(SigningKey),
}

/// One step of key generation, for one draw (`None` where the random source
/// failed): a draw that is a scalar in `[1, n - 1]` becomes the key with
/// exactly that scalar; any other draw is rejected as it is.
pub fn generation_step(draw: Option<Vec<u8>>) -> (r: GenerationStep)
    ensures
        draw is None ==> r is Failed,
        draw matches Some(b) ==> (is_scalar(b@) <==> r is Done) && (!is_scalar(b@) <==> r is Retry),
        r matches GenerationStep::Done(k) ==> draw matches Some(b) && k is EcdsaSecp256k1
            && k.scalar() == b@ && k.public_key() == public_key_of(b@) && is_uncompressed_point(
            k.public_key(),
        ),
{
    match draw {
        None => GenerationStep::Failed,
        Some(bytes) => match secp256k1::SigningKey::from_bytes(bytes.as_slice()) {
            Ok(key) => GenerationStep::Done(SigningKey::EcdsaSecp256k1(key)),
            Err(_) => GenerationStep::Retry,
        },
    }
}

/// Signing key: owns the private key material for one algorithm.
pub enum SigningKey {
    /// ECDSA/secp256k1.
    EcdsaSecp256k1(secp256k1::SigningKey),
}

impl SigningKey {
    /// The secret scalar.
    pub open spec fn scalar(&self) -> Seq<u8> {
        match self {
            SigningKey::EcdsaSecp256k1(key) => key.scalar(),
        }
    }

    /// The encoding of the public key.
    pub open spec fn public_key(&self) -> Seq<u8> {
        match self {
            SigningKey::EcdsaSecp256k1(key) => key.public_key(),
        }
    }

    /// Generates a random ECDSA/secp256k1 key: draws 32 bytes from the
    /// operating system and takes each draw through [`generation_step`],
    /// which keeps the first draw that is a scalar in `[1, n - 1]` as it is
    /// and rejects the others, never reducing them. Fails where the random
    /// source fails. The loop is bounded, so that it is known to end: after
    /// [`GENERATE_ATTEMPTS`] rejected draws it fails too, which happens with
    /// probability below `2^-16000` (a draw is rejected with probability
    /// below `2^-127`).
    pub fn generate_secp256k1() -> (r: Result<Self, Error>)
        ensures
            r matches Ok(k) ==> k is EcdsaSecp256k1 && is_scalar(k.scalar()) && k.public_key()
                == public_key_of(k.scalar()) && is_uncompressed_point(k.public_key()),
    {
        let mut attempt: u32 = 0;
        while attempt < GENERATE_ATTEMPTS
            decreases GENERATE_ATTEMPTS - attempt,
        {
            match generation_step(random_32_bytes()) {
                GenerationStep::Failed => return Err(Error),
                GenerationStep::Retry => {},
                GenerationStep::Done(key) => return Ok(key),
            }
            attempt = attempt + 1;
        }
        Err(Error)
    }

    /// Signs the SHA-256 digest of `msg`.
    pub fn sign(&self, msg: &[u8]) -> (r: Result<Vec<u8>, Error>)
        ensures
            r is Ok <==> signature_of(self.scalar(), sha256_of(msg@)) is Some,
            r matches Ok(sig) ==> signature_of(self.scalar(), sha256_of(msg@)) == Some(sig@)
                && sig@.len() == SIGNATURE_LENGTH,
    {
        let digest = sha256(msg);
        self.sign_prehash(digest.as_slice())
    }

    /// Signs a prehashed message digest, which must be 32 bytes long.
    pub fn sign_prehash(&self, msg_digest: &[u8]) -> (r: Result<Vec<u8>, Error>)
        ensures
            msg_digest@.len() != SCALAR_LENGTH ==> r is Err,
            msg_digest@.len() == SCALAR_LENGTH ==> (r is Ok <==> signature_of(
                self.scalar(),
                msg_digest@,
            ) is Some),
            r matches Ok(sig) ==> signature_of(self.scalar(), msg_digest@) == Some(sig@)
                && sig@.len() == SIGNATURE_LENGTH,
    {
        match self {
            SigningKey::EcdsaSecp256k1(key) => key.sign_prehash(msg_digest),
        }
    }

    /// The [`VerifyingKey`] that corresponds to this signing key.
    pub fn verifying_key(&self) -> (r: VerifyingKey)
        ensures
            r@ == self.public_key(),
            is_uncompressed_point(r@),
    {
        match self {
            SigningKey::EcdsaSecp256k1(key) => VerifyingKey::EcdsaSecp256k1(key.verifying_key()),
        }
    }
}

} // verus!
