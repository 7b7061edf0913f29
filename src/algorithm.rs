use vstd::prelude::*;

verus! {

/// Signature algorithms.
#[derive(Copy, Clone, Debug, Eq, Hash, PartialEq, PartialOrd, Ord)]
#[non_exhaustive]
pub enum Algorithm {
    /// ECDSA with NIST P-256.
    EcdsaNistP256,
    /// ECDSA with NIST P-384.
    EcdsaNistP384,
    /// ECDSA with secp256k1.
    EcdsaSecp256k1,
    /// Ed25519.
    Ed25519,
}

impl Algorithm {
    /// Whether the algorithm is a variant of ECDSA.
    pub open spec fn spec_is_ecdsa(self) -> bool {
        self is EcdsaNistP256 || self is EcdsaNistP384 || self is EcdsaSecp256k1
    }

    /// Is the algorithm ECDSA?
    pub fn is_ecdsa(self) -> (r: bool)
        ensures
            r == self.spec_is_ecdsa(),
    {
        match self {
            Algorithm::EcdsaNistP256 => true,
            Algorithm::EcdsaNistP384 => true,
            Algorithm::EcdsaSecp256k1 => true,
            Algorithm::Ed25519 => false,
        }
    }
}

} // verus!
