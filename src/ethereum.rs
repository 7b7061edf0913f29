//! Ethereum adapter: recoverable signatures and EIP-155 chain binding over the
//! signing service.
use vstd::prelude::*;

use crate::address::{is_address_text, Address, ChainId};
use crate::keyring::Keyring;
use crate::primitives::{bytes_equal, hex_decode, keccak256, keccak256_of, sha256_of};
use crate::primitives::candidate_view;
use crate::secp256k1::{recover_verifying_key, recovered_key_of, signature_of, SCALAR_LENGTH, SIGNATURE_LENGTH};
use crate::service::{KeyHandle, Response, SigningService};
use crate::signing_key::SigningKey;

verus! {

/// Offset that turns a recovery id into the pre-EIP-155 `v`.
pub const V_OFFSET: u64 = 27;

/// Status code of an error, for the transport that reports it.
#[derive(Clone, Copy, Debug, PartialEq, Eq, Structural)]
pub enum ErrorCode {
    /// The request was malformed.
    InvalidArgument,
    /// The requested key does not exist.
    NotFound,
    /// The service failed.
    Internal,
}

/// Errors of the Ethereum adapter. Unlike the signing layer's, these carry
/// detail that the caller already knows, such as the address it sent.
#[derive(Clone, Debug, Eq, PartialEq)]
pub enum Error {
    /// Malformed Ethereum address.
    AddressMalformed {
        /// Requested address.
        addr: String,
    },
    /// Malformed Keccak-256 digest.
    DigestMalformed,
    /// Signing key not found.
    SigningKeyNotFound {
        /// Requested address.
        addr: String,
    },
    /// Signing operation failed.
    SigningFailed {
        /// Reason why the signing operation failed.
        reason: String,
    },
}

impl Error {
    /// The status code of each kind of error.
    pub open spec fn spec_code(&self) -> ErrorCode {
        match self {
            Error::AddressMalformed { .. } => ErrorCode::InvalidArgument,
            Error::DigestMalformed => ErrorCode::InvalidArgument,
            Error::SigningKeyNotFound { .. } => ErrorCode::NotFound,
            Error::SigningFailed { .. } => ErrorCode::Internal,
        }
    }

    /// The status code associated with this error.
    pub fn code(&self) -> (r: ErrorCode)
        ensures
            r == self.spec_code(),
    {
        match self {
            Error::AddressMalformed { .. } => ErrorCode::InvalidArgument,
            Error::DigestMalformed => ErrorCode::InvalidArgument,
            Error::SigningKeyNotFound { .. } => ErrorCode::NotFound,
            Error::SigningFailed { .. } => ErrorCode::Internal,
        }
    }
}

/// Recoverable ECDSA signature in Ethereum's form.
#[derive(Clone, Debug, Eq, PartialEq)]
pub struct Signature {
    /// `r`, 32 bytes, big-endian.
    pub r: Vec<u8>,
    /// `s`, 32 bytes, big-endian.
    pub s: Vec<u8>,
    /// Recovery id plus 27, or its EIP-155 form.
    pub v: u64,
}

/// The recovery id whose candidate key is the verifying key: 0 where the
/// first candidate is, else 1 where the second is, else none.
pub open spec fn spec_recovery_id(
    point: Seq<u8>,
    candidate0: Option<Seq<u8>>,
    candidate1: Option<Seq<u8>>,
) -> Option<u8> {
    if candidate0 == Some(point) {
        Some(0)
    } else if candidate1 == Some(point) {
        Some(1)
    } else {
        None
    }
}

/// Trial recovery: picks the recovery id whose recovered key equals the
/// verifying key of the signer.
pub fn select_recovery_id(
    verifying_key: &[u8],
    candidate0: &Option<Vec<u8>>,
    candidate1: &Option<Vec<u8>>,
) -> (r: Option<u8>)
    ensures
        r == spec_recovery_id(
            verifying_key@,
            candidate_view(*candidate0),
            candidate_view(*candidate1),
        ),
{
    if let Some(c) = candidate0 {
        if bytes_equal(c.as_slice(), verifying_key) {
            return Some(0);
        }
    }
    if let Some(c) = candidate1 {
        if bytes_equal(c.as_slice(), verifying_key) {
            return Some(1);
        }
    }
    None
}

/// Trial recovery is sound and complete over its candidates: the id it picks
/// is one whose recovered key is the verifying key, and it picks one
/// whenever either candidate is the verifying key.
pub proof fn lemma_trial_recovery_sound(
    point: Seq<u8>,
    candidate0: Option<Seq<u8>>,
    candidate1: Option<Seq<u8>>,
)
    ensures
        spec_recovery_id(point, candidate0, candidate1) matches Some(id) ==> (id == 0
            && candidate0 == Some(point)) || (id == 1 && candidate1 == Some(point)),
        (candidate0 == Some(point) || candidate1 == Some(point)) ==> spec_recovery_id(
            point,
            candidate0,
            candidate1,
        ) is Some,
{
}

/// Splits `r || s` and encodes the recovery id as `v = recovery_id + 27`.
pub fn recoverable_signature(signature: &[u8], recovery_id: u8) -> (r: Signature)
    requires
        signature@.len() == SIGNATURE_LENGTH,
        recovery_id <= 1,
    ensures
        r.r@ == signature@.subrange(0, 32),
        r.s@ == signature@.subrange(32, 64),
        r.v == recovery_id + V_OFFSET,
{
    let mut r_bytes: Vec<u8> = Vec::new();
    let mut s_bytes: Vec<u8> = Vec::new();
    let mut i: usize = 0;
    while i < 32
        invariant
            i <= 32,
            signature@.len() == SIGNATURE_LENGTH,
            r_bytes@ == signature@.subrange(0, i as int),
            s_bytes@ == signature@.subrange(32, 32 + i),
        decreases 32 - i,
    {
        r_bytes.push(signature[i]);
        s_bytes.push(signature[32 + i]);
        i = i + 1;
        assert(r_bytes@ =~= signature@.subrange(0, i as int));
        assert(s_bytes@ =~= signature@.subrange(32, 32 + i));
    }
    Signature { r: r_bytes, s: s_bytes, v: recovery_id as u64 + V_OFFSET }
}

/// The `v` of a signature whose recovery id is `recovery_id`: the id plus 27,
/// or, bound to a chain, `chain_id * 2 + 35` plus the id (EIP-155).
pub open spec fn v_for(recovery_id: u8, chain_id: Option<u64>) -> int {
    match chain_id {
        None => recovery_id + V_OFFSET,
        Some(c) => c * 2 + 35 + recovery_id,
    }
}

/// The EIP-155 `v` for a chain: `chain_id * 2 + 35 + ((v - 1) mod 2)`.
pub open spec fn spec_eip155_v(chain_id: int, v: int) -> int {
    chain_id * 2 + 35 + (v - 1) % 2
}

/// Re-encodes `v` (27 or 28) for a chain as EIP-155 asks; `None` where the
/// result does not fit in 64 bits.
pub fn eip155_v(chain_id: ChainId, v: u64) -> (r: Option<u64>)
    requires
        v == 27 || v == 28,
    ensures
        spec_eip155_v(chain_id as int, v as int) <= u64::MAX ==> r == Some(
            spec_eip155_v(chain_id as int, v as int) as u64,
        ),
        spec_eip155_v(chain_id as int, v as int) > u64::MAX ==> r is None,
{
    if chain_id > (u64::MAX - 36) / 2 {
        if chain_id == (u64::MAX - 35) / 2 && v == 27 {
            return Some(chain_id * 2 + 35);
        }
        return None;
    }
    Some(chain_id * 2 + 35 + (v - 1) % 2)
}

/// Reason of a `SigningFailed` where the signing primitive or the recovery
/// of the key fails.
pub const SIGNING_FAILED: &'static str = "signing operation failed";

/// Reason of a `SigningFailed` where the EIP-155 `v` does not fit in 64 bits.
pub const CHAIN_ID_OUT_OF_RANGE: &'static str = "chain ID out of range for EIP-155";

/// Is `r` the error `SigningFailed` with this reason?
pub open spec fn is_failure<T>(r: Result<T, Error>, reason: Seq<char>) -> bool {
    r matches Err(Error::SigningFailed { reason: text }) && text@ == reason
}

/// An owned copy of `s`.
fn owned(s: &str) -> (r: String)
    ensures
        r@ == s@,
{
    s.to_owned()
}

/// The error of a failed signing operation.
fn signing_failed() -> (r: Error)
    ensures
        r matches Error::SigningFailed { reason } && reason@ == SIGNING_FAILED@,
{
    Error::SigningFailed { reason: owned(SIGNING_FAILED) }
}

/// Recovery soundness: a signature that the adapter returns recovers to the
/// signer's key. Its `r || s` is the key's own signature of the digest, and
/// with the recovery id that its `v` encodes, recovery gives the public key of
/// the key of the address.
pub proof fn lemma_signature_recovers_signer(
    service: SignerService,
    address: Seq<char>,
    digest: Seq<u8>,
    chain_id: Option<u64>,
    r: Result<Signature, Error>,
)
    requires
        service.is_signing_outcome(address, digest, chain_id, r),
        r is Ok,
    ensures
        service.key_for_text(address) matches Some(k) && exists|id: u8|
            #![trigger recovered_key_of(digest, r->Ok_0.r@ + r->Ok_0.s@, id)]
            (id == 0 || id == 1) && r->Ok_0.v == v_for(id, chain_id) && signature_of(
                k.scalar(),
                digest,
            ) == Some(r->Ok_0.r@ + r->Ok_0.s@) && recovered_key_of(
                digest,
                r->Ok_0.r@ + r->Ok_0.s@,
                id,
            ) == Some(k.public_key()),
{
    let k = service.key_for_text(address)->Some_0;
    let sig = signature_of(k.scalar(), digest)->Some_0;
    let id = spec_recovery_id(
        k.public_key(),
        recovered_key_of(digest, sig, 0),
        recovered_key_of(digest, sig, 1),
    )->Some_0;
    assert(recovered_key_of(digest, r->Ok_0.r@ + r->Ok_0.s@, id) == Some(k.public_key()));
}

/// Signer service: serves Ethereum signing requests from a signing service.
pub struct SignerService {
    signing_service: SigningService,
}

impl SignerService {
    /// The signing service that requests go to.
    pub closed spec fn signing_service(&self) -> SigningService {
        self.signing_service
    }

    /// The service's invariant: that of its signing service.
    pub open spec fn wf(&self) -> bool {
        self.signing_service().wf()
    }

    /// The key for the address text `address`, if the keyring holds it.
    pub open spec fn key_for_text(&self, address: Seq<char>) -> Option<SigningKey> {
        self.signing_service().keyring().lookup(hex_decode(address.subrange(2, 42)))
    }

    /// The result of signing `digest` for the address text `address`,
    /// bound to `chain_id` where one is given. The checks come in this order:
    /// malformed address text, a digest that is not 32 bytes, no key for the
    /// address; each gives its own error. Past them, the key's signature of
    /// the digest is taken, and the recovery id whose recovered key is the
    /// key's own; the result has that signature's `r` and `s`, and `v` for
    /// that id. `SigningFailed` comes where the primitive gives no signature
    /// or neither id recovers the key (reason [`SIGNING_FAILED`]), and where
    /// `v` does not fit in 64 bits (reason [`CHAIN_ID_OUT_OF_RANGE`]).
    pub open spec fn is_signing_outcome(
        &self,
        address: Seq<char>,
        digest: Seq<u8>,
        chain_id: Option<u64>,
        r: Result<Signature, Error>,
    ) -> bool {
        if !is_address_text(address) {
            r matches Err(Error::AddressMalformed { addr }) && addr@ == address
        } else if digest.len() != SCALAR_LENGTH {
            r == Err::<Signature, Error>(Error::DigestMalformed)
        } else {
            match self.key_for_text(address) {
                None => r matches Err(Error::SigningKeyNotFound { addr }) && addr@ == address,
                Some(k) => match signature_of(k.scalar(), digest) {
                    None => is_failure(r, SIGNING_FAILED@),
                    Some(sig) => match spec_recovery_id(
                        k.public_key(),
                        recovered_key_of(digest, sig, 0),
                        recovered_key_of(digest, sig, 1),
                    ) {
                        None => is_failure(r, SIGNING_FAILED@),
                        Some(id) => if v_for(id, chain_id) <= u64::MAX {
                            &&& r matches Ok(out)
                            &&& out.r@.len() == 32
                            &&& out.s@.len() == 32
                            &&& out.r@ + out.s@ == sig
                            &&& out.v == v_for(id, chain_id)
                        } else {
                            is_failure(r, CHAIN_ID_OUT_OF_RANGE@)
                        },
                    },
                },
            }
        }
    }

    /// A service over the given signing service.
    pub fn new(signing_service: SigningService) -> (r: Self)
        requires
            signing_service.wf(),
        ensures
            r.wf(),
            r.signing_service() == signing_service,
    {
        SignerService { signing_service }
    }

    /// Signs a 32-byte digest with the key of the given address, and returns
    /// it as a recoverable signature with `v` equal to 27 or 28.
    pub fn sign_digest(&self, address: &str, digest: &[u8]) -> (r: Result<Signature, Error>)
        requires
            self.wf(),
        ensures
            self.is_signing_outcome(address@, digest@, None, r),
            r matches Ok(sig) ==> sig.v == 27 || sig.v == 28,
    {
        let eth_addr = match Address::from_str(address) {
            Ok(a) => a,
            Err(_) => return Err(Error::AddressMalformed { addr: owned(address) }),
        };
        if digest.len() != SCALAR_LENGTH {
            return Err(Error::DigestMalformed);
        }
        let handle = KeyHandle::Ethereum(eth_addr);
        let (signature, verifying_key) = match self.signing_service.sign_prehash(&handle, digest) {
            Ok(Response::SignPrehash { verifying_key, signature }) => (signature, verifying_key),
            Err(_) => {
                if self.signing_service.has_key(&handle) {
                    return Err(signing_failed());
                } else {
                    return Err(Error::SigningKeyNotFound { addr: owned(address) });
                }
            },
        };
        let candidate0 = recover_verifying_key(digest, signature.as_slice(), 0);
        let candidate1 = recover_verifying_key(digest, signature.as_slice(), 1);
        match select_recovery_id(verifying_key.as_bytes(), &candidate0, &candidate1) {
            Some(id) => {
                let out = recoverable_signature(signature.as_slice(), id);
                assert(out.r@ + out.s@ =~= signature@);
                Ok(out)
            },
            None => Err(signing_failed()),
        }
    }

    /// Signs a digest as `sign_digest` does, then binds the signature to a
    /// chain: `v` becomes `chain_id * 2 + 35` plus the recovery id. Fails,
    /// rather than wrapping, where that does not fit in 64 bits.
    pub fn sign_digest_with_eip155(&self, address: &str, digest: &[u8], chain_id: ChainId) -> (r:
        Result<Signature, Error>)
        requires
            self.wf(),
        ensures
            self.is_signing_outcome(address@, digest@, Some(chain_id), r),
            r matches Ok(sig) ==> sig.v == chain_id * 2 + 35 || sig.v == chain_id * 2 + 36,
            chain_id * 2 + 35 > u64::MAX ==> r is Err,
    {
        let signature = match self.sign_digest(address, digest) {
            Ok(sig) => sig,
            Err(e) => return Err(e),
        };
        match eip155_v(chain_id, signature.v) {
            Some(v) => Ok(Signature { r: signature.r, s: signature.s, v }),
            None => Err(Error::SigningFailed { reason: owned(CHAIN_ID_OUT_OF_RANGE) }),
        }
    }

    /// Hashes `msg` with Keccak-256 and signs the digest as
    /// `sign_digest_with_eip155` does.
    pub fn sign_message_with_eip155(&self, address: &str, msg: &[u8], chain_id: ChainId) -> (r:
        Result<Signature, Error>)
        requires
            self.wf(),
        ensures
            keccak256_of(msg@).len() == SCALAR_LENGTH,
            self.is_signing_outcome(address@, keccak256_of(msg@), Some(chain_id), r),
            r matches Ok(sig) ==> sig.v == chain_id * 2 + 35 || sig.v == chain_id * 2 + 36,
            chain_id * 2 + 35 > u64::MAX ==> r is Err,
    {
        let digest = keccak256(msg);
        self.sign_digest_with_eip155(address, digest.as_slice(), chain_id)
    }
}

/// Transaction-signing service: signs the SHA-256 digest of a transaction
/// body with the key of an address.
pub struct RpcService {
    keyring: Keyring,
}

impl RpcService {
    /// The keyring that the service signs with.
    pub closed spec fn keyring(&self) -> Keyring {
        self.keyring
    }

    /// A service over the given keyring.
    pub fn new(keyring: Keyring) -> (r: Self)
        requires
            keyring.wf(),
        ensures
            r.keyring() == keyring,
    {
        RpcService { keyring }
    }

    /// Signs a transaction body with the key of the given address.
    pub fn sign_tx(&self, address: &str, tx_body: &[u8]) -> (r: Result<Vec<u8>, Error>)
        requires
            self.keyring().wf(),
        ensures
            !is_address_text(address@) ==> (r matches Err(Error::AddressMalformed { addr })
                && addr@ == address@),
            is_address_text(address@) ==> match self.keyring().lookup(
                hex_decode(address@.subrange(2, 42)),
            ) {
                None => r matches Err(Error::SigningKeyNotFound { addr }) && addr@ == address@,
                Some(k) => match signature_of(k.scalar(), sha256_of(tx_body@)) {
                    None => is_failure(r, SIGNING_FAILED@),
                    Some(sig) => r matches Ok(out) && out@ == sig,
                },
            },
    {
        let eth_addr = match Address::from_str(address) {
            Ok(a) => a,
            Err(_) => return Err(Error::AddressMalformed { addr: owned(address) }),
        };
        let signing_key = match self.keyring.find_by_eth_address(&eth_addr) {
            Ok(k) => k,
            Err(_) => return Err(Error::SigningKeyNotFound { addr: owned(address) }),
        };
        match signing_key.sign(tx_body) {
            Ok(sig) => Ok(sig),
            Err(_) => Err(signing_failed()),
        }
    }
}

} // verus!
