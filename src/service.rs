//! The signing service: a request/response router over the keyring.
use vstd::prelude::*;

use crate::address::Address;
use crate::error::Error;
use crate::keyring::Keyring;
use crate::secp256k1::{signature_of, SCALAR_LENGTH, SIGNATURE_LENGTH};
use crate::signing_key::{SigningKey, VerifyingKey};

verus! {

/// Handle to a key in the signing keyring.
#[derive(Clone, Copy, Debug, Eq, Hash, PartialEq, PartialOrd, Ord)]
pub enum KeyHandle {
    /// Key identified by its Ethereum address, e.g.
    /// `0x27b1fdb04752bbc536007a920d24acb045561c26`.
    Ethereum(Address),
}

/// Requests to the signing service.
#[derive(Clone, Debug, PartialEq, Eq)]
pub enum Request {
    /// Sign the provided prehash.
    SignPrehash {
        /// Handle to the signing key.
        key_handle: KeyHandle,
        /// Message prehash to be signed.
        prehash: Vec<u8>,
    },
}

/// Responses from the signing service.
#[derive(Debug)]
pub enum Response {
    /// A signature over a prehash.
    SignPrehash {
        /// Verifying key of the key that signed.
        verifying_key: VerifyingKey,
        /// Algorithm-specific signature, as bytes.
        signature: Vec<u8>,
    },
}

/// Service which controls access to the signing keyring. It does not change
/// the keyring while serving, so that it can be shared by any number of
/// callers at once.
pub struct SigningService {
    keyring: Keyring,
}

impl SigningService {
    /// The keyring that the service signs with.
    pub closed spec fn keyring(&self) -> Keyring {
        self.keyring
    }

    /// The service's invariant: that of its keyring.
    pub open spec fn wf(&self) -> bool {
        self.keyring().wf()
    }

    /// The key that a handle names, if the keyring holds it.
    pub open spec fn key_for(&self, key_handle: KeyHandle) -> Option<SigningKey> {
        self.keyring().key_for(key_handle)
    }

    /// What holds of a response to a request to sign `prehash` with the key
    /// named by `key_handle`: the key exists, the prehash is 32 bytes, the
    /// verifying key is that of the key, and the signature is the key's own
    /// signature of the prehash.
    pub open spec fn is_response(
        &self,
        key_handle: KeyHandle,
        prehash: Seq<u8>,
        response: Response,
    ) -> bool {
        match response {
            Response::SignPrehash { verifying_key, signature } => {
                &&& self.key_for(key_handle) matches Some(k)
                &&& verifying_key@ == k.public_key()
                &&& prehash.len() == SCALAR_LENGTH
                &&& signature@.len() == SIGNATURE_LENGTH
                &&& signature_of(k.scalar(), prehash) == Some(signature@)
            },
        }
    }

    /// Whether a request to sign `prehash` with the key named by
    /// `key_handle` succeeds: the key exists, the prehash is 32 bytes, and the
    /// signing primitive gives a signature for them.
    pub open spec fn can_sign(&self, key_handle: KeyHandle, prehash: Seq<u8>) -> bool {
        &&& self.key_for(key_handle) matches Some(k)
        &&& prehash.len() == SCALAR_LENGTH
        &&& signature_of(k.scalar(), prehash) is Some
    }

    /// A service with an empty keyring.
    pub fn new() -> (r: Self)
        ensures
            r.wf(),
            r.keyring().keys().len() == 0,
            forall|h: KeyHandle| #[trigger] r.key_for(h) is None,
    {
        SigningService { keyring: Keyring::new() }
    }

    /// A service over a keyring populated beforehand.
    pub fn from_keyring(keyring: Keyring) -> (r: Self)
        requires
            keyring.wf(),
        ensures
            r.wf(),
            r.keyring() == keyring,
    {
        SigningService { keyring }
    }

    /// Whether the keyring holds the key that a handle names.
    pub fn has_key(&self, key_handle: &KeyHandle) -> (r: bool)
        requires
            self.wf(),
        ensures
            r == self.key_for(*key_handle) is Some,
    {
        self.keyring.find_by_handle(key_handle).is_ok()
    }

    /// Signs the given prehash using the key with the given handle. Fails
    /// exactly where the keyring has no such key, where the prehash is not
    /// 32 bytes long, or where the signing primitive gives no signature; the
    /// error does not say which.
    pub fn sign_prehash(&self, key_handle: &KeyHandle, prehash: &[u8]) -> (r: Result<
        Response,
        Error,
    >)
        requires
            self.wf(),
        ensures
            r is Ok <==> self.can_sign(*key_handle, prehash@),
            r matches Ok(resp) ==> self.is_response(*key_handle, prehash@, resp),
    {
        let signing_key = match self.keyring.find_by_handle(key_handle) {
            Ok(k) => k,
            Err(e) => return Err(e),
        };
        let verifying_key = signing_key.verifying_key();
        let signature = match signing_key.sign_prehash(prehash) {
            Ok(sig) => sig,
            Err(e) => return Err(e),
        };
        Ok(Response::SignPrehash { signature, verifying_key })
    }

    /// Readiness to take a request: always ready, as the service does no
    /// queuing of its own.
    pub fn poll_ready(&self) -> (r: Result<(), Error>)
        ensures
            r is Ok,
    {
        Ok(())
    }

    /// Serves a request. The service is left unchanged.
    pub fn call(&mut self, request: Request) -> (r: Result<Response, Error>)
        requires
            old(self).wf(),
        ensures
            *final(self) == *old(self),
            match request {
                Request::SignPrehash { key_handle, prehash } => {
                    &&& r is Ok <==> old(self).can_sign(key_handle, prehash@)
                    &&& r matches Ok(resp) ==> old(self).is_response(key_handle, prehash@, resp)
                },
            },
    {
        match request {
            Request::SignPrehash { key_handle, prehash } => self.sign_prehash(
                &key_handle,
                prehash.as_slice(),
            ),
        }
    }
}

} // verus!
