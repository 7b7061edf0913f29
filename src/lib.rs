//! Remote signing service core: an in-memory keyring of secp256k1 keys, a
//! request/response signing service over it, and the Ethereum adapter that
//! turns raw ECDSA signatures into recoverable, chain-bound ones.
//!
//! The elliptic-curve arithmetic and the hash functions come from outside
//! crates (k256, sha3, sha2), behind a few wrappers whose results are named
//! by uninterpreted functions; everything around those calls is verified.
pub mod address;
pub mod algorithm;
pub mod error;
pub mod ethereum;
pub mod keyring;
pub mod primitives;
pub mod scalar;
pub mod secp256k1;
pub mod service;
pub mod signing_key;

pub use crate::address::{Address, ChainId};
pub use crate::algorithm::Algorithm;
pub use crate::error::Error;
pub use crate::ethereum::{RpcService, Signature, SignerService};
pub use crate::keyring::Keyring;
pub use crate::service::{KeyHandle, Request, Response, SigningService};
pub use crate::signing_key::{SigningKey, VerifyingKey};
