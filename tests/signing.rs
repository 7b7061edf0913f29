use iqkms::address::{checksum_from_digest, Address};
use iqkms::ethereum::{
    eip155_v, recoverable_signature, select_recovery_id, Error as EthError, ErrorCode,
};
use iqkms::scalar::is_valid_scalar;
use iqkms::secp256k1;
use iqkms::signing_key::{generation_step, GenerationStep};
use iqkms::{
    Error, KeyHandle, Keyring, Request, Response, RpcService, SignerService, SigningKey,
    SigningService, VerifyingKey,
};
use k256::ecdsa::signature::hazmat::PrehashSigner;
use sha2::Digest;

fn scalar(seed: u8) -> [u8; 32] {
    let mut s = [0u8; 32];
    s[31] = seed;
    s[0] = seed;
    s
}

fn key(seed: u8) -> SigningKey {
    SigningKey::EcdsaSecp256k1(secp256k1::SigningKey::from_bytes(&scalar(seed)).unwrap())
}

/// The same key, as k256 holds it.
fn k256_key(seed: u8) -> k256::ecdsa::SigningKey {
    k256::ecdsa::SigningKey::from_slice(&scalar(seed)).unwrap()
}

fn k256_signature(seed: u8, prehash: &[u8]) -> Vec<u8> {
    let sig: k256::ecdsa::Signature = k256_key(seed).sign_prehash(prehash).unwrap();
    sig.to_bytes().to_vec()
}

fn k256_recover(prehash: &[u8], sig: &[u8], id: u8) -> Vec<u8> {
    let sig = k256::ecdsa::Signature::from_slice(sig).unwrap();
    let id = k256::ecdsa::RecoveryId::from_byte(id).unwrap();
    let vk = k256::ecdsa::VerifyingKey::recover_from_prehash(prehash, &sig, id).unwrap();
    vk.to_encoded_point(false).as_bytes().to_vec()
}

fn address_of(key: &SigningKey) -> Address {
    Address::from_public_key(key.verifying_key().as_bytes()).unwrap()
}

fn ring(seeds: &[u8]) -> Keyring {
    let mut ring = Keyring::new();
    for seed in seeds {
        ring.add(key(*seed)).unwrap();
    }
    ring
}

fn signer(seeds: &[u8]) -> SignerService {
    SignerService::new(SigningService::from_keyring(ring(seeds)))
}

const DIGEST: [u8; 32] = [
    0x6f, 0xd4, 0x3e, 0x7c, 0xff, 0xc3, 0x1b, 0xb5, 0x81, 0xd7, 0x42, 0x1c, 0x86, 0x98, 0xe2, 0x9a,
    0xa2, 0xbd, 0x8e, 0x71, 0x86, 0xa3, 0x94, 0xb8, 0x52, 0x99, 0x90, 0x8b, 0x4e, 0xb9, 0xb1, 0x75,
];

const ORDER: [u8; 32] = [
    0xff, 0xff, 0xff, 0xff, 0xff, 0xff, 0xff, 0xff, 0xff, 0xff, 0xff, 0xff, 0xff, 0xff, 0xff, 0xfe,
    0xba, 0xae, 0xdc, 0xe6, 0xaf, 0x48, 0xa0, 0x3b, 0xbf, 0xd2, 0x5e, 0x8c, 0xd0, 0x36, 0x41, 0x41,
];

#[test]
fn address_of_secret_scalar_one() {
    let mut one = [0u8; 32];
    one[31] = 1;
    let k = SigningKey::EcdsaSecp256k1(secp256k1::SigningKey::from_bytes(&one).unwrap());
    let vk = k.verifying_key();
    assert_eq!(vk.as_bytes().len(), 65);
    assert_eq!(vk.as_bytes()[0], 4);
    assert_eq!(address_of(&k).to_checksum(), "0x7E5F4552091A69125d5DfCb7b8C2659029395Bdf");
}

#[test]
fn verifying_key_is_that_of_k256() {
    let k = key(9);
    let expected = k256_key(9).verifying_key().to_encoded_point(false).as_bytes().to_vec();
    assert_eq!(k.verifying_key(), VerifyingKey::EcdsaSecp256k1(expected));
}

#[test]
fn keyring_refuses_a_key_twice() {
    let mut ring = Keyring::new();
    assert_eq!(ring.add(key(1)), Ok(()));
    assert_eq!(ring.add(key(1)), Err(Error));
    assert_eq!(ring.len(), 1);
    let found = ring.find_by_eth_address(&address_of(&key(1))).unwrap();
    assert_eq!(found.verifying_key(), key(1).verifying_key());
}

#[test]
fn keyring_finds_each_key_by_address() {
    let ring = ring(&[1, 2, 3]);
    assert_eq!(ring.len(), 3);
    for seed in [1u8, 2, 3] {
        let k = key(seed);
        let found = ring.find_by_eth_address(&address_of(&k)).unwrap();
        assert_eq!(found.verifying_key(), k.verifying_key());
        let by_handle = ring.find_by_handle(&KeyHandle::Ethereum(address_of(&k))).unwrap();
        assert_eq!(by_handle.verifying_key(), k.verifying_key());
    }
}

#[test]
fn keyring_lookup_of_unknown_address_fails() {
    let ring = ring(&[1, 2]);
    assert!(ring.find_by_eth_address(&address_of(&key(9))).is_err());
    let empty = Keyring::new();
    assert!(empty.find_by_eth_address(&address_of(&key(1))).is_err());
}

#[test]
fn keyring_lookup_ignores_chain_id() {
    let ring = ring(&[4]);
    let mut addr = address_of(&key(4));
    addr.chain_id = Some(1);
    assert!(ring.find_by_eth_address(&addr).is_ok());
}

#[test]
fn scalar_range_is_one_to_order_minus_one() {
    let mut below = ORDER;
    below[31] -= 1;
    assert!(is_valid_scalar(&below));
    assert!(!is_valid_scalar(&ORDER));
    let mut above = ORDER;
    above[31] += 1;
    assert!(!is_valid_scalar(&above));
    assert!(!is_valid_scalar(&[0xffu8; 32]));
    assert!(!is_valid_scalar(&[0u8; 32]));
    let mut one = [0u8; 32];
    one[31] = 1;
    assert!(is_valid_scalar(&one));
    let mut high = [0u8; 32];
    high[0] = 0xff;
    assert!(is_valid_scalar(&high));
    let mut limb_boundary = ORDER;
    limb_boundary[15] = 0xff;
    limb_boundary[16] = 0;
    assert!(!is_valid_scalar(&limb_boundary));
    assert!(!is_valid_scalar(&one[..31]));
}

#[test]
fn keys_outside_the_scalar_range_are_refused() {
    assert!(secp256k1::SigningKey::from_bytes(&ORDER).is_err());
    assert!(secp256k1::SigningKey::from_bytes(&[0xffu8; 32]).is_err());
    assert!(secp256k1::SigningKey::from_bytes(&[0u8; 32]).is_err());
    assert!(secp256k1::SigningKey::from_bytes(&[1u8; 31]).is_err());
    assert!(secp256k1::SigningKey::from_bytes(&[1u8; 33]).is_err());
    let mut below = ORDER;
    below[31] -= 1;
    assert!(secp256k1::SigningKey::from_bytes(&below).is_ok());
}

#[test]
fn sign_prehash_checks_digest_length() {
    let k = key(5);
    assert_eq!(k.sign_prehash(&[0u8; 31]), Err(Error));
    assert_eq!(k.sign_prehash(&[0u8; 33]), Err(Error));
    let sig = k.sign_prehash(&DIGEST).unwrap();
    assert_eq!(sig, k256_signature(5, &DIGEST));
    assert_eq!(sig.len(), 64);
}

#[test]
fn sign_hashes_with_sha256() {
    let k = key(5);
    let msg = b"transfer";
    let digest = sha2::Sha256::digest(msg);
    assert_eq!(k.sign(msg).unwrap(), k256_signature(5, &digest));
}

#[test]
fn generated_key_is_usable() {
    let k = SigningKey::generate_secp256k1().unwrap();
    let vk = k.verifying_key();
    assert_eq!(vk.as_bytes().len(), 65);
    let mut ring = Keyring::new();
    ring.add(k).unwrap();
    let addr = Address::from_public_key(vk.as_bytes()).unwrap();
    let found = ring.find_by_eth_address(&addr).unwrap();
    assert_eq!(found.verifying_key(), vk);
    let sig = found.sign_prehash(&DIGEST).unwrap();
    assert!(k256_recover(&DIGEST, &sig, 0) == vk.as_bytes() || k256_recover(&DIGEST, &sig, 1) == vk.as_bytes());
}

#[test]
fn service_signs_with_the_named_key() {
    let service = SigningService::from_keyring(ring(&[1, 2]));
    let handle = KeyHandle::Ethereum(address_of(&key(2)));
    match service.sign_prehash(&handle, &DIGEST).unwrap() {
        Response::SignPrehash { verifying_key, signature } => {
            assert_eq!(verifying_key, key(2).verifying_key());
            assert_eq!(signature, k256_signature(2, &DIGEST));
        }
    }
    assert!(service.has_key(&handle));
    let unknown = KeyHandle::Ethereum(address_of(&key(3)));
    assert!(!service.has_key(&unknown));
    assert!(service.sign_prehash(&unknown, &DIGEST).is_err());
    assert!(service.sign_prehash(&handle, &DIGEST[..31]).is_err());
}

#[test]
fn service_call_and_readiness() {
    let mut service = SigningService::from_keyring(ring(&[1]));
    assert_eq!(service.poll_ready(), Ok(()));
    let request = Request::SignPrehash {
        key_handle: KeyHandle::Ethereum(address_of(&key(1))),
        prehash: DIGEST.to_vec(),
    };
    match service.call(request).unwrap() {
        Response::SignPrehash { verifying_key, signature } => {
            assert_eq!(verifying_key, key(1).verifying_key());
            assert_eq!(signature, k256_signature(1, &DIGEST));
        }
    }
    let bad = Request::SignPrehash {
        key_handle: KeyHandle::Ethereum(address_of(&key(1))),
        prehash: vec![0u8; 33],
    };
    assert!(service.call(bad).is_err());
    let mut empty = SigningService::new();
    let request = Request::SignPrehash {
        key_handle: KeyHandle::Ethereum(address_of(&key(1))),
        prehash: DIGEST.to_vec(),
    };
    assert!(empty.call(request).is_err());
}

#[test]
fn sign_digest_recovers_the_signer() {
    let service = signer(&[1, 2, 3]);
    for seed in [1u8, 2, 3] {
        let k = key(seed);
        let addr = address_of(&k).to_checksum();
        let sig = service.sign_digest(&addr, &DIGEST).unwrap();
        assert!(sig.v == 27 || sig.v == 28);
        let raw = k256_signature(seed, &DIGEST);
        assert_eq!(sig.r, raw[..32].to_vec());
        assert_eq!(sig.s, raw[32..].to_vec());
        let recovered = k256_recover(&DIGEST, &raw, (sig.v - 27) as u8);
        assert_eq!(VerifyingKey::EcdsaSecp256k1(recovered), k.verifying_key());
        let other = k256_recover(&DIGEST, &raw, (28 - sig.v) as u8);
        assert_ne!(VerifyingKey::EcdsaSecp256k1(other), k.verifying_key());
    }
}

#[test]
fn sign_digest_errors() {
    let service = signer(&[1]);
    let addr = address_of(&key(1)).to_checksum();
    assert_eq!(
        service.sign_digest("0x1234", &DIGEST),
        Err(EthError::AddressMalformed { addr: "0x1234".to_string() })
    );
    assert_eq!(service.sign_digest(&addr, &DIGEST[..31]), Err(EthError::DigestMalformed));
    assert_eq!(service.sign_digest(&addr, &[0u8; 33]), Err(EthError::DigestMalformed));
    let missing = address_of(&key(2)).to_checksum();
    assert_eq!(
        service.sign_digest(&missing, &DIGEST),
        Err(EthError::SigningKeyNotFound { addr: missing.clone() })
    );
}

#[test]
fn sign_digest_with_eip155() {
    let service = signer(&[7]);
    let address = address_of(&key(7)).to_checksum();
    let chain_id = 2018;
    let sig = service.sign_digest_with_eip155(&address, &DIGEST, chain_id).unwrap();
    assert!(sig.v == 4071 || sig.v == 4072);
    let plain = service.sign_digest(&address, &DIGEST).unwrap();
    assert_eq!(sig.v, plain.v - 27 + 4071);
    assert_eq!(sig.r, plain.r);
    assert_eq!(sig.s, plain.s);
}

#[test]
fn eip155_vectors() {
    assert_eq!(eip155_v(1, 27), Some(37));
    assert_eq!(eip155_v(1, 28), Some(38));
    assert_eq!(eip155_v(2018, 27), Some(4071));
    assert_eq!(eip155_v(2018, 28), Some(4072));
}

#[test]
fn eip155_refuses_to_wrap() {
    let largest = (u64::MAX - 35) / 2;
    assert_eq!(eip155_v(largest, 27), Some(u64::MAX));
    assert_eq!(eip155_v(largest, 28), None);
    assert_eq!(eip155_v(largest + 1, 27), None);
    assert_eq!(eip155_v(u64::MAX, 28), None);
    let service = signer(&[7]);
    let address = address_of(&key(7)).to_checksum();
    let r = service.sign_digest_with_eip155(&address, &DIGEST, u64::MAX);
    assert_eq!(
        r,
        Err(EthError::SigningFailed { reason: "chain ID out of range for EIP-155".to_string() })
    );
}

#[test]
fn sign_message_hashes_with_keccak() {
    let service = signer(&[8]);
    let address = address_of(&key(8)).to_checksum();
    let msg = b"hello";
    let digest = sha3::Keccak256::digest(msg);
    let by_message = service.sign_message_with_eip155(&address, msg, 1).unwrap();
    let by_digest = service.sign_digest_with_eip155(&address, &digest, 1).unwrap();
    assert_eq!(by_message, by_digest);
    assert!(by_message.v == 37 || by_message.v == 38);
}

#[test]
fn sequential_signing_is_repeatable() {
    let service = signer(&[1, 2, 3, 4]);
    let addrs: Vec<String> =
        [1u8, 2, 3, 4].iter().map(|s| address_of(&key(*s)).to_checksum()).collect();
    let first: Vec<_> = addrs.iter().map(|a| service.sign_digest(a, &DIGEST).unwrap()).collect();
    let again: Vec<_> =
        addrs.iter().rev().map(|a| service.sign_digest(a, &DIGEST).unwrap()).collect();
    let again: Vec<_> = again.into_iter().rev().collect();
    assert_eq!(first, again);
}

#[test]
fn trial_recovery_picks_the_matching_candidate() {
    let vk = vec![4u8, 1, 2];
    let other = vec![4u8, 9, 9];
    assert_eq!(select_recovery_id(&vk, &Some(vk.clone()), &Some(other.clone())), Some(0));
    assert_eq!(select_recovery_id(&vk, &Some(other.clone()), &Some(vk.clone())), Some(1));
    assert_eq!(select_recovery_id(&vk, &None, &Some(vk.clone())), Some(1));
    assert_eq!(select_recovery_id(&vk, &Some(other.clone()), &None), None);
    assert_eq!(select_recovery_id(&vk, &None, &None), None);
}

#[test]
fn recoverable_signature_splits_and_offsets() {
    let raw: Vec<u8> = (0u8..64).collect();
    let sig = recoverable_signature(&raw, 1);
    assert_eq!(sig.r, (0u8..32).collect::<Vec<u8>>());
    assert_eq!(sig.s, (32u8..64).collect::<Vec<u8>>());
    assert_eq!(sig.v, 28);
    assert_eq!(recoverable_signature(&raw, 0).v, 27);
}

#[test]
fn error_codes() {
    assert_eq!(EthError::AddressMalformed { addr: String::new() }.code(), ErrorCode::InvalidArgument);
    assert_eq!(EthError::DigestMalformed.code(), ErrorCode::InvalidArgument);
    assert_eq!(EthError::SigningKeyNotFound { addr: String::new() }.code(), ErrorCode::NotFound);
    assert_eq!(EthError::SigningFailed { reason: String::new() }.code(), ErrorCode::Internal);
}

#[test]
fn rpc_service_signs_transactions() {
    let service = RpcService::new(ring(&[3]));
    let k = key(3);
    let address = address_of(&k).to_checksum();
    let body = b"tx body";
    assert_eq!(service.sign_tx(&address, body).unwrap(), k.sign(body).unwrap());
    assert_eq!(
        service.sign_tx("nope", body),
        Err(EthError::AddressMalformed { addr: "nope".to_string() })
    );
    let missing = address_of(&key(4)).to_checksum();
    assert_eq!(
        service.sign_tx(&missing, body),
        Err(EthError::SigningKeyNotFound { addr: missing.clone() })
    );
}

#[test]
fn checksum_casing_follows_the_digest() {
    let hash = [0xabu8; 20];
    let all_high = [0xffu8; 32];
    assert_eq!(
        checksum_from_digest(&hash, &all_high),
        "0xABABABABABABABABABABABABABABABABABABABAB"
    );
    let all_low = [0x00u8; 32];
    assert_eq!(
        checksum_from_digest(&hash, &all_low),
        "0xabababababababababababababababababababab"
    );
    let alternating = [0x80u8; 32];
    assert_eq!(
        checksum_from_digest(&hash, &alternating),
        "0xAbAbAbAbAbAbAbAbAbAbAbAbAbAbAbAbAbAbAbAb"
    );
    let digits = [0x12u8; 20];
    assert_eq!(
        checksum_from_digest(&digits, &all_high),
        "0x1212121212121212121212121212121212121212"
    );
}

#[test]
fn generation_step_outcomes() {
    assert!(matches!(generation_step(None), GenerationStep::Failed));
    assert!(matches!(generation_step(Some(ORDER.to_vec())), GenerationStep::Retry));
    assert!(matches!(generation_step(Some(vec![0u8; 32])), GenerationStep::Retry));
    assert!(matches!(generation_step(Some(vec![1u8; 31])), GenerationStep::Retry));
    match generation_step(Some(scalar(6).to_vec())) {
        GenerationStep::Done(k) => {
            assert_eq!(k.verifying_key(), key(6).verifying_key());
            assert_eq!(k.sign_prehash(&DIGEST).unwrap(), k256_signature(6, &DIGEST));
        }
        _ => panic!("an in-range draw is a key"),
    }
}

#[test]
fn eip155_passes_sign_digest_errors_on() {
    let service = signer(&[1]);
    let missing = address_of(&key(2)).to_checksum();
    assert_eq!(
        service.sign_digest_with_eip155(&missing, &DIGEST, 1),
        service.sign_digest(&missing, &DIGEST)
    );
    assert_eq!(
        service.sign_digest_with_eip155("0x12", &DIGEST, 1),
        service.sign_digest("0x12", &DIGEST)
    );
}
