use iqkms::address::Address;
use iqkms::Algorithm;
use sha3::Digest;

const CHECKSUMMED: [&str; 8] = [
    "0x27b1fdb04752bbc536007a920d24acb045561c26",
    "0x3599689E6292b81B2d85451025146515070129Bb",
    "0x42712D45473476b98452f434e72461577D686318",
    "0x52908400098527886E0F7030069857D2E4169EE7",
    "0x5aAeb6053F3E94C9b9A09f33669435E7Ef1BeAed",
    "0x6549f4939460DE12611948b3f82b88C3C8975323",
    "0x66f9664f97F2b50F62D13eA064982f936dE76657",
    "0x88021160C5C792225E4E5452585947470010289D",
];

#[test]
fn checksum_encoding() {
    let addr_list = [
        "0x27b1fdb04752bbc536007a920d24acb045561c26",
        "0x3599689E6292b81B2d85451025146515070129Bb",
        "0x42712D45473476b98452f434e72461577D686318",
        "0x52908400098527886E0F7030069857D2E4169EE7",
        "0x5aAeb6053F3E94C9b9A09f33669435E7Ef1BeAed",
        "0x6549f4939460DE12611948b3f82b88C3C8975323",
        "0x66f9664f97F2b50F62D13eA064982f936dE76657",
        "0x88021160C5C792225E4E5452585947470010289D",
    ];

    for checksummed_addr in addr_list {
        let addr = checksummed_addr.parse::<Address>().unwrap();
        assert_eq!(addr.to_checksum(), checksummed_addr);
    }
}

#[test]
fn ethereum_checksum_encoding() {
    for checksummed_addr in CHECKSUMMED {
        let addr = Address::from_str(checksummed_addr).unwrap();
        assert_eq!(addr.to_string(), checksummed_addr);
    }
}

#[test]
fn checksum_from_lower_case_input() {
    let addr = Address::from_str("0x5aaeb6053f3e94c9b9a09f33669435e7ef1beaed").unwrap();
    assert_eq!(addr.to_checksum(), "0x5aAeb6053F3E94C9b9A09f33669435E7Ef1BeAed");
}

#[test]
fn wrongly_cased_input_is_accepted() {
    let addr = Address::from_str("0x5AAEB6053F3E94C9B9A09F33669435E7EF1BEAED").unwrap();
    assert_eq!(addr.to_checksum(), "0x5aAeb6053F3E94C9b9A09f33669435E7Ef1BeAed");
}

#[test]
fn parse_gives_bytes() {
    let addr = Address::from_str("0x52908400098527886E0F7030069857D2E4169EE7").unwrap();
    assert_eq!(
        addr.to_bytes(),
        [
            0x52, 0x90, 0x84, 0x00, 0x09, 0x85, 0x27, 0x88, 0x6e, 0x0f, 0x70, 0x30, 0x06, 0x98,
            0x57, 0xd2, 0xe4, 0x16, 0x9e, 0xe7
        ]
    );
    assert_eq!(addr.as_bytes(), &addr.hash);
    assert_eq!(addr.chain_id, None);
}

#[test]
fn parse_refuses_malformed_text() {
    // no prefix
    assert!(Address::from_str("5aAeb6053F3E94C9b9A09f33669435E7Ef1BeAed").is_err());
    // wrong prefix
    assert!(Address::from_str("0X5aAeb6053F3E94C9b9A09f33669435E7Ef1BeAed").is_err());
    // 39 digits
    assert!(Address::from_str("0x5aAeb6053F3E94C9b9A09f33669435E7Ef1BeAe").is_err());
    // 41 digits
    assert!(Address::from_str("0x5aAeb6053F3E94C9b9A09f33669435E7Ef1BeAedd").is_err());
    // 38 digits
    assert!(Address::from_str("0x5aAeb6053F3E94C9b9A09f33669435E7Ef1BeA").is_err());
    // a non-hex digit
    assert!(Address::from_str("0x5aAeb6053F3E94C9b9A09f33669435E7Ef1BeAeg").is_err());
    // empty
    assert!(Address::from_str("").is_err());
    assert!(Address::from_str("0x").is_err());
}

#[test]
fn chain_id_changes_only_the_case() {
    let mut addr = Address::from_str("0x5aAeb6053F3E94C9b9A09f33669435E7Ef1BeAed").unwrap();
    assert_eq!(addr.to_string(), addr.to_checksum());
    addr.chain_id = Some(30);
    let with_chain = addr.to_string();
    assert_eq!(with_chain.len(), 42);
    assert_eq!(with_chain.to_lowercase(), "0x5aaeb6053f3e94c9b9a09f33669435e7ef1beaed");
    assert_ne!(with_chain, addr.to_checksum());
    // EIP-55 form ignores the chain ID
    assert_eq!(addr.to_checksum(), "0x5aAeb6053F3E94C9b9A09f33669435E7Ef1BeAed");
    // the checksum text reads back as the same bytes
    let back = Address::from_str(&with_chain).unwrap();
    assert_eq!(back.hash, addr.hash);
}

#[test]
fn address_of_generator_point() {
    // public key of the secret scalar 1: the secp256k1 generator
    let mut point = vec![4u8];
    point.extend_from_slice(&[
        0x79, 0xbe, 0x66, 0x7e, 0xf9, 0xdc, 0xbb, 0xac, 0x55, 0xa0, 0x62, 0x95, 0xce, 0x87, 0x0b,
        0x07, 0x02, 0x9b, 0xfc, 0xdb, 0x2d, 0xce, 0x28, 0xd9, 0x59, 0xf2, 0x81, 0x5b, 0x16, 0xf8,
        0x17, 0x98,
    ]);
    point.extend_from_slice(&[
        0x48, 0x3a, 0xda, 0x77, 0x26, 0xa3, 0xc4, 0x65, 0x5d, 0xa4, 0xfb, 0xfc, 0x0e, 0x11, 0x08,
        0xa8, 0xfd, 0x17, 0xb4, 0x48, 0xa6, 0x85, 0x54, 0x19, 0x9c, 0x47, 0xd0, 0x8f, 0xfb, 0x10,
        0xd4, 0xb8,
    ]);
    let addr = Address::from_public_key(&point).unwrap();
    assert_eq!(addr.to_checksum(), "0x7E5F4552091A69125d5DfCb7b8C2659029395Bdf");
    assert_eq!(addr.chain_id, None);
}

#[test]
fn address_of_other_encodings_is_refused() {
    let mut compressed = vec![2u8];
    compressed.extend_from_slice(&[7u8; 32]);
    assert!(Address::from_public_key(&compressed).is_err());
    let mut wrong_tag = vec![3u8];
    wrong_tag.extend_from_slice(&[7u8; 64]);
    assert!(Address::from_public_key(&wrong_tag).is_err());
    let mut short = vec![4u8];
    short.extend_from_slice(&[7u8; 63]);
    assert!(Address::from_public_key(&short).is_err());
    assert!(Address::from_public_key(&[]).is_err());
}

#[test]
fn algorithm_is_ecdsa() {
    assert!(Algorithm::EcdsaSecp256k1.is_ecdsa());
    assert!(Algorithm::EcdsaNistP256.is_ecdsa());
    assert!(Algorithm::EcdsaNistP384.is_ecdsa());
    assert!(!Algorithm::Ed25519.is_ecdsa());
}

/// The checksum computed afresh from its definition, for comparison.
fn checksum_by_definition(lower_hex: &str, chain_id: Option<u64>) -> String {
    let input = match chain_id {
        Some(id) => format!("{}0x{}", id, lower_hex),
        None => lower_hex.to_string(),
    };
    let hash = sha3::Keccak256::digest(input.as_bytes());
    let mut out = String::from("0x");
    for (i, c) in lower_hex.chars().enumerate() {
        let byte = hash[i / 2];
        let nibble = if i % 2 == 0 { byte >> 4 } else { byte & 0x0f };
        out.push(if nibble >= 8 { c.to_ascii_uppercase() } else { c });
    }
    out
}

#[test]
fn chain_checksum_follows_eip1191() {
    let lower = "5aaeb6053f3e94c9b9a09f33669435e7ef1beaed";
    for chain_id in [1u64, 30, 31, 2018, 9_999_999_999, u64::MAX] {
        let mut addr = Address::from_str(&format!("0x{}", lower)).unwrap();
        addr.chain_id = Some(chain_id);
        assert_eq!(addr.to_string(), checksum_by_definition(lower, Some(chain_id)));
    }
    for text in CHECKSUMMED {
        let lower_hex = text[2..].to_lowercase();
        assert_eq!(checksum_by_definition(&lower_hex, None), text);
    }
}
