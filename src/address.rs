//! Ethereum addresses: derivation from a public key, and the EIP-55 / EIP-1191
//! mixed-case checksum text form.
use vstd::prelude::*;

use crate::error::Error;
use crate::primitives::{
    hex_decode, hex_decode_mixed, hex_digit, hex_encode_lower, hex_lower, hex_value, is_hex,
    is_hex_char, keccak256, keccak256_of, nibble, push_char,
};

verus! {

/// Length of an address in bytes.
pub const ADDRESS_LENGTH: usize = 20;

/// EIP-155 chain ID.
pub type ChainId = u64;

/// Ethereum address: the low-order 20 bytes of the Keccak-256 digest of a
/// public key, with an optional chain ID that only the checksum text form
/// (EIP-1191) uses.
#[derive(Clone, Copy, Debug, Eq, Hash, PartialEq, PartialOrd, Ord)]
pub struct Address {
    /// Low-order 20 bytes of the Keccak-256 digest of the public key.
    pub hash: [u8; 20],
    /// Chain ID to use in the EIP-1191 checksum.
    pub chain_id: Option<ChainId>,
}

/// Decimal digits of `n` as ASCII, most significant first, no leading zeros.
pub open spec fn decimal(n: nat) -> Seq<u8>
    decreases n,
{
    if n < 10 {
        seq![(48 + n) as u8]
    } else {
        decimal(n / 10).push((48 + n % 10) as u8)
    }
}

/// The bytes hashed for the checksum: the lower-case hex of the address,
/// preceded by `"<chain_id>0x"` where a chain ID is given.
pub open spec fn checksum_input(hash: Seq<u8>, chain_id: Option<u64>) -> Seq<u8> {
    match chain_id {
        Some(id) => decimal(id as nat) + seq![48u8, 120u8] + hex_lower(hash),
        None => hex_lower(hash),
    }
}

/// The lower-case hex digit `d`, turned upper-case where `upper` holds and it
/// is a letter.
pub open spec fn cased(d: u8, upper: bool) -> char {
    if upper && d >= 97 {
        (d - 32) as u8 as char
    } else {
        d as char
    }
}

/// `"0x"` and the hex digits of `hash`, each upper-cased where the nibble of
/// `digest` at the same position is 8 or more.
pub open spec fn checksum_text(hash: Seq<u8>, digest: Seq<u8>) -> Seq<char> {
    seq!['0', 'x'] + Seq::new(
        2 * hash.len(),
        |i: int| cased(hex_lower(hash)[i], nibble(digest, i) >= 8),
    )
}

/// The mixed-case checksum text of the address bytes `hash` for `chain_id`.
pub open spec fn spec_checksum(hash: Seq<u8>, chain_id: Option<u64>) -> Seq<char> {
    checksum_text(hash, keccak256_of(checksum_input(hash, chain_id)))
}

/// Is `s` the text of an address: `"0x"` and exactly 40 hex digits of any case?
pub open spec fn is_address_text(s: Seq<char>) -> bool {
    &&& s.len() == 42
    &&& s[0] == '0'
    &&& s[1] == 'x'
    &&& is_hex(s.subrange(2, 42))
}

/// Is `p` a SEC1 uncompressed point encoding: the tag 4, then x and y?
pub open spec fn is_uncompressed_point(p: Seq<u8>) -> bool {
    p.len() == 65 && p[0] == 4
}

/// The address bytes of the uncompressed point `p`: the low-order 20 bytes of
/// the Keccak-256 digest of its coordinates.
pub open spec fn address_of_point(p: Seq<u8>) -> Seq<u8> {
    keccak256_of(p.subrange(1, 65)).subrange(12, 32)
}

/// Appends the decimal digits of `n`.
fn push_decimal(n: u64, out: &mut Vec<u8>)
    ensures
        final(out)@ == old(out)@ + decimal(n as nat),
    decreases n,
{
    if n >= 10 {
        push_decimal(n / 10, out);
    }
    out.push((48 + n % 10) as u8);
    assert(final(out)@ =~= old(out)@ + decimal(n as nat));
}

/// Appends every byte of `src`.
fn push_all(out: &mut Vec<u8>, src: &[u8])
    ensures
        final(out)@ == old(out)@ + src@,
{
    let mut i: usize = 0;
    while i < src.len()
        invariant
            i <= src@.len(),
            out@ == old(out)@ + src@.subrange(0, i as int),
        decreases src@.len() - i,
    {
        out.push(src[i]);
        i = i + 1;
        assert(out@ =~= old(out)@ + src@.subrange(0, i as int));
    }
    assert(src@.subrange(0, i as int) =~= src@);
}

/// Copies a 20-byte vector into an array.
fn to_array20(v: &Vec<u8>) -> (r: [u8; 20])
    requires
        v@.len() == 20,
    ensures
        r@ == v@,
{
    let mut a = [0u8; 20];
    let mut i: usize = 0;
    while i < 20
        invariant
            i <= 20,
            v@.len() == 20,
            forall|j: int| 0 <= j < i ==> a@[j] == v@[j],
        decreases 20 - i,
    {
        a[i] = v[i];
        i = i + 1;
    }
    assert(a@ =~= v@);
    a
}

/// The checksum text of `hash` for `chain_id`.
fn checksum_string(hash: &[u8; 20], chain_id: Option<u64>) -> (r: String)
    ensures
        r@ == spec_checksum(hash@, chain_id),
{
    let addr_hex = hex_encode_lower(hash.as_slice());
    let mut input: Vec<u8> = Vec::new();
    match chain_id {
        Some(id) => {
            push_decimal(id, &mut input);
            input.push(48u8);
            input.push(120u8);
        },
        None => {},
    }
    push_all(&mut input, addr_hex.as_slice());
    assert(input@ =~= checksum_input(hash@, chain_id));
    let digest = keccak256(input.as_slice());
    checksum_from_digest(hash, digest.as_slice())
}

/// The checksum text of `hash` given the Keccak-256 digest of its checksum
/// input: `"0x"` and the lower-case hex digits of `hash`, each letter
/// upper-cased where the digest's nibble at the same position is 8 or more.
pub fn checksum_from_digest(hash: &[u8; 20], digest: &[u8]) -> (r: String)
    requires
        digest@.len() == 32,
    ensures
        r@ == checksum_text(hash@, digest@),
{
    let addr_hex = hex_encode_lower(hash.as_slice());
    let ghost text = Seq::new(
        40,
        |i: int| cased(hex_lower(hash@)[i], nibble(digest@, i) >= 8),
    );
    let mut ret = String::new();
    push_char(&mut ret, '0');
    push_char(&mut ret, 'x');
    let mut i: usize = 0;
    while i < 40
        invariant
            i <= 40,
            addr_hex@ == hex_lower(hash@),
            digest@.len() == 32,
            text == Seq::new(40, |k: int| cased(hex_lower(hash@)[k], nibble(digest@, k) >= 8)),
            ret@ == seq!['0', 'x'] + text.subrange(0, i as int),
        decreases 40 - i,
    {
        let c = addr_hex[i];
        let h = digest[i / 2];
        let n = if i % 2 == 0 {
            h / 16
        } else {
            h % 16
        };
        let ch = if n >= 8 && c >= 97 {
            (c - 32) as char
        } else {
            c as char
        };
        assert(c == hex_lower(hash@)[i as int]);
        assert(n == nibble(digest@, i as int));
        assert(ch == text[i as int]);
        push_char(&mut ret, ch);
        i = i + 1;
        assert(ret@ =~= seq!['0', 'x'] + text.subrange(0, i as int));
    }
    assert(text.subrange(0, 40) =~= text);
    assert(checksum_text(hash@, digest@) =~= seq!['0', 'x'] + text);
    ret
}

/// A hex digit, in either case, is read back as the nibble it was made from.
proof fn lemma_cased_digit(n: int, upper: bool)
    requires
        0 <= n < 16,
    ensures
        is_hex_char(cased(hex_digit(n), upper)),
        hex_value(cased(hex_digit(n), upper)) == n,
{
}

/// The checksum text of any 20 address bytes, for any chain ID, is address
/// text, and the bytes that its hex digits stand for are the address bytes:
/// the mixed case is read back as the bytes it encodes.
pub proof fn lemma_checksum_parses_back(hash: Seq<u8>, chain_id: Option<u64>)
    requires
        hash.len() == ADDRESS_LENGTH,
    ensures
        is_address_text(spec_checksum(hash, chain_id)),
        hex_decode(spec_checksum(hash, chain_id).subrange(2, 42)) == hash,
{
    let t = spec_checksum(hash, chain_id);
    let digest = keccak256_of(checksum_input(hash, chain_id));
    let digits = t.subrange(2, 42);
    assert forall|i: int| 0 <= i < 40 implies is_hex_char(#[trigger] digits[i]) && hex_value(
        digits[i],
    ) == nibble(hash, i) by {
        assert(digits[i] == cased(hex_lower(hash)[i], nibble(digest, i) >= 8));
        lemma_cased_digit(nibble(hash, i), nibble(digest, i) >= 8);
    }
    assert forall|j: int| 0 <= j < 20 implies #[trigger] hex_decode(digits)[j] == hash[j] by {
        assert(hex_value(digits[2 * j]) == nibble(hash, 2 * j));
        assert(hex_value(digits[2 * j + 1]) == nibble(hash, 2 * j + 1));
        assert((2 * j) / 2 == j);
        assert((2 * j + 1) / 2 == j);
        assert((2 * j) % 2 == 0);
        assert((2 * j + 1) % 2 == 1);
        let b = hash[j] as int;
        assert(b / 16 * 16 + b % 16 == b);
    }
    assert(hex_decode(digits) =~= hash);
}

impl Address {
    /// The address bytes.
    pub fn as_bytes(&self) -> (r: &[u8; 20])
        ensures
            r@ == self.hash@,
    {
        &self.hash
    }

    /// The address bytes, copied.
    pub fn to_bytes(&self) -> (r: [u8; 20])
        ensures
            r@ == self.hash@,
    {
        self.hash
    }

    /// EIP-55 mixed-case checksum text, whatever the chain ID.
    pub fn to_checksum(&self) -> (r: String)
        ensures
            r@ == spec_checksum(self.hash@, None),
    {
        checksum_string(&self.hash, None)
    }

    /// Checksum text: EIP-1191 where the address has a chain ID, else EIP-55.
    pub fn to_string(&self) -> (r: String)
        ensures
            r@ == spec_checksum(self.hash@, self.chain_id),
    {
        checksum_string(&self.hash, self.chain_id)
    }

    /// Parses `"0x"` followed by exactly 40 hex digits. The case of the digits
    /// is not checked against the checksum.
    pub fn from_str(s: &str) -> (r: Result<Address, Error>)
        ensures
            r is Ok <==> is_address_text(s@),
            r matches Ok(a) ==> a.hash@ == hex_decode(s@.subrange(2, 42)) && a.chain_id is None,
    {
        if s.unicode_len() != 42 {
            return Err(Error);
        }
        if s.get_char(0) != '0' || s.get_char(1) != 'x' {
            return Err(Error);
        }
        let digits = s.substring_char(2, 42);
        match hex_decode_mixed(digits) {
            Some(bytes) => {
                if bytes.len() == ADDRESS_LENGTH {
                    Ok(Address { hash: to_array20(&bytes), chain_id: None })
                } else {
                    Err(Error)
                }
            },
            None => Err(Error),
        }
    }

    /// Derives the address of an uncompressed SEC1 public key encoding; any
    /// other encoding is refused.
    pub fn from_public_key(point: &[u8]) -> (r: Result<Address, Error>)
        ensures
            r is Ok <==> is_uncompressed_point(point@),
            r matches Ok(a) ==> a.hash@ == address_of_point(point@) && a.chain_id is None,
    {
        if point.len() != 65 || point[0] != 4 {
            return Err(Error);
        }
        let mut coordinates: Vec<u8> = Vec::new();
        let mut i: usize = 1;
        while i < 65
            invariant
                1 <= i <= 65,
                point@.len() == 65,
                coordinates@ == point@.subrange(1, i as int),
            decreases 65 - i,
        {
            coordinates.push(point[i]);
            i = i + 1;
            assert(coordinates@ =~= point@.subrange(1, i as int));
        }
        let digest = keccak256(coordinates.as_slice());
        let mut low: Vec<u8> = Vec::new();
        let mut j: usize = 12;
        while j < 32
            invariant
                12 <= j <= 32,
                digest@.len() == 32,
                low@ == digest@.subrange(12, j as int),
            decreases 32 - j,
        {
            low.push(digest[j]);
            j = j + 1;
            assert(low@ =~= digest@.subrange(12, j as int));
        }
        Ok(Address { hash: to_array20(&low), chain_id: None })
    }
}

impl std::str::FromStr for Address {
    type Err = Error;

    fn from_str(s: &str) -> Result<Address, Error> {
        Address::from_str(s)
    }
}

} // verus!
