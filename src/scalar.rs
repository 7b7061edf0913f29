//! Secret scalars of secp256k1: 32 big-endian bytes whose value lies in
//! `[1, n - 1]`, `n` being the order of the group.
use vstd::prelude::*;

verus! {

/// Limbs of the group order `n`, most significant first.
pub const ORDER_LIMB_0: u64 = 0xFFFF_FFFF_FFFF_FFFF;
/// Second limb of `n`.
pub const ORDER_LIMB_1: u64 = 0xFFFF_FFFF_FFFF_FFFE;
/// Third limb of `n`.
pub const ORDER_LIMB_2: u64 = 0xBAAE_DCE6_AF48_A03B;
/// Least significant limb of `n`.
pub const ORDER_LIMB_3: u64 = 0xBFD2_5E8C_D036_4141;

/// The order `n` of the secp256k1 group,
/// `0xFFFFFFFF_FFFFFFFF_FFFFFFFF_FFFFFFFE_BAAEDCE6_AF48A03B_BFD25E8C_D0364141`.
pub open spec fn curve_order() -> nat {
    let hi: nat = 0xFFFF_FFFF_FFFF_FFFF_FFFF_FFFF_FFFF_FFFE;
    let lo: nat = 0xBAAE_DCE6_AF48_A03B_BFD2_5E8C_D036_4141;
    hi * 0x1_0000_0000_0000_0000_0000_0000_0000_0000 + lo
}

/// `256` to the power `n`.
pub open spec fn pow256(n: nat) -> nat
    decreases n,
{
    if n == 0 {
        1
    } else {
        256 * pow256((n - 1) as nat)
    }
}

/// The value of `b` read as a big-endian unsigned integer.
pub open spec fn be_value(b: Seq<u8>) -> nat
    decreases b.len(),
{
    if b.len() == 0 {
        0
    } else {
        be_value(b.drop_last()) * 256 + b.last() as nat
    }
}

/// Is `b` a secret scalar: 32 bytes whose big-endian value is in `[1, n - 1]`?
pub open spec fn is_scalar(b: Seq<u8>) -> bool {
    b.len() == 32 && 0 < be_value(b) < curve_order()
}

proof fn lemma_pow256_8()
    ensures
        pow256(8) == 0x1_0000_0000_0000_0000,
{
    reveal_with_fuel(pow256, 9);
}

proof fn lemma_pow256_monotone(a: nat, b: nat)
    requires
        a <= b,
    ensures
        pow256(a) <= pow256(b),
    decreases b,
{
    if a < b {
        lemma_pow256_monotone(a, (b - 1) as nat);
    }
}

proof fn lemma_be_value_bound(b: Seq<u8>)
    ensures
        be_value(b) < pow256(b.len()),
    decreases b.len(),
{
    if b.len() > 0 {
        let s = b.drop_last();
        lemma_be_value_bound(s);
        let v = be_value(s);
        let p = pow256(s.len());
        let l = b.last() as nat;
        assert(v * 256 + l < 256 * p) by (nonlinear_arith)
            requires
                v < p,
                l < 256,
        ;
    }
}

proof fn lemma_be_value_concat(a: Seq<u8>, c: Seq<u8>)
    ensures
        be_value(a + c) == be_value(a) * pow256(c.len()) + be_value(c),
    decreases c.len(),
{
    if c.len() == 0 {
        assert(a + c =~= a);
        assert(be_value(a) * 1 == be_value(a));
    } else {
        let c0 = c.drop_last();
        assert((a + c).drop_last() =~= a + c0);
        assert((a + c).last() == c.last());
        lemma_be_value_concat(a, c0);
        let x = be_value(a);
        let p = pow256(c0.len());
        let y = be_value(c0);
        let l = c.last() as nat;
        assert(pow256(c.len()) == 256 * p);
        assert(be_value(c) == y * 256 + l);
        assert(be_value(a + c) == (x * p + y) * 256 + l);
        assert((x * p + y) * 256 + l == x * (256 * p) + (y * 256 + l)) by (nonlinear_arith);
    }
}

/// Two-limb numbers compare as their limbs do, most significant first.
proof fn lemma_limbs_compare(hi_x: int, lo_x: int, hi_y: int, lo_y: int, m: int)
    requires
        m > 0,
        0 <= lo_x < m,
        0 <= lo_y < m,
    ensures
        (hi_x * m + lo_x < hi_y * m + lo_y) <==> (hi_x < hi_y || (hi_x == hi_y && lo_x < lo_y)),
        (hi_x * m + lo_x == hi_y * m + lo_y) <==> (hi_x == hi_y && lo_x == lo_y),
{
    if hi_x < hi_y {
        assert(hi_x * m + m <= hi_y * m) by (nonlinear_arith)
            requires
                hi_x < hi_y,
                m > 0,
        ;
    } else if hi_x > hi_y {
        assert(hi_y * m + m <= hi_x * m) by (nonlinear_arith)
            requires
                hi_x > hi_y,
                m > 0,
        ;
    }
}

/// The big-endian value of the 8 bytes of `b` from `start`.
fn limb(b: &[u8], start: usize) -> (r: u64)
    requires
        b@.len() == 32,
        start <= 24,
    ensures
        r as nat == be_value(b@.subrange(start as int, start + 8)),
{
    let mut acc: u64 = 0;
    let mut i: usize = start;
    while i < start + 8
        invariant
            start <= i <= start + 8,
            b@.len() == 32,
            start <= 24,
            acc as nat == be_value(b@.subrange(start as int, i as int)),
        decreases start + 8 - i,
    {
        let ghost next = b@.subrange(start as int, i + 1);
        assert(next.drop_last() =~= b@.subrange(start as int, i as int));
        proof {
            lemma_be_value_bound(next);
            lemma_pow256_monotone(next.len(), 8);
            lemma_pow256_8();
        }
        acc = acc * 256 + b[i] as u64;
        i = i + 1;
    }
    acc
}

/// Whether `bytes` is a secret scalar: 32 bytes, big-endian, in `[1, n - 1]`.
pub fn is_valid_scalar(bytes: &[u8]) -> (r: bool)
    ensures
        r == is_scalar(bytes@),
{
    if bytes.len() != 32 {
        return false;
    }
    let l0 = limb(bytes, 0);
    let l1 = limb(bytes, 8);
    let l2 = limb(bytes, 16);
    let l3 = limb(bytes, 24);
    let nonzero = l0 != 0 || l1 != 0 || l2 != 0 || l3 != 0;
    let below = l0 < ORDER_LIMB_0 || (l0 == ORDER_LIMB_0 && (l1 < ORDER_LIMB_1 || (l1
        == ORDER_LIMB_1 && (l2 < ORDER_LIMB_2 || (l2 == ORDER_LIMB_2 && l3 < ORDER_LIMB_3)))));
    proof {
        let b = bytes@;
        let m: int = 0x1_0000_0000_0000_0000;
        lemma_pow256_8();
        let b8 = b.subrange(0, 8);
        let b16 = b.subrange(0, 16);
        let b24 = b.subrange(0, 24);
        assert(b16 =~= b8 + b.subrange(8, 16));
        assert(b24 =~= b16 + b.subrange(16, 24));
        assert(b =~= b24 + b.subrange(24, 32));
        lemma_be_value_concat(b8, b.subrange(8, 16));
        lemma_be_value_concat(b16, b.subrange(16, 24));
        lemma_be_value_concat(b24, b.subrange(24, 32));
        let v16 = be_value(b16) as int;
        let v24 = be_value(b24) as int;
        let v = be_value(b) as int;
        assert(v16 == l0 * m + l1);
        assert(v24 == v16 * m + l2);
        assert(v == v24 * m + l3);
        let o16 = ORDER_LIMB_0 * m + ORDER_LIMB_1;
        let o24 = o16 * m + ORDER_LIMB_2;
        assert(curve_order() == o24 * m + ORDER_LIMB_3);
        lemma_limbs_compare(l0 as int, l1 as int, ORDER_LIMB_0 as int, ORDER_LIMB_1 as int, m);
        lemma_limbs_compare(v16, l2 as int, o16, ORDER_LIMB_2 as int, m);
        lemma_limbs_compare(v24, l3 as int, o24, ORDER_LIMB_3 as int, m);
        lemma_limbs_compare(l0 as int, l1 as int, 0, 0, m);
        lemma_limbs_compare(v16, l2 as int, 0, 0, m);
        lemma_limbs_compare(v24, l3 as int, 0, 0, m);
    }
    nonzero && below
}

} // verus!
