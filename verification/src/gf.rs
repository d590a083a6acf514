//! GF(2^8) arithmetic: the field's multiply-by-x step, the carryless
//! shift-and-reduce product, its fixed-eight-round form for a secret second
//! operand, and the XOR algebra the cipher proofs rest on.

use vstd::prelude::*;

verus! {

/// Multiplication by `x` in GF(2^8) with reduction polynomial
/// `x^8 + x^4 + x^3 + x + 1` (`0x11b`): shift left one bit and, when the high
/// bit was set before the shift, reduce by XORing in `0x1b`.
pub open spec fn xtime(a: u8) -> u8 {
    (a << 1) ^ (if a & 0x80 == 0x80 {
        0x1b
    } else {
        0
    })
}

/// The product `a * b` in GF(2^8), by the carryless shift-and-reduce
/// (russian peasant) recursion: add `a` whenever the low bit of `b` is set,
/// then multiply `a` by `x` and halve `b`.
pub open spec fn gf_mul_spec(a: u8, b: u8) -> u8
    decreases b,
{
    if b == 0 {
        0
    } else {
        (if b % 2 == 1 {
            a
        } else {
            0
        }) ^ gf_mul_spec(xtime(a), b / 2)
    }
}

/// The same product computed in exactly eight rounds, whatever `b` holds;
/// this is the shape of the multiplier whose `b` operand is secret, where the
/// loop bound must not depend on `b`.
pub open spec fn gf_mul_rounds(a: u8, b: u8, n: nat) -> u8
    decreases n,
{
    if n == 0 {
        0
    } else {
        (if b % 2 == 1 {
            a
        } else {
            0
        }) ^ gf_mul_rounds(xtime(a), b / 2, (n - 1) as nat)
    }
}

/// The laws of XOR that the proofs below lean on: identity, self-inverse,
/// commutativity and associativity on bytes.
pub proof fn lemma_xor_algebra()
    by (bit_vector)
    ensures
        forall|x: u8| #[trigger] (x ^ 0) == x,
        forall|x: u8| #[trigger] (0 ^ x) == x,
        forall|x: u8, k: u8| #[trigger] (x ^ k ^ k) == x,
        forall|x: u8, y: u8| #[trigger] (x ^ y) == (y ^ x),
        forall|x: u8, y: u8, z: u8| #[trigger] ((x ^ y) ^ z) == x ^ (y ^ z),
{
}

/// Running the eight-round multiplier on any byte `b` agrees with
/// `gf_mul_spec`: after `b` has been halved to zero the remaining rounds
/// accumulate nothing.
pub proof fn lemma_gf_mul_rounds_agree(a: u8, b: u8)
    ensures
        gf_mul_rounds(a, b, 8) == gf_mul_spec(a, b),
{
    assert(b < (1u16 << 8u16)) by (bit_vector);
    lemma_gf_mul_rounds_agree_rec(a, b, 8);
}

proof fn lemma_gf_mul_rounds_agree_rec(a: u8, b: u8, n: u8)
    requires
        n <= 8,
        b < (1u16 << (n as u16)),
    ensures
        gf_mul_rounds(a, b, n as nat) == gf_mul_spec(a, b),
    decreases n,
{
    if n == 0 {
        assert(b < (1u16 << 0u16) ==> b == 0) by (bit_vector);
    } else {
        assert(b / 2 < (1u16 << ((n - 1) as u16))) by (bit_vector)
            requires
                0 < n <= 8,
                b < (1u16 << (n as u16)),
        ;
        lemma_gf_mul_rounds_agree_rec(xtime(a), b / 2, (n - 1) as u8);
        if b == 0 {
            lemma_xor_algebra();
        }
    }
}

/// One is the multiplicative identity of GF(2^8).
pub proof fn lemma_gf_mul_one(a: u8)
    ensures
        gf_mul_spec(a, 1) == a,
{
    assert(gf_mul_spec(xtime(a), 0) == 0);
    assert(a ^ 0 == a) by (bit_vector);
}

/// Executable GF(2^8) multiplication of plain bytes, used by the clear
/// MixColumns transforms and by callers that want the field product itself.
pub fn gf_mul(a: u8, b: u8) -> (r: u8)
    ensures
        r == gf_mul_spec(a, b),
{
    let mut acc: u8 = 0;
    let mut x = a;
    let mut y = b;
    proof {
        lemma_xor_algebra();
    }
    while y != 0
        invariant
            acc ^ gf_mul_spec(x, y) == gf_mul_spec(a, b),
        decreases y,
    {
        proof {
            lemma_xor_algebra();
        }
        let ghost acc0 = acc;
        let ghost x0 = x;
        let ghost y0 = y;
        let low_set = y % 2 == 1;
        if low_set {
            acc = acc ^ x;
        }
        let mut shifted = x << 1;
        if x & 0x80 == 0x80 {
            shifted = shifted ^ 0x1b;
        }
        proof {
            assert(shifted == xtime(x0));
        }
        x = shifted;
        y = y / 2;
        proof {
            let sel: u8 = if y0 % 2 == 1 {
                x0
            } else {
                0
            };
            assert(gf_mul_spec(x0, y0) == sel ^ gf_mul_spec(x, y));
            assert(acc == acc0 ^ sel);
            assert((acc0 ^ sel) ^ gf_mul_spec(x, y) == acc0 ^ (sel ^ gf_mul_spec(x, y)));
        }
    }
    proof {
        lemma_xor_algebra();
    }
    acc
}

} // verus!
