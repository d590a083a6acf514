//! The AES-128 cipher as specification functions over plain byte
//! sequences: the four round transforms and their inverses, the key
//! schedule, the round structure of encryption and decryption, the counter
//! increment, and the laws that hold of them — above all, that decryption
//! inverts encryption for every block and every expanded key.

use vstd::prelude::*;

verus! {

use crate::gf::gf_mul_spec;
use crate::gf::lemma_xor_algebra;
use crate::tables::inv_sub_byte;
use crate::tables::lemma_sbox_inverse;
use crate::tables::sub_byte;

/// The round constants of the AES-128 key schedule; index 0 is unused and the
/// remaining ten are the powers of `x` in GF(2^8).
pub const R_CONSTANTS: [u8; 11] = [0x00, 0x01, 0x02, 0x04, 0x08, 0x10, 0x20, 0x40, 0x80, 0x1b, 0x36];

/// A well-formed AES state: exactly 16 bytes, column-major (`4*col + row`).
pub open spec fn is_state(s: Seq<u8>) -> bool {
    s.len() == 16
}

/// A well-formed expanded key: 11 round keys of 16 bytes each.
pub open spec fn is_expanded_key(k: Seq<u8>) -> bool {
    k.len() == 176
}

/// Round key `r` of an expanded key: bytes `[16*r .. 16*r + 16)`.
pub open spec fn round_key_spec(ek: Seq<u8>, r: int) -> Seq<u8> {
    ek.subrange(16 * r, 16 * r + 16)
}

/// AddRoundKey: byte-wise XOR of state and round key.
pub open spec fn add_round_key_spec(s: Seq<u8>, k: Seq<u8>) -> Seq<u8> {
    Seq::new(16, |i: int| s[i] ^ k[i])
}

/// SubBytes: the S-Box applied to every state byte independently.
pub open spec fn sub_bytes_spec(s: Seq<u8>) -> Seq<u8> {
    Seq::new(16, |i: int| sub_byte(s[i]))
}

/// InvSubBytes: the inverse S-Box applied to every state byte.
pub open spec fn inv_sub_bytes_spec(s: Seq<u8>) -> Seq<u8> {
    Seq::new(16, |i: int| inv_sub_byte(s[i]))
}

/// Where output slot `i` of ShiftRows reads from: row `r = i % 4` rotates
/// left by `r` columns, so slot `(c, r)` reads slot `(c + r, r)`.
pub open spec fn shift_rows_src(i: int) -> int {
    let col = i / 4;
    let row = i % 4;
    4 * ((col + row) % 4) + row
}

/// Where output slot `i` of InvShiftRows reads from: row `r` rotates right.
pub open spec fn inv_shift_rows_src(i: int) -> int {
    let col = i / 4;
    let row = i % 4;
    4 * ((col + 4 - row) % 4) + row
}

/// ShiftRows: the fixed 16-slot permutation of the state.
pub open spec fn shift_rows_spec(s: Seq<u8>) -> Seq<u8> {
    Seq::new(16, |i: int| s[shift_rows_src(i)])
}

/// InvShiftRows: the inverse permutation.
pub open spec fn inv_shift_rows_spec(s: Seq<u8>) -> Seq<u8> {
    Seq::new(16, |i: int| s[inv_shift_rows_src(i)])
}

/// Row `r` of the MixColumns matrix product for one column `(a, b, c, d)`:
/// the forward matrix rows are `{2,3,1,1}`, `{1,2,3,1}`, `{1,1,2,3}`,
/// `{3,1,1,2}`.
pub open spec fn mix_entry_spec(r: int, a: u8, b: u8, c: u8, d: u8) -> u8 {
    if r == 0 {
        gf_mul_spec(a, 2) ^ gf_mul_spec(b, 3) ^ c ^ d
    } else if r == 1 {
        a ^ gf_mul_spec(b, 2) ^ gf_mul_spec(c, 3) ^ d
    } else if r == 2 {
        a ^ b ^ gf_mul_spec(c, 2) ^ gf_mul_spec(d, 3)
    } else {
        gf_mul_spec(a, 3) ^ b ^ c ^ gf_mul_spec(d, 2)
    }
}

/// Row `r` of the InvMixColumns matrix product: the inverse matrix rows are
/// `{14,11,13,9}`, `{9,14,11,13}`, `{13,9,14,11}`, `{11,13,9,14}`.
pub open spec fn inv_mix_entry_spec(r: int, a: u8, b: u8, c: u8, d: u8) -> u8 {
    if r == 0 {
        gf_mul_spec(a, 0x0e) ^ gf_mul_spec(b, 0x0b) ^ gf_mul_spec(c, 0x0d) ^ gf_mul_spec(d, 0x09)
    } else if r == 1 {
        gf_mul_spec(a, 0x09) ^ gf_mul_spec(b, 0x0e) ^ gf_mul_spec(c, 0x0b) ^ gf_mul_spec(d, 0x0d)
    } else if r == 2 {
        gf_mul_spec(a, 0x0d) ^ gf_mul_spec(b, 0x09) ^ gf_mul_spec(c, 0x0e) ^ gf_mul_spec(d, 0x0b)
    } else {
        gf_mul_spec(a, 0x0b) ^ gf_mul_spec(b, 0x0d) ^ gf_mul_spec(c, 0x09) ^ gf_mul_spec(d, 0x0e)
    }
}

/// MixColumns: every column of 4 consecutive bytes is replaced by its product
/// with the fixed forward matrix.
pub open spec fn mix_columns_spec(s: Seq<u8>) -> Seq<u8> {
    Seq::new(
        16,
        |i: int| mix_entry_spec(i % 4, s[4 * (i / 4)], s[4 * (i / 4) + 1], s[4 * (i / 4) + 2], s[4 * (i / 4) + 3]),
    )
}

/// InvMixColumns: every column multiplied by the inverse matrix.
pub open spec fn inv_mix_columns_spec(s: Seq<u8>) -> Seq<u8> {
    Seq::new(
        16,
        |i: int| inv_mix_entry_spec(i % 4, s[4 * (i / 4)], s[4 * (i / 4) + 1], s[4 * (i / 4) + 2], s[4 * (i / 4) + 3]),
    )
}

/// Word `w` (4 bytes) of the expanded key. The first four words copy the
/// master key; word `w` is then the XOR of word `w - 4` with either word
/// `w - 1` (plain case) or, at the start of each round (`w % 4 == 0`), with
/// word `w - 1` rotated left one byte, passed through the S-Box, and with the
/// round constant XORed into its first byte.
pub open spec fn key_word_spec(key: Seq<u8>, w: int) -> Seq<u8>
    decreases w,
{
    if w < 4 {
        key.subrange(4 * w, 4 * w + 4)
    } else {
        let prev = key_word_spec(key, w - 1);
        let back = key_word_spec(key, w - 4);
        let t = if w % 4 == 0 {
            seq![
                sub_byte(prev[1]) ^ R_CONSTANTS[w / 4],
                sub_byte(prev[2]),
                sub_byte(prev[3]),
                sub_byte(prev[0]),
            ]
        } else {
            prev
        };
        seq![back[0] ^ t[0], back[1] ^ t[1], back[2] ^ t[2], back[3] ^ t[3]]
    }
}

/// The 176-byte expansion of a 16-byte master key.
pub open spec fn expand_key_spec(key: Seq<u8>) -> Seq<u8> {
    Seq::new(176, |i: int| key_word_spec(key, i / 4)[i % 4])
}

/// The encryption state after round `r`: round 0 is the initial AddRoundKey,
/// rounds 1 to 9 apply SubBytes, ShiftRows, MixColumns and AddRoundKey, and
/// round 10 omits MixColumns.
pub open spec fn enc_state_spec(p: Seq<u8>, ek: Seq<u8>, r: int) -> Seq<u8>
    decreases r,
{
    if r <= 0 {
        add_round_key_spec(p, round_key_spec(ek, 0))
    } else if r < 10 {
        add_round_key_spec(
            mix_columns_spec(shift_rows_spec(sub_bytes_spec(enc_state_spec(p, ek, r - 1)))),
            round_key_spec(ek, r),
        )
    } else {
        add_round_key_spec(
            shift_rows_spec(sub_bytes_spec(enc_state_spec(p, ek, 9))),
            round_key_spec(ek, 10),
        )
    }
}

/// AES-128 encryption of one block under an expanded key.
pub open spec fn encrypt_block_spec(p: Seq<u8>, ek: Seq<u8>) -> Seq<u8> {
    enc_state_spec(p, ek, 10)
}

/// The decryption state once the rounds from 10 down to `r` have been
/// undone: round 10 is the initial AddRoundKey; each round below applies
/// InvShiftRows, InvSubBytes, AddRoundKey and then InvMixColumns.
pub open spec fn dec_state_spec(c: Seq<u8>, ek: Seq<u8>, r: int) -> Seq<u8>
    decreases 10 - r,
{
    if r >= 10 {
        add_round_key_spec(c, round_key_spec(ek, 10))
    } else {
        inv_mix_columns_spec(
            add_round_key_spec(
                inv_sub_bytes_spec(inv_shift_rows_spec(dec_state_spec(c, ek, r + 1))),
                round_key_spec(ek, r),
            ),
        )
    }
}

/// AES-128 decryption of one block: undo rounds 10 down to 1, then the final
/// InvShiftRows, InvSubBytes and the round-0 AddRoundKey.
pub open spec fn decrypt_block_spec(c: Seq<u8>, ek: Seq<u8>) -> Seq<u8> {
    add_round_key_spec(
        inv_sub_bytes_spec(inv_shift_rows_spec(dec_state_spec(c, ek, 1))),
        round_key_spec(ek, 0),
    )
}

/// The 16-byte big-endian counter incremented at position `i` and leftward:
/// a `0xff` byte wraps to zero and carries into the byte before it.
pub open spec fn inc_from_spec(s: Seq<u8>, i: int) -> Seq<u8>
    decreases i + 1,
{
    if i < 0 {
        s
    } else if s[i] == 0xff {
        inc_from_spec(s.update(i, 0), i - 1)
    } else {
        s.update(i, (s[i] + 1) as u8)
    }
}

/// The CTR-style counter increment: add one to the last byte, propagating
/// carries toward the first byte and wrapping modulo 2^128.
pub open spec fn increment_counter_spec(s: Seq<u8>) -> Seq<u8> {
    inc_from_spec(s, 15)
}

/// `(4 * k + m) / 4 == k` and `(4 * k + m) % 4 == m` for byte offsets within
/// a 4-byte word.
pub(crate) proof fn lemma_word_offset(k: int, m: int)
    requires
        0 <= m < 4,
        0 <= k,
    ensures
        (4 * k + m) / 4 == k,
        (4 * k + m) % 4 == m,
{
    assert((4 * k + m) / 4 == k && (4 * k + m) % 4 == m) by (nonlinear_arith)
        requires
            0 <= m < 4,
            0 <= k,
    ;
}

/// Byte `m` of word `w` of the expanded key, read through the flat view.
pub(crate) proof fn lemma_spec_word_byte(key: Seq<u8>, w: int, m: int)
    requires
        0 <= m < 4,
        0 <= w,
        4 * w + m < 176,
    ensures
        expand_key_spec(key)[4 * w + m] == key_word_spec(key, w)[m],
{
    lemma_word_offset(w, m);
}


/// The integer a big-endian byte sequence stands for.
pub open spec fn be_value_spec(s: Seq<u8>) -> int
    decreases s.len(),
{
    if s.len() == 0 {
        0
    } else {
        be_value_spec(s.drop_last()) * 256 + s.last()
    }
}

/// Powers of 256, the weight of each further byte.
pub open spec fn pow256(n: nat) -> int
    decreases n,
{
    if n == 0 {
        1
    } else {
        256 * pow256((n - 1) as nat)
    }
}

proof fn lemma_pow256_pos(n: nat)
    ensures
        pow256(n) >= 1,
    decreases n,
{
    if n > 0 {
        lemma_pow256_pos((n - 1) as nat);
    }
}

proof fn lemma_be_value_bounds(s: Seq<u8>)
    ensures
        0 <= be_value_spec(s) < pow256(s.len()),
    decreases s.len(),
{
    if s.len() > 0 {
        lemma_be_value_bounds(s.drop_last());
        assert(be_value_spec(s.drop_last()) * 256 + s.last() < 256 * pow256((s.len() - 1) as nat))
            by (nonlinear_arith)
            requires
                be_value_spec(s.drop_last()) < pow256((s.len() - 1) as nat),
                s.last() < 256,
        ;
        assert(be_value_spec(s.drop_last()) * 256 >= 0) by (nonlinear_arith)
            requires
                be_value_spec(s.drop_last()) >= 0,
        ;
    }
}

/// Changing byte `i` moves the value by the difference, weighted by the
/// byte's position.
proof fn lemma_be_value_update(s: Seq<u8>, i: int, v: u8)
    requires
        0 <= i < s.len(),
    ensures
        be_value_spec(s.update(i, v)) == be_value_spec(s) + (v - s[i]) * pow256(
            (s.len() - 1 - i) as nat,
        ),
    decreases s.len(),
{
    if i == s.len() - 1 {
        assert(s.update(i, v).drop_last() =~= s.drop_last());
        assert((v - s[i]) * 1 == v - s[i]) by (nonlinear_arith);
    } else {
        assert(s.update(i, v).drop_last() =~= s.drop_last().update(i, v));
        lemma_be_value_update(s.drop_last(), i, v);
        let d = v - s[i];
        let p = pow256((s.len() - 2 - i) as nat);
        assert((be_value_spec(s.drop_last()) + d * p) * 256 == be_value_spec(s.drop_last()) * 256
            + d * (256 * p)) by (nonlinear_arith);
    }
}

/// A byte sequence has the largest value of its length exactly when every
/// byte is `0xff`.
proof fn lemma_be_value_max(s: Seq<u8>)
    ensures
        (be_value_spec(s) == pow256(s.len()) - 1) <==> (forall|j: int|
            0 <= j < s.len() ==> s[j] == 0xff),
    decreases s.len(),
{
    if s.len() > 0 {
        lemma_be_value_max(s.drop_last());
        lemma_be_value_bounds(s.drop_last());
        let b = be_value_spec(s.drop_last());
        let p = pow256((s.len() - 1) as nat);
        lemma_pow256_pos((s.len() - 1) as nat);
        assert((b * 256 + s.last() == 256 * p - 1) <==> (b == p - 1 && s.last() == 0xff))
            by (nonlinear_arith)
            requires
                0 <= b < p,
                0 <= s.last() < 256,
                p >= 1,
        ;
        assert(forall|j: int| 0 <= j < s.len() - 1 ==> s.drop_last()[j] == s[j]);
        if b == p - 1 && s.last() == 0xff {
            assert(forall|j: int| 0 <= j < s.len() ==> s[j] == 0xff);
        }
    }
}

/// Carrying the increment from position `i` leftward adds the weight of
/// position `i` to the value, and wraps exactly when every byte from the
/// start through `i` is `0xff` (the bytes to the right having wrapped to
/// zero already).
proof fn lemma_inc_from_value(s: Seq<u8>, i: int)
    requires
        s.len() == 16,
        -1 <= i <= 15,
        forall|j: int| i < j < 16 ==> s[j] == 0,
    ensures
        be_value_spec(inc_from_spec(s, i)) == be_value_spec(s) + pow256((15 - i) as nat) - (
        if forall|j: int| 0 <= j <= i ==> s[j] == 0xff {
            pow256(16)
        } else {
            0
        }),
    decreases i + 1,
{
    if i < 0 {
    } else if s[i] == 0xff {
        let s2 = s.update(i, 0);
        lemma_be_value_update(s, i, 0);
        lemma_inc_from_value(s2, i - 1);
        assert((0 - 0xff) * pow256((15 - i) as nat) + pow256((15 - (i - 1)) as nat) == pow256(
            (15 - i) as nat,
        ));
        let carried = forall|j: int| 0 <= j <= i - 1 ==> s2[j] == 0xff;
        let whole = forall|j: int| 0 <= j <= i ==> s[j] == 0xff;
        assert(carried <==> whole) by {
            assert forall|j: int| 0 <= j <= i - 1 implies s2[j] == s[j] by {}
            if carried {
                assert forall|j: int| 0 <= j <= i implies s[j] == 0xff by {
                    if j <= i - 1 {
                        assert(s2[j] == 0xff);
                    }
                }
            }
            if whole {
                assert forall|j: int| 0 <= j <= i - 1 implies s2[j] == 0xff by {
                    assert(s[j] == 0xff);
                }
            }
        }
    } else {
        lemma_be_value_update(s, i, (s[i] + 1) as u8);
        assert(1 * pow256((15 - i) as nat) == pow256((15 - i) as nat)) by (nonlinear_arith);
    }
}

/// The counter increment adds one to the 16-byte big-endian value, wrapping
/// modulo 2^128.
pub proof fn lemma_increment_counter_value(s: Seq<u8>)
    requires
        s.len() == 16,
    ensures
        be_value_spec(increment_counter_spec(s)) == (be_value_spec(s) + 1) % pow256(16),
{
    lemma_inc_from_value(s, 15);
    lemma_be_value_bounds(s);
    lemma_be_value_max(s);
    lemma_pow256_pos(16);
    let b = be_value_spec(s);
    let p = pow256(16);
    if forall|j: int| 0 <= j <= 15 ==> s[j] == 0xff {
        assert(b == p - 1);
        vstd::arithmetic::div_mod::lemma_mod_self_0(p);
        assert((b + 1) % p == 0);
    } else {
        assert(b < p - 1);
        vstd::arithmetic::div_mod::lemma_small_mod((b + 1) as nat, p as nat);
    }
}

/// Applying AddRoundKey twice with the same round key gives the state back.
pub proof fn lemma_add_round_key_involutive(s: Seq<u8>, k: Seq<u8>)
    requires
        is_state(s),
    ensures
        add_round_key_spec(add_round_key_spec(s, k), k) == s,
{
    lemma_xor_algebra();
    assert(add_round_key_spec(add_round_key_spec(s, k), k) =~= s);
}

/// InvSubBytes undoes SubBytes, and the other way round.
pub proof fn lemma_sub_bytes_inverse(s: Seq<u8>)
    requires
        is_state(s),
    ensures
        inv_sub_bytes_spec(sub_bytes_spec(s)) == s,
        sub_bytes_spec(inv_sub_bytes_spec(s)) == s,
{
    lemma_sbox_inverse();
    assert(inv_sub_bytes_spec(sub_bytes_spec(s)) =~= s);
    assert(sub_bytes_spec(inv_sub_bytes_spec(s)) =~= s);
}

/// InvShiftRows undoes ShiftRows, and the other way round: the two source
/// maps are inverse permutations of the 16 slots.
#[verifier::rlimit(50)]
pub proof fn lemma_shift_rows_inverse(s: Seq<u8>)
    requires
        is_state(s),
    ensures
        inv_shift_rows_spec(shift_rows_spec(s)) == s,
        shift_rows_spec(inv_shift_rows_spec(s)) == s,
{
    assert forall|i: int| 0 <= i < 16 implies inv_shift_rows_spec(shift_rows_spec(s))[i] == s[i] by {
        assert(0 <= inv_shift_rows_src(i) < 16);
        assert(shift_rows_src(inv_shift_rows_src(i)) == i);
    }
    assert forall|i: int| 0 <= i < 16 implies shift_rows_spec(inv_shift_rows_spec(s))[i] == s[i] by {
        assert(0 <= shift_rows_src(i) < 16);
        assert(inv_shift_rows_src(shift_rows_src(i)) == i);
    }
    assert(inv_shift_rows_spec(shift_rows_spec(s)) =~= s);
    assert(shift_rows_spec(inv_shift_rows_spec(s)) =~= s);
}

/// The InvMixColumns matrix times the MixColumns matrix is the identity on
/// every column `(a, b, c, d)`, entry by entry.
proof fn lemma_mix_col_cancel(a: u8, b: u8, c: u8, d: u8)
    ensures
        inv_mix_entry_spec(
            0,
            mix_entry_spec(0, a, b, c, d),
            mix_entry_spec(1, a, b, c, d),
            mix_entry_spec(2, a, b, c, d),
            mix_entry_spec(3, a, b, c, d),
        ) == a,
        inv_mix_entry_spec(
            1,
            mix_entry_spec(0, a, b, c, d),
            mix_entry_spec(1, a, b, c, d),
            mix_entry_spec(2, a, b, c, d),
            mix_entry_spec(3, a, b, c, d),
        ) == b,
        inv_mix_entry_spec(
            2,
            mix_entry_spec(0, a, b, c, d),
            mix_entry_spec(1, a, b, c, d),
            mix_entry_spec(2, a, b, c, d),
            mix_entry_spec(3, a, b, c, d),
        ) == c,
        inv_mix_entry_spec(
            3,
            mix_entry_spec(0, a, b, c, d),
            mix_entry_spec(1, a, b, c, d),
            mix_entry_spec(2, a, b, c, d),
            mix_entry_spec(3, a, b, c, d),
        ) == d,
{
    assert(({
        let e0 = gf_mul_spec(a, 2) ^ gf_mul_spec(b, 3) ^ c ^ d;
        let e1 = a ^ gf_mul_spec(b, 2) ^ gf_mul_spec(c, 3) ^ d;
        let e2 = a ^ b ^ gf_mul_spec(c, 2) ^ gf_mul_spec(d, 3);
        let e3 = gf_mul_spec(a, 3) ^ b ^ c ^ gf_mul_spec(d, 2);
        (gf_mul_spec(e0, 0x0e) ^ gf_mul_spec(e1, 0x0b) ^ gf_mul_spec(e2, 0x0d) ^ gf_mul_spec(
            e3,
            0x09,
        ) == a) && (gf_mul_spec(e0, 0x09) ^ gf_mul_spec(e1, 0x0e) ^ gf_mul_spec(e2, 0x0b)
            ^ gf_mul_spec(e3, 0x0d) == b) && (gf_mul_spec(e0, 0x0d) ^ gf_mul_spec(e1, 0x09)
            ^ gf_mul_spec(e2, 0x0e) ^ gf_mul_spec(e3, 0x0b) == c) && (gf_mul_spec(e0, 0x0b)
            ^ gf_mul_spec(e1, 0x0d) ^ gf_mul_spec(e2, 0x09) ^ gf_mul_spec(e3, 0x0e) == d)
    })) by (bit_vector);
}

/// InvMixColumns undoes MixColumns on every state.
pub proof fn lemma_mix_columns_inverse(s: Seq<u8>)
    requires
        is_state(s),
    ensures
        inv_mix_columns_spec(mix_columns_spec(s)) == s,
{
    assert forall|i: int| 0 <= i < 16 implies inv_mix_columns_spec(mix_columns_spec(s))[i]
        == s[i] by {
        let c = i / 4;
        lemma_mix_col_cancel(s[4 * c], s[4 * c + 1], s[4 * c + 2], s[4 * c + 3]);
    }
    assert(inv_mix_columns_spec(mix_columns_spec(s)) =~= s);
}

/// Undoing rounds 10 down to `r` of a freshly encrypted block lands exactly
/// on the encryption state just before round `r`'s MixColumns and
/// AddRoundKey, i.e. after round `r - 1` plus SubBytes and ShiftRows.
proof fn lemma_dec_meets_enc(p: Seq<u8>, ek: Seq<u8>, r: int)
    requires
        is_state(p),
        is_expanded_key(ek),
        1 <= r <= 10,
    ensures
        dec_state_spec(encrypt_block_spec(p, ek), ek, r) == shift_rows_spec(
            sub_bytes_spec(enc_state_spec(p, ek, r - 1)),
        ),
    decreases 10 - r,
{
    if r == 10 {
        lemma_add_round_key_involutive(
            shift_rows_spec(sub_bytes_spec(enc_state_spec(p, ek, 9))),
            round_key_spec(ek, 10),
        );
    } else {
        lemma_dec_meets_enc(p, ek, r + 1);
        let y = shift_rows_spec(sub_bytes_spec(enc_state_spec(p, ek, r - 1)));
        lemma_shift_rows_inverse(sub_bytes_spec(enc_state_spec(p, ek, r)));
        lemma_sub_bytes_inverse(enc_state_spec(p, ek, r));
        lemma_add_round_key_involutive(mix_columns_spec(y), round_key_spec(ek, r));
        lemma_mix_columns_inverse(y);
    }
}

/// Round trip: decrypting an encrypted block under the same expanded key
/// gives the plaintext back, for every 16-byte block and every 176-byte
/// expanded key.
pub proof fn lemma_block_round_trip(p: Seq<u8>, ek: Seq<u8>)
    requires
        is_state(p),
        is_expanded_key(ek),
    ensures
        decrypt_block_spec(encrypt_block_spec(p, ek), ek) == p,
{
    lemma_dec_meets_enc(p, ek, 1);
    lemma_shift_rows_inverse(sub_bytes_spec(enc_state_spec(p, ek, 0)));
    lemma_sub_bytes_inverse(enc_state_spec(p, ek, 0));
    lemma_add_round_key_involutive(p, round_key_spec(ek, 0));
}

/// The first 16 bytes of an expanded key are the master key itself.
pub proof fn lemma_expand_key_prefix(key: Seq<u8>)
    requires
        key.len() == 16,
    ensures
        expand_key_spec(key).subrange(0, 16) == key,
{
    assert(expand_key_spec(key).subrange(0, 16) =~= key);
}

} // verus!
