//! The AES encryption transforms over encrypted bytes: AddRoundKey,
//! SubBytes, ShiftRows, MixColumns, the GF(2^8) multipliers and the block
//! encryption driver, each proved to act on the bytes under encryption
//! exactly as the specification's transform does.

use vstd::prelude::*;

verus! {

use tfhe::MatchValues;

use crate::fhe::and_constant;
use crate::fhe::build_lookup;
use crate::fhe::duplicate;
use crate::fhe::lemma_indexed_table_lookup;
use crate::fhe::lookup;
use crate::fhe::lookup_pairs;
use crate::fhe::not_equal_to_constant;
use crate::fhe::oblivious_select;
use crate::fhe::plains;
use crate::fhe::shift_left;
use crate::fhe::shift_right;
use crate::fhe::table_lookup_spec;
use crate::fhe::trivial_byte;
use crate::fhe::xor_constant;
use crate::fhe::xor;
use crate::fhe::EncByte;
use crate::fhe::EvalSession;
use crate::gf::gf_mul_rounds;
use crate::gf::gf_mul_spec;
use crate::gf::lemma_gf_mul_rounds_agree;
use crate::gf::lemma_xor_algebra;
use crate::gf::xtime;
use crate::model::add_round_key_spec;
use crate::model::enc_state_spec;
use crate::model::encrypt_block_spec;
use crate::model::lemma_word_offset;
use crate::model::mix_columns_spec;
use crate::model::shift_rows_spec;
use crate::model::shift_rows_src;
use crate::model::sub_bytes_spec;
use crate::tables::sbox_lookup;
use crate::tables::sub_byte;

/// A fresh copy of a block of encrypted bytes, standing for the same plain
/// bytes.
pub(crate) fn duplicate_block(v: &Vec<EncByte>) -> (r: Vec<EncByte>)
    ensures
        r@.len() == v@.len(),
        plains(r@) == plains(v@),
{
    let n = v.len();
    let mut out: Vec<EncByte> = Vec::new();
    for i in 0..n
        invariant
            n == v@.len(),
            out@.len() == i,
            forall|j: int| 0 <= j < i ==> out@[j]@ == v@[j]@,
    {
        out.push(duplicate(&v[i]));
    }
    assert(plains(out@) =~= plains(v@));
    out
}

/// The match pairs of the S-Box: every byte value paired with its
/// substitution.
fn sbox_pairs() -> (r: Vec<(u8, u8)>)
    ensures
        r@.len() == 256,
        forall|i: int| 0 <= i < 256 ==> (#[trigger] r@[i]) == (i as u8, sub_byte(i as u8)),
{
    let mut t: Vec<(u8, u8)> = Vec::new();
    let mut x: usize = 0;
    while x < 256
        invariant
            x <= 256,
            t@.len() == x,
            forall|i: int| 0 <= i < x ==> (#[trigger] t@[i]) == (i as u8, sub_byte(i as u8)),
        decreases 256 - x,
    {
        t.push((x as u8, sbox_lookup(x as u8)));
        x = x + 1;
    }
    t
}

/// The oblivious lookup structure for the S-Box, shared by SubBytes and the
/// key schedule.
pub(crate) fn get_match_values() -> (r: MatchValues<u8>)
    ensures
        lookup_pairs(r).len() == 256,
        forall|i: int|
            0 <= i < 256 ==> (#[trigger] lookup_pairs(r)[i]) == (i as u8, sub_byte(i as u8)),
{
    let t = sbox_pairs();
    build_lookup(&t)
}

/// A table that pairs every byte with its image substitutes the byte an
/// encrypted input stands for.
pub(crate) proof fn lemma_full_byte_table(t: Seq<(u8, u8)>, x: u8)
    requires
        t.len() == 256,
        forall|i: int| 0 <= i < 256 ==> (#[trigger] t[i]).0 == i as u8,
    ensures
        table_lookup_spec(t, x) == t[x as int].1,
{
    lemma_indexed_table_lookup(t, x, 0);
}

/// AddRoundKey over encrypted bytes: XOR the 16 state bytes with the 16 key
/// bytes found at `offset` in `b`.
pub fn add_blocks(session: &EvalSession, state: &mut Vec<EncByte>, b: &Vec<EncByte>, offset: usize)
    requires
        old(state)@.len() == 16,
        offset + 16 <= b@.len(),
    ensures
        final(state)@.len() == 16,
        plains(final(state)@) == add_round_key_spec(
            plains(old(state)@),
            plains(b@).subrange(offset as int, offset as int + 16),
        ),
{
    let blen = b.len();
    let mut out: Vec<EncByte> = Vec::new();
    for i in 0..16
        invariant
            state@ == old(state)@,
            state@.len() == 16,
            blen == b@.len(),
            offset + 16 <= blen,
            out@.len() == i,
            forall|j: int| 0 <= j < i ==> out@[j]@ == (state@[j]@ ^ b@[offset + j]@),
    {
        out.push(xor(session, &state[i], &b[offset + i]));
    }
    *state = out;
    assert(plains(state@) =~= add_round_key_spec(
        plains(old(state)@),
        plains(b@).subrange(offset as int, offset as int + 16),
    ));
}

/// SubBytes over encrypted bytes: substitute every state byte through the
/// S-Box by one oblivious table lookup per byte, never branching on the
/// byte.
pub fn sub_bytes(session: &EvalSession, state: &mut Vec<EncByte>)
    requires
        old(state)@.len() == 16,
    ensures
        final(state)@.len() == 16,
        plains(final(state)@) == sub_bytes_spec(plains(old(state)@)),
{
    let mv = get_match_values();
    let mut out: Vec<EncByte> = Vec::new();
    for i in 0..16
        invariant
            state@ == old(state)@,
            state@.len() == 16,
            lookup_pairs(mv).len() == 256,
            forall|k: int|
                0 <= k < 256 ==> (#[trigger] lookup_pairs(mv)[k]) == (k as u8, sub_byte(k as u8)),
            out@.len() == i,
            forall|j: int| 0 <= j < i ==> out@[j]@ == sub_byte(state@[j]@),
    {
        let (v, _matched) = lookup(session, &state[i], &mv);
        proof {
            lemma_full_byte_table(lookup_pairs(mv), state@[i as int]@);
        }
        out.push(v);
    }
    *state = out;
    assert(plains(state@) =~= sub_bytes_spec(plains(old(state)@)));
}

/// ShiftRows over encrypted bytes: the fixed row rotation, built from a
/// snapshot of the state so every output slot reads the pre-transform bytes.
pub fn shift_rows(state: &mut Vec<EncByte>)
    requires
        old(state)@.len() == 16,
    ensures
        final(state)@.len() == 16,
        plains(final(state)@) == shift_rows_spec(plains(old(state)@)),
{
    let temp = duplicate_block(state);
    let mut out: Vec<EncByte> = Vec::new();
    for i in 0..16
        invariant
            state@.len() == 16,
            temp@.len() == 16,
            plains(temp@) == plains(state@),
            state@ == old(state)@,
            out@.len() == i,
            forall|j: int| 0 <= j < i ==> out@[j]@ == state@[shift_rows_src(j)]@,
    {
        let col = i / 4;
        let row = i % 4;
        let src = 4 * ((col + row) % 4) + row;
        assert(src as int == shift_rows_src(i as int));
        assert(temp@[src as int]@ == plains(temp@)[src as int]);
        out.push(duplicate(&temp[src]));
    }
    *state = out;
    assert(plains(state@) =~= shift_rows_spec(plains(old(state)@)));
}

/// GF(2^8) multiplication of an encrypted byte by a public byte. The loop
/// runs over the bits of the public factor, so its control flow leaks
/// nothing; the secret high bit of the running product is consumed only through
/// the oblivious select, never a branch.
pub fn gal_mul(session: &EvalSession, a: &EncByte, b: u8) -> (r: EncByte)
    ensures
        r@ == gf_mul_spec(a@, b),
{
    let mut result = trivial_byte(session, 0);
    let mut x = duplicate(a);
    let mut y = b;
    proof {
        lemma_xor_algebra();
    }
    while y != 0
        invariant
            result@ ^ gf_mul_spec(x@, y) == gf_mul_spec(a@, b),
        decreases y,
    {
        proof {
            lemma_xor_algebra();
        }
        let ghost r0 = result@;
        let ghost x0 = x@;
        let ghost y0 = y;
        if y % 2 == 1 {
            result = xor(session, &result, &x);
        }
        let masked = and_constant(session, &x, 0x80);
        let high_bit_set = not_equal_to_constant(session, &masked, 0);
        let shifted = shift_left(session, &x, 1);
        let reduced = xor_constant(session, &shifted, 0x1b);
        x = oblivious_select(session, &high_bit_set, &reduced, &shifted);
        y = y / 2;
        proof {
            assert((x0 & 0x80 != 0) == (x0 & 0x80 == 0x80)) by (bit_vector);
            assert(x@ == xtime(x0));
            let sel: u8 = if y0 % 2 == 1 {
                x0
            } else {
                0
            };
            assert(gf_mul_spec(x0, y0) == sel ^ gf_mul_spec(x@, y));
            assert(result@ == r0 ^ sel);
            assert((r0 ^ sel) ^ gf_mul_spec(x@, y) == r0 ^ (sel ^ gf_mul_spec(x@, y)));
        }
    }
    proof {
        lemma_xor_algebra();
    }
    result
}

/// GF(2^8) multiplication of two encrypted bytes, the variant whose second
/// operand is secret as well. The loop runs a fixed eight rounds, one per
/// bit, so its control flow depends on nothing secret; the accumulate
/// condition (low bit of `b`) and the reduction condition (high bit of the
/// running product) both go through oblivious selects.
pub fn gal_mul_enc(session: &EvalSession, a: &EncByte, b: &EncByte) -> (r: EncByte)
    ensures
        r@ == gf_mul_spec(a@, b@),
{
    let mut result = trivial_byte(session, 0);
    let mut x = duplicate(a);
    let mut y = duplicate(b);
    proof {
        lemma_gf_mul_rounds_agree(a@, b@);
        lemma_xor_algebra();
    }
    for k in 0..8
        invariant
            result@ ^ gf_mul_rounds(x@, y@, (8 - k) as nat) == gf_mul_spec(a@, b@),
    {
        proof {
            lemma_xor_algebra();
        }
        let ghost r0 = result@;
        let ghost x0 = x@;
        let ghost y0 = y@;
        let low_mask = and_constant(session, &y, 1);
        let low_set = not_equal_to_constant(session, &low_mask, 0);
        let accumulated = xor(session, &result, &x);
        result = oblivious_select(session, &low_set, &accumulated, &result);
        let high_mask = and_constant(session, &x, 0x80);
        let high_set = not_equal_to_constant(session, &high_mask, 0);
        let shifted = shift_left(session, &x, 1);
        let reduced = xor_constant(session, &shifted, 0x1b);
        x = oblivious_select(session, &high_set, &reduced, &shifted);
        y = shift_right(session, &y, 1);
        proof {
            assert((y0 & 1 != 0) == (y0 % 2 == 1) && (y0 >> 1u8) == y0 / 2 && ((x0 & 0x80 != 0)
                == (x0 & 0x80 == 0x80))) by (bit_vector);
            assert(x@ == xtime(x0));
            let sel: u8 = if y0 % 2 == 1 {
                x0
            } else {
                0
            };
            assert(gf_mul_rounds(x0, y0, (8 - k) as nat) == sel ^ gf_mul_rounds(
                x@,
                y@,
                (8 - (k + 1)) as nat,
            ));
            assert(result@ == r0 ^ sel);
            assert((r0 ^ sel) ^ gf_mul_rounds(x@, y@, (8 - (k + 1)) as nat) == r0 ^ (sel
                ^ gf_mul_rounds(x@, y@, (8 - (k + 1)) as nat)));
        }
    }
    proof {
        lemma_xor_algebra();
    }
    result
}

/// MixColumns over encrypted bytes: every column is replaced by its product
/// with the forward matrix, computed from a snapshot of the column.
pub fn mix_columns(session: &EvalSession, state: &mut Vec<EncByte>)
    requires
        old(state)@.len() == 16,
    ensures
        final(state)@.len() == 16,
        plains(final(state)@) == mix_columns_spec(plains(old(state)@)),
{
    let temp = duplicate_block(state);
    let mut out: Vec<EncByte> = Vec::new();
    for c in 0..4
        invariant
            state@.len() == 16,
            temp@.len() == 16,
            plains(temp@) == plains(state@),
            state@ == old(state)@,
            out@.len() == 4 * c,
            forall|j: int| 0 <= j < 4 * c ==> out@[j]@ == mix_columns_spec(plains(state@))[j],
    {
        let a = &temp[4 * c];
        let b = &temp[4 * c + 1];
        let d2 = &temp[4 * c + 2];
        let d3 = &temp[4 * c + 3];
        let m0 = {
            let t1 = gal_mul(session, a, 2);
            let t2 = gal_mul(session, b, 3);
            let t3 = xor(session, &t1, &t2);
            let t4 = xor(session, &t3, d2);
            xor(session, &t4, d3)
        };
        let m1 = {
            let t1 = gal_mul(session, b, 2);
            let t2 = gal_mul(session, d2, 3);
            let t3 = xor(session, a, &t1);
            let t4 = xor(session, &t3, &t2);
            xor(session, &t4, d3)
        };
        let m2 = {
            let t1 = gal_mul(session, d2, 2);
            let t2 = gal_mul(session, d3, 3);
            let t3 = xor(session, a, b);
            let t4 = xor(session, &t3, &t1);
            xor(session, &t4, &t2)
        };
        let m3 = {
            let t1 = gal_mul(session, a, 3);
            let t2 = gal_mul(session, d3, 2);
            let t3 = xor(session, &t1, b);
            let t4 = xor(session, &t3, d2);
            xor(session, &t4, &t2)
        };
        out.push(m0);
        out.push(m1);
        out.push(m2);
        out.push(m3);
        proof {
            assert forall|j: int| 4 * c <= j < 4 * c + 4 implies out@[j]@ == mix_columns_spec(
                plains(state@),
            )[j] by {
                lemma_word_offset(c as int, j - 4 * c);
            }
        }
    }
    *state = out;
    assert(plains(state@) =~= mix_columns_spec(plains(old(state)@)));
}

/// Encrypt one block of encrypted bytes: AddRoundKey with round key 0, nine
/// rounds of SubBytes, ShiftRows, MixColumns and AddRoundKey, and a final
/// round without MixColumns. The result written to `output` stands for the
/// AES-128 ciphertext of the bytes `input` stands for.
pub fn aes_encrypt_block(
    session: &EvalSession,
    input: &Vec<EncByte>,
    output: &mut Vec<EncByte>,
    expanded_key: &Vec<EncByte>,
)
    requires
        input@.len() == 16,
        expanded_key@.len() == 176,
    ensures
        plains(final(output)@) == encrypt_block_spec(plains(input@), plains(expanded_key@)),
{
    let mut state = duplicate_block(input);
    add_blocks(session, &mut state, expanded_key, 0);
    assert(plains(state@) == enc_state_spec(plains(input@), plains(expanded_key@), 0));
    for round in 1..10
        invariant
            input@.len() == 16,
            expanded_key@.len() == 176,
            state@.len() == 16,
            plains(state@) == enc_state_spec(plains(input@), plains(expanded_key@), round - 1),
    {
        sub_bytes(session, &mut state);
        shift_rows(&mut state);
        mix_columns(session, &mut state);
        add_blocks(session, &mut state, expanded_key, 16 * round);
    }
    sub_bytes(session, &mut state);
    shift_rows(&mut state);
    add_blocks(session, &mut state, expanded_key, 160);
    *output = state;
}

} // verus!
