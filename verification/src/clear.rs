//! The executable reference cipher over plain bytes: each function is
//! proved to return exactly what the specification functions of `model`
//! say, so tests and callers can run the cipher without any encryption.

use vstd::prelude::*;

verus! {

use crate::gf::gf_mul;
use crate::model::add_round_key_spec;
use crate::model::be_value_spec;
use crate::model::pow256;
use crate::model::dec_state_spec;
use crate::model::decrypt_block_spec;
use crate::model::enc_state_spec;
use crate::model::encrypt_block_spec;
use crate::model::expand_key_spec;
use crate::model::inc_from_spec;
use crate::model::increment_counter_spec;
use crate::model::inv_mix_columns_spec;
use crate::model::inv_shift_rows_spec;
use crate::model::inv_shift_rows_src;
use crate::model::inv_sub_bytes_spec;
use crate::model::key_word_spec;
use crate::model::lemma_spec_word_byte;
use crate::model::lemma_word_offset;
use crate::model::mix_columns_spec;
use crate::model::round_key_spec;
use crate::model::shift_rows_spec;
use crate::model::shift_rows_src;
use crate::model::sub_bytes_spec;
use crate::model::R_CONSTANTS;
use crate::tables::inv_sbox_lookup;
use crate::tables::sbox_lookup;

/// XOR round key `r` into the state, byte by byte.
pub fn add_round_key(state: &mut [u8; 16], ek: &[u8; 176], r: usize)
    requires
        r <= 10,
    ensures
        final(state)@ == add_round_key_spec(old(state)@, round_key_spec(ek@, r as int)),
{
    let base = 16 * r;
    for i in 0..16
        invariant
            base == 16 * r,
            r <= 10,
            forall|j: int| 0 <= j < i ==> state@[j] == old(state)@[j] ^ ek@[16 * (r as int) + j],
            forall|j: int| i <= j < 16 ==> state@[j] == old(state)@[j],
    {
        state[i] = state[i] ^ ek[base + i];
    }
    assert(state@ =~= add_round_key_spec(old(state)@, round_key_spec(ek@, r as int)));
}

/// Substitute every state byte through the S-Box.
pub fn sub_bytes_state(state: &mut [u8; 16])
    ensures
        final(state)@ == sub_bytes_spec(old(state)@),
{
    for i in 0..16
        invariant
            forall|j: int| 0 <= j < i ==> state@[j] == sub_bytes_spec(old(state)@)[j],
            forall|j: int| i <= j < 16 ==> state@[j] == old(state)@[j],
    {
        state[i] = sbox_lookup(state[i]);
    }
    assert(state@ =~= sub_bytes_spec(old(state)@));
}

/// Substitute every state byte through the inverse S-Box.
pub fn inv_sub_bytes_state(state: &mut [u8; 16])
    ensures
        final(state)@ == inv_sub_bytes_spec(old(state)@),
{
    for i in 0..16
        invariant
            forall|j: int| 0 <= j < i ==> state@[j] == inv_sub_bytes_spec(old(state)@)[j],
            forall|j: int| i <= j < 16 ==> state@[j] == old(state)@[j],
    {
        state[i] = inv_sbox_lookup(state[i]);
    }
    assert(state@ =~= inv_sub_bytes_spec(old(state)@));
}

/// Rotate the rows of the state left; reads from a snapshot of the state
/// taken before any slot is written.
pub fn shift_rows_state(state: &mut [u8; 16])
    ensures
        final(state)@ == shift_rows_spec(old(state)@),
{
    let temp = *state;
    for i in 0..16
        invariant
            temp@ == old(state)@,
            forall|j: int| 0 <= j < i ==> state@[j] == shift_rows_spec(old(state)@)[j],
    {
        let col = i / 4;
        let row = i % 4;
        let src = 4 * ((col + row) % 4) + row;
        assert(src as int == shift_rows_src(i as int));
        state[i] = temp[src];
    }
    assert(state@ =~= shift_rows_spec(old(state)@));
}

/// Rotate the rows of the state right, the inverse of `shift_rows_state`.
pub fn inv_shift_rows_state(state: &mut [u8; 16])
    ensures
        final(state)@ == inv_shift_rows_spec(old(state)@),
{
    let temp = *state;
    for i in 0..16
        invariant
            temp@ == old(state)@,
            forall|j: int| 0 <= j < i ==> state@[j] == inv_shift_rows_spec(old(state)@)[j],
    {
        let col = i / 4;
        let row = i % 4;
        let src = 4 * ((col + 4 - row) % 4) + row;
        assert(src as int == inv_shift_rows_src(i as int));
        state[i] = temp[src];
    }
    assert(state@ =~= inv_shift_rows_spec(old(state)@));
}

/// Multiply every column by the forward MixColumns matrix; reads from a
/// snapshot taken before any slot is written.
pub fn mix_columns_state(state: &mut [u8; 16])
    ensures
        final(state)@ == mix_columns_spec(old(state)@),
{
    let temp = *state;
    for c in 0..4
        invariant
            temp@ == old(state)@,
            forall|j: int| 0 <= j < 4 * c ==> state@[j] == mix_columns_spec(old(state)@)[j],
    {
        let a = temp[4 * c];
        let b = temp[4 * c + 1];
        let d2 = temp[4 * c + 2];
        let d3 = temp[4 * c + 3];
        state[4 * c] = gf_mul(a, 2) ^ gf_mul(b, 3) ^ d2 ^ d3;
        state[4 * c + 1] = a ^ gf_mul(b, 2) ^ gf_mul(d2, 3) ^ d3;
        state[4 * c + 2] = a ^ b ^ gf_mul(d2, 2) ^ gf_mul(d3, 3);
        state[4 * c + 3] = gf_mul(a, 3) ^ b ^ d2 ^ gf_mul(d3, 2);
        proof {
            assert forall|j: int| 4 * c <= j < 4 * c + 4 implies state@[j] == mix_columns_spec(
                old(state)@,
            )[j] by {
                lemma_word_offset(c as int, j - 4 * c);
            }
        }
    }
    assert(state@ =~= mix_columns_spec(old(state)@));
}

/// Multiply every column by the inverse MixColumns matrix.
pub fn inv_mix_columns_state(state: &mut [u8; 16])
    ensures
        final(state)@ == inv_mix_columns_spec(old(state)@),
{
    let temp = *state;
    for c in 0..4
        invariant
            temp@ == old(state)@,
            forall|j: int| 0 <= j < 4 * c ==> state@[j] == inv_mix_columns_spec(old(state)@)[j],
    {
        let a = temp[4 * c];
        let b = temp[4 * c + 1];
        let d2 = temp[4 * c + 2];
        let d3 = temp[4 * c + 3];
        state[4 * c] = gf_mul(a, 0x0e) ^ gf_mul(b, 0x0b) ^ gf_mul(d2, 0x0d) ^ gf_mul(d3, 0x09);
        state[4 * c + 1] = gf_mul(a, 0x09) ^ gf_mul(b, 0x0e) ^ gf_mul(d2, 0x0b) ^ gf_mul(d3, 0x0d);
        state[4 * c + 2] = gf_mul(a, 0x0d) ^ gf_mul(b, 0x09) ^ gf_mul(d2, 0x0e) ^ gf_mul(d3, 0x0b);
        state[4 * c + 3] = gf_mul(a, 0x0b) ^ gf_mul(b, 0x0d) ^ gf_mul(d2, 0x09) ^ gf_mul(d3, 0x0e);
        proof {
            assert forall|j: int| 4 * c <= j < 4 * c + 4 implies state@[j] == inv_mix_columns_spec(
                old(state)@,
            )[j] by {
                lemma_word_offset(c as int, j - 4 * c);
            }
        }
    }
    assert(state@ =~= inv_mix_columns_spec(old(state)@));
}

/// Expand a 16-byte master key into the 176-byte schedule of 11 round keys.
/// The result is a pure function of the key, and its first 16 bytes are the
/// key itself.
pub fn expand_key(key: &[u8; 16]) -> (r: [u8; 176])
    ensures
        r@ == expand_key_spec(key@),
        r@.subrange(0, 16) == key@,
{
    let mut ek = [0u8; 176];
    for i in 0..16
        invariant
            forall|j: int| 0 <= j < i ==> ek@[j] == expand_key_spec(key@)[j],
    {
        proof {
            lemma_word_offset(i as int / 4, i as int % 4);
            assert(key_word_spec(key@, i as int / 4)[i as int % 4] == key@[i as int]);
        }
        ek[i] = key[i];
    }
    let mut i: usize = 16;
    while i < 176
        invariant
            16 <= i <= 176,
            i % 4 == 0,
            forall|j: int| 0 <= j < i ==> ek@[j] == expand_key_spec(key@)[j],
        decreases 176 - i,
    {
        let ghost w = i as int / 4;
        let ghost sp = expand_key_spec(key@);
        proof {
            assert(4 * w == i) by (nonlinear_arith)
                requires
                    w == i as int / 4,
                    i % 4 == 0,
                    0 <= i,
            ;
            lemma_spec_word_byte(key@, w - 1, 0);
            lemma_spec_word_byte(key@, w - 1, 1);
            lemma_spec_word_byte(key@, w - 1, 2);
            lemma_spec_word_byte(key@, w - 1, 3);
        }
        let t0 = ek[i - 4];
        let t1 = ek[i - 3];
        let t2 = ek[i - 2];
        let t3 = ek[i - 1];
        let mut temp = [t0, t1, t2, t3];
        if i % 16 == 0 {
            proof {
                assert(w % 4 == 0 && i as int / 16 == w / 4) by (nonlinear_arith)
                    requires
                        4 * w == i,
                        i % 16 == 0,
                        0 <= i,
                ;
            }
            temp = [
                sbox_lookup(t1) ^ R_CONSTANTS[i / 16],
                sbox_lookup(t2),
                sbox_lookup(t3),
                sbox_lookup(t0),
            ];
        } else {
            proof {
                assert(w % 4 != 0) by (nonlinear_arith)
                    requires
                        4 * w == i,
                        i % 16 != 0,
                        0 <= i,
                ;
            }
        }
        proof {
            assert(temp@ =~= (if w % 4 == 0 {
                seq![
                    crate::tables::sub_byte(key_word_spec(key@, w - 1)[1]) ^ R_CONSTANTS[w / 4],
                    crate::tables::sub_byte(key_word_spec(key@, w - 1)[2]),
                    crate::tables::sub_byte(key_word_spec(key@, w - 1)[3]),
                    crate::tables::sub_byte(key_word_spec(key@, w - 1)[0]),
                ]
            } else {
                key_word_spec(key@, w - 1)
            }));
        }
        let base = i;
        for j in 0..4
            invariant
                base == i,
                4 * w == i,
                4 <= w,
                16 <= i <= 172,
                i % 4 == 0,
                sp == expand_key_spec(key@),
                temp@ == (if w % 4 == 0 {
                    seq![
                        crate::tables::sub_byte(key_word_spec(key@, w - 1)[1]) ^ R_CONSTANTS[w / 4],
                        crate::tables::sub_byte(key_word_spec(key@, w - 1)[2]),
                        crate::tables::sub_byte(key_word_spec(key@, w - 1)[3]),
                        crate::tables::sub_byte(key_word_spec(key@, w - 1)[0]),
                    ]
                } else {
                    key_word_spec(key@, w - 1)
                }),
                forall|b: int| 0 <= b < i + j ==> ek@[b] == sp[b],
        {
            proof {
                lemma_spec_word_byte(key@, w, j as int);
                lemma_spec_word_byte(key@, w - 4, j as int);
            }
            ek[base + j] = ek[base - 16 + j] ^ temp[j];
        }
        i = i + 4;
    }
    proof {
        assert(ek@ =~= expand_key_spec(key@));
        crate::model::lemma_expand_key_prefix(key@);
    }
    ek
}

/// Encrypt one 16-byte block with an expanded key: the initial AddRoundKey,
/// nine full rounds, and a final round without MixColumns.
pub fn encrypt_block(p: &[u8; 16], ek: &[u8; 176]) -> (r: [u8; 16])
    ensures
        r@ == encrypt_block_spec(p@, ek@),
{
    let mut state = *p;
    add_round_key(&mut state, ek, 0);
    for round in 1..10
        invariant
            state@ == enc_state_spec(p@, ek@, round - 1),
    {
        sub_bytes_state(&mut state);
        shift_rows_state(&mut state);
        mix_columns_state(&mut state);
        add_round_key(&mut state, ek, round);
    }
    sub_bytes_state(&mut state);
    shift_rows_state(&mut state);
    add_round_key(&mut state, ek, 10);
    state
}

/// Decrypt one 16-byte block with an expanded key, undoing the rounds in
/// reverse order; InvMixColumns comes after the round's AddRoundKey.
pub fn decrypt_block(c: &[u8; 16], ek: &[u8; 176]) -> (r: [u8; 16])
    ensures
        r@ == decrypt_block_spec(c@, ek@),
{
    let mut state = *c;
    add_round_key(&mut state, ek, 10);
    let mut round: usize = 9;
    while round >= 1
        invariant
            round <= 9,
            state@ == dec_state_spec(c@, ek@, round as int + 1),
        decreases round,
    {
        inv_shift_rows_state(&mut state);
        inv_sub_bytes_state(&mut state);
        add_round_key(&mut state, ek, round);
        inv_mix_columns_state(&mut state);
        round = round - 1;
    }
    inv_shift_rows_state(&mut state);
    inv_sub_bytes_state(&mut state);
    add_round_key(&mut state, ek, 0);
    state
}

/// Increment the 16-byte big-endian counter: add one to the last byte and
/// propagate carries leftward, wrapping modulo 2^128 — the value of the
/// result is the value of the input plus one, modulo 256^16.
pub fn increment_counter(iv: &[u8; 16]) -> (r: [u8; 16])
    ensures
        r@ == increment_counter_spec(iv@),
        be_value_spec(r@) == (be_value_spec(iv@) + 1) % pow256(16),
{
    proof {
        crate::model::lemma_increment_counter_value(iv@);
    }
    let mut out = *iv;
    let mut j: usize = 15;
    loop
        invariant_except_break
            j <= 15,
            inc_from_spec(out@, j as int) == increment_counter_spec(iv@),
        ensures
            out@ == increment_counter_spec(iv@),
        decreases j,
    {
        let ghost cur = out@;
        if out[j] == 0xff {
            out[j] = 0;
            proof {
                assert(inc_from_spec(cur, j as int) == inc_from_spec(out@, j as int - 1));
            }
            if j == 0 {
                proof {
                    assert(inc_from_spec(out@, -1) == out@);
                }
                break ;
            }
            j = j - 1;
        } else {
            out[j] = out[j] + 1;
            proof {
                assert(out@ == cur.update(j as int, (cur[j as int] + 1) as u8));
                assert(inc_from_spec(cur, j as int) == out@);
            }
            break ;
        }
    }
    out
}

} // verus!
