//! The inverse AES transforms over encrypted bytes — InvSubBytes,
//! InvShiftRows, InvMixColumns — and the block decryption driver, proved
//! against the specification's decryption rounds.

use vstd::prelude::*;

verus! {

use tfhe::MatchValues;

use crate::encryption::add_blocks;
use crate::encryption::duplicate_block;
use crate::encryption::gal_mul;
use crate::encryption::lemma_full_byte_table;
use crate::fhe::build_lookup;
use crate::fhe::duplicate;
use crate::fhe::lookup;
use crate::fhe::lookup_pairs;
use crate::fhe::plains;
use crate::fhe::xor;
use crate::fhe::EncByte;
use crate::fhe::EvalSession;
use crate::model::dec_state_spec;
use crate::model::decrypt_block_spec;
use crate::model::inv_mix_columns_spec;
use crate::model::inv_shift_rows_spec;
use crate::model::inv_shift_rows_src;
use crate::model::inv_sub_bytes_spec;
use crate::model::lemma_word_offset;
use crate::tables::inv_sbox_lookup;
use crate::tables::inv_sub_byte;

/// The match pairs of the inverse S-Box: every byte value paired with the
/// byte it substitutes back to.
fn inv_sbox_pairs() -> (r: Vec<(u8, u8)>)
    ensures
        r@.len() == 256,
        forall|i: int| 0 <= i < 256 ==> (#[trigger] r@[i]) == (i as u8, inv_sub_byte(i as u8)),
{
    let mut t: Vec<(u8, u8)> = Vec::new();
    let mut x: usize = 0;
    while x < 256
        invariant
            x <= 256,
            t@.len() == x,
            forall|i: int| 0 <= i < x ==> (#[trigger] t@[i]) == (i as u8, inv_sub_byte(i as u8)),
        decreases 256 - x,
    {
        t.push((x as u8, inv_sbox_lookup(x as u8)));
        x = x + 1;
    }
    t
}

/// The oblivious lookup structure for the inverse S-Box.
fn get_inv_match_values() -> (r: MatchValues<u8>)
    ensures
        lookup_pairs(r).len() == 256,
        forall|i: int|
            0 <= i < 256 ==> (#[trigger] lookup_pairs(r)[i]) == (i as u8, inv_sub_byte(i as u8)),
{
    let t = inv_sbox_pairs();
    build_lookup(&t)
}

/// InvSubBytes over encrypted bytes: substitute every state byte through the
/// inverse S-Box by one oblivious table lookup per byte.
pub fn inv_sub_bytes(session: &EvalSession, state: &mut Vec<EncByte>)
    requires
        old(state)@.len() == 16,
    ensures
        final(state)@.len() == 16,
        plains(final(state)@) == inv_sub_bytes_spec(plains(old(state)@)),
{
    let mv = get_inv_match_values();
    let mut out: Vec<EncByte> = Vec::new();
    for i in 0..16
        invariant
            state@ == old(state)@,
            state@.len() == 16,
            lookup_pairs(mv).len() == 256,
            forall|k: int|
                0 <= k < 256 ==> (#[trigger] lookup_pairs(mv)[k]) == (
                    k as u8,
                    inv_sub_byte(k as u8),
                ),
            out@.len() == i,
            forall|j: int| 0 <= j < i ==> out@[j]@ == inv_sub_byte(state@[j]@),
    {
        let (v, _matched) = lookup(session, &state[i], &mv);
        proof {
            lemma_full_byte_table(lookup_pairs(mv), state@[i as int]@);
        }
        out.push(v);
    }
    *state = out;
    assert(plains(state@) =~= inv_sub_bytes_spec(plains(old(state)@)));
}

/// InvShiftRows over encrypted bytes: rotate the rows right, undoing
/// ShiftRows, reading from a snapshot of the state.
pub fn inv_shift_rows(state: &mut Vec<EncByte>)
    requires
        old(state)@.len() == 16,
    ensures
        final(state)@.len() == 16,
        plains(final(state)@) == inv_shift_rows_spec(plains(old(state)@)),
{
    let temp = duplicate_block(state);
    let mut out: Vec<EncByte> = Vec::new();
    for i in 0..16
        invariant
            state@.len() == 16,
            temp@.len() == 16,
            plains(temp@) == plains(state@),
            state@ == old(state)@,
            out@.len() == i,
            forall|j: int| 0 <= j < i ==> out@[j]@ == state@[inv_shift_rows_src(j)]@,
    {
        let col = i / 4;
        let row = i % 4;
        let src = 4 * ((col + 4 - row) % 4) + row;
        assert(src as int == inv_shift_rows_src(i as int));
        assert(temp@[src as int]@ == plains(temp@)[src as int]);
        out.push(duplicate(&temp[src]));
    }
    *state = out;
    assert(plains(state@) =~= inv_shift_rows_spec(plains(old(state)@)));
}

/// InvMixColumns over encrypted bytes: every column is replaced by its
/// product with the inverse matrix, computed from a snapshot of the column.
pub fn inv_mix_columns(session: &EvalSession, state: &mut Vec<EncByte>)
    requires
        old(state)@.len() == 16,
    ensures
        final(state)@.len() == 16,
        plains(final(state)@) == inv_mix_columns_spec(plains(old(state)@)),
{
    let temp = duplicate_block(state);
    let mut out: Vec<EncByte> = Vec::new();
    for c in 0..4
        invariant
            state@.len() == 16,
            temp@.len() == 16,
            plains(temp@) == plains(state@),
            state@ == old(state)@,
            out@.len() == 4 * c,
            forall|j: int| 0 <= j < 4 * c ==> out@[j]@ == inv_mix_columns_spec(plains(state@))[j],
    {
        let a = &temp[4 * c];
        let b = &temp[4 * c + 1];
        let d2 = &temp[4 * c + 2];
        let d3 = &temp[4 * c + 3];
        let m0 = {
            let t1 = gal_mul(session, a, 0x0e);
            let t2 = gal_mul(session, b, 0x0b);
            let t3 = gal_mul(session, d2, 0x0d);
            let t4 = gal_mul(session, d3, 0x09);
            let t5 = xor(session, &t1, &t2);
            let t6 = xor(session, &t5, &t3);
            xor(session, &t6, &t4)
        };
        let m1 = {
            let t1 = gal_mul(session, a, 0x09);
            let t2 = gal_mul(session, b, 0x0e);
            let t3 = gal_mul(session, d2, 0x0b);
            let t4 = gal_mul(session, d3, 0x0d);
            let t5 = xor(session, &t1, &t2);
            let t6 = xor(session, &t5, &t3);
            xor(session, &t6, &t4)
        };
        let m2 = {
            let t1 = gal_mul(session, a, 0x0d);
            let t2 = gal_mul(session, b, 0x09);
            let t3 = gal_mul(session, d2, 0x0e);
            let t4 = gal_mul(session, d3, 0x0b);
            let t5 = xor(session, &t1, &t2);
            let t6 = xor(session, &t5, &t3);
            xor(session, &t6, &t4)
        };
        let m3 = {
            let t1 = gal_mul(session, a, 0x0b);
            let t2 = gal_mul(session, b, 0x0d);
            let t3 = gal_mul(session, d2, 0x09);
            let t4 = gal_mul(session, d3, 0x0e);
            let t5 = xor(session, &t1, &t2);
            let t6 = xor(session, &t5, &t3);
            xor(session, &t6, &t4)
        };
        out.push(m0);
        out.push(m1);
        out.push(m2);
        out.push(m3);
        proof {
            assert forall|j: int| 4 * c <= j < 4 * c + 4 implies out@[j]@ == inv_mix_columns_spec(
                plains(state@),
            )[j] by {
                lemma_word_offset(c as int, j - 4 * c);
            }
        }
    }
    *state = out;
    assert(plains(state@) =~= inv_mix_columns_spec(plains(old(state)@)));
}

/// Decrypt one block of encrypted bytes: AddRoundKey with round key 10, then
/// for rounds 9 down to 1 InvShiftRows, InvSubBytes, AddRoundKey and
/// InvMixColumns in that order, and a final round without InvMixColumns. The
/// result written to `output` stands for the AES-128 plaintext of the bytes
/// `input` stands for.
pub fn aes_decrypt_block(
    session: &EvalSession,
    input: &Vec<EncByte>,
    output: &mut Vec<EncByte>,
    expanded_key: &Vec<EncByte>,
)
    requires
        input@.len() == 16,
        expanded_key@.len() == 176,
    ensures
        plains(final(output)@) == decrypt_block_spec(plains(input@), plains(expanded_key@)),
{
    let mut state = duplicate_block(input);
    add_blocks(session, &mut state, expanded_key, 160);
    assert(plains(state@) == dec_state_spec(plains(input@), plains(expanded_key@), 10));
    let mut round: usize = 9;
    while round >= 1
        invariant
            input@.len() == 16,
            expanded_key@.len() == 176,
            round <= 9,
            state@.len() == 16,
            plains(state@) == dec_state_spec(
                plains(input@),
                plains(expanded_key@),
                round as int + 1,
            ),
        decreases round,
    {
        inv_shift_rows(&mut state);
        inv_sub_bytes(session, &mut state);
        add_blocks(session, &mut state, expanded_key, 16 * round);
        inv_mix_columns(session, &mut state);
        round = round - 1;
    }
    inv_shift_rows(&mut state);
    inv_sub_bytes(session, &mut state);
    add_blocks(session, &mut state, expanded_key, 0);
    *output = state;
}

} // verus!
