//! The AES-128 key schedule over encrypted bytes, proved to expand the
//! bytes under encryption exactly as the specification's key schedule does.

use vstd::prelude::*;

verus! {

use crate::encryption::get_match_values;
use crate::encryption::lemma_full_byte_table;
use crate::fhe::duplicate;
use crate::fhe::lookup;
use crate::fhe::lookup_pairs;
use crate::fhe::plains;
use crate::fhe::xor;
use crate::fhe::xor_constant;
use crate::fhe::EncByte;
use crate::fhe::EvalSession;
use crate::model::expand_key_spec;
use crate::model::key_word_spec;
use crate::model::lemma_spec_word_byte;
use crate::model::lemma_word_offset;
use crate::model::R_CONSTANTS;
use crate::tables::sub_byte;

/// Expand an encrypted 16-byte master key into the encrypted 176-byte
/// schedule of 11 round keys. Every byte of the result stands for the byte a
/// plain AES-128 key expansion of the underlying key would produce: the
/// rotation is a re-indexing, the S-Box step is the oblivious lookup, and
/// the round constant is XORed in as a public scalar.
pub fn key_expansion_fhe(session: &EvalSession, key: &Vec<EncByte>, expanded_key: &mut Vec<EncByte>)
    requires
        key@.len() == 16,
    ensures
        final(expanded_key)@.len() == 176,
        plains(final(expanded_key)@) == expand_key_spec(plains(key@)),
{
    let ghost kp = plains(key@);
    let ghost sp = expand_key_spec(kp);
    let mv = get_match_values();
    let mut ek: Vec<EncByte> = Vec::new();
    for i in 0..16
        invariant
            key@.len() == 16,
            kp == plains(key@),
            sp == expand_key_spec(kp),
            ek@.len() == i,
            forall|j: int| 0 <= j < i ==> ek@[j]@ == sp[j],
            lookup_pairs(mv).len() == 256,
            forall|k: int|
                0 <= k < 256 ==> (#[trigger] lookup_pairs(mv)[k]) == (k as u8, sub_byte(k as u8)),
    {
        proof {
            lemma_word_offset(i as int / 4, i as int % 4);
            assert(key_word_spec(kp, i as int / 4)[i as int % 4] == kp[i as int]);
        }
        ek.push(duplicate(&key[i]));
    }
    let mut i: usize = 16;
    while i < 176
        invariant
            key@.len() == 16,
            kp == plains(key@),
            sp == expand_key_spec(kp),
            16 <= i <= 176,
            i % 4 == 0,
            ek@.len() == i,
            forall|j: int| 0 <= j < i ==> ek@[j]@ == sp[j],
            lookup_pairs(mv).len() == 256,
            forall|k: int|
                0 <= k < 256 ==> (#[trigger] lookup_pairs(mv)[k]) == (k as u8, sub_byte(k as u8)),
        decreases 176 - i,
    {
        let ghost w = i as int / 4;
        proof {
            assert(4 * w == i) by (nonlinear_arith)
                requires
                    w == i as int / 4,
                    i % 4 == 0,
                    0 <= i,
            ;
            lemma_spec_word_byte(kp, w - 1, 0);
            lemma_spec_word_byte(kp, w - 1, 1);
            lemma_spec_word_byte(kp, w - 1, 2);
            lemma_spec_word_byte(kp, w - 1, 3);
        }
        let mut temp0 = duplicate(&ek[i - 4]);
        let mut temp1 = duplicate(&ek[i - 3]);
        let mut temp2 = duplicate(&ek[i - 2]);
        let mut temp3 = duplicate(&ek[i - 1]);
        if i % 16 == 0 {
            proof {
                assert(w % 4 == 0 && i as int / 16 == w / 4) by (nonlinear_arith)
                    requires
                        4 * w == i,
                        i % 16 == 0,
                        0 <= i,
                ;
            }
            // Rotate the word left one byte, substitute each byte through
            // the S-Box, and XOR the round constant into the first byte.
            let (s0, _m0) = lookup(session, &temp1, &mv);
            let (s1, _m1) = lookup(session, &temp2, &mv);
            let (s2, _m2) = lookup(session, &temp3, &mv);
            let (s3, _m3) = lookup(session, &temp0, &mv);
            proof {
                lemma_full_byte_table(lookup_pairs(mv), temp0@);
                lemma_full_byte_table(lookup_pairs(mv), temp1@);
                lemma_full_byte_table(lookup_pairs(mv), temp2@);
                lemma_full_byte_table(lookup_pairs(mv), temp3@);
            }
            temp0 = xor_constant(session, &s0, R_CONSTANTS[i / 16]);
            temp1 = s1;
            temp2 = s2;
            temp3 = s3;
        } else {
            proof {
                assert(w % 4 != 0) by (nonlinear_arith)
                    requires
                        4 * w == i,
                        i % 16 != 0,
                        0 <= i,
                ;
            }
        }
        proof {
            assert(seq![temp0@, temp1@, temp2@, temp3@] =~= (if w % 4 == 0 {
                seq![
                    sub_byte(key_word_spec(kp, w - 1)[1]) ^ R_CONSTANTS[w / 4],
                    sub_byte(key_word_spec(kp, w - 1)[2]),
                    sub_byte(key_word_spec(kp, w - 1)[3]),
                    sub_byte(key_word_spec(kp, w - 1)[0]),
                ]
            } else {
                key_word_spec(kp, w - 1)
            }));
        }
        proof {
            lemma_spec_word_byte(kp, w, 0);
            lemma_spec_word_byte(kp, w, 1);
            lemma_spec_word_byte(kp, w, 2);
            lemma_spec_word_byte(kp, w, 3);
            lemma_spec_word_byte(kp, w - 4, 0);
            lemma_spec_word_byte(kp, w - 4, 1);
            lemma_spec_word_byte(kp, w - 4, 2);
            lemma_spec_word_byte(kp, w - 4, 3);
        }
        let n0 = xor(session, &ek[i - 16], &temp0);
        ek.push(n0);
        let n1 = xor(session, &ek[i - 15], &temp1);
        ek.push(n1);
        let n2 = xor(session, &ek[i - 14], &temp2);
        ek.push(n2);
        let n3 = xor(session, &ek[i - 13], &temp3);
        ek.push(n3);
        i = i + 4;
    }
    *expanded_key = ek;
    assert(plains(expanded_key@) =~= expand_key_spec(plains(key@)));
}

} // verus!
