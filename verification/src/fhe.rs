//! The encrypted-byte algebra: an opaque ciphertext type carrying, as a
//! ghost value, the byte it stands for, and the small set of operations the
//! cipher is built from — XOR, masking, shifts, comparison to a constant,
//! oblivious select and oblivious table lookup — each stated in terms of
//! what it does to the bytes under encryption.

use vstd::prelude::*;

verus! {

use tfhe::prelude::FheDecrypt;
use tfhe::prelude::FheEncrypt;
use tfhe::prelude::FheEq;
use tfhe::prelude::FheTrivialEncrypt;
use tfhe::prelude::IfThenElse;
use tfhe::ClientKey;
use tfhe::FheBool;
use tfhe::FheUint8;
use tfhe::MatchValues;
use tfhe::ServerKey;

#[verifier::external_type_specification]
#[verifier::external_body]
pub struct ExFheBool(FheBool);

#[verifier::external_type_specification]
#[verifier::external_body]
pub struct ExClientKey(ClientKey);

#[verifier::external_type_specification]
#[verifier::external_body]
pub struct ExServerKey(ServerKey);

#[verifier::external_type_specification]
#[verifier::external_body]
#[verifier::reject_recursive_types(Clear)]
pub struct ExMatchValues<Clear>(MatchValues<Clear>);

/// The ciphertext of one byte. The tfhe type behind it is generic over an
/// id trait that tfhe keeps private, so it cannot be declared to the
/// verifier; this struct hides it instead, and only the operations below
/// touch it.
#[verifier::external_body]
pub struct ByteCipher {
    ct: FheUint8,
}

/// One byte under homomorphic encryption, together with the plain byte it
/// stands for. The plain byte is ghost: it exists only in specifications, and
/// the compiled value holds the ciphertext alone, so no code can branch on
/// it. Every operation below states what it does to the ghost byte, which is
/// how the transforms over encrypted state are proved to follow the cipher.
pub struct EncByte {
    /// The ciphertext.
    ct: ByteCipher,
    /// The byte the ciphertext decrypts to.
    plain: Ghost<u8>,
}

impl View for EncByte {
    type V = u8;

    closed spec fn view(&self) -> u8 {
        self.plain@
    }
}

/// An encrypted comparison outcome, with the plain truth value it stands for
/// as a ghost field.
pub struct EncCondition {
    /// The ciphertext.
    ct: FheBool,
    /// The truth value the ciphertext decrypts to.
    plain: Ghost<bool>,
}

impl View for EncCondition {
    type V = bool;

    closed spec fn view(&self) -> bool {
        self.plain@
    }
}

/// A witness that the evaluation key has been installed on the current
/// thread. Every homomorphic operation takes one, so none can run before
/// `install_evaluation_key`.
pub struct EvalSession {
    _private: (),
}

/// The plain bytes that a sequence of encrypted bytes stands for.
pub open spec fn plains(s: Seq<EncByte>) -> Seq<u8> {
    Seq::new(s.len(), |i: int| s[i]@)
}

/// Whether some pair of a lookup table has `x` as its input.
pub open spec fn table_has_spec(t: Seq<(u8, u8)>, x: u8) -> bool
    decreases t.len(),
{
    if t.len() == 0 {
        false
    } else {
        t[0].0 == x || table_has_spec(t.drop_first(), x)
    }
}

/// The output of the first pair of a lookup table whose input is `x`, and
/// zero when no pair matches.
pub open spec fn table_lookup_spec(t: Seq<(u8, u8)>, x: u8) -> u8
    decreases t.len(),
{
    if t.len() == 0 {
        0
    } else if t[0].0 == x {
        t[0].1
    } else {
        table_lookup_spec(t.drop_first(), x)
    }
}

/// What a lookup structure was built from.
pub uninterp spec fn lookup_pairs(m: MatchValues<u8>) -> Seq<(u8, u8)>;

/// Relies on tfhe::set_server_key: installs the evaluation key on the
/// current thread, which every homomorphic operation below needs; tfhe
/// panics on an operation whose thread has no key installed, so the session
/// value this returns is demanded by each of them as a witness.
#[verifier::external_body]
pub fn install_evaluation_key(key: ServerKey) -> EvalSession {
    tfhe::set_server_key(key);
    EvalSession { _private: () }
}

/// Relies on tfhe's FheEncrypt: encrypting a byte under the client key gives
/// a ciphertext that decrypts to that byte.
#[verifier::external_body]
pub fn encrypt_byte(key: &ClientKey, value: u8) -> (r: EncByte)
    ensures
        r@ == value,
{
    EncByte { ct: ByteCipher { ct: FheUint8::encrypt(value, key) }, plain: Ghost(0) }
}

/// Relies on tfhe's FheDecrypt: decrypting returns the plain byte the
/// ciphertext stands for.
#[verifier::external_body]
pub fn decrypt_byte(key: &ClientKey, e: &EncByte) -> (r: u8)
    ensures
        r == e@,
{
    e.ct.ct.decrypt(key)
}

/// Relies on tfhe's FheTrivialEncrypt: a trivial encryption of a byte
/// decrypts to that byte (it hides nothing and needs no client key).
#[verifier::external_body]
pub(crate) fn trivial_byte(_session: &EvalSession, value: u8) -> (r: EncByte)
    ensures
        r@ == value,
{
    EncByte { ct: ByteCipher { ct: FheUint8::encrypt_trivial(value) }, plain: Ghost(0) }
}

/// Relies on tfhe's homomorphic BitXor for FheUint8.
#[verifier::external_body]
pub(crate) fn xor(_session: &EvalSession, a: &EncByte, b: &EncByte) -> (r: EncByte)
    ensures
        r@ == (a@ ^ b@),
{
    EncByte { ct: ByteCipher { ct: &a.ct.ct ^ &b.ct.ct }, plain: Ghost(0) }
}

/// Relies on tfhe's homomorphic BitXor of FheUint8 with a clear byte.
#[verifier::external_body]
pub(crate) fn xor_constant(_session: &EvalSession, a: &EncByte, c: u8) -> (r: EncByte)
    ensures
        r@ == (a@ ^ c),
{
    EncByte { ct: ByteCipher { ct: &a.ct.ct ^ c }, plain: Ghost(0) }
}

/// Relies on tfhe's homomorphic BitAnd of FheUint8 with a clear byte.
#[verifier::external_body]
pub(crate) fn and_constant(_session: &EvalSession, a: &EncByte, c: u8) -> (r: EncByte)
    ensures
        r@ == (a@ & c),
{
    EncByte { ct: ByteCipher { ct: &a.ct.ct & c }, plain: Ghost(0) }
}

/// Relies on tfhe's homomorphic left shift by a clear amount, which matches
/// the plain `<<` for amounts below the bit width.
#[verifier::external_body]
pub(crate) fn shift_left(_session: &EvalSession, a: &EncByte, n: u8) -> (r: EncByte)
    requires
        n < 8,
    ensures
        r@ == (a@ << n),
{
    EncByte { ct: ByteCipher { ct: &a.ct.ct << n }, plain: Ghost(0) }
}

/// Relies on tfhe's homomorphic right shift by a clear amount, which matches
/// the plain `>>` for amounts below the bit width.
#[verifier::external_body]
pub(crate) fn shift_right(_session: &EvalSession, a: &EncByte, n: u8) -> (r: EncByte)
    requires
        n < 8,
    ensures
        r@ == (a@ >> n),
{
    EncByte { ct: ByteCipher { ct: &a.ct.ct >> n }, plain: Ghost(0) }
}

/// Relies on tfhe's homomorphic comparison (FheEq) of FheUint8 with a clear
/// byte.
#[verifier::external_body]
pub(crate) fn not_equal_to_constant(_session: &EvalSession, a: &EncByte, c: u8) -> (r:
    EncCondition)
    ensures
        r@ == (a@ != c),
{
    EncCondition { ct: a.ct.ct.ne(c), plain: Ghost(false) }
}

/// Relies on tfhe's IfThenElse: selects between two ciphertexts under an
/// encrypted condition, without branching on it.
#[verifier::external_body]
pub(crate) fn oblivious_select(
    _session: &EvalSession,
    c: &EncCondition,
    t: &EncByte,
    f: &EncByte,
) -> (r: EncByte)
    ensures
        r@ == (if c@ {
            t@
        } else {
            f@
        }),
{
    EncByte { ct: ByteCipher { ct: c.ct.if_then_else(&t.ct.ct, &f.ct.ct) }, plain: Ghost(0) }
}

/// Relies on Clone for tfhe's FheUint8: a clone stands for the same byte.
#[verifier::external_body]
pub(crate) fn duplicate(e: &EncByte) -> (r: EncByte)
    ensures
        r@ == e@,
{
    EncByte { ct: ByteCipher { ct: e.ct.ct.clone() }, plain: e.plain }
}

/// Relies on tfhe's MatchValues::new, which keeps the given pairs and
/// returns an error only when two pairs share an input; the distinctness
/// demanded here rules that out.
#[verifier::external_body]
pub(crate) fn build_lookup(table: &Vec<(u8, u8)>) -> (r: MatchValues<u8>)
    requires
        forall|i: int, j: int|
            0 <= i < j < table@.len() ==> #[trigger] table@[i].0 != #[trigger] table@[j].0,
    ensures
        lookup_pairs(r) == table@,
{
    MatchValues::new(table.clone()).unwrap()
}

/// Relies on tfhe's FheUint::match_value: the first result stands for the
/// output paired with the byte the input stands for (zero when no pair
/// matches it; the pairs' inputs are distinct by construction), and the
/// second for whether any pair matched. With byte outputs the byte-sized
/// result type always has enough bits, so the call cannot fail.
#[verifier::external_body]
pub(crate) fn lookup(_session: &EvalSession, e: &EncByte, m: &MatchValues<u8>) -> (r: (
    EncByte,
    EncCondition,
))
    ensures
        r.0@ == table_lookup_spec(lookup_pairs(*m), e@),
        r.1@ == table_has_spec(lookup_pairs(*m), e@),
{
    let (v, ok): (FheUint8, FheBool) = e.ct.ct.match_value(m).unwrap();
    (
        EncByte { ct: ByteCipher { ct: v }, plain: Ghost(0) },
        EncCondition { ct: ok, plain: Ghost(false) },
    )
}

/// In a table whose pairs map `start + j` to some output for each position
/// `j`, the byte `x` is found, and its output is the pair at position
/// `x - start`.
pub(crate) proof fn lemma_indexed_table_lookup(t: Seq<(u8, u8)>, x: u8, start: int)
    requires
        0 <= start,
        start + t.len() <= 256,
        start <= x < start + t.len(),
        forall|j: int| 0 <= j < t.len() ==> (#[trigger] t[j]).0 == (start + j) as u8,
    ensures
        table_has_spec(t, x),
        table_lookup_spec(t, x) == t[x - start].1,
    decreases t.len(),
{
    assert(t[0].0 == start as u8);
    if x == start {
    } else {
        assert(t[0].0 != x);
        assert forall|j: int| 0 <= j < t.drop_first().len() implies (#[trigger] t.drop_first()[j]).0
            == (start + 1 + j) as u8 by {
            assert(t.drop_first()[j] == t[j + 1]);
        }
        lemma_indexed_table_lookup(t.drop_first(), x, start + 1);
        assert(t.drop_first()[x - start - 1] == t[x - start]);
    }
}

} // verus!
