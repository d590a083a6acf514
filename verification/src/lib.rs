//! AES-128 over homomorphically encrypted bytes.
//!
//! The cipher is stated once, as specification functions over plain byte
//! sequences (`model`), and implemented twice against that one statement: a
//! plain executable reference (`clear`), and the oblivious evaluation over
//! encrypted bytes (`encryption`, `decryption`, `key_expansion`) in which
//! every secret-dependent choice goes through an oblivious select or an
//! oblivious table lookup of the encrypted-byte algebra (`fhe`), never a
//! branch. Each encrypted transform is proved to do to the bytes under
//! encryption exactly what the specification says, so decrypting its output
//! yields what the plain cipher would have produced.

pub mod clear;
pub mod decryption;
pub mod encryption;
pub mod fhe;
pub mod gf;
pub mod key_expansion;
pub mod model;
pub mod tables;
