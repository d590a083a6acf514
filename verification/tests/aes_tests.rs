use fhe_aes128::clear::decrypt_block;
use fhe_aes128::clear::encrypt_block;
use fhe_aes128::clear::expand_key;

fn from_hex_16(s: &str) -> [u8; 16] {
    let mut out = [0u8; 16];
    let bytes = s.as_bytes();
    assert_eq!(bytes.len(), 32);
    for i in 0..16 {
        let hi = (bytes[2 * i] as char).to_digit(16).unwrap() as u8;
        let lo = (bytes[2 * i + 1] as char).to_digit(16).unwrap() as u8;
        out[i] = (hi << 4) | lo;
    }
    out
}

#[test]
fn reference_vector_encrypt() {
    let key = from_hex_16("000102030405060708090a0b0c0d0e0f");
    let plaintext = from_hex_16("00112233445566778899aabbccddeeff");
    let expected = from_hex_16("69c4e0d86a7b0430d8cdb78070b4c55a");
    let ek = expand_key(&key);
    assert_eq!(ek.len(), 176);
    let ciphertext = encrypt_block(&plaintext, &ek);
    assert_eq!(ciphertext, expected);
}

#[test]
fn reference_vector_decrypt() {
    let key = from_hex_16("000102030405060708090a0b0c0d0e0f");
    let ciphertext = from_hex_16("69c4e0d86a7b0430d8cdb78070b4c55a");
    let expected = from_hex_16("00112233445566778899aabbccddeeff");
    let ek = expand_key(&key);
    let plaintext = decrypt_block(&ciphertext, &ek);
    assert_eq!(plaintext, expected);
}

#[test]
fn round_trip_blocks() {
    let key = from_hex_16("2b7e151628aed2a6abf7158809cf4f3c");
    let ek = expand_key(&key);
    let blocks = [
        from_hex_16("00000000000000000000000000000000"),
        from_hex_16("ffffffffffffffffffffffffffffffff"),
        from_hex_16("6bc1bee22e409f96e93d7e117393172a"),
        from_hex_16("000102030405060708090a0b0c0d0e0f"),
    ];
    for block in blocks.iter() {
        let ciphertext = encrypt_block(block, &ek);
        let back = decrypt_block(&ciphertext, &ek);
        assert_eq!(back, *block);
    }
}

#[test]
fn expand_key_prefix_and_determinism() {
    let key = from_hex_16("000102030405060708090a0b0c0d0e0f");
    let ek1 = expand_key(&key);
    let ek2 = expand_key(&key);
    for i in 0..176 {
        assert_eq!(ek1[i], ek2[i]);
    }
    for i in 0..16 {
        assert_eq!(ek1[i], key[i]);
    }
    // The last round key of this key's schedule, as published for AES-128.
    let last = from_hex_16("13111d7fe3944a17f307a78b4d2b30c5");
    for i in 0..16 {
        assert_eq!(ek1[160 + i], last[i]);
    }
}
