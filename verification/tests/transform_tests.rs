use fhe_aes128::clear::increment_counter;
use fhe_aes128::clear::inv_mix_columns_state;
use fhe_aes128::clear::inv_shift_rows_state;
use fhe_aes128::clear::inv_sub_bytes_state;
use fhe_aes128::clear::mix_columns_state;
use fhe_aes128::clear::shift_rows_state;
use fhe_aes128::clear::sub_bytes_state;
use fhe_aes128::gf::gf_mul;
use fhe_aes128::tables::INV_SBOX;
use fhe_aes128::tables::SBOX;

#[test]
fn gf_mul_by_one_is_identity() {
    for a in 0..=255u8 {
        assert_eq!(gf_mul(a, 1), a);
    }
}

#[test]
fn gf_mul_known_products() {
    // The worked example of the AES specification: {57} x {83} = {c1}.
    assert_eq!(gf_mul(0x57, 0x83), 0xc1);
    assert_eq!(gf_mul(0x57, 0x02), 0xae);
    assert_eq!(gf_mul(0x57, 0x13), 0xfe);
    assert_eq!(gf_mul(0x00, 0xff), 0x00);
}

#[test]
fn mix_columns_then_inverse_is_identity() {
    let mut state: [u8; 16] = [
        0xd4, 0xbf, 0x5d, 0x30, 0xe0, 0xb4, 0x52, 0xae, 0xb8, 0x41, 0x11, 0xf1, 0x1e, 0x27,
        0x98, 0xe5,
    ];
    let original = state;
    mix_columns_state(&mut state);
    assert_ne!(state, original);
    inv_mix_columns_state(&mut state);
    assert_eq!(state, original);
}

#[test]
fn mix_columns_known_column() {
    // The MixColumns example column of the AES specification:
    // (d4, bf, 5d, 30) becomes (04, 66, 81, e5).
    let mut state: [u8; 16] = [
        0xd4, 0xbf, 0x5d, 0x30, 0, 0, 0, 0, 0, 0, 0, 0, 0, 0, 0, 0,
    ];
    mix_columns_state(&mut state);
    assert_eq!(state[0], 0x04);
    assert_eq!(state[1], 0x66);
    assert_eq!(state[2], 0x81);
    assert_eq!(state[3], 0xe5);
}

#[test]
fn shift_rows_then_inverse_is_identity() {
    let mut state: [u8; 16] = [
        0, 1, 2, 3, 4, 5, 6, 7, 8, 9, 10, 11, 12, 13, 14, 15,
    ];
    let original = state;
    shift_rows_state(&mut state);
    assert_ne!(state, original);
    inv_shift_rows_state(&mut state);
    assert_eq!(state, original);
}

#[test]
fn shift_rows_moves_rows_left() {
    let mut state: [u8; 16] = [
        0, 1, 2, 3, 4, 5, 6, 7, 8, 9, 10, 11, 12, 13, 14, 15,
    ];
    shift_rows_state(&mut state);
    // Row 0 (slots 0, 4, 8, 12) is unchanged; row 1 rotates by one column.
    let expected: [u8; 16] = [
        0, 5, 10, 15, 4, 9, 14, 3, 8, 13, 2, 7, 12, 1, 6, 11,
    ];
    assert_eq!(state, expected);
}

#[test]
fn sub_bytes_then_inverse_is_identity() {
    let mut state: [u8; 16] = [
        0x00, 0x11, 0x22, 0x33, 0x44, 0x55, 0x66, 0x77, 0x88, 0x99, 0xaa, 0xbb, 0xcc, 0xdd,
        0xee, 0xff,
    ];
    let original = state;
    sub_bytes_state(&mut state);
    assert_eq!(state[0], 0x63);
    inv_sub_bytes_state(&mut state);
    assert_eq!(state, original);
}

#[test]
fn sbox_tables_are_inverse_permutations() {
    for x in 0..=255u8 {
        assert_eq!(INV_SBOX[SBOX[x as usize] as usize], x);
        assert_eq!(SBOX[INV_SBOX[x as usize] as usize], x);
    }
}

#[test]
fn counter_increments_last_byte() {
    let iv = [0u8; 16];
    let next = increment_counter(&iv);
    let mut expected = [0u8; 16];
    expected[15] = 1;
    assert_eq!(next, expected);
}

#[test]
fn counter_carries_into_preceding_byte() {
    let mut iv = [0u8; 16];
    iv[15] = 0xff;
    let next = increment_counter(&iv);
    let mut expected = [0u8; 16];
    expected[14] = 1;
    expected[15] = 0;
    assert_eq!(next, expected);
}

#[test]
fn counter_wraps_around() {
    let iv = [0xffu8; 16];
    let next = increment_counter(&iv);
    assert_eq!(next, [0u8; 16]);
}

#[test]
fn counter_sequence_crosses_byte_boundary() {
    let mut iv = [0u8; 16];
    iv[14] = 0x01;
    iv[15] = 0xfe;
    let step1 = increment_counter(&iv);
    assert_eq!(step1[14], 0x01);
    assert_eq!(step1[15], 0xff);
    let step2 = increment_counter(&step1);
    assert_eq!(step2[14], 0x02);
    assert_eq!(step2[15], 0x00);
}
