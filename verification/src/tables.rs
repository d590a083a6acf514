//! The public AES substitution tables and what each does to a byte,
//! together with the proof that the two are inverse permutations.

use vstd::prelude::*;

verus! {


/// The public AES substitution table (S-Box) used by SubBytes and the
/// key schedule: a fixed permutation of the byte values.
pub const SBOX: [u8; 256] = [
    0x63, 0x7c, 0x77, 0x7b, 0xf2, 0x6b, 0x6f, 0xc5,
    0x30, 0x01, 0x67, 0x2b, 0xfe, 0xd7, 0xab, 0x76,
    0xca, 0x82, 0xc9, 0x7d, 0xfa, 0x59, 0x47, 0xf0,
    0xad, 0xd4, 0xa2, 0xaf, 0x9c, 0xa4, 0x72, 0xc0,
    0xb7, 0xfd, 0x93, 0x26, 0x36, 0x3f, 0xf7, 0xcc,
    0x34, 0xa5, 0xe5, 0xf1, 0x71, 0xd8, 0x31, 0x15,
    0x04, 0xc7, 0x23, 0xc3, 0x18, 0x96, 0x05, 0x9a,
    0x07, 0x12, 0x80, 0xe2, 0xeb, 0x27, 0xb2, 0x75,
    0x09, 0x83, 0x2c, 0x1a, 0x1b, 0x6e, 0x5a, 0xa0,
    0x52, 0x3b, 0xd6, 0xb3, 0x29, 0xe3, 0x2f, 0x84,
    0x53, 0xd1, 0x00, 0xed, 0x20, 0xfc, 0xb1, 0x5b,
    0x6a, 0xcb, 0xbe, 0x39, 0x4a, 0x4c, 0x58, 0xcf,
    0xd0, 0xef, 0xaa, 0xfb, 0x43, 0x4d, 0x33, 0x85,
    0x45, 0xf9, 0x02, 0x7f, 0x50, 0x3c, 0x9f, 0xa8,
    0x51, 0xa3, 0x40, 0x8f, 0x92, 0x9d, 0x38, 0xf5,
    0xbc, 0xb6, 0xda, 0x21, 0x10, 0xff, 0xf3, 0xd2,
    0xcd, 0x0c, 0x13, 0xec, 0x5f, 0x97, 0x44, 0x17,
    0xc4, 0xa7, 0x7e, 0x3d, 0x64, 0x5d, 0x19, 0x73,
    0x60, 0x81, 0x4f, 0xdc, 0x22, 0x2a, 0x90, 0x88,
    0x46, 0xee, 0xb8, 0x14, 0xde, 0x5e, 0x0b, 0xdb,
    0xe0, 0x32, 0x3a, 0x0a, 0x49, 0x06, 0x24, 0x5c,
    0xc2, 0xd3, 0xac, 0x62, 0x91, 0x95, 0xe4, 0x79,
    0xe7, 0xc8, 0x37, 0x6d, 0x8d, 0xd5, 0x4e, 0xa9,
    0x6c, 0x56, 0xf4, 0xea, 0x65, 0x7a, 0xae, 0x08,
    0xba, 0x78, 0x25, 0x2e, 0x1c, 0xa6, 0xb4, 0xc6,
    0xe8, 0xdd, 0x74, 0x1f, 0x4b, 0xbd, 0x8b, 0x8a,
    0x70, 0x3e, 0xb5, 0x66, 0x48, 0x03, 0xf6, 0x0e,
    0x61, 0x35, 0x57, 0xb9, 0x86, 0xc1, 0x1d, 0x9e,
    0xe1, 0xf8, 0x98, 0x11, 0x69, 0xd9, 0x8e, 0x94,
    0x9b, 0x1e, 0x87, 0xe9, 0xce, 0x55, 0x28, 0xdf,
    0x8c, 0xa1, 0x89, 0x0d, 0xbf, 0xe6, 0x42, 0x68,
    0x41, 0x99, 0x2d, 0x0f, 0xb0, 0x54, 0xbb, 0x16,
];
/// The inverse of `SBOX`, used by InvSubBytes during decryption.
pub const INV_SBOX: [u8; 256] = [
    0x52, 0x09, 0x6a, 0xd5, 0x30, 0x36, 0xa5, 0x38,
    0xbf, 0x40, 0xa3, 0x9e, 0x81, 0xf3, 0xd7, 0xfb,
    0x7c, 0xe3, 0x39, 0x82, 0x9b, 0x2f, 0xff, 0x87,
    0x34, 0x8e, 0x43, 0x44, 0xc4, 0xde, 0xe9, 0xcb,
    0x54, 0x7b, 0x94, 0x32, 0xa6, 0xc2, 0x23, 0x3d,
    0xee, 0x4c, 0x95, 0x0b, 0x42, 0xfa, 0xc3, 0x4e,
    0x08, 0x2e, 0xa1, 0x66, 0x28, 0xd9, 0x24, 0xb2,
    0x76, 0x5b, 0xa2, 0x49, 0x6d, 0x8b, 0xd1, 0x25,
    0x72, 0xf8, 0xf6, 0x64, 0x86, 0x68, 0x98, 0x16,
    0xd4, 0xa4, 0x5c, 0xcc, 0x5d, 0x65, 0xb6, 0x92,
    0x6c, 0x70, 0x48, 0x50, 0xfd, 0xed, 0xb9, 0xda,
    0x5e, 0x15, 0x46, 0x57, 0xa7, 0x8d, 0x9d, 0x84,
    0x90, 0xd8, 0xab, 0x00, 0x8c, 0xbc, 0xd3, 0x0a,
    0xf7, 0xe4, 0x58, 0x05, 0xb8, 0xb3, 0x45, 0x06,
    0xd0, 0x2c, 0x1e, 0x8f, 0xca, 0x3f, 0x0f, 0x02,
    0xc1, 0xaf, 0xbd, 0x03, 0x01, 0x13, 0x8a, 0x6b,
    0x3a, 0x91, 0x11, 0x41, 0x4f, 0x67, 0xdc, 0xea,
    0x97, 0xf2, 0xcf, 0xce, 0xf0, 0xb4, 0xe6, 0x73,
    0x96, 0xac, 0x74, 0x22, 0xe7, 0xad, 0x35, 0x85,
    0xe2, 0xf9, 0x37, 0xe8, 0x1c, 0x75, 0xdf, 0x6e,
    0x47, 0xf1, 0x1a, 0x71, 0x1d, 0x29, 0xc5, 0x89,
    0x6f, 0xb7, 0x62, 0x0e, 0xaa, 0x18, 0xbe, 0x1b,
    0xfc, 0x56, 0x3e, 0x4b, 0xc6, 0xd2, 0x79, 0x20,
    0x9a, 0xdb, 0xc0, 0xfe, 0x78, 0xcd, 0x5a, 0xf4,
    0x1f, 0xdd, 0xa8, 0x33, 0x88, 0x07, 0xc7, 0x31,
    0xb1, 0x12, 0x10, 0x59, 0x27, 0x80, 0xec, 0x5f,
    0x60, 0x51, 0x7f, 0xa9, 0x19, 0xb5, 0x4a, 0x0d,
    0x2d, 0xe5, 0x7a, 0x9f, 0x93, 0xc9, 0x9c, 0xef,
    0xa0, 0xe0, 0x3b, 0x4d, 0xae, 0x2a, 0xf5, 0xb0,
    0xc8, 0xeb, 0xbb, 0x3c, 0x83, 0x53, 0x99, 0x61,
    0x17, 0x2b, 0x04, 0x7e, 0xba, 0x77, 0xd6, 0x26,
    0xe1, 0x69, 0x14, 0x63, 0x55, 0x21, 0x0c, 0x7d,
];
/// What SubBytes does to one byte.
pub open spec fn sub_byte(x: u8) -> u8 {
    SBOX[x as int]
}

/// What InvSubBytes does to one byte.
pub open spec fn inv_sub_byte(x: u8) -> u8 {
    INV_SBOX[x as int]
}


/// `sub_byte`, written out as a chain of comparisons; the bit-vector solver
/// cannot read the table constant above, but it can read this.
spec fn sub_byte_chain(x: u8) -> u8 {
    if x == 0 { 0x63 } else if x == 1 { 0x7c } else if x == 2 { 0x77 } else if x == 3 { 0x7b } else if x == 4 { 0xf2 } else if x == 5 { 0x6b } else if x == 6 { 0x6f } else if x == 7 { 0xc5 } else if x == 8 { 0x30 } else if x == 9 { 0x01 } else if x == 10 { 0x67 } else if x == 11 { 0x2b } else if x == 12 { 0xfe } else if x == 13 { 0xd7 } else if x == 14 { 0xab } else if x == 15 { 0x76 } else if x == 16 { 0xca } else if x == 17 { 0x82 } else if x == 18 { 0xc9 } else if x == 19 { 0x7d } else if x == 20 { 0xfa } else if x == 21 { 0x59 } else if x == 22 { 0x47 } else if x == 23 { 0xf0 } else if x == 24 { 0xad } else if x == 25 { 0xd4 } else if x == 26 { 0xa2 } else if x == 27 { 0xaf } else if x == 28 { 0x9c } else if x == 29 { 0xa4 } else if x == 30 { 0x72 } else if x == 31 { 0xc0 } else if x == 32 { 0xb7 } else if x == 33 { 0xfd } else if x == 34 { 0x93 } else if x == 35 { 0x26 } else if x == 36 { 0x36 } else if x == 37 { 0x3f } else if x == 38 { 0xf7 } else if x == 39 { 0xcc } else if x == 40 { 0x34 } else if x == 41 { 0xa5 } else if x == 42 { 0xe5 } else if x == 43 { 0xf1 } else if x == 44 { 0x71 } else if x == 45 { 0xd8 } else if x == 46 { 0x31 } else if x == 47 { 0x15 } else if x == 48 { 0x04 } else if x == 49 { 0xc7 } else if x == 50 { 0x23 } else if x == 51 { 0xc3 } else if x == 52 { 0x18 } else if x == 53 { 0x96 } else if x == 54 { 0x05 } else if x == 55 { 0x9a } else if x == 56 { 0x07 } else if x == 57 { 0x12 } else if x == 58 { 0x80 } else if x == 59 { 0xe2 } else if x == 60 { 0xeb } else if x == 61 { 0x27 } else if x == 62 { 0xb2 } else if x == 63 { 0x75 } else if x == 64 { 0x09 } else if x == 65 { 0x83 } else if x == 66 { 0x2c } else if x == 67 { 0x1a } else if x == 68 { 0x1b } else if x == 69 { 0x6e } else if x == 70 { 0x5a } else if x == 71 { 0xa0 } else if x == 72 { 0x52 } else if x == 73 { 0x3b } else if x == 74 { 0xd6 } else if x == 75 { 0xb3 } else if x == 76 { 0x29 } else if x == 77 { 0xe3 } else if x == 78 { 0x2f } else if x == 79 { 0x84 } else if x == 80 { 0x53 } else if x == 81 { 0xd1 } else if x == 82 { 0x00 } else if x == 83 { 0xed } else if x == 84 { 0x20 } else if x == 85 { 0xfc } else if x == 86 { 0xb1 } else if x == 87 { 0x5b } else if x == 88 { 0x6a } else if x == 89 { 0xcb } else if x == 90 { 0xbe } else if x == 91 { 0x39 } else if x == 92 { 0x4a } else if x == 93 { 0x4c } else if x == 94 { 0x58 } else if x == 95 { 0xcf } else if x == 96 { 0xd0 } else if x == 97 { 0xef } else if x == 98 { 0xaa } else if x == 99 { 0xfb } else if x == 100 { 0x43 } else if x == 101 { 0x4d } else if x == 102 { 0x33 } else if x == 103 { 0x85 } else if x == 104 { 0x45 } else if x == 105 { 0xf9 } else if x == 106 { 0x02 } else if x == 107 { 0x7f } else if x == 108 { 0x50 } else if x == 109 { 0x3c } else if x == 110 { 0x9f } else if x == 111 { 0xa8 } else if x == 112 { 0x51 } else if x == 113 { 0xa3 } else if x == 114 { 0x40 } else if x == 115 { 0x8f } else if x == 116 { 0x92 } else if x == 117 { 0x9d } else if x == 118 { 0x38 } else if x == 119 { 0xf5 } else if x == 120 { 0xbc } else if x == 121 { 0xb6 } else if x == 122 { 0xda } else if x == 123 { 0x21 } else if x == 124 { 0x10 } else if x == 125 { 0xff } else if x == 126 { 0xf3 } else if x == 127 { 0xd2 } else if x == 128 { 0xcd } else if x == 129 { 0x0c } else if x == 130 { 0x13 } else if x == 131 { 0xec } else if x == 132 { 0x5f } else if x == 133 { 0x97 } else if x == 134 { 0x44 } else if x == 135 { 0x17 } else if x == 136 { 0xc4 } else if x == 137 { 0xa7 } else if x == 138 { 0x7e } else if x == 139 { 0x3d } else if x == 140 { 0x64 } else if x == 141 { 0x5d } else if x == 142 { 0x19 } else if x == 143 { 0x73 } else if x == 144 { 0x60 } else if x == 145 { 0x81 } else if x == 146 { 0x4f } else if x == 147 { 0xdc } else if x == 148 { 0x22 } else if x == 149 { 0x2a } else if x == 150 { 0x90 } else if x == 151 { 0x88 } else if x == 152 { 0x46 } else if x == 153 { 0xee } else if x == 154 { 0xb8 } else if x == 155 { 0x14 } else if x == 156 { 0xde } else if x == 157 { 0x5e } else if x == 158 { 0x0b } else if x == 159 { 0xdb } else if x == 160 { 0xe0 } else if x == 161 { 0x32 } else if x == 162 { 0x3a } else if x == 163 { 0x0a } else if x == 164 { 0x49 } else if x == 165 { 0x06 } else if x == 166 { 0x24 } else if x == 167 { 0x5c } else if x == 168 { 0xc2 } else if x == 169 { 0xd3 } else if x == 170 { 0xac } else if x == 171 { 0x62 } else if x == 172 { 0x91 } else if x == 173 { 0x95 } else if x == 174 { 0xe4 } else if x == 175 { 0x79 } else if x == 176 { 0xe7 } else if x == 177 { 0xc8 } else if x == 178 { 0x37 } else if x == 179 { 0x6d } else if x == 180 { 0x8d } else if x == 181 { 0xd5 } else if x == 182 { 0x4e } else if x == 183 { 0xa9 } else if x == 184 { 0x6c } else if x == 185 { 0x56 } else if x == 186 { 0xf4 } else if x == 187 { 0xea } else if x == 188 { 0x65 } else if x == 189 { 0x7a } else if x == 190 { 0xae } else if x == 191 { 0x08 } else if x == 192 { 0xba } else if x == 193 { 0x78 } else if x == 194 { 0x25 } else if x == 195 { 0x2e } else if x == 196 { 0x1c } else if x == 197 { 0xa6 } else if x == 198 { 0xb4 } else if x == 199 { 0xc6 } else if x == 200 { 0xe8 } else if x == 201 { 0xdd } else if x == 202 { 0x74 } else if x == 203 { 0x1f } else if x == 204 { 0x4b } else if x == 205 { 0xbd } else if x == 206 { 0x8b } else if x == 207 { 0x8a } else if x == 208 { 0x70 } else if x == 209 { 0x3e } else if x == 210 { 0xb5 } else if x == 211 { 0x66 } else if x == 212 { 0x48 } else if x == 213 { 0x03 } else if x == 214 { 0xf6 } else if x == 215 { 0x0e } else if x == 216 { 0x61 } else if x == 217 { 0x35 } else if x == 218 { 0x57 } else if x == 219 { 0xb9 } else if x == 220 { 0x86 } else if x == 221 { 0xc1 } else if x == 222 { 0x1d } else if x == 223 { 0x9e } else if x == 224 { 0xe1 } else if x == 225 { 0xf8 } else if x == 226 { 0x98 } else if x == 227 { 0x11 } else if x == 228 { 0x69 } else if x == 229 { 0xd9 } else if x == 230 { 0x8e } else if x == 231 { 0x94 } else if x == 232 { 0x9b } else if x == 233 { 0x1e } else if x == 234 { 0x87 } else if x == 235 { 0xe9 } else if x == 236 { 0xce } else if x == 237 { 0x55 } else if x == 238 { 0x28 } else if x == 239 { 0xdf } else if x == 240 { 0x8c } else if x == 241 { 0xa1 } else if x == 242 { 0x89 } else if x == 243 { 0x0d } else if x == 244 { 0xbf } else if x == 245 { 0xe6 } else if x == 246 { 0x42 } else if x == 247 { 0x68 } else if x == 248 { 0x41 } else if x == 249 { 0x99 } else if x == 250 { 0x2d } else if x == 251 { 0x0f } else if x == 252 { 0xb0 } else if x == 253 { 0x54 } else if x == 254 { 0xbb } else { 0x16 }
}

/// `inv_sub_byte` in the same comparison-chain form.
spec fn inv_sub_byte_chain(x: u8) -> u8 {
    if x == 0 { 0x52 } else if x == 1 { 0x09 } else if x == 2 { 0x6a } else if x == 3 { 0xd5 } else if x == 4 { 0x30 } else if x == 5 { 0x36 } else if x == 6 { 0xa5 } else if x == 7 { 0x38 } else if x == 8 { 0xbf } else if x == 9 { 0x40 } else if x == 10 { 0xa3 } else if x == 11 { 0x9e } else if x == 12 { 0x81 } else if x == 13 { 0xf3 } else if x == 14 { 0xd7 } else if x == 15 { 0xfb } else if x == 16 { 0x7c } else if x == 17 { 0xe3 } else if x == 18 { 0x39 } else if x == 19 { 0x82 } else if x == 20 { 0x9b } else if x == 21 { 0x2f } else if x == 22 { 0xff } else if x == 23 { 0x87 } else if x == 24 { 0x34 } else if x == 25 { 0x8e } else if x == 26 { 0x43 } else if x == 27 { 0x44 } else if x == 28 { 0xc4 } else if x == 29 { 0xde } else if x == 30 { 0xe9 } else if x == 31 { 0xcb } else if x == 32 { 0x54 } else if x == 33 { 0x7b } else if x == 34 { 0x94 } else if x == 35 { 0x32 } else if x == 36 { 0xa6 } else if x == 37 { 0xc2 } else if x == 38 { 0x23 } else if x == 39 { 0x3d } else if x == 40 { 0xee } else if x == 41 { 0x4c } else if x == 42 { 0x95 } else if x == 43 { 0x0b } else if x == 44 { 0x42 } else if x == 45 { 0xfa } else if x == 46 { 0xc3 } else if x == 47 { 0x4e } else if x == 48 { 0x08 } else if x == 49 { 0x2e } else if x == 50 { 0xa1 } else if x == 51 { 0x66 } else if x == 52 { 0x28 } else if x == 53 { 0xd9 } else if x == 54 { 0x24 } else if x == 55 { 0xb2 } else if x == 56 { 0x76 } else if x == 57 { 0x5b } else if x == 58 { 0xa2 } else if x == 59 { 0x49 } else if x == 60 { 0x6d } else if x == 61 { 0x8b } else if x == 62 { 0xd1 } else if x == 63 { 0x25 } else if x == 64 { 0x72 } else if x == 65 { 0xf8 } else if x == 66 { 0xf6 } else if x == 67 { 0x64 } else if x == 68 { 0x86 } else if x == 69 { 0x68 } else if x == 70 { 0x98 } else if x == 71 { 0x16 } else if x == 72 { 0xd4 } else if x == 73 { 0xa4 } else if x == 74 { 0x5c } else if x == 75 { 0xcc } else if x == 76 { 0x5d } else if x == 77 { 0x65 } else if x == 78 { 0xb6 } else if x == 79 { 0x92 } else if x == 80 { 0x6c } else if x == 81 { 0x70 } else if x == 82 { 0x48 } else if x == 83 { 0x50 } else if x == 84 { 0xfd } else if x == 85 { 0xed } else if x == 86 { 0xb9 } else if x == 87 { 0xda } else if x == 88 { 0x5e } else if x == 89 { 0x15 } else if x == 90 { 0x46 } else if x == 91 { 0x57 } else if x == 92 { 0xa7 } else if x == 93 { 0x8d } else if x == 94 { 0x9d } else if x == 95 { 0x84 } else if x == 96 { 0x90 } else if x == 97 { 0xd8 } else if x == 98 { 0xab } else if x == 99 { 0x00 } else if x == 100 { 0x8c } else if x == 101 { 0xbc } else if x == 102 { 0xd3 } else if x == 103 { 0x0a } else if x == 104 { 0xf7 } else if x == 105 { 0xe4 } else if x == 106 { 0x58 } else if x == 107 { 0x05 } else if x == 108 { 0xb8 } else if x == 109 { 0xb3 } else if x == 110 { 0x45 } else if x == 111 { 0x06 } else if x == 112 { 0xd0 } else if x == 113 { 0x2c } else if x == 114 { 0x1e } else if x == 115 { 0x8f } else if x == 116 { 0xca } else if x == 117 { 0x3f } else if x == 118 { 0x0f } else if x == 119 { 0x02 } else if x == 120 { 0xc1 } else if x == 121 { 0xaf } else if x == 122 { 0xbd } else if x == 123 { 0x03 } else if x == 124 { 0x01 } else if x == 125 { 0x13 } else if x == 126 { 0x8a } else if x == 127 { 0x6b } else if x == 128 { 0x3a } else if x == 129 { 0x91 } else if x == 130 { 0x11 } else if x == 131 { 0x41 } else if x == 132 { 0x4f } else if x == 133 { 0x67 } else if x == 134 { 0xdc } else if x == 135 { 0xea } else if x == 136 { 0x97 } else if x == 137 { 0xf2 } else if x == 138 { 0xcf } else if x == 139 { 0xce } else if x == 140 { 0xf0 } else if x == 141 { 0xb4 } else if x == 142 { 0xe6 } else if x == 143 { 0x73 } else if x == 144 { 0x96 } else if x == 145 { 0xac } else if x == 146 { 0x74 } else if x == 147 { 0x22 } else if x == 148 { 0xe7 } else if x == 149 { 0xad } else if x == 150 { 0x35 } else if x == 151 { 0x85 } else if x == 152 { 0xe2 } else if x == 153 { 0xf9 } else if x == 154 { 0x37 } else if x == 155 { 0xe8 } else if x == 156 { 0x1c } else if x == 157 { 0x75 } else if x == 158 { 0xdf } else if x == 159 { 0x6e } else if x == 160 { 0x47 } else if x == 161 { 0xf1 } else if x == 162 { 0x1a } else if x == 163 { 0x71 } else if x == 164 { 0x1d } else if x == 165 { 0x29 } else if x == 166 { 0xc5 } else if x == 167 { 0x89 } else if x == 168 { 0x6f } else if x == 169 { 0xb7 } else if x == 170 { 0x62 } else if x == 171 { 0x0e } else if x == 172 { 0xaa } else if x == 173 { 0x18 } else if x == 174 { 0xbe } else if x == 175 { 0x1b } else if x == 176 { 0xfc } else if x == 177 { 0x56 } else if x == 178 { 0x3e } else if x == 179 { 0x4b } else if x == 180 { 0xc6 } else if x == 181 { 0xd2 } else if x == 182 { 0x79 } else if x == 183 { 0x20 } else if x == 184 { 0x9a } else if x == 185 { 0xdb } else if x == 186 { 0xc0 } else if x == 187 { 0xfe } else if x == 188 { 0x78 } else if x == 189 { 0xcd } else if x == 190 { 0x5a } else if x == 191 { 0xf4 } else if x == 192 { 0x1f } else if x == 193 { 0xdd } else if x == 194 { 0xa8 } else if x == 195 { 0x33 } else if x == 196 { 0x88 } else if x == 197 { 0x07 } else if x == 198 { 0xc7 } else if x == 199 { 0x31 } else if x == 200 { 0xb1 } else if x == 201 { 0x12 } else if x == 202 { 0x10 } else if x == 203 { 0x59 } else if x == 204 { 0x27 } else if x == 205 { 0x80 } else if x == 206 { 0xec } else if x == 207 { 0x5f } else if x == 208 { 0x60 } else if x == 209 { 0x51 } else if x == 210 { 0x7f } else if x == 211 { 0xa9 } else if x == 212 { 0x19 } else if x == 213 { 0xb5 } else if x == 214 { 0x4a } else if x == 215 { 0x0d } else if x == 216 { 0x2d } else if x == 217 { 0xe5 } else if x == 218 { 0x7a } else if x == 219 { 0x9f } else if x == 220 { 0x93 } else if x == 221 { 0xc9 } else if x == 222 { 0x9c } else if x == 223 { 0xef } else if x == 224 { 0xa0 } else if x == 225 { 0xe0 } else if x == 226 { 0x3b } else if x == 227 { 0x4d } else if x == 228 { 0xae } else if x == 229 { 0x2a } else if x == 230 { 0xf5 } else if x == 231 { 0xb0 } else if x == 232 { 0xc8 } else if x == 233 { 0xeb } else if x == 234 { 0xbb } else if x == 235 { 0x3c } else if x == 236 { 0x83 } else if x == 237 { 0x53 } else if x == 238 { 0x99 } else if x == 239 { 0x61 } else if x == 240 { 0x17 } else if x == 241 { 0x2b } else if x == 242 { 0x04 } else if x == 243 { 0x7e } else if x == 244 { 0xba } else if x == 245 { 0x77 } else if x == 246 { 0xd6 } else if x == 247 { 0x26 } else if x == 248 { 0xe1 } else if x == 249 { 0x69 } else if x == 250 { 0x14 } else if x == 251 { 0x63 } else if x == 252 { 0x55 } else if x == 253 { 0x21 } else if x == 254 { 0x0c } else { 0x7d }
}

/// The two substitution tables are inverse permutations of the byte values:
/// applying `INV_SBOX` after `SBOX` (or the other way round) gives every byte
/// back.
#[verifier::rlimit(100)]
pub proof fn lemma_sbox_inverse()
    ensures
        forall|x: u8| #[trigger] inv_sub_byte(sub_byte(x)) == x,
        forall|x: u8| #[trigger] sub_byte(inv_sub_byte(x)) == x,
{
    assert(forall|x: u8| #[trigger] SBOX[x as int] == sub_byte_chain(x));
    assert(forall|x: u8| #[trigger] INV_SBOX[x as int] == inv_sub_byte_chain(x));
    assert(forall|x: u8| #[trigger] inv_sub_byte_chain(sub_byte_chain(x)) == x) by (bit_vector);
    assert(forall|x: u8| #[trigger] sub_byte_chain(inv_sub_byte_chain(x)) == x) by (bit_vector);
}

/// Substitute one byte through the S-Box.
pub fn sbox_lookup(x: u8) -> (r: u8)
    ensures
        r == sub_byte(x),
{
    SBOX[x as usize]
}

/// Substitute one byte through the inverse S-Box.
pub fn inv_sbox_lookup(x: u8) -> (r: u8)
    ensures
        r == inv_sub_byte(x),
{
    INV_SBOX[x as usize]
}

} // verus!
