//! The canonical encoding must agree byte-for-byte with the SCALE codec that
//! off-line signers use.

use meta_tx::codec::{push_bytes, push_compact_len, push_le_bytes};
use parity_scale_codec::{Compact, Encode};

fn compact_bytes(n: u32) -> Vec<u8> {
    let mut out: Vec<u8> = Vec::new();
    push_compact_len(&mut out, n);
    out
}

#[test]
fn compact_length_matches_scale_all_modes() {
    for n in [
        0u32,
        1,
        63,
        64,
        255,
        16383,
        16384,
        65536,
        1073741823,
        1073741824,
        u32::MAX,
    ] {
        assert_eq!(compact_bytes(n), Compact(n).encode(), "length {n}");
    }
}

#[test]
fn le_bytes_match_scale_fixed_width_integers() {
    let mut out: Vec<u8> = Vec::new();
    push_le_bytes(&mut out, 0x1122334455667788u128, 8);
    assert_eq!(out, 0x1122334455667788u64.encode());

    let mut out16: Vec<u8> = Vec::new();
    push_le_bytes(&mut out16, 0xDEADBEEFu128, 16);
    assert_eq!(out16, 0xDEADBEEFu128.encode());
}

#[test]
fn push_bytes_appends_verbatim() {
    let mut out: Vec<u8> = vec![9u8];
    push_bytes(&mut out, &[1, 2, 3]);
    assert_eq!(out, vec![9u8, 1, 2, 3]);
}
