use a2ir::{decode_bitmask, sext};

/// Rotates the low `e` bits of `x` left by `r`.
fn rol(x: u64, r: u32, e: u32) -> u64 {
    let mask: u64 = if e == 64 { u64::MAX } else { (1u64 << e) - 1 };
    let x = x & mask;
    if r == 0 {
        return x;
    }
    ((x << r) | (x >> (e - r))) & mask
}

#[test]
fn bitmask_four_ones_in_a_word() {
    assert_eq!(decode_bitmask(0, 0b000011, 0, true), 0x0000_000F);
}

#[test]
fn bitmask_single_bit_doubleword() {
    assert_eq!(decode_bitmask(1, 0, 0, false), 1);
    // The full-width element rotated right by one.
    assert_eq!(decode_bitmask(1, 0, 1, false), 0x8000_0000_0000_0000);
    assert_eq!(decode_bitmask(1, 62, 0, false), 0x7FFF_FFFF_FFFF_FFFF);
}

#[test]
fn bitmask_repeats_small_elements() {
    // Two-bit elements holding one bit.
    assert_eq!(decode_bitmask(0, 0b111100, 0, false), 0x5555_5555_5555_5555);
    assert_eq!(decode_bitmask(0, 0b111100, 1, false), 0xAAAA_AAAA_AAAA_AAAA);
    assert_eq!(decode_bitmask(0, 0b111100, 0, true), 0x5555_5555);
    // Eight-bit elements holding three bits, rotated right by two.
    assert_eq!(decode_bitmask(0, 0b110010, 2, false), 0xC1C1_C1C1_C1C1_C1C1);
    // Sixteen-bit elements: the rotation is taken modulo the element size.
    assert_eq!(decode_bitmask(0, 0b100000, 0b010001, true), 0x8000_8000);
}

#[test]
fn bitmask_word_rotation() {
    assert_eq!(decode_bitmask(0, 0, 1, true), 0x8000_0000);
    assert_eq!(decode_bitmask(0, 0b000111, 4, true), 0xF000_000F);
}

#[test]
fn bitmask_fields_are_masked() {
    assert_eq!(decode_bitmask(0xFE, 0b1100_0011, 0b1100_0000, true), 0x0000_000F);
}

#[test]
fn bitmask_round_trip_on_all_encodings() {
    for n in 0u8..2 {
        for imms in 0u8..64 {
            if n == 0 && imms == 63 {
                continue;
            }
            let sel: u32 = ((n as u32) << 6) | (!imms as u32 & 0x3F);
            let len = 31 - sel.leading_zeros();
            let esize = 1u32 << len;
            let s = (imms as u32) & (esize - 1);
            for immr in 0u8..64 {
                let r = (immr as u32) & (esize - 1);
                let ones: u64 = if s + 1 == 64 { u64::MAX } else { (1u64 << (s + 1)) - 1 };
                let m = decode_bitmask(n, imms, immr, false);
                assert_eq!(rol(m, r, esize), ones);
                if n == 0 {
                    let m32 = decode_bitmask(n, imms, immr, true);
                    assert_eq!(rol(m32, r, esize), ones);
                    assert_eq!(m32 as u64, m & 0xFFFF_FFFF);
                    assert_eq!(m32 >> 32, 0);
                }
            }
        }
    }
}

#[test]
fn sign_extension() {
    assert_eq!(sext(0x1F_FFFF, 21), -1);
    assert_eq!(sext(0x0F_FFFF, 21), 0x0F_FFFF);
    assert_eq!(sext(0x10_0000, 21), -0x10_0000);
    assert_eq!(sext(1, 1), -1);
    assert_eq!(sext(0, 1), 0);
    assert_eq!(sext(u64::MAX, 64), -1);
    assert_eq!(sext(0x8000_0000_0000_0000, 64), i64::MIN);
    assert_eq!(sext(0x7FFF_FFFF_FFFF_FFFF, 64), i64::MAX);
}
