use a2ir::flags::{COND_EQ, COND_GE, COND_LT, COND_NE, SET_FLAGS, W32};
use a2ir::{
    fad_get_addrmode, fad_get_cond, fad_get_mem_extend, fad_get_prec, fad_get_vec_arrangement,
    fad_size_from_vec_arrangement, invert_cond, set_addrmode, set_cond, set_mem_extend, set_prec,
    set_vec_arrangement,
};

#[test]
fn condition_reads_back() {
    let f = set_cond(W32 | SET_FLAGS, COND_GE);
    assert_eq!(f, 0xA3);
    assert_eq!(fad_get_cond(f), COND_GE);
    assert_eq!(f & 0x0F, W32 | SET_FLAGS);
    // Only the low four bits of the condition are taken.
    assert_eq!(fad_get_cond(set_cond(0, 0xF1)), 0x1);
}

#[test]
fn condition_inverts_to_its_opposite() {
    assert_eq!(fad_get_cond(invert_cond(set_cond(0, COND_EQ))), COND_NE);
    assert_eq!(fad_get_cond(invert_cond(set_cond(0, COND_NE))), COND_EQ);
    assert_eq!(invert_cond(0xA3), 0xB3);
    assert_eq!(fad_get_cond(invert_cond(0xA3)), COND_LT);
}

#[test]
fn three_bit_field_reads_back() {
    assert_eq!(set_addrmode(0, 5), 0b0001_0100);
    assert_eq!(fad_get_addrmode(set_addrmode(0xFF, 2)), 2);
    assert_eq!(set_addrmode(0xFF, 0), 0b1110_0011);
    assert_eq!(fad_get_mem_extend(set_mem_extend(0x03, 6)), 6);
    assert_eq!(fad_get_vec_arrangement(set_vec_arrangement(0x80, 7)), 7);
    assert_eq!(fad_get_prec(set_prec(0x02, 3)), 3);
    // Only the low three bits of the value are taken.
    assert_eq!(set_addrmode(0, 0xF9), set_addrmode(0, 1));
}

#[test]
fn vector_arrangement_size_drops_q() {
    assert_eq!(fad_size_from_vec_arrangement(0b111), 0b11);
    assert_eq!(fad_size_from_vec_arrangement(0b010), 0b01);
    assert_eq!(fad_size_from_vec_arrangement(0), 0);
}

#[test]
fn flags_sub_ranges_stay_apart() {
    let setters: [fn(u8, u8) -> u8; 4] = [set_addrmode, set_mem_extend, set_vec_arrangement, set_prec];
    for flags in 0u8..=255 {
        for v in 0u8..8 {
            for set in setters {
                let r = set(flags, v);
                assert_eq!(r & W32, flags & W32);
                assert_eq!(r & SET_FLAGS, flags & SET_FLAGS);
                assert_eq!(fad_get_cond(r) >> 1, fad_get_cond(flags) >> 1);
                if (v >> 2) == (fad_get_cond(flags) & 1) {
                    assert_eq!(fad_get_cond(r), fad_get_cond(flags));
                }
            }
        }
        for c in 0u8..16 {
            let r = set_cond(flags, c);
            assert_eq!(r & W32, flags & W32);
            assert_eq!(r & SET_FLAGS, flags & SET_FLAGS);
            assert_eq!(fad_get_addrmode(r) & 0b11, fad_get_addrmode(flags) & 0b11);
            if (c & 1) == (fad_get_addrmode(flags) >> 2) {
                assert_eq!(fad_get_addrmode(r), fad_get_addrmode(flags));
            }
        }
    }
}

#[test]
fn address_mode_keeps_width_set_flags_and_condition() {
    // Condition GE (low bit 0) and an address mode whose top bit is 0.
    let f = set_addrmode(0xA3, 1);
    assert_eq!(f, 0xA7);
    assert_eq!(f & W32, W32);
    assert_eq!(f & SET_FLAGS, SET_FLAGS);
    assert_eq!(fad_get_cond(f), COND_GE);
    assert_eq!(fad_get_addrmode(f), 1);
}
