//! The flags byte of an instruction record.
//!
//! One byte holds several small attributes, laid out as follows:
//!
//! * bit 0: the operation works on the 32-bit W registers;
//! * bit 1: the operation sets the NZCV condition flags;
//! * bits 2..=4: a three-bit field whose meaning depends on the kind of
//!   operation (addressing mode of a load/store, its access size and
//!   extension, the vector arrangement or the scalar precision of a SIMD
//!   operation); no operation uses two of these;
//! * bits 4..=7: the condition of a conditional operation, or the SIMD
//!   sub-flags in bits 5..=7.
//!
//! Bit 4 is shared between the three-bit field and the condition; no
//! operation needs both. Each setter below changes its own bits only.
use vstd::prelude::*;

verus! {

/// Bit 0: the operation uses the 32-bit W0..W31 facets of the registers.
pub const W32: u8 = 0b0000_0001;

/// Bit 1: the operation sets the NZCV flags (the S suffix of a mnemonic).
pub const SET_FLAGS: u8 = 0b0000_0010;

/// SIMD: the operation is scalar; its precision is in the three-bit field.
pub const SIMD_SCALAR: u8 = 0b0010_0000;

/// Integer SIMD: the values are signed.
pub const SIMD_SIGNED: u8 = 0b0100_0000;

/// Integer SIMD: the result is rounded instead of truncated.
pub const SIMD_ROUND: u8 = 0b1000_0000;

pub const COND_EQ: u8 = 0b0000;
pub const COND_NE: u8 = 0b0001;
pub const COND_CS: u8 = 0b0010;
pub const COND_HS: u8 = 0b0010;
pub const COND_CC: u8 = 0b0011;
pub const COND_LO: u8 = 0b0011;
pub const COND_MI: u8 = 0b0100;
pub const COND_PL: u8 = 0b0101;
pub const COND_VS: u8 = 0b0110;
pub const COND_VC: u8 = 0b0111;
pub const COND_HI: u8 = 0b1000;
pub const COND_LS: u8 = 0b1001;
pub const COND_GE: u8 = 0b1010;
pub const COND_LT: u8 = 0b1011;
pub const COND_GT: u8 = 0b1100;
pub const COND_LE: u8 = 0b1101;
pub const COND_AL: u8 = 0b1110;
pub const COND_NV: u8 = 0b1111;

/// `[base]`: atomics, exclusive and ordered loads and stores.
pub const AM_SIMPLE: u8 = 0;
/// `[base, #imm]`
pub const AM_OFF_IMM: u8 = 1;
/// `[base, Xm, {LSL #imm}]`
pub const AM_OFF_REG: u8 = 2;
/// `[base, Wm, {S|U}XTW {#imm}]`
pub const AM_OFF_EXT: u8 = 3;
/// `[base, #imm]!`
pub const AM_PRE: u8 = 4;
/// `[base], #imm` (or `[base], Xm`)
pub const AM_POST: u8 = 5;
/// `label`
pub const AM_LITERAL: u8 = 6;

/// Whether the 32-bit operand bit is set.
pub open spec fn width_bit(flags: u8) -> bool {
    flags % 2 == 1
}

/// Whether the set-flags bit is set.
pub open spec fn set_flags_bit(flags: u8) -> bool {
    (flags / 2) % 2 == 1
}

/// The three-bit field in bits 2..=4.
pub open spec fn tribit_of(flags: u8) -> u8 {
    ((flags / 4) % 8) as u8
}

/// The condition nibble in bits 4..=7.
pub open spec fn cond_of(flags: u8) -> u8 {
    (flags / 16) as u8
}

/// `flags` with bits 2..=4 replaced by the low three bits of `v`.
pub open spec fn with_tribit(flags: u8, v: u8) -> u8 {
    (flags % 4 + (v % 8) * 4 + (flags / 32) * 32) as u8
}

/// `flags` with bits 4..=7 replaced by the low four bits of `c`.
pub open spec fn with_cond(flags: u8, c: u8) -> u8 {
    (flags % 16 + (c % 16) * 16) as u8
}

/// The condition with its lowest bit flipped: the opposite condition.
pub open spec fn inverted(c: u8) -> u8 {
    if c % 2 == 0 {
        (c + 1) as u8
    } else {
        (c - 1) as u8
    }
}

proof fn lemma_tribit_bits(flags: u8, v: u8)
    ensures
        ((v & 0b111) << 2u8) | (flags & 0b11100011) == with_tribit(flags, v),
        (flags >> 2u8) & 0b111 == tribit_of(flags),
{
    assert(((v & 0b111) << 2u8) | (flags & 0b11100011) == (flags % 4 + (v % 8) * 4 + (flags / 32)
        * 32) as u8) by (bit_vector);
    assert((flags >> 2u8) & 0b111 == ((flags / 4) % 8) as u8) by (bit_vector);
}

/// The condition of a conditional operation.
pub fn fad_get_cond(flags: u8) -> (r: u8)
    ensures
        r == cond_of(flags),
{
    assert((flags >> 4u8) & 0b1111 == (flags / 16) as u8) by (bit_vector);
    (flags >> 4) & 0b1111
}

/// `flags` with the condition set to the low four bits of `cond`.
pub fn set_cond(flags: u8, cond: u8) -> (r: u8)
    ensures
        r == with_cond(flags, cond),
{
    let c = cond & 0xF;
    let low = flags & 0x0F;
    assert((c << 4u8) | (flags & 0x0F) == (flags % 16 + (cond % 16) * 16) as u8) by (bit_vector)
        requires
            c == cond & 0xF,
    ;
    (c << 4) | low
}

/// `flags` with the condition replaced by its opposite (EQ and NE, CS and
/// CC, and so on); the other bits stay.
pub fn invert_cond(flags: u8) -> (r: u8)
    ensures
        r == with_cond(flags, inverted(cond_of(flags))),
{
    let cond = fad_get_cond(flags);
    assert(cond ^ 1 == inverted(cond)) by (bit_vector)
        requires
            cond < 16,
    ;
    set_cond(flags, cond ^ 0b001)
}

/// Addressing mode of a load or store.
pub fn fad_get_addrmode(flags: u8) -> (r: u8)
    ensures
        r == tribit_of(flags),
{
    proof {
        lemma_tribit_bits(flags, 0);
    }
    (flags >> 2) & 0b111
}

/// `flags` with the addressing mode set to the low three bits of `mode`.
pub fn set_addrmode(flags: u8, mode: u8) -> (r: u8)
    ensures
        r == with_tribit(flags, mode),
{
    proof {
        lemma_tribit_bits(flags, mode);
    }
    ((mode & 0b111) << 2) | (flags & 0b11100011)
}

/// Access size and sign or zero extension of a load or store.
pub fn fad_get_mem_extend(flags: u8) -> (r: u8)
    ensures
        r == tribit_of(flags),
{
    proof {
        lemma_tribit_bits(flags, 0);
    }
    (flags >> 2) & 0b111
}

/// `flags` with the memory extension set to the low three bits of `memext`.
pub fn set_mem_extend(flags: u8, memext: u8) -> (r: u8)
    ensures
        r == with_tribit(flags, memext),
{
    proof {
        lemma_tribit_bits(flags, memext);
    }
    ((memext & 0b111) << 2) | (flags & 0b11100011)
}

/// Vector arrangement of a SIMD operation.
pub fn fad_get_vec_arrangement(flags: u8) -> (r: u8)
    ensures
        r == tribit_of(flags),
{
    proof {
        lemma_tribit_bits(flags, 0);
    }
    (flags >> 2) & 0b111
}

/// `flags` with the vector arrangement set to the low three bits of `va`.
pub fn set_vec_arrangement(flags: u8, va: u8) -> (r: u8)
    ensures
        r == with_tribit(flags, va),
{
    proof {
        lemma_tribit_bits(flags, va);
    }
    ((va & 0b111) << 2) | (flags & 0b11100011)
}

/// Precision of a scalar SIMD operation.
pub fn fad_get_prec(flags: u8) -> (r: u8)
    ensures
        r == tribit_of(flags),
{
    proof {
        lemma_tribit_bits(flags, 0);
    }
    (flags >> 2) & 0b111
}

/// `flags` with the scalar precision set to the low three bits of `prec`.
pub fn set_prec(flags: u8, prec: u8) -> (r: u8)
    ensures
        r == with_tribit(flags, prec),
{
    proof {
        lemma_tribit_bits(flags, prec);
    }
    ((prec & 0b111) << 2) | (flags & 0b11100011)
}

/// The element size of a vector arrangement, dropping its Q bit.
pub fn fad_size_from_vec_arrangement(va: u8) -> (r: u8)
    ensures
        r == va / 2,
{
    assert(va >> 1u8 == va / 2) by (bit_vector);
    va >> 1
}

/// Writing the three-bit field reads back as written, and keeps the 32-bit
/// operand bit, the set-flags bit and the upper three bits of the condition.
pub proof fn lemma_tribit_isolation(flags: u8, v: u8)
    ensures
        tribit_of(with_tribit(flags, v)) == v % 8,
        width_bit(with_tribit(flags, v)) == width_bit(flags),
        set_flags_bit(with_tribit(flags, v)) == set_flags_bit(flags),
        cond_of(with_tribit(flags, v)) / 2 == cond_of(flags) / 2,
{
}

/// Writing the three-bit field keeps the whole condition when the field's
/// top bit agrees with the condition's low bit, the one bit that they share.
pub proof fn lemma_tribit_keeps_cond(flags: u8, v: u8)
    requires
        (v % 8) / 4 == cond_of(flags) % 2,
    ensures
        cond_of(with_tribit(flags, v)) == cond_of(flags),
{
}

/// Writing the condition reads back as written, and keeps the 32-bit operand
/// bit, the set-flags bit and the lower two bits of the three-bit field.
pub proof fn lemma_cond_isolation(flags: u8, c: u8)
    ensures
        cond_of(with_cond(flags, c)) == c % 16,
        width_bit(with_cond(flags, c)) == width_bit(flags),
        set_flags_bit(with_cond(flags, c)) == set_flags_bit(flags),
        tribit_of(with_cond(flags, c)) % 4 == tribit_of(flags) % 4,
{
}

/// Writing the condition keeps the whole three-bit field when the
/// condition's low bit agrees with the field's top bit.
pub proof fn lemma_cond_keeps_tribit(flags: u8, c: u8)
    requires
        (c % 16) % 2 == tribit_of(flags) / 4,
    ensures
        tribit_of(with_cond(flags, c)) == tribit_of(flags),
{
}

} // verus!
