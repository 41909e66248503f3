//! Small encodings shared by operands: access sizes, vector arrangements,
//! extension kinds and shift kinds.
use vstd::prelude::*;

verus! {

/// Byte, 8 bits.
pub const SZ_B: u8 = 0b00;
/// Halfword, 16 bits.
pub const SZ_H: u8 = 0b01;
/// Word, 32 bits.
pub const SZ_W: u8 = 0b10;
/// Doubleword, 64 bits.
pub const SZ_X: u8 = 0b11;

/// Floating-point byte, 8 bits.
pub const FSZ_B: u8 = SZ_B;
/// Half precision, 16 bits.
pub const FSZ_H: u8 = SZ_H;
/// Single precision, 32 bits.
pub const FSZ_S: u8 = SZ_W;
/// Double precision, 64 bits.
pub const FSZ_D: u8 = SZ_X;
/// Quad precision, 128 bits; never encoded this way in an instruction.
pub const FSZ_Q: u8 = 0b111;

/// Vector arrangement size(2):Q(1). Eight bytes, 64 bits.
pub const VA_8B: u8 = (FSZ_B << 1) | 0;
/// Sixteen bytes, 128 bits.
pub const VA_16B: u8 = (FSZ_B << 1) | 1;
/// Four halfwords, 64 bits.
pub const VA_4H: u8 = (FSZ_H << 1) | 0;
/// Eight halfwords, 128 bits.
pub const VA_8H: u8 = (FSZ_H << 1) | 1;
/// Two words, 64 bits.
pub const VA_2S: u8 = (FSZ_S << 1) | 0;
/// Four words, 128 bits.
pub const VA_4S: u8 = (FSZ_S << 1) | 1;
/// One doubleword, 64 bits.
pub const VA_1D: u8 = (FSZ_D << 1) | 0;
/// Two doublewords, 128 bits.
pub const VA_2D: u8 = (FSZ_D << 1) | 1;

/// Extension kind signed(1):size(2). Zero-extend a byte.
pub const UXTB: u8 = (0 << 2) | SZ_B;
/// Zero-extend a halfword.
pub const UXTH: u8 = (0 << 2) | SZ_H;
/// Zero-extend a word.
pub const UXTW: u8 = (0 << 2) | SZ_W;
/// Zero-extend a doubleword.
pub const UXTX: u8 = (0 << 2) | SZ_X;
/// Sign-extend a byte.
pub const SXTB: u8 = (1 << 2) | SZ_B;
/// Sign-extend a halfword.
pub const SXTH: u8 = (1 << 2) | SZ_H;
/// Sign-extend a word.
pub const SXTW: u8 = (1 << 2) | SZ_W;
/// Sign-extend a doubleword.
pub const SXTX: u8 = (1 << 2) | SZ_X;

/// Logical shift left.
pub const SH_LSL: u8 = 0b00;
/// Logical shift right.
pub const SH_LSR: u8 = 0b01;
/// Arithmetic shift right.
pub const SH_ASR: u8 = 0b10;
/// Rotate right.
pub const SH_ROR: u8 = 0b11;
/// Reserved in shifted add/sub; only RORV rotates.
pub const SH_RESERVED: u8 = SH_ROR;

} // verus!
