//! Decoder for the AArch64 "Data Processing -- Immediate" instruction class.
//!
//! A 32-bit A64 instruction word is turned into a flat [`Inst`] record: an
//! operation code, a packed flags byte and the operands that the operation
//! uses. Every field that an operation does not use keeps the value of the
//! blank record, so records can be compared field by field.
#![allow(non_snake_case)]
#![allow(non_camel_case_types)]

pub mod alias;
pub mod bitmask;
pub mod decode;
pub mod flags;
pub mod inst;
pub mod opcode;
pub mod operand;
pub mod registers;

pub use alias::find_bfm_alias;
pub use bitmask::decode_bitmask;
pub use decode::{data_proc_imm, sext};
pub use flags::{
    fad_get_addrmode, fad_get_cond, fad_get_mem_extend, fad_get_prec, fad_get_vec_arrangement,
    fad_size_from_vec_arrangement, invert_cond, set_addrmode, set_cond, set_mem_extend, set_prec,
    set_vec_arrangement,
};
pub use inst::{
    errinst, unknown_inst, Bfm, Ccmp, Extend, FcmlaElem, Fcvt, Frint, InsElem, Inst, InstShift,
    LdstOrder, Movk, MsrImm, Rmif, SimdLdst, Sys, Tbz,
};
pub use opcode::{FPRounding, MemOrdering, Op, PStateField};
pub use registers::{regRd, regRdSP, regRm, regRmSP, regRn, regRnSP, STACK_POINTER, ZERO_REG};
