//! Register operand fields and the zero-register / stack-pointer split.
//!
//! Register 31 means either the zero register (reads as zero, writes are
//! discarded) or the stack pointer, depending on the instruction. The decoder
//! keeps 31 for the zero register and gives the stack pointer a number of its
//! own, so that users of a record never need to know which instructions read
//! register 31 as which.
use vstd::prelude::*;

verus! {

/// Register number of the zero register (WZR/XZR).
pub const ZERO_REG: u8 = 31;

/// Register number given to the stack pointer (WSP/SP); outside the 0..=31
/// range of encodable register numbers.
pub const STACK_POINTER: u8 = 100;

/// The five-bit destination register field, bits 0..=4.
pub open spec fn rd_field(binst: u32) -> u32 {
    binst % 32
}

/// The five-bit first operand register field, bits 5..=9.
pub open spec fn rn_field(binst: u32) -> u32 {
    (binst / 32) % 32
}

/// The five-bit second operand register field, bits 16..=20.
pub open spec fn rm_field(binst: u32) -> u32 {
    (binst / 0x1_0000) % 32
}

/// A register field read with 31 as the zero register.
pub open spec fn zr_reg(field: u32) -> u8
    recommends
        field < 32,
{
    field as u8
}

/// A register field read with 31 as the stack pointer.
pub open spec fn sp_reg(field: u32) -> u8
    recommends
        field < 32,
{
    if field == 31 {
        STACK_POINTER
    } else {
        field as u8
    }
}

/// Destination register Rd; 31 is the zero register.
pub fn regRd(binst: u32) -> (r: u8)
    ensures
        r == zr_reg(rd_field(binst)),
        r < 32,
{
    assert(binst & 0b11111 == binst % 32) by (bit_vector);
    (binst & 0b11111) as u8
}

/// Destination register Rd; 31 is the stack pointer.
pub fn regRdSP(binst: u32) -> (r: u8)
    ensures
        r == sp_reg(rd_field(binst)),
{
    assert(binst & 0b11111 == binst % 32) by (bit_vector);
    let rd: u32 = binst & 0b11111;
    if rd == 31 {
        STACK_POINTER
    } else {
        rd as u8
    }
}

/// First operand register Rn; 31 is the zero register.
pub fn regRn(binst: u32) -> (r: u8)
    ensures
        r == zr_reg(rn_field(binst)),
        r < 32,
{
    assert((binst >> 5) & 0b11111 == (binst / 32) % 32) by (bit_vector);
    ((binst >> 5) & 0b11111) as u8
}

/// First operand register Rn; 31 is the stack pointer.
pub fn regRnSP(binst: u32) -> (r: u8)
    ensures
        r == sp_reg(rn_field(binst)),
{
    assert((binst >> 5) & 0b11111 == (binst / 32) % 32) by (bit_vector);
    let rn: u32 = (binst >> 5) & 0b11111;
    if rn == 31 {
        STACK_POINTER
    } else {
        rn as u8
    }
}

/// Second operand register Rm; 31 is the zero register.
pub fn regRm(binst: u32) -> (r: u8)
    ensures
        r == zr_reg(rm_field(binst)),
        r < 32,
{
    assert((binst >> 16) & 0b11111 == (binst / 0x1_0000) % 32) by (bit_vector);
    ((binst >> 16) & 0b11111) as u8
}

/// Second operand register Rm; 31 is the stack pointer.
pub fn regRmSP(binst: u32) -> (r: u8)
    ensures
        r == sp_reg(rm_field(binst)),
{
    assert((binst >> 16) & 0b11111 == (binst / 0x1_0000) % 32) by (bit_vector);
    let rm: u32 = (binst >> 16) & 0b11111;
    if rm == 31 {
        STACK_POINTER
    } else {
        rm as u8
    }
}

/// Each of the three register fields holds one of 32 values. Read with 31
/// as the stack pointer, 31 gives the stack-pointer number and 0..=30 stay as
/// they are; read with 31 as the zero register, no value gives the
/// stack-pointer number.
pub proof fn lemma_register_sentinels(binst: u32)
    ensures
        rd_field(binst) < 32,
        rn_field(binst) < 32,
        rm_field(binst) < 32,
        sp_reg(31) == STACK_POINTER,
        forall|f: u32| f < 31 ==> #[trigger] sp_reg(f) == f,
        forall|f: u32| f < 32 ==> #[trigger] zr_reg(f) == f && zr_reg(f) != STACK_POINTER,
{
}

} // verus!
