//! The decoded instruction record.
//!
//! A record is flat: an operation code, the flags byte, register numbers,
//! immediates and a few small per-family groups of fields. An operation fills
//! only the fields it uses; every other field keeps its value in the blank
//! record ([`blank_view`]), which makes records comparable field by field.
use vstd::prelude::*;
use crate::opcode::Op;
use crate::registers::ZERO_REG;
use crate::operand::SH_LSL;

verus! {

/// MOVK: the 16-bit immediate and the left shift that places it.
#[derive(Clone, Copy, Debug, PartialEq, Eq, Structural)]
pub struct Movk {
    pub imm16: u32,
    pub lsl: u32,
}

/// Bitfield moves: lowest bit and width of the field.
#[derive(Clone, Copy, Debug, PartialEq, Eq, Structural)]
pub struct Bfm {
    pub lsb: u32,
    pub width: u32,
}

/// Conditional compare: the flags to set when the condition fails, and the
/// immediate operand.
#[derive(Clone, Copy, Debug, PartialEq, Eq, Structural)]
pub struct Ccmp {
    pub nzcv: u32,
    pub imm5: u32,
}

/// System instructions: the operand fields that name the system register or
/// operation.
#[derive(Clone, Copy, Debug, PartialEq, Eq, Structural)]
pub struct Sys {
    pub op1: u16,
    pub op2: u16,
    pub crn: u16,
    pub crm: u16,
}

/// MSR (immediate): the PSTATE field written and the value.
#[derive(Clone, Copy, Debug, PartialEq, Eq, Structural)]
pub struct MsrImm {
    pub psfld: u32,
    pub imm: u32,
}

/// Test and branch: the branch offset and the bit tested.
#[derive(Clone, Copy, Debug, PartialEq, Eq, Structural)]
pub struct Tbz {
    pub offset: i32,
    pub bit: u32,
}

/// Shifted register operand: the shift kind and amount.
#[derive(Clone, Copy, Debug, PartialEq, Eq, Structural)]
pub struct InstShift {
    pub typ: u32,
    pub amount: u32,
}

/// RMIF: the flag mask and the rotation.
#[derive(Clone, Copy, Debug, PartialEq, Eq, Structural)]
pub struct Rmif {
    pub mask: u32,
    pub ror: u32,
}

/// Extended register operand and the extension aliases: the extension kind
/// (`UXTB` .. `SXTX`) and the left shift applied after it.
#[derive(Clone, Copy, Debug, PartialEq, Eq, Structural)]
pub struct Extend {
    pub typ: u32,
    pub lsl: u32,
}

/// Ordered and exclusive loads and stores: the ordering of the load and of
/// the store, and the status register.
#[derive(Clone, Copy, Debug, PartialEq, Eq, Structural)]
pub struct LdstOrder {
    pub load: u16,
    pub store: u16,
    pub rs: u8,
}

/// SIMD structure loads and stores: register count, lane index and offset.
#[derive(Clone, Copy, Debug, PartialEq, Eq, Structural)]
pub struct SimdLdst {
    pub nreg: u32,
    pub index: u16,
    pub offset: i16,
}

/// Floating-point conversions: rounding mode, fraction bits and signedness.
#[derive(Clone, Copy, Debug, PartialEq, Eq, Structural)]
pub struct Fcvt {
    pub mode: u32,
    pub fbits: u16,
    pub sgn: u16,
}

/// Round to integral: rounding mode and result width.
#[derive(Clone, Copy, Debug, PartialEq, Eq, Structural)]
pub struct Frint {
    pub mode: u32,
    pub bits: u32,
}

/// Element insertion: destination and source lanes.
#[derive(Clone, Copy, Debug, PartialEq, Eq, Structural)]
pub struct InsElem {
    pub dst: u32,
    pub src: u32,
}

/// FCMLA by element: lane index and rotation.
#[derive(Clone, Copy, Debug, PartialEq, Eq, Structural)]
pub struct FcmlaElem {
    pub idx: u32,
    pub rot: u32,
}

/// One decoded instruction.
#[derive(Clone, Debug)]
pub struct Inst {
    pub op: Op,
    /// Packed attributes; see the `flags` module.
    pub flags: u8,
    pub rd: u8,
    pub rn: u8,
    pub rm: u8,
    pub rt2: u8,
    pub rs: u8,
    /// Unsigned immediate; for `A64_UNKNOWN`, the raw instruction word.
    pub imm: u64,
    /// Floating-point immediate, as the bits of an IEEE 754 binary64 value.
    pub fimm: u64,
    /// Signed offset of PC-relative operations.
    pub offset: i64,
    pub ra: u8,
    /// Reason for `A64_ERROR`; empty otherwise.
    pub error: String,
    pub movk: Movk,
    pub bfm: Bfm,
    pub ccmp: Ccmp,
    pub sys: Sys,
    pub msr_imm: MsrImm,
    pub tbz: Tbz,
    pub shift: u8,
    pub rmif: Rmif,
    pub extend: Extend,
    pub ldst_order: LdstOrder,
    pub simd_ldst: SimdLdst,
    pub fcvt: Fcvt,
    pub frint: Frint,
    pub ins_elem: InsElem,
    pub fcmla_elem: FcmlaElem,
}

/// The value of an [`Inst`], with the error message as a character sequence.
pub struct InstView {
    pub op: Op,
    pub flags: u8,
    pub rd: u8,
    pub rn: u8,
    pub rm: u8,
    pub rt2: u8,
    pub rs: u8,
    pub imm: u64,
    pub fimm: u64,
    pub offset: i64,
    pub ra: u8,
    pub error: Seq<char>,
    pub movk: Movk,
    pub bfm: Bfm,
    pub ccmp: Ccmp,
    pub sys: Sys,
    pub msr_imm: MsrImm,
    pub tbz: Tbz,
    pub shift: u8,
    pub rmif: Rmif,
    pub extend: Extend,
    pub ldst_order: LdstOrder,
    pub simd_ldst: SimdLdst,
    pub fcvt: Fcvt,
    pub frint: Frint,
    pub ins_elem: InsElem,
    pub fcmla_elem: FcmlaElem,
}

impl View for Inst {
    type V = InstView;

    open spec fn view(&self) -> InstView {
        InstView {
            op: self.op,
            flags: self.flags,
            rd: self.rd,
            rn: self.rn,
            rm: self.rm,
            rt2: self.rt2,
            rs: self.rs,
            imm: self.imm,
            fimm: self.fimm,
            offset: self.offset,
            ra: self.ra,
            error: self.error@,
            movk: self.movk,
            bfm: self.bfm,
            ccmp: self.ccmp,
            sys: self.sys,
            msr_imm: self.msr_imm,
            tbz: self.tbz,
            shift: self.shift,
            rmif: self.rmif,
            extend: self.extend,
            ldst_order: self.ldst_order,
            simd_ldst: self.simd_ldst,
            fcvt: self.fcvt,
            frint: self.frint,
            ins_elem: self.ins_elem,
            fcmla_elem: self.fcmla_elem,
        }
    }
}

/// The blank record: operation `A64_UNKNOWN`, every number zero, the shift
/// kind LSL, the status register of `ldst_order` the zero register, and no
/// error message.
pub open spec fn blank_view() -> InstView {
    InstView {
        op: Op::A64_UNKNOWN,
        flags: 0,
        rd: 0,
        rn: 0,
        rm: 0,
        rt2: 0,
        rs: 0,
        imm: 0,
        fimm: 0,
        offset: 0,
        ra: 0,
        error: Seq::empty(),
        movk: Movk { imm16: 0, lsl: 0 },
        bfm: Bfm { lsb: 0, width: 0 },
        ccmp: Ccmp { nzcv: 0, imm5: 0 },
        sys: Sys { op1: 0, op2: 0, crn: 0, crm: 0 },
        msr_imm: MsrImm { psfld: 0, imm: 0 },
        tbz: Tbz { offset: 0, bit: 0 },
        shift: SH_LSL,
        rmif: Rmif { mask: 0, ror: 0 },
        extend: Extend { typ: 0, lsl: 0 },
        ldst_order: LdstOrder { load: 0, store: 0, rs: ZERO_REG },
        simd_ldst: SimdLdst { nreg: 0, index: 0, offset: 0 },
        fcvt: Fcvt { mode: 0, fbits: 0, sgn: 0 },
        frint: Frint { mode: 0, bits: 0 },
        ins_elem: InsElem { dst: 0, src: 0 },
        fcmla_elem: FcmlaElem { idx: 0, rot: 0 },
    }
}

/// The record of an unallocated or reserved word: `A64_UNKNOWN` with the
/// word in `imm`.
pub open spec fn unknown_view(binst: u32) -> InstView {
    InstView { imm: binst as u64, ..blank_view() }
}

/// The record of a rejected word: `A64_ERROR` with the reason.
pub open spec fn error_view(err: Seq<char>) -> InstView {
    InstView { op: Op::A64_ERROR, error: err, ..blank_view() }
}

/// A fresh blank record.
pub fn blank_inst() -> (r: Inst)
    ensures
        r@ == blank_view(),
{
    Inst {
        op: Op::A64_UNKNOWN,
        flags: 0,
        rd: 0,
        rn: 0,
        rm: 0,
        rt2: 0,
        rs: 0,
        imm: 0,
        fimm: 0,
        offset: 0,
        ra: 0,
        error: String::new(),
        movk: Movk { imm16: 0, lsl: 0 },
        bfm: Bfm { lsb: 0, width: 0 },
        ccmp: Ccmp { nzcv: 0, imm5: 0 },
        sys: Sys { op1: 0, op2: 0, crn: 0, crm: 0 },
        msr_imm: MsrImm { psfld: 0, imm: 0 },
        tbz: Tbz { offset: 0, bit: 0 },
        shift: SH_LSL,
        rmif: Rmif { mask: 0, ror: 0 },
        extend: Extend { typ: 0, lsl: 0 },
        ldst_order: LdstOrder { load: 0, store: 0, rs: ZERO_REG },
        simd_ldst: SimdLdst { nreg: 0, index: 0, offset: 0 },
        fcvt: Fcvt { mode: 0, fbits: 0, sgn: 0 },
        frint: Frint { mode: 0, bits: 0 },
        ins_elem: InsElem { dst: 0, src: 0 },
        fcmla_elem: FcmlaElem { idx: 0, rot: 0 },
    }
}

/// The record of an unallocated or reserved word, keeping the word.
pub fn unknown_inst(binst: u32) -> (r: Inst)
    ensures
        r@ == unknown_view(binst),
{
    let mut inst = blank_inst();
    inst.imm = binst as u64;
    inst
}

/// The record of a word that the decoder rejects, with the reason.
pub fn errinst(err: String) -> (r: Inst)
    ensures
        r@ == error_view(err@),
{
    let mut inst = blank_inst();
    inst.op = Op::A64_ERROR;
    inst.error = err;
    inst
}

} // verus!
