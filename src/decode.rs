//! Decoding of the "Data Processing -- Immediate" class.
//!
//! Bits 22..=25 of the word select one of the encoding families (PC-relative
//! addressing, add/subtract, add/subtract with tags, logical, move wide,
//! bitfield, extract); bits 29..=31 hold the operand width (bit 31 clear for
//! 32-bit operands) and two bits that pick the operation within a family.
use vstd::prelude::*;
use vstd::arithmetic::power2::{
    pow2,
    lemma2_to64,
    lemma2_to64_rest,
    lemma_pow2_unfold,
    lemma_pow2_strictly_increases,
};
use vstd::bits::{lemma_u64_shl_is_mul, lemma_u64_pow2_no_overflow};
use crate::opcode::Op;
use crate::inst::{
    Inst,
    InstView,
    Movk,
    blank_view,
    unknown_view,
    error_view,
    blank_inst,
    unknown_inst,
    errinst,
};
use crate::flags::{W32, SET_FLAGS};
use crate::registers::{
    rd_field,
    rn_field,
    rm_field,
    zr_reg,
    sp_reg,
    regRd,
    regRdSP,
    regRn,
    regRnSP,
    regRm,
    ZERO_REG,
    STACK_POINTER,
};
use crate::bitmask::{bitmask_encodable, bitmask_value, decode_bitmask};
use crate::alias::{bfm_alias_view, find_bfm_alias, no_uxtw_message};
use crate::operand::{SXTB, SXTH, SXTW, UXTB, UXTH};

verus! {

/// `x` read as a `b`-bit two's complement number.
pub open spec fn sign_extend(x: nat, b: nat) -> int {
    if x < pow2((b - 1) as nat) {
        x as int
    } else {
        x - pow2(b)
    }
}

/// Sign-extends the `b`-bit number `x` to 64 bits.
pub fn sext(x: u64, b: u8) -> (r: i64)
    requires
        1 <= b <= 64,
        x < pow2(b as nat),
    ensures
        r == sign_extend(x as nat, b as nat),
{
    proof {
        lemma_u64_pow2_no_overflow((b - 1) as nat);
        lemma_u64_shl_is_mul(1, (b - 1) as u64);
        lemma2_to64_rest();
        lemma_pow2_unfold(b as nat);
        if b < 64 {
            lemma_pow2_strictly_increases((b - 1) as nat, 63);
        }
    }
    let half: u64 = 1u64 << ((b - 1) as u64);
    assert(half == pow2((b - 1) as nat) && half <= 0x8000_0000_0000_0000 && pow2(b as nat) == 2
        * half);
    if x < half {
        x as i64
    } else {
        ((x - half) as i64) - ((half - 1) as i64) - 1
    }
}

/// Bits 22..=25: the encoding family.
pub open spec fn family_bits(binst: u32) -> u32 {
    (binst / 0x40_0000) % 16
}

/// Bits 29..=31: the width bit and the operation selector.
pub open spec fn top_bits(binst: u32) -> u32 {
    binst / 0x2000_0000
}

/// Bit 31 clear: the operation works on 32-bit registers.
pub open spec fn is_w32(binst: u32) -> bool {
    top_bits(binst) < 4
}

/// The two low bits of `top_bits`: the operation within a family.
pub open spec fn opc_bits(binst: u32) -> u32 {
    top_bits(binst) % 4
}

/// The flags byte holding only the operand width.
pub open spec fn width_flags(binst: u32) -> u8 {
    if is_w32(binst) {
        W32
    } else {
        0
    }
}

/// Bit 22: `N` of logical and bitfield operations, the shift of add/subtract.
pub open spec fn bit22(binst: u32) -> u32 {
    (binst / 0x40_0000) % 2
}

/// Bits 16..=21: `immr`.
pub open spec fn immr_bits(binst: u32) -> u8 {
    ((binst / 0x1_0000) % 64) as u8
}

/// Bits 10..=15: `imms`.
pub open spec fn imms_bits(binst: u32) -> u8 {
    ((binst / 0x400) % 64) as u8
}

/// The 21-bit PC-relative immediate, `immhi` (bits 5..=23) above `immlo`
/// (bits 29..=30).
pub open spec fn pc_rel_imm(binst: u32) -> nat {
    ((binst / 32) % 0x8_0000) as nat * 4 + (top_bits(binst) % 4) as nat
}

/// ADR and ADRP: the offset, in pages of 4 KiB for ADRP.
pub open spec fn pc_rel_view(binst: u32) -> InstView {
    let page = !is_w32(binst);
    InstView {
        op: if page {
            Op::A64_ADRP
        } else {
            Op::A64_ADR
        },
        offset: (sign_extend(pc_rel_imm(binst), 21) * if page {
            4096int
        } else {
            1int
        }) as i64,
        rd: zr_reg(rd_field(binst)),
        ..blank_view()
    }
}

/// Add and subtract of a 12-bit immediate, optionally shifted left by 12,
/// with the CMN, CMP and MOV (to or from SP) aliases.
pub open spec fn add_sub_view(binst: u32) -> InstView {
    let is_add = opc_bits(binst) < 2;
    let sets = opc_bits(binst) % 2 == 1;
    let imm12 = (binst / 0x400) % 0x1000;
    let shifted = bit22(binst) == 1;
    let rd = if sets {
        zr_reg(rd_field(binst))
    } else {
        sp_reg(rd_field(binst))
    };
    let rn = sp_reg(rn_field(binst));
    InstView {
        op: if rd == ZERO_REG && sets {
            if is_add {
                Op::A64_CMN_IMM
            } else {
                Op::A64_CMP_IMM
            }
        } else if is_add && !shifted && imm12 == 0 && (rd == STACK_POINTER || rn
            == STACK_POINTER) {
            Op::A64_MOV_SP
        } else if is_add {
            Op::A64_ADD_IMM
        } else {
            Op::A64_SUB_IMM
        },
        flags: (width_flags(binst) + if sets {
            SET_FLAGS
        } else {
            0
        }) as u8,
        imm: if shifted {
            imm12 * 0x1000
        } else {
            imm12 as int
        } as u64,
        rd: rd,
        rn: rn,
        ..blank_view()
    }
}

/// The reason given for add and subtract with tags.
pub open spec fn tags_message() -> Seq<char> {
    "ADDG, SUBG not supported"@
}

/// `N` of a logical immediate: bit 22 for 64-bit operands, 0 for 32-bit ones.
pub open spec fn logical_n(binst: u32) -> u8 {
    if is_w32(binst) {
        0
    } else {
        bit22(binst) as u8
    }
}

/// AND, ORR, EOR and ANDS (or TST) with a bitmask immediate; an encoding
/// that stands for no bitmask is unknown.
pub open spec fn logical_view(binst: u32) -> InstView {
    let opc = opc_bits(binst);
    let sets = opc == 3;
    if !bitmask_encodable(logical_n(binst), imms_bits(binst), is_w32(binst)) {
        unknown_view(binst)
    } else {
        InstView {
            op: if opc == 0 {
                Op::A64_AND_IMM
            } else if opc == 1 {
                Op::A64_ORR_IMM
            } else if opc == 2 {
                Op::A64_EOR_IMM
            } else if rd_field(binst) == 31 {
                Op::A64_TST_IMM
            } else {
                Op::A64_AND_IMM
            },
            flags: (width_flags(binst) + if sets {
                SET_FLAGS
            } else {
                0
            }) as u8,
            imm: bitmask_value(
                logical_n(binst),
                imms_bits(binst),
                immr_bits(binst),
                is_w32(binst),
            ) as u64,
            rd: if sets {
                zr_reg(rd_field(binst))
            } else {
                sp_reg(rd_field(binst))
            },
            rn: zr_reg(rn_field(binst)),
            ..blank_view()
        }
    }
}

/// Bits 21..=22: which 16-bit slot the move-wide immediate goes to.
pub open spec fn hw_bits(binst: u32) -> nat {
    ((binst / 0x20_0000) % 4) as nat
}

/// Bits 5..=20: the move-wide immediate.
pub open spec fn imm16_bits(binst: u32) -> nat {
    ((binst / 32) % 0x1_0000) as nat
}

/// MOVN and MOVZ as one move of the resulting value, MOVK with its 16 bits
/// and shift; the fourth selector value is unknown.
pub open spec fn move_wide_view(binst: u32) -> InstView {
    let opc = opc_bits(binst);
    let shift = 16 * hw_bits(binst);
    let placed = imm16_bits(binst) * pow2(shift);
    let base = InstView { flags: width_flags(binst), rd: zr_reg(rd_field(binst)), ..blank_view() };
    if opc == 1 {
        unknown_view(binst)
    } else if opc == 0 {
        InstView { op: Op::A64_MOV_IMM, imm: (0xFFFF_FFFF_FFFF_FFFFu64 - placed) as u64, ..base }
    } else if opc == 2 {
        InstView { op: Op::A64_MOV_IMM, imm: placed as u64, ..base }
    } else {
        InstView {
            op: Op::A64_MOVK,
            movk: Movk { imm16: imm16_bits(binst) as u32, lsl: shift as u32 },
            ..base
        }
    }
}

/// SBFM, BFM and UBFM under their aliases; the fourth selector value, and
/// `immr` or `imms` beyond 31 with 32-bit operands, are unknown.
pub open spec fn bitfield_view(binst: u32) -> InstView {
    let opc = opc_bits(binst);
    if opc == 3 || (is_w32(binst) && (immr_bits(binst) >= 32 || imms_bits(binst) >= 32)) {
        unknown_view(binst)
    } else {
        bfm_alias_view(
            if opc == 0 {
                Op::A64_SBFM
            } else if opc == 1 {
                Op::A64_BFM
            } else {
                Op::A64_UBFM
            },
            is_w32(binst),
            zr_reg(rd_field(binst)),
            zr_reg(rn_field(binst)),
            immr_bits(binst),
            imms_bits(binst),
        )
    }
}

/// EXTR, or ROR by immediate when both sources are one register.
pub open spec fn extract_view(binst: u32) -> InstView {
    let rn = zr_reg(rn_field(binst));
    let rm = zr_reg(rm_field(binst));
    InstView {
        op: if rn == rm {
            Op::A64_ROR_IMM
        } else {
            Op::A64_EXTR
        },
        flags: width_flags(binst),
        imm: imms_bits(binst) as u64,
        rd: zr_reg(rd_field(binst)),
        rn: rn,
        rm: if rn == rm {
            0
        } else {
            rm
        },
        ..blank_view()
    }
}

/// The record of a word of the "Data Processing -- Immediate" class, by its
/// family selector.
pub open spec fn data_proc_imm_view(binst: u32) -> InstView {
    let f = family_bits(binst);
    if f < 4 {
        pc_rel_view(binst)
    } else if f < 6 {
        add_sub_view(binst)
    } else if f < 8 {
        error_view(tags_message())
    } else if f < 10 {
        logical_view(binst)
    } else if f < 12 {
        move_wide_view(binst)
    } else if f < 14 {
        bitfield_view(binst)
    } else {
        extract_view(binst)
    }
}

proof fn lemma_field_bits(binst: u32)
    by (bit_vector)
    ensures
        (binst >> 22u32) & 0b1111 == (binst / 0x40_0000) % 16,
        (binst >> 29u32) & 0b111 == binst / 0x2000_0000,
        (binst >> 29u32) & 0b111 < 8,
        (binst >> 10u32) & 0xFFF == (binst / 0x400) % 0x1000,
        (binst & (1u32 << 22u32) > 0) == ((binst / 0x40_0000) % 2 == 1),
        (binst >> 16u32) & 0b111111 == (binst / 0x1_0000) % 64,
        (binst >> 10u32) & 0b111111 == (binst / 0x400) % 64,
        (binst >> 22u32) & 1 == (binst / 0x40_0000) % 2,
{
}

proof fn lemma_move_wide_bits(binst: u32)
    by (bit_vector)
    ensures
        (binst >> 21u32) & 0b11 == (binst / 0x20_0000) % 4,
        (binst >> 5u32) & 0xFFFF == (binst / 32) % 0x1_0000,
{
}

proof fn lemma_pc_rel_bits(binst: u32, top3: u32)
    by (bit_vector)
    requires
        top3 == binst / 0x2000_0000,
    ensures
        ((binst & (0b1111111111111111111u32 << 5u32)) as u64 >> 3u64) | ((top3 & 0b011) as u64)
            == ((binst / 32) % 0x8_0000) * 4 + top3 % 4,
        ((binst / 32) % 0x8_0000) * 4 + top3 % 4 < 0x20_0000,
{
}

proof fn lemma_top_bits(top3: u32)
    by (bit_vector)
    requires
        top3 < 8,
    ensures
        (top3 & 0b100 == 0) == (top3 < 4),
        top3 & 0b011 == top3 % 4,
        (top3 & 0b010 == 0) == (top3 % 4 < 2),
        (top3 & 0b001 != 0) == (top3 % 2 == 1),
{
}

proof fn lemma_width_flags(f: u8)
    by (bit_vector)
    requires
        f == 0 || f == 1,
    ensures
        f | 2 == f + 2,
        f | 2 < 4,
{
}

/// ADR or ADRP.
fn decode_pc_rel(binst: u32, top3: u32) -> (r: Inst)
    requires
        top3 == top_bits(binst),
    ensures
        r@ == pc_rel_view(binst),
{
    proof {
        lemma_top_bits(top3);
        lemma_pc_rel_bits(binst, top3);
        lemma2_to64();
    }
    let mut inst = blank_inst();
    if (top3 & 0b100) == 0 {
        inst.op = Op::A64_ADR;
    } else {
        inst.op = Op::A64_ADRP;
    }

    // immhi sits in bits 5..=23, immlo in bits 29..=30.
    let immhi: u64 = (binst & (0b1111111111111111111u32 << 5u32)) as u64;
    let immlo: u64 = (top3 & 0b011) as u64;
    // Shift immhi down to just above the two bits of immlo.
    let uimm: u64 = (immhi >> 3u64) | immlo;
    assert(uimm == pc_rel_imm(binst));

    let offset = sext(uimm, 21);
    // ADRP counts in pages of 4 KiB.
    inst.offset = if inst.op == Op::A64_ADRP {
        offset * 4096
    } else {
        offset
    };
    inst.rd = regRd(binst);
    inst
}

/// ADD, ADDS, SUB and SUBS of an immediate, and their aliases.
fn decode_add_sub(binst: u32, top3: u32) -> (r: Inst)
    requires
        top3 == top_bits(binst),
    ensures
        r@ == add_sub_view(binst),
{
    proof {
        lemma_field_bits(binst);
        lemma_top_bits(top3);
    }
    let mut inst = blank_inst();
    let is_add = (top3 & 0b010) == 0;
    let sets = (top3 & 0b001) != 0;
    inst.op = if is_add {
        Op::A64_ADD_IMM
    } else {
        Op::A64_SUB_IMM
    };
    let width: u8 = if (top3 & 0b100) == 0 {
        W32
    } else {
        0
    };
    proof {
        lemma_width_flags(width);
    }
    inst.flags = if sets {
        width | SET_FLAGS
    } else {
        width
    };

    let unshifted_imm: u64 = ((binst >> 10u32) & 0b111111111111) as u64;
    let shift_by_12 = (binst & (1u32 << 22u32)) > 0;
    inst.imm = if shift_by_12 {
        unshifted_imm << 12u64
    } else {
        unshifted_imm
    };
    assert(unshifted_imm << 12u64 == unshifted_imm * 0x1000) by (bit_vector)
        requires
            unshifted_imm < 0x1000,
    ;

    // ADDS and SUBS, and so CMN and CMP, read register 31 as the zero
    // register; ADD and SUB read it as the stack pointer.
    inst.rd = if sets {
        regRd(binst)
    } else {
        regRdSP(binst)
    };
    inst.rn = regRnSP(binst);

    if inst.rd == ZERO_REG && sets {
        inst.op = if is_add {
            Op::A64_CMN_IMM
        } else {
            Op::A64_CMP_IMM
        };
    } else if is_add && !shift_by_12 && unshifted_imm == 0 && (inst.rd == STACK_POINTER || inst.rn
        == STACK_POINTER) {
        inst.op = Op::A64_MOV_SP;
    }
    inst
}

/// AND, ORR, EOR and ANDS with a bitmask immediate, and TST.
fn decode_logical(binst: u32, top3: u32) -> (r: Inst)
    requires
        top3 == top_bits(binst),
    ensures
        r@ == logical_view(binst),
{
    proof {
        lemma_field_bits(binst);
        lemma_top_bits(top3);
    }
    let mut inst = blank_inst();
    let w32 = (top3 & 0b100) == 0;
    let width: u8 = if w32 {
        W32
    } else {
        0
    };
    proof {
        lemma_width_flags(width);
    }
    let opc = top3 & 0b011;
    let sets = opc == 0b11;
    if opc == 0b00 {
        inst.op = Op::A64_AND_IMM;
    } else if opc == 0b01 {
        inst.op = Op::A64_ORR_IMM;
    } else if opc == 0b10 {
        inst.op = Op::A64_EOR_IMM;
    } else {
        inst.op = if regRd(binst) == ZERO_REG {
            Op::A64_TST_IMM
        } else {
            Op::A64_AND_IMM
        };
    }
    inst.flags = if sets {
        width | SET_FLAGS
    } else {
        width
    };

    let immr: u8 = ((binst >> 16u32) & 0b111111) as u8;
    let imms: u8 = ((binst >> 10u32) & 0b111111) as u8;
    // N widens the element to 64 bits; 32-bit operands have no room for it.
    let n: u8 = if w32 {
        0
    } else {
        ((binst >> 22u32) & 1) as u8
    };
    if n == 0 && imms == 0b111111 {
        return unknown_inst(binst);
    }
    inst.imm = decode_bitmask(n, imms, immr, w32);

    // ANDS, and so TST, read register 31 as the zero register; AND, ORR and
    // EOR write to the stack pointer.
    inst.rd = if sets {
        regRd(binst)
    } else {
        regRdSP(binst)
    };
    inst.rn = regRn(binst);
    inst
}

/// MOVN, MOVZ and MOVK.
fn decode_move_wide(binst: u32, top3: u32) -> (r: Inst)
    requires
        top3 == top_bits(binst),
    ensures
        r@ == move_wide_view(binst),
{
    proof {
        lemma_move_wide_bits(binst);
        lemma_top_bits(top3);
    }
    let mut inst = blank_inst();
    let opc = top3 & 0b011;
    if opc == 0b01 {
        return unknown_inst(binst);
    }
    inst.flags = if (top3 & 0b100) == 0 {
        W32
    } else {
        0
    };
    let hw: u8 = ((binst >> 21u32) & 0b11) as u8;
    let shift: u8 = 16 * hw;
    let imm16: u64 = ((binst >> 5u32) & 0xFFFF) as u64;
    proof {
        lemma_u64_pow2_no_overflow(shift as nat);
        if shift < 48 {
            lemma_pow2_strictly_increases(shift as nat, 48);
        }
        lemma2_to64_rest();
        assert(imm16 * pow2(shift as nat) <= 0xFFFF_FFFF_FFFF_FFFF) by (nonlinear_arith)
            requires
                imm16 < 0x1_0000,
                pow2(shift as nat) <= 0x1_0000_0000_0000,
        ;
        lemma_u64_shl_is_mul(imm16, shift as u64);
    }
    let placed: u64 = imm16 << (shift as u64);
    assert(!placed == 0xFFFF_FFFF_FFFF_FFFFu64 - placed) by (bit_vector);

    if opc == 0b00 {
        // MOVN: the inverse of the placed immediate.
        inst.op = Op::A64_MOV_IMM;
        inst.imm = !placed;
    } else if opc == 0b10 {
        // MOVZ: the placed immediate, other bits zero.
        inst.op = Op::A64_MOV_IMM;
        inst.imm = placed;
    } else {
        // MOVK: only the 16 bits change; the rest of Rd stays.
        inst.op = Op::A64_MOVK;
        inst.movk.imm16 = imm16 as u32;
        inst.movk.lsl = shift as u32;
    }
    inst.rd = regRd(binst);
    inst
}

/// SBFM, BFM and UBFM, reported under their aliases.
fn decode_bitfield(binst: u32, top3: u32) -> (r: Inst)
    requires
        top3 == top_bits(binst),
    ensures
        r@ == bitfield_view(binst),
{
    proof {
        lemma_field_bits(binst);
        lemma_top_bits(top3);
    }
    let opc = top3 & 0b011;
    let w32 = (top3 & 0b100) == 0;
    let immr: u8 = ((binst >> 16u32) & 0b111111) as u8;
    let imms: u8 = ((binst >> 10u32) & 0b111111) as u8;
    if opc == 0b11 || (w32 && (immr >= 32 || imms >= 32)) {
        return unknown_inst(binst);
    }
    let op = if opc == 0b00 {
        Op::A64_SBFM
    } else if opc == 0b01 {
        Op::A64_BFM
    } else {
        Op::A64_UBFM
    };
    let rd = regRd(binst);
    let rn = regRn(binst);
    find_bfm_alias(op, w32, rd, rn, immr, imms)
}

/// EXTR, and ROR by immediate.
fn decode_extract(binst: u32, top3: u32) -> (r: Inst)
    requires
        top3 == top_bits(binst),
    ensures
        r@ == extract_view(binst),
{
    proof {
        lemma_field_bits(binst);
        lemma_top_bits(top3);
    }
    let mut inst = blank_inst();
    inst.flags = if (top3 & 0b100) == 0 {
        W32
    } else {
        0
    };
    inst.op = Op::A64_EXTR;
    inst.imm = ((binst >> 10u32) & 0b111111) as u64;
    inst.rd = regRd(binst);
    inst.rn = regRn(binst);
    inst.rm = regRm(binst);

    if inst.rn == inst.rm {
        inst.op = Op::A64_ROR_IMM;
        // ROR names its source once.
        inst.rm = 0;
    }
    inst
}

/// Decodes a word of the "Data Processing -- Immediate" class. Every word
/// gives a record: a decoded operation, `A64_UNKNOWN` for unallocated and
/// reserved encodings, or `A64_ERROR` for the encodings this decoder does not
/// support.
pub fn data_proc_imm(binst: u32) -> (r: Inst)
    ensures
        r@ == data_proc_imm_view(binst),
{
    proof {
        lemma_field_bits(binst);
    }
    // op0 and op1 together.
    let op01: u32 = (binst >> 22u32) & 0b1111;
    let top3: u32 = (binst >> 29u32) & 0b111;

    if op01 < 0b0100 {
        decode_pc_rel(binst, top3)
    } else if op01 < 0b0110 {
        decode_add_sub(binst, top3)
    } else if op01 < 0b1000 {
        errinst("ADDG, SUBG not supported".to_owned())
    } else if op01 < 0b1010 {
        decode_logical(binst, top3)
    } else if op01 < 0b1100 {
        decode_move_wide(binst, top3)
    } else if op01 < 0b1110 {
        decode_bitfield(binst, top3)
    } else {
        decode_extract(binst, top3)
    }
}

/// The unallocated and reserved words of the class: a logical immediate that
/// stands for no bitmask, the fourth move-wide selector, and the fourth
/// bitfield selector or a 32-bit bitfield move with `immr` or `imms` beyond
/// 31.
pub open spec fn is_reserved(binst: u32) -> bool {
    let f = family_bits(binst);
    ||| 8 <= f < 10 && !bitmask_encodable(logical_n(binst), imms_bits(binst), is_w32(binst))
    ||| 10 <= f < 12 && opc_bits(binst) == 1
    ||| 12 <= f < 14 && (opc_bits(binst) == 3 || (is_w32(binst) && (immr_bits(binst) >= 32
        || imms_bits(binst) >= 32)))
}

/// The words of the class that the decoder rejects: add and subtract with
/// tags, and the unsigned word extension (64-bit UBFM with `immr` 0 and
/// `imms` 31).
pub open spec fn is_rejected(binst: u32) -> bool {
    let f = family_bits(binst);
    ||| 6 <= f < 8
    ||| 12 <= f < 14 && opc_bits(binst) == 2 && !is_w32(binst) && immr_bits(binst) == 0
        && imms_bits(binst) == 31
}

/// Every word decodes to exactly one of three outcomes: `A64_UNKNOWN`
/// exactly on the reserved words, carrying the word; `A64_ERROR` exactly on
/// the rejected words, carrying a reason; and otherwise a decoded operation
/// with no error message.
pub proof fn lemma_decode_outcomes(binst: u32)
    ensures
        (data_proc_imm_view(binst).op == Op::A64_UNKNOWN) == is_reserved(binst),
        (data_proc_imm_view(binst).op == Op::A64_ERROR) == is_rejected(binst),
        data_proc_imm_view(binst).op == Op::A64_UNKNOWN ==> data_proc_imm_view(binst).imm
            == binst,
        data_proc_imm_view(binst).op == Op::A64_ERROR ==> data_proc_imm_view(binst).error.len()
            > 0,
        data_proc_imm_view(binst).op != Op::A64_ERROR ==> data_proc_imm_view(binst).error.len()
            == 0,
{
    reveal_strlit("ADDG, SUBG not supported");
    reveal_strlit("there is no UXTW instruction");
}

/// A MOVK word sets only the operation, the width flag, the destination and
/// the 16-bit immediate with its shift; every other field of its record keeps
/// its blank value.
pub proof fn lemma_movk_isolation(binst: u32)
    requires
        10 <= family_bits(binst) < 12,
        opc_bits(binst) == 3,
    ensures
        data_proc_imm_view(binst) == (InstView {
            op: Op::A64_MOVK,
            flags: width_flags(binst),
            rd: zr_reg(rd_field(binst)),
            movk: Movk { imm16: imm16_bits(binst) as u32, lsl: (16 * hw_bits(binst)) as u32 },
            ..blank_view()
        }),
{
}

/// In add and subtract, the compare aliases win over MOV: ADDS or SUBS to
/// register 31 is CMN or CMP, with the zero register as destination; ADD of
/// an unshifted zero with register 31 (the stack pointer) as destination or
/// source is MOV.
pub proof fn lemma_add_sub_alias_priority(binst: u32)
    requires
        4 <= family_bits(binst) < 6,
    ensures
        opc_bits(binst) % 2 == 1 && rd_field(binst) == 31 ==> {
            &&& data_proc_imm_view(binst).op == if opc_bits(binst) < 2 {
                Op::A64_CMN_IMM
            } else {
                Op::A64_CMP_IMM
            }
            &&& data_proc_imm_view(binst).rd == ZERO_REG
        },
        opc_bits(binst) == 0 && bit22(binst) == 0 && (binst / 0x400) % 0x1000 == 0 && (rd_field(
            binst,
        ) == 31 || rn_field(binst) == 31) ==> data_proc_imm_view(binst).op == Op::A64_MOV_SP,
{
}

/// In the bitfield family, `immr` 0 with `imms` 7 or 15 is a byte or
/// halfword extension, signed for SBFM and unsigned for UBFM; with `imms` 31
/// and 64-bit operands it is SXTW for SBFM and rejected for UBFM.
pub proof fn lemma_bitfield_extensions(binst: u32)
    requires
        12 <= family_bits(binst) < 14,
        opc_bits(binst) == 0 || opc_bits(binst) == 2,
        immr_bits(binst) == 0,
    ensures
        imms_bits(binst) == 7 || imms_bits(binst) == 15 ==> data_proc_imm_view(binst).op
            == Op::A64_EXTEND,
        imms_bits(binst) == 7 ==> data_proc_imm_view(binst).extend.typ == if opc_bits(binst)
            == 0 {
            SXTB
        } else {
            UXTB
        } as u32,
        imms_bits(binst) == 15 ==> data_proc_imm_view(binst).extend.typ == if opc_bits(binst)
            == 0 {
            SXTH
        } else {
            UXTH
        } as u32,
        imms_bits(binst) == 31 && !is_w32(binst) && opc_bits(binst) == 0 ==> {
            &&& data_proc_imm_view(binst).op == Op::A64_EXTEND
            &&& data_proc_imm_view(binst).extend.typ == SXTW as u32
        },
        imms_bits(binst) == 31 && !is_w32(binst) && opc_bits(binst) == 2 ==> data_proc_imm_view(
            binst,
        ) == error_view(no_uxtw_message()),
{
}

} // verus!
