//! Alias resolution for the bitfield moves SBFM, BFM and UBFM.
//!
//! A bitfield move is always reported under the alias that the architecture
//! prefers for its operands; the rules are tried in a fixed order and the
//! first that applies wins.
use vstd::prelude::*;
use crate::opcode::Op;
use crate::inst::{Inst, InstView, Bfm, Extend, blank_view, error_view, blank_inst, errinst};
use crate::flags::W32;
use crate::operand::{SXTB, SXTH, SXTW, UXTB, UXTH};
use crate::registers::ZERO_REG;

verus! {

/// The reason given for an unsigned word extension, which has no alias.
pub open spec fn no_uxtw_message() -> Seq<char> {
    "there is no UXTW instruction"@
}

/// The base operations of the bitfield family.
pub open spec fn is_bitfield_base(op: Op) -> bool {
    op == Op::A64_SBFM || op == Op::A64_BFM || op == Op::A64_UBFM
}

/// Field values that the operand width admits.
pub open spec fn bitfield_operands_fit(w32: bool, immr: u8, imms: u8) -> bool {
    if w32 {
        immr < 32 && imms < 32
    } else {
        immr < 64 && imms < 64
    }
}

/// The record of a bitfield move, under the alias chosen by the first rule
/// that applies:
///
/// 1. BFM: BFXIL when `imms >= immr`, else BFC (source the zero register) or
///    BFI;
/// 2. UBFM with `imms + 1 == immr`, `imms` not all ones: LSL by immediate;
/// 3. `imms` all ones: ASR (SBFM) or LSR (UBFM) by immediate;
/// 4. `imms < immr`: SBFIZ or UBFIZ;
/// 5. `immr == 0` and `imms` 7, 15 or 31: sign or zero extension of a byte,
///    halfword or word (an unsigned word extension is rejected);
/// 6. otherwise SBFX or UBFX.
pub open spec fn bfm_alias_view(op: Op, w32: bool, rd: u8, rn: u8, immr: u8, imms: u8) -> InstView {
    let all_ones: int = if w32 {
        31
    } else {
        63
    };
    let bits: int = if w32 {
        32
    } else {
        64
    };
    let sign = op == Op::A64_SBFM;
    let base = InstView {
        flags: if w32 {
            W32
        } else {
            0
        },
        rd: rd,
        rn: rn,
        ..blank_view()
    };
    if op == Op::A64_BFM {
        if imms >= immr {
            InstView {
                op: Op::A64_BFXIL,
                bfm: Bfm { lsb: immr as u32, width: (imms - immr + 1) as u32 },
                ..base
            }
        } else {
            InstView {
                op: if rn == ZERO_REG {
                    Op::A64_BFC
                } else {
                    Op::A64_BFI
                },
                bfm: Bfm { lsb: (bits - immr) as u32, width: (imms + 1) as u32 },
                ..base
            }
        }
    } else if !sign && imms + 1 == immr && imms != all_ones {
        InstView { op: Op::A64_LSL_IMM, imm: (all_ones - imms) as u64, ..base }
    } else if imms == all_ones {
        InstView {
            op: if sign {
                Op::A64_ASR_IMM
            } else {
                Op::A64_LSR_IMM
            },
            imm: immr as u64,
            ..base
        }
    } else if imms < immr {
        InstView {
            op: if sign {
                Op::A64_SBFIZ
            } else {
                Op::A64_UBFIZ
            },
            bfm: Bfm { lsb: (bits - immr) as u32, width: (imms + 1) as u32 },
            ..base
        }
    } else if immr == 0 && imms == 7 {
        InstView {
            op: Op::A64_EXTEND,
            extend: Extend {
                typ: if sign {
                    SXTB
                } else {
                    UXTB
                } as u32,
                lsl: 0,
            },
            ..base
        }
    } else if immr == 0 && imms == 15 {
        InstView {
            op: Op::A64_EXTEND,
            extend: Extend {
                typ: if sign {
                    SXTH
                } else {
                    UXTH
                } as u32,
                lsl: 0,
            },
            ..base
        }
    } else if immr == 0 && imms == 31 {
        if sign {
            InstView { op: Op::A64_EXTEND, extend: Extend { typ: SXTW as u32, lsl: 0 }, ..base }
        } else {
            error_view(no_uxtw_message())
        }
    } else {
        InstView {
            op: if sign {
                Op::A64_SBFX
            } else {
                Op::A64_UBFX
            },
            bfm: Bfm { lsb: immr as u32, width: (imms - immr + 1) as u32 },
            ..base
        }
    }
}

/// The record of the bitfield move `op` (SBFM, BFM or UBFM) with the given
/// width, registers and `immr`/`imms` fields, under its preferred alias.
pub fn find_bfm_alias(op: Op, w32: bool, rd: u8, rn: u8, immr: u8, imms: u8) -> (r: Inst)
    requires
        is_bitfield_base(op),
        bitfield_operands_fit(w32, immr, imms),
    ensures
        r@ == bfm_alias_view(op, w32, rd, rn, immr, imms),
{
    let mut inst = blank_inst();
    let all_ones: u8 = if w32 {
        31
    } else {
        63
    };
    let bits: u8 = if w32 {
        32
    } else {
        64
    };

    inst.rd = rd;
    inst.rn = rn;
    if w32 {
        inst.flags = inst.flags | W32;
    }
    assert(0u8 | W32 == W32) by (bit_vector);

    if op == Op::A64_BFM {
        if imms >= immr {
            inst.op = Op::A64_BFXIL;
            inst.bfm.lsb = immr as u32;
            inst.bfm.width = (imms - immr + 1) as u32;
            return inst;
        }
        inst.op = if rn == ZERO_REG {
            Op::A64_BFC
        } else {
            Op::A64_BFI
        };
        inst.bfm.lsb = (bits - immr) as u32;
        inst.bfm.width = (imms + 1) as u32;
        return inst;
    }

    let sign = op == Op::A64_SBFM;

    if !sign && imms + 1 == immr && imms != all_ones {
        inst.op = Op::A64_LSL_IMM;
        inst.imm = (all_ones - imms) as u64;
        return inst;
    }

    if imms == all_ones {
        inst.op = if sign {
            Op::A64_ASR_IMM
        } else {
            Op::A64_LSR_IMM
        };
        inst.imm = immr as u64;
        return inst;
    }

    if imms < immr {
        inst.op = if sign {
            Op::A64_SBFIZ
        } else {
            Op::A64_UBFIZ
        };
        inst.bfm.lsb = (bits - immr) as u32;
        inst.bfm.width = (imms + 1) as u32;
        return inst;
    }

    if immr == 0 {
        if imms == 7 {
            inst.op = Op::A64_EXTEND;
            inst.extend.typ = if sign {
                SXTB
            } else {
                UXTB
            } as u32;
            return inst;
        }
        if imms == 15 {
            inst.op = Op::A64_EXTEND;
            inst.extend.typ = if sign {
                SXTH
            } else {
                UXTH
            } as u32;
            return inst;
        }
        if imms == 31 {
            if !sign {
                return errinst("there is no UXTW instruction".to_owned());
            }
            inst.op = Op::A64_EXTEND;
            inst.extend.typ = SXTW as u32;
            return inst;
        }
    }

    inst.op = if sign {
        Op::A64_SBFX
    } else {
        Op::A64_UBFX
    };
    inst.bfm.lsb = immr as u32;
    inst.bfm.width = (imms - immr + 1) as u32;
    inst
}

} // verus!
