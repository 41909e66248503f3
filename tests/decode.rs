use a2ir::flags::{SET_FLAGS, W32};
use a2ir::operand::{SXTB, SXTH, SXTW, UXTB, UXTH};
use a2ir::{
    data_proc_imm, errinst, find_bfm_alias, unknown_inst, Bfm, Ccmp, Extend, FcmlaElem, Fcvt,
    Frint, InsElem, Inst, LdstOrder, Movk, MsrImm, Op, Rmif, SimdLdst, Sys, Tbz, STACK_POINTER,
    ZERO_REG,
};

/// Asserts that every field but `op`, `flags`, the registers, `imm`,
/// `offset`, `movk`, `bfm` and `extend` has its blank value.
fn assert_rest_blank(inst: &Inst) {
    assert_eq!(inst.rt2, 0);
    assert_eq!(inst.rs, 0);
    assert_eq!(inst.fimm, 0);
    assert_eq!(inst.ra, 0);
    assert_eq!(inst.ccmp, Ccmp { nzcv: 0, imm5: 0 });
    assert_eq!(inst.sys, Sys { op1: 0, op2: 0, crn: 0, crm: 0 });
    assert_eq!(inst.msr_imm, MsrImm { psfld: 0, imm: 0 });
    assert_eq!(inst.tbz, Tbz { offset: 0, bit: 0 });
    assert_eq!(inst.shift, 0);
    assert_eq!(inst.rmif, Rmif { mask: 0, ror: 0 });
    assert_eq!(inst.ldst_order, LdstOrder { load: 0, store: 0, rs: ZERO_REG });
    assert_eq!(inst.simd_ldst, SimdLdst { nreg: 0, index: 0, offset: 0 });
    assert_eq!(inst.fcvt, Fcvt { mode: 0, fbits: 0, sgn: 0 });
    assert_eq!(inst.frint, Frint { mode: 0, bits: 0 });
    assert_eq!(inst.ins_elem, InsElem { dst: 0, src: 0 });
    assert_eq!(inst.fcmla_elem, FcmlaElem { idx: 0, rot: 0 });
}

fn assert_bitfield(inst: &Inst, op: Op, lsb: u32, width: u32) {
    assert_eq!(inst.op, op);
    assert_eq!(inst.bfm, Bfm { lsb, width });
    assert_eq!(inst.imm, 0);
}

#[test]
fn add_to_sp_of_zero_is_mov_sp() {
    // ADD SP, X5, #0
    let i = data_proc_imm(0x9100_00BF);
    assert_eq!(i.op, Op::A64_MOV_SP);
    assert_eq!(i.rd, STACK_POINTER);
    assert_eq!(i.rn, 5);
    assert_eq!(i.imm, 0);
    assert_eq!(i.flags, 0);
    // ADD X3, SP, #0
    let j = data_proc_imm(0x9100_03E3);
    assert_eq!(j.op, Op::A64_MOV_SP);
    assert_eq!(j.rd, 3);
    assert_eq!(j.rn, STACK_POINTER);
}

#[test]
fn adds_to_register_31_is_cmn() {
    // ADDS XZR, X5, #0
    let i = data_proc_imm(0xB100_00BF);
    assert_eq!(i.op, Op::A64_CMN_IMM);
    assert_eq!(i.rd, ZERO_REG);
    assert_eq!(i.rn, 5);
    assert_eq!(i.flags, SET_FLAGS);
}

#[test]
fn subs_to_register_31_is_cmp() {
    // SUBS WZR, W7, #42
    let i = data_proc_imm(0x7100_A8FF);
    assert_eq!(i.op, Op::A64_CMP_IMM);
    assert_eq!(i.rd, ZERO_REG);
    assert_eq!(i.rn, 7);
    assert_eq!(i.imm, 42);
    assert_eq!(i.flags, W32 | SET_FLAGS);
}

#[test]
fn add_sub_plain_forms() {
    // ADD X1, X2, #1, LSL #12
    let i = data_proc_imm(0x9140_0441);
    assert_eq!(i.op, Op::A64_ADD_IMM);
    assert_eq!(i.imm, 4096);
    assert_eq!((i.rd, i.rn), (1, 2));
    // SUB SP, SP, #16
    let s = data_proc_imm(0xD100_43FF);
    assert_eq!(s.op, Op::A64_SUB_IMM);
    assert_eq!(s.imm, 16);
    assert_eq!((s.rd, s.rn), (STACK_POINTER, STACK_POINTER));
    // ADDS X2, SP, #4
    let a = data_proc_imm(0xB100_13E2);
    assert_eq!(a.op, Op::A64_ADD_IMM);
    assert_eq!(a.flags, SET_FLAGS);
    assert_eq!((a.rd, a.rn), (2, STACK_POINTER));
    // ADD X3, SP, #0, LSL #12 is no MOV.
    let z = data_proc_imm(0x9140_03E3);
    assert_eq!(z.op, Op::A64_ADD_IMM);
    assert_eq!(z.imm, 0);
    assert_rest_blank(&z);
}

#[test]
fn pc_relative_offsets() {
    let back = data_proc_imm(0x70FF_FFE0);
    assert_eq!(back.op, Op::A64_ADR);
    assert_eq!(back.offset, -1);
    assert_eq!(back.rd, 0);
    assert_eq!(back.flags, 0);
    let fwd = data_proc_imm(0x3000_0024);
    assert_eq!(fwd.op, Op::A64_ADR);
    assert_eq!(fwd.offset, 5);
    assert_eq!(fwd.rd, 4);
    let page = data_proc_imm(0x9000_0049);
    assert_eq!(page.op, Op::A64_ADRP);
    assert_eq!(page.offset, 8 * 4096);
    assert_eq!(page.rd, 9);
    let page_back = data_proc_imm(0xF0FF_FFE9);
    assert_eq!(page_back.op, Op::A64_ADRP);
    assert_eq!(page_back.offset, -4096);
    assert_eq!(page_back.imm, 0);
    assert_rest_blank(&page_back);
}

#[test]
fn logical_immediates() {
    // AND W2, W1, #0xF
    let a = data_proc_imm(0x1200_0C22);
    assert_eq!(a.op, Op::A64_AND_IMM);
    assert_eq!(a.imm, 0xF);
    assert_eq!((a.rd, a.rn), (2, 1));
    assert_eq!(a.flags, W32);
    // ORR SP, XZR, #1
    let o = data_proc_imm(0xB240_03FF);
    assert_eq!(o.op, Op::A64_ORR_IMM);
    assert_eq!(o.imm, 1);
    assert_eq!((o.rd, o.rn), (STACK_POINTER, ZERO_REG));
    // EOR X5, X4, #0xAAAA_AAAA_AAAA_AAAA
    let e = data_proc_imm(0xD201_F085);
    assert_eq!(e.op, Op::A64_EOR_IMM);
    assert_eq!(e.imm, 0xAAAA_AAAA_AAAA_AAAA);
    assert_eq!((e.rd, e.rn), (5, 4));
    // AND SP, X3, #1
    let s = data_proc_imm(0x9240_007F);
    assert_eq!(s.op, Op::A64_AND_IMM);
    assert_eq!(s.rd, STACK_POINTER);
    assert_rest_blank(&s);
}

#[test]
fn ands_to_register_31_is_tst() {
    let t = data_proc_imm(0xF240_1CDF);
    assert_eq!(t.op, Op::A64_TST_IMM);
    assert_eq!(t.imm, 0xFF);
    assert_eq!((t.rd, t.rn), (ZERO_REG, 6));
    assert_eq!(t.flags, SET_FLAGS);
    let a = data_proc_imm(0xF240_1CC7);
    assert_eq!(a.op, Op::A64_AND_IMM);
    assert_eq!(a.rd, 7);
    assert_eq!(a.flags, SET_FLAGS);
}

#[test]
fn logical_without_bitmask_is_unknown() {
    let u = data_proc_imm(0x9200_FC22);
    assert_eq!(u.op, Op::A64_UNKNOWN);
    assert_eq!(u.imm, 0x9200_FC22);
    assert_eq!((u.rd, u.rn, u.flags), (0, 0, 0));
}

#[test]
fn move_wide_values() {
    // MOVZ X3, #0xBEEF, LSL #32
    let z = data_proc_imm(0xD2D7_DDE3);
    assert_eq!(z.op, Op::A64_MOV_IMM);
    assert_eq!(z.imm, 0x0000_BEEF_0000_0000);
    assert_eq!(z.rd, 3);
    assert_eq!(z.flags, 0);
    // MOVN X4, #0
    let n = data_proc_imm(0x9280_0004);
    assert_eq!(n.op, Op::A64_MOV_IMM);
    assert_eq!(n.imm, u64::MAX);
    assert_eq!(n.rd, 4);
    // MOVN W4, #0xFFFF, LSL #16
    let w = data_proc_imm(0x12BF_FFE4);
    assert_eq!(w.op, Op::A64_MOV_IMM);
    assert_eq!(w.imm, !(0xFFFFu64 << 16));
    assert_eq!(w.flags, W32);
    assert_eq!(w.movk, Movk { imm16: 0, lsl: 0 });
}

#[test]
fn movk_touches_only_its_fields() {
    // MOVK X7, #0x1234, LSL #16
    let k = data_proc_imm(0xF2A2_4687);
    assert_eq!(k.op, Op::A64_MOVK);
    assert_eq!(k.rd, 7);
    assert_eq!(k.movk, Movk { imm16: 0x1234, lsl: 16 });
    assert_eq!(k.flags, 0);
    assert_eq!((k.rn, k.rm), (0, 0));
    assert_eq!(k.imm, 0);
    assert_eq!(k.offset, 0);
    assert_eq!(k.error, "");
    assert_eq!(k.bfm, Bfm { lsb: 0, width: 0 });
    assert_eq!(k.extend, Extend { typ: 0, lsl: 0 });
    assert_rest_blank(&k);
}

#[test]
fn move_wide_reserved_selector_is_unknown() {
    let u = data_proc_imm(0xB280_0AA7);
    assert_eq!(u.op, Op::A64_UNKNOWN);
    assert_eq!(u.imm, 0xB280_0AA7);
    assert_eq!(u.rd, 0);
}

#[test]
fn extension_aliases() {
    let cases: [(u32, Op, u8, u8); 6] = [
        (0x5300_1C22, Op::A64_EXTEND, UXTB, W32),
        (0xD340_1C22, Op::A64_EXTEND, UXTB, 0),
        (0x5300_3C22, Op::A64_EXTEND, UXTH, W32),
        (0x9340_1C64, Op::A64_EXTEND, SXTB, 0),
        (0x9340_3C64, Op::A64_EXTEND, SXTH, 0),
        (0x9340_7C64, Op::A64_EXTEND, SXTW, 0),
    ];
    for (word, op, typ, flags) in cases {
        let i = data_proc_imm(word);
        assert_eq!(i.op, op);
        assert_eq!(i.extend, Extend { typ: typ as u32, lsl: 0 });
        assert_eq!(i.flags, flags);
        assert_eq!(i.bfm, Bfm { lsb: 0, width: 0 });
    }
    assert_eq!(data_proc_imm(0x9340_7C64).rd, 4);
    assert_eq!(data_proc_imm(0x9340_7C64).rn, 3);
}

#[test]
fn unsigned_word_extension_is_rejected() {
    let e = data_proc_imm(0xD340_7C64);
    assert_eq!(e.op, Op::A64_ERROR);
    assert_eq!(e.error, "there is no UXTW instruction");
    assert_eq!((e.rd, e.rn), (0, 0));
}

#[test]
fn shift_aliases() {
    // LSL X0, X1, #4
    let l = data_proc_imm(0xD37C_EC20);
    assert_eq!(l.op, Op::A64_LSL_IMM);
    assert_eq!(l.imm, 4);
    assert_eq!((l.rd, l.rn), (0, 1));
    // UBFM W0, W1, #0, #31: imms all ones wins over the extension.
    let r0 = data_proc_imm(0x5300_7C20);
    assert_eq!(r0.op, Op::A64_LSR_IMM);
    assert_eq!(r0.imm, 0);
    assert_eq!(r0.flags, W32);
    // LSR X0, X1, #8
    let r = data_proc_imm(0xD348_FC20);
    assert_eq!(r.op, Op::A64_LSR_IMM);
    assert_eq!(r.imm, 8);
    // ASR W0, W1, #3
    let a = data_proc_imm(0x1303_7C20);
    assert_eq!(a.op, Op::A64_ASR_IMM);
    assert_eq!(a.imm, 3);
    assert_eq!(a.flags, W32);
}

#[test]
fn bitfield_insert_and_extract_aliases() {
    assert_bitfield(&data_proc_imm(0x937C_0C20), Op::A64_SBFIZ, 4, 4);
    assert_bitfield(&data_proc_imm(0x531C_0820), Op::A64_UBFIZ, 4, 3);
    assert_bitfield(&data_proc_imm(0xD344_2C20), Op::A64_UBFX, 4, 8);
    assert_bitfield(&data_proc_imm(0xD345_1420), Op::A64_UBFX, 5, 1);
    assert_bitfield(&data_proc_imm(0x9340_0C20), Op::A64_SBFX, 0, 4);
    assert_bitfield(&data_proc_imm(0xB344_2C20), Op::A64_BFXIL, 4, 8);
    assert_bitfield(&data_proc_imm(0xB344_1020), Op::A64_BFXIL, 4, 1);
    assert_bitfield(&data_proc_imm(0xB37C_0C20), Op::A64_BFI, 4, 4);
    let c = data_proc_imm(0xB37C_0FE0);
    assert_bitfield(&c, Op::A64_BFC, 4, 4);
    assert_eq!(c.rn, ZERO_REG);
    assert_rest_blank(&c);
}

#[test]
fn bitfield_reserved_encodings_are_unknown() {
    let u = data_proc_imm(0xF340_0020);
    assert_eq!(u.op, Op::A64_UNKNOWN);
    assert_eq!(u.imm, 0xF340_0020);
    let w = data_proc_imm(0x1328_1420);
    assert_eq!(w.op, Op::A64_UNKNOWN);
    assert_eq!(w.imm, 0x1328_1420);
}

#[test]
fn alias_rules_directly() {
    let x = find_bfm_alias(Op::A64_UBFM, false, 1, 2, 0, 7);
    assert_eq!(x.op, Op::A64_EXTEND);
    assert_eq!(x.extend.typ, UXTB as u32);
    assert_eq!((x.rd, x.rn), (1, 2));
    let s = find_bfm_alias(Op::A64_SBFM, false, 1, 2, 0, 31);
    assert_eq!(s.op, Op::A64_EXTEND);
    assert_eq!(s.extend.typ, SXTW as u32);
    let e = find_bfm_alias(Op::A64_UBFM, false, 1, 2, 0, 31);
    assert_eq!(e.op, Op::A64_ERROR);
    // imms + 1 == immr with imms all ones is a shift right, not left.
    let r = find_bfm_alias(Op::A64_UBFM, true, 1, 2, 0, 31);
    assert_eq!(r.op, Op::A64_LSR_IMM);
    // BFM with imms == immr extracts one bit.
    let b = find_bfm_alias(Op::A64_BFM, true, 1, 2, 9, 9);
    assert_eq!(b.op, Op::A64_BFXIL);
    assert_eq!(b.bfm, Bfm { lsb: 9, width: 1 });
    assert_eq!(b.flags, W32);
    // BFI in 32 bits counts the lsb from 32.
    let i = find_bfm_alias(Op::A64_BFM, true, 1, 2, 31, 0);
    assert_eq!(i.op, Op::A64_BFI);
    assert_eq!(i.bfm, Bfm { lsb: 1, width: 1 });
}

#[test]
fn extract_and_rotate() {
    // EXTR X1, X2, X3, #12
    let x = data_proc_imm(0x93C3_3041);
    assert_eq!(x.op, Op::A64_EXTR);
    assert_eq!(x.imm, 12);
    assert_eq!((x.rd, x.rn, x.rm), (1, 2, 3));
    assert_eq!(x.flags, 0);
    // ROR W1, W2, #7
    let r = data_proc_imm(0x1382_1C41);
    assert_eq!(r.op, Op::A64_ROR_IMM);
    assert_eq!(r.imm, 7);
    assert_eq!((r.rd, r.rn, r.rm), (1, 2, 0));
    assert_eq!(r.flags, W32);
}

#[test]
fn add_sub_with_tags_is_rejected() {
    let e = data_proc_imm(0x9180_0000);
    assert_eq!(e.op, Op::A64_ERROR);
    assert_eq!(e.error, "ADDG, SUBG not supported");
    assert_eq!(e.flags, 0);
}

#[test]
fn record_constructors() {
    let e = errinst("bad".to_string());
    assert_eq!(e.op, Op::A64_ERROR);
    assert_eq!(e.error, "bad");
    assert_eq!(e.imm, 0);
    assert_rest_blank(&e);
    let u = unknown_inst(0xDEAD_BEEF);
    assert_eq!(u.op, Op::A64_UNKNOWN);
    assert_eq!(u.imm, 0xDEAD_BEEF);
    assert_eq!(u.error, "");
    assert_rest_blank(&u);
}

#[test]
fn every_word_of_the_class_decodes() {
    // Walk the class with a stride that reaches every family and selector.
    let mut word: u32 = 0x1000_0000;
    let mut seen = 0u32;
    while seen < 200_000 {
        let i = data_proc_imm(word);
        match i.op {
            Op::A64_UNKNOWN => assert_eq!(i.imm, word as u64),
            Op::A64_ERROR => assert!(!i.error.is_empty()),
            _ => assert!(i.error.is_empty()),
        }
        word = (word.wrapping_add(0x0001_3579) & !0x0C00_0000) | 0x1000_0000;
        seen += 1;
    }
}
