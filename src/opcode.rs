//! Operation codes and the small enumerations that accompany them.
//!
//! Opcodes are grouped as in the top-level encodings of the A64 instruction
//! set. Immediate and register variants of one mnemonic have distinct codes
//! (`A64_ADD_IMM`, `A64_ADD_SHIFTED`, `A64_ADD_EXT`); the suffix appears only
//! where it is needed to tell them apart. Aliases have codes of their own.
//! Regular families of variants share one code, with the variant kept in
//! `Inst::flags` (conditional branches are all `A64_BCOND`).
use vstd::prelude::*;

verus! {

/// Canonical operation of a decoded instruction.
#[derive(Clone, Copy, Debug, PartialEq, Eq, Structural)]
pub enum Op {
    /// Unallocated or reserved encoding; `Inst::imm` holds the raw word.
    A64_UNKNOWN,
    /// Encoding this decoder rejects; `Inst::error` holds the reason.
    A64_ERROR,
    /// Permanently undefined; raises an undefined-instruction exception.
    A64_UDF,
    // Data Processing -- Immediate
    /// `ADR Xd, label`: Xd = PC + offset.
    A64_ADR,
    /// `ADRP Xd, label`: Xd = page(PC) + offset, the offset a multiple of 4 KiB.
    A64_ADRP,
    A64_ADD_IMM,
    /// `CMN`: ADDS with the result discarded.
    A64_CMN_IMM,
    /// `MOV` to or from SP: ADD of immediate zero with SP as Rd or Rn.
    A64_MOV_SP,
    A64_SUB_IMM,
    /// `CMP`: SUBS with the result discarded.
    A64_CMP_IMM,
    A64_AND_IMM,
    A64_ORR_IMM,
    A64_EOR_IMM,
    /// `TST`: ANDS with the result discarded.
    A64_TST_IMM,
    /// Move 16 bits into Rd, keeping the other bits (`Inst::movk`).
    A64_MOVK,
    /// Move a full immediate into Rd (MOVZ and MOVN with the value worked out).
    A64_MOV_IMM,
    A64_SBFM,
    A64_ASR_IMM,
    A64_SBFIZ,
    A64_SBFX,
    A64_BFM,
    A64_BFC,
    A64_BFI,
    A64_BFXIL,
    A64_UBFM,
    A64_LSL_IMM,
    A64_LSR_IMM,
    A64_UBFIZ,
    A64_UBFX,
    /// SXTB, SXTH, SXTW, UXTB, UXTH; the kind is in `Inst::extend`.
    A64_EXTEND,
    A64_EXTR,
    /// `ROR` by immediate: EXTR with Rn == Rm.
    A64_ROR_IMM,
    // Branches, Exception Generating and System Instructions
    A64_BCOND,
    A64_SVC,
    A64_HVC,
    A64_SMC,
    A64_BRK,
    A64_HLT,
    A64_DCPS1,
    A64_DCPS2,
    A64_DCPS3,
    A64_HINT,
    A64_CLREX,
    A64_DMB,
    A64_ISB,
    A64_SB,
    A64_DSB,
    A64_SSBB,
    A64_PSSBB,
    A64_MSR_IMM,
    A64_CFINV,
    A64_XAFlag,
    A64_AXFlag,
    A64_SYS,
    A64_SYSL,
    A64_MSR_REG,
    A64_MRS,
    A64_BR,
    A64_BLR,
    A64_RET,
    A64_B,
    A64_BL,
    A64_CBZ,
    A64_CBNZ,
    A64_TBZ,
    A64_TBNZ,
    // Data Processing -- Register
    A64_UDIV,
    A64_SDIV,
    A64_LSLV,
    A64_LSRV,
    A64_ASRV,
    A64_RORV,
    A64_CRC32B,
    A64_CRC32H,
    A64_CRC32W,
    A64_CRC32X,
    A64_CRC32CB,
    A64_CRC32CH,
    A64_CRC32CW,
    A64_CRC32CX,
    A64_SUBP,
    A64_RBIT,
    A64_REV16,
    A64_REV,
    A64_REV32,
    A64_CLZ,
    A64_CLS,
    A64_AND_SHIFTED,
    A64_TST_SHIFTED,
    A64_BIC,
    A64_ORR_SHIFTED,
    A64_MOV_REG,
    A64_ORN,
    A64_MVN,
    A64_EOR_SHIFTED,
    A64_EON,
    A64_ADD_SHIFTED,
    A64_CMN_SHIFTED,
    A64_SUB_SHIFTED,
    A64_NEG,
    A64_CMP_SHIFTED,
    A64_ADD_EXT,
    A64_CMN_EXT,
    A64_SUB_EXT,
    A64_CMP_EXT,
    A64_ADC,
    A64_SBC,
    A64_NGC,
    A64_RMIF,
    A64_SETF8,
    A64_SETF16,
    A64_CCMN_REG,
    A64_CCMP_REG,
    A64_CCMN_IMM,
    A64_CCMP_IMM,
    A64_CSEL,
    A64_CSINC,
    A64_CINC,
    A64_CSET,
    A64_CSINV,
    A64_CINV,
    A64_CSETM,
    A64_CSNEG,
    A64_CNEG,
    A64_MADD,
    A64_MUL,
    A64_MSUB,
    A64_MNEG,
    A64_SMADDL,
    A64_SMULL,
    A64_SMSUBL,
    A64_SMNEGL,
    A64_SMULH,
    A64_UMADDL,
    A64_UMULL,
    A64_UMSUBL,
    A64_UMNEGL,
    A64_UMULH,
    // Loads and Stores
    A64_LD1_MULT,
    A64_ST1_MULT,
    A64_LD2_MULT,
    A64_ST2_MULT,
    A64_LD3_MULT,
    A64_ST3_MULT,
    A64_LD4_MULT,
    A64_ST4_MULT,
    A64_LD1_SINGLE,
    A64_ST1_SINGLE,
    A64_LD2_SINGLE,
    A64_ST2_SINGLE,
    A64_LD3_SINGLE,
    A64_ST3_SINGLE,
    A64_LD4_SINGLE,
    A64_ST4_SINGLE,
    A64_LD1R,
    A64_LD2R,
    A64_LD3R,
    A64_LD4R,
    A64_LDXR,
    A64_STXR,
    A64_LDXP,
    A64_STXP,
    A64_LDAPR,
    A64_LDNP,
    A64_STNP,
    A64_LDNP_FP,
    A64_STNP_FP,
    A64_LDP,
    A64_STP,
    A64_LDP_FP,
    A64_STP_FP,
    A64_LDR,
    A64_STR,
    A64_LDR_FP,
    A64_STR_FP,
    A64_PRFM,
    A64_LDADD,
    A64_LDCLR,
    A64_LDEOR,
    A64_LDSET,
    A64_LDSMAX,
    A64_LDSMIN,
    A64_LDUMAX,
    A64_LDUMIN,
    A64_SWP,
    A64_CAS,
    A64_CASP,
    // Data Processing -- Scalar Floating-Point and Advanced SIMD
    A64_FCVT_GPR,
    A64_FCVT_VEC,
    A64_CVTF,
    A64_CVTF_VEC,
    A64_FJCVTZS,
    A64_FRINT,
    A64_FRINT_VEC,
    A64_FRINTX,
    A64_FRINTX_VEC,
    A64_FCVT_H,
    A64_FCVT_S,
    A64_FCVT_D,
    A64_FCVTL,
    A64_FCVTN,
    A64_FCVTXN,
    A64_FABS,
    A64_FNEG,
    A64_FSQRT,
    A64_FMUL,
    A64_FMULX,
    A64_FDIV,
    A64_FADD,
    A64_FSUB,
    A64_FMAX,
    A64_FMAXNM,
    A64_FMIN,
    A64_FMINNM,
    A64_FRECPE,
    A64_FRECPS,
    A64_FRECPX,
    A64_FRSQRTE,
    A64_FRSQRTS,
    A64_FNMUL,
    A64_FMADD,
    A64_FMSUB,
    A64_FNMADD,
    A64_FNMSUB,
    A64_FCMP_REG,
    A64_FCMP_ZERO,
    A64_FCMPE_REG,
    A64_FCMPE_ZERO,
    A64_FCCMP,
    A64_FCCMPE,
    A64_FCSEL,
    A64_FMOV_VEC2GPR,
    A64_FMOV_GPR2VEC,
    A64_FMOV_TOP2GPR,
    A64_FMOV_GPR2TOP,
    A64_FMOV_REG,
    A64_FMOV_IMM,
    A64_FMOV_VEC,
    A64_FCMEQ_REG,
    A64_FCMEQ_ZERO,
    A64_FCMGE_REG,
    A64_FCMGE_ZERO,
    A64_FCMGT_REG,
    A64_FCMGT_ZERO,
    A64_FCMLE_ZERO,
    A64_FCMLT_ZERO,
    A64_FACGE,
    A64_FACGT,
    A64_FABS_VEC,
    A64_FABD_VEC,
    A64_FNEG_VEC,
    A64_FSQRT_VEC,
    A64_FMUL_ELEM,
    A64_FMUL_VEC,
    A64_FMULX_ELEM,
    A64_FMULX_VEC,
    A64_FDIV_VEC,
    A64_FADD_VEC,
    A64_FCADD,
    A64_FSUB_VEC,
    A64_FMAX_VEC,
    A64_FMAXNM_VEC,
    A64_FMIN_VEC,
    A64_FMINNM_VEC,
    A64_FRECPE_VEC,
    A64_FRECPS_VEC,
    A64_FRSQRTE_VEC,
    A64_FRSQRTS_VEC,
    A64_FMLA_ELEM,
    A64_FMLA_VEC,
    A64_FMLAL_ELEM,
    A64_FMLAL_VEC,
    A64_FMLAL2_ELEM,
    A64_FMLAL2_VEC,
    A64_FCMLA_ELEM,
    A64_FCMLA_VEC,
    A64_FMLS_ELEM,
    A64_FMLS_VEC,
    A64_FMLSL_ELEM,
    A64_FMLSL_VEC,
    A64_FMLSL2_ELEM,
    A64_FMLSL2_VEC,
    A64_FADDP,
    A64_FADDP_VEC,
    A64_FMAXP,
    A64_FMAXP_VEC,
    A64_FMAXV,
    A64_FMAXNMP,
    A64_FMAXNMP_VEC,
    A64_FMAXNMV,
    A64_FMINP,
    A64_FMINP_VEC,
    A64_FMINV,
    A64_FMINNMP,
    A64_FMINNMP_VEC,
    A64_FMINNMV,
    A64_AND_VEC,
    A64_BCAX,
    A64_BIC_VEC_IMM,
    A64_BIC_VEC_REG,
    A64_BIF,
    A64_BIT,
    A64_BSL,
    A64_CLS_VEC,
    A64_CLZ_VEC,
    A64_CNT,
    A64_EOR_VEC,
    A64_EOR3,
    A64_NOT_VEC,
    A64_ORN_VEC,
    A64_ORR_VEC_IMM,
    A64_ORR_VEC_REG,
    A64_MOV_VEC,
    A64_RAX1,
    A64_RBIT_VEC,
    A64_REV16_VEC,
    A64_REV32_VEC,
    A64_REV64_VEC,
    A64_SHL_IMM,
    A64_SHL_REG,
    A64_SHLL,
    A64_SHR,
    A64_SHRN,
    A64_SRA,
    A64_SLI,
    A64_SRI,
    A64_XAR,
    A64_DUP_ELEM,
    A64_DUP_GPR,
    A64_EXT,
    A64_INS_ELEM,
    A64_INS_GPR,
    A64_MOVI,
    A64_SMOV,
    A64_UMOV,
    A64_TBL,
    A64_TBX,
    A64_TRN1,
    A64_TRN2,
    A64_UZP1,
    A64_UZP2,
    A64_XTN,
    A64_ZIP1,
    A64_ZIP2,
    A64_CMEQ_REG,
    A64_CMEQ_ZERO,
    A64_CMGE_REG,
    A64_CMGE_ZERO,
    A64_CMGT_REG,
    A64_CMGT_ZERO,
    A64_CMHI_REG,
    A64_CMHS_REG,
    A64_CMLE_ZERO,
    A64_CMLT_ZERO,
    A64_CMTST,
    A64_ABS_VEC,
    A64_ABD,
    A64_ABDL,
    A64_ABA,
    A64_ABAL,
    A64_NEG_VEC,
    A64_MUL_ELEM,
    A64_MUL_VEC,
    A64_MULL_ELEM,
    A64_MULL_VEC,
    A64_ADD_VEC,
    A64_ADDHN,
    A64_ADDL,
    A64_ADDW,
    A64_HADD,
    A64_SUB_VEC,
    A64_SUBHN,
    A64_SUBL,
    A64_SUBW,
    A64_HSUB,
    A64_MAX_VEC,
    A64_MIN_VEC,
    A64_DOT_ELEM,
    A64_DOT_VEC,
    A64_URECPE,
    A64_URSQRTE,
    A64_MLA_ELEM,
    A64_MLA_VEC,
    A64_MLS_ELEM,
    A64_MLS_VEC,
    A64_MLAL_ELEM,
    A64_MLAL_VEC,
    A64_MLSL_ELEM,
    A64_MLSL_VEC,
    A64_ADDP,
    A64_ADDP_VEC,
    A64_ADDV,
    A64_ADALP,
    A64_ADDLP,
    A64_ADDLV,
    A64_MAXP,
    A64_MAXV,
    A64_MINP,
    A64_MINV,
    A64_QADD,
    A64_QABS,
    A64_SUQADD,
    A64_USQADD,
    A64_QSHL_IMM,
    A64_QSHL_REG,
    A64_QSHRN,
    A64_QSUB,
    A64_QXTN,
    A64_SQABS,
    A64_SQADD,
    A64_SQDMLAL_ELEM,
    A64_SQDMLAL_VEC,
    A64_SQDMLSL_ELEM,
    A64_SQDMLSL_VEC,
    A64_SQDMULH_ELEM,
    A64_SQDMULH_VEC,
    A64_SQDMULL_ELEM,
    A64_SQDMULL_VEC,
    A64_SQNEG,
    A64_SQRDMLAH_ELEM,
    A64_SQRDMLAH_VEC,
    A64_SQRDMLSH_ELEM,
    A64_SQRDMLSH_VEC,
    A64_SQSHLU,
    A64_SQSHRUN,
    A64_SQXTUN,
    A64_PMUL,
    A64_PMULL,
}

/// Memory ordering of atomic and exclusive loads and stores.
#[derive(Clone, Copy, Debug, PartialEq, Eq, Structural)]
pub enum MemOrdering {
    MO_NONE,
    /// Load-Acquire, sequentially consistent.
    MO_ACQUIRE,
    /// Load-LOAcquire: Acquire within a limited ordering region.
    MO_LO_ACQUIRE,
    /// Load-AcquirePC: the weaker, processor-consistent Acquire.
    MO_ACQUIRE_PC,
    /// Store-Release.
    MO_RELEASE,
    /// Store-LORelease: Release within a limited ordering region.
    MO_LO_RELEASE,
}

/// Floating-point rounding mode, as named by the letter in the FCVT* mnemonics.
#[derive(Clone, Copy, Debug, PartialEq, Eq, Structural)]
pub enum FPRounding {
    /// The rounding mode currently selected.
    FPR_CURRENT,
    /// N: to nearest, ties to even.
    FPR_TIE_EVEN,
    /// A: to nearest, ties away from zero.
    FPR_TIE_AWAY,
    /// M: towards minus infinity.
    FPR_NEG_INF,
    /// Z: towards zero.
    FPR_ZERO,
    /// P: towards plus infinity.
    FPR_POS_INF,
    /// XN: round to odd, used only by FCVTXN.
    FPR_ODD,
}

/// The PSTATE field that an MSR (immediate) instruction writes.
#[derive(Clone, Copy, Debug, PartialEq, Eq, Structural)]
pub enum PStateField {
    PSF_UAO,
    PSF_PAN,
    PSF_SPSel,
    PSF_SSBS,
    PSF_DIT,
    PSF_DAIFSet,
    PSF_DAIFClr,
}

} // verus!
