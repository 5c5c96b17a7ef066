//! The instruction representation and the decoder.
//!
//! `Instruction` is a tagged variant over every operation of RV64 IMAFDQ
//! with Zicsr and Zifencei; each variant carries exactly the fields that
//! operation needs. Register fields are the raw 5-bit numbers, immediates
//! are already sign-extended to 64 bits, and the quad-precision forms are
//! modeled at double precision by the execution engine.
//!
//! The decoder is a pure function from a 32-bit word and an encoding table
//! to an `Instruction`; encodings of disabled extensions and malformed
//! words decode to `Undefined`. Field placement follows the base
//! specification, with every field written as division and remainder by
//! powers of two so that the round-trip law can be proved arithmetically.
use vstd::prelude::*;

verus! {

use vstd::arithmetic::div_mod::{
    lemma_breakdown,
    lemma_div_denominator,
    lemma_fundamental_div_mod,
    lemma_fundamental_div_mod_converse,
};
use crate::encoding::EncodingTable;

/// One decoded operation, carrying only the fields it needs.
#[derive(Clone, Copy, Debug, PartialEq, Eq, Structural)]
#[allow(missing_docs)]
pub enum Instruction {
    Undefined,
    Lui { rd: u8, imm: u64 },
    Auipc { rd: u8, imm: u64 },
    Jal { rd: u8, imm: u64 },
    Jalr { rd: u8, rs1: u8, imm: u64 },
    Beq { rs1: u8, rs2: u8, imm: u64 },
    Bne { rs1: u8, rs2: u8, imm: u64 },
    Blt { rs1: u8, rs2: u8, imm: u64 },
    Bge { rs1: u8, rs2: u8, imm: u64 },
    Bltu { rs1: u8, rs2: u8, imm: u64 },
    Bgeu { rs1: u8, rs2: u8, imm: u64 },
    Lb { rd: u8, rs1: u8, imm: u64 },
    Lh { rd: u8, rs1: u8, imm: u64 },
    Lw { rd: u8, rs1: u8, imm: u64 },
    Ld { rd: u8, rs1: u8, imm: u64 },
    Lbu { rd: u8, rs1: u8, imm: u64 },
    Lhu { rd: u8, rs1: u8, imm: u64 },
    Lwu { rd: u8, rs1: u8, imm: u64 },
    Sb { rs1: u8, rs2: u8, imm: u64 },
    Sh { rs1: u8, rs2: u8, imm: u64 },
    Sw { rs1: u8, rs2: u8, imm: u64 },
    Sd { rs1: u8, rs2: u8, imm: u64 },
    Addi { rd: u8, rs1: u8, imm: u64 },
    Slti { rd: u8, rs1: u8, imm: u64 },
    Sltiu { rd: u8, rs1: u8, imm: u64 },
    Xori { rd: u8, rs1: u8, imm: u64 },
    Ori { rd: u8, rs1: u8, imm: u64 },
    Andi { rd: u8, rs1: u8, imm: u64 },
    Slli { rd: u8, rs1: u8, shamt: u8 },
    Srli { rd: u8, rs1: u8, shamt: u8 },
    Srai { rd: u8, rs1: u8, shamt: u8 },
    Add { rd: u8, rs1: u8, rs2: u8 },
    Sub { rd: u8, rs1: u8, rs2: u8 },
    Sll { rd: u8, rs1: u8, rs2: u8 },
    Slt { rd: u8, rs1: u8, rs2: u8 },
    Sltu { rd: u8, rs1: u8, rs2: u8 },
    Xor { rd: u8, rs1: u8, rs2: u8 },
    Srl { rd: u8, rs1: u8, rs2: u8 },
    Sra { rd: u8, rs1: u8, rs2: u8 },
    Or { rd: u8, rs1: u8, rs2: u8 },
    And { rd: u8, rs1: u8, rs2: u8 },
    Fence { rd: u8, rs1: u8, fm: u8, pred: u8, succ: u8 },
    FenceI { rd: u8, rs1: u8, imm: u64 },
    Ecall,
    Ebreak,
    Addiw { rd: u8, rs1: u8, imm: u64 },
    Slliw { rd: u8, rs1: u8, shamt: u8 },
    Srliw { rd: u8, rs1: u8, shamt: u8 },
    Sraiw { rd: u8, rs1: u8, shamt: u8 },
    Addw { rd: u8, rs1: u8, rs2: u8 },
    Subw { rd: u8, rs1: u8, rs2: u8 },
    Sllw { rd: u8, rs1: u8, rs2: u8 },
    Srlw { rd: u8, rs1: u8, rs2: u8 },
    Sraw { rd: u8, rs1: u8, rs2: u8 },
    Csrrw { rd: u8, rs1: u8, csr: u16 },
    Csrrs { rd: u8, rs1: u8, csr: u16 },
    Csrrc { rd: u8, rs1: u8, csr: u16 },
    Csrrwi { rd: u8, uimm: u8, csr: u16 },
    Csrrsi { rd: u8, uimm: u8, csr: u16 },
    Csrrci { rd: u8, uimm: u8, csr: u16 },
    Mul { rd: u8, rs1: u8, rs2: u8 },
    Mulh { rd: u8, rs1: u8, rs2: u8 },
    Mulhsu { rd: u8, rs1: u8, rs2: u8 },
    Mulhu { rd: u8, rs1: u8, rs2: u8 },
    Div { rd: u8, rs1: u8, rs2: u8 },
    Divu { rd: u8, rs1: u8, rs2: u8 },
    Rem { rd: u8, rs1: u8, rs2: u8 },
    Remu { rd: u8, rs1: u8, rs2: u8 },
    Mulw { rd: u8, rs1: u8, rs2: u8 },
    Divw { rd: u8, rs1: u8, rs2: u8 },
    Divuw { rd: u8, rs1: u8, rs2: u8 },
    Remw { rd: u8, rs1: u8, rs2: u8 },
    Remuw { rd: u8, rs1: u8, rs2: u8 },
    LrW { rd: u8, rs1: u8, aq: bool, rl: bool },
    ScW { rd: u8, rs1: u8, rs2: u8, aq: bool, rl: bool },
    AmoswapW { rd: u8, rs1: u8, rs2: u8, aq: bool, rl: bool },
    AmoaddW { rd: u8, rs1: u8, rs2: u8, aq: bool, rl: bool },
    AmoxorW { rd: u8, rs1: u8, rs2: u8, aq: bool, rl: bool },
    AmoandW { rd: u8, rs1: u8, rs2: u8, aq: bool, rl: bool },
    AmoorW { rd: u8, rs1: u8, rs2: u8, aq: bool, rl: bool },
    AmominW { rd: u8, rs1: u8, rs2: u8, aq: bool, rl: bool },
    AmomaxW { rd: u8, rs1: u8, rs2: u8, aq: bool, rl: bool },
    AmominuW { rd: u8, rs1: u8, rs2: u8, aq: bool, rl: bool },
    AmomaxuW { rd: u8, rs1: u8, rs2: u8, aq: bool, rl: bool },
    LrD { rd: u8, rs1: u8, aq: bool, rl: bool },
    ScD { rd: u8, rs1: u8, rs2: u8, aq: bool, rl: bool },
    AmoswapD { rd: u8, rs1: u8, rs2: u8, aq: bool, rl: bool },
    AmoaddD { rd: u8, rs1: u8, rs2: u8, aq: bool, rl: bool },
    AmoxorD { rd: u8, rs1: u8, rs2: u8, aq: bool, rl: bool },
    AmoandD { rd: u8, rs1: u8, rs2: u8, aq: bool, rl: bool },
    AmoorD { rd: u8, rs1: u8, rs2: u8, aq: bool, rl: bool },
    AmominD { rd: u8, rs1: u8, rs2: u8, aq: bool, rl: bool },
    AmomaxD { rd: u8, rs1: u8, rs2: u8, aq: bool, rl: bool },
    AmominuD { rd: u8, rs1: u8, rs2: u8, aq: bool, rl: bool },
    AmomaxuD { rd: u8, rs1: u8, rs2: u8, aq: bool, rl: bool },
    Flw { rd: u8, rs1: u8, imm: u64 },
    Fsw { rs1: u8, rs2: u8, imm: u64 },
    Fld { rd: u8, rs1: u8, imm: u64 },
    Fsd { rs1: u8, rs2: u8, imm: u64 },
    Flq { rd: u8, rs1: u8, imm: u64 },
    Fsq { rs1: u8, rs2: u8, imm: u64 },
    FmaddS { rd: u8, rs1: u8, rs2: u8, rs3: u8, rm: u8 },
    FmsubS { rd: u8, rs1: u8, rs2: u8, rs3: u8, rm: u8 },
    FnmsubS { rd: u8, rs1: u8, rs2: u8, rs3: u8, rm: u8 },
    FnmaddS { rd: u8, rs1: u8, rs2: u8, rs3: u8, rm: u8 },
    FaddS { rd: u8, rs1: u8, rs2: u8, rm: u8 },
    FsubS { rd: u8, rs1: u8, rs2: u8, rm: u8 },
    FmulS { rd: u8, rs1: u8, rs2: u8, rm: u8 },
    FdivS { rd: u8, rs1: u8, rs2: u8, rm: u8 },
    FsqrtS { rd: u8, rs1: u8, rm: u8 },
    FsgnjS { rd: u8, rs1: u8, rs2: u8 },
    FsgnjnS { rd: u8, rs1: u8, rs2: u8 },
    FsgnjxS { rd: u8, rs1: u8, rs2: u8 },
    FminS { rd: u8, rs1: u8, rs2: u8 },
    FmaxS { rd: u8, rs1: u8, rs2: u8 },
    FcvtWS { rd: u8, rs1: u8, rm: u8 },
    FcvtWUS { rd: u8, rs1: u8, rm: u8 },
    FcvtLS { rd: u8, rs1: u8, rm: u8 },
    FcvtLUS { rd: u8, rs1: u8, rm: u8 },
    FmvXW { rd: u8, rs1: u8 },
    FeqS { rd: u8, rs1: u8, rs2: u8 },
    FltS { rd: u8, rs1: u8, rs2: u8 },
    FleS { rd: u8, rs1: u8, rs2: u8 },
    FclassS { rd: u8, rs1: u8 },
    FcvtSW { rd: u8, rs1: u8, rm: u8 },
    FcvtSWU { rd: u8, rs1: u8, rm: u8 },
    FcvtSL { rd: u8, rs1: u8, rm: u8 },
    FcvtSLU { rd: u8, rs1: u8, rm: u8 },
    FmvWX { rd: u8, rs1: u8 },
    FcvtSD { rd: u8, rs1: u8, rm: u8 },
    FcvtDS { rd: u8, rs1: u8, rm: u8 },
    FmaddD { rd: u8, rs1: u8, rs2: u8, rs3: u8, rm: u8 },
    FmsubD { rd: u8, rs1: u8, rs2: u8, rs3: u8, rm: u8 },
    FnmsubD { rd: u8, rs1: u8, rs2: u8, rs3: u8, rm: u8 },
    FnmaddD { rd: u8, rs1: u8, rs2: u8, rs3: u8, rm: u8 },
    FaddD { rd: u8, rs1: u8, rs2: u8, rm: u8 },
    FsubD { rd: u8, rs1: u8, rs2: u8, rm: u8 },
    FmulD { rd: u8, rs1: u8, rs2: u8, rm: u8 },
    FdivD { rd: u8, rs1: u8, rs2: u8, rm: u8 },
    FsqrtD { rd: u8, rs1: u8, rm: u8 },
    FsgnjD { rd: u8, rs1: u8, rs2: u8 },
    FsgnjnD { rd: u8, rs1: u8, rs2: u8 },
    FsgnjxD { rd: u8, rs1: u8, rs2: u8 },
    FminD { rd: u8, rs1: u8, rs2: u8 },
    FmaxD { rd: u8, rs1: u8, rs2: u8 },
    FeqD { rd: u8, rs1: u8, rs2: u8 },
    FltD { rd: u8, rs1: u8, rs2: u8 },
    FleD { rd: u8, rs1: u8, rs2: u8 },
    FclassD { rd: u8, rs1: u8 },
    FcvtWD { rd: u8, rs1: u8, rm: u8 },
    FcvtWUD { rd: u8, rs1: u8, rm: u8 },
    FcvtLD { rd: u8, rs1: u8, rm: u8 },
    FcvtLUD { rd: u8, rs1: u8, rm: u8 },
    FcvtDW { rd: u8, rs1: u8, rm: u8 },
    FcvtDWU { rd: u8, rs1: u8, rm: u8 },
    FcvtDL { rd: u8, rs1: u8, rm: u8 },
    FcvtDLU { rd: u8, rs1: u8, rm: u8 },
    FmvXD { rd: u8, rs1: u8 },
    FmvDX { rd: u8, rs1: u8 },
    FmaddQ { rd: u8, rs1: u8, rs2: u8, rs3: u8, rm: u8 },
    FmsubQ { rd: u8, rs1: u8, rs2: u8, rs3: u8, rm: u8 },
    FnmsubQ { rd: u8, rs1: u8, rs2: u8, rs3: u8, rm: u8 },
    FnmaddQ { rd: u8, rs1: u8, rs2: u8, rs3: u8, rm: u8 },
    FaddQ { rd: u8, rs1: u8, rs2: u8, rm: u8 },
    FsubQ { rd: u8, rs1: u8, rs2: u8, rm: u8 },
    FmulQ { rd: u8, rs1: u8, rs2: u8, rm: u8 },
    FdivQ { rd: u8, rs1: u8, rs2: u8, rm: u8 },
    FsqrtQ { rd: u8, rs1: u8, rm: u8 },
    FsgnjQ { rd: u8, rs1: u8, rs2: u8 },
    FsgnjnQ { rd: u8, rs1: u8, rs2: u8 },
    FsgnjxQ { rd: u8, rs1: u8, rs2: u8 },
    FminQ { rd: u8, rs1: u8, rs2: u8 },
    FmaxQ { rd: u8, rs1: u8, rs2: u8 },
    FeqQ { rd: u8, rs1: u8, rs2: u8 },
    FltQ { rd: u8, rs1: u8, rs2: u8 },
    FleQ { rd: u8, rs1: u8, rs2: u8 },
    FclassQ { rd: u8, rs1: u8 },
    FcvtWQ { rd: u8, rs1: u8, rm: u8 },
    FcvtWUQ { rd: u8, rs1: u8, rm: u8 },
    FcvtLQ { rd: u8, rs1: u8, rm: u8 },
    FcvtLUQ { rd: u8, rs1: u8, rm: u8 },
    FcvtQW { rd: u8, rs1: u8, rm: u8 },
    FcvtQWU { rd: u8, rs1: u8, rm: u8 },
    FcvtQL { rd: u8, rs1: u8, rm: u8 },
    FcvtQLU { rd: u8, rs1: u8, rm: u8 },
    FcvtSQ { rd: u8, rs1: u8, rm: u8 },
    FcvtQS { rd: u8, rs1: u8, rm: u8 },
    FcvtDQ { rd: u8, rs1: u8, rm: u8 },
    FcvtQD { rd: u8, rs1: u8, rm: u8 },
}

// Field placement: opcode = bits[6:0], rd = bits[11:7], funct3 = bits[14:12],
// rs1 = bits[19:15], rs2 = bits[24:20], funct7 = bits[31:25], rs3 =
// bits[31:27], csr = bits[31:20], aq = bits[26], rl = bits[25]. Each field
// is the quotient by its weight, reduced by its width.
/// The opcode field.
pub open spec fn opc_f(w: u32) -> int {
    w as int  % 0x80
}

/// The rd field.
pub open spec fn rd_f(w: u32) -> int {
    (w as int / 0x80) % 0x20
}

/// The funct3 field.
pub open spec fn f3_f(w: u32) -> int {
    (w as int / 0x1000) % 8
}

/// The rs1 field.
pub open spec fn rs1_f(w: u32) -> int {
    (w as int / 0x8000) % 0x20
}

/// The rs2 field.
pub open spec fn rs2_f(w: u32) -> int {
    (w as int / 0x10_0000) % 0x20
}

/// The funct7 field.
pub open spec fn f7_f(w: u32) -> int {
    w as int  / 0x200_0000
}

/// The rs3 field of the fused multiply-add forms.
pub open spec fn rs3_f(w: u32) -> int {
    w as int  / 0x800_0000
}

/// The two-bit format field of the fused multiply-add forms.
pub open spec fn fmt_f(w: u32) -> int {
    (w as int / 0x200_0000) % 4
}

/// The funct5 field of the atomic forms.
pub open spec fn f5_f(w: u32) -> int {
    w as int  / 0x800_0000
}

/// The acquire bit of the atomic forms.
pub open spec fn aq_f(w: u32) -> bool {
    (w as int / 0x400_0000) % 2 == 1
}

/// The release bit of the atomic forms.
pub open spec fn rl_f(w: u32) -> bool {
    (w as int / 0x200_0000) % 2 == 1
}

/// The csr field.
pub open spec fn csr_f(w: u32) -> int {
    w as int  / 0x10_0000
}

/// A raw field of `full` values sign-extended to a 64-bit pattern; `half`
/// is the first negative value.
pub open spec fn sxv(raw: int, full: int, half: int) -> u64 {
    if raw < half {
        raw as u64
    } else {
        (raw + 0x1_0000_0000_0000_0000 - full) as u64
    }
}

/// The I-type immediate, sign-extended.
pub open spec fn imm_i_s(w: u32) -> u64 {
    sxv(w as int / 0x10_0000, 0x1000, 0x800)
}

/// The S-type immediate, sign-extended.
pub open spec fn imm_s_s(w: u32) -> u64 {
    sxv((w as int / 0x200_0000) * 0x20 + (w as int / 0x80) % 0x20, 0x1000, 0x800)
}

/// The B-type immediate, sign-extended; bit 0 is zero.
pub open spec fn imm_b_s(w: u32) -> u64 {
    sxv(
        (w as int / 0x8000_0000) * 0x1000 + ((w as int / 0x80) % 2) * 0x800 + ((w as int
            / 0x200_0000) % 0x40) * 0x20 + ((w as int / 0x100) % 0x10) * 2,
        0x2000,
        0x1000,
    )
}

/// The U-type immediate: the upper 20 bits, shifted and sign-extended.
pub open spec fn imm_u_s(w: u32) -> u64 {
    sxv((w as int / 0x1000) * 0x1000, 0x1_0000_0000, 0x8000_0000)
}

/// The J-type immediate, sign-extended; bit 0 is zero.
pub open spec fn imm_j_s(w: u32) -> u64 {
    sxv(
        (w as int / 0x8000_0000) * 0x10_0000 + ((w as int / 0x1000) % 0x100) * 0x1000 + ((w as int
            / 0x10_0000) % 2) * 0x800 + ((w as int / 0x20_0000) % 0x400) * 2,
        0x20_0000,
        0x10_0000,
    )
}

/// The branch group: opcode 0x63.
pub open spec fn dec_branch(w: u32) -> Instruction {
    let f = f3_f(w);
    let rs1 = rs1_f(w) as u8;
    let rs2 = rs2_f(w) as u8;
    let imm = imm_b_s(w);
    if f == 0 {
        Instruction::Beq { rs1, rs2, imm }
    } else if f == 1 {
        Instruction::Bne { rs1, rs2, imm }
    } else if f == 4 {
        Instruction::Blt { rs1, rs2, imm }
    } else if f == 5 {
        Instruction::Bge { rs1, rs2, imm }
    } else if f == 6 {
        Instruction::Bltu { rs1, rs2, imm }
    } else if f == 7 {
        Instruction::Bgeu { rs1, rs2, imm }
    } else {
        Instruction::Undefined
    }
}

/// The load group: opcode 0x03.
pub open spec fn dec_load(w: u32, t: EncodingTable) -> Instruction {
    let f = f3_f(w);
    let rd = rd_f(w) as u8;
    let rs1 = rs1_f(w) as u8;
    let imm = imm_i_s(w);
    if f == 0 {
        Instruction::Lb { rd, rs1, imm }
    } else if f == 1 {
        Instruction::Lh { rd, rs1, imm }
    } else if f == 2 {
        Instruction::Lw { rd, rs1, imm }
    } else if f == 3 && t.is_rv64() {
        Instruction::Ld { rd, rs1, imm }
    } else if f == 4 {
        Instruction::Lbu { rd, rs1, imm }
    } else if f == 5 {
        Instruction::Lhu { rd, rs1, imm }
    } else if f == 6 && t.is_rv64() {
        Instruction::Lwu { rd, rs1, imm }
    } else {
        Instruction::Undefined
    }
}

/// The store group: opcode 0x23.
pub open spec fn dec_store(w: u32, t: EncodingTable) -> Instruction {
    let f = f3_f(w);
    let rs1 = rs1_f(w) as u8;
    let rs2 = rs2_f(w) as u8;
    let imm = imm_s_s(w);
    if f == 0 {
        Instruction::Sb { rs1, rs2, imm }
    } else if f == 1 {
        Instruction::Sh { rs1, rs2, imm }
    } else if f == 2 {
        Instruction::Sw { rs1, rs2, imm }
    } else if f == 3 && t.is_rv64() {
        Instruction::Sd { rs1, rs2, imm }
    } else {
        Instruction::Undefined
    }
}

/// The register-immediate group: opcode 0x13. The shift forms demand zero
/// upper shamt bits; on RV32 the shift amount is five bits.
pub open spec fn dec_opimm(w: u32, t: EncodingTable) -> Instruction {
    let f = f3_f(w);
    let rd = rd_f(w) as u8;
    let rs1 = rs1_f(w) as u8;
    let imm = imm_i_s(w);
    let top6 = w as int / 0x400_0000;
    let f7 = f7_f(w);
    let sh6 = ((w as int / 0x10_0000) % 0x40) as u8;
    let sh5 = rs2_f(w) as u8;
    if f == 0 {
        Instruction::Addi { rd, rs1, imm }
    } else if f == 2 {
        Instruction::Slti { rd, rs1, imm }
    } else if f == 3 {
        Instruction::Sltiu { rd, rs1, imm }
    } else if f == 4 {
        Instruction::Xori { rd, rs1, imm }
    } else if f == 6 {
        Instruction::Ori { rd, rs1, imm }
    } else if f == 7 {
        Instruction::Andi { rd, rs1, imm }
    } else if f == 1 {
        if t.is_rv64() && top6 == 0 {
            Instruction::Slli { rd, rs1, shamt: sh6 }
        } else if !t.is_rv64() && f7 == 0 {
            Instruction::Slli { rd, rs1, shamt: sh5 }
        } else {
            Instruction::Undefined
        }
    } else {
        if t.is_rv64() && top6 == 0 {
            Instruction::Srli { rd, rs1, shamt: sh6 }
        } else if t.is_rv64() && top6 == 0x10 {
            Instruction::Srai { rd, rs1, shamt: sh6 }
        } else if !t.is_rv64() && f7 == 0 {
            Instruction::Srli { rd, rs1, shamt: sh5 }
        } else if !t.is_rv64() && f7 == 0x20 {
            Instruction::Srai { rd, rs1, shamt: sh5 }
        } else {
            Instruction::Undefined
        }
    }
}

/// The register-register group: opcode 0x33, including the M extension.
pub open spec fn dec_op(w: u32, t: EncodingTable) -> Instruction {
    let f = f3_f(w);
    let f7 = f7_f(w);
    let rd = rd_f(w) as u8;
    let rs1 = rs1_f(w) as u8;
    let rs2 = rs2_f(w) as u8;
    if f7 == 0 {
        if f == 0 {
            Instruction::Add { rd, rs1, rs2 }
        } else if f == 1 {
            Instruction::Sll { rd, rs1, rs2 }
        } else if f == 2 {
            Instruction::Slt { rd, rs1, rs2 }
        } else if f == 3 {
            Instruction::Sltu { rd, rs1, rs2 }
        } else if f == 4 {
            Instruction::Xor { rd, rs1, rs2 }
        } else if f == 5 {
            Instruction::Srl { rd, rs1, rs2 }
        } else if f == 6 {
            Instruction::Or { rd, rs1, rs2 }
        } else {
            Instruction::And { rd, rs1, rs2 }
        }
    } else if f7 == 0x20 {
        if f == 0 {
            Instruction::Sub { rd, rs1, rs2 }
        } else if f == 5 {
            Instruction::Sra { rd, rs1, rs2 }
        } else {
            Instruction::Undefined
        }
    } else if f7 == 1 && t.m {
        if f == 0 {
            Instruction::Mul { rd, rs1, rs2 }
        } else if f == 1 {
            Instruction::Mulh { rd, rs1, rs2 }
        } else if f == 2 {
            Instruction::Mulhsu { rd, rs1, rs2 }
        } else if f == 3 {
            Instruction::Mulhu { rd, rs1, rs2 }
        } else if f == 4 {
            Instruction::Div { rd, rs1, rs2 }
        } else if f == 5 {
            Instruction::Divu { rd, rs1, rs2 }
        } else if f == 6 {
            Instruction::Rem { rd, rs1, rs2 }
        } else {
            Instruction::Remu { rd, rs1, rs2 }
        }
    } else {
        Instruction::Undefined
    }
}

/// The word-sized register-immediate group: opcode 0x1B, RV64 only.
pub open spec fn dec_opimm32(w: u32) -> Instruction {
    let f = f3_f(w);
    let f7 = f7_f(w);
    let rd = rd_f(w) as u8;
    let rs1 = rs1_f(w) as u8;
    let sh5 = rs2_f(w) as u8;
    if f == 0 {
        Instruction::Addiw { rd, rs1, imm: imm_i_s(w) }
    } else if f == 1 && f7 == 0 {
        Instruction::Slliw { rd, rs1, shamt: sh5 }
    } else if f == 5 && f7 == 0 {
        Instruction::Srliw { rd, rs1, shamt: sh5 }
    } else if f == 5 && f7 == 0x20 {
        Instruction::Sraiw { rd, rs1, shamt: sh5 }
    } else {
        Instruction::Undefined
    }
}

/// The word-sized register-register group: opcode 0x3B, RV64 only.
pub open spec fn dec_op32(w: u32, t: EncodingTable) -> Instruction {
    let f = f3_f(w);
    let f7 = f7_f(w);
    let rd = rd_f(w) as u8;
    let rs1 = rs1_f(w) as u8;
    let rs2 = rs2_f(w) as u8;
    if f7 == 0 {
        if f == 0 {
            Instruction::Addw { rd, rs1, rs2 }
        } else if f == 1 {
            Instruction::Sllw { rd, rs1, rs2 }
        } else if f == 5 {
            Instruction::Srlw { rd, rs1, rs2 }
        } else {
            Instruction::Undefined
        }
    } else if f7 == 0x20 {
        if f == 0 {
            Instruction::Subw { rd, rs1, rs2 }
        } else if f == 5 {
            Instruction::Sraw { rd, rs1, rs2 }
        } else {
            Instruction::Undefined
        }
    } else if f7 == 1 && t.m {
        if f == 0 {
            Instruction::Mulw { rd, rs1, rs2 }
        } else if f == 4 {
            Instruction::Divw { rd, rs1, rs2 }
        } else if f == 5 {
            Instruction::Divuw { rd, rs1, rs2 }
        } else if f == 6 {
            Instruction::Remw { rd, rs1, rs2 }
        } else if f == 7 {
            Instruction::Remuw { rd, rs1, rs2 }
        } else {
            Instruction::Undefined
        }
    } else {
        Instruction::Undefined
    }
}

/// The fence group: opcode 0x0F.
pub open spec fn dec_misc_mem(w: u32, t: EncodingTable) -> Instruction {
    let f = f3_f(w);
    if f == 0 {
        Instruction::Fence {
            rd: rd_f(w) as u8,
            rs1: rs1_f(w) as u8,
            fm: (w as int / 0x1000_0000) as u8,
            pred: ((w as int / 0x100_0000) % 0x10) as u8,
            succ: ((w as int / 0x10_0000) % 0x10) as u8,
        }
    } else if f == 1 && t.zifencei {
        Instruction::FenceI { rd: rd_f(w) as u8, rs1: rs1_f(w) as u8, imm: imm_i_s(w) }
    } else {
        Instruction::Undefined
    }
}

/// The system group: opcode 0x73, with ECALL, EBREAK and the Zicsr forms.
pub open spec fn dec_system(w: u32, t: EncodingTable) -> Instruction {
    let f = f3_f(w);
    let rd = rd_f(w) as u8;
    let rs1 = rs1_f(w) as u8;
    let csr = csr_f(w) as u16;
    if f == 0 {
        if w == 0x0000_0073 {
            Instruction::Ecall
        } else if w == 0x0010_0073 {
            Instruction::Ebreak
        } else {
            Instruction::Undefined
        }
    } else if f == 1 && t.zicsr {
        Instruction::Csrrw { rd, rs1, csr }
    } else if f == 2 && t.zicsr {
        Instruction::Csrrs { rd, rs1, csr }
    } else if f == 3 && t.zicsr {
        Instruction::Csrrc { rd, rs1, csr }
    } else if f == 5 && t.zicsr {
        Instruction::Csrrwi { rd, uimm: rs1, csr }
    } else if f == 6 && t.zicsr {
        Instruction::Csrrsi { rd, uimm: rs1, csr }
    } else if f == 7 && t.zicsr {
        Instruction::Csrrci { rd, uimm: rs1, csr }
    } else {
        Instruction::Undefined
    }
}

/// The atomic group: opcode 0x2F, word and doubleword forms.
pub open spec fn dec_amo(w: u32, t: EncodingTable) -> Instruction {
    let f = f3_f(w);
    let f5 = f5_f(w);
    let rd = rd_f(w) as u8;
    let rs1 = rs1_f(w) as u8;
    let rs2 = rs2_f(w) as u8;
    let aq = aq_f(w);
    let rl = rl_f(w);
    if f == 2 {
        if f5 == 2 && rs2_f(w) == 0 {
            Instruction::LrW { rd, rs1, aq, rl }
        } else if f5 == 3 {
            Instruction::ScW { rd, rs1, rs2, aq, rl }
        } else if f5 == 1 {
            Instruction::AmoswapW { rd, rs1, rs2, aq, rl }
        } else if f5 == 0 {
            Instruction::AmoaddW { rd, rs1, rs2, aq, rl }
        } else if f5 == 4 {
            Instruction::AmoxorW { rd, rs1, rs2, aq, rl }
        } else if f5 == 0xC {
            Instruction::AmoandW { rd, rs1, rs2, aq, rl }
        } else if f5 == 8 {
            Instruction::AmoorW { rd, rs1, rs2, aq, rl }
        } else if f5 == 0x10 {
            Instruction::AmominW { rd, rs1, rs2, aq, rl }
        } else if f5 == 0x14 {
            Instruction::AmomaxW { rd, rs1, rs2, aq, rl }
        } else if f5 == 0x18 {
            Instruction::AmominuW { rd, rs1, rs2, aq, rl }
        } else if f5 == 0x1C {
            Instruction::AmomaxuW { rd, rs1, rs2, aq, rl }
        } else {
            Instruction::Undefined
        }
    } else if f == 3 && t.is_rv64() {
        if f5 == 2 && rs2_f(w) == 0 {
            Instruction::LrD { rd, rs1, aq, rl }
        } else if f5 == 3 {
            Instruction::ScD { rd, rs1, rs2, aq, rl }
        } else if f5 == 1 {
            Instruction::AmoswapD { rd, rs1, rs2, aq, rl }
        } else if f5 == 0 {
            Instruction::AmoaddD { rd, rs1, rs2, aq, rl }
        } else if f5 == 4 {
            Instruction::AmoxorD { rd, rs1, rs2, aq, rl }
        } else if f5 == 0xC {
            Instruction::AmoandD { rd, rs1, rs2, aq, rl }
        } else if f5 == 8 {
            Instruction::AmoorD { rd, rs1, rs2, aq, rl }
        } else if f5 == 0x10 {
            Instruction::AmominD { rd, rs1, rs2, aq, rl }
        } else if f5 == 0x14 {
            Instruction::AmomaxD { rd, rs1, rs2, aq, rl }
        } else if f5 == 0x18 {
            Instruction::AmominuD { rd, rs1, rs2, aq, rl }
        } else if f5 == 0x1C {
            Instruction::AmomaxuD { rd, rs1, rs2, aq, rl }
        } else {
            Instruction::Undefined
        }
    } else {
        Instruction::Undefined
    }
}

/// The floating-point load group: opcode 0x07.
pub open spec fn dec_fp_load(w: u32, t: EncodingTable) -> Instruction {
    let f = f3_f(w);
    let rd = rd_f(w) as u8;
    let rs1 = rs1_f(w) as u8;
    let imm = imm_i_s(w);
    if f == 2 && t.f {
        Instruction::Flw { rd, rs1, imm }
    } else if f == 3 && t.d {
        Instruction::Fld { rd, rs1, imm }
    } else if f == 4 && t.q {
        Instruction::Flq { rd, rs1, imm }
    } else {
        Instruction::Undefined
    }
}

/// The floating-point store group: opcode 0x27.
pub open spec fn dec_fp_store(w: u32, t: EncodingTable) -> Instruction {
    let f = f3_f(w);
    let rs1 = rs1_f(w) as u8;
    let rs2 = rs2_f(w) as u8;
    let imm = imm_s_s(w);
    if f == 2 && t.f {
        Instruction::Fsw { rs1, rs2, imm }
    } else if f == 3 && t.d {
        Instruction::Fsd { rs1, rs2, imm }
    } else if f == 4 && t.q {
        Instruction::Fsq { rs1, rs2, imm }
    } else {
        Instruction::Undefined
    }
}

/// The fused multiply-add group: opcodes 0x43, 0x47, 0x4B and 0x4F; `which`
/// distinguishes them in that order.
pub open spec fn dec_fma(w: u32, t: EncodingTable, which: int) -> Instruction {
    let fmt = fmt_f(w);
    let rd = rd_f(w) as u8;
    let rs1 = rs1_f(w) as u8;
    let rs2 = rs2_f(w) as u8;
    let rs3 = rs3_f(w) as u8;
    let rm = f3_f(w) as u8;
    if fmt == 0 && t.f {
        if which == 0 {
            Instruction::FmaddS { rd, rs1, rs2, rs3, rm }
        } else if which == 1 {
            Instruction::FmsubS { rd, rs1, rs2, rs3, rm }
        } else if which == 2 {
            Instruction::FnmsubS { rd, rs1, rs2, rs3, rm }
        } else {
            Instruction::FnmaddS { rd, rs1, rs2, rs3, rm }
        }
    } else if fmt == 1 && t.d {
        if which == 0 {
            Instruction::FmaddD { rd, rs1, rs2, rs3, rm }
        } else if which == 1 {
            Instruction::FmsubD { rd, rs1, rs2, rs3, rm }
        } else if which == 2 {
            Instruction::FnmsubD { rd, rs1, rs2, rs3, rm }
        } else {
            Instruction::FnmaddD { rd, rs1, rs2, rs3, rm }
        }
    } else if fmt == 3 && t.q {
        if which == 0 {
            Instruction::FmaddQ { rd, rs1, rs2, rs3, rm }
        } else if which == 1 {
            Instruction::FmsubQ { rd, rs1, rs2, rs3, rm }
        } else if which == 2 {
            Instruction::FnmsubQ { rd, rs1, rs2, rs3, rm }
        } else {
            Instruction::FnmaddQ { rd, rs1, rs2, rs3, rm }
        }
    } else {
        Instruction::Undefined
    }
}

/// The single-precision half of the computational floating-point group.
pub open spec fn dec_opfp_s(w: u32, t: EncodingTable) -> Instruction {
    let f7 = f7_f(w);
    let f = f3_f(w);
    let rd = rd_f(w) as u8;
    let rs1 = rs1_f(w) as u8;
    let rs2 = rs2_f(w) as u8;
    let rs2f = rs2_f(w);
    let rm = f3_f(w) as u8;
    if f7 == 0x00 {
        Instruction::FaddS { rd, rs1, rs2, rm }
    } else if f7 == 0x04 {
        Instruction::FsubS { rd, rs1, rs2, rm }
    } else if f7 == 0x08 {
        Instruction::FmulS { rd, rs1, rs2, rm }
    } else if f7 == 0x0C {
        Instruction::FdivS { rd, rs1, rs2, rm }
    } else if f7 == 0x2C && rs2f == 0 {
        Instruction::FsqrtS { rd, rs1, rm }
    } else if f7 == 0x10 {
        if f == 0 {
            Instruction::FsgnjS { rd, rs1, rs2 }
        } else if f == 1 {
            Instruction::FsgnjnS { rd, rs1, rs2 }
        } else if f == 2 {
            Instruction::FsgnjxS { rd, rs1, rs2 }
        } else {
            Instruction::Undefined
        }
    } else if f7 == 0x14 {
        if f == 0 {
            Instruction::FminS { rd, rs1, rs2 }
        } else if f == 1 {
            Instruction::FmaxS { rd, rs1, rs2 }
        } else {
            Instruction::Undefined
        }
    } else if f7 == 0x60 {
        if rs2f == 0 {
            Instruction::FcvtWS { rd, rs1, rm }
        } else if rs2f == 1 {
            Instruction::FcvtWUS { rd, rs1, rm }
        } else if rs2f == 2 && t.is_rv64() {
            Instruction::FcvtLS { rd, rs1, rm }
        } else if rs2f == 3 && t.is_rv64() {
            Instruction::FcvtLUS { rd, rs1, rm }
        } else {
            Instruction::Undefined
        }
    } else if f7 == 0x70 && rs2f == 0 {
        if f == 0 {
            Instruction::FmvXW { rd, rs1 }
        } else if f == 1 {
            Instruction::FclassS { rd, rs1 }
        } else {
            Instruction::Undefined
        }
    } else if f7 == 0x50 {
        if f == 2 {
            Instruction::FeqS { rd, rs1, rs2 }
        } else if f == 1 {
            Instruction::FltS { rd, rs1, rs2 }
        } else if f == 0 {
            Instruction::FleS { rd, rs1, rs2 }
        } else {
            Instruction::Undefined
        }
    } else if f7 == 0x68 {
        if rs2f == 0 {
            Instruction::FcvtSW { rd, rs1, rm }
        } else if rs2f == 1 {
            Instruction::FcvtSWU { rd, rs1, rm }
        } else if rs2f == 2 && t.is_rv64() {
            Instruction::FcvtSL { rd, rs1, rm }
        } else if rs2f == 3 && t.is_rv64() {
            Instruction::FcvtSLU { rd, rs1, rm }
        } else {
            Instruction::Undefined
        }
    } else if f7 == 0x78 && rs2f == 0 && f == 0 {
        Instruction::FmvWX { rd, rs1 }
    } else if f7 == 0x20 {
        if rs2f == 1 && t.d {
            Instruction::FcvtSD { rd, rs1, rm }
        } else if rs2f == 3 && t.q {
            Instruction::FcvtSQ { rd, rs1, rm }
        } else {
            Instruction::Undefined
        }
    } else {
        Instruction::Undefined
    }
}

/// The double-precision half of the computational floating-point group.
pub open spec fn dec_opfp_d(w: u32, t: EncodingTable) -> Instruction {
    let f7 = f7_f(w);
    let f = f3_f(w);
    let rd = rd_f(w) as u8;
    let rs1 = rs1_f(w) as u8;
    let rs2 = rs2_f(w) as u8;
    let rs2f = rs2_f(w);
    let rm = f3_f(w) as u8;
    if f7 == 0x01 {
        Instruction::FaddD { rd, rs1, rs2, rm }
    } else if f7 == 0x05 {
        Instruction::FsubD { rd, rs1, rs2, rm }
    } else if f7 == 0x09 {
        Instruction::FmulD { rd, rs1, rs2, rm }
    } else if f7 == 0x0D {
        Instruction::FdivD { rd, rs1, rs2, rm }
    } else if f7 == 0x2D && rs2f == 0 {
        Instruction::FsqrtD { rd, rs1, rm }
    } else if f7 == 0x11 {
        if f == 0 {
            Instruction::FsgnjD { rd, rs1, rs2 }
        } else if f == 1 {
            Instruction::FsgnjnD { rd, rs1, rs2 }
        } else if f == 2 {
            Instruction::FsgnjxD { rd, rs1, rs2 }
        } else {
            Instruction::Undefined
        }
    } else if f7 == 0x15 {
        if f == 0 {
            Instruction::FminD { rd, rs1, rs2 }
        } else if f == 1 {
            Instruction::FmaxD { rd, rs1, rs2 }
        } else {
            Instruction::Undefined
        }
    } else if f7 == 0x61 {
        if rs2f == 0 {
            Instruction::FcvtWD { rd, rs1, rm }
        } else if rs2f == 1 {
            Instruction::FcvtWUD { rd, rs1, rm }
        } else if rs2f == 2 && t.is_rv64() {
            Instruction::FcvtLD { rd, rs1, rm }
        } else if rs2f == 3 && t.is_rv64() {
            Instruction::FcvtLUD { rd, rs1, rm }
        } else {
            Instruction::Undefined
        }
    } else if f7 == 0x71 && rs2f == 0 {
        if f == 0 && t.is_rv64() {
            Instruction::FmvXD { rd, rs1 }
        } else if f == 1 {
            Instruction::FclassD { rd, rs1 }
        } else {
            Instruction::Undefined
        }
    } else if f7 == 0x51 {
        if f == 2 {
            Instruction::FeqD { rd, rs1, rs2 }
        } else if f == 1 {
            Instruction::FltD { rd, rs1, rs2 }
        } else if f == 0 {
            Instruction::FleD { rd, rs1, rs2 }
        } else {
            Instruction::Undefined
        }
    } else if f7 == 0x69 {
        if rs2f == 0 {
            Instruction::FcvtDW { rd, rs1, rm }
        } else if rs2f == 1 {
            Instruction::FcvtDWU { rd, rs1, rm }
        } else if rs2f == 2 && t.is_rv64() {
            Instruction::FcvtDL { rd, rs1, rm }
        } else if rs2f == 3 && t.is_rv64() {
            Instruction::FcvtDLU { rd, rs1, rm }
        } else {
            Instruction::Undefined
        }
    } else if f7 == 0x79 && rs2f == 0 && f == 0 && t.is_rv64() {
        Instruction::FmvDX { rd, rs1 }
    } else if f7 == 0x21 {
        if rs2f == 0 && t.f {
            Instruction::FcvtDS { rd, rs1, rm }
        } else if rs2f == 3 && t.q {
            Instruction::FcvtDQ { rd, rs1, rm }
        } else {
            Instruction::Undefined
        }
    } else {
        Instruction::Undefined
    }
}

/// The quad-precision half of the computational floating-point group; the
/// engine models it at double precision.
pub open spec fn dec_opfp_q(w: u32, t: EncodingTable) -> Instruction {
    let f7 = f7_f(w);
    let f = f3_f(w);
    let rd = rd_f(w) as u8;
    let rs1 = rs1_f(w) as u8;
    let rs2 = rs2_f(w) as u8;
    let rs2f = rs2_f(w);
    let rm = f3_f(w) as u8;
    if f7 == 0x03 {
        Instruction::FaddQ { rd, rs1, rs2, rm }
    } else if f7 == 0x07 {
        Instruction::FsubQ { rd, rs1, rs2, rm }
    } else if f7 == 0x0B {
        Instruction::FmulQ { rd, rs1, rs2, rm }
    } else if f7 == 0x0F {
        Instruction::FdivQ { rd, rs1, rs2, rm }
    } else if f7 == 0x2F && rs2f == 0 {
        Instruction::FsqrtQ { rd, rs1, rm }
    } else if f7 == 0x13 {
        if f == 0 {
            Instruction::FsgnjQ { rd, rs1, rs2 }
        } else if f == 1 {
            Instruction::FsgnjnQ { rd, rs1, rs2 }
        } else if f == 2 {
            Instruction::FsgnjxQ { rd, rs1, rs2 }
        } else {
            Instruction::Undefined
        }
    } else if f7 == 0x17 {
        if f == 0 {
            Instruction::FminQ { rd, rs1, rs2 }
        } else if f == 1 {
            Instruction::FmaxQ { rd, rs1, rs2 }
        } else {
            Instruction::Undefined
        }
    } else if f7 == 0x63 {
        if rs2f == 0 {
            Instruction::FcvtWQ { rd, rs1, rm }
        } else if rs2f == 1 {
            Instruction::FcvtWUQ { rd, rs1, rm }
        } else if rs2f == 2 && t.is_rv64() {
            Instruction::FcvtLQ { rd, rs1, rm }
        } else if rs2f == 3 && t.is_rv64() {
            Instruction::FcvtLUQ { rd, rs1, rm }
        } else {
            Instruction::Undefined
        }
    } else if f7 == 0x73 && rs2f == 0 && f == 1 {
        Instruction::FclassQ { rd, rs1 }
    } else if f7 == 0x53 {
        if f == 2 {
            Instruction::FeqQ { rd, rs1, rs2 }
        } else if f == 1 {
            Instruction::FltQ { rd, rs1, rs2 }
        } else if f == 0 {
            Instruction::FleQ { rd, rs1, rs2 }
        } else {
            Instruction::Undefined
        }
    } else if f7 == 0x6B {
        if rs2f == 0 {
            Instruction::FcvtQW { rd, rs1, rm }
        } else if rs2f == 1 {
            Instruction::FcvtQWU { rd, rs1, rm }
        } else if rs2f == 2 && t.is_rv64() {
            Instruction::FcvtQL { rd, rs1, rm }
        } else if rs2f == 3 && t.is_rv64() {
            Instruction::FcvtQLU { rd, rs1, rm }
        } else {
            Instruction::Undefined
        }
    } else if f7 == 0x23 {
        if rs2f == 0 && t.f {
            Instruction::FcvtQS { rd, rs1, rm }
        } else if rs2f == 1 && t.d {
            Instruction::FcvtQD { rd, rs1, rm }
        } else {
            Instruction::Undefined
        }
    } else {
        Instruction::Undefined
    }
}

/// The computational floating-point group: opcode 0x53, split by format.
pub open spec fn dec_opfp(w: u32, t: EncodingTable) -> Instruction {
    let fmt = fmt_f(w);
    if fmt == 0 && t.f {
        dec_opfp_s(w, t)
    } else if fmt == 1 && t.d {
        dec_opfp_d(w, t)
    } else if fmt == 3 && t.q {
        dec_opfp_q(w, t)
    } else {
        Instruction::Undefined
    }
}

/// What a 32-bit word decodes to under an encoding table.
pub open spec fn spec_decode(w: u32, t: EncodingTable) -> Instruction {
    let o = opc_f(w);
    if o == 0x37 {
        Instruction::Lui { rd: rd_f(w) as u8, imm: imm_u_s(w) }
    } else if o == 0x17 {
        Instruction::Auipc { rd: rd_f(w) as u8, imm: imm_u_s(w) }
    } else if o == 0x6F {
        Instruction::Jal { rd: rd_f(w) as u8, imm: imm_j_s(w) }
    } else if o == 0x67 {
        if f3_f(w) == 0 {
            Instruction::Jalr { rd: rd_f(w) as u8, rs1: rs1_f(w) as u8, imm: imm_i_s(w) }
        } else {
            Instruction::Undefined
        }
    } else if o == 0x63 {
        dec_branch(w)
    } else if o == 0x03 {
        dec_load(w, t)
    } else if o == 0x23 {
        dec_store(w, t)
    } else if o == 0x13 {
        dec_opimm(w, t)
    } else if o == 0x33 {
        dec_op(w, t)
    } else if o == 0x1B && t.is_rv64() {
        dec_opimm32(w)
    } else if o == 0x3B && t.is_rv64() {
        dec_op32(w, t)
    } else if o == 0x0F {
        dec_misc_mem(w, t)
    } else if o == 0x73 {
        dec_system(w, t)
    } else if o == 0x2F && t.a {
        dec_amo(w, t)
    } else if o == 0x07 {
        dec_fp_load(w, t)
    } else if o == 0x27 {
        dec_fp_store(w, t)
    } else if o == 0x43 {
        dec_fma(w, t, 0)
    } else if o == 0x47 {
        dec_fma(w, t, 1)
    } else if o == 0x4B {
        dec_fma(w, t, 2)
    } else if o == 0x4F {
        dec_fma(w, t, 3)
    } else if o == 0x53 {
        dec_opfp(w, t)
    } else {
        Instruction::Undefined
    }
}

/// The rd field.
pub fn xrd(w: u32) -> (r: u8)
    ensures
        r as int == rd_f(w),
{
    ((w / 0x80) % 0x20) as u8
}

/// The funct3 field.
pub fn xf3(w: u32) -> (r: u32)
    ensures
        r as int == f3_f(w),
        r < 8,
{
    (w / 0x1000) % 8
}

/// The rs1 field.
pub fn xrs1(w: u32) -> (r: u8)
    ensures
        r as int == rs1_f(w),
{
    ((w / 0x8000) % 0x20) as u8
}

/// The rs2 field.
pub fn xrs2(w: u32) -> (r: u8)
    ensures
        r as int == rs2_f(w),
{
    ((w / 0x10_0000) % 0x20) as u8
}

/// The funct7 field.
pub fn xf7(w: u32) -> (r: u32)
    ensures
        r as int == f7_f(w),
        r < 0x80,
{
    w / 0x200_0000
}

/// The rs3 field.
pub fn xrs3(w: u32) -> (r: u8)
    ensures
        r as int == rs3_f(w),
{
    (w / 0x800_0000) as u8
}

/// The csr field.
pub fn xcsr(w: u32) -> (r: u16)
    ensures
        r as int == csr_f(w),
        r < 0x1000,
{
    (w / 0x10_0000) as u16
}

/// The I-type immediate.
pub fn ximm_i(w: u32) -> (r: u64)
    ensures
        r == imm_i_s(w),
{
    let raw = (w / 0x10_0000) as u64;
    if raw < 0x800 {
        raw
    } else {
        raw + 0xFFFF_FFFF_FFFF_F000
    }
}

/// The S-type immediate.
pub fn ximm_s(w: u32) -> (r: u64)
    ensures
        r == imm_s_s(w),
{
    let raw = ((w / 0x200_0000) as u64) * 0x20 + ((w / 0x80) % 0x20) as u64;
    if raw < 0x800 {
        raw
    } else {
        raw + 0xFFFF_FFFF_FFFF_F000
    }
}

/// The B-type immediate.
pub fn ximm_b(w: u32) -> (r: u64)
    ensures
        r == imm_b_s(w),
{
    let raw = ((w / 0x8000_0000) as u64) * 0x1000 + (((w / 0x80) % 2) as u64) * 0x800 + (((w
        / 0x200_0000) % 0x40) as u64) * 0x20 + (((w / 0x100) % 0x10) as u64) * 2;
    if raw < 0x1000 {
        raw
    } else {
        raw + 0xFFFF_FFFF_FFFF_E000
    }
}

/// The U-type immediate.
pub fn ximm_u(w: u32) -> (r: u64)
    ensures
        r == imm_u_s(w),
{
    let raw = ((w / 0x1000) as u64) * 0x1000;
    if raw < 0x8000_0000 {
        raw
    } else {
        raw + 0xFFFF_FFFF_0000_0000
    }
}

/// The J-type immediate.
pub fn ximm_j(w: u32) -> (r: u64)
    ensures
        r == imm_j_s(w),
{
    let raw = ((w / 0x8000_0000) as u64) * 0x10_0000 + (((w / 0x1000) % 0x100) as u64) * 0x1000 + ((
    (w / 0x10_0000) % 2) as u64) * 0x800 + (((w / 0x20_0000) % 0x400) as u64) * 2;
    if raw < 0x10_0000 {
        raw
    } else {
        raw + 0xFFFF_FFFF_FFE0_0000
    }
}

/// Decodes the branch group.
fn decode_branch(w: u32) -> (r: Instruction)
    ensures
        r == dec_branch(w),
{
    let f = xf3(w);
    let rs1 = xrs1(w);
    let rs2 = xrs2(w);
    let imm = ximm_b(w);
    if f == 0 {
        Instruction::Beq { rs1, rs2, imm }
    } else if f == 1 {
        Instruction::Bne { rs1, rs2, imm }
    } else if f == 4 {
        Instruction::Blt { rs1, rs2, imm }
    } else if f == 5 {
        Instruction::Bge { rs1, rs2, imm }
    } else if f == 6 {
        Instruction::Bltu { rs1, rs2, imm }
    } else if f == 7 {
        Instruction::Bgeu { rs1, rs2, imm }
    } else {
        Instruction::Undefined
    }
}

/// Decodes the load group.
fn decode_load(w: u32, t: &EncodingTable) -> (r: Instruction)
    ensures
        r == dec_load(w, *t),
{
    let f = xf3(w);
    let rd = xrd(w);
    let rs1 = xrs1(w);
    let imm = ximm_i(w);
    let rv64 = matches!(t.base, crate::encoding::Base::RV64I);
    if f == 0 {
        Instruction::Lb { rd, rs1, imm }
    } else if f == 1 {
        Instruction::Lh { rd, rs1, imm }
    } else if f == 2 {
        Instruction::Lw { rd, rs1, imm }
    } else if f == 3 && rv64 {
        Instruction::Ld { rd, rs1, imm }
    } else if f == 4 {
        Instruction::Lbu { rd, rs1, imm }
    } else if f == 5 {
        Instruction::Lhu { rd, rs1, imm }
    } else if f == 6 && rv64 {
        Instruction::Lwu { rd, rs1, imm }
    } else {
        Instruction::Undefined
    }
}

/// Decodes the store group.
fn decode_store(w: u32, t: &EncodingTable) -> (r: Instruction)
    ensures
        r == dec_store(w, *t),
{
    let f = xf3(w);
    let rs1 = xrs1(w);
    let rs2 = xrs2(w);
    let imm = ximm_s(w);
    let rv64 = matches!(t.base, crate::encoding::Base::RV64I);
    if f == 0 {
        Instruction::Sb { rs1, rs2, imm }
    } else if f == 1 {
        Instruction::Sh { rs1, rs2, imm }
    } else if f == 2 {
        Instruction::Sw { rs1, rs2, imm }
    } else if f == 3 && rv64 {
        Instruction::Sd { rs1, rs2, imm }
    } else {
        Instruction::Undefined
    }
}

/// Decodes the register-immediate group.
fn decode_opimm(w: u32, t: &EncodingTable) -> (r: Instruction)
    ensures
        r == dec_opimm(w, *t),
{
    let f = xf3(w);
    let rd = xrd(w);
    let rs1 = xrs1(w);
    let imm = ximm_i(w);
    let top6 = w / 0x400_0000;
    let f7 = xf7(w);
    let sh6 = ((w / 0x10_0000) % 0x40) as u8;
    let sh5 = xrs2(w);
    let rv64 = matches!(t.base, crate::encoding::Base::RV64I);
    if f == 0 {
        Instruction::Addi { rd, rs1, imm }
    } else if f == 2 {
        Instruction::Slti { rd, rs1, imm }
    } else if f == 3 {
        Instruction::Sltiu { rd, rs1, imm }
    } else if f == 4 {
        Instruction::Xori { rd, rs1, imm }
    } else if f == 6 {
        Instruction::Ori { rd, rs1, imm }
    } else if f == 7 {
        Instruction::Andi { rd, rs1, imm }
    } else if f == 1 {
        if rv64 && top6 == 0 {
            Instruction::Slli { rd, rs1, shamt: sh6 }
        } else if !rv64 && f7 == 0 {
            Instruction::Slli { rd, rs1, shamt: sh5 }
        } else {
            Instruction::Undefined
        }
    } else {
        if rv64 && top6 == 0 {
            Instruction::Srli { rd, rs1, shamt: sh6 }
        } else if rv64 && top6 == 0x10 {
            Instruction::Srai { rd, rs1, shamt: sh6 }
        } else if !rv64 && f7 == 0 {
            Instruction::Srli { rd, rs1, shamt: sh5 }
        } else if !rv64 && f7 == 0x20 {
            Instruction::Srai { rd, rs1, shamt: sh5 }
        } else {
            Instruction::Undefined
        }
    }
}

/// Decodes the register-register group.
fn decode_op(w: u32, t: &EncodingTable) -> (r: Instruction)
    ensures
        r == dec_op(w, *t),
{
    let f = xf3(w);
    let f7 = xf7(w);
    let rd = xrd(w);
    let rs1 = xrs1(w);
    let rs2 = xrs2(w);
    if f7 == 0 {
        if f == 0 {
            Instruction::Add { rd, rs1, rs2 }
        } else if f == 1 {
            Instruction::Sll { rd, rs1, rs2 }
        } else if f == 2 {
            Instruction::Slt { rd, rs1, rs2 }
        } else if f == 3 {
            Instruction::Sltu { rd, rs1, rs2 }
        } else if f == 4 {
            Instruction::Xor { rd, rs1, rs2 }
        } else if f == 5 {
            Instruction::Srl { rd, rs1, rs2 }
        } else if f == 6 {
            Instruction::Or { rd, rs1, rs2 }
        } else {
            Instruction::And { rd, rs1, rs2 }
        }
    } else if f7 == 0x20 {
        if f == 0 {
            Instruction::Sub { rd, rs1, rs2 }
        } else if f == 5 {
            Instruction::Sra { rd, rs1, rs2 }
        } else {
            Instruction::Undefined
        }
    } else if f7 == 1 && t.m {
        if f == 0 {
            Instruction::Mul { rd, rs1, rs2 }
        } else if f == 1 {
            Instruction::Mulh { rd, rs1, rs2 }
        } else if f == 2 {
            Instruction::Mulhsu { rd, rs1, rs2 }
        } else if f == 3 {
            Instruction::Mulhu { rd, rs1, rs2 }
        } else if f == 4 {
            Instruction::Div { rd, rs1, rs2 }
        } else if f == 5 {
            Instruction::Divu { rd, rs1, rs2 }
        } else if f == 6 {
            Instruction::Rem { rd, rs1, rs2 }
        } else {
            Instruction::Remu { rd, rs1, rs2 }
        }
    } else {
        Instruction::Undefined
    }
}

/// Decodes the word-sized register-immediate group.
fn decode_opimm32(w: u32) -> (r: Instruction)
    ensures
        r == dec_opimm32(w),
{
    let f = xf3(w);
    let f7 = xf7(w);
    let rd = xrd(w);
    let rs1 = xrs1(w);
    let sh5 = xrs2(w);
    if f == 0 {
        Instruction::Addiw { rd, rs1, imm: ximm_i(w) }
    } else if f == 1 && f7 == 0 {
        Instruction::Slliw { rd, rs1, shamt: sh5 }
    } else if f == 5 && f7 == 0 {
        Instruction::Srliw { rd, rs1, shamt: sh5 }
    } else if f == 5 && f7 == 0x20 {
        Instruction::Sraiw { rd, rs1, shamt: sh5 }
    } else {
        Instruction::Undefined
    }
}

/// Decodes the word-sized register-register group.
fn decode_op32(w: u32, t: &EncodingTable) -> (r: Instruction)
    ensures
        r == dec_op32(w, *t),
{
    let f = xf3(w);
    let f7 = xf7(w);
    let rd = xrd(w);
    let rs1 = xrs1(w);
    let rs2 = xrs2(w);
    if f7 == 0 {
        if f == 0 {
            Instruction::Addw { rd, rs1, rs2 }
        } else if f == 1 {
            Instruction::Sllw { rd, rs1, rs2 }
        } else if f == 5 {
            Instruction::Srlw { rd, rs1, rs2 }
        } else {
            Instruction::Undefined
        }
    } else if f7 == 0x20 {
        if f == 0 {
            Instruction::Subw { rd, rs1, rs2 }
        } else if f == 5 {
            Instruction::Sraw { rd, rs1, rs2 }
        } else {
            Instruction::Undefined
        }
    } else if f7 == 1 && t.m {
        if f == 0 {
            Instruction::Mulw { rd, rs1, rs2 }
        } else if f == 4 {
            Instruction::Divw { rd, rs1, rs2 }
        } else if f == 5 {
            Instruction::Divuw { rd, rs1, rs2 }
        } else if f == 6 {
            Instruction::Remw { rd, rs1, rs2 }
        } else if f == 7 {
            Instruction::Remuw { rd, rs1, rs2 }
        } else {
            Instruction::Undefined
        }
    } else {
        Instruction::Undefined
    }
}

/// Decodes the fence group.
fn decode_misc_mem(w: u32, t: &EncodingTable) -> (r: Instruction)
    ensures
        r == dec_misc_mem(w, *t),
{
    let f = xf3(w);
    if f == 0 {
        Instruction::Fence {
            rd: xrd(w),
            rs1: xrs1(w),
            fm: (w / 0x1000_0000) as u8,
            pred: ((w / 0x100_0000) % 0x10) as u8,
            succ: ((w / 0x10_0000) % 0x10) as u8,
        }
    } else if f == 1 && t.zifencei {
        Instruction::FenceI { rd: xrd(w), rs1: xrs1(w), imm: ximm_i(w) }
    } else {
        Instruction::Undefined
    }
}

/// Decodes the system group.
fn decode_system(w: u32, t: &EncodingTable) -> (r: Instruction)
    ensures
        r == dec_system(w, *t),
{
    let f = xf3(w);
    let rd = xrd(w);
    let rs1 = xrs1(w);
    let csr = xcsr(w);
    if f == 0 {
        if w == 0x0000_0073 {
            Instruction::Ecall
        } else if w == 0x0010_0073 {
            Instruction::Ebreak
        } else {
            Instruction::Undefined
        }
    } else if f == 1 && t.zicsr {
        Instruction::Csrrw { rd, rs1, csr }
    } else if f == 2 && t.zicsr {
        Instruction::Csrrs { rd, rs1, csr }
    } else if f == 3 && t.zicsr {
        Instruction::Csrrc { rd, rs1, csr }
    } else if f == 5 && t.zicsr {
        Instruction::Csrrwi { rd, uimm: rs1, csr }
    } else if f == 6 && t.zicsr {
        Instruction::Csrrsi { rd, uimm: rs1, csr }
    } else if f == 7 && t.zicsr {
        Instruction::Csrrci { rd, uimm: rs1, csr }
    } else {
        Instruction::Undefined
    }
}

/// Decodes the atomic group.
fn decode_amo(w: u32, t: &EncodingTable) -> (r: Instruction)
    ensures
        r == dec_amo(w, *t),
{
    let f = xf3(w);
    let f5 = (w / 0x800_0000) as u8;
    let rd = xrd(w);
    let rs1 = xrs1(w);
    let rs2 = xrs2(w);
    let aq = (w / 0x400_0000) % 2 == 1;
    let rl = (w / 0x200_0000) % 2 == 1;
    let rv64 = matches!(t.base, crate::encoding::Base::RV64I);
    if f == 2 {
        if f5 == 2 && rs2 == 0 {
            Instruction::LrW { rd, rs1, aq, rl }
        } else if f5 == 3 {
            Instruction::ScW { rd, rs1, rs2, aq, rl }
        } else if f5 == 1 {
            Instruction::AmoswapW { rd, rs1, rs2, aq, rl }
        } else if f5 == 0 {
            Instruction::AmoaddW { rd, rs1, rs2, aq, rl }
        } else if f5 == 4 {
            Instruction::AmoxorW { rd, rs1, rs2, aq, rl }
        } else if f5 == 0xC {
            Instruction::AmoandW { rd, rs1, rs2, aq, rl }
        } else if f5 == 8 {
            Instruction::AmoorW { rd, rs1, rs2, aq, rl }
        } else if f5 == 0x10 {
            Instruction::AmominW { rd, rs1, rs2, aq, rl }
        } else if f5 == 0x14 {
            Instruction::AmomaxW { rd, rs1, rs2, aq, rl }
        } else if f5 == 0x18 {
            Instruction::AmominuW { rd, rs1, rs2, aq, rl }
        } else if f5 == 0x1C {
            Instruction::AmomaxuW { rd, rs1, rs2, aq, rl }
        } else {
            Instruction::Undefined
        }
    } else if f == 3 && rv64 {
        if f5 == 2 && rs2 == 0 {
            Instruction::LrD { rd, rs1, aq, rl }
        } else if f5 == 3 {
            Instruction::ScD { rd, rs1, rs2, aq, rl }
        } else if f5 == 1 {
            Instruction::AmoswapD { rd, rs1, rs2, aq, rl }
        } else if f5 == 0 {
            Instruction::AmoaddD { rd, rs1, rs2, aq, rl }
        } else if f5 == 4 {
            Instruction::AmoxorD { rd, rs1, rs2, aq, rl }
        } else if f5 == 0xC {
            Instruction::AmoandD { rd, rs1, rs2, aq, rl }
        } else if f5 == 8 {
            Instruction::AmoorD { rd, rs1, rs2, aq, rl }
        } else if f5 == 0x10 {
            Instruction::AmominD { rd, rs1, rs2, aq, rl }
        } else if f5 == 0x14 {
            Instruction::AmomaxD { rd, rs1, rs2, aq, rl }
        } else if f5 == 0x18 {
            Instruction::AmominuD { rd, rs1, rs2, aq, rl }
        } else if f5 == 0x1C {
            Instruction::AmomaxuD { rd, rs1, rs2, aq, rl }
        } else {
            Instruction::Undefined
        }
    } else {
        Instruction::Undefined
    }
}

/// Decodes the floating-point load and store groups.
fn decode_fp_mem(w: u32, t: &EncodingTable, load: bool) -> (r: Instruction)
    ensures
        load ==> r == dec_fp_load(w, *t),
        !load ==> r == dec_fp_store(w, *t),
{
    let f = xf3(w);
    if load {
        let rd = xrd(w);
        let rs1 = xrs1(w);
        let imm = ximm_i(w);
        if f == 2 && t.f {
            Instruction::Flw { rd, rs1, imm }
        } else if f == 3 && t.d {
            Instruction::Fld { rd, rs1, imm }
        } else if f == 4 && t.q {
            Instruction::Flq { rd, rs1, imm }
        } else {
            Instruction::Undefined
        }
    } else {
        let rs1 = xrs1(w);
        let rs2 = xrs2(w);
        let imm = ximm_s(w);
        if f == 2 && t.f {
            Instruction::Fsw { rs1, rs2, imm }
        } else if f == 3 && t.d {
            Instruction::Fsd { rs1, rs2, imm }
        } else if f == 4 && t.q {
            Instruction::Fsq { rs1, rs2, imm }
        } else {
            Instruction::Undefined
        }
    }
}

/// Decodes one of the four fused multiply-add opcodes.
fn decode_fma(w: u32, t: &EncodingTable, which: u8) -> (r: Instruction)
    ensures
        r == dec_fma(w, *t, which as int),
{
    let fmt = (w / 0x200_0000) % 4;
    let rd = xrd(w);
    let rs1 = xrs1(w);
    let rs2 = xrs2(w);
    let rs3 = xrs3(w);
    let rm = xf3(w) as u8;
    if fmt == 0 && t.f {
        if which == 0 {
            Instruction::FmaddS { rd, rs1, rs2, rs3, rm }
        } else if which == 1 {
            Instruction::FmsubS { rd, rs1, rs2, rs3, rm }
        } else if which == 2 {
            Instruction::FnmsubS { rd, rs1, rs2, rs3, rm }
        } else {
            Instruction::FnmaddS { rd, rs1, rs2, rs3, rm }
        }
    } else if fmt == 1 && t.d {
        if which == 0 {
            Instruction::FmaddD { rd, rs1, rs2, rs3, rm }
        } else if which == 1 {
            Instruction::FmsubD { rd, rs1, rs2, rs3, rm }
        } else if which == 2 {
            Instruction::FnmsubD { rd, rs1, rs2, rs3, rm }
        } else {
            Instruction::FnmaddD { rd, rs1, rs2, rs3, rm }
        }
    } else if fmt == 3 && t.q {
        if which == 0 {
            Instruction::FmaddQ { rd, rs1, rs2, rs3, rm }
        } else if which == 1 {
            Instruction::FmsubQ { rd, rs1, rs2, rs3, rm }
        } else if which == 2 {
            Instruction::FnmsubQ { rd, rs1, rs2, rs3, rm }
        } else {
            Instruction::FnmaddQ { rd, rs1, rs2, rs3, rm }
        }
    } else {
        Instruction::Undefined
    }
}

/// Decodes the single-precision computational forms.
fn decode_opfp_s(w: u32, t: &EncodingTable) -> (r: Instruction)
    ensures
        r == dec_opfp_s(w, *t),
{
    let f7 = xf7(w);
    let f = xf3(w);
    let rd = xrd(w);
    let rs1 = xrs1(w);
    let rs2 = xrs2(w);
    let rm = f as u8;
    let rv64 = matches!(t.base, crate::encoding::Base::RV64I);
    if f7 == 0x00 {
        Instruction::FaddS { rd, rs1, rs2, rm }
    } else if f7 == 0x04 {
        Instruction::FsubS { rd, rs1, rs2, rm }
    } else if f7 == 0x08 {
        Instruction::FmulS { rd, rs1, rs2, rm }
    } else if f7 == 0x0C {
        Instruction::FdivS { rd, rs1, rs2, rm }
    } else if f7 == 0x2C && rs2 == 0 {
        Instruction::FsqrtS { rd, rs1, rm }
    } else if f7 == 0x10 {
        if f == 0 {
            Instruction::FsgnjS { rd, rs1, rs2 }
        } else if f == 1 {
            Instruction::FsgnjnS { rd, rs1, rs2 }
        } else if f == 2 {
            Instruction::FsgnjxS { rd, rs1, rs2 }
        } else {
            Instruction::Undefined
        }
    } else if f7 == 0x14 {
        if f == 0 {
            Instruction::FminS { rd, rs1, rs2 }
        } else if f == 1 {
            Instruction::FmaxS { rd, rs1, rs2 }
        } else {
            Instruction::Undefined
        }
    } else if f7 == 0x60 {
        if rs2 == 0 {
            Instruction::FcvtWS { rd, rs1, rm }
        } else if rs2 == 1 {
            Instruction::FcvtWUS { rd, rs1, rm }
        } else if rs2 == 2 && rv64 {
            Instruction::FcvtLS { rd, rs1, rm }
        } else if rs2 == 3 && rv64 {
            Instruction::FcvtLUS { rd, rs1, rm }
        } else {
            Instruction::Undefined
        }
    } else if f7 == 0x70 && rs2 == 0 {
        if f == 0 {
            Instruction::FmvXW { rd, rs1 }
        } else if f == 1 {
            Instruction::FclassS { rd, rs1 }
        } else {
            Instruction::Undefined
        }
    } else if f7 == 0x50 {
        if f == 2 {
            Instruction::FeqS { rd, rs1, rs2 }
        } else if f == 1 {
            Instruction::FltS { rd, rs1, rs2 }
        } else if f == 0 {
            Instruction::FleS { rd, rs1, rs2 }
        } else {
            Instruction::Undefined
        }
    } else if f7 == 0x68 {
        if rs2 == 0 {
            Instruction::FcvtSW { rd, rs1, rm }
        } else if rs2 == 1 {
            Instruction::FcvtSWU { rd, rs1, rm }
        } else if rs2 == 2 && rv64 {
            Instruction::FcvtSL { rd, rs1, rm }
        } else if rs2 == 3 && rv64 {
            Instruction::FcvtSLU { rd, rs1, rm }
        } else {
            Instruction::Undefined
        }
    } else if f7 == 0x78 && rs2 == 0 && f == 0 {
        Instruction::FmvWX { rd, rs1 }
    } else if f7 == 0x20 {
        if rs2 == 1 && t.d {
            Instruction::FcvtSD { rd, rs1, rm }
        } else if rs2 == 3 && t.q {
            Instruction::FcvtSQ { rd, rs1, rm }
        } else {
            Instruction::Undefined
        }
    } else {
        Instruction::Undefined
    }
}

/// Decodes the double-precision computational forms.
fn decode_opfp_d(w: u32, t: &EncodingTable) -> (r: Instruction)
    ensures
        r == dec_opfp_d(w, *t),
{
    let f7 = xf7(w);
    let f = xf3(w);
    let rd = xrd(w);
    let rs1 = xrs1(w);
    let rs2 = xrs2(w);
    let rm = f as u8;
    let rv64 = matches!(t.base, crate::encoding::Base::RV64I);
    if f7 == 0x01 {
        Instruction::FaddD { rd, rs1, rs2, rm }
    } else if f7 == 0x05 {
        Instruction::FsubD { rd, rs1, rs2, rm }
    } else if f7 == 0x09 {
        Instruction::FmulD { rd, rs1, rs2, rm }
    } else if f7 == 0x0D {
        Instruction::FdivD { rd, rs1, rs2, rm }
    } else if f7 == 0x2D && rs2 == 0 {
        Instruction::FsqrtD { rd, rs1, rm }
    } else if f7 == 0x11 {
        if f == 0 {
            Instruction::FsgnjD { rd, rs1, rs2 }
        } else if f == 1 {
            Instruction::FsgnjnD { rd, rs1, rs2 }
        } else if f == 2 {
            Instruction::FsgnjxD { rd, rs1, rs2 }
        } else {
            Instruction::Undefined
        }
    } else if f7 == 0x15 {
        if f == 0 {
            Instruction::FminD { rd, rs1, rs2 }
        } else if f == 1 {
            Instruction::FmaxD { rd, rs1, rs2 }
        } else {
            Instruction::Undefined
        }
    } else if f7 == 0x61 {
        if rs2 == 0 {
            Instruction::FcvtWD { rd, rs1, rm }
        } else if rs2 == 1 {
            Instruction::FcvtWUD { rd, rs1, rm }
        } else if rs2 == 2 && rv64 {
            Instruction::FcvtLD { rd, rs1, rm }
        } else if rs2 == 3 && rv64 {
            Instruction::FcvtLUD { rd, rs1, rm }
        } else {
            Instruction::Undefined
        }
    } else if f7 == 0x71 && rs2 == 0 {
        if f == 0 && rv64 {
            Instruction::FmvXD { rd, rs1 }
        } else if f == 1 {
            Instruction::FclassD { rd, rs1 }
        } else {
            Instruction::Undefined
        }
    } else if f7 == 0x51 {
        if f == 2 {
            Instruction::FeqD { rd, rs1, rs2 }
        } else if f == 1 {
            Instruction::FltD { rd, rs1, rs2 }
        } else if f == 0 {
            Instruction::FleD { rd, rs1, rs2 }
        } else {
            Instruction::Undefined
        }
    } else if f7 == 0x69 {
        if rs2 == 0 {
            Instruction::FcvtDW { rd, rs1, rm }
        } else if rs2 == 1 {
            Instruction::FcvtDWU { rd, rs1, rm }
        } else if rs2 == 2 && rv64 {
            Instruction::FcvtDL { rd, rs1, rm }
        } else if rs2 == 3 && rv64 {
            Instruction::FcvtDLU { rd, rs1, rm }
        } else {
            Instruction::Undefined
        }
    } else if f7 == 0x79 && rs2 == 0 && f == 0 && rv64 {
        Instruction::FmvDX { rd, rs1 }
    } else if f7 == 0x21 {
        if rs2 == 0 && t.f {
            Instruction::FcvtDS { rd, rs1, rm }
        } else if rs2 == 3 && t.q {
            Instruction::FcvtDQ { rd, rs1, rm }
        } else {
            Instruction::Undefined
        }
    } else {
        Instruction::Undefined
    }
}

/// Decodes the quad-precision computational forms.
fn decode_opfp_q(w: u32, t: &EncodingTable) -> (r: Instruction)
    ensures
        r == dec_opfp_q(w, *t),
{
    let f7 = xf7(w);
    let f = xf3(w);
    let rd = xrd(w);
    let rs1 = xrs1(w);
    let rs2 = xrs2(w);
    let rm = f as u8;
    let rv64 = matches!(t.base, crate::encoding::Base::RV64I);
    if f7 == 0x03 {
        Instruction::FaddQ { rd, rs1, rs2, rm }
    } else if f7 == 0x07 {
        Instruction::FsubQ { rd, rs1, rs2, rm }
    } else if f7 == 0x0B {
        Instruction::FmulQ { rd, rs1, rs2, rm }
    } else if f7 == 0x0F {
        Instruction::FdivQ { rd, rs1, rs2, rm }
    } else if f7 == 0x2F && rs2 == 0 {
        Instruction::FsqrtQ { rd, rs1, rm }
    } else if f7 == 0x13 {
        if f == 0 {
            Instruction::FsgnjQ { rd, rs1, rs2 }
        } else if f == 1 {
            Instruction::FsgnjnQ { rd, rs1, rs2 }
        } else if f == 2 {
            Instruction::FsgnjxQ { rd, rs1, rs2 }
        } else {
            Instruction::Undefined
        }
    } else if f7 == 0x17 {
        if f == 0 {
            Instruction::FminQ { rd, rs1, rs2 }
        } else if f == 1 {
            Instruction::FmaxQ { rd, rs1, rs2 }
        } else {
            Instruction::Undefined
        }
    } else if f7 == 0x63 {
        if rs2 == 0 {
            Instruction::FcvtWQ { rd, rs1, rm }
        } else if rs2 == 1 {
            Instruction::FcvtWUQ { rd, rs1, rm }
        } else if rs2 == 2 && rv64 {
            Instruction::FcvtLQ { rd, rs1, rm }
        } else if rs2 == 3 && rv64 {
            Instruction::FcvtLUQ { rd, rs1, rm }
        } else {
            Instruction::Undefined
        }
    } else if f7 == 0x73 && rs2 == 0 && f == 1 {
        Instruction::FclassQ { rd, rs1 }
    } else if f7 == 0x53 {
        if f == 2 {
            Instruction::FeqQ { rd, rs1, rs2 }
        } else if f == 1 {
            Instruction::FltQ { rd, rs1, rs2 }
        } else if f == 0 {
            Instruction::FleQ { rd, rs1, rs2 }
        } else {
            Instruction::Undefined
        }
    } else if f7 == 0x6B {
        if rs2 == 0 {
            Instruction::FcvtQW { rd, rs1, rm }
        } else if rs2 == 1 {
            Instruction::FcvtQWU { rd, rs1, rm }
        } else if rs2 == 2 && rv64 {
            Instruction::FcvtQL { rd, rs1, rm }
        } else if rs2 == 3 && rv64 {
            Instruction::FcvtQLU { rd, rs1, rm }
        } else {
            Instruction::Undefined
        }
    } else if f7 == 0x23 {
        if rs2 == 0 && t.f {
            Instruction::FcvtQS { rd, rs1, rm }
        } else if rs2 == 1 && t.d {
            Instruction::FcvtQD { rd, rs1, rm }
        } else {
            Instruction::Undefined
        }
    } else {
        Instruction::Undefined
    }
}

/// Decodes the computational floating-point group.
fn decode_opfp(w: u32, t: &EncodingTable) -> (r: Instruction)
    ensures
        r == dec_opfp(w, *t),
{
    let fmt = (w / 0x200_0000) % 4;
    if fmt == 0 && t.f {
        decode_opfp_s(w, t)
    } else if fmt == 1 && t.d {
        decode_opfp_d(w, t)
    } else if fmt == 3 && t.q {
        decode_opfp_q(w, t)
    } else {
        Instruction::Undefined
    }
}

impl Instruction {
    /// Decodes a 32-bit instruction word under an encoding table; encodings
    /// of disabled extensions and malformed words yield `Undefined`.
    pub fn decode(w: u32, t: &EncodingTable) -> (r: Instruction)
        ensures
            r == spec_decode(w, *t),
    {
        let o = w % 0x80;
        let rv64 = matches!(t.base, crate::encoding::Base::RV64I);
        if o == 0x37 {
            Instruction::Lui { rd: xrd(w), imm: ximm_u(w) }
        } else if o == 0x17 {
            Instruction::Auipc { rd: xrd(w), imm: ximm_u(w) }
        } else if o == 0x6F {
            Instruction::Jal { rd: xrd(w), imm: ximm_j(w) }
        } else if o == 0x67 {
            if xf3(w) == 0 {
                Instruction::Jalr { rd: xrd(w), rs1: xrs1(w), imm: ximm_i(w) }
            } else {
                Instruction::Undefined
            }
        } else if o == 0x63 {
            decode_branch(w)
        } else if o == 0x03 {
            decode_load(w, t)
        } else if o == 0x23 {
            decode_store(w, t)
        } else if o == 0x13 {
            decode_opimm(w, t)
        } else if o == 0x33 {
            decode_op(w, t)
        } else if o == 0x1B && rv64 {
            decode_opimm32(w)
        } else if o == 0x3B && rv64 {
            decode_op32(w, t)
        } else if o == 0x0F {
            decode_misc_mem(w, t)
        } else if o == 0x73 {
            decode_system(w, t)
        } else if o == 0x2F && t.a {
            decode_amo(w, t)
        } else if o == 0x07 {
            decode_fp_mem(w, t, true)
        } else if o == 0x27 {
            decode_fp_mem(w, t, false)
        } else if o == 0x43 {
            decode_fma(w, t, 0)
        } else if o == 0x47 {
            decode_fma(w, t, 1)
        } else if o == 0x4B {
            decode_fma(w, t, 2)
        } else if o == 0x4F {
            decode_fma(w, t, 3)
        } else if o == 0x53 {
            decode_opfp(w, t)
        } else {
            Instruction::Undefined
        }
    }
}

/// Field sanity of a decoded instruction: register numbers five bits,
/// shift amounts inside the width, CSR indices twelve bits. The decoder
/// only produces instructions that satisfy it.
pub open spec fn wf_inst(i: Instruction) -> bool {
    match i {
        Instruction::Undefined => true,
        Instruction::Ecall => true,
        Instruction::Ebreak => true,
        Instruction::Lui { rd, .. } => rd < 32,
        Instruction::Auipc { rd, .. } => rd < 32,
        Instruction::Jal { rd, .. } => rd < 32,
        Instruction::Jalr { rd, rs1, .. } => rd < 32 && rs1 < 32,
        Instruction::Beq { rs1, rs2, .. } | Instruction::Bne { rs1, rs2, .. }
            | Instruction::Blt { rs1, rs2, .. } | Instruction::Bge { rs1, rs2, .. }
            | Instruction::Bltu { rs1, rs2, .. } | Instruction::Bgeu { rs1, rs2, .. }
            | Instruction::Sb { rs1, rs2, .. } | Instruction::Sh { rs1, rs2, .. }
            | Instruction::Sw { rs1, rs2, .. } | Instruction::Sd { rs1, rs2, .. }
            | Instruction::Fsw { rs1, rs2, .. } | Instruction::Fsd { rs1, rs2, .. }
            | Instruction::Fsq { rs1, rs2, .. } => rs1 < 32 && rs2 < 32,
        Instruction::Lb { rd, rs1, .. } | Instruction::Lh { rd, rs1, .. }
            | Instruction::Lw { rd, rs1, .. } | Instruction::Ld { rd, rs1, .. }
            | Instruction::Lbu { rd, rs1, .. } | Instruction::Lhu { rd, rs1, .. }
            | Instruction::Lwu { rd, rs1, .. } | Instruction::Addi { rd, rs1, .. }
            | Instruction::Slti { rd, rs1, .. } | Instruction::Sltiu { rd, rs1, .. }
            | Instruction::Xori { rd, rs1, .. } | Instruction::Ori { rd, rs1, .. }
            | Instruction::Andi { rd, rs1, .. } | Instruction::Addiw { rd, rs1, .. }
            | Instruction::FenceI { rd, rs1, .. } | Instruction::Flw { rd, rs1, .. }
            | Instruction::Fld { rd, rs1, .. } | Instruction::Flq { rd, rs1, .. } => rd < 32 && rs1
            < 32,
        Instruction::Slli { rd, rs1, shamt } | Instruction::Srli { rd, rs1, shamt }
            | Instruction::Srai { rd, rs1, shamt } => rd < 32 && rs1 < 32 && shamt < 64,
        Instruction::Slliw { rd, rs1, shamt } | Instruction::Srliw { rd, rs1, shamt }
            | Instruction::Sraiw { rd, rs1, shamt } => rd < 32 && rs1 < 32 && shamt < 32,
        Instruction::Add { rd, rs1, rs2 } | Instruction::Sub { rd, rs1, rs2 }
            | Instruction::Sll { rd, rs1, rs2 } | Instruction::Slt { rd, rs1, rs2 }
            | Instruction::Sltu { rd, rs1, rs2 } | Instruction::Xor { rd, rs1, rs2 }
            | Instruction::Srl { rd, rs1, rs2 } | Instruction::Sra { rd, rs1, rs2 }
            | Instruction::Or { rd, rs1, rs2 } | Instruction::And { rd, rs1, rs2 }
            | Instruction::Addw { rd, rs1, rs2 } | Instruction::Subw { rd, rs1, rs2 }
            | Instruction::Sllw { rd, rs1, rs2 } | Instruction::Srlw { rd, rs1, rs2 }
            | Instruction::Sraw { rd, rs1, rs2 } | Instruction::Mul { rd, rs1, rs2 }
            | Instruction::Mulh { rd, rs1, rs2 } | Instruction::Mulhsu { rd, rs1, rs2 }
            | Instruction::Mulhu { rd, rs1, rs2 } | Instruction::Div { rd, rs1, rs2 }
            | Instruction::Divu { rd, rs1, rs2 } | Instruction::Rem { rd, rs1, rs2 }
            | Instruction::Remu { rd, rs1, rs2 } | Instruction::Mulw { rd, rs1, rs2 }
            | Instruction::Divw { rd, rs1, rs2 } | Instruction::Divuw { rd, rs1, rs2 }
            | Instruction::Remw { rd, rs1, rs2 } | Instruction::Remuw { rd, rs1, rs2 }
            | Instruction::FsgnjS { rd, rs1, rs2 } | Instruction::FsgnjnS { rd, rs1, rs2 }
            | Instruction::FsgnjxS { rd, rs1, rs2 } | Instruction::FminS { rd, rs1, rs2 }
            | Instruction::FmaxS { rd, rs1, rs2 } | Instruction::FeqS { rd, rs1, rs2 }
            | Instruction::FltS { rd, rs1, rs2 } | Instruction::FleS { rd, rs1, rs2 }
            | Instruction::FsgnjD { rd, rs1, rs2 } | Instruction::FsgnjnD { rd, rs1, rs2 }
            | Instruction::FsgnjxD { rd, rs1, rs2 } | Instruction::FminD { rd, rs1, rs2 }
            | Instruction::FmaxD { rd, rs1, rs2 } | Instruction::FeqD { rd, rs1, rs2 }
            | Instruction::FltD { rd, rs1, rs2 } | Instruction::FleD { rd, rs1, rs2 }
            | Instruction::FsgnjQ { rd, rs1, rs2 } | Instruction::FsgnjnQ { rd, rs1, rs2 }
            | Instruction::FsgnjxQ { rd, rs1, rs2 } | Instruction::FminQ { rd, rs1, rs2 }
            | Instruction::FmaxQ { rd, rs1, rs2 } | Instruction::FeqQ { rd, rs1, rs2 }
            | Instruction::FltQ { rd, rs1, rs2 } | Instruction::FleQ { rd, rs1, rs2 } => rd < 32
            && rs1 < 32 && rs2 < 32,
        Instruction::Fence { rd, rs1, .. } => rd < 32 && rs1 < 32,
        Instruction::Csrrw { rd, rs1, csr } | Instruction::Csrrs { rd, rs1, csr }
            | Instruction::Csrrc { rd, rs1, csr } => rd < 32 && rs1 < 32 && csr < 4096,
        Instruction::Csrrwi { rd, uimm, csr } | Instruction::Csrrsi { rd, uimm, csr }
            | Instruction::Csrrci { rd, uimm, csr } => rd < 32 && uimm < 32 && csr < 4096,
        Instruction::LrW { rd, rs1, .. } | Instruction::LrD { rd, rs1, .. } => rd < 32 && rs1 < 32,
        Instruction::ScW { rd, rs1, rs2, .. } | Instruction::ScD { rd, rs1, rs2, .. }
            | Instruction::AmoswapW { rd, rs1, rs2, .. } | Instruction::AmoswapD {
            rd,
            rs1,
            rs2,
            ..
        } | Instruction::AmoaddW { rd, rs1, rs2, .. } | Instruction::AmoaddD { rd, rs1, rs2, .. }
            | Instruction::AmoxorW { rd, rs1, rs2, .. } | Instruction::AmoxorD { rd, rs1, rs2, .. }
            | Instruction::AmoandW { rd, rs1, rs2, .. } | Instruction::AmoandD { rd, rs1, rs2, .. }
            | Instruction::AmoorW { rd, rs1, rs2, .. } | Instruction::AmoorD { rd, rs1, rs2, .. }
            | Instruction::AmominW { rd, rs1, rs2, .. } | Instruction::AmominD { rd, rs1, rs2, .. }
            | Instruction::AmomaxW { rd, rs1, rs2, .. } | Instruction::AmomaxD { rd, rs1, rs2, .. }
            | Instruction::AmominuW { rd, rs1, rs2, .. } | Instruction::AmominuD {
            rd,
            rs1,
            rs2,
            ..
        } | Instruction::AmomaxuW { rd, rs1, rs2, .. } | Instruction::AmomaxuD {
            rd,
            rs1,
            rs2,
            ..
        } => rd < 32 && rs1 < 32 && rs2 < 32,
        Instruction::FmaddS { rd, rs1, rs2, rs3, .. } | Instruction::FmsubS {
            rd,
            rs1,
            rs2,
            rs3,
            ..
        } | Instruction::FnmsubS { rd, rs1, rs2, rs3, .. } | Instruction::FnmaddS {
            rd,
            rs1,
            rs2,
            rs3,
            ..
        } | Instruction::FmaddD { rd, rs1, rs2, rs3, .. } | Instruction::FmsubD {
            rd,
            rs1,
            rs2,
            rs3,
            ..
        } | Instruction::FnmsubD { rd, rs1, rs2, rs3, .. } | Instruction::FnmaddD {
            rd,
            rs1,
            rs2,
            rs3,
            ..
        } | Instruction::FmaddQ { rd, rs1, rs2, rs3, .. } | Instruction::FmsubQ {
            rd,
            rs1,
            rs2,
            rs3,
            ..
        } | Instruction::FnmsubQ { rd, rs1, rs2, rs3, .. } | Instruction::FnmaddQ {
            rd,
            rs1,
            rs2,
            rs3,
            ..
        } => rd < 32 && rs1 < 32 && rs2 < 32 && rs3 < 32,
        Instruction::FaddS { rd, rs1, rs2, .. } | Instruction::FsubS { rd, rs1, rs2, .. }
            | Instruction::FmulS { rd, rs1, rs2, .. } | Instruction::FdivS { rd, rs1, rs2, .. }
            | Instruction::FaddD { rd, rs1, rs2, .. } | Instruction::FsubD { rd, rs1, rs2, .. }
            | Instruction::FmulD { rd, rs1, rs2, .. } | Instruction::FdivD { rd, rs1, rs2, .. }
            | Instruction::FaddQ { rd, rs1, rs2, .. } | Instruction::FsubQ { rd, rs1, rs2, .. }
            | Instruction::FmulQ { rd, rs1, rs2, .. } | Instruction::FdivQ { rd, rs1, rs2, .. }
            => rd < 32 && rs1 < 32 && rs2 < 32,
        Instruction::FsqrtS { rd, rs1, .. } | Instruction::FsqrtD { rd, rs1, .. }
            | Instruction::FsqrtQ { rd, rs1, .. } | Instruction::FcvtWS { rd, rs1, .. }
            | Instruction::FcvtWUS { rd, rs1, .. } | Instruction::FcvtLS { rd, rs1, .. }
            | Instruction::FcvtLUS { rd, rs1, .. } | Instruction::FcvtSW { rd, rs1, .. }
            | Instruction::FcvtSWU { rd, rs1, .. } | Instruction::FcvtSL { rd, rs1, .. }
            | Instruction::FcvtSLU { rd, rs1, .. } | Instruction::FcvtSD { rd, rs1, .. }
            | Instruction::FcvtDS { rd, rs1, .. } | Instruction::FcvtWD { rd, rs1, .. }
            | Instruction::FcvtWUD { rd, rs1, .. } | Instruction::FcvtLD { rd, rs1, .. }
            | Instruction::FcvtLUD { rd, rs1, .. } | Instruction::FcvtDW { rd, rs1, .. }
            | Instruction::FcvtDWU { rd, rs1, .. } | Instruction::FcvtDL { rd, rs1, .. }
            | Instruction::FcvtDLU { rd, rs1, .. } | Instruction::FcvtWQ { rd, rs1, .. }
            | Instruction::FcvtWUQ { rd, rs1, .. } | Instruction::FcvtLQ { rd, rs1, .. }
            | Instruction::FcvtLUQ { rd, rs1, .. } | Instruction::FcvtQW { rd, rs1, .. }
            | Instruction::FcvtQWU { rd, rs1, .. } | Instruction::FcvtQL { rd, rs1, .. }
            | Instruction::FcvtQLU { rd, rs1, .. } | Instruction::FcvtSQ { rd, rs1, .. }
            | Instruction::FcvtQS { rd, rs1, .. } | Instruction::FcvtDQ { rd, rs1, .. }
            | Instruction::FcvtQD { rd, rs1, .. } => rd < 32 && rs1 < 32,
        Instruction::FmvXW { rd, rs1 } | Instruction::FmvWX { rd, rs1 } | Instruction::FmvXD {
            rd,
            rs1,
        } | Instruction::FmvDX { rd, rs1 } | Instruction::FclassS { rd, rs1 }
            | Instruction::FclassD { rd, rs1 } | Instruction::FclassQ { rd, rs1 } => rd < 32 && rs1
            < 32,
    }
}

/// Every decoded instruction is well-formed.
#[verifier::rlimit(100)]
pub proof fn lemma_decode_wf(w: u32, t: EncodingTable)
    ensures
        wf_inst(spec_decode(w, t)),
{
}

// Encoding: the inverse field placement. Each packer takes the fields a
// variant carries and rebuilds the 32-bit word as an integer.
/// An R-type word.
pub open spec fn enc_r(f7: int, rs2: int, rs1: int, f3: int, rd: int, op: int) -> int {
    op + 0x80 * rd + 0x1000 * f3 + 0x8000 * rs1 + 0x10_0000 * rs2 + 0x200_0000 * f7
}

/// An I-type word from the raw 12-bit immediate field.
pub open spec fn enc_i(raw: int, rs1: int, f3: int, rd: int, op: int) -> int {
    op + 0x80 * rd + 0x1000 * f3 + 0x8000 * rs1 + 0x10_0000 * raw
}

/// An I-type word from a sign-extended immediate.
pub open spec fn enc_iv(imm: u64, rs1: int, f3: int, rd: int, op: int) -> int {
    enc_i(imm as int % 0x1000, rs1, f3, rd, op)
}

/// An S-type word from a sign-extended immediate.
pub open spec fn enc_s(imm: u64, rs2: int, rs1: int, f3: int, op: int) -> int {
    let raw = imm as int % 0x1000;
    op + 0x80 * (raw % 0x20) + 0x1000 * f3 + 0x8000 * rs1 + 0x10_0000 * rs2 + 0x200_0000 * (raw
        / 0x20)
}

/// A B-type word from a sign-extended immediate.
pub open spec fn enc_b(imm: u64, rs2: int, rs1: int, f3: int) -> int {
    let raw = imm as int % 0x2000;
    0x63 + 0x80 * ((raw / 0x800) % 2) + 0x100 * ((raw / 2) % 0x10) + 0x1000 * f3 + 0x8000 * rs1
        + 0x10_0000 * rs2 + 0x200_0000 * ((raw / 0x20) % 0x40) + 0x8000_0000 * (raw / 0x1000)
}

/// A U-type word from a sign-extended immediate.
pub open spec fn enc_u(imm: u64, rd: int, op: int) -> int {
    op + 0x80 * rd + 0x1000 * ((imm as int % 0x1_0000_0000) / 0x1000)
}

/// A J-type word from a sign-extended immediate.
pub open spec fn enc_j(imm: u64, rd: int) -> int {
    let raw = imm as int % 0x20_0000;
    0x6F + 0x80 * rd + 0x1000 * ((raw / 0x1000) % 0x100) + 0x10_0000 * ((raw / 0x800) % 2)
        + 0x20_0000 * ((raw / 2) % 0x400) + 0x8000_0000 * (raw / 0x10_0000)
}

/// An atomic word: funct7 packs funct5 with the ordering bits.
pub open spec fn enc_amo(f5: int, aq: bool, rl: bool, rs2: int, rs1: int, f3: int, rd: int) -> int {
    enc_r(
        4 * f5 + 2 * (if aq {
            1int
        } else {
            0int
        }) + (if rl {
            1int
        } else {
            0int
        }),
        rs2,
        rs1,
        f3,
        rd,
        0x2F,
    )
}

/// A fused multiply-add word.
pub open spec fn enc_fma(rs3: int, fmt: int, rs2: int, rs1: int, rm: int, rd: int, op: int) -> int {
    op + 0x80 * rd + 0x1000 * rm + 0x8000 * rs1 + 0x10_0000 * rs2 + 0x200_0000 * fmt + 0x800_0000
        * rs3
}

/// The unique word a decoded instruction came from, for every variant the
/// decoder produces; `Undefined` has no encoding and maps to zero.
pub open spec fn spec_encode(i: Instruction) -> int {
    match i {
        Instruction::Undefined => 0,
        Instruction::Lui { rd, imm } => enc_u(imm, rd as int, 0x37),
        Instruction::Auipc { rd, imm } => enc_u(imm, rd as int, 0x17),
        Instruction::Jal { rd, imm } => enc_j(imm, rd as int),
        Instruction::Jalr { rd, rs1, imm } => enc_iv(imm, rs1 as int, 0, rd as int, 0x67),
        Instruction::Beq { rs1, rs2, imm } => enc_b(imm, rs2 as int, rs1 as int, 0),
        Instruction::Bne { rs1, rs2, imm } => enc_b(imm, rs2 as int, rs1 as int, 1),
        Instruction::Blt { rs1, rs2, imm } => enc_b(imm, rs2 as int, rs1 as int, 4),
        Instruction::Bge { rs1, rs2, imm } => enc_b(imm, rs2 as int, rs1 as int, 5),
        Instruction::Bltu { rs1, rs2, imm } => enc_b(imm, rs2 as int, rs1 as int, 6),
        Instruction::Bgeu { rs1, rs2, imm } => enc_b(imm, rs2 as int, rs1 as int, 7),
        Instruction::Lb { rd, rs1, imm } => enc_iv(imm, rs1 as int, 0, rd as int, 0x03),
        Instruction::Lh { rd, rs1, imm } => enc_iv(imm, rs1 as int, 1, rd as int, 0x03),
        Instruction::Lw { rd, rs1, imm } => enc_iv(imm, rs1 as int, 2, rd as int, 0x03),
        Instruction::Ld { rd, rs1, imm } => enc_iv(imm, rs1 as int, 3, rd as int, 0x03),
        Instruction::Lbu { rd, rs1, imm } => enc_iv(imm, rs1 as int, 4, rd as int, 0x03),
        Instruction::Lhu { rd, rs1, imm } => enc_iv(imm, rs1 as int, 5, rd as int, 0x03),
        Instruction::Lwu { rd, rs1, imm } => enc_iv(imm, rs1 as int, 6, rd as int, 0x03),
        Instruction::Sb { rs1, rs2, imm } => enc_s(imm, rs2 as int, rs1 as int, 0, 0x23),
        Instruction::Sh { rs1, rs2, imm } => enc_s(imm, rs2 as int, rs1 as int, 1, 0x23),
        Instruction::Sw { rs1, rs2, imm } => enc_s(imm, rs2 as int, rs1 as int, 2, 0x23),
        Instruction::Sd { rs1, rs2, imm } => enc_s(imm, rs2 as int, rs1 as int, 3, 0x23),
        Instruction::Addi { rd, rs1, imm } => enc_iv(imm, rs1 as int, 0, rd as int, 0x13),
        Instruction::Slti { rd, rs1, imm } => enc_iv(imm, rs1 as int, 2, rd as int, 0x13),
        Instruction::Sltiu { rd, rs1, imm } => enc_iv(imm, rs1 as int, 3, rd as int, 0x13),
        Instruction::Xori { rd, rs1, imm } => enc_iv(imm, rs1 as int, 4, rd as int, 0x13),
        Instruction::Ori { rd, rs1, imm } => enc_iv(imm, rs1 as int, 6, rd as int, 0x13),
        Instruction::Andi { rd, rs1, imm } => enc_iv(imm, rs1 as int, 7, rd as int, 0x13),
        Instruction::Slli { rd, rs1, shamt } => enc_i(shamt as int, rs1 as int, 1, rd as int, 0x13),
        Instruction::Srli { rd, rs1, shamt } => enc_i(shamt as int, rs1 as int, 5, rd as int, 0x13),
        Instruction::Srai { rd, rs1, shamt } => enc_i(
            shamt as int + 0x400,
            rs1 as int,
            5,
            rd as int,
            0x13,
        ),
        Instruction::Add { rd, rs1, rs2 } => enc_r(0, rs2 as int, rs1 as int, 0, rd as int, 0x33),
        Instruction::Sub { rd, rs1, rs2 } => enc_r(
            0x20,
            rs2 as int,
            rs1 as int,
            0,
            rd as int,
            0x33,
        ),
        Instruction::Sll { rd, rs1, rs2 } => enc_r(0, rs2 as int, rs1 as int, 1, rd as int, 0x33),
        Instruction::Slt { rd, rs1, rs2 } => enc_r(0, rs2 as int, rs1 as int, 2, rd as int, 0x33),
        Instruction::Sltu { rd, rs1, rs2 } => enc_r(0, rs2 as int, rs1 as int, 3, rd as int, 0x33),
        Instruction::Xor { rd, rs1, rs2 } => enc_r(0, rs2 as int, rs1 as int, 4, rd as int, 0x33),
        Instruction::Srl { rd, rs1, rs2 } => enc_r(0, rs2 as int, rs1 as int, 5, rd as int, 0x33),
        Instruction::Sra { rd, rs1, rs2 } => enc_r(
            0x20,
            rs2 as int,
            rs1 as int,
            5,
            rd as int,
            0x33,
        ),
        Instruction::Or { rd, rs1, rs2 } => enc_r(0, rs2 as int, rs1 as int, 6, rd as int, 0x33),
        Instruction::And { rd, rs1, rs2 } => enc_r(0, rs2 as int, rs1 as int, 7, rd as int, 0x33),
        Instruction::Fence { rd, rs1, fm, pred, succ } => 0x0F + 0x80 * rd + 0x8000 * rs1
            + 0x10_0000 * succ + 0x100_0000 * pred + 0x1000_0000 * fm,
        Instruction::FenceI { rd, rs1, imm } => enc_iv(imm, rs1 as int, 1, rd as int, 0x0F),
        Instruction::Ecall => 0x73,
        Instruction::Ebreak => 0x0010_0073,
        Instruction::Addiw { rd, rs1, imm } => enc_iv(imm, rs1 as int, 0, rd as int, 0x1B),
        Instruction::Slliw { rd, rs1, shamt } => enc_i(
            shamt as int,
            rs1 as int,
            1,
            rd as int,
            0x1B,
        ),
        Instruction::Srliw { rd, rs1, shamt } => enc_i(
            shamt as int,
            rs1 as int,
            5,
            rd as int,
            0x1B,
        ),
        Instruction::Sraiw { rd, rs1, shamt } => enc_i(
            shamt as int + 0x400,
            rs1 as int,
            5,
            rd as int,
            0x1B,
        ),
        Instruction::Addw { rd, rs1, rs2 } => enc_r(0, rs2 as int, rs1 as int, 0, rd as int, 0x3B),
        Instruction::Subw { rd, rs1, rs2 } => enc_r(
            0x20,
            rs2 as int,
            rs1 as int,
            0,
            rd as int,
            0x3B,
        ),
        Instruction::Sllw { rd, rs1, rs2 } => enc_r(0, rs2 as int, rs1 as int, 1, rd as int, 0x3B),
        Instruction::Srlw { rd, rs1, rs2 } => enc_r(0, rs2 as int, rs1 as int, 5, rd as int, 0x3B),
        Instruction::Sraw { rd, rs1, rs2 } => enc_r(
            0x20,
            rs2 as int,
            rs1 as int,
            5,
            rd as int,
            0x3B,
        ),
        Instruction::Csrrw { rd, rs1, csr } => enc_i(csr as int, rs1 as int, 1, rd as int, 0x73),
        Instruction::Csrrs { rd, rs1, csr } => enc_i(csr as int, rs1 as int, 2, rd as int, 0x73),
        Instruction::Csrrc { rd, rs1, csr } => enc_i(csr as int, rs1 as int, 3, rd as int, 0x73),
        Instruction::Csrrwi { rd, uimm, csr } => enc_i(csr as int, uimm as int, 5, rd as int, 0x73),
        Instruction::Csrrsi { rd, uimm, csr } => enc_i(csr as int, uimm as int, 6, rd as int, 0x73),
        Instruction::Csrrci { rd, uimm, csr } => enc_i(csr as int, uimm as int, 7, rd as int, 0x73),
        Instruction::Mul { rd, rs1, rs2 } => enc_r(1, rs2 as int, rs1 as int, 0, rd as int, 0x33),
        Instruction::Mulh { rd, rs1, rs2 } => enc_r(1, rs2 as int, rs1 as int, 1, rd as int, 0x33),
        Instruction::Mulhsu { rd, rs1, rs2 } => enc_r(
            1,
            rs2 as int,
            rs1 as int,
            2,
            rd as int,
            0x33,
        ),
        Instruction::Mulhu { rd, rs1, rs2 } => enc_r(1, rs2 as int, rs1 as int, 3, rd as int, 0x33),
        Instruction::Div { rd, rs1, rs2 } => enc_r(1, rs2 as int, rs1 as int, 4, rd as int, 0x33),
        Instruction::Divu { rd, rs1, rs2 } => enc_r(1, rs2 as int, rs1 as int, 5, rd as int, 0x33),
        Instruction::Rem { rd, rs1, rs2 } => enc_r(1, rs2 as int, rs1 as int, 6, rd as int, 0x33),
        Instruction::Remu { rd, rs1, rs2 } => enc_r(1, rs2 as int, rs1 as int, 7, rd as int, 0x33),
        Instruction::Mulw { rd, rs1, rs2 } => enc_r(1, rs2 as int, rs1 as int, 0, rd as int, 0x3B),
        Instruction::Divw { rd, rs1, rs2 } => enc_r(1, rs2 as int, rs1 as int, 4, rd as int, 0x3B),
        Instruction::Divuw { rd, rs1, rs2 } => enc_r(1, rs2 as int, rs1 as int, 5, rd as int, 0x3B),
        Instruction::Remw { rd, rs1, rs2 } => enc_r(1, rs2 as int, rs1 as int, 6, rd as int, 0x3B),
        Instruction::Remuw { rd, rs1, rs2 } => enc_r(1, rs2 as int, rs1 as int, 7, rd as int, 0x3B),
        Instruction::LrW { rd, rs1, aq, rl } => enc_amo(2, aq, rl, 0, rs1 as int, 2, rd as int),
        Instruction::ScW { rd, rs1, rs2, aq, rl } => enc_amo(
            3,
            aq,
            rl,
            rs2 as int,
            rs1 as int,
            2,
            rd as int,
        ),
        Instruction::AmoswapW { rd, rs1, rs2, aq, rl } => enc_amo(
            1,
            aq,
            rl,
            rs2 as int,
            rs1 as int,
            2,
            rd as int,
        ),
        Instruction::AmoaddW { rd, rs1, rs2, aq, rl } => enc_amo(
            0,
            aq,
            rl,
            rs2 as int,
            rs1 as int,
            2,
            rd as int,
        ),
        Instruction::AmoxorW { rd, rs1, rs2, aq, rl } => enc_amo(
            4,
            aq,
            rl,
            rs2 as int,
            rs1 as int,
            2,
            rd as int,
        ),
        Instruction::AmoandW { rd, rs1, rs2, aq, rl } => enc_amo(
            0xC,
            aq,
            rl,
            rs2 as int,
            rs1 as int,
            2,
            rd as int,
        ),
        Instruction::AmoorW { rd, rs1, rs2, aq, rl } => enc_amo(
            8,
            aq,
            rl,
            rs2 as int,
            rs1 as int,
            2,
            rd as int,
        ),
        Instruction::AmominW { rd, rs1, rs2, aq, rl } => enc_amo(
            0x10,
            aq,
            rl,
            rs2 as int,
            rs1 as int,
            2,
            rd as int,
        ),
        Instruction::AmomaxW { rd, rs1, rs2, aq, rl } => enc_amo(
            0x14,
            aq,
            rl,
            rs2 as int,
            rs1 as int,
            2,
            rd as int,
        ),
        Instruction::AmominuW { rd, rs1, rs2, aq, rl } => enc_amo(
            0x18,
            aq,
            rl,
            rs2 as int,
            rs1 as int,
            2,
            rd as int,
        ),
        Instruction::AmomaxuW { rd, rs1, rs2, aq, rl } => enc_amo(
            0x1C,
            aq,
            rl,
            rs2 as int,
            rs1 as int,
            2,
            rd as int,
        ),
        Instruction::LrD { rd, rs1, aq, rl } => enc_amo(2, aq, rl, 0, rs1 as int, 3, rd as int),
        Instruction::ScD { rd, rs1, rs2, aq, rl } => enc_amo(
            3,
            aq,
            rl,
            rs2 as int,
            rs1 as int,
            3,
            rd as int,
        ),
        Instruction::AmoswapD { rd, rs1, rs2, aq, rl } => enc_amo(
            1,
            aq,
            rl,
            rs2 as int,
            rs1 as int,
            3,
            rd as int,
        ),
        Instruction::AmoaddD { rd, rs1, rs2, aq, rl } => enc_amo(
            0,
            aq,
            rl,
            rs2 as int,
            rs1 as int,
            3,
            rd as int,
        ),
        Instruction::AmoxorD { rd, rs1, rs2, aq, rl } => enc_amo(
            4,
            aq,
            rl,
            rs2 as int,
            rs1 as int,
            3,
            rd as int,
        ),
        Instruction::AmoandD { rd, rs1, rs2, aq, rl } => enc_amo(
            0xC,
            aq,
            rl,
            rs2 as int,
            rs1 as int,
            3,
            rd as int,
        ),
        Instruction::AmoorD { rd, rs1, rs2, aq, rl } => enc_amo(
            8,
            aq,
            rl,
            rs2 as int,
            rs1 as int,
            3,
            rd as int,
        ),
        Instruction::AmominD { rd, rs1, rs2, aq, rl } => enc_amo(
            0x10,
            aq,
            rl,
            rs2 as int,
            rs1 as int,
            3,
            rd as int,
        ),
        Instruction::AmomaxD { rd, rs1, rs2, aq, rl } => enc_amo(
            0x14,
            aq,
            rl,
            rs2 as int,
            rs1 as int,
            3,
            rd as int,
        ),
        Instruction::AmominuD { rd, rs1, rs2, aq, rl } => enc_amo(
            0x18,
            aq,
            rl,
            rs2 as int,
            rs1 as int,
            3,
            rd as int,
        ),
        Instruction::AmomaxuD { rd, rs1, rs2, aq, rl } => enc_amo(
            0x1C,
            aq,
            rl,
            rs2 as int,
            rs1 as int,
            3,
            rd as int,
        ),
        Instruction::Flw { rd, rs1, imm } => enc_iv(imm, rs1 as int, 2, rd as int, 0x07),
        Instruction::Fsw { rs1, rs2, imm } => enc_s(imm, rs2 as int, rs1 as int, 2, 0x27),
        Instruction::Fld { rd, rs1, imm } => enc_iv(imm, rs1 as int, 3, rd as int, 0x07),
        Instruction::Fsd { rs1, rs2, imm } => enc_s(imm, rs2 as int, rs1 as int, 3, 0x27),
        Instruction::Flq { rd, rs1, imm } => enc_iv(imm, rs1 as int, 4, rd as int, 0x07),
        Instruction::Fsq { rs1, rs2, imm } => enc_s(imm, rs2 as int, rs1 as int, 4, 0x27),
        Instruction::FmaddS { rd, rs1, rs2, rs3, rm } => enc_fma(
            rs3 as int,
            0,
            rs2 as int,
            rs1 as int,
            rm as int,
            rd as int,
            0x43,
        ),
        Instruction::FmsubS { rd, rs1, rs2, rs3, rm } => enc_fma(
            rs3 as int,
            0,
            rs2 as int,
            rs1 as int,
            rm as int,
            rd as int,
            0x47,
        ),
        Instruction::FnmsubS { rd, rs1, rs2, rs3, rm } => enc_fma(
            rs3 as int,
            0,
            rs2 as int,
            rs1 as int,
            rm as int,
            rd as int,
            0x4B,
        ),
        Instruction::FnmaddS { rd, rs1, rs2, rs3, rm } => enc_fma(
            rs3 as int,
            0,
            rs2 as int,
            rs1 as int,
            rm as int,
            rd as int,
            0x4F,
        ),
        Instruction::FmaddD { rd, rs1, rs2, rs3, rm } => enc_fma(
            rs3 as int,
            1,
            rs2 as int,
            rs1 as int,
            rm as int,
            rd as int,
            0x43,
        ),
        Instruction::FmsubD { rd, rs1, rs2, rs3, rm } => enc_fma(
            rs3 as int,
            1,
            rs2 as int,
            rs1 as int,
            rm as int,
            rd as int,
            0x47,
        ),
        Instruction::FnmsubD { rd, rs1, rs2, rs3, rm } => enc_fma(
            rs3 as int,
            1,
            rs2 as int,
            rs1 as int,
            rm as int,
            rd as int,
            0x4B,
        ),
        Instruction::FnmaddD { rd, rs1, rs2, rs3, rm } => enc_fma(
            rs3 as int,
            1,
            rs2 as int,
            rs1 as int,
            rm as int,
            rd as int,
            0x4F,
        ),
        Instruction::FmaddQ { rd, rs1, rs2, rs3, rm } => enc_fma(
            rs3 as int,
            3,
            rs2 as int,
            rs1 as int,
            rm as int,
            rd as int,
            0x43,
        ),
        Instruction::FmsubQ { rd, rs1, rs2, rs3, rm } => enc_fma(
            rs3 as int,
            3,
            rs2 as int,
            rs1 as int,
            rm as int,
            rd as int,
            0x47,
        ),
        Instruction::FnmsubQ { rd, rs1, rs2, rs3, rm } => enc_fma(
            rs3 as int,
            3,
            rs2 as int,
            rs1 as int,
            rm as int,
            rd as int,
            0x4B,
        ),
        Instruction::FnmaddQ { rd, rs1, rs2, rs3, rm } => enc_fma(
            rs3 as int,
            3,
            rs2 as int,
            rs1 as int,
            rm as int,
            rd as int,
            0x4F,
        ),
        Instruction::FaddS { rd, rs1, rs2, rm } => enc_r(
            0x00,
            rs2 as int,
            rs1 as int,
            rm as int,
            rd as int,
            0x53,
        ),
        Instruction::FsubS { rd, rs1, rs2, rm } => enc_r(
            0x04,
            rs2 as int,
            rs1 as int,
            rm as int,
            rd as int,
            0x53,
        ),
        Instruction::FmulS { rd, rs1, rs2, rm } => enc_r(
            0x08,
            rs2 as int,
            rs1 as int,
            rm as int,
            rd as int,
            0x53,
        ),
        Instruction::FdivS { rd, rs1, rs2, rm } => enc_r(
            0x0C,
            rs2 as int,
            rs1 as int,
            rm as int,
            rd as int,
            0x53,
        ),
        Instruction::FsqrtS { rd, rs1, rm } => enc_r(
            0x2C,
            0,
            rs1 as int,
            rm as int,
            rd as int,
            0x53,
        ),
        Instruction::FsgnjS { rd, rs1, rs2 } => enc_r(
            0x10,
            rs2 as int,
            rs1 as int,
            0,
            rd as int,
            0x53,
        ),
        Instruction::FsgnjnS { rd, rs1, rs2 } => enc_r(
            0x10,
            rs2 as int,
            rs1 as int,
            1,
            rd as int,
            0x53,
        ),
        Instruction::FsgnjxS { rd, rs1, rs2 } => enc_r(
            0x10,
            rs2 as int,
            rs1 as int,
            2,
            rd as int,
            0x53,
        ),
        Instruction::FminS { rd, rs1, rs2 } => enc_r(
            0x14,
            rs2 as int,
            rs1 as int,
            0,
            rd as int,
            0x53,
        ),
        Instruction::FmaxS { rd, rs1, rs2 } => enc_r(
            0x14,
            rs2 as int,
            rs1 as int,
            1,
            rd as int,
            0x53,
        ),
        Instruction::FcvtWS { rd, rs1, rm } => enc_r(
            0x60,
            0,
            rs1 as int,
            rm as int,
            rd as int,
            0x53,
        ),
        Instruction::FcvtWUS { rd, rs1, rm } => enc_r(
            0x60,
            1,
            rs1 as int,
            rm as int,
            rd as int,
            0x53,
        ),
        Instruction::FcvtLS { rd, rs1, rm } => enc_r(
            0x60,
            2,
            rs1 as int,
            rm as int,
            rd as int,
            0x53,
        ),
        Instruction::FcvtLUS { rd, rs1, rm } => enc_r(
            0x60,
            3,
            rs1 as int,
            rm as int,
            rd as int,
            0x53,
        ),
        Instruction::FmvXW { rd, rs1 } => enc_r(0x70, 0, rs1 as int, 0, rd as int, 0x53),
        Instruction::FeqS { rd, rs1, rs2 } => enc_r(
            0x50,
            rs2 as int,
            rs1 as int,
            2,
            rd as int,
            0x53,
        ),
        Instruction::FltS { rd, rs1, rs2 } => enc_r(
            0x50,
            rs2 as int,
            rs1 as int,
            1,
            rd as int,
            0x53,
        ),
        Instruction::FleS { rd, rs1, rs2 } => enc_r(
            0x50,
            rs2 as int,
            rs1 as int,
            0,
            rd as int,
            0x53,
        ),
        Instruction::FclassS { rd, rs1 } => enc_r(0x70, 0, rs1 as int, 1, rd as int, 0x53),
        Instruction::FcvtSW { rd, rs1, rm } => enc_r(
            0x68,
            0,
            rs1 as int,
            rm as int,
            rd as int,
            0x53,
        ),
        Instruction::FcvtSWU { rd, rs1, rm } => enc_r(
            0x68,
            1,
            rs1 as int,
            rm as int,
            rd as int,
            0x53,
        ),
        Instruction::FcvtSL { rd, rs1, rm } => enc_r(
            0x68,
            2,
            rs1 as int,
            rm as int,
            rd as int,
            0x53,
        ),
        Instruction::FcvtSLU { rd, rs1, rm } => enc_r(
            0x68,
            3,
            rs1 as int,
            rm as int,
            rd as int,
            0x53,
        ),
        Instruction::FmvWX { rd, rs1 } => enc_r(0x78, 0, rs1 as int, 0, rd as int, 0x53),
        Instruction::FcvtSD { rd, rs1, rm } => enc_r(
            0x20,
            1,
            rs1 as int,
            rm as int,
            rd as int,
            0x53,
        ),
        Instruction::FcvtDS { rd, rs1, rm } => enc_r(
            0x21,
            0,
            rs1 as int,
            rm as int,
            rd as int,
            0x53,
        ),
        Instruction::FaddD { rd, rs1, rs2, rm } => enc_r(
            0x01,
            rs2 as int,
            rs1 as int,
            rm as int,
            rd as int,
            0x53,
        ),
        Instruction::FsubD { rd, rs1, rs2, rm } => enc_r(
            0x05,
            rs2 as int,
            rs1 as int,
            rm as int,
            rd as int,
            0x53,
        ),
        Instruction::FmulD { rd, rs1, rs2, rm } => enc_r(
            0x09,
            rs2 as int,
            rs1 as int,
            rm as int,
            rd as int,
            0x53,
        ),
        Instruction::FdivD { rd, rs1, rs2, rm } => enc_r(
            0x0D,
            rs2 as int,
            rs1 as int,
            rm as int,
            rd as int,
            0x53,
        ),
        Instruction::FsqrtD { rd, rs1, rm } => enc_r(
            0x2D,
            0,
            rs1 as int,
            rm as int,
            rd as int,
            0x53,
        ),
        Instruction::FsgnjD { rd, rs1, rs2 } => enc_r(
            0x11,
            rs2 as int,
            rs1 as int,
            0,
            rd as int,
            0x53,
        ),
        Instruction::FsgnjnD { rd, rs1, rs2 } => enc_r(
            0x11,
            rs2 as int,
            rs1 as int,
            1,
            rd as int,
            0x53,
        ),
        Instruction::FsgnjxD { rd, rs1, rs2 } => enc_r(
            0x11,
            rs2 as int,
            rs1 as int,
            2,
            rd as int,
            0x53,
        ),
        Instruction::FminD { rd, rs1, rs2 } => enc_r(
            0x15,
            rs2 as int,
            rs1 as int,
            0,
            rd as int,
            0x53,
        ),
        Instruction::FmaxD { rd, rs1, rs2 } => enc_r(
            0x15,
            rs2 as int,
            rs1 as int,
            1,
            rd as int,
            0x53,
        ),
        Instruction::FeqD { rd, rs1, rs2 } => enc_r(
            0x51,
            rs2 as int,
            rs1 as int,
            2,
            rd as int,
            0x53,
        ),
        Instruction::FltD { rd, rs1, rs2 } => enc_r(
            0x51,
            rs2 as int,
            rs1 as int,
            1,
            rd as int,
            0x53,
        ),
        Instruction::FleD { rd, rs1, rs2 } => enc_r(
            0x51,
            rs2 as int,
            rs1 as int,
            0,
            rd as int,
            0x53,
        ),
        Instruction::FclassD { rd, rs1 } => enc_r(0x71, 0, rs1 as int, 1, rd as int, 0x53),
        Instruction::FcvtWD { rd, rs1, rm } => enc_r(
            0x61,
            0,
            rs1 as int,
            rm as int,
            rd as int,
            0x53,
        ),
        Instruction::FcvtWUD { rd, rs1, rm } => enc_r(
            0x61,
            1,
            rs1 as int,
            rm as int,
            rd as int,
            0x53,
        ),
        Instruction::FcvtLD { rd, rs1, rm } => enc_r(
            0x61,
            2,
            rs1 as int,
            rm as int,
            rd as int,
            0x53,
        ),
        Instruction::FcvtLUD { rd, rs1, rm } => enc_r(
            0x61,
            3,
            rs1 as int,
            rm as int,
            rd as int,
            0x53,
        ),
        Instruction::FcvtDW { rd, rs1, rm } => enc_r(
            0x69,
            0,
            rs1 as int,
            rm as int,
            rd as int,
            0x53,
        ),
        Instruction::FcvtDWU { rd, rs1, rm } => enc_r(
            0x69,
            1,
            rs1 as int,
            rm as int,
            rd as int,
            0x53,
        ),
        Instruction::FcvtDL { rd, rs1, rm } => enc_r(
            0x69,
            2,
            rs1 as int,
            rm as int,
            rd as int,
            0x53,
        ),
        Instruction::FcvtDLU { rd, rs1, rm } => enc_r(
            0x69,
            3,
            rs1 as int,
            rm as int,
            rd as int,
            0x53,
        ),
        Instruction::FmvXD { rd, rs1 } => enc_r(0x71, 0, rs1 as int, 0, rd as int, 0x53),
        Instruction::FmvDX { rd, rs1 } => enc_r(0x79, 0, rs1 as int, 0, rd as int, 0x53),
        Instruction::FaddQ { rd, rs1, rs2, rm } => enc_r(
            0x03,
            rs2 as int,
            rs1 as int,
            rm as int,
            rd as int,
            0x53,
        ),
        Instruction::FsubQ { rd, rs1, rs2, rm } => enc_r(
            0x07,
            rs2 as int,
            rs1 as int,
            rm as int,
            rd as int,
            0x53,
        ),
        Instruction::FmulQ { rd, rs1, rs2, rm } => enc_r(
            0x0B,
            rs2 as int,
            rs1 as int,
            rm as int,
            rd as int,
            0x53,
        ),
        Instruction::FdivQ { rd, rs1, rs2, rm } => enc_r(
            0x0F,
            rs2 as int,
            rs1 as int,
            rm as int,
            rd as int,
            0x53,
        ),
        Instruction::FsqrtQ { rd, rs1, rm } => enc_r(
            0x2F,
            0,
            rs1 as int,
            rm as int,
            rd as int,
            0x53,
        ),
        Instruction::FsgnjQ { rd, rs1, rs2 } => enc_r(
            0x13,
            rs2 as int,
            rs1 as int,
            0,
            rd as int,
            0x53,
        ),
        Instruction::FsgnjnQ { rd, rs1, rs2 } => enc_r(
            0x13,
            rs2 as int,
            rs1 as int,
            1,
            rd as int,
            0x53,
        ),
        Instruction::FsgnjxQ { rd, rs1, rs2 } => enc_r(
            0x13,
            rs2 as int,
            rs1 as int,
            2,
            rd as int,
            0x53,
        ),
        Instruction::FminQ { rd, rs1, rs2 } => enc_r(
            0x17,
            rs2 as int,
            rs1 as int,
            0,
            rd as int,
            0x53,
        ),
        Instruction::FmaxQ { rd, rs1, rs2 } => enc_r(
            0x17,
            rs2 as int,
            rs1 as int,
            1,
            rd as int,
            0x53,
        ),
        Instruction::FeqQ { rd, rs1, rs2 } => enc_r(
            0x53,
            rs2 as int,
            rs1 as int,
            2,
            rd as int,
            0x53,
        ),
        Instruction::FltQ { rd, rs1, rs2 } => enc_r(
            0x53,
            rs2 as int,
            rs1 as int,
            1,
            rd as int,
            0x53,
        ),
        Instruction::FleQ { rd, rs1, rs2 } => enc_r(
            0x53,
            rs2 as int,
            rs1 as int,
            0,
            rd as int,
            0x53,
        ),
        Instruction::FclassQ { rd, rs1 } => enc_r(0x73, 0, rs1 as int, 1, rd as int, 0x53),
        Instruction::FcvtWQ { rd, rs1, rm } => enc_r(
            0x63,
            0,
            rs1 as int,
            rm as int,
            rd as int,
            0x53,
        ),
        Instruction::FcvtWUQ { rd, rs1, rm } => enc_r(
            0x63,
            1,
            rs1 as int,
            rm as int,
            rd as int,
            0x53,
        ),
        Instruction::FcvtLQ { rd, rs1, rm } => enc_r(
            0x63,
            2,
            rs1 as int,
            rm as int,
            rd as int,
            0x53,
        ),
        Instruction::FcvtLUQ { rd, rs1, rm } => enc_r(
            0x63,
            3,
            rs1 as int,
            rm as int,
            rd as int,
            0x53,
        ),
        Instruction::FcvtQW { rd, rs1, rm } => enc_r(
            0x6B,
            0,
            rs1 as int,
            rm as int,
            rd as int,
            0x53,
        ),
        Instruction::FcvtQWU { rd, rs1, rm } => enc_r(
            0x6B,
            1,
            rs1 as int,
            rm as int,
            rd as int,
            0x53,
        ),
        Instruction::FcvtQL { rd, rs1, rm } => enc_r(
            0x6B,
            2,
            rs1 as int,
            rm as int,
            rd as int,
            0x53,
        ),
        Instruction::FcvtQLU { rd, rs1, rm } => enc_r(
            0x6B,
            3,
            rs1 as int,
            rm as int,
            rd as int,
            0x53,
        ),
        Instruction::FcvtSQ { rd, rs1, rm } => enc_r(
            0x20,
            3,
            rs1 as int,
            rm as int,
            rd as int,
            0x53,
        ),
        Instruction::FcvtQS { rd, rs1, rm } => enc_r(
            0x23,
            0,
            rs1 as int,
            rm as int,
            rd as int,
            0x53,
        ),
        Instruction::FcvtDQ { rd, rs1, rm } => enc_r(
            0x21,
            3,
            rs1 as int,
            rm as int,
            rd as int,
            0x53,
        ),
        Instruction::FcvtQD { rd, rs1, rm } => enc_r(
            0x23,
            1,
            rs1 as int,
            rm as int,
            rd as int,
            0x53,
        ),
    }
}

/// A canonical sign-extended field keeps its raw value as residue: for a
/// raw field of `full` values whose width divides 64 bits, the extension
/// reduces back to the field.
proof fn lemma_sxv_mod(raw: int, full: int, half: int, k: int)
    requires
        0 <= raw < full,
        0 < half,
        full == 2 * half,
        full * k == 0x1_0000_0000_0000_0000,
    ensures
        sxv(raw, full, half) as int % full == raw,
{
    assert((k - 1) * full == 0x1_0000_0000_0000_0000 - full && full
        <= 0x1_0000_0000_0000_0000) by (nonlinear_arith)
        requires
            full * k == 0x1_0000_0000_0000_0000 && full > 0,
    ;
    if raw < half {
        assert(raw == 0 * full + raw) by (nonlinear_arith);
        lemma_fundamental_div_mod_converse(raw, full, 0, raw);
    } else {
        lemma_fundamental_div_mod_converse(
            raw + 0x1_0000_0000_0000_0000 - full,
            full,
            k - 1,
            raw,
        );
    }
}

/// Extraction of a weighted digit: if `x` is `w * (m * hi + mid) + lo`
/// with the parts in range, then `(x / w) % m` is `mid`.
proof fn lemma_digit(x: int, w: int, m: int, hi: int, mid: int, lo: int)
    requires
        w > 0,
        m > 0,
        x == w * (m * hi + mid) + lo,
        0 <= lo < w,
        0 <= mid < m,
        0 <= hi,
    ensures
        (x / w) % m == mid,
        x / w == m * hi + mid,
{
    assert(w * (m * hi + mid) == (m * hi + mid) * w && m * hi + mid == hi * m + mid) by (
    nonlinear_arith);
    lemma_fundamental_div_mod_converse(x, w, m * hi + mid, lo);
    lemma_fundamental_div_mod_converse(m * hi + mid, m, hi, mid);
}

/// The fields of an I-type word recompose to the word.
proof fn lemma_enc_i_eq(w: u32)
    ensures
        enc_i(w as int / 0x10_0000, rs1_f(w), f3_f(w), rd_f(w), opc_f(w)) == w,
{
    lemma_fundamental_div_mod(w as int, 0x10_0000);
    lemma_breakdown(w as int, 0x8000, 0x20);
    lemma_breakdown(w as int, 0x1000, 8);
    lemma_breakdown(w as int, 0x80, 0x20);
}

/// The fields of an R-type word recompose to the word.
proof fn lemma_enc_r_eq(w: u32)
    ensures
        enc_r(f7_f(w), rs2_f(w), rs1_f(w), f3_f(w), rd_f(w), opc_f(w)) == w,
{
    lemma_enc_i_eq(w);
    lemma_fundamental_div_mod(w as int / 0x10_0000, 0x20);
    lemma_div_denominator(w as int, 0x10_0000, 0x20);
}

/// The fields of an S-type word recompose to the word.
proof fn lemma_enc_s_eq(w: u32)
    ensures
        enc_s(imm_s_s(w), rs2_f(w), rs1_f(w), f3_f(w), opc_f(w)) == w,
{
    lemma_enc_r_eq(w);
    let raw = f7_f(w) * 0x20 + rd_f(w);
    lemma_sxv_mod(raw, 0x1000, 0x800, 0x10_0000_0000_0000);
    lemma_fundamental_div_mod_converse(raw, 0x20, f7_f(w), rd_f(w));
}

/// The fields of a B-type word recompose to the word.
proof fn lemma_enc_b_eq(w: u32)
    ensures
        enc_b(imm_b_s(w), rs2_f(w), rs1_f(w), f3_f(w)) == w + 0x63 - opc_f(w),
{
    let p31 = w as int / 0x8000_0000;
    let p7 = (w as int / 0x80) % 2;
    let pf7 = (w as int / 0x200_0000) % 0x40;
    let p41 = (w as int / 0x100) % 0x10;
    let raw = p31 * 0x1000 + p7 * 0x800 + pf7 * 0x20 + p41 * 2;
    lemma_sxv_mod(raw, 0x2000, 0x1000, 0x8_0000_0000_0000);
    lemma_digit(raw, 0x800, 2, p31, p7, pf7 * 0x20 + p41 * 2);
    lemma_digit(raw, 2, 0x10, p31 * 0x80 + p7 * 0x40 + pf7, p41, 0);
    lemma_digit(raw, 0x20, 0x40, p31 * 2 + p7, pf7, p41 * 2);
    lemma_fundamental_div_mod_converse(raw, 0x1000, p31, p7 * 0x800 + pf7 * 0x20 + p41 * 2);
    // the word, peeled into the same digits
    lemma_fundamental_div_mod(w as int, 0x80);
    lemma_breakdown(w as int, 0x80, 2);
    lemma_breakdown(w as int, 0x100, 0x10);
    lemma_breakdown(w as int, 0x1000, 8);
    lemma_breakdown(w as int, 0x8000, 0x20);
    lemma_breakdown(w as int, 0x10_0000, 0x20);
    lemma_breakdown(w as int, 0x200_0000, 0x40);
    lemma_fundamental_div_mod(w as int, 0x8000_0000);
}

/// The fields of a U-type word recompose to the word.
proof fn lemma_enc_u_eq(w: u32)
    ensures
        enc_u(imm_u_s(w), rd_f(w), opc_f(w)) == w,
{
    let hi = w as int / 0x1000;
    lemma_sxv_mod(hi * 0x1000, 0x1_0000_0000, 0x8000_0000, 0x1_0000_0000);
    lemma_fundamental_div_mod_converse(hi * 0x1000, 0x1000, hi, 0);
    lemma_fundamental_div_mod(w as int, 0x1000);
    lemma_breakdown(w as int, 0x80, 0x20);
}

/// The fields of a J-type word recompose to the word.
proof fn lemma_enc_j_eq(w: u32)
    ensures
        enc_j(imm_j_s(w), rd_f(w)) == w + 0x6F - opc_f(w),
{
    let p31 = w as int / 0x8000_0000;
    let p12 = (w as int / 0x1000) % 0x100;
    let p20 = (w as int / 0x10_0000) % 2;
    let p21 = (w as int / 0x20_0000) % 0x400;
    let raw = p31 * 0x10_0000 + p12 * 0x1000 + p20 * 0x800 + p21 * 2;
    lemma_sxv_mod(raw, 0x20_0000, 0x10_0000, 0x800_0000_0000);
    lemma_digit(raw, 0x1000, 0x100, p31, p12, p20 * 0x800 + p21 * 2);
    lemma_digit(raw, 0x800, 2, p31 * 0x100 + p12, p20, p21 * 2);
    lemma_digit(raw, 2, 0x400, p31 * 0x200 + p12 * 2 + p20, p21, 0);
    lemma_fundamental_div_mod_converse(
        raw,
        0x10_0000,
        p31,
        p12 * 0x1000 + p20 * 0x800 + p21 * 2,
    );
    // the word, peeled into the same digits
    lemma_fundamental_div_mod(w as int, 0x80);
    lemma_breakdown(w as int, 0x80, 0x20);
    lemma_breakdown(w as int, 0x1000, 0x100);
    lemma_breakdown(w as int, 0x10_0000, 2);
    lemma_breakdown(w as int, 0x20_0000, 0x400);
    lemma_fundamental_div_mod(w as int, 0x8000_0000);
}

/// The round trip for the upper-immediate and jump words.
proof fn lemma_rt_ui_jumps(w: u32, t: EncodingTable)
    requires
        opc_f(w) == 0x37 || opc_f(w) == 0x17 || opc_f(w) == 0x6F || opc_f(w) == 0x67,
    ensures
        !(spec_decode(w, t) is Undefined) ==> spec_encode(spec_decode(w, t)) == w,
{
    lemma_enc_u_eq(w);
    lemma_enc_i_eq(w);
    lemma_sxv_mod(w as int / 0x10_0000, 0x1000, 0x800, 0x10_0000_0000_0000);
    if opc_f(w) == 0x6F {
        lemma_enc_j_eq(w);
    }
}

/// The round trip for the branch words.
proof fn lemma_rt_branch(w: u32, t: EncodingTable)
    requires
        opc_f(w) == 0x63,
    ensures
        !(spec_decode(w, t) is Undefined) ==> spec_encode(spec_decode(w, t)) == w,
{
    lemma_enc_b_eq(w);
}

/// The round trip for the load words, integer and floating-point.
proof fn lemma_rt_loads(w: u32, t: EncodingTable)
    requires
        opc_f(w) == 0x03 || opc_f(w) == 0x07,
    ensures
        !(spec_decode(w, t) is Undefined) ==> spec_encode(spec_decode(w, t)) == w,
{
    lemma_enc_i_eq(w);
    lemma_sxv_mod(w as int / 0x10_0000, 0x1000, 0x800, 0x10_0000_0000_0000);
}

/// The round trip for the store words, integer and floating-point.
proof fn lemma_rt_stores(w: u32, t: EncodingTable)
    requires
        opc_f(w) == 0x23 || opc_f(w) == 0x27,
    ensures
        !(spec_decode(w, t) is Undefined) ==> spec_encode(spec_decode(w, t)) == w,
{
    lemma_enc_s_eq(w);
}

/// The round trip for the register-immediate words, with the shift forms.
proof fn lemma_rt_opimm(w: u32, t: EncodingTable)
    requires
        opc_f(w) == 0x13 || opc_f(w) == 0x1B,
    ensures
        !(spec_decode(w, t) is Undefined) ==> spec_encode(spec_decode(w, t)) == w,
{
    lemma_enc_i_eq(w);
    lemma_sxv_mod(w as int / 0x10_0000, 0x1000, 0x800, 0x10_0000_0000_0000);
    lemma_div_denominator(w as int, 0x10_0000, 0x40);
    lemma_div_denominator(w as int, 0x10_0000, 0x20);
    lemma_fundamental_div_mod(w as int / 0x10_0000, 0x40);
    lemma_fundamental_div_mod(w as int / 0x10_0000, 0x20);
}

/// The round trip for the register-register words.
proof fn lemma_rt_op(w: u32, t: EncodingTable)
    requires
        opc_f(w) == 0x33 || opc_f(w) == 0x3B,
    ensures
        !(spec_decode(w, t) is Undefined) ==> spec_encode(spec_decode(w, t)) == w,
{
    lemma_enc_r_eq(w);
}

/// The round trip for the fence words.
proof fn lemma_rt_misc_mem(w: u32, t: EncodingTable)
    requires
        opc_f(w) == 0x0F,
    ensures
        !(spec_decode(w, t) is Undefined) ==> spec_encode(spec_decode(w, t)) == w,
{
    lemma_enc_i_eq(w);
    lemma_sxv_mod(w as int / 0x10_0000, 0x1000, 0x800, 0x10_0000_0000_0000);
    lemma_div_denominator(w as int, 0x10_0000, 0x10);
    lemma_div_denominator(w as int, 0x10_0000, 0x100);
    lemma_fundamental_div_mod(w as int / 0x10_0000, 0x100);
    lemma_breakdown(w as int / 0x10_0000, 0x10, 0x10);
}

/// The round trip for the system words.
proof fn lemma_rt_system(w: u32, t: EncodingTable)
    requires
        opc_f(w) == 0x73,
    ensures
        !(spec_decode(w, t) is Undefined) ==> spec_encode(spec_decode(w, t)) == w,
{
    lemma_enc_i_eq(w);
}

/// The round trip for the atomic words: funct7 splits into funct5 and the
/// ordering bits.
proof fn lemma_rt_amo(w: u32, t: EncodingTable)
    requires
        opc_f(w) == 0x2F,
    ensures
        !(spec_decode(w, t) is Undefined) ==> spec_encode(spec_decode(w, t)) == w,
{
    lemma_enc_r_eq(w);
    lemma_div_denominator(w as int, 0x200_0000, 4);
    lemma_div_denominator(w as int, 0x200_0000, 2);
    lemma_fundamental_div_mod(w as int / 0x200_0000, 4);
    lemma_breakdown(w as int / 0x200_0000, 2, 2);
}

/// The round trip for the fused multiply-add words: funct7 splits into the
/// format and rs3.
proof fn lemma_rt_fma(w: u32, t: EncodingTable)
    requires
        opc_f(w) == 0x43 || opc_f(w) == 0x47 || opc_f(w) == 0x4B || opc_f(w) == 0x4F,
    ensures
        !(spec_decode(w, t) is Undefined) ==> spec_encode(spec_decode(w, t)) == w,
{
    lemma_enc_r_eq(w);
    lemma_div_denominator(w as int, 0x200_0000, 4);
    lemma_fundamental_div_mod(w as int / 0x200_0000, 4);
}

/// The round trip for the single-precision computational words.
proof fn lemma_rt_opfp_s(w: u32, t: EncodingTable)
    requires
        opc_f(w) == 0x53,
        fmt_f(w) == 0,
    ensures
        !(spec_decode(w, t) is Undefined) ==> spec_encode(spec_decode(w, t)) == w,
{
    lemma_enc_r_eq(w);
}

/// The round trip for the double-precision computational words.
proof fn lemma_rt_opfp_d(w: u32, t: EncodingTable)
    requires
        opc_f(w) == 0x53,
        fmt_f(w) == 1,
    ensures
        !(spec_decode(w, t) is Undefined) ==> spec_encode(spec_decode(w, t)) == w,
{
    lemma_enc_r_eq(w);
}

/// The round trip for the quad-precision computational words.
proof fn lemma_rt_opfp_q(w: u32, t: EncodingTable)
    requires
        opc_f(w) == 0x53,
        fmt_f(w) == 3,
    ensures
        !(spec_decode(w, t) is Undefined) ==> spec_encode(spec_decode(w, t)) == w,
{
    lemma_enc_r_eq(w);
}

/// The round trip: any word that decodes to a defined instruction is
/// recovered exactly by re-encoding that instruction with the field
/// placement above.
pub proof fn lemma_encode_round_trip(w: u32, t: EncodingTable)
    ensures
        !(spec_decode(w, t) is Undefined) ==> spec_encode(spec_decode(w, t)) == w,
{
    let o = opc_f(w);
    if o == 0x37 || o == 0x17 || o == 0x6F || o == 0x67 {
        lemma_rt_ui_jumps(w, t);
    } else if o == 0x63 {
        lemma_rt_branch(w, t);
    } else if o == 0x03 || o == 0x07 {
        lemma_rt_loads(w, t);
    } else if o == 0x23 || o == 0x27 {
        lemma_rt_stores(w, t);
    } else if o == 0x13 || o == 0x1B {
        lemma_rt_opimm(w, t);
    } else if o == 0x33 || o == 0x3B {
        lemma_rt_op(w, t);
    } else if o == 0x0F {
        lemma_rt_misc_mem(w, t);
    } else if o == 0x73 {
        lemma_rt_system(w, t);
    } else if o == 0x2F {
        lemma_rt_amo(w, t);
    } else if o == 0x43 || o == 0x47 || o == 0x4B || o == 0x4F {
        lemma_rt_fma(w, t);
    } else if o == 0x53 {
        if fmt_f(w) == 0 {
            lemma_rt_opfp_s(w, t);
        } else if fmt_f(w) == 1 {
            lemma_rt_opfp_d(w, t);
        } else if fmt_f(w) == 3 {
            lemma_rt_opfp_q(w, t);
        }
    }
}

} // verus!
