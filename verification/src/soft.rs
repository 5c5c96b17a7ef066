//! The HART: one hardware thread of architectural state, and the
//! fetch-decode-execute step that drives it.
//!
//! The whole step is specified by a functional interpreter over
//! [`MachView`], the mathematical view of the architectural state;
//! `execute` is proved to return exactly what the interpreter says, to
//! leave the state untouched on a fault, and to keep `x0` hard-wired to
//! zero.
use vstd::prelude::*;

verus! {

use vstd::arithmetic::div_mod::{lemma_fundamental_div_mod_converse, lemma_small_mod};
use crate::bits::{
    div_s, div64, divu_s, divu64, divuw, divuw_s, divw, divw_s, mulh, mulh_s, mulhsu,
    mulhsu_s, mulhu, mulhu_s, mulw, mulw_s, rem_s, rem64, remu_s, remu64, remuw, remuw_s, remw,
    remw_s, s32, s64, sext16s, sext32s, sext8s, sextb, sexth, sextw, sext32, signed_lt,
    signed_lt32, to_u64, u64_wadd, u64_wmul, u64_wsub, wadd, wmul, wsub,
    i128_low64, u128_low64, s32_i128, s64_i128,
};
use crate::encoding::EncodingTable;
use crate::exceptions::Exception;
use crate::fp::{
    box32, fclass32, fclass32x, fclass64, fclass64x, feq32, feq32x, feq64, feq64x, fle32, fle32x,
    fle64, fle64x, flt32, flt32x, flt64, flt64x, fmax32, fmax32x, fmax64, fmax64x, fmin32, fmin32x,
    fmin64, fmin64x, is_nan32, is_nan64, nan32, nan64, nan_box32, sgnj32, sgnj32x, sgnj64, sgnj64x,
    sgnjn32, sgnjn32x, sgnjn64, sgnjn64x, sgnjx32, sgnjx32x, sgnjx64, sgnjx64x, unbox, unbox32,
    CANON_NAN32, CANON_NAN64,
};
use crate::instructions::{spec_decode, Instruction};
use crate::memory::{in_range, le32v, read_le, write_le, Dram, MEM_SIZE};
use crate::softfp::{
    f32_of_f64, f32_of_f64_bits, f32_of_sint, f32_of_sint_bits, f32_of_uint, f32_of_uint_bits,
    f64_of_f32, f64_of_f32_bits, f64_of_sint, f64_of_sint_bits, f64_of_uint, f64_of_uint_bits,
    fadd32, fadd32_bits, fadd64, fadd64_bits, fdiv32, fdiv32_bits, fdiv64, fdiv64_bits, fma32,
    fma32_bits, fma64, fma64_bits, fmul32, fmul32_bits, fmul64, fmul64_bits, fsqrt32, fsqrt32_bits,
    fsqrt64, fsqrt64_bits, fsub32, fsub32_bits, fsub64, fsub64_bits, sint_of_f32, sint_of_f32_bits,
    sint_of_f64, sint_of_f64_bits, uint_of_f32, uint_of_f32_bits, uint_of_f64, uint_of_f64_bits,
};

/// The instruction width in bytes.
pub const INST_LEN: u64 = 4;

/// The largest program image `load_program` accepts.
pub const PROG_CAP: usize = 4096;

/// The mathematical view of one HART's architectural state.
#[verifier::ext_equal]
pub struct MachView {
    /// Integer register file: 33 slots, index 0 hard-wired to zero.
    pub x: Seq<u64>,
    /// Floating-point register file: 32 slots of IEEE-754 payload bits.
    pub f: Seq<u64>,
    /// Program counter.
    pub pc: u64,
    /// Program image, fetched at `pc`.
    pub prog: Seq<u8>,
    /// Data bus contents.
    pub mem: Seq<u8>,
    /// Control and status register file: 4096 slots.
    pub csr: Seq<u64>,
    /// Outstanding load reservations.
    pub res: Seq<u64>,
}

/// The software representation of a RISC-V HART: register files, program
/// counter, program image, bus, CSR file and reservation set.
#[derive(Debug)]
pub struct SoftThread {
    /// Integer register file; slot 0 reads zero, slot 32 is the sentinel.
    pub registers: Vec<u64>,
    /// Floating-point register file, as 64-bit payload patterns.
    pub f_registers: Vec<u64>,
    /// Program counter.
    pub pc: u64,
    /// Program image.
    pub program: Vec<u8>,
    /// The encoding table the decoder is driven by.
    pub enc_table: EncodingTable,
    /// The memory bus.
    pub bus: Dram,
    /// Control and status registers.
    pub csr: Vec<u64>,
    /// Outstanding load-reservation addresses.
    pub res: Vec<u64>,
}

impl View for SoftThread {
    type V = MachView;

    open spec fn view(&self) -> MachView {
        MachView {
            x: self.registers@,
            f: self.f_registers@,
            pc: self.pc,
            prog: self.program@,
            mem: self.bus@,
            csr: self.csr@,
            res: self.res@,
        }
    }
}

/// Well-formedness of the architectural state: file sizes, the zero
/// register, and a program counter aligned at an instruction boundary.
pub open spec fn wf_mach(m: MachView) -> bool {
    &&& m.x.len() == 33
    &&& m.f.len() == 32
    &&& m.csr.len() == 4096
    &&& m.x[0] == 0
    &&& m.pc % 4 == 0
}

/// Reads an integer register of the view.
pub open spec fn mx(m: MachView, r: u8) -> u64 {
    m.x[r as int]
}

/// Reads a floating-point register of the view.
pub open spec fn mf(m: MachView, r: u8) -> u64 {
    m.f[r as int]
}

/// Writes an integer register; a write to x0 is discarded.
pub open spec fn wr_x(m: MachView, rd: u8, v: u64) -> MachView {
    if rd == 0 {
        m
    } else {
        MachView { x: m.x.update(rd as int, v), ..m }
    }
}

/// Writes a floating-point register.
pub open spec fn wr_f(m: MachView, rd: u8, v: u64) -> MachView {
    MachView { f: m.f.update(rd as int, v), ..m }
}

/// Advances the program counter past one instruction.
pub open spec fn adv(m: MachView) -> MachView {
    MachView { pc: wadd(m.pc, 4), ..m }
}

/// A step that writes an integer register and advances.
pub open spec fn okx(m: MachView, rd: u8, v: u64) -> (MachView, Result<(), Exception>) {
    (adv(wr_x(m, rd, v)), Result::Ok(()))
}

/// A step that writes a floating-point register and advances.
pub open spec fn okf(m: MachView, rd: u8, v: u64) -> (MachView, Result<(), Exception>) {
    (adv(wr_f(m, rd, v)), Result::Ok(()))
}

/// A step that only advances.
pub open spec fn oknop(m: MachView) -> (MachView, Result<(), Exception>) {
    (adv(m), Result::Ok(()))
}

/// A faulted step: the state is left untouched.
pub open spec fn fault(m: MachView, e: Exception) -> (MachView, Result<(), Exception>) {
    (m, Result::Err(e))
}

/// A conditional branch: a taken branch goes to `pc + imm` when that is
/// aligned and faults otherwise; an untaken one advances.
pub open spec fn branch(m: MachView, taken: bool, imm: u64) -> (MachView, Result<(), Exception>) {
    if taken {
        let t = wadd(m.pc, imm);
        if t % 4 == 0 {
            (MachView { pc: t, ..m }, Result::Ok(()))
        } else {
            fault(m, Exception::InstructionAddressMisaligned)
        }
    } else {
        oknop(m)
    }
}

/// The value an in-range load of `n` bytes returns.
pub open spec fn ld(m: MachView, a: u64, n: nat) -> u64 {
    read_le(m.mem, a as int, n) as u64
}

/// Whether a reservation's eight-byte block overlaps a store of `n` bytes
/// at `a`. Reservations are tracked at a granularity of eight bytes.
pub open spec fn res_overlaps(r: u64, a: u64, n: nat) -> bool {
    let base = r - (r as int % 8);
    base < a + n && a < base + 8
}

/// The reservation set after a store of `n` bytes at `a`: every overlapped
/// entry is gone.
pub open spec fn res_clear(res: Seq<u64>, a: u64, n: nat) -> Seq<u64> {
    res.filter(|r: u64| !res_overlaps(r, a, n))
}

/// The reservation set with the exact entries for `a` removed, as a failed
/// store-conditional leaves it.
pub open spec fn res_drop(res: Seq<u64>, a: u64) -> Seq<u64> {
    res.filter(|r: u64| r != a)
}

/// The reservation set after a load-reserved of `a`.
pub open spec fn res_insert(res: Seq<u64>, a: u64) -> Seq<u64> {
    if res.contains(a) {
        res
    } else {
        res.push(a)
    }
}

/// A store step: writes `n` bytes, drops overlapped reservations, and
/// advances; an address outside the bus faults without side effects.
pub open spec fn store_step(m: MachView, a: u64, n: nat, v: u64) -> (
    MachView,
    Result<(), Exception>,
) {
    if in_range(m.mem.len(), a, n) {
        (
            MachView { mem: write_le(m.mem, a as int, n, v), res: res_clear(m.res, a, n), ..adv(m) },
            Result::Ok(()),
        )
    } else {
        fault(m, Exception::StoreAccessFault)
    }
}

/// A load step into an integer register; `v` is applied to the loaded
/// value for the width's extension.
pub open spec fn load_step(m: MachView, rd: u8, a: u64, n: nat, v: u64) -> (
    MachView,
    Result<(), Exception>,
) {
    if in_range(m.mem.len(), a, n) {
        okx(m, rd, v)
    } else {
        fault(m, Exception::LoadAccessFault)
    }
}

/// Whether a CSR index is read-only: the top two of its twelve bits set.
pub open spec fn csr_read_only(c: u16) -> bool {
    c as int / 0x400 == 3
}

/// Writes a CSR slot of the view.
pub open spec fn wr_csr(m: MachView, c: u16, v: u64) -> MachView {
    MachView { csr: m.csr.update(c as int, v), ..m }
}

/// The effective rounding mode of an instruction: a static field below
/// five stands for itself, seven defers to the frm register, and anything
/// else is reserved.
pub open spec fn eff_rm(m: MachView, rm: u8) -> Option<u8> {
    if rm <= 4 {
        Option::Some(rm)
    } else if rm == 7 {
        if m.csr[2] % 8 <= 4 {
            Option::Some((m.csr[2] % 8) as u8)
        } else {
            Option::None
        }
    } else {
        Option::None
    }
}

/// What a fetch returns: the four little-endian bytes at `pc`, or a load
/// fault past the end of the program image.
pub open spec fn spec_fetch(m: MachView) -> Result<u32, Exception> {
    if m.pc + 4 <= m.prog.len() {
        Result::Ok(le32v(m.prog, m.pc as int) as u32)
    } else {
        Result::Err(Exception::LoadAccessFault)
    }
}

/// Advancing by one instruction keeps the counter aligned.
proof fn lemma_adv_aligned(pc: u64)
    requires
        pc % 4 == 0,
    ensures
        wadd(pc, 4) % 4 == 0,
{
    if pc + 4 <= u64::MAX {
        lemma_fundamental_div_mod_converse(pc + 4, 4, pc as int / 4 + 1, 0);
    }
}

/// A zeroed register or CSR file of `n` slots.
fn zeros(n: usize) -> (v: Vec<u64>)
    ensures
        v@.len() == n,
        forall|i: int| 0 <= i < n ==> v@[i] == 0u64,
{
    let mut v: Vec<u64> = Vec::new();
    let mut i: usize = 0;
    while i < n
        invariant
            i <= n,
            v@.len() == i,
            forall|j: int| 0 <= j < i ==> v@[j] == 0u64,
        decreases n - i,
    {
        v.push(0);
        i = i + 1;
    }
    v
}

/// The architectural state of a fresh HART: all registers zero but for
/// the stack pointer at the top of the default-sized zeroed bus, the
/// counter at zero, an empty program image, and no reservations.
pub open spec fn fresh_mach() -> MachView {
    MachView {
        x: Seq::new(33, |i: int| if i == 2 { MEM_SIZE } else { 0u64 }),
        f: Seq::new(32, |i: int| 0u64),
        pc: 0,
        prog: Seq::empty(),
        mem: Seq::new(MEM_SIZE as nat, |i: int| 0u8),
        csr: Seq::new(4096, |i: int| 0u64),
        res: Seq::empty(),
    }
}

impl SoftThread {
    /// Well-formedness of this HART's state.
    pub open spec fn wf(&self) -> bool {
        wf_mach(self@)
    }

    /// A fresh HART: all registers zero but for the stack pointer at the
    /// top of memory, the counter at zero, no reservations, and a zeroed
    /// bus of the default size.
    pub fn new(enc_table: EncodingTable) -> (t: SoftThread)
        ensures
            t.wf(),
            t@ == fresh_mach(),
            t.enc_table == enc_table,
    {
        let mut registers = zeros(33);
        registers[2] = MEM_SIZE;
        let t = SoftThread {
            registers,
            f_registers: zeros(32),
            pc: 0,
            program: Vec::new(),
            enc_table,
            bus: Dram::new(MEM_SIZE as usize),
            csr: zeros(4096),
            res: Vec::new(),
        };
        proof {
            assert(t@ =~= fresh_mach());
        }
        t
    }

    /// A fresh HART over a caller-supplied bus; the stack pointer starts
    /// at the top of that bus.
    pub fn with_bus(enc_table: EncodingTable, bus: Dram) -> (t: SoftThread)
        ensures
            t.wf(),
            t@.x.len() == 33,
            t@.x[2] == bus@.len(),
            forall|i: int| 0 <= i < 33 && i != 2 ==> t@.x[i] == 0u64,
            t@.f.len() == 32,
            forall|i: int| 0 <= i < 32 ==> t@.f[i] == 0u64,
            t@.pc == 0,
            t@.prog.len() == 0,
            t@.mem == bus@,
            t@.csr.len() == 4096,
            forall|i: int| 0 <= i < 4096 ==> t@.csr[i] == 0u64,
            t@.res.len() == 0,
            t.enc_table == enc_table,
    {
        let mut registers = zeros(33);
        let top = bus.size();
        registers[2] = top as u64;
        SoftThread {
            registers,
            f_registers: zeros(32),
            pc: 0,
            program: Vec::new(),
            enc_table,
            bus,
            csr: zeros(4096),
            res: Vec::new(),
        }
    }

    /// Reads an integer register by index.
    pub fn read_xreg(&self, idx: usize) -> (v: u64)
        requires
            self.wf(),
            idx < 33,
        ensures
            v == self@.x[idx as int],
    {
        self.registers[idx]
    }

    /// Reads a floating-point register by index, as its bit pattern.
    pub fn read_freg(&self, idx: usize) -> (v: u64)
        requires
            self.wf(),
            idx < 32,
        ensures
            v == self@.f[idx as int],
    {
        self.f_registers[idx]
    }

    /// Writes an integer register by index; a write to index 0 is
    /// discarded, as in-core execution discards it.
    pub fn write_xreg(&mut self, idx: usize, v: u64)
        requires
            old(self).wf(),
            idx < 33,
        ensures
            final(self).wf(),
            final(self).enc_table == old(self).enc_table,
            idx == 0 ==> final(self)@ == old(self)@,
            idx != 0 ==> final(self)@ == (MachView {
                x: old(self)@.x.update(idx as int, v),
                ..old(self)@
            }),
    {
        if idx != 0 {
            self.registers[idx] = v;
            proof {
                assert(self@ =~= (MachView { x: old(self)@.x.update(idx as int, v), ..old(self)@ }));
            }
        }
    }

    /// Writes a floating-point register by index.
    pub fn write_freg(&mut self, idx: usize, v: u64)
        requires
            old(self).wf(),
            idx < 32,
        ensures
            final(self).wf(),
            final(self).enc_table == old(self).enc_table,
            final(self)@ == (MachView { f: old(self)@.f.update(idx as int, v), ..old(self)@ }),
    {
        self.f_registers[idx] = v;
        proof {
            assert(self@ =~= (MachView { f: old(self)@.f.update(idx as int, v), ..old(self)@ }));
        }
    }

    /// Advances the program counter past one instruction, wrapping.
    pub fn advance(&mut self)
        requires
            old(self).wf(),
        ensures
            final(self).wf(),
            final(self)@ == adv(old(self)@),
            final(self).enc_table == old(self).enc_table,
    {
        proof {
            lemma_adv_aligned(self.pc);
        }
        self.pc = u64_wadd(self.pc, INST_LEN);
        proof {
            assert(self@ =~= adv(old(self)@));
        }
    }

    /// Fetches the instruction word at the counter: four little-endian
    /// bytes of the program image, or a load fault past its end.
    pub fn fetch(&self) -> (r: Result<u32, Exception>)
        ensures
            r == spec_fetch(self@),
    {
        let len = self.program.len();
        if len < 4 || self.pc > (len - 4) as u64 {
            return Err(Exception::LoadAccessFault);
        }
        let i = self.pc as usize;
        let w: u32 = (self.program[i] as u32) + 0x100 * (self.program[i + 1] as u32) + 0x1_0000 * (
        self.program[i + 2] as u32) + 0x100_0000 * (self.program[i + 3] as u32);
        Ok(w)
    }

    /// Copies a program image into the HART; an image over the program
    /// limit is rejected whole with `ProgramTooLarge`.
    pub fn load_program(&mut self, code: Vec<u8>) -> (r: Result<(), Exception>)
        ensures
            old(self).wf() ==> final(self).wf(),
            final(self).enc_table == old(self).enc_table,
            code@.len() > PROG_CAP ==> r == Result::<(), Exception>::Err(Exception::ProgramTooLarge)
                && final(self)@ == old(self)@,
            code@.len() <= PROG_CAP ==> r == Result::<(), Exception>::Ok(()) && final(self)@ == (
            MachView { prog: code@, ..old(self)@ }),
    {
        if code.len() > PROG_CAP {
            return Err(Exception::ProgramTooLarge);
        }
        self.program = code;
        proof {
            assert(self@ =~= (MachView { prog: code@, ..old(self)@ }));
        }
        Ok(())
    }
}

impl Default for SoftThread {
    /// A fresh HART over the default encoding table: RV64I with every
    /// extension enabled, observationally equal to
    /// `SoftThread::new(EncodingTable::default())`.
    fn default() -> (t: SoftThread)
        ensures
            t.wf(),
            t@ == fresh_mach(),
            t.enc_table == crate::encoding::default_table(),
    {
        SoftThread::new(EncodingTable::default())
    }
}

/// One rounding floating-point result at single precision: any NaN becomes
/// the canonical quiet NaN, as the architecture produces it.
pub open spec fn fp32_result(raw: u64) -> u64 {
    if is_nan32(raw) {
        CANON_NAN32
    } else {
        raw
    }
}

/// One rounding floating-point result at double precision.
pub open spec fn fp64_result(raw: u64) -> u64 {
    if is_nan64(raw) {
        CANON_NAN64
    } else {
        raw
    }
}

/// The negation of a double-precision pattern: the sign bit flipped.
pub open spec fn fneg64(v: u64) -> u64 {
    sgnjn64(v, v)
}

/// The negation of a single-precision pattern.
pub open spec fn fneg32(v: u64) -> u64 {
    sgnjn32(v, v)
}

/// An atomic read-modify-write step at `a`: the old value, extended, goes
/// to `rd`; `store_v` replaces the low `n` bytes; overlapped reservations
/// are dropped.
pub open spec fn amo_step(m: MachView, rd: u8, a: u64, n: nat, old_ext: u64, store_v: u64) -> (
    MachView,
    Result<(), Exception>,
) {
    if in_range(m.mem.len(), a, n) {
        (
            adv(
                wr_x(
                    MachView {
                        mem: write_le(m.mem, a as int, n, store_v),
                        res: res_clear(m.res, a, n),
                        ..m
                    },
                    rd,
                    old_ext,
                ),
            ),
            Result::Ok(()),
        )
    } else {
        fault(m, Exception::StoreAccessFault)
    }
}

/// A floating-point comparison step that raises the invalid flag in
/// `fflags` when an operand is NaN, as FLT and FLE do.
pub open spec fn fcmp_signaling_step(m: MachView, rd: u8, any_nan: bool, v: u64) -> (
    MachView,
    Result<(), Exception>,
) {
    let m2 = if any_nan {
        wr_csr(m, 1, m.csr[1] | 0x10)
    } else {
        m
    };
    okx(m2, rd, v)
}

/// What one decoded instruction does to the architectural state: the next
/// state and the step's outcome. A fault leaves the state untouched.
pub open spec fn spec_exec(m: MachView, i: Instruction) -> (MachView, Result<(), Exception>) {
    match i {
        Instruction::Undefined => fault(m, Exception::IllegalInstruction),
        Instruction::Lui { rd, imm } => okx(m, rd, imm),
        Instruction::Auipc { rd, imm } => okx(m, rd, wadd(m.pc, imm)),
        Instruction::Jal { rd, imm } => {
            let t = wadd(m.pc, imm);
            if t % 4 == 0 {
                (MachView { pc: t, ..wr_x(m, rd, wadd(m.pc, 4)) }, Result::Ok(()))
            } else {
                fault(m, Exception::InstructionAddressMisaligned)
            }
        },
        Instruction::Jalr { rd, rs1, imm } => {
            let t0 = wadd(mx(m, rs1), imm);
            let t = (t0 - t0 % 2) as u64;
            if t % 4 == 0 {
                (MachView { pc: t, ..wr_x(m, rd, wadd(m.pc, 4)) }, Result::Ok(()))
            } else {
                fault(m, Exception::InstructionAddressMisaligned)
            }
        },
        Instruction::Beq { rs1, rs2, imm } => branch(m, mx(m, rs1) == mx(m, rs2), imm),
        Instruction::Bne { rs1, rs2, imm } => branch(m, mx(m, rs1) != mx(m, rs2), imm),
        Instruction::Blt { rs1, rs2, imm } => branch(m, s64(mx(m, rs1)) < s64(mx(m, rs2)), imm),
        Instruction::Bge { rs1, rs2, imm } => branch(m, s64(mx(m, rs1)) >= s64(mx(m, rs2)), imm),
        Instruction::Bltu { rs1, rs2, imm } => branch(m, mx(m, rs1) < mx(m, rs2), imm),
        Instruction::Bgeu { rs1, rs2, imm } => branch(m, mx(m, rs1) >= mx(m, rs2), imm),
        Instruction::Lb { rd, rs1, imm } => {
            let a = wadd(mx(m, rs1), imm);
            load_step(m, rd, a, 1, sext8s(ld(m, a, 1)))
        },
        Instruction::Lh { rd, rs1, imm } => {
            let a = wadd(mx(m, rs1), imm);
            load_step(m, rd, a, 2, sext16s(ld(m, a, 2)))
        },
        Instruction::Lw { rd, rs1, imm } => {
            let a = wadd(mx(m, rs1), imm);
            load_step(m, rd, a, 4, sext32s(ld(m, a, 4)))
        },
        Instruction::Ld { rd, rs1, imm } => {
            let a = wadd(mx(m, rs1), imm);
            load_step(m, rd, a, 8, ld(m, a, 8))
        },
        Instruction::Lbu { rd, rs1, imm } => {
            let a = wadd(mx(m, rs1), imm);
            load_step(m, rd, a, 1, ld(m, a, 1))
        },
        Instruction::Lhu { rd, rs1, imm } => {
            let a = wadd(mx(m, rs1), imm);
            load_step(m, rd, a, 2, ld(m, a, 2))
        },
        Instruction::Lwu { rd, rs1, imm } => {
            let a = wadd(mx(m, rs1), imm);
            load_step(m, rd, a, 4, ld(m, a, 4))
        },
        Instruction::Sb { rs1, rs2, imm } => store_step(m, wadd(mx(m, rs1), imm), 1, mx(m, rs2)),
        Instruction::Sh { rs1, rs2, imm } => store_step(m, wadd(mx(m, rs1), imm), 2, mx(m, rs2)),
        Instruction::Sw { rs1, rs2, imm } => store_step(m, wadd(mx(m, rs1), imm), 4, mx(m, rs2)),
        Instruction::Sd { rs1, rs2, imm } => store_step(m, wadd(mx(m, rs1), imm), 8, mx(m, rs2)),
        Instruction::Addi { rd, rs1, imm } => okx(m, rd, wadd(mx(m, rs1), imm)),
        Instruction::Slti { rd, rs1, imm } => okx(
            m,
            rd,
            if s64(mx(m, rs1)) < s64(imm) {
                1
            } else {
                0
            },
        ),
        Instruction::Sltiu { rd, rs1, imm } => okx(
            m,
            rd,
            if mx(m, rs1) < imm {
                1
            } else {
                0
            },
        ),
        Instruction::Xori { rd, rs1, imm } => okx(m, rd, mx(m, rs1) ^ imm),
        Instruction::Ori { rd, rs1, imm } => okx(m, rd, mx(m, rs1) | imm),
        Instruction::Andi { rd, rs1, imm } => okx(m, rd, mx(m, rs1) & imm),
        Instruction::Slli { rd, rs1, shamt } => okx(m, rd, mx(m, rs1) << shamt),
        Instruction::Srli { rd, rs1, shamt } => okx(m, rd, mx(m, rs1) >> shamt),
        Instruction::Srai { rd, rs1, shamt } => okx(
            m,
            rd,
            ((mx(m, rs1) as i64) >> shamt) as u64,
        ),
        Instruction::Add { rd, rs1, rs2 } => okx(m, rd, wadd(mx(m, rs1), mx(m, rs2))),
        Instruction::Sub { rd, rs1, rs2 } => okx(m, rd, wsub(mx(m, rs1), mx(m, rs2))),
        Instruction::Sll { rd, rs1, rs2 } => okx(m, rd, mx(m, rs1) << (mx(m, rs2) % 64)),
        Instruction::Slt { rd, rs1, rs2 } => okx(
            m,
            rd,
            if s64(mx(m, rs1)) < s64(mx(m, rs2)) {
                1
            } else {
                0
            },
        ),
        Instruction::Sltu { rd, rs1, rs2 } => okx(
            m,
            rd,
            if mx(m, rs1) < mx(m, rs2) {
                1
            } else {
                0
            },
        ),
        Instruction::Xor { rd, rs1, rs2 } => okx(m, rd, mx(m, rs1) ^ mx(m, rs2)),
        Instruction::Srl { rd, rs1, rs2 } => okx(m, rd, mx(m, rs1) >> (mx(m, rs2) % 64)),
        Instruction::Sra { rd, rs1, rs2 } => okx(
            m,
            rd,
            ((mx(m, rs1) as i64) >> (mx(m, rs2) % 64)) as u64,
        ),
        Instruction::Or { rd, rs1, rs2 } => okx(m, rd, mx(m, rs1) | mx(m, rs2)),
        Instruction::And { rd, rs1, rs2 } => okx(m, rd, mx(m, rs1) & mx(m, rs2)),
        Instruction::Fence { .. } => oknop(m),
        Instruction::FenceI { .. } => oknop(m),
        Instruction::Ecall => fault(m, Exception::EnvironmentCall),
        Instruction::Ebreak => fault(m, Exception::Breakpoint),
        Instruction::Addiw { rd, rs1, imm } => okx(m, rd, sext32s(wadd(mx(m, rs1), imm))),
        Instruction::Slliw { rd, rs1, shamt } => okx(
            m,
            rd,
            sext32s(((((mx(m, rs1) % 0x1_0000_0000) as u32) << shamt) as u64)),
        ),
        Instruction::Srliw { rd, rs1, shamt } => okx(
            m,
            rd,
            sext32s(((((mx(m, rs1) % 0x1_0000_0000) as u32) >> shamt) as u64)),
        ),
        Instruction::Sraiw { rd, rs1, shamt } => okx(
            m,
            rd,
            sext32s(((((((mx(m, rs1) % 0x1_0000_0000) as u32) as i32) >> shamt) as u32) as u64)),
        ),
        Instruction::Addw { rd, rs1, rs2 } => okx(m, rd, sext32s(wadd(mx(m, rs1), mx(m, rs2)))),
        Instruction::Subw { rd, rs1, rs2 } => okx(m, rd, sext32s(wsub(mx(m, rs1), mx(m, rs2)))),
        Instruction::Sllw { rd, rs1, rs2 } => okx(
            m,
            rd,
            sext32s(((((mx(m, rs1) % 0x1_0000_0000) as u32) << (mx(m, rs2) % 32)) as u64)),
        ),
        Instruction::Srlw { rd, rs1, rs2 } => okx(
            m,
            rd,
            sext32s(((((mx(m, rs1) % 0x1_0000_0000) as u32) >> (mx(m, rs2) % 32)) as u64)),
        ),
        Instruction::Sraw { rd, rs1, rs2 } => okx(
            m,
            rd,
            sext32s(
                ((((((mx(m, rs1) % 0x1_0000_0000) as u32) as i32) >> (mx(m, rs2) % 32)) as u32)
                    as u64),
            ),
        ),
        Instruction::Csrrw { rd, rs1, csr } => {
            if csr_read_only(csr) {
                fault(m, Exception::IllegalInstruction)
            } else {
                okx(wr_csr(m, csr, mx(m, rs1)), rd, m.csr[csr as int])
            }
        },
        Instruction::Csrrs { rd, rs1, csr } => {
            if rs1 == 0 {
                okx(m, rd, m.csr[csr as int])
            } else if csr_read_only(csr) {
                fault(m, Exception::IllegalInstruction)
            } else {
                okx(wr_csr(m, csr, m.csr[csr as int] | mx(m, rs1)), rd, m.csr[csr as int])
            }
        },
        Instruction::Csrrc { rd, rs1, csr } => {
            if rs1 == 0 {
                okx(m, rd, m.csr[csr as int])
            } else if csr_read_only(csr) {
                fault(m, Exception::IllegalInstruction)
            } else {
                okx(wr_csr(m, csr, m.csr[csr as int] & !mx(m, rs1)), rd, m.csr[csr as int])
            }
        },
        Instruction::Csrrwi { rd, uimm, csr } => {
            if csr_read_only(csr) {
                fault(m, Exception::IllegalInstruction)
            } else {
                okx(wr_csr(m, csr, uimm as u64), rd, m.csr[csr as int])
            }
        },
        Instruction::Csrrsi { rd, uimm, csr } => {
            if uimm == 0 {
                okx(m, rd, m.csr[csr as int])
            } else if csr_read_only(csr) {
                fault(m, Exception::IllegalInstruction)
            } else {
                okx(wr_csr(m, csr, m.csr[csr as int] | (uimm as u64)), rd, m.csr[csr as int])
            }
        },
        Instruction::Csrrci { rd, uimm, csr } => {
            if uimm == 0 {
                okx(m, rd, m.csr[csr as int])
            } else if csr_read_only(csr) {
                fault(m, Exception::IllegalInstruction)
            } else {
                okx(wr_csr(m, csr, m.csr[csr as int] & !(uimm as u64)), rd, m.csr[csr as int])
            }
        },
        Instruction::Mul { rd, rs1, rs2 } => okx(m, rd, wmul(mx(m, rs1), mx(m, rs2))),
        Instruction::Mulh { rd, rs1, rs2 } => okx(m, rd, mulh_s(mx(m, rs1), mx(m, rs2))),
        Instruction::Mulhsu { rd, rs1, rs2 } => okx(m, rd, mulhsu_s(mx(m, rs1), mx(m, rs2))),
        Instruction::Mulhu { rd, rs1, rs2 } => okx(m, rd, mulhu_s(mx(m, rs1), mx(m, rs2))),
        Instruction::Div { rd, rs1, rs2 } => okx(m, rd, div_s(mx(m, rs1), mx(m, rs2))),
        Instruction::Divu { rd, rs1, rs2 } => okx(m, rd, divu_s(mx(m, rs1), mx(m, rs2))),
        Instruction::Rem { rd, rs1, rs2 } => okx(m, rd, rem_s(mx(m, rs1), mx(m, rs2))),
        Instruction::Remu { rd, rs1, rs2 } => okx(m, rd, remu_s(mx(m, rs1), mx(m, rs2))),
        Instruction::Mulw { rd, rs1, rs2 } => okx(m, rd, mulw_s(mx(m, rs1), mx(m, rs2))),
        Instruction::Divw { rd, rs1, rs2 } => okx(m, rd, divw_s(mx(m, rs1), mx(m, rs2))),
        Instruction::Divuw { rd, rs1, rs2 } => okx(m, rd, divuw_s(mx(m, rs1), mx(m, rs2))),
        Instruction::Remw { rd, rs1, rs2 } => okx(m, rd, remw_s(mx(m, rs1), mx(m, rs2))),
        Instruction::Remuw { rd, rs1, rs2 } => okx(m, rd, remuw_s(mx(m, rs1), mx(m, rs2))),
        Instruction::LrW { rd, rs1, .. } => {
            let a = mx(m, rs1);
            if a % 4 != 0 {
                fault(m, Exception::LoadAddressMisaligned)
            } else if !in_range(m.mem.len(), a, 4) {
                fault(m, Exception::LoadAccessFault)
            } else {
                (
                    adv(wr_x(MachView { res: res_insert(m.res, a), ..m }, rd, sext32s(ld(m, a, 4)))),
                    Result::Ok(()),
                )
            }
        },
        Instruction::ScW { rd, rs1, rs2, .. } => {
            let a = mx(m, rs1);
            if a % 4 != 0 {
                fault(m, Exception::StoreAddressMisaligned)
            } else if m.res.contains(a) {
                if in_range(m.mem.len(), a, 4) {
                    (
                        adv(
                            wr_x(
                                MachView {
                                    mem: write_le(m.mem, a as int, 4, mx(m, rs2)),
                                    res: res_clear(m.res, a, 4),
                                    ..m
                                },
                                rd,
                                0,
                            ),
                        ),
                        Result::Ok(()),
                    )
                } else {
                    fault(m, Exception::StoreAccessFault)
                }
            } else {
                (
                    adv(wr_x(MachView { res: res_drop(m.res, a), ..m }, rd, 1)),
                    Result::Ok(()),
                )
            }
        },
        Instruction::AmoswapW { rd, rs1, rs2, .. } => {
            let a = mx(m, rs1);
            if a % 4 != 0 {
                fault(m, Exception::StoreAddressMisaligned)
            } else {
                amo_step(m, rd, a, 4, sext32s(ld(m, a, 4)), mx(m, rs2))
            }
        },
        Instruction::AmoaddW { rd, rs1, rs2, .. } => {
            let a = mx(m, rs1);
            if a % 4 != 0 {
                fault(m, Exception::StoreAddressMisaligned)
            } else {
                amo_step(m, rd, a, 4, sext32s(ld(m, a, 4)), wadd(ld(m, a, 4), mx(m, rs2)))
            }
        },
        Instruction::AmoxorW { rd, rs1, rs2, .. } => {
            let a = mx(m, rs1);
            if a % 4 != 0 {
                fault(m, Exception::StoreAddressMisaligned)
            } else {
                amo_step(m, rd, a, 4, sext32s(ld(m, a, 4)), ld(m, a, 4) ^ mx(m, rs2))
            }
        },
        Instruction::AmoandW { rd, rs1, rs2, .. } => {
            let a = mx(m, rs1);
            if a % 4 != 0 {
                fault(m, Exception::StoreAddressMisaligned)
            } else {
                amo_step(m, rd, a, 4, sext32s(ld(m, a, 4)), ld(m, a, 4) & mx(m, rs2))
            }
        },
        Instruction::AmoorW { rd, rs1, rs2, .. } => {
            let a = mx(m, rs1);
            if a % 4 != 0 {
                fault(m, Exception::StoreAddressMisaligned)
            } else {
                amo_step(m, rd, a, 4, sext32s(ld(m, a, 4)), ld(m, a, 4) | mx(m, rs2))
            }
        },
        Instruction::AmominW { rd, rs1, rs2, .. } => {
            let a = mx(m, rs1);
            if a % 4 != 0 {
                fault(m, Exception::StoreAddressMisaligned)
            } else {
                amo_step(
                    m,
                    rd,
                    a,
                    4,
                    sext32s(ld(m, a, 4)),
                    if s32(mx(m, rs2)) < s32(ld(m, a, 4)) {
                        mx(m, rs2)
                    } else {
                        ld(m, a, 4)
                    },
                )
            }
        },
        Instruction::AmomaxW { rd, rs1, rs2, .. } => {
            let a = mx(m, rs1);
            if a % 4 != 0 {
                fault(m, Exception::StoreAddressMisaligned)
            } else {
                amo_step(
                    m,
                    rd,
                    a,
                    4,
                    sext32s(ld(m, a, 4)),
                    if s32(mx(m, rs2)) > s32(ld(m, a, 4)) {
                        mx(m, rs2)
                    } else {
                        ld(m, a, 4)
                    },
                )
            }
        },
        Instruction::AmominuW { rd, rs1, rs2, .. } => {
            let a = mx(m, rs1);
            if a % 4 != 0 {
                fault(m, Exception::StoreAddressMisaligned)
            } else {
                amo_step(
                    m,
                    rd,
                    a,
                    4,
                    sext32s(ld(m, a, 4)),
                    if mx(m, rs2) % 0x1_0000_0000 < ld(m, a, 4) {
                        mx(m, rs2)
                    } else {
                        ld(m, a, 4)
                    },
                )
            }
        },
        Instruction::AmomaxuW { rd, rs1, rs2, .. } => {
            let a = mx(m, rs1);
            if a % 4 != 0 {
                fault(m, Exception::StoreAddressMisaligned)
            } else {
                amo_step(
                    m,
                    rd,
                    a,
                    4,
                    sext32s(ld(m, a, 4)),
                    if mx(m, rs2) % 0x1_0000_0000 > ld(m, a, 4) {
                        mx(m, rs2)
                    } else {
                        ld(m, a, 4)
                    },
                )
            }
        },
        Instruction::LrD { rd, rs1, .. } => {
            let a = mx(m, rs1);
            if a % 8 != 0 {
                fault(m, Exception::LoadAddressMisaligned)
            } else if !in_range(m.mem.len(), a, 8) {
                fault(m, Exception::LoadAccessFault)
            } else {
                (
                    adv(wr_x(MachView { res: res_insert(m.res, a), ..m }, rd, ld(m, a, 8))),
                    Result::Ok(()),
                )
            }
        },
        Instruction::ScD { rd, rs1, rs2, .. } => {
            let a = mx(m, rs1);
            if a % 8 != 0 {
                fault(m, Exception::StoreAddressMisaligned)
            } else if m.res.contains(a) {
                if in_range(m.mem.len(), a, 8) {
                    (
                        adv(
                            wr_x(
                                MachView {
                                    mem: write_le(m.mem, a as int, 8, mx(m, rs2)),
                                    res: res_clear(m.res, a, 8),
                                    ..m
                                },
                                rd,
                                0,
                            ),
                        ),
                        Result::Ok(()),
                    )
                } else {
                    fault(m, Exception::StoreAccessFault)
                }
            } else {
                (
                    adv(wr_x(MachView { res: res_drop(m.res, a), ..m }, rd, 1)),
                    Result::Ok(()),
                )
            }
        },
        Instruction::AmoswapD { rd, rs1, rs2, .. } => {
            let a = mx(m, rs1);
            if a % 8 != 0 {
                fault(m, Exception::StoreAddressMisaligned)
            } else {
                amo_step(m, rd, a, 8, ld(m, a, 8), mx(m, rs2))
            }
        },
        Instruction::AmoaddD { rd, rs1, rs2, .. } => {
            let a = mx(m, rs1);
            if a % 8 != 0 {
                fault(m, Exception::StoreAddressMisaligned)
            } else {
                amo_step(m, rd, a, 8, ld(m, a, 8), wadd(ld(m, a, 8), mx(m, rs2)))
            }
        },
        Instruction::AmoxorD { rd, rs1, rs2, .. } => {
            let a = mx(m, rs1);
            if a % 8 != 0 {
                fault(m, Exception::StoreAddressMisaligned)
            } else {
                amo_step(m, rd, a, 8, ld(m, a, 8), ld(m, a, 8) ^ mx(m, rs2))
            }
        },
        Instruction::AmoandD { rd, rs1, rs2, .. } => {
            let a = mx(m, rs1);
            if a % 8 != 0 {
                fault(m, Exception::StoreAddressMisaligned)
            } else {
                amo_step(m, rd, a, 8, ld(m, a, 8), ld(m, a, 8) & mx(m, rs2))
            }
        },
        Instruction::AmoorD { rd, rs1, rs2, .. } => {
            let a = mx(m, rs1);
            if a % 8 != 0 {
                fault(m, Exception::StoreAddressMisaligned)
            } else {
                amo_step(m, rd, a, 8, ld(m, a, 8), ld(m, a, 8) | mx(m, rs2))
            }
        },
        Instruction::AmominD { rd, rs1, rs2, .. } => {
            let a = mx(m, rs1);
            if a % 8 != 0 {
                fault(m, Exception::StoreAddressMisaligned)
            } else {
                amo_step(
                    m,
                    rd,
                    a,
                    8,
                    ld(m, a, 8),
                    if s64(mx(m, rs2)) < s64(ld(m, a, 8)) {
                        mx(m, rs2)
                    } else {
                        ld(m, a, 8)
                    },
                )
            }
        },
        Instruction::AmomaxD { rd, rs1, rs2, .. } => {
            let a = mx(m, rs1);
            if a % 8 != 0 {
                fault(m, Exception::StoreAddressMisaligned)
            } else {
                amo_step(
                    m,
                    rd,
                    a,
                    8,
                    ld(m, a, 8),
                    if s64(mx(m, rs2)) > s64(ld(m, a, 8)) {
                        mx(m, rs2)
                    } else {
                        ld(m, a, 8)
                    },
                )
            }
        },
        Instruction::AmominuD { rd, rs1, rs2, .. } => {
            let a = mx(m, rs1);
            if a % 8 != 0 {
                fault(m, Exception::StoreAddressMisaligned)
            } else {
                amo_step(
                    m,
                    rd,
                    a,
                    8,
                    ld(m, a, 8),
                    if mx(m, rs2) < ld(m, a, 8) {
                        mx(m, rs2)
                    } else {
                        ld(m, a, 8)
                    },
                )
            }
        },
        Instruction::AmomaxuD { rd, rs1, rs2, .. } => {
            let a = mx(m, rs1);
            if a % 8 != 0 {
                fault(m, Exception::StoreAddressMisaligned)
            } else {
                amo_step(
                    m,
                    rd,
                    a,
                    8,
                    ld(m, a, 8),
                    if mx(m, rs2) > ld(m, a, 8) {
                        mx(m, rs2)
                    } else {
                        ld(m, a, 8)
                    },
                )
            }
        },
        Instruction::Flw { rd, rs1, imm } => {
            let a = wadd(mx(m, rs1), imm);
            if in_range(m.mem.len(), a, 4) {
                okf(m, rd, nan_box32(ld(m, a, 4)))
            } else {
                fault(m, Exception::LoadAccessFault)
            }
        },
        Instruction::Fsw { rs1, rs2, imm } => store_step(m, wadd(mx(m, rs1), imm), 4, mf(m, rs2)),
        Instruction::Fld { rd, rs1, imm } => {
            let a = wadd(mx(m, rs1), imm);
            if in_range(m.mem.len(), a, 8) {
                okf(m, rd, ld(m, a, 8))
            } else {
                fault(m, Exception::LoadAccessFault)
            }
        },
        Instruction::Fsd { rs1, rs2, imm } => store_step(m, wadd(mx(m, rs1), imm), 8, mf(m, rs2)),
        Instruction::Flq { rd, rs1, imm } => {
            let a = wadd(mx(m, rs1), imm);
            if in_range(m.mem.len(), a, 8) {
                okf(m, rd, ld(m, a, 8))
            } else {
                fault(m, Exception::LoadAccessFault)
            }
        },
        Instruction::Fsq { rs1, rs2, imm } => store_step(m, wadd(mx(m, rs1), imm), 8, mf(m, rs2)),
        _ => spec_exec_fp(m, i),
    }
}

/// The floating-point computational half of the interpreter.
pub open spec fn spec_exec_fp(m: MachView, i: Instruction) -> (MachView, Result<(), Exception>) {
    match i {
        Instruction::FmaddS { rd, rs1, rs2, rs3, rm } => match eff_rm(m, rm) {
            Option::Some(e) => okf(
                m,
                rd,
                nan_box32(
                    fp32_result(
                        fma32_bits(
                            unbox32(mf(m, rs1)),
                            unbox32(mf(m, rs2)),
                            unbox32(mf(m, rs3)),
                            e,
                        ),
                    ),
                ),
            ),
            Option::None => fault(m, Exception::IllegalInstruction),
        },
        Instruction::FmsubS { rd, rs1, rs2, rs3, rm } => match eff_rm(m, rm) {
            Option::Some(e) => okf(
                m,
                rd,
                nan_box32(
                    fp32_result(
                        fma32_bits(
                            unbox32(mf(m, rs1)),
                            unbox32(mf(m, rs2)),
                            fneg32(unbox32(mf(m, rs3))),
                            e,
                        ),
                    ),
                ),
            ),
            Option::None => fault(m, Exception::IllegalInstruction),
        },
        Instruction::FnmsubS { rd, rs1, rs2, rs3, rm } => match eff_rm(m, rm) {
            Option::Some(e) => okf(
                m,
                rd,
                nan_box32(
                    fp32_result(
                        fma32_bits(
                            fneg32(unbox32(mf(m, rs1))),
                            unbox32(mf(m, rs2)),
                            unbox32(mf(m, rs3)),
                            e,
                        ),
                    ),
                ),
            ),
            Option::None => fault(m, Exception::IllegalInstruction),
        },
        Instruction::FnmaddS { rd, rs1, rs2, rs3, rm } => match eff_rm(m, rm) {
            Option::Some(e) => okf(
                m,
                rd,
                nan_box32(
                    fp32_result(
                        fma32_bits(
                            fneg32(unbox32(mf(m, rs1))),
                            unbox32(mf(m, rs2)),
                            fneg32(unbox32(mf(m, rs3))),
                            e,
                        ),
                    ),
                ),
            ),
            Option::None => fault(m, Exception::IllegalInstruction),
        },
        Instruction::FaddS { rd, rs1, rs2, rm } => match eff_rm(m, rm) {
            Option::Some(e) => okf(
                m,
                rd,
                nan_box32(fp32_result(fadd32_bits(unbox32(mf(m, rs1)), unbox32(mf(m, rs2)), e))),
            ),
            Option::None => fault(m, Exception::IllegalInstruction),
        },
        Instruction::FsubS { rd, rs1, rs2, rm } => match eff_rm(m, rm) {
            Option::Some(e) => okf(
                m,
                rd,
                nan_box32(fp32_result(fsub32_bits(unbox32(mf(m, rs1)), unbox32(mf(m, rs2)), e))),
            ),
            Option::None => fault(m, Exception::IllegalInstruction),
        },
        Instruction::FmulS { rd, rs1, rs2, rm } => match eff_rm(m, rm) {
            Option::Some(e) => okf(
                m,
                rd,
                nan_box32(fp32_result(fmul32_bits(unbox32(mf(m, rs1)), unbox32(mf(m, rs2)), e))),
            ),
            Option::None => fault(m, Exception::IllegalInstruction),
        },
        Instruction::FdivS { rd, rs1, rs2, rm } => match eff_rm(m, rm) {
            Option::Some(e) => okf(
                m,
                rd,
                nan_box32(fp32_result(fdiv32_bits(unbox32(mf(m, rs1)), unbox32(mf(m, rs2)), e))),
            ),
            Option::None => fault(m, Exception::IllegalInstruction),
        },
        Instruction::FsqrtS { rd, rs1, rm } => match eff_rm(m, rm) {
            Option::Some(e) => okf(
                m,
                rd,
                nan_box32(fp32_result(fsqrt32_bits(unbox32(mf(m, rs1)), e))),
            ),
            Option::None => fault(m, Exception::IllegalInstruction),
        },
        Instruction::FsgnjS { rd, rs1, rs2 } => okf(
            m,
            rd,
            nan_box32(sgnj32(unbox32(mf(m, rs1)), unbox32(mf(m, rs2)))),
        ),
        Instruction::FsgnjnS { rd, rs1, rs2 } => okf(
            m,
            rd,
            nan_box32(sgnjn32(unbox32(mf(m, rs1)), unbox32(mf(m, rs2)))),
        ),
        Instruction::FsgnjxS { rd, rs1, rs2 } => okf(
            m,
            rd,
            nan_box32(sgnjx32(unbox32(mf(m, rs1)), unbox32(mf(m, rs2)))),
        ),
        Instruction::FminS { rd, rs1, rs2 } => okf(
            m,
            rd,
            nan_box32(fmin32(unbox32(mf(m, rs1)), unbox32(mf(m, rs2)))),
        ),
        Instruction::FmaxS { rd, rs1, rs2 } => okf(
            m,
            rd,
            nan_box32(fmax32(unbox32(mf(m, rs1)), unbox32(mf(m, rs2)))),
        ),
        Instruction::FcvtWS { rd, rs1, rm } => match eff_rm(m, rm) {
            Option::Some(e) => {
                let a = unbox32(mf(m, rs1));
                if is_nan32(a) {
                    okx(m, rd, 0x7FFF_FFFF)
                } else {
                    okx(m, rd, to_u64(sint_of_f32_bits(a, 32, e) as int))
                }
            },
            Option::None => fault(m, Exception::IllegalInstruction),
        },
        Instruction::FcvtWUS { rd, rs1, rm } => match eff_rm(m, rm) {
            Option::Some(e) => {
                let a = unbox32(mf(m, rs1));
                if is_nan32(a) {
                    okx(m, rd, 0xFFFF_FFFF_FFFF_FFFF)
                } else {
                    okx(m, rd, sext32s(to_u64(uint_of_f32_bits(a, 32, e) as int)))
                }
            },
            Option::None => fault(m, Exception::IllegalInstruction),
        },
        Instruction::FcvtLS { rd, rs1, rm } => match eff_rm(m, rm) {
            Option::Some(e) => {
                let a = unbox32(mf(m, rs1));
                if is_nan32(a) {
                    okx(m, rd, 0x7FFF_FFFF_FFFF_FFFF)
                } else {
                    okx(m, rd, to_u64(sint_of_f32_bits(a, 64, e) as int))
                }
            },
            Option::None => fault(m, Exception::IllegalInstruction),
        },
        Instruction::FcvtLUS { rd, rs1, rm } => match eff_rm(m, rm) {
            Option::Some(e) => {
                let a = unbox32(mf(m, rs1));
                if is_nan32(a) {
                    okx(m, rd, 0xFFFF_FFFF_FFFF_FFFF)
                } else {
                    okx(m, rd, to_u64(uint_of_f32_bits(a, 64, e) as int))
                }
            },
            Option::None => fault(m, Exception::IllegalInstruction),
        },
        Instruction::FmvXW { rd, rs1 } => okx(m, rd, sext32s(mf(m, rs1))),
        Instruction::FeqS { rd, rs1, rs2 } => okx(
            m,
            rd,
            if feq32(unbox32(mf(m, rs1)), unbox32(mf(m, rs2))) {
                1
            } else {
                0
            },
        ),
        Instruction::FltS { rd, rs1, rs2 } => {
            let a = unbox32(mf(m, rs1));
            let b = unbox32(mf(m, rs2));
            fcmp_signaling_step(
                m,
                rd,
                is_nan32(a) || is_nan32(b),
                if flt32(a, b) {
                    1
                } else {
                    0
                },
            )
        },
        Instruction::FleS { rd, rs1, rs2 } => {
            let a = unbox32(mf(m, rs1));
            let b = unbox32(mf(m, rs2));
            fcmp_signaling_step(
                m,
                rd,
                is_nan32(a) || is_nan32(b),
                if fle32(a, b) {
                    1
                } else {
                    0
                },
            )
        },
        Instruction::FclassS { rd, rs1 } => okx(m, rd, fclass32(unbox32(mf(m, rs1)))),
        Instruction::FcvtSW { rd, rs1, rm } => match eff_rm(m, rm) {
            Option::Some(e) => okf(
                m,
                rd,
                nan_box32(f32_of_sint_bits(s32(mx(m, rs1)) as i128, e)),
            ),
            Option::None => fault(m, Exception::IllegalInstruction),
        },
        Instruction::FcvtSWU { rd, rs1, rm } => match eff_rm(m, rm) {
            Option::Some(e) => okf(
                m,
                rd,
                nan_box32(f32_of_uint_bits((mx(m, rs1) % 0x1_0000_0000) as u128, e)),
            ),
            Option::None => fault(m, Exception::IllegalInstruction),
        },
        Instruction::FcvtSL { rd, rs1, rm } => match eff_rm(m, rm) {
            Option::Some(e) => okf(m, rd, nan_box32(f32_of_sint_bits(s64(mx(m, rs1)) as i128, e))),
            Option::None => fault(m, Exception::IllegalInstruction),
        },
        Instruction::FcvtSLU { rd, rs1, rm } => match eff_rm(m, rm) {
            Option::Some(e) => okf(m, rd, nan_box32(f32_of_uint_bits(mx(m, rs1) as u128, e))),
            Option::None => fault(m, Exception::IllegalInstruction),
        },
        Instruction::FmvWX { rd, rs1 } => okf(m, rd, nan_box32(mx(m, rs1))),
        Instruction::FcvtSD { rd, rs1, rm } => match eff_rm(m, rm) {
            Option::Some(e) => okf(
                m,
                rd,
                nan_box32(fp32_result(f32_of_f64_bits(mf(m, rs1), e))),
            ),
            Option::None => fault(m, Exception::IllegalInstruction),
        },
        Instruction::FcvtDS { rd, rs1, rm } => okf(
            m,
            rd,
            fp64_result(f64_of_f32_bits(unbox32(mf(m, rs1)))),
        ),
        _ => spec_exec_fp_dq(m, i),
    }
}

/// The double- and quad-precision computational half of the interpreter;
/// quad forms are modeled at double precision.
pub open spec fn spec_exec_fp_dq(m: MachView, i: Instruction) -> (MachView, Result<(), Exception>) {
    match i {
        Instruction::FmaddD { rd, rs1, rs2, rs3, rm } | Instruction::FmaddQ {
            rd,
            rs1,
            rs2,
            rs3,
            rm,
        } => match eff_rm(m, rm) {
            Option::Some(e) => okf(
                m,
                rd,
                fp64_result(fma64_bits(mf(m, rs1), mf(m, rs2), mf(m, rs3), e)),
            ),
            Option::None => fault(m, Exception::IllegalInstruction),
        },
        Instruction::FmsubD { rd, rs1, rs2, rs3, rm } | Instruction::FmsubQ {
            rd,
            rs1,
            rs2,
            rs3,
            rm,
        } => match eff_rm(m, rm) {
            Option::Some(e) => okf(
                m,
                rd,
                fp64_result(fma64_bits(mf(m, rs1), mf(m, rs2), fneg64(mf(m, rs3)), e)),
            ),
            Option::None => fault(m, Exception::IllegalInstruction),
        },
        Instruction::FnmsubD { rd, rs1, rs2, rs3, rm } | Instruction::FnmsubQ {
            rd,
            rs1,
            rs2,
            rs3,
            rm,
        } => match eff_rm(m, rm) {
            Option::Some(e) => okf(
                m,
                rd,
                fp64_result(fma64_bits(fneg64(mf(m, rs1)), mf(m, rs2), mf(m, rs3), e)),
            ),
            Option::None => fault(m, Exception::IllegalInstruction),
        },
        Instruction::FnmaddD { rd, rs1, rs2, rs3, rm } | Instruction::FnmaddQ {
            rd,
            rs1,
            rs2,
            rs3,
            rm,
        } => match eff_rm(m, rm) {
            Option::Some(e) => okf(
                m,
                rd,
                fp64_result(fma64_bits(fneg64(mf(m, rs1)), mf(m, rs2), fneg64(mf(m, rs3)), e)),
            ),
            Option::None => fault(m, Exception::IllegalInstruction),
        },
        Instruction::FaddD { rd, rs1, rs2, rm } | Instruction::FaddQ { rd, rs1, rs2, rm } => match
        eff_rm(m, rm) {
            Option::Some(e) => okf(m, rd, fp64_result(fadd64_bits(mf(m, rs1), mf(m, rs2), e))),
            Option::None => fault(m, Exception::IllegalInstruction),
        },
        Instruction::FsubD { rd, rs1, rs2, rm } | Instruction::FsubQ { rd, rs1, rs2, rm } => match
        eff_rm(m, rm) {
            Option::Some(e) => okf(m, rd, fp64_result(fsub64_bits(mf(m, rs1), mf(m, rs2), e))),
            Option::None => fault(m, Exception::IllegalInstruction),
        },
        Instruction::FmulD { rd, rs1, rs2, rm } | Instruction::FmulQ { rd, rs1, rs2, rm } => match
        eff_rm(m, rm) {
            Option::Some(e) => okf(m, rd, fp64_result(fmul64_bits(mf(m, rs1), mf(m, rs2), e))),
            Option::None => fault(m, Exception::IllegalInstruction),
        },
        Instruction::FdivD { rd, rs1, rs2, rm } | Instruction::FdivQ { rd, rs1, rs2, rm } => match
        eff_rm(m, rm) {
            Option::Some(e) => okf(m, rd, fp64_result(fdiv64_bits(mf(m, rs1), mf(m, rs2), e))),
            Option::None => fault(m, Exception::IllegalInstruction),
        },
        Instruction::FsqrtD { rd, rs1, rm } | Instruction::FsqrtQ { rd, rs1, rm } => match eff_rm(
            m,
            rm,
        ) {
            Option::Some(e) => okf(m, rd, fp64_result(fsqrt64_bits(mf(m, rs1), e))),
            Option::None => fault(m, Exception::IllegalInstruction),
        },
        Instruction::FsgnjD { rd, rs1, rs2 } | Instruction::FsgnjQ { rd, rs1, rs2 } => okf(
            m,
            rd,
            sgnj64(mf(m, rs1), mf(m, rs2)),
        ),
        Instruction::FsgnjnD { rd, rs1, rs2 } | Instruction::FsgnjnQ { rd, rs1, rs2 } => okf(
            m,
            rd,
            sgnjn64(mf(m, rs1), mf(m, rs2)),
        ),
        Instruction::FsgnjxD { rd, rs1, rs2 } | Instruction::FsgnjxQ { rd, rs1, rs2 } => okf(
            m,
            rd,
            sgnjx64(mf(m, rs1), mf(m, rs2)),
        ),
        Instruction::FminD { rd, rs1, rs2 } | Instruction::FminQ { rd, rs1, rs2 } => okf(
            m,
            rd,
            fmin64(mf(m, rs1), mf(m, rs2)),
        ),
        Instruction::FmaxD { rd, rs1, rs2 } | Instruction::FmaxQ { rd, rs1, rs2 } => okf(
            m,
            rd,
            fmax64(mf(m, rs1), mf(m, rs2)),
        ),
        Instruction::FeqD { rd, rs1, rs2 } | Instruction::FeqQ { rd, rs1, rs2 } => okx(
            m,
            rd,
            if feq64(mf(m, rs1), mf(m, rs2)) {
                1
            } else {
                0
            },
        ),
        Instruction::FltD { rd, rs1, rs2 } | Instruction::FltQ { rd, rs1, rs2 } => {
            fcmp_signaling_step(
                m,
                rd,
                is_nan64(mf(m, rs1)) || is_nan64(mf(m, rs2)),
                if flt64(mf(m, rs1), mf(m, rs2)) {
                    1
                } else {
                    0
                },
            )
        },
        Instruction::FleD { rd, rs1, rs2 } | Instruction::FleQ { rd, rs1, rs2 } => {
            fcmp_signaling_step(
                m,
                rd,
                is_nan64(mf(m, rs1)) || is_nan64(mf(m, rs2)),
                if fle64(mf(m, rs1), mf(m, rs2)) {
                    1
                } else {
                    0
                },
            )
        },
        Instruction::FclassD { rd, rs1 } | Instruction::FclassQ { rd, rs1 } => okx(
            m,
            rd,
            fclass64(mf(m, rs1)),
        ),
        Instruction::FcvtWD { rd, rs1, rm } | Instruction::FcvtWQ { rd, rs1, rm } => match eff_rm(
            m,
            rm,
        ) {
            Option::Some(e) => {
                let a = mf(m, rs1);
                if is_nan64(a) {
                    okx(m, rd, 0x7FFF_FFFF)
                } else {
                    okx(m, rd, to_u64(sint_of_f64_bits(a, 32, e) as int))
                }
            },
            Option::None => fault(m, Exception::IllegalInstruction),
        },
        Instruction::FcvtWUD { rd, rs1, rm } | Instruction::FcvtWUQ { rd, rs1, rm } => match eff_rm(
            m,
            rm,
        ) {
            Option::Some(e) => {
                let a = mf(m, rs1);
                if is_nan64(a) {
                    okx(m, rd, 0xFFFF_FFFF_FFFF_FFFF)
                } else {
                    okx(m, rd, sext32s(to_u64(uint_of_f64_bits(a, 32, e) as int)))
                }
            },
            Option::None => fault(m, Exception::IllegalInstruction),
        },
        Instruction::FcvtLD { rd, rs1, rm } | Instruction::FcvtLQ { rd, rs1, rm } => match eff_rm(
            m,
            rm,
        ) {
            Option::Some(e) => {
                let a = mf(m, rs1);
                if is_nan64(a) {
                    okx(m, rd, 0x7FFF_FFFF_FFFF_FFFF)
                } else {
                    okx(m, rd, to_u64(sint_of_f64_bits(a, 64, e) as int))
                }
            },
            Option::None => fault(m, Exception::IllegalInstruction),
        },
        Instruction::FcvtLUD { rd, rs1, rm } | Instruction::FcvtLUQ { rd, rs1, rm } => match eff_rm(
            m,
            rm,
        ) {
            Option::Some(e) => {
                let a = mf(m, rs1);
                if is_nan64(a) {
                    okx(m, rd, 0xFFFF_FFFF_FFFF_FFFF)
                } else {
                    okx(m, rd, to_u64(uint_of_f64_bits(a, 64, e) as int))
                }
            },
            Option::None => fault(m, Exception::IllegalInstruction),
        },
        Instruction::FcvtDW { rd, rs1, rm } | Instruction::FcvtQW { rd, rs1, rm } => match eff_rm(
            m,
            rm,
        ) {
            Option::Some(e) => okf(m, rd, f64_of_sint_bits(s32(mx(m, rs1)) as i128, e)),
            Option::None => fault(m, Exception::IllegalInstruction),
        },
        Instruction::FcvtDWU { rd, rs1, rm } | Instruction::FcvtQWU { rd, rs1, rm } => match eff_rm(
            m,
            rm,
        ) {
            Option::Some(e) => okf(
                m,
                rd,
                f64_of_uint_bits((mx(m, rs1) % 0x1_0000_0000) as u128, e),
            ),
            Option::None => fault(m, Exception::IllegalInstruction),
        },
        Instruction::FcvtDL { rd, rs1, rm } | Instruction::FcvtQL { rd, rs1, rm } => match eff_rm(
            m,
            rm,
        ) {
            Option::Some(e) => okf(m, rd, f64_of_sint_bits(s64(mx(m, rs1)) as i128, e)),
            Option::None => fault(m, Exception::IllegalInstruction),
        },
        Instruction::FcvtDLU { rd, rs1, rm } | Instruction::FcvtQLU { rd, rs1, rm } => match eff_rm(
            m,
            rm,
        ) {
            Option::Some(e) => okf(m, rd, f64_of_uint_bits(mx(m, rs1) as u128, e)),
            Option::None => fault(m, Exception::IllegalInstruction),
        },
        Instruction::FmvXD { rd, rs1 } => okx(m, rd, mf(m, rs1)),
        Instruction::FmvDX { rd, rs1 } => okf(m, rd, mx(m, rs1)),
        Instruction::FcvtSQ { rd, rs1, rm } => match eff_rm(m, rm) {
            Option::Some(e) => okf(
                m,
                rd,
                nan_box32(fp32_result(f32_of_f64_bits(mf(m, rs1), e))),
            ),
            Option::None => fault(m, Exception::IllegalInstruction),
        },
        Instruction::FcvtQS { rd, rs1, rm } => okf(
            m,
            rd,
            fp64_result(f64_of_f32_bits(unbox32(mf(m, rs1)))),
        ),
        Instruction::FcvtDQ { rd, rs1, rm } | Instruction::FcvtQD { rd, rs1, rm } => okf(
            m,
            rd,
            fp64_result(mf(m, rs1)),
        ),
        _ => fault(m, Exception::IllegalInstruction),
    }
}

/// What one whole step does: fetch the word at the counter, decode it
/// under the table, and execute it; a fetch fault leaves the state
/// untouched.
pub open spec fn spec_step(m: MachView, t: EncodingTable) -> (MachView, Result<(), Exception>) {
    match spec_fetch(m) {
        Result::Ok(w) => spec_exec(m, spec_decode(w, t)),
        Result::Err(e) => (m, Result::Err(e)),
    }
}


impl SoftThread {
    /// Reads an integer register.
    fn xr(&self, r: u8) -> (v: u64)
        requires
            self.wf(),
            r < 32,
        ensures
            v == mx(self@, r),
    {
        self.registers[r as usize]
    }

    /// Reads a floating-point register.
    fn fr(&self, r: u8) -> (v: u64)
        requires
            self.wf(),
            r < 32,
        ensures
            v == mf(self@, r),
    {
        self.f_registers[r as usize]
    }

    /// Writes an integer register; x0 stays zero.
    fn wx(&mut self, rd: u8, v: u64)
        requires
            old(self).wf(),
            rd < 32,
        ensures
            final(self).wf(),
            final(self)@ == wr_x(old(self)@, rd, v),
            final(self).enc_table == old(self).enc_table,
    {
        if rd != 0 {
            self.registers[rd as usize] = v;
        }
        proof {
            assert(self@ =~= wr_x(old(self)@, rd, v));
        }
    }

    /// Writes a floating-point register.
    fn wfr(&mut self, rd: u8, v: u64)
        requires
            old(self).wf(),
            rd < 32,
        ensures
            final(self).wf(),
            final(self)@ == wr_f(old(self)@, rd, v),
            final(self).enc_table == old(self).enc_table,
    {
        self.f_registers[rd as usize] = v;
        proof {
            assert(self@ =~= wr_f(old(self)@, rd, v));
        }
    }

    /// Reads a CSR slot.
    fn csr_read(&self, c: u16) -> (v: u64)
        requires
            self.wf(),
            c < 4096,
        ensures
            v == self@.csr[c as int],
    {
        self.csr[c as usize]
    }

    /// Writes a CSR slot.
    fn csr_write(&mut self, c: u16, v: u64)
        requires
            old(self).wf(),
            c < 4096,
        ensures
            final(self).wf(),
            final(self)@ == wr_csr(old(self)@, c, v),
            final(self).enc_table == old(self).enc_table,
    {
        self.csr[c as usize] = v;
        proof {
            assert(self@ =~= wr_csr(old(self)@, c, v));
        }
    }

    /// Whether an address holds an outstanding reservation.
    fn res_has(&self, a: u64) -> (r: bool)
        ensures
            r == self@.res.contains(a),
    {
        let mut i: usize = 0;
        while i < self.res.len()
            invariant
                i <= self.res@.len(),
                forall|j: int| 0 <= j < i ==> self.res@[j] != a,
            decreases self.res@.len() - i,
        {
            if self.res[i] == a {
                return true;
            }
            i = i + 1;
        }
        false
    }

    /// Records a reservation for `a`, keeping entries unique.
    fn res_add(&mut self, a: u64)
        requires
            old(self).wf(),
        ensures
            final(self).wf(),
            final(self)@ == (MachView { res: res_insert(old(self)@.res, a), ..old(self)@ }),
            final(self).enc_table == old(self).enc_table,
    {
        if !self.res_has(a) {
            self.res.push(a);
        }
        proof {
            assert(self@ =~= (MachView { res: res_insert(old(self)@.res, a), ..old(self)@ }));
        }
    }

    /// Removes the exact entries for `a`, as a failed store-conditional
    /// does.
    fn res_remove_exact(&mut self, a: u64)
        requires
            old(self).wf(),
        ensures
            final(self).wf(),
            final(self)@ == (MachView { res: res_drop(old(self)@.res, a), ..old(self)@ }),
            final(self).enc_table == old(self).enc_table,
    {
        let ghost all = self.res@;
        let mut out: Vec<u64> = Vec::new();
        let mut i: usize = 0;
        while i < self.res.len()
            invariant
                i <= all.len(),
                self.res@ == all,
                out@ == res_drop(all.take(i as int), a),
            decreases all.len() - i,
        {
            proof {
                reveal(Seq::filter);
                assert(all.take(i + 1).drop_last() =~= all.take(i as int));
                assert(all.take(i + 1).last() == all[i as int]);
            }
            if self.res[i] != a {
                out.push(self.res[i]);
            }
            i = i + 1;
        }
        proof {
            assert(all.take(all.len() as int) =~= all);
        }
        self.res = out;
        proof {
            assert(self@ =~= (MachView { res: res_drop(old(self)@.res, a), ..old(self)@ }));
        }
    }

    /// Removes every reservation whose block a store of `n` bytes at `a`
    /// touches.
    fn res_remove_range(&mut self, a: u64, n: u64)
        requires
            old(self).wf(),
            1 <= n <= 8,
        ensures
            final(self).wf(),
            final(self)@ == (MachView { res: res_clear(old(self)@.res, a, n as nat), ..old(self)@ }),
            final(self).enc_table == old(self).enc_table,
    {
        let ghost all = self.res@;
        let mut out: Vec<u64> = Vec::new();
        let mut i: usize = 0;
        while i < self.res.len()
            invariant
                i <= all.len(),
                self.res@ == all,
                1 <= n <= 8,
                out@ == res_clear(all.take(i as int), a, n as nat),
            decreases all.len() - i,
        {
            proof {
                reveal(Seq::filter);
                assert(all.take(i + 1).drop_last() =~= all.take(i as int));
                assert(all.take(i + 1).last() == all[i as int]);
            }
            let r = self.res[i];
            let base = r - r % 8;
            let c1 = if base >= a {
                base - a < n
            } else {
                true
            };
            let c2 = a < base || a - base < 8;
            proof {
                assert((c1 && c2) == res_overlaps(r, a, n as nat));
            }
            if !(c1 && c2) {
                out.push(r);
            }
            i = i + 1;
        }
        proof {
            assert(all.take(all.len() as int) =~= all);
        }
        self.res = out;
        proof {
            assert(self@ =~= (MachView { res: res_clear(old(self)@.res, a, n as nat), ..old(self)@
            }));
        }
    }
}

impl SoftThread {
    /// One conditional-branch step.
    fn do_branch(&mut self, taken: bool, imm: u64) -> (r: Result<(), Exception>)
        requires
            old(self).wf(),
        ensures
            final(self).wf(),
            ({
                let (m2, r2) = branch(old(self)@, taken, imm);
                final(self)@ == m2 && r == r2
            }),
            final(self).enc_table == old(self).enc_table,
    {
        if taken {
            let t = u64_wadd(self.pc, imm);
            if t % 4 == 0 {
                self.pc = t;
                proof {
                    assert(self@ =~= (MachView { pc: t, ..old(self)@ }));
                }
                Ok(())
            } else {
                Err(Exception::InstructionAddressMisaligned)
            }
        } else {
            self.advance();
            Ok(())
        }
    }

    /// Executes the upper-immediate and jump forms.
    fn exec_jump(&mut self, i: Instruction) -> (r: Result<(), Exception>)
        requires
            old(self).wf(),
            crate::instructions::wf_inst(i),
            i is Lui || i is Auipc || i is Jal || i is Jalr,
        ensures
            final(self).wf(),
            ({
                let (m2, r2) = spec_exec(old(self)@, i);
                final(self)@ == m2 && r == r2
            }),
            final(self).enc_table == old(self).enc_table,
    {
        match i {
            Instruction::Lui { rd, imm } => {
                self.wx(rd, imm);
                self.advance();
                Ok(())
            },
            Instruction::Auipc { rd, imm } => {
                let v = u64_wadd(self.pc, imm);
                self.wx(rd, v);
                self.advance();
                Ok(())
            },
            Instruction::Jal { rd, imm } => {
                let t = u64_wadd(self.pc, imm);
                if t % 4 == 0 {
                    let link = u64_wadd(self.pc, 4);
                    self.wx(rd, link);
                    self.pc = t;
                    proof {
                        assert(self@ =~= (MachView {
                            pc: t,
                            ..wr_x(old(self)@, rd, wadd(old(self)@.pc, 4))
                        }));
                    }
                    Ok(())
                } else {
                    Err(Exception::InstructionAddressMisaligned)
                }
            },
            Instruction::Jalr { rd, rs1, imm } => {
                let t0 = u64_wadd(self.xr(rs1), imm);
                let t = t0 - t0 % 2;
                if t % 4 == 0 {
                    let link = u64_wadd(self.pc, 4);
                    self.wx(rd, link);
                    self.pc = t;
                    proof {
                        assert(self@ =~= (MachView {
                            pc: t,
                            ..wr_x(old(self)@, rd, wadd(old(self)@.pc, 4))
                        }));
                    }
                    Ok(())
                } else {
                    Err(Exception::InstructionAddressMisaligned)
                }
            },
            _ => {
                proof {
                    assert(false);
                }
                Err(Exception::IllegalInstruction)
            },
        }
    }

    /// Executes the conditional branches.
    fn exec_branch(&mut self, i: Instruction) -> (r: Result<(), Exception>)
        requires
            old(self).wf(),
            crate::instructions::wf_inst(i),
            i is Beq || i is Bne || i is Blt || i is Bge || i is Bltu || i is Bgeu,
        ensures
            final(self).wf(),
            ({
                let (m2, r2) = spec_exec(old(self)@, i);
                final(self)@ == m2 && r == r2
            }),
            final(self).enc_table == old(self).enc_table,
    {
        match i {
            Instruction::Beq { rs1, rs2, imm } => {
                let t = self.xr(rs1) == self.xr(rs2);
                self.do_branch(t, imm)
            },
            Instruction::Bne { rs1, rs2, imm } => {
                let t = self.xr(rs1) != self.xr(rs2);
                self.do_branch(t, imm)
            },
            Instruction::Blt { rs1, rs2, imm } => {
                let t = signed_lt(self.xr(rs1), self.xr(rs2));
                self.do_branch(t, imm)
            },
            Instruction::Bge { rs1, rs2, imm } => {
                let t = !signed_lt(self.xr(rs1), self.xr(rs2));
                self.do_branch(t, imm)
            },
            Instruction::Bltu { rs1, rs2, imm } => {
                let t = self.xr(rs1) < self.xr(rs2);
                self.do_branch(t, imm)
            },
            Instruction::Bgeu { rs1, rs2, imm } => {
                let t = self.xr(rs1) >= self.xr(rs2);
                self.do_branch(t, imm)
            },
            _ => {
                proof {
                    assert(false);
                }
                Err(Exception::IllegalInstruction)
            },
        }
    }

    /// Executes the register-immediate arithmetic forms, 64- and 32-bit.
    fn exec_alu_imm(&mut self, i: Instruction) -> (r: Result<(), Exception>)
        requires
            old(self).wf(),
            crate::instructions::wf_inst(i),
            i is Addi || i is Slti || i is Sltiu || i is Xori || i is Ori || i is Andi || i is Slli
                || i is Srli || i is Srai || i is Addiw || i is Slliw || i is Srliw || i is Sraiw,
        ensures
            final(self).wf(),
            ({
                let (m2, r2) = spec_exec(old(self)@, i);
                final(self)@ == m2 && r == r2
            }),
            final(self).enc_table == old(self).enc_table,
    {
        match i {
            Instruction::Addi { rd, rs1, imm } => {
                let v = u64_wadd(self.xr(rs1), imm);
                self.wx(rd, v);
                self.advance();
                Ok(())
            },
            Instruction::Slti { rd, rs1, imm } => {
                let v: u64 = if signed_lt(self.xr(rs1), imm) {
                    1
                } else {
                    0
                };
                self.wx(rd, v);
                self.advance();
                Ok(())
            },
            Instruction::Sltiu { rd, rs1, imm } => {
                let v: u64 = if self.xr(rs1) < imm {
                    1
                } else {
                    0
                };
                self.wx(rd, v);
                self.advance();
                Ok(())
            },
            Instruction::Xori { rd, rs1, imm } => {
                let v = self.xr(rs1) ^ imm;
                self.wx(rd, v);
                self.advance();
                Ok(())
            },
            Instruction::Ori { rd, rs1, imm } => {
                let v = self.xr(rs1) | imm;
                self.wx(rd, v);
                self.advance();
                Ok(())
            },
            Instruction::Andi { rd, rs1, imm } => {
                let v = self.xr(rs1) & imm;
                self.wx(rd, v);
                self.advance();
                Ok(())
            },
            Instruction::Slli { rd, rs1, shamt } => {
                let v = self.xr(rs1) << shamt;
                self.wx(rd, v);
                self.advance();
                Ok(())
            },
            Instruction::Srli { rd, rs1, shamt } => {
                let v = self.xr(rs1) >> shamt;
                self.wx(rd, v);
                self.advance();
                Ok(())
            },
            Instruction::Srai { rd, rs1, shamt } => {
                let v = ((self.xr(rs1) as i64) >> shamt) as u64;
                self.wx(rd, v);
                self.advance();
                Ok(())
            },
            Instruction::Addiw { rd, rs1, imm } => {
                let v = sextw(u64_wadd(self.xr(rs1), imm));
                self.wx(rd, v);
                self.advance();
                Ok(())
            },
            Instruction::Slliw { rd, rs1, shamt } => {
                let v = sext32((((self.xr(rs1) % 0x1_0000_0000) as u32) << shamt) as u64);
                self.wx(rd, v);
                self.advance();
                Ok(())
            },
            Instruction::Srliw { rd, rs1, shamt } => {
                let v = sext32((((self.xr(rs1) % 0x1_0000_0000) as u32) >> shamt) as u64);
                self.wx(rd, v);
                self.advance();
                Ok(())
            },
            Instruction::Sraiw { rd, rs1, shamt } => {
                let v = sext32(
                    (((((self.xr(rs1) % 0x1_0000_0000) as u32) as i32) >> shamt) as u32) as u64,
                );
                self.wx(rd, v);
                self.advance();
                Ok(())
            },
            _ => {
                proof {
                    assert(false);
                }
                Err(Exception::IllegalInstruction)
            },
        }
    }

    /// Executes the register-register arithmetic forms, 64- and 32-bit.
    fn exec_alu_reg(&mut self, i: Instruction) -> (r: Result<(), Exception>)
        requires
            old(self).wf(),
            crate::instructions::wf_inst(i),
            i is Add || i is Sub || i is Sll || i is Slt || i is Sltu || i is Xor || i is Srl
                || i is Sra || i is Or || i is And || i is Addw || i is Subw || i is Sllw
                || i is Srlw || i is Sraw,
        ensures
            final(self).wf(),
            ({
                let (m2, r2) = spec_exec(old(self)@, i);
                final(self)@ == m2 && r == r2
            }),
            final(self).enc_table == old(self).enc_table,
    {
        match i {
            Instruction::Add { rd, rs1, rs2 } => {
                let v = u64_wadd(self.xr(rs1), self.xr(rs2));
                self.wx(rd, v);
                self.advance();
                Ok(())
            },
            Instruction::Sub { rd, rs1, rs2 } => {
                let v = u64_wsub(self.xr(rs1), self.xr(rs2));
                self.wx(rd, v);
                self.advance();
                Ok(())
            },
            Instruction::Sll { rd, rs1, rs2 } => {
                let v = self.xr(rs1) << (self.xr(rs2) % 64);
                self.wx(rd, v);
                self.advance();
                Ok(())
            },
            Instruction::Slt { rd, rs1, rs2 } => {
                let v: u64 = if signed_lt(self.xr(rs1), self.xr(rs2)) {
                    1
                } else {
                    0
                };
                self.wx(rd, v);
                self.advance();
                Ok(())
            },
            Instruction::Sltu { rd, rs1, rs2 } => {
                let v: u64 = if self.xr(rs1) < self.xr(rs2) {
                    1
                } else {
                    0
                };
                self.wx(rd, v);
                self.advance();
                Ok(())
            },
            Instruction::Xor { rd, rs1, rs2 } => {
                let v = self.xr(rs1) ^ self.xr(rs2);
                self.wx(rd, v);
                self.advance();
                Ok(())
            },
            Instruction::Srl { rd, rs1, rs2 } => {
                let v = self.xr(rs1) >> (self.xr(rs2) % 64);
                self.wx(rd, v);
                self.advance();
                Ok(())
            },
            Instruction::Sra { rd, rs1, rs2 } => {
                let v = ((self.xr(rs1) as i64) >> (self.xr(rs2) % 64)) as u64;
                self.wx(rd, v);
                self.advance();
                Ok(())
            },
            Instruction::Or { rd, rs1, rs2 } => {
                let v = self.xr(rs1) | self.xr(rs2);
                self.wx(rd, v);
                self.advance();
                Ok(())
            },
            Instruction::And { rd, rs1, rs2 } => {
                let v = self.xr(rs1) & self.xr(rs2);
                self.wx(rd, v);
                self.advance();
                Ok(())
            },
            Instruction::Addw { rd, rs1, rs2 } => {
                let v = sextw(u64_wadd(self.xr(rs1), self.xr(rs2)));
                self.wx(rd, v);
                self.advance();
                Ok(())
            },
            Instruction::Subw { rd, rs1, rs2 } => {
                let v = sextw(u64_wsub(self.xr(rs1), self.xr(rs2)));
                self.wx(rd, v);
                self.advance();
                Ok(())
            },
            Instruction::Sllw { rd, rs1, rs2 } => {
                let v = sext32(
                    (((self.xr(rs1) % 0x1_0000_0000) as u32) << (self.xr(rs2) % 32)) as u64,
                );
                self.wx(rd, v);
                self.advance();
                Ok(())
            },
            Instruction::Srlw { rd, rs1, rs2 } => {
                let v = sext32(
                    (((self.xr(rs1) % 0x1_0000_0000) as u32) >> (self.xr(rs2) % 32)) as u64,
                );
                self.wx(rd, v);
                self.advance();
                Ok(())
            },
            Instruction::Sraw { rd, rs1, rs2 } => {
                let v = sext32(
                    (((((self.xr(rs1) % 0x1_0000_0000) as u32) as i32) >> (self.xr(rs2) % 32))
                        as u32) as u64,
                );
                self.wx(rd, v);
                self.advance();
                Ok(())
            },
            _ => {
                proof {
                    assert(false);
                }
                Err(Exception::IllegalInstruction)
            },
        }
    }

    /// Executes the multiply and divide family.
    fn exec_muldiv(&mut self, i: Instruction) -> (r: Result<(), Exception>)
        requires
            old(self).wf(),
            crate::instructions::wf_inst(i),
            i is Mul || i is Mulh || i is Mulhsu || i is Mulhu || i is Div || i is Divu || i is Rem
                || i is Remu || i is Mulw || i is Divw || i is Divuw || i is Remw || i is Remuw,
        ensures
            final(self).wf(),
            ({
                let (m2, r2) = spec_exec(old(self)@, i);
                final(self)@ == m2 && r == r2
            }),
            final(self).enc_table == old(self).enc_table,
    {
        match i {
            Instruction::Mul { rd, rs1, rs2 } => {
                let v = u64_wmul(self.xr(rs1), self.xr(rs2));
                self.wx(rd, v);
                self.advance();
                Ok(())
            },
            Instruction::Mulh { rd, rs1, rs2 } => {
                let v = mulh(self.xr(rs1), self.xr(rs2));
                self.wx(rd, v);
                self.advance();
                Ok(())
            },
            Instruction::Mulhsu { rd, rs1, rs2 } => {
                let v = mulhsu(self.xr(rs1), self.xr(rs2));
                self.wx(rd, v);
                self.advance();
                Ok(())
            },
            Instruction::Mulhu { rd, rs1, rs2 } => {
                let v = mulhu(self.xr(rs1), self.xr(rs2));
                self.wx(rd, v);
                self.advance();
                Ok(())
            },
            Instruction::Div { rd, rs1, rs2 } => {
                let v = div64(self.xr(rs1), self.xr(rs2));
                self.wx(rd, v);
                self.advance();
                Ok(())
            },
            Instruction::Divu { rd, rs1, rs2 } => {
                let v = divu64(self.xr(rs1), self.xr(rs2));
                self.wx(rd, v);
                self.advance();
                Ok(())
            },
            Instruction::Rem { rd, rs1, rs2 } => {
                let v = rem64(self.xr(rs1), self.xr(rs2));
                self.wx(rd, v);
                self.advance();
                Ok(())
            },
            Instruction::Remu { rd, rs1, rs2 } => {
                let v = remu64(self.xr(rs1), self.xr(rs2));
                self.wx(rd, v);
                self.advance();
                Ok(())
            },
            Instruction::Mulw { rd, rs1, rs2 } => {
                let v = mulw(self.xr(rs1), self.xr(rs2));
                self.wx(rd, v);
                self.advance();
                Ok(())
            },
            Instruction::Divw { rd, rs1, rs2 } => {
                let v = divw(self.xr(rs1), self.xr(rs2));
                self.wx(rd, v);
                self.advance();
                Ok(())
            },
            Instruction::Divuw { rd, rs1, rs2 } => {
                let v = divuw(self.xr(rs1), self.xr(rs2));
                self.wx(rd, v);
                self.advance();
                Ok(())
            },
            Instruction::Remw { rd, rs1, rs2 } => {
                let v = remw(self.xr(rs1), self.xr(rs2));
                self.wx(rd, v);
                self.advance();
                Ok(())
            },
            Instruction::Remuw { rd, rs1, rs2 } => {
                let v = remuw(self.xr(rs1), self.xr(rs2));
                self.wx(rd, v);
                self.advance();
                Ok(())
            },
            _ => {
                proof {
                    assert(false);
                }
                Err(Exception::IllegalInstruction)
            },
        }
    }

    /// Executes the fence and environment forms. Fences are no-ops on this
    /// in-order single-HART model; ECALL and EBREAK suspend the HART
    /// without advancing the counter.
    fn exec_system(&mut self, i: Instruction) -> (r: Result<(), Exception>)
        requires
            old(self).wf(),
            crate::instructions::wf_inst(i),
            i is Fence || i is FenceI || i is Ecall || i is Ebreak,
        ensures
            final(self).wf(),
            ({
                let (m2, r2) = spec_exec(old(self)@, i);
                final(self)@ == m2 && r == r2
            }),
            final(self).enc_table == old(self).enc_table,
    {
        match i {
            Instruction::Fence { .. } => {
                self.advance();
                Ok(())
            },
            Instruction::FenceI { .. } => {
                self.advance();
                Ok(())
            },
            Instruction::Ecall => Err(Exception::EnvironmentCall),
            Instruction::Ebreak => Err(Exception::Breakpoint),
            _ => {
                proof {
                    assert(false);
                }
                Err(Exception::IllegalInstruction)
            },
        }
    }

    /// Executes the Zicsr read-modify-write forms, with the read-only
    /// check on the index's top two bits.
    fn exec_csr(&mut self, i: Instruction) -> (r: Result<(), Exception>)
        requires
            old(self).wf(),
            crate::instructions::wf_inst(i),
            i is Csrrw || i is Csrrs || i is Csrrc || i is Csrrwi || i is Csrrsi || i is Csrrci,
        ensures
            final(self).wf(),
            ({
                let (m2, r2) = spec_exec(old(self)@, i);
                final(self)@ == m2 && r == r2
            }),
            final(self).enc_table == old(self).enc_table,
    {
        match i {
            Instruction::Csrrw { rd, rs1, csr } => {
                if csr / 0x400 == 3 {
                    Err(Exception::IllegalInstruction)
                } else {
                    let old_v = self.csr_read(csr);
                    let x = self.xr(rs1);
                    self.csr_write(csr, x);
                    self.wx(rd, old_v);
                    self.advance();
                    Ok(())
                }
            },
            Instruction::Csrrs { rd, rs1, csr } => {
                if rs1 == 0 {
                    let old_v = self.csr_read(csr);
                    self.wx(rd, old_v);
                    self.advance();
                    Ok(())
                } else if csr / 0x400 == 3 {
                    Err(Exception::IllegalInstruction)
                } else {
                    let old_v = self.csr_read(csr);
                    let x = self.xr(rs1);
                    self.csr_write(csr, old_v | x);
                    self.wx(rd, old_v);
                    self.advance();
                    Ok(())
                }
            },
            Instruction::Csrrc { rd, rs1, csr } => {
                if rs1 == 0 {
                    let old_v = self.csr_read(csr);
                    self.wx(rd, old_v);
                    self.advance();
                    Ok(())
                } else if csr / 0x400 == 3 {
                    Err(Exception::IllegalInstruction)
                } else {
                    let old_v = self.csr_read(csr);
                    let x = self.xr(rs1);
                    self.csr_write(csr, old_v & !x);
                    self.wx(rd, old_v);
                    self.advance();
                    Ok(())
                }
            },
            Instruction::Csrrwi { rd, uimm, csr } => {
                if csr / 0x400 == 3 {
                    Err(Exception::IllegalInstruction)
                } else {
                    let old_v = self.csr_read(csr);
                    self.csr_write(csr, uimm as u64);
                    self.wx(rd, old_v);
                    self.advance();
                    Ok(())
                }
            },
            Instruction::Csrrsi { rd, uimm, csr } => {
                if uimm == 0 {
                    let old_v = self.csr_read(csr);
                    self.wx(rd, old_v);
                    self.advance();
                    Ok(())
                } else if csr / 0x400 == 3 {
                    Err(Exception::IllegalInstruction)
                } else {
                    let old_v = self.csr_read(csr);
                    self.csr_write(csr, old_v | (uimm as u64));
                    self.wx(rd, old_v);
                    self.advance();
                    Ok(())
                }
            },
            Instruction::Csrrci { rd, uimm, csr } => {
                if uimm == 0 {
                    let old_v = self.csr_read(csr);
                    self.wx(rd, old_v);
                    self.advance();
                    Ok(())
                } else if csr / 0x400 == 3 {
                    Err(Exception::IllegalInstruction)
                } else {
                    let old_v = self.csr_read(csr);
                    self.csr_write(csr, old_v & !(uimm as u64));
                    self.wx(rd, old_v);
                    self.advance();
                    Ok(())
                }
            },
            _ => {
                proof {
                    assert(false);
                }
                Err(Exception::IllegalInstruction)
            },
        }
    }
}

impl SoftThread {
    /// Executes the integer loads.
    fn exec_load(&mut self, i: Instruction) -> (r: Result<(), Exception>)
        requires
            old(self).wf(),
            crate::instructions::wf_inst(i),
            i is Lb || i is Lh || i is Lw || i is Ld || i is Lbu || i is Lhu || i is Lwu,
        ensures
            final(self).wf(),
            ({
                let (m2, r2) = spec_exec(old(self)@, i);
                final(self)@ == m2 && r == r2
            }),
            final(self).enc_table == old(self).enc_table,
    {
        match i {
            Instruction::Lb { rd, rs1, imm } => {
                let a = u64_wadd(self.xr(rs1), imm);
                match self.bus.read(a, 8) {
                    Ok(v) => {
                        let x = sextb(v);
                        self.wx(rd, x);
                        self.advance();
                        Ok(())
                    },
                    Err(e) => Err(e),
                }
            },
            Instruction::Lh { rd, rs1, imm } => {
                let a = u64_wadd(self.xr(rs1), imm);
                match self.bus.read(a, 16) {
                    Ok(v) => {
                        let x = sexth(v);
                        self.wx(rd, x);
                        self.advance();
                        Ok(())
                    },
                    Err(e) => Err(e),
                }
            },
            Instruction::Lw { rd, rs1, imm } => {
                let a = u64_wadd(self.xr(rs1), imm);
                match self.bus.read(a, 32) {
                    Ok(v) => {
                        let x = sextw(v);
                        self.wx(rd, x);
                        self.advance();
                        Ok(())
                    },
                    Err(e) => Err(e),
                }
            },
            Instruction::Ld { rd, rs1, imm } => {
                let a = u64_wadd(self.xr(rs1), imm);
                match self.bus.read(a, 64) {
                    Ok(v) => {
                        self.wx(rd, v);
                        self.advance();
                        Ok(())
                    },
                    Err(e) => Err(e),
                }
            },
            Instruction::Lbu { rd, rs1, imm } => {
                let a = u64_wadd(self.xr(rs1), imm);
                match self.bus.read(a, 8) {
                    Ok(v) => {
                        self.wx(rd, v);
                        self.advance();
                        Ok(())
                    },
                    Err(e) => Err(e),
                }
            },
            Instruction::Lhu { rd, rs1, imm } => {
                let a = u64_wadd(self.xr(rs1), imm);
                match self.bus.read(a, 16) {
                    Ok(v) => {
                        self.wx(rd, v);
                        self.advance();
                        Ok(())
                    },
                    Err(e) => Err(e),
                }
            },
            Instruction::Lwu { rd, rs1, imm } => {
                let a = u64_wadd(self.xr(rs1), imm);
                match self.bus.read(a, 32) {
                    Ok(v) => {
                        self.wx(rd, v);
                        self.advance();
                        Ok(())
                    },
                    Err(e) => Err(e),
                }
            },
            _ => {
                proof {
                    assert(false);
                }
                Err(Exception::IllegalInstruction)
            },
        }
    }

    /// One store step: write, invalidate overlapped reservations, advance.
    fn do_store(&mut self, a: u64, bits: u32, v: u64) -> (r: Result<(), Exception>)
        requires
            old(self).wf(),
            bits == 8 || bits == 16 || bits == 32 || bits == 64,
        ensures
            final(self).wf(),
            ({
                let (m2, r2) = store_step(old(self)@, a, (bits / 8) as nat, v);
                final(self)@ == m2 && r == r2
            }),
            final(self).enc_table == old(self).enc_table,
    {
        match self.bus.write(a, v, bits) {
            Ok(()) => {
                self.res_remove_range(a, (bits / 8) as u64);
                self.advance();
                proof {
                    assert(self@ =~= (MachView {
                        mem: write_le(old(self)@.mem, a as int, (bits / 8) as nat, v),
                        res: res_clear(old(self)@.res, a, (bits / 8) as nat),
                        ..adv(old(self)@)
                    }));
                }
                Ok(())
            },
            Err(e) => Err(e),
        }
    }

    /// Executes the integer and floating-point stores.
    fn exec_store(&mut self, i: Instruction) -> (r: Result<(), Exception>)
        requires
            old(self).wf(),
            crate::instructions::wf_inst(i),
            i is Sb || i is Sh || i is Sw || i is Sd || i is Fsw || i is Fsd || i is Fsq,
        ensures
            final(self).wf(),
            ({
                let (m2, r2) = spec_exec(old(self)@, i);
                final(self)@ == m2 && r == r2
            }),
            final(self).enc_table == old(self).enc_table,
    {
        match i {
            Instruction::Sb { rs1, rs2, imm } => {
                let a = u64_wadd(self.xr(rs1), imm);
                let v = self.xr(rs2);
                self.do_store(a, 8, v)
            },
            Instruction::Sh { rs1, rs2, imm } => {
                let a = u64_wadd(self.xr(rs1), imm);
                let v = self.xr(rs2);
                self.do_store(a, 16, v)
            },
            Instruction::Sw { rs1, rs2, imm } => {
                let a = u64_wadd(self.xr(rs1), imm);
                let v = self.xr(rs2);
                self.do_store(a, 32, v)
            },
            Instruction::Sd { rs1, rs2, imm } => {
                let a = u64_wadd(self.xr(rs1), imm);
                let v = self.xr(rs2);
                self.do_store(a, 64, v)
            },
            Instruction::Fsw { rs1, rs2, imm } => {
                let a = u64_wadd(self.xr(rs1), imm);
                let v = self.fr(rs2);
                self.do_store(a, 32, v)
            },
            Instruction::Fsd { rs1, rs2, imm } => {
                let a = u64_wadd(self.xr(rs1), imm);
                let v = self.fr(rs2);
                self.do_store(a, 64, v)
            },
            Instruction::Fsq { rs1, rs2, imm } => {
                let a = u64_wadd(self.xr(rs1), imm);
                let v = self.fr(rs2);
                self.do_store(a, 64, v)
            },
            _ => {
                proof {
                    assert(false);
                }
                Err(Exception::IllegalInstruction)
            },
        }
    }

    /// Executes the floating-point loads.
    fn exec_fp_load(&mut self, i: Instruction) -> (r: Result<(), Exception>)
        requires
            old(self).wf(),
            crate::instructions::wf_inst(i),
            i is Flw || i is Fld || i is Flq,
        ensures
            final(self).wf(),
            ({
                let (m2, r2) = spec_exec(old(self)@, i);
                final(self)@ == m2 && r == r2
            }),
            final(self).enc_table == old(self).enc_table,
    {
        match i {
            Instruction::Flw { rd, rs1, imm } => {
                let a = u64_wadd(self.xr(rs1), imm);
                match self.bus.read(a, 32) {
                    Ok(v) => {
                        let b = box32(v);
                        self.wfr(rd, b);
                        self.advance();
                        Ok(())
                    },
                    Err(e) => Err(e),
                }
            },
            Instruction::Fld { rd, rs1, imm } => {
                let a = u64_wadd(self.xr(rs1), imm);
                match self.bus.read(a, 64) {
                    Ok(v) => {
                        self.wfr(rd, v);
                        self.advance();
                        Ok(())
                    },
                    Err(e) => Err(e),
                }
            },
            Instruction::Flq { rd, rs1, imm } => {
                let a = u64_wadd(self.xr(rs1), imm);
                match self.bus.read(a, 64) {
                    Ok(v) => {
                        self.wfr(rd, v);
                        self.advance();
                        Ok(())
                    },
                    Err(e) => Err(e),
                }
            },
            _ => {
                proof {
                    assert(false);
                }
                Err(Exception::IllegalInstruction)
            },
        }
    }

    /// One atomic read-modify-write; `stv` was computed from the loaded
    /// word `w` and the operand register by the caller.
    fn do_amo(&mut self, rd: u8, a: u64, bits: u32, w: u64, old_ext: u64, stv: u64) -> (r: Result<
        (),
        Exception,
    >)
        requires
            old(self).wf(),
            rd < 32,
            bits == 32 || bits == 64,
            in_range(old(self)@.mem.len(), a, (bits / 8) as nat),
            w == ld(old(self)@, a, (bits / 8) as nat),
        ensures
            final(self).wf(),
            ({
                let (m2, r2) = amo_step(old(self)@, rd, a, (bits / 8) as nat, old_ext, stv);
                final(self)@ == m2 && r == r2
            }),
            final(self).enc_table == old(self).enc_table,
    {
        match self.bus.write(a, stv, bits) {
            Ok(()) => {
                self.res_remove_range(a, (bits / 8) as u64);
                self.wx(rd, old_ext);
                self.advance();
                proof {
                    assert(self@ =~= adv(
                        wr_x(
                            MachView {
                                mem: write_le(old(self)@.mem, a as int, (bits / 8) as nat, stv),
                                res: res_clear(old(self)@.res, a, (bits / 8) as nat),
                                ..old(self)@
                            },
                            rd,
                            old_ext,
                        ),
                    ));
                }
                Ok(())
            },
            Err(e) => {
                proof {
                    assert(false);
                }
                Err(e)
            },
        }
    }

    /// Executes the word-sized load-reserved and store-conditional.
    #[verifier::rlimit(100)]
    fn exec_lr_sc_w(&mut self, i: Instruction) -> (r: Result<(), Exception>)
        requires
            old(self).wf(),
            crate::instructions::wf_inst(i),
            i is LrW || i is ScW,
        ensures
            final(self).wf(),
            ({
                let (m2, r2) = spec_exec(old(self)@, i);
                final(self)@ == m2 && r == r2
            }),
            final(self).enc_table == old(self).enc_table,
    {
        match i {
            Instruction::LrW { rd, rs1, .. } => {
                let a = self.xr(rs1);
                if a % 4 != 0 {
                    return Err(Exception::LoadAddressMisaligned);
                }
                match self.bus.read(a, 32) {
                    Ok(v) => {
                        self.res_add(a);
                        let x = sextw(v);
                        self.wx(rd, x);
                        self.advance();
                        proof {
                            assert(self@ =~= adv(
                                wr_x(
                                    MachView { res: res_insert(old(self)@.res, a), ..old(self)@ },
                                    rd,
                                    sext32s(ld(old(self)@, a, 4)),
                                ),
                            ));
                        }
                        Ok(())
                    },
                    Err(e) => Err(e),
                }
            },
            Instruction::ScW { rd, rs1, rs2, .. } => {
                let a = self.xr(rs1);
                if a % 4 != 0 {
                    return Err(Exception::StoreAddressMisaligned);
                }
                if self.res_has(a) {
                    let v = self.xr(rs2);
                    match self.bus.write(a, v, 32) {
                        Ok(()) => {
                            self.res_remove_range(a, 4);
                            self.wx(rd, 0);
                            self.advance();
                            proof {
                                assert(self@ =~= adv(
                                    wr_x(
                                        MachView {
                                            mem: write_le(old(self)@.mem, a as int, 4, v),
                                            res: res_clear(old(self)@.res, a, 4),
                                            ..old(self)@
                                        },
                                        rd,
                                        0,
                                    ),
                                ));
                            }
                            Ok(())
                        },
                        Err(e) => Err(e),
                    }
                } else {
                    self.res_remove_exact(a);
                    self.wx(rd, 1);
                    self.advance();
                    proof {
                        assert(self@ =~= adv(
                            wr_x(
                                MachView { res: res_drop(old(self)@.res, a), ..old(self)@ },
                                rd,
                                1,
                            ),
                        ));
                    }
                    Ok(())
                }
            },
            _ => {
                proof {
                    assert(false);
                }
                Err(Exception::IllegalInstruction)
            },
        }
    }

    /// Executes the word-sized atomic read-modify-writes.
    #[verifier::rlimit(100)]
    fn exec_amo_w(&mut self, i: Instruction) -> (r: Result<(), Exception>)
        requires
            old(self).wf(),
            crate::instructions::wf_inst(i),
            i is AmoswapW || i is AmoaddW || i is AmoxorW || i is AmoandW || i is AmoorW
                || i is AmominW || i is AmomaxW || i is AmominuW || i is AmomaxuW,
        ensures
            final(self).wf(),
            ({
                let (m2, r2) = spec_exec(old(self)@, i);
                final(self)@ == m2 && r == r2
            }),
            final(self).enc_table == old(self).enc_table,
    {
        match i {
            Instruction::AmoswapW { rd, rs1, rs2, .. } => {
                let a = self.xr(rs1);
                if a % 4 != 0 {
                    return Err(Exception::StoreAddressMisaligned);
                }
                let b = self.xr(rs2);
                match self.bus.read(a, 32) {
                    Ok(w) => {
                        let x = sextw(w);
                        self.do_amo(rd, a, 32, w, x, b)
                    },
                    Err(_) => Err(Exception::StoreAccessFault),
                }
            },
            Instruction::AmoaddW { rd, rs1, rs2, .. } => {
                let a = self.xr(rs1);
                if a % 4 != 0 {
                    return Err(Exception::StoreAddressMisaligned);
                }
                let b = self.xr(rs2);
                match self.bus.read(a, 32) {
                    Ok(w) => {
                        let x = sextw(w);
                        let stv = u64_wadd(w, b);
                        self.do_amo(rd, a, 32, w, x, stv)
                    },
                    Err(_) => Err(Exception::StoreAccessFault),
                }
            },
            Instruction::AmoxorW { rd, rs1, rs2, .. } => {
                let a = self.xr(rs1);
                if a % 4 != 0 {
                    return Err(Exception::StoreAddressMisaligned);
                }
                let b = self.xr(rs2);
                match self.bus.read(a, 32) {
                    Ok(w) => {
                        let x = sextw(w);
                        self.do_amo(rd, a, 32, w, x, w ^ b)
                    },
                    Err(_) => Err(Exception::StoreAccessFault),
                }
            },
            Instruction::AmoandW { rd, rs1, rs2, .. } => {
                let a = self.xr(rs1);
                if a % 4 != 0 {
                    return Err(Exception::StoreAddressMisaligned);
                }
                let b = self.xr(rs2);
                match self.bus.read(a, 32) {
                    Ok(w) => {
                        let x = sextw(w);
                        self.do_amo(rd, a, 32, w, x, w & b)
                    },
                    Err(_) => Err(Exception::StoreAccessFault),
                }
            },
            Instruction::AmoorW { rd, rs1, rs2, .. } => {
                let a = self.xr(rs1);
                if a % 4 != 0 {
                    return Err(Exception::StoreAddressMisaligned);
                }
                let b = self.xr(rs2);
                match self.bus.read(a, 32) {
                    Ok(w) => {
                        let x = sextw(w);
                        self.do_amo(rd, a, 32, w, x, w | b)
                    },
                    Err(_) => Err(Exception::StoreAccessFault),
                }
            },
            Instruction::AmominW { rd, rs1, rs2, .. } => {
                let a = self.xr(rs1);
                if a % 4 != 0 {
                    return Err(Exception::StoreAddressMisaligned);
                }
                let b = self.xr(rs2);
                match self.bus.read(a, 32) {
                    Ok(w) => {
                        let x = sextw(w);
                        let stv = if signed_lt32(b, w) {
                            b
                        } else {
                            w
                        };
                        self.do_amo(rd, a, 32, w, x, stv)
                    },
                    Err(_) => Err(Exception::StoreAccessFault),
                }
            },
            Instruction::AmomaxW { rd, rs1, rs2, .. } => {
                let a = self.xr(rs1);
                if a % 4 != 0 {
                    return Err(Exception::StoreAddressMisaligned);
                }
                let b = self.xr(rs2);
                match self.bus.read(a, 32) {
                    Ok(w) => {
                        let x = sextw(w);
                        let stv = if signed_lt32(w, b) {
                            b
                        } else {
                            w
                        };
                        self.do_amo(rd, a, 32, w, x, stv)
                    },
                    Err(_) => Err(Exception::StoreAccessFault),
                }
            },
            Instruction::AmominuW { rd, rs1, rs2, .. } => {
                let a = self.xr(rs1);
                if a % 4 != 0 {
                    return Err(Exception::StoreAddressMisaligned);
                }
                let b = self.xr(rs2);
                match self.bus.read(a, 32) {
                    Ok(w) => {
                        let x = sextw(w);
                        let stv = if b % 0x1_0000_0000 < w {
                            b
                        } else {
                            w
                        };
                        self.do_amo(rd, a, 32, w, x, stv)
                    },
                    Err(_) => Err(Exception::StoreAccessFault),
                }
            },
            Instruction::AmomaxuW { rd, rs1, rs2, .. } => {
                let a = self.xr(rs1);
                if a % 4 != 0 {
                    return Err(Exception::StoreAddressMisaligned);
                }
                let b = self.xr(rs2);
                match self.bus.read(a, 32) {
                    Ok(w) => {
                        let x = sextw(w);
                        let stv = if b % 0x1_0000_0000 > w {
                            b
                        } else {
                            w
                        };
                        self.do_amo(rd, a, 32, w, x, stv)
                    },
                    Err(_) => Err(Exception::StoreAccessFault),
                }
            },
            _ => {
                proof {
                    assert(false);
                }
                Err(Exception::IllegalInstruction)
            },
        }
    }

    /// Executes the doubleword load-reserved and store-conditional.
    #[verifier::rlimit(100)]
    fn exec_lr_sc_d(&mut self, i: Instruction) -> (r: Result<(), Exception>)
        requires
            old(self).wf(),
            crate::instructions::wf_inst(i),
            i is LrD || i is ScD,
        ensures
            final(self).wf(),
            ({
                let (m2, r2) = spec_exec(old(self)@, i);
                final(self)@ == m2 && r == r2
            }),
            final(self).enc_table == old(self).enc_table,
    {
        match i {
            Instruction::LrD { rd, rs1, .. } => {
                let a = self.xr(rs1);
                if a % 8 != 0 {
                    return Err(Exception::LoadAddressMisaligned);
                }
                match self.bus.read(a, 64) {
                    Ok(v) => {
                        self.res_add(a);
                        self.wx(rd, v);
                        self.advance();
                        proof {
                            assert(self@ =~= adv(
                                wr_x(
                                    MachView { res: res_insert(old(self)@.res, a), ..old(self)@ },
                                    rd,
                                    ld(old(self)@, a, 8),
                                ),
                            ));
                        }
                        Ok(())
                    },
                    Err(e) => Err(e),
                }
            },
            Instruction::ScD { rd, rs1, rs2, .. } => {
                let a = self.xr(rs1);
                if a % 8 != 0 {
                    return Err(Exception::StoreAddressMisaligned);
                }
                if self.res_has(a) {
                    let v = self.xr(rs2);
                    match self.bus.write(a, v, 64) {
                        Ok(()) => {
                            self.res_remove_range(a, 8);
                            self.wx(rd, 0);
                            self.advance();
                            proof {
                                assert(self@ =~= adv(
                                    wr_x(
                                        MachView {
                                            mem: write_le(old(self)@.mem, a as int, 8, v),
                                            res: res_clear(old(self)@.res, a, 8),
                                            ..old(self)@
                                        },
                                        rd,
                                        0,
                                    ),
                                ));
                            }
                            Ok(())
                        },
                        Err(e) => Err(e),
                    }
                } else {
                    self.res_remove_exact(a);
                    self.wx(rd, 1);
                    self.advance();
                    proof {
                        assert(self@ =~= adv(
                            wr_x(
                                MachView { res: res_drop(old(self)@.res, a), ..old(self)@ },
                                rd,
                                1,
                            ),
                        ));
                    }
                    Ok(())
                }
            },
            _ => {
                proof {
                    assert(false);
                }
                Err(Exception::IllegalInstruction)
            },
        }
    }

    /// Executes the doubleword atomic read-modify-writes.
    #[verifier::rlimit(100)]
    fn exec_amo_d(&mut self, i: Instruction) -> (r: Result<(), Exception>)
        requires
            old(self).wf(),
            crate::instructions::wf_inst(i),
            i is AmoswapD || i is AmoaddD || i is AmoxorD || i is AmoandD || i is AmoorD
                || i is AmominD || i is AmomaxD || i is AmominuD || i is AmomaxuD,
        ensures
            final(self).wf(),
            ({
                let (m2, r2) = spec_exec(old(self)@, i);
                final(self)@ == m2 && r == r2
            }),
            final(self).enc_table == old(self).enc_table,
    {
        match i {
            Instruction::AmoswapD { rd, rs1, rs2, .. } => {
                let a = self.xr(rs1);
                if a % 8 != 0 {
                    return Err(Exception::StoreAddressMisaligned);
                }
                let b = self.xr(rs2);
                match self.bus.read(a, 64) {
                    Ok(w) => self.do_amo(rd, a, 64, w, w, b),
                    Err(_) => Err(Exception::StoreAccessFault),
                }
            },
            Instruction::AmoaddD { rd, rs1, rs2, .. } => {
                let a = self.xr(rs1);
                if a % 8 != 0 {
                    return Err(Exception::StoreAddressMisaligned);
                }
                let b = self.xr(rs2);
                match self.bus.read(a, 64) {
                    Ok(w) => {
                        let stv = u64_wadd(w, b);
                        self.do_amo(rd, a, 64, w, w, stv)
                    },
                    Err(_) => Err(Exception::StoreAccessFault),
                }
            },
            Instruction::AmoxorD { rd, rs1, rs2, .. } => {
                let a = self.xr(rs1);
                if a % 8 != 0 {
                    return Err(Exception::StoreAddressMisaligned);
                }
                let b = self.xr(rs2);
                match self.bus.read(a, 64) {
                    Ok(w) => self.do_amo(rd, a, 64, w, w, w ^ b),
                    Err(_) => Err(Exception::StoreAccessFault),
                }
            },
            Instruction::AmoandD { rd, rs1, rs2, .. } => {
                let a = self.xr(rs1);
                if a % 8 != 0 {
                    return Err(Exception::StoreAddressMisaligned);
                }
                let b = self.xr(rs2);
                match self.bus.read(a, 64) {
                    Ok(w) => self.do_amo(rd, a, 64, w, w, w & b),
                    Err(_) => Err(Exception::StoreAccessFault),
                }
            },
            Instruction::AmoorD { rd, rs1, rs2, .. } => {
                let a = self.xr(rs1);
                if a % 8 != 0 {
                    return Err(Exception::StoreAddressMisaligned);
                }
                let b = self.xr(rs2);
                match self.bus.read(a, 64) {
                    Ok(w) => self.do_amo(rd, a, 64, w, w, w | b),
                    Err(_) => Err(Exception::StoreAccessFault),
                }
            },
            Instruction::AmominD { rd, rs1, rs2, .. } => {
                let a = self.xr(rs1);
                if a % 8 != 0 {
                    return Err(Exception::StoreAddressMisaligned);
                }
                let b = self.xr(rs2);
                match self.bus.read(a, 64) {
                    Ok(w) => {
                        let stv = if signed_lt(b, w) {
                            b
                        } else {
                            w
                        };
                        self.do_amo(rd, a, 64, w, w, stv)
                    },
                    Err(_) => Err(Exception::StoreAccessFault),
                }
            },
            Instruction::AmomaxD { rd, rs1, rs2, .. } => {
                let a = self.xr(rs1);
                if a % 8 != 0 {
                    return Err(Exception::StoreAddressMisaligned);
                }
                let b = self.xr(rs2);
                match self.bus.read(a, 64) {
                    Ok(w) => {
                        let stv = if signed_lt(w, b) {
                            b
                        } else {
                            w
                        };
                        self.do_amo(rd, a, 64, w, w, stv)
                    },
                    Err(_) => Err(Exception::StoreAccessFault),
                }
            },
            Instruction::AmominuD { rd, rs1, rs2, .. } => {
                let a = self.xr(rs1);
                if a % 8 != 0 {
                    return Err(Exception::StoreAddressMisaligned);
                }
                let b = self.xr(rs2);
                match self.bus.read(a, 64) {
                    Ok(w) => {
                        let stv = if b < w {
                            b
                        } else {
                            w
                        };
                        self.do_amo(rd, a, 64, w, w, stv)
                    },
                    Err(_) => Err(Exception::StoreAccessFault),
                }
            },
            Instruction::AmomaxuD { rd, rs1, rs2, .. } => {
                let a = self.xr(rs1);
                if a % 8 != 0 {
                    return Err(Exception::StoreAddressMisaligned);
                }
                let b = self.xr(rs2);
                match self.bus.read(a, 64) {
                    Ok(w) => {
                        let stv = if b > w {
                            b
                        } else {
                            w
                        };
                        self.do_amo(rd, a, 64, w, w, stv)
                    },
                    Err(_) => Err(Exception::StoreAccessFault),
                }
            },
            _ => {
                proof {
                    assert(false);
                }
                Err(Exception::IllegalInstruction)
            },
        }
    }
}

impl SoftThread {
    /// The effective rounding mode of an instruction.
    fn rm_eff(&self, rm: u8) -> (r: Option<u8>)
        requires
            self.wf(),
        ensures
            r == eff_rm(self@, rm),
    {
        if rm <= 4 {
            Some(rm)
        } else if rm == 7 {
            let f = self.csr[2] % 8;
            if f <= 4 {
                Some(f as u8)
            } else {
                None
            }
        } else {
            None
        }
    }

    /// Canonicalizes a single-precision NaN result.
    fn fp32r(&self, raw: u64) -> (r: u64)
        ensures
            r == fp32_result(raw),
    {
        if nan32(raw) {
            CANON_NAN32
        } else {
            raw
        }
    }

    /// Canonicalizes a double-precision NaN result.
    fn fp64r(&self, raw: u64) -> (r: u64)
        ensures
            r == fp64_result(raw),
    {
        if nan64(raw) {
            CANON_NAN64
        } else {
            raw
        }
    }

    /// Executes the single-precision rounding arithmetic.
    #[verifier::rlimit(100)]
    fn exec_fp_s_arith(&mut self, i: Instruction) -> (r: Result<(), Exception>)
        requires
            old(self).wf(),
            crate::instructions::wf_inst(i),
            i is FmaddS || i is FmsubS || i is FnmsubS || i is FnmaddS || i is FaddS || i is FsubS
                || i is FmulS || i is FdivS || i is FsqrtS,
        ensures
            final(self).wf(),
            ({
                let (m2, r2) = spec_exec(old(self)@, i);
                final(self)@ == m2 && r == r2
            }),
            final(self).enc_table == old(self).enc_table,
    {
        match i {
            Instruction::FmaddS { rd, rs1, rs2, rs3, rm } => match self.rm_eff(rm) {
                Some(e) => {
                    let a = unbox(self.fr(rs1));
                    let b = unbox(self.fr(rs2));
                    let c = unbox(self.fr(rs3));
                    let v = self.fp32r(fma32(a, b, c, e));
                    let bx = box32(v);
                    self.wfr(rd, bx);
                    self.advance();
                    Ok(())
                },
                None => Err(Exception::IllegalInstruction),
            },
            Instruction::FmsubS { rd, rs1, rs2, rs3, rm } => match self.rm_eff(rm) {
                Some(e) => {
                    let a = unbox(self.fr(rs1));
                    let b = unbox(self.fr(rs2));
                    let c = sgnjn32x(unbox(self.fr(rs3)), unbox(self.fr(rs3)));
                    let v = self.fp32r(fma32(a, b, c, e));
                    let bx = box32(v);
                    self.wfr(rd, bx);
                    self.advance();
                    Ok(())
                },
                None => Err(Exception::IllegalInstruction),
            },
            Instruction::FnmsubS { rd, rs1, rs2, rs3, rm } => match self.rm_eff(rm) {
                Some(e) => {
                    let a = sgnjn32x(unbox(self.fr(rs1)), unbox(self.fr(rs1)));
                    let b = unbox(self.fr(rs2));
                    let c = unbox(self.fr(rs3));
                    let v = self.fp32r(fma32(a, b, c, e));
                    let bx = box32(v);
                    self.wfr(rd, bx);
                    self.advance();
                    Ok(())
                },
                None => Err(Exception::IllegalInstruction),
            },
            Instruction::FnmaddS { rd, rs1, rs2, rs3, rm } => match self.rm_eff(rm) {
                Some(e) => {
                    let a = sgnjn32x(unbox(self.fr(rs1)), unbox(self.fr(rs1)));
                    let b = unbox(self.fr(rs2));
                    let c = sgnjn32x(unbox(self.fr(rs3)), unbox(self.fr(rs3)));
                    let v = self.fp32r(fma32(a, b, c, e));
                    let bx = box32(v);
                    self.wfr(rd, bx);
                    self.advance();
                    Ok(())
                },
                None => Err(Exception::IllegalInstruction),
            },
            Instruction::FaddS { rd, rs1, rs2, rm } => match self.rm_eff(rm) {
                Some(e) => {
                    let a = unbox(self.fr(rs1));
                    let b = unbox(self.fr(rs2));
                    let v = self.fp32r(fadd32(a, b, e));
                    let bx = box32(v);
                    self.wfr(rd, bx);
                    self.advance();
                    Ok(())
                },
                None => Err(Exception::IllegalInstruction),
            },
            Instruction::FsubS { rd, rs1, rs2, rm } => match self.rm_eff(rm) {
                Some(e) => {
                    let a = unbox(self.fr(rs1));
                    let b = unbox(self.fr(rs2));
                    let v = self.fp32r(fsub32(a, b, e));
                    let bx = box32(v);
                    self.wfr(rd, bx);
                    self.advance();
                    Ok(())
                },
                None => Err(Exception::IllegalInstruction),
            },
            Instruction::FmulS { rd, rs1, rs2, rm } => match self.rm_eff(rm) {
                Some(e) => {
                    let a = unbox(self.fr(rs1));
                    let b = unbox(self.fr(rs2));
                    let v = self.fp32r(fmul32(a, b, e));
                    let bx = box32(v);
                    self.wfr(rd, bx);
                    self.advance();
                    Ok(())
                },
                None => Err(Exception::IllegalInstruction),
            },
            Instruction::FdivS { rd, rs1, rs2, rm } => match self.rm_eff(rm) {
                Some(e) => {
                    let a = unbox(self.fr(rs1));
                    let b = unbox(self.fr(rs2));
                    let v = self.fp32r(fdiv32(a, b, e));
                    let bx = box32(v);
                    self.wfr(rd, bx);
                    self.advance();
                    Ok(())
                },
                None => Err(Exception::IllegalInstruction),
            },
            Instruction::FsqrtS { rd, rs1, rm } => match self.rm_eff(rm) {
                Some(e) => {
                    let a = unbox(self.fr(rs1));
                    let v = self.fp32r(fsqrt32(a, e));
                    let bx = box32(v);
                    self.wfr(rd, bx);
                    self.advance();
                    Ok(())
                },
                None => Err(Exception::IllegalInstruction),
            },
            _ => {
                proof {
                    assert(false);
                }
                Err(Exception::IllegalInstruction)
            },
        }
    }

    /// Executes the single-precision sign, minimum, maximum, move,
    /// comparison and classification forms.
    #[verifier::rlimit(100)]
    fn exec_fp_s_misc(&mut self, i: Instruction) -> (r: Result<(), Exception>)
        requires
            old(self).wf(),
            crate::instructions::wf_inst(i),
            i is FsgnjS || i is FsgnjnS || i is FsgnjxS || i is FminS || i is FmaxS || i is FmvXW
                || i is FeqS || i is FltS || i is FleS || i is FclassS || i is FmvWX,
        ensures
            final(self).wf(),
            ({
                let (m2, r2) = spec_exec(old(self)@, i);
                final(self)@ == m2 && r == r2
            }),
            final(self).enc_table == old(self).enc_table,
    {
        match i {
            Instruction::FsgnjS { rd, rs1, rs2 } => {
                let v = sgnj32x(unbox(self.fr(rs1)), unbox(self.fr(rs2)));
                let bx = box32(v);
                self.wfr(rd, bx);
                self.advance();
                Ok(())
            },
            Instruction::FsgnjnS { rd, rs1, rs2 } => {
                let v = sgnjn32x(unbox(self.fr(rs1)), unbox(self.fr(rs2)));
                let bx = box32(v);
                self.wfr(rd, bx);
                self.advance();
                Ok(())
            },
            Instruction::FsgnjxS { rd, rs1, rs2 } => {
                let v = sgnjx32x(unbox(self.fr(rs1)), unbox(self.fr(rs2)));
                let bx = box32(v);
                self.wfr(rd, bx);
                self.advance();
                Ok(())
            },
            Instruction::FminS { rd, rs1, rs2 } => {
                let v = fmin32x(unbox(self.fr(rs1)), unbox(self.fr(rs2)));
                let bx = box32(v);
                self.wfr(rd, bx);
                self.advance();
                Ok(())
            },
            Instruction::FmaxS { rd, rs1, rs2 } => {
                let v = fmax32x(unbox(self.fr(rs1)), unbox(self.fr(rs2)));
                let bx = box32(v);
                self.wfr(rd, bx);
                self.advance();
                Ok(())
            },
            Instruction::FmvXW { rd, rs1 } => {
                let v = sextw(self.fr(rs1));
                self.wx(rd, v);
                self.advance();
                Ok(())
            },
            Instruction::FeqS { rd, rs1, rs2 } => {
                let v: u64 = if feq32x(unbox(self.fr(rs1)), unbox(self.fr(rs2))) {
                    1
                } else {
                    0
                };
                self.wx(rd, v);
                self.advance();
                Ok(())
            },
            Instruction::FltS { rd, rs1, rs2 } => {
                let a = unbox(self.fr(rs1));
                let b = unbox(self.fr(rs2));
                if nan32(a) || nan32(b) {
                    let f = self.csr_read(1);
                    self.csr_write(1, f | 0x10);
                }
                let v: u64 = if flt32x(a, b) {
                    1
                } else {
                    0
                };
                self.wx(rd, v);
                self.advance();
                Ok(())
            },
            Instruction::FleS { rd, rs1, rs2 } => {
                let a = unbox(self.fr(rs1));
                let b = unbox(self.fr(rs2));
                if nan32(a) || nan32(b) {
                    let f = self.csr_read(1);
                    self.csr_write(1, f | 0x10);
                }
                let v: u64 = if fle32x(a, b) {
                    1
                } else {
                    0
                };
                self.wx(rd, v);
                self.advance();
                Ok(())
            },
            Instruction::FclassS { rd, rs1 } => {
                let v = fclass32x(unbox(self.fr(rs1)));
                self.wx(rd, v);
                self.advance();
                Ok(())
            },
            Instruction::FmvWX { rd, rs1 } => {
                let v = box32(self.xr(rs1));
                self.wfr(rd, v);
                self.advance();
                Ok(())
            },
            _ => {
                proof {
                    assert(false);
                }
                Err(Exception::IllegalInstruction)
            },
        }
    }

    /// Executes the single-precision conversions.
    #[verifier::rlimit(100)]
    fn exec_fp_s_cvt(&mut self, i: Instruction) -> (r: Result<(), Exception>)
        requires
            old(self).wf(),
            crate::instructions::wf_inst(i),
            i is FcvtWS || i is FcvtWUS || i is FcvtLS || i is FcvtLUS || i is FcvtSW
                || i is FcvtSWU || i is FcvtSL || i is FcvtSLU || i is FcvtSD || i is FcvtDS,
        ensures
            final(self).wf(),
            ({
                let (m2, r2) = spec_exec(old(self)@, i);
                final(self)@ == m2 && r == r2
            }),
            final(self).enc_table == old(self).enc_table,
    {
        match i {
            Instruction::FcvtWS { rd, rs1, rm } => match self.rm_eff(rm) {
                Some(e) => {
                    let a = unbox(self.fr(rs1));
                    if nan32(a) {
                        self.wx(rd, 0x7FFF_FFFF);
                        self.advance();
                        Ok(())
                    } else {
                        let v = i128_low64(sint_of_f32(a, 32, e));
                        self.wx(rd, v);
                        self.advance();
                        Ok(())
                    }
                },
                None => Err(Exception::IllegalInstruction),
            },
            Instruction::FcvtWUS { rd, rs1, rm } => match self.rm_eff(rm) {
                Some(e) => {
                    let a = unbox(self.fr(rs1));
                    if nan32(a) {
                        self.wx(rd, 0xFFFF_FFFF_FFFF_FFFF);
                        self.advance();
                        Ok(())
                    } else {
                        let v = sextw(u128_low64(uint_of_f32(a, 32, e)));
                        self.wx(rd, v);
                        self.advance();
                        Ok(())
                    }
                },
                None => Err(Exception::IllegalInstruction),
            },
            Instruction::FcvtLS { rd, rs1, rm } => match self.rm_eff(rm) {
                Some(e) => {
                    let a = unbox(self.fr(rs1));
                    if nan32(a) {
                        self.wx(rd, 0x7FFF_FFFF_FFFF_FFFF);
                        self.advance();
                        Ok(())
                    } else {
                        let v = i128_low64(sint_of_f32(a, 64, e));
                        self.wx(rd, v);
                        self.advance();
                        Ok(())
                    }
                },
                None => Err(Exception::IllegalInstruction),
            },
            Instruction::FcvtLUS { rd, rs1, rm } => match self.rm_eff(rm) {
                Some(e) => {
                    let a = unbox(self.fr(rs1));
                    if nan32(a) {
                        self.wx(rd, 0xFFFF_FFFF_FFFF_FFFF);
                        self.advance();
                        Ok(())
                    } else {
                        let v = u128_low64(uint_of_f32(a, 64, e));
                        self.wx(rd, v);
                        self.advance();
                        Ok(())
                    }
                },
                None => Err(Exception::IllegalInstruction),
            },
            Instruction::FcvtSW { rd, rs1, rm } => match self.rm_eff(rm) {
                Some(e) => {
                    let v = s32_i128(self.xr(rs1));
                    let bx = box32(f32_of_sint(v, e));
                    self.wfr(rd, bx);
                    self.advance();
                    Ok(())
                },
                None => Err(Exception::IllegalInstruction),
            },
            Instruction::FcvtSWU { rd, rs1, rm } => match self.rm_eff(rm) {
                Some(e) => {
                    let u = (self.xr(rs1) % 0x1_0000_0000) as u128;
                    let bx = box32(f32_of_uint(u, e));
                    self.wfr(rd, bx);
                    self.advance();
                    Ok(())
                },
                None => Err(Exception::IllegalInstruction),
            },
            Instruction::FcvtSL { rd, rs1, rm } => match self.rm_eff(rm) {
                Some(e) => {
                    let v = s64_i128(self.xr(rs1));
                    let bx = box32(f32_of_sint(v, e));
                    self.wfr(rd, bx);
                    self.advance();
                    Ok(())
                },
                None => Err(Exception::IllegalInstruction),
            },
            Instruction::FcvtSLU { rd, rs1, rm } => match self.rm_eff(rm) {
                Some(e) => {
                    let u = self.xr(rs1) as u128;
                    let bx = box32(f32_of_uint(u, e));
                    self.wfr(rd, bx);
                    self.advance();
                    Ok(())
                },
                None => Err(Exception::IllegalInstruction),
            },
            Instruction::FcvtSD { rd, rs1, rm } => match self.rm_eff(rm) {
                Some(e) => {
                    let v = self.fp32r(f32_of_f64(self.fr(rs1), e));
                    let bx = box32(v);
                    self.wfr(rd, bx);
                    self.advance();
                    Ok(())
                },
                None => Err(Exception::IllegalInstruction),
            },
            Instruction::FcvtDS { rd, rs1, rm } => {
                let v = self.fp64r(f64_of_f32(unbox(self.fr(rs1))));
                self.wfr(rd, v);
                self.advance();
                Ok(())
            },
            _ => {
                proof {
                    assert(false);
                }
                Err(Exception::IllegalInstruction)
            },
        }
    }
}

impl SoftThread {
    /// Executes the double- and quad-precision rounding arithmetic; quad
    /// forms run at double precision.
    #[verifier::rlimit(100)]
    fn exec_fp_d_arith(&mut self, i: Instruction) -> (r: Result<(), Exception>)
        requires
            old(self).wf(),
            crate::instructions::wf_inst(i),
            i is FmaddD || i is FmsubD || i is FnmsubD || i is FnmaddD || i is FaddD || i is FsubD
                || i is FmulD || i is FdivD || i is FsqrtD || i is FmaddQ || i is FmsubQ
                || i is FnmsubQ || i is FnmaddQ || i is FaddQ || i is FsubQ || i is FmulQ
                || i is FdivQ || i is FsqrtQ,
        ensures
            final(self).wf(),
            ({
                let (m2, r2) = spec_exec(old(self)@, i);
                final(self)@ == m2 && r == r2
            }),
            final(self).enc_table == old(self).enc_table,
    {
        match i {
            Instruction::FmaddD { rd, rs1, rs2, rs3, rm } | Instruction::FmaddQ {
                rd,
                rs1,
                rs2,
                rs3,
                rm,
            } => match self.rm_eff(rm) {
                Some(e) => {
                    let v = self.fp64r(fma64(self.fr(rs1), self.fr(rs2), self.fr(rs3), e));
                    self.wfr(rd, v);
                    self.advance();
                    Ok(())
                },
                None => Err(Exception::IllegalInstruction),
            },
            Instruction::FmsubD { rd, rs1, rs2, rs3, rm } | Instruction::FmsubQ {
                rd,
                rs1,
                rs2,
                rs3,
                rm,
            } => match self.rm_eff(rm) {
                Some(e) => {
                    let c = sgnjn64x(self.fr(rs3), self.fr(rs3));
                    let v = self.fp64r(fma64(self.fr(rs1), self.fr(rs2), c, e));
                    self.wfr(rd, v);
                    self.advance();
                    Ok(())
                },
                None => Err(Exception::IllegalInstruction),
            },
            Instruction::FnmsubD { rd, rs1, rs2, rs3, rm } | Instruction::FnmsubQ {
                rd,
                rs1,
                rs2,
                rs3,
                rm,
            } => match self.rm_eff(rm) {
                Some(e) => {
                    let a = sgnjn64x(self.fr(rs1), self.fr(rs1));
                    let v = self.fp64r(fma64(a, self.fr(rs2), self.fr(rs3), e));
                    self.wfr(rd, v);
                    self.advance();
                    Ok(())
                },
                None => Err(Exception::IllegalInstruction),
            },
            Instruction::FnmaddD { rd, rs1, rs2, rs3, rm } | Instruction::FnmaddQ {
                rd,
                rs1,
                rs2,
                rs3,
                rm,
            } => match self.rm_eff(rm) {
                Some(e) => {
                    let a = sgnjn64x(self.fr(rs1), self.fr(rs1));
                    let c = sgnjn64x(self.fr(rs3), self.fr(rs3));
                    let v = self.fp64r(fma64(a, self.fr(rs2), c, e));
                    self.wfr(rd, v);
                    self.advance();
                    Ok(())
                },
                None => Err(Exception::IllegalInstruction),
            },
            Instruction::FaddD { rd, rs1, rs2, rm } | Instruction::FaddQ { rd, rs1, rs2, rm } =>
            match self.rm_eff(rm) {
                Some(e) => {
                    let v = self.fp64r(fadd64(self.fr(rs1), self.fr(rs2), e));
                    self.wfr(rd, v);
                    self.advance();
                    Ok(())
                },
                None => Err(Exception::IllegalInstruction),
            },
            Instruction::FsubD { rd, rs1, rs2, rm } | Instruction::FsubQ { rd, rs1, rs2, rm } =>
            match self.rm_eff(rm) {
                Some(e) => {
                    let v = self.fp64r(fsub64(self.fr(rs1), self.fr(rs2), e));
                    self.wfr(rd, v);
                    self.advance();
                    Ok(())
                },
                None => Err(Exception::IllegalInstruction),
            },
            Instruction::FmulD { rd, rs1, rs2, rm } | Instruction::FmulQ { rd, rs1, rs2, rm } =>
            match self.rm_eff(rm) {
                Some(e) => {
                    let v = self.fp64r(fmul64(self.fr(rs1), self.fr(rs2), e));
                    self.wfr(rd, v);
                    self.advance();
                    Ok(())
                },
                None => Err(Exception::IllegalInstruction),
            },
            Instruction::FdivD { rd, rs1, rs2, rm } | Instruction::FdivQ { rd, rs1, rs2, rm } =>
            match self.rm_eff(rm) {
                Some(e) => {
                    let v = self.fp64r(fdiv64(self.fr(rs1), self.fr(rs2), e));
                    self.wfr(rd, v);
                    self.advance();
                    Ok(())
                },
                None => Err(Exception::IllegalInstruction),
            },
            Instruction::FsqrtD { rd, rs1, rm } | Instruction::FsqrtQ { rd, rs1, rm } => match
            self.rm_eff(rm) {
                Some(e) => {
                    let v = self.fp64r(fsqrt64(self.fr(rs1), e));
                    self.wfr(rd, v);
                    self.advance();
                    Ok(())
                },
                None => Err(Exception::IllegalInstruction),
            },
            _ => {
                proof {
                    assert(false);
                }
                Err(Exception::IllegalInstruction)
            },
        }
    }

    /// Executes the double- and quad-precision sign, minimum, maximum,
    /// move, comparison and classification forms.
    #[verifier::rlimit(100)]
    fn exec_fp_d_misc(&mut self, i: Instruction) -> (r: Result<(), Exception>)
        requires
            old(self).wf(),
            crate::instructions::wf_inst(i),
            i is FsgnjD || i is FsgnjnD || i is FsgnjxD || i is FminD || i is FmaxD || i is FeqD
                || i is FltD || i is FleD || i is FclassD || i is FmvXD || i is FmvDX
                || i is FsgnjQ || i is FsgnjnQ || i is FsgnjxQ || i is FminQ || i is FmaxQ
                || i is FeqQ || i is FltQ || i is FleQ || i is FclassQ,
        ensures
            final(self).wf(),
            ({
                let (m2, r2) = spec_exec(old(self)@, i);
                final(self)@ == m2 && r == r2
            }),
            final(self).enc_table == old(self).enc_table,
    {
        match i {
            Instruction::FsgnjD { rd, rs1, rs2 } | Instruction::FsgnjQ { rd, rs1, rs2 } => {
                let v = sgnj64x(self.fr(rs1), self.fr(rs2));
                self.wfr(rd, v);
                self.advance();
                Ok(())
            },
            Instruction::FsgnjnD { rd, rs1, rs2 } | Instruction::FsgnjnQ { rd, rs1, rs2 } => {
                let v = sgnjn64x(self.fr(rs1), self.fr(rs2));
                self.wfr(rd, v);
                self.advance();
                Ok(())
            },
            Instruction::FsgnjxD { rd, rs1, rs2 } | Instruction::FsgnjxQ { rd, rs1, rs2 } => {
                let v = sgnjx64x(self.fr(rs1), self.fr(rs2));
                self.wfr(rd, v);
                self.advance();
                Ok(())
            },
            Instruction::FminD { rd, rs1, rs2 } | Instruction::FminQ { rd, rs1, rs2 } => {
                let v = fmin64x(self.fr(rs1), self.fr(rs2));
                self.wfr(rd, v);
                self.advance();
                Ok(())
            },
            Instruction::FmaxD { rd, rs1, rs2 } | Instruction::FmaxQ { rd, rs1, rs2 } => {
                let v = fmax64x(self.fr(rs1), self.fr(rs2));
                self.wfr(rd, v);
                self.advance();
                Ok(())
            },
            Instruction::FeqD { rd, rs1, rs2 } | Instruction::FeqQ { rd, rs1, rs2 } => {
                let v: u64 = if feq64x(self.fr(rs1), self.fr(rs2)) {
                    1
                } else {
                    0
                };
                self.wx(rd, v);
                self.advance();
                Ok(())
            },
            Instruction::FltD { rd, rs1, rs2 } | Instruction::FltQ { rd, rs1, rs2 } => {
                let a = self.fr(rs1);
                let b = self.fr(rs2);
                if nan64(a) || nan64(b) {
                    let f = self.csr_read(1);
                    self.csr_write(1, f | 0x10);
                }
                let v: u64 = if flt64x(a, b) {
                    1
                } else {
                    0
                };
                self.wx(rd, v);
                self.advance();
                Ok(())
            },
            Instruction::FleD { rd, rs1, rs2 } | Instruction::FleQ { rd, rs1, rs2 } => {
                let a = self.fr(rs1);
                let b = self.fr(rs2);
                if nan64(a) || nan64(b) {
                    let f = self.csr_read(1);
                    self.csr_write(1, f | 0x10);
                }
                let v: u64 = if fle64x(a, b) {
                    1
                } else {
                    0
                };
                self.wx(rd, v);
                self.advance();
                Ok(())
            },
            Instruction::FclassD { rd, rs1 } | Instruction::FclassQ { rd, rs1 } => {
                let v = fclass64x(self.fr(rs1));
                self.wx(rd, v);
                self.advance();
                Ok(())
            },
            Instruction::FmvXD { rd, rs1 } => {
                let v = self.fr(rs1);
                self.wx(rd, v);
                self.advance();
                Ok(())
            },
            Instruction::FmvDX { rd, rs1 } => {
                let v = self.xr(rs1);
                self.wfr(rd, v);
                self.advance();
                Ok(())
            },
            _ => {
                proof {
                    assert(false);
                }
                Err(Exception::IllegalInstruction)
            },
        }
    }

    /// Executes the double- and quad-precision conversions.
    #[verifier::rlimit(100)]
    fn exec_fp_d_cvt(&mut self, i: Instruction) -> (r: Result<(), Exception>)
        requires
            old(self).wf(),
            crate::instructions::wf_inst(i),
            i is FcvtWD || i is FcvtWUD || i is FcvtLD || i is FcvtLUD || i is FcvtDW
                || i is FcvtDWU || i is FcvtDL || i is FcvtDLU || i is FcvtWQ || i is FcvtWUQ
                || i is FcvtLQ || i is FcvtLUQ || i is FcvtQW || i is FcvtQWU || i is FcvtQL
                || i is FcvtQLU || i is FcvtSQ || i is FcvtQS || i is FcvtDQ || i is FcvtQD,
        ensures
            final(self).wf(),
            ({
                let (m2, r2) = spec_exec(old(self)@, i);
                final(self)@ == m2 && r == r2
            }),
            final(self).enc_table == old(self).enc_table,
    {
        match i {
            Instruction::FcvtWD { rd, rs1, rm } | Instruction::FcvtWQ { rd, rs1, rm } => match
            self.rm_eff(rm) {
                Some(e) => {
                    let a = self.fr(rs1);
                    if nan64(a) {
                        self.wx(rd, 0x7FFF_FFFF);
                        self.advance();
                        Ok(())
                    } else {
                        let v = i128_low64(sint_of_f64(a, 32, e));
                        self.wx(rd, v);
                        self.advance();
                        Ok(())
                    }
                },
                None => Err(Exception::IllegalInstruction),
            },
            Instruction::FcvtWUD { rd, rs1, rm } | Instruction::FcvtWUQ { rd, rs1, rm } => match
            self.rm_eff(rm) {
                Some(e) => {
                    let a = self.fr(rs1);
                    if nan64(a) {
                        self.wx(rd, 0xFFFF_FFFF_FFFF_FFFF);
                        self.advance();
                        Ok(())
                    } else {
                        let v = sextw(u128_low64(uint_of_f64(a, 32, e)));
                        self.wx(rd, v);
                        self.advance();
                        Ok(())
                    }
                },
                None => Err(Exception::IllegalInstruction),
            },
            Instruction::FcvtLD { rd, rs1, rm } | Instruction::FcvtLQ { rd, rs1, rm } => match
            self.rm_eff(rm) {
                Some(e) => {
                    let a = self.fr(rs1);
                    if nan64(a) {
                        self.wx(rd, 0x7FFF_FFFF_FFFF_FFFF);
                        self.advance();
                        Ok(())
                    } else {
                        let v = i128_low64(sint_of_f64(a, 64, e));
                        self.wx(rd, v);
                        self.advance();
                        Ok(())
                    }
                },
                None => Err(Exception::IllegalInstruction),
            },
            Instruction::FcvtLUD { rd, rs1, rm } | Instruction::FcvtLUQ { rd, rs1, rm } => match
            self.rm_eff(rm) {
                Some(e) => {
                    let a = self.fr(rs1);
                    if nan64(a) {
                        self.wx(rd, 0xFFFF_FFFF_FFFF_FFFF);
                        self.advance();
                        Ok(())
                    } else {
                        let v = u128_low64(uint_of_f64(a, 64, e));
                        self.wx(rd, v);
                        self.advance();
                        Ok(())
                    }
                },
                None => Err(Exception::IllegalInstruction),
            },
            Instruction::FcvtDW { rd, rs1, rm } | Instruction::FcvtQW { rd, rs1, rm } => match
            self.rm_eff(rm) {
                Some(e) => {
                    let v = s32_i128(self.xr(rs1));
                    let f = f64_of_sint(v, e);
                    self.wfr(rd, f);
                    self.advance();
                    Ok(())
                },
                None => Err(Exception::IllegalInstruction),
            },
            Instruction::FcvtDWU { rd, rs1, rm } | Instruction::FcvtQWU { rd, rs1, rm } => match
            self.rm_eff(rm) {
                Some(e) => {
                    let u = (self.xr(rs1) % 0x1_0000_0000) as u128;
                    let f = f64_of_uint(u, e);
                    self.wfr(rd, f);
                    self.advance();
                    Ok(())
                },
                None => Err(Exception::IllegalInstruction),
            },
            Instruction::FcvtDL { rd, rs1, rm } | Instruction::FcvtQL { rd, rs1, rm } => match
            self.rm_eff(rm) {
                Some(e) => {
                    let v = s64_i128(self.xr(rs1));
                    let f = f64_of_sint(v, e);
                    self.wfr(rd, f);
                    self.advance();
                    Ok(())
                },
                None => Err(Exception::IllegalInstruction),
            },
            Instruction::FcvtDLU { rd, rs1, rm } | Instruction::FcvtQLU { rd, rs1, rm } => match
            self.rm_eff(rm) {
                Some(e) => {
                    let u = self.xr(rs1) as u128;
                    let f = f64_of_uint(u, e);
                    self.wfr(rd, f);
                    self.advance();
                    Ok(())
                },
                None => Err(Exception::IllegalInstruction),
            },
            Instruction::FcvtSQ { rd, rs1, rm } => match self.rm_eff(rm) {
                Some(e) => {
                    let v = self.fp32r(f32_of_f64(self.fr(rs1), e));
                    let bx = box32(v);
                    self.wfr(rd, bx);
                    self.advance();
                    Ok(())
                },
                None => Err(Exception::IllegalInstruction),
            },
            Instruction::FcvtQS { rd, rs1, rm } => {
                let v = self.fp64r(f64_of_f32(unbox(self.fr(rs1))));
                self.wfr(rd, v);
                self.advance();
                Ok(())
            },
            Instruction::FcvtDQ { rd, rs1, rm } | Instruction::FcvtQD { rd, rs1, rm } => {
                let v = self.fp64r(self.fr(rs1));
                self.wfr(rd, v);
                self.advance();
                Ok(())
            },
            _ => {
                proof {
                    assert(false);
                }
                Err(Exception::IllegalInstruction)
            },
        }
    }
}

/// A faulted step leaves the architectural state untouched: the
/// interpreter's error outcomes all carry the entry state.
#[verifier::rlimit(100)]
pub proof fn lemma_fault_no_effect(m: MachView, i: Instruction)
    ensures
        spec_exec(m, i).1 is Err ==> spec_exec(m, i).0 == m,
{
}

impl SoftThread {
    /// Executes exactly one instruction: fetches the word at the counter,
    /// decodes it under the encoding table, and applies its semantics. The
    /// result is exactly what the step interpreter [`spec_step`] says; a
    /// fault (or ECALL/EBREAK) is reported with the state untouched, and
    /// the zero register still reads zero afterwards.
    pub fn execute(&mut self) -> (r: Result<(), Exception>)
        requires
            old(self).wf(),
        ensures
            final(self).wf(),
            ({
                let (m2, r2) = spec_step(old(self)@, old(self).enc_table);
                final(self)@ == m2 && r == r2
            }),
            r is Err ==> final(self)@ == old(self)@,
            final(self)@.x[0] == 0,
            final(self).enc_table == old(self).enc_table,
    {
        let w = match self.fetch() {
            Ok(w) => w,
            Err(e) => {
                return Err(e);
            },
        };
        let table = self.enc_table;
        let i = Instruction::decode(w, &table);
        proof {
            crate::instructions::lemma_decode_wf(w, old(self).enc_table);
            lemma_fault_no_effect(old(self)@, i);
        }
        match i {
            Instruction::Undefined => Err(Exception::IllegalInstruction),
            Instruction::Lui { .. } | Instruction::Auipc { .. } | Instruction::Jal { .. }
                | Instruction::Jalr { .. } => self.exec_jump(i),
            Instruction::Beq { .. } | Instruction::Bne { .. } | Instruction::Blt { .. }
                | Instruction::Bge { .. } | Instruction::Bltu { .. } | Instruction::Bgeu { .. }
                => self.exec_branch(i),
            Instruction::Lb { .. } | Instruction::Lh { .. } | Instruction::Lw { .. }
                | Instruction::Ld { .. } | Instruction::Lbu { .. } | Instruction::Lhu { .. }
                | Instruction::Lwu { .. } => self.exec_load(i),
            Instruction::Sb { .. } | Instruction::Sh { .. } | Instruction::Sw { .. }
                | Instruction::Sd { .. } | Instruction::Fsw { .. } | Instruction::Fsd { .. }
                | Instruction::Fsq { .. } => self.exec_store(i),
            Instruction::Flw { .. } | Instruction::Fld { .. } | Instruction::Flq { .. } => {
                self.exec_fp_load(i)
            },
            Instruction::Addi { .. } | Instruction::Slti { .. } | Instruction::Sltiu { .. }
                | Instruction::Xori { .. } | Instruction::Ori { .. } | Instruction::Andi { .. }
                | Instruction::Slli { .. } | Instruction::Srli { .. } | Instruction::Srai { .. }
                | Instruction::Addiw { .. } | Instruction::Slliw { .. } | Instruction::Srliw {
                ..
            } | Instruction::Sraiw { .. } => self.exec_alu_imm(i),
            Instruction::Add { .. } | Instruction::Sub { .. } | Instruction::Sll { .. }
                | Instruction::Slt { .. } | Instruction::Sltu { .. } | Instruction::Xor { .. }
                | Instruction::Srl { .. } | Instruction::Sra { .. } | Instruction::Or { .. }
                | Instruction::And { .. } | Instruction::Addw { .. } | Instruction::Subw { .. }
                | Instruction::Sllw { .. } | Instruction::Srlw { .. } | Instruction::Sraw { .. }
                => self.exec_alu_reg(i),
            Instruction::Mul { .. } | Instruction::Mulh { .. } | Instruction::Mulhsu { .. }
                | Instruction::Mulhu { .. } | Instruction::Div { .. } | Instruction::Divu { .. }
                | Instruction::Rem { .. } | Instruction::Remu { .. } | Instruction::Mulw { .. }
                | Instruction::Divw { .. } | Instruction::Divuw { .. } | Instruction::Remw { .. }
                | Instruction::Remuw { .. } => self.exec_muldiv(i),
            Instruction::Fence { .. } | Instruction::FenceI { .. } | Instruction::Ecall
                | Instruction::Ebreak => self.exec_system(i),
            Instruction::Csrrw { .. } | Instruction::Csrrs { .. } | Instruction::Csrrc { .. }
                | Instruction::Csrrwi { .. } | Instruction::Csrrsi { .. } | Instruction::Csrrci {
                ..
            } => self.exec_csr(i),
            Instruction::LrW { .. } | Instruction::ScW { .. } => self.exec_lr_sc_w(i),
            Instruction::AmoswapW { .. } | Instruction::AmoaddW { .. } | Instruction::AmoxorW {
                ..
            } | Instruction::AmoandW { .. } | Instruction::AmoorW { .. } | Instruction::AmominW {
                ..
            } | Instruction::AmomaxW { .. } | Instruction::AmominuW { .. }
                | Instruction::AmomaxuW { .. } => self.exec_amo_w(i),
            Instruction::LrD { .. } | Instruction::ScD { .. } => self.exec_lr_sc_d(i),
            Instruction::AmoswapD { .. } | Instruction::AmoaddD { .. } | Instruction::AmoxorD {
                ..
            } | Instruction::AmoandD { .. } | Instruction::AmoorD { .. } | Instruction::AmominD {
                ..
            } | Instruction::AmomaxD { .. } | Instruction::AmominuD { .. }
                | Instruction::AmomaxuD { .. } => self.exec_amo_d(i),
            Instruction::FmaddS { .. } | Instruction::FmsubS { .. } | Instruction::FnmsubS { .. }
                | Instruction::FnmaddS { .. } | Instruction::FaddS { .. } | Instruction::FsubS {
                ..
            } | Instruction::FmulS { .. } | Instruction::FdivS { .. } | Instruction::FsqrtS { .. }
                => self.exec_fp_s_arith(i),
            Instruction::FsgnjS { .. } | Instruction::FsgnjnS { .. } | Instruction::FsgnjxS { .. }
                | Instruction::FminS { .. } | Instruction::FmaxS { .. } | Instruction::FmvXW {
                ..
            } | Instruction::FeqS { .. } | Instruction::FltS { .. } | Instruction::FleS { .. }
                | Instruction::FclassS { .. } | Instruction::FmvWX { .. } => self.exec_fp_s_misc(
                i,
            ),
            Instruction::FcvtWS { .. } | Instruction::FcvtWUS { .. } | Instruction::FcvtLS { .. }
                | Instruction::FcvtLUS { .. } | Instruction::FcvtSW { .. } | Instruction::FcvtSWU {
                ..
            } | Instruction::FcvtSL { .. } | Instruction::FcvtSLU { .. } | Instruction::FcvtSD {
                ..
            } | Instruction::FcvtDS { .. } => self.exec_fp_s_cvt(i),
            Instruction::FmaddD { .. } | Instruction::FmsubD { .. } | Instruction::FnmsubD { .. }
                | Instruction::FnmaddD { .. } | Instruction::FaddD { .. } | Instruction::FsubD {
                ..
            } | Instruction::FmulD { .. } | Instruction::FdivD { .. } | Instruction::FsqrtD { .. }
                | Instruction::FmaddQ { .. } | Instruction::FmsubQ { .. } | Instruction::FnmsubQ {
                ..
            } | Instruction::FnmaddQ { .. } | Instruction::FaddQ { .. } | Instruction::FsubQ {
                ..
            } | Instruction::FmulQ { .. } | Instruction::FdivQ { .. } | Instruction::FsqrtQ { .. }
                => self.exec_fp_d_arith(i),
            Instruction::FsgnjD { .. } | Instruction::FsgnjnD { .. } | Instruction::FsgnjxD { .. }
                | Instruction::FminD { .. } | Instruction::FmaxD { .. } | Instruction::FeqD { .. }
                | Instruction::FltD { .. } | Instruction::FleD { .. } | Instruction::FclassD {
                ..
            } | Instruction::FmvXD { .. } | Instruction::FmvDX { .. } | Instruction::FsgnjQ { .. }
                | Instruction::FsgnjnQ { .. } | Instruction::FsgnjxQ { .. } | Instruction::FminQ {
                ..
            } | Instruction::FmaxQ { .. } | Instruction::FeqQ { .. } | Instruction::FltQ { .. }
                | Instruction::FleQ { .. } | Instruction::FclassQ { .. } => self.exec_fp_d_misc(i),
            Instruction::FcvtWD { .. } | Instruction::FcvtWUD { .. } | Instruction::FcvtLD { .. }
                | Instruction::FcvtLUD { .. } | Instruction::FcvtDW { .. } | Instruction::FcvtDWU {
                ..
            } | Instruction::FcvtDL { .. } | Instruction::FcvtDLU { .. } | Instruction::FcvtWQ {
                ..
            } | Instruction::FcvtWUQ { .. } | Instruction::FcvtLQ { .. } | Instruction::FcvtLUQ {
                ..
            } | Instruction::FcvtQW { .. } | Instruction::FcvtQWU { .. } | Instruction::FcvtQL {
                ..
            } | Instruction::FcvtQLU { .. } | Instruction::FcvtSQ { .. } | Instruction::FcvtQS {
                ..
            } | Instruction::FcvtDQ { .. } | Instruction::FcvtQD { .. } => self.exec_fp_d_cvt(i),
        }
    }
}

} // verus!
