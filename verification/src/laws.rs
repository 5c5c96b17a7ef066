//! Laws of the instruction semantics, proved once and for all states:
//! reservation clearing and the store-conditional flag, the division
//! identity and edge rules, the NaN-boxing and byte-store round trips,
//! the ALU reference formulas at the step level, and the degenerate jump
//! forms, including the zero-offset jump as a fixed point of the step.
use vstd::prelude::*;

verus! {

use vstd::arithmetic::div_mod::{
    lemma_fundamental_div_mod,
    lemma_fundamental_div_mod_converse,
    lemma_small_mod,
};
use vstd::arithmetic::mul::lemma_mul_is_commutative;
use crate::bits::{
    div_s, divu_s, lemma_wadd_is_mod, lemma_wsub_is_mod, rem_s, remu_s, s64, sext32s, sext8s,
    to_u64, wadd, wmul, wsub,
};
use crate::encoding::EncodingTable;
use crate::exceptions::Exception;
use crate::fp::nan_box32;
use crate::instructions::{spec_decode, Instruction};
use crate::memory::in_range;
use crate::soft::{mf, mx, res_overlaps, spec_exec, spec_fetch, spec_step, wf_mach, MachView};

/// After a store-conditional word at `addr` completes, the reservation set
/// holds no entry equal to `addr`, whether the store succeeded or failed.
pub proof fn lemma_sc_w_clears_reservation(
    m: MachView,
    rd: u8,
    rs1: u8,
    rs2: u8,
    aq: bool,
    rl: bool,
)
    requires
        wf_mach(m),
        rs1 < 32,
    ensures
        ({
            let (m2, r) = spec_exec(m, Instruction::ScW { rd, rs1, rs2, aq, rl });
            r is Ok ==> !m2.res.contains(mx(m, rs1))
        }),
{
    let a = mx(m, rs1);
    let (m2, r) = spec_exec(m, Instruction::ScW { rd, rs1, rs2, aq, rl });
    if r is Ok {
        if m.res.contains(a) {
            assert(res_overlaps(a, a, 4));
            if m2.res.contains(a) {
                let j = choose|j: int| 0 <= j < m2.res.len() && m2.res[j] == a;
                m.res.lemma_filter_pred(|q: u64| !res_overlaps(q, a, 4), j);
            }
        } else {
            if m2.res.contains(a) {
                let j = choose|j: int| 0 <= j < m2.res.len() && m2.res[j] == a;
                m.res.lemma_filter_pred(|q: u64| q != a, j);
            }
        }
    }
}

/// The unsigned division identity: for a nonzero divisor, quotient times
/// divisor plus remainder recovers the dividend, exactly.
pub proof fn lemma_divu_remu_identity(a: u64, b: u64)
    requires
        b != 0,
    ensures
        divu_s(a, b) * b + remu_s(a, b) == a,
{
    lemma_fundamental_div_mod(a as int, b as int);
    lemma_mul_is_commutative(b as int, a as int / b as int);
}

/// Moving an integer pattern into a floating-point register and back is
/// the identity on the low 32 bits, and the register's upper bits are the
/// all-ones NaN box.
pub proof fn lemma_fmv_round_trip(x: u64)
    ensures
        sext32s(nan_box32(x)) % 0x1_0000_0000 == x % 0x1_0000_0000,
        nan_box32(x) as int / 0x1_0000_0000 == 0xFFFF_FFFF,
{
    let w = x % 0x1_0000_0000;
    let f = nan_box32(x);
    lemma_fundamental_div_mod_converse(f as int, 0x1_0000_0000, 0xFFFF_FFFF, w as int);
    if w >= 0x8000_0000 {
        lemma_fundamental_div_mod_converse(
            sext32s(f) as int,
            0x1_0000_0000,
            0xFFFF_FFFF,
            w as int,
        );
    }
}

/// Division by zero returns all ones (-1) and leaves the dividend as the
/// remainder; no fault is raised.
pub proof fn lemma_div_by_zero(x: u64)
    ensures
        div_s(x, 0) == u64::MAX,
        rem_s(x, 0) == x,
{
}

/// The signed overflow case: the most negative value divided by minus one
/// returns itself with remainder zero; no fault is raised.
pub proof fn lemma_div_overflow()
    ensures
        div_s(0x8000_0000_0000_0000, u64::MAX) == 0x8000_0000_0000_0000,
        rem_s(0x8000_0000_0000_0000, u64::MAX) == 0,
        s64(u64::MAX) == -1,
{
}

/// A jump-and-link with a zero offset lands on its own, aligned address:
/// the counter does not move and no misalignment is raised, so the
/// instruction loops forever.
pub proof fn lemma_jal_zero_loops(m: MachView, rd: u8)
    requires
        wf_mach(m),
        rd < 32,
    ensures
        ({
            let (m2, r) = spec_exec(m, Instruction::Jal { rd, imm: 0 });
            r is Ok && m2.pc == m.pc
        }),
{
}

/// AUIPC with a zero immediate writes the current counter to its
/// destination register (a nonzero one; x0 discards every write).
pub proof fn lemma_auipc_zero_writes_pc(m: MachView, rd: u8)
    requires
        wf_mach(m),
        0 < rd < 32,
    ensures
        ({
            let (m2, r) = spec_exec(m, Instruction::Auipc { rd, imm: 0 });
            r is Ok && m2.x[rd as int] == m.pc && m2.pc == wadd(m.pc, 4)
        }),
{
}

/// The ALU reference formulas: the wrapping operations the arithmetic
/// instructions write are exactly the manual's formulas modulo 2^64.
pub proof fn lemma_alu_reference_formulas(a: u64, b: u64)
    ensures
        wadd(a, b) == to_u64(a + b),
        wsub(a, b) == to_u64(a - b),
        wmul(a, b) == to_u64(a * b),
{
    lemma_wadd_is_mod(a, b);
    lemma_wsub_is_mod(a, b);
}

/// An atomic operation on a misaligned address faults without side
/// effects, shown for the word-sized reserved load, conditional store and
/// read-modify-write.
pub proof fn lemma_misaligned_atomics_fault(
    m: MachView,
    rd: u8,
    rs1: u8,
    rs2: u8,
    aq: bool,
    rl: bool,
)
    requires
        wf_mach(m),
        rs1 < 32,
        mx(m, rs1) % 4 != 0,
    ensures
        spec_exec(m, Instruction::LrW { rd, rs1, aq, rl }) == (
            m,
            Result::<(), crate::exceptions::Exception>::Err(
                crate::exceptions::Exception::LoadAddressMisaligned,
            ),
        ),
        spec_exec(m, Instruction::ScW { rd, rs1, rs2, aq, rl }) == (
            m,
            Result::<(), crate::exceptions::Exception>::Err(
                crate::exceptions::Exception::StoreAddressMisaligned,
            ),
        ),
        spec_exec(m, Instruction::AmoaddW { rd, rs1, rs2, aq, rl }) == (
            m,
            Result::<(), crate::exceptions::Exception>::Err(
                crate::exceptions::Exception::StoreAddressMisaligned,
            ),
        ),
{
}

/// The flag a store-conditional word writes: zero on success (the address
/// was reserved and the store landed), one on failure, into a nonzero
/// destination; x0 would discard the flag.
pub proof fn lemma_sc_w_result_flag(m: MachView, rd: u8, rs1: u8, rs2: u8, aq: bool, rl: bool)
    requires
        wf_mach(m),
        0 < rd < 32,
        rs1 < 32,
        mx(m, rs1) % 4 == 0,
    ensures
        ({
            let (m2, r) = spec_exec(m, Instruction::ScW { rd, rs1, rs2, aq, rl });
            let a = mx(m, rs1);
            &&& m.res.contains(a) && in_range(m.mem.len(), a, 4) ==> r is Ok && m2.x[rd as int]
                == 0
            &&& !m.res.contains(a) ==> r is Ok && m2.x[rd as int] == 1
        }),
{
}

/// The signed-division edge rules at the step level: the overflow pair
/// returns the dividend with remainder zero, and division by zero returns
/// all ones with the dividend as remainder; no step faults and the
/// counter advances. The destination is nonzero; x0 discards the result.
pub proof fn lemma_div_edge_steps(m: MachView, rd: u8, rs1: u8, rs2: u8)
    requires
        wf_mach(m),
        0 < rd < 32,
        rs1 < 32,
        rs2 < 32,
    ensures
        mx(m, rs1) == 0x8000_0000_0000_0000 && mx(m, rs2) == u64::MAX ==> ({
            let (md, r1) = spec_exec(m, Instruction::Div { rd, rs1, rs2 });
            let (mr, r2) = spec_exec(m, Instruction::Rem { rd, rs1, rs2 });
            &&& r1 is Ok && md.x[rd as int] == 0x8000_0000_0000_0000 && md.pc == wadd(m.pc, 4)
            &&& r2 is Ok && mr.x[rd as int] == 0
        }),
        mx(m, rs2) == 0 ==> ({
            let (md, r1) = spec_exec(m, Instruction::Div { rd, rs1, rs2 });
            let (mu, r2) = spec_exec(m, Instruction::Divu { rd, rs1, rs2 });
            let (mr, r3) = spec_exec(m, Instruction::Rem { rd, rs1, rs2 });
            let (mv, r4) = spec_exec(m, Instruction::Remu { rd, rs1, rs2 });
            &&& r1 is Ok && md.x[rd as int] == u64::MAX && md.pc == wadd(m.pc, 4)
            &&& r2 is Ok && mu.x[rd as int] == u64::MAX
            &&& r3 is Ok && mr.x[rd as int] == mx(m, rs1)
            &&& r4 is Ok && mv.x[rd as int] == mx(m, rs1)
        }),
{
}

/// A jump-and-link with a zero offset, at the step level: the link lands
/// in a nonzero destination, the counter stays put, and the resulting
/// state is a fixed point of the whole step — the HART loops forever and
/// never misaligns.
pub proof fn lemma_jal_zero_fixed_point(m: MachView, t: EncodingTable, w: u32, rd: u8)
    requires
        wf_mach(m),
        rd < 32,
        spec_fetch(m) == (Result::<u32, Exception>::Ok(w)),
        spec_decode(w, t) == (Instruction::Jal { rd, imm: 0u64 }),
    ensures
        ({
            let (m2, r) = spec_step(m, t);
            &&& r is Ok
            &&& m2.pc == m.pc
            &&& rd != 0 ==> m2.x[rd as int] == wadd(m.pc, 4)
            &&& spec_step(m2, t) == (m2, Result::<(), Exception>::Ok(()))
        }),
{
    let (m2, r) = spec_step(m, t);
    if rd != 0 {
        assert(m2.x.update(rd as int, wadd(m.pc, 4)) =~= m2.x);
    }
    assert(spec_step(m2, t).0 =~= m2);
}

/// The NaN-boxing round trip at the step level: moving an integer pattern
/// into the floating-point file and back sign-extends its low 32 bits into
/// a nonzero destination, leaving those bits intact.
pub proof fn lemma_fmv_round_trip_steps(m: MachView, f: u8, x: u8, rd: u8)
    requires
        wf_mach(m),
        f < 32,
        x < 32,
        0 < rd < 32,
    ensures
        ({
            let (m1, r1) = spec_exec(m, Instruction::FmvWX { rd: f, rs1: x });
            let (m2, r2) = spec_exec(m1, Instruction::FmvXW { rd, rs1: f });
            &&& r1 is Ok && r2 is Ok
            &&& m2.x[rd as int] == sext32s(mx(m, x))
            &&& m2.x[rd as int] % 0x1_0000_0000 == mx(m, x) % 0x1_0000_0000
        }),
{
    let v = mx(m, x);
    lemma_fmv_round_trip(v);
    lemma_fundamental_div_mod_converse(
        nan_box32(v) as int,
        0x1_0000_0000,
        0xFFFF_FFFF,
        (v % 0x1_0000_0000) as int,
    );
}

/// The byte round trip at the step level: a byte stored by SB and loaded
/// back by LB from the same effective address arrives sign-extended in a
/// nonzero destination, with the counter advanced past both instructions.
pub proof fn lemma_sb_lb_round_trip_steps(m: MachView, rd: u8, rs1: u8, rs2: u8, imm: u64)
    requires
        wf_mach(m),
        0 < rd < 32,
        rs1 < 32,
        rs2 < 32,
    ensures
        ({
            let a = wadd(mx(m, rs1), imm);
            let (m1, r1) = spec_exec(m, Instruction::Sb { rs1, rs2, imm });
            let (m2, r2) = spec_exec(m1, Instruction::Lb { rd, rs1, imm });
            in_range(m.mem.len(), a, 1) ==> {
                &&& r1 is Ok && r2 is Ok
                &&& m2.x[rd as int] == sext8s(mx(m, rs2))
                &&& m2.pc == wadd(wadd(m.pc, 4), 4)
            }
        }),
{
    let v = mx(m, rs2);
    lemma_small_mod((v % 0x100) as nat, 0x100nat);
}

/// The unsigned division identity at the step level: DIVU then REMU over
/// unchanged sources land quotient and remainder in two distinct nonzero
/// destinations, and they recompose the dividend exactly.
pub proof fn lemma_divu_remu_steps(m: MachView, q: u8, r: u8, rs1: u8, rs2: u8)
    requires
        wf_mach(m),
        0 < q < 32,
        0 < r < 32,
        q != r,
        rs1 < 32,
        rs2 < 32,
        q != rs1,
        q != rs2,
        mx(m, rs2) != 0,
    ensures
        ({
            let a = mx(m, rs1);
            let d = mx(m, rs2);
            let (m1, r1) = spec_exec(m, Instruction::Divu { rd: q, rs1, rs2 });
            let (m2, r2) = spec_exec(m1, Instruction::Remu { rd: r, rs1, rs2 });
            &&& r1 is Ok && r2 is Ok
            &&& m2.x[q as int] == a / d
            &&& m2.x[r as int] == a % d
            &&& m2.x[q as int] * d + m2.x[r as int] == a
            &&& m2.x[r as int] < d
        }),
{
    let a = mx(m, rs1);
    let d = mx(m, rs2);
    lemma_fundamental_div_mod(a as int, d as int);
    lemma_mul_is_commutative(d as int, a as int / d as int);
}

/// The register ALU forms at the step level: each writes the manual's
/// reference formula — sums, differences and products modulo 2^64, masked
/// shifts, signed and unsigned comparison bits, bitwise combinations —
/// into a nonzero destination and advances the counter.
#[verifier::rlimit(60)]
pub proof fn lemma_alu_reg_steps(m: MachView, rd: u8, rs1: u8, rs2: u8)
    requires
        wf_mach(m),
        0 < rd < 32,
        rs1 < 32,
        rs2 < 32,
    ensures
        ({
            let (m2, r) = spec_exec(m, Instruction::Add { rd, rs1, rs2 });
            r is Ok && m2.x[rd as int] == to_u64(mx(m, rs1) + mx(m, rs2)) && m2.pc == wadd(m.pc, 4)
        }),
        ({
            let (m2, r) = spec_exec(m, Instruction::Sub { rd, rs1, rs2 });
            r is Ok && m2.x[rd as int] == to_u64(mx(m, rs1) - mx(m, rs2)) && m2.pc == wadd(m.pc, 4)
        }),
        ({
            let (m2, r) = spec_exec(m, Instruction::Mul { rd, rs1, rs2 });
            r is Ok && m2.x[rd as int] == to_u64(mx(m, rs1) * mx(m, rs2)) && m2.pc == wadd(m.pc, 4)
        }),
        ({
            let (m2, r) = spec_exec(m, Instruction::Sll { rd, rs1, rs2 });
            r is Ok && m2.x[rd as int] == mx(m, rs1) << (mx(m, rs2) % 64)
        }),
        ({
            let (m2, r) = spec_exec(m, Instruction::Srl { rd, rs1, rs2 });
            r is Ok && m2.x[rd as int] == mx(m, rs1) >> (mx(m, rs2) % 64)
        }),
        ({
            let (m2, r) = spec_exec(m, Instruction::Sra { rd, rs1, rs2 });
            r is Ok && m2.x[rd as int] == ((mx(m, rs1) as i64) >> (mx(m, rs2) % 64)) as u64
        }),
        ({
            let (m2, r) = spec_exec(m, Instruction::Slt { rd, rs1, rs2 });
            r is Ok && m2.x[rd as int] == (if s64(mx(m, rs1)) < s64(mx(m, rs2)) {
                1u64
            } else {
                0u64
            })
        }),
        ({
            let (m2, r) = spec_exec(m, Instruction::Sltu { rd, rs1, rs2 });
            r is Ok && m2.x[rd as int] == (if mx(m, rs1) < mx(m, rs2) {
                1u64
            } else {
                0u64
            })
        }),
        ({
            let (m2, r) = spec_exec(m, Instruction::Xor { rd, rs1, rs2 });
            r is Ok && m2.x[rd as int] == (mx(m, rs1) ^ mx(m, rs2))
        }),
        ({
            let (m2, r) = spec_exec(m, Instruction::Or { rd, rs1, rs2 });
            r is Ok && m2.x[rd as int] == (mx(m, rs1) | mx(m, rs2))
        }),
        ({
            let (m2, r) = spec_exec(m, Instruction::And { rd, rs1, rs2 });
            r is Ok && m2.x[rd as int] == (mx(m, rs1) & mx(m, rs2))
        }),
{
    lemma_wadd_is_mod(mx(m, rs1), mx(m, rs2));
    lemma_wsub_is_mod(mx(m, rs1), mx(m, rs2));
}

/// The immediate ALU forms at the step level, with the immediate already
/// sign-extended as the decoder delivers it.
#[verifier::rlimit(60)]
pub proof fn lemma_alu_imm_steps(m: MachView, rd: u8, rs1: u8, imm: u64)
    requires
        wf_mach(m),
        0 < rd < 32,
        rs1 < 32,
    ensures
        ({
            let (m2, r) = spec_exec(m, Instruction::Addi { rd, rs1, imm });
            r is Ok && m2.x[rd as int] == to_u64(mx(m, rs1) + imm) && m2.pc == wadd(m.pc, 4)
        }),
        ({
            let (m2, r) = spec_exec(m, Instruction::Xori { rd, rs1, imm });
            r is Ok && m2.x[rd as int] == (mx(m, rs1) ^ imm)
        }),
        ({
            let (m2, r) = spec_exec(m, Instruction::Ori { rd, rs1, imm });
            r is Ok && m2.x[rd as int] == (mx(m, rs1) | imm)
        }),
        ({
            let (m2, r) = spec_exec(m, Instruction::Andi { rd, rs1, imm });
            r is Ok && m2.x[rd as int] == (mx(m, rs1) & imm)
        }),
        ({
            let (m2, r) = spec_exec(m, Instruction::Slti { rd, rs1, imm });
            r is Ok && m2.x[rd as int] == (if s64(mx(m, rs1)) < s64(imm) {
                1u64
            } else {
                0u64
            })
        }),
        ({
            let (m2, r) = spec_exec(m, Instruction::Sltiu { rd, rs1, imm });
            r is Ok && m2.x[rd as int] == (if mx(m, rs1) < imm {
                1u64
            } else {
                0u64
            })
        }),
{
    lemma_wadd_is_mod(mx(m, rs1), imm);
}

} // verus!
