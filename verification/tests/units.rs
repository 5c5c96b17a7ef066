//! Unit tests: the decoder, the arithmetic helpers, the floating-point
//! bit logic, the register naming, the encoding table and the bus.
use trecho::bits;
use trecho::encoding::{Base, EncodingTable, Extension};
use trecho::fp;
use trecho::instructions::Instruction;
use trecho::memory::Dram;
use trecho::register::{FRegister, Register};
use trecho::vm::Cpu;

#[test]
fn decode_addi() {
    let t = EncodingTable::default();
    assert_eq!(
        Instruction::decode(0x0050_0093, &t),
        Instruction::Addi { rd: 1, rs1: 0, imm: 5 }
    );
}

#[test]
fn decode_negative_immediate() {
    // ADDI x1, x0, -1
    let t = EncodingTable::default();
    assert_eq!(
        Instruction::decode(0xFFF0_0093, &t),
        Instruction::Addi { rd: 1, rs1: 0, imm: u64::MAX }
    );
}

#[test]
fn decode_branch_offset() {
    // BEQ x1, x2, -8
    let t = EncodingTable::default();
    assert_eq!(
        Instruction::decode(0xFE20_8CE3, &t),
        Instruction::Beq { rs1: 1, rs2: 2, imm: (-8i64) as u64 }
    );
}

#[test]
fn decode_jal_offset() {
    // JAL x1, +2048
    let t = EncodingTable::default();
    assert_eq!(
        Instruction::decode(0x0010_00EF, &t),
        Instruction::Jal { rd: 1, imm: 2048 }
    );
}

#[test]
fn decode_respects_extension_gates() {
    let rv64_all = EncodingTable::default();
    let bare = EncodingTable::new(Base::RV64I, &vec![]);
    let rv32 = EncodingTable::new(Base::RV32I, &vec![Extension::M]);
    // MUL x1,x2,x3 decodes only with M
    assert_eq!(
        Instruction::decode(0x0231_00B3, &rv64_all),
        Instruction::Mul { rd: 1, rs1: 2, rs2: 3 }
    );
    assert_eq!(Instruction::decode(0x0231_00B3, &bare), Instruction::Undefined);
    // LD is RV64-only
    assert_eq!(Instruction::decode(0x0000_B103, &rv32), Instruction::Undefined);
    assert_eq!(
        Instruction::decode(0x0000_B103, &rv64_all),
        Instruction::Ld { rd: 2, rs1: 1, imm: 0 }
    );
    // AMO needs A, FADD.D needs D
    assert_eq!(Instruction::decode(0x0041_20AF, &bare), Instruction::Undefined);
    assert_eq!(Instruction::decode(0x0220_81D3, &bare), Instruction::Undefined);
}

#[test]
fn decode_malformed_shift_is_undefined() {
    // SLLI with nonzero upper shamt bits
    let t = EncodingTable::default();
    assert_eq!(Instruction::decode(0x8010_9093, &t), Instruction::Undefined);
    assert_eq!(
        Instruction::decode(0x0010_9093, &t),
        Instruction::Slli { rd: 1, rs1: 1, shamt: 1 }
    );
}

#[test]
fn shift_amount_is_six_bits_on_rv64() {
    let t = EncodingTable::default();
    assert_eq!(
        Instruction::decode(0x03F1_9093, &t),
        Instruction::Slli { rd: 1, rs1: 3, shamt: 63 }
    );
}

#[test]
fn sign_extension_helpers() {
    assert_eq!(bits::sextb(0x7F), 0x7F);
    assert_eq!(bits::sextb(0x80), 0xFFFF_FFFF_FFFF_FF80);
    assert_eq!(bits::sexth(0x8000), 0xFFFF_FFFF_FFFF_8000);
    assert_eq!(bits::sextw(0x8000_0000), 0xFFFF_FFFF_8000_0000);
    assert_eq!(bits::sextw(0x7FFF_FFFF), 0x7FFF_FFFF);
}

#[test]
fn mul_high_matches_wide_multiplication() {
    assert_eq!(bits::mulhu(u64::MAX, u64::MAX), 0xFFFF_FFFF_FFFF_FFFE);
    // (-1) * (-1) = 1: the high half is zero
    assert_eq!(bits::mulh(u64::MAX, u64::MAX), 0);
    // (-1) * 2 = -2: the high half is all ones
    assert_eq!(bits::mulh(u64::MAX, 2), u64::MAX);
    // (-1 signed) * (2^63 unsigned) has high half -(2^63)/2^64 rounded down
    assert_eq!(bits::mulhsu(u64::MAX, 0x8000_0000_0000_0000), u64::MAX);
    let a: u64 = 0x1234_5678_9ABC_DEF0;
    let b: u64 = 0x0FED_CBA9_8765_4321;
    let wide = (a as u128) * (b as u128);
    assert_eq!(bits::mulhu(a, b), (wide >> 64) as u64);
}

#[test]
fn signed_division_truncates() {
    let a = (-7i64) as u64;
    let b = 2u64;
    assert_eq!(bits::div64(a, b), (-3i64) as u64);
    assert_eq!(bits::rem64(a, b), (-1i64) as u64);
    assert_eq!(bits::div64(7, (-2i64) as u64), (-3i64) as u64);
    assert_eq!(bits::rem64(7, (-2i64) as u64), 1);
}

#[test]
fn word_division_edge_cases() {
    // DIVW of INT32_MIN by -1 overflows to INT32_MIN, sign-extended
    let a = 0x8000_0000u64;
    let b = 0xFFFF_FFFFu64;
    assert_eq!(bits::divw(a, b), 0xFFFF_FFFF_8000_0000);
    assert_eq!(bits::remw(a, b), 0);
    assert_eq!(bits::divuw(5, 0), u64::MAX);
    assert_eq!(bits::remuw(5, 0), 5);
}

#[test]
fn divu_remu_recompose() {
    let a = 0xDEAD_BEEF_1234_5678u64;
    let b = 0x1_0001u64;
    assert_eq!(bits::divu64(a, b).wrapping_mul(b).wrapping_add(bits::remu64(a, b)), a);
}

#[test]
fn fclass_masks() {
    assert_eq!(fp::fclass64x(f64::NEG_INFINITY.to_bits()), 0x001);
    assert_eq!(fp::fclass64x((-1.5f64).to_bits()), 0x002);
    assert_eq!(fp::fclass64x((-0.0f64).to_bits()), 0x008);
    assert_eq!(fp::fclass64x(0.0f64.to_bits()), 0x010);
    assert_eq!(fp::fclass64x(1.5f64.to_bits()), 0x040);
    assert_eq!(fp::fclass64x(f64::INFINITY.to_bits()), 0x080);
    assert_eq!(fp::fclass64x(0x7FF8_0000_0000_0000), 0x200);
    assert_eq!(fp::fclass64x(0x7FF0_0000_0000_0001), 0x100);
    assert_eq!(fp::fclass64x(0x0000_0000_0000_0001), 0x020);
    assert_eq!(fp::fclass32x(f32::NEG_INFINITY.to_bits() as u64), 0x001);
    assert_eq!(fp::fclass32x(0x0000_0001), 0x020);
}

#[test]
fn fmin_fmax_follow_ieee() {
    let one = 1.0f64.to_bits();
    let two = 2.0f64.to_bits();
    let nan = 0x7FF8_0000_0000_0000u64;
    assert_eq!(fp::fmin64x(one, two), one);
    assert_eq!(fp::fmax64x(one, two), two);
    assert_eq!(fp::fmin64x(nan, two), two, "one NaN returns the other operand");
    assert_eq!(fp::fmax64x(one, nan), one);
    assert_eq!(fp::fmin64x(nan, nan), nan, "both NaN give the canonical NaN");
    let nz = (-0.0f64).to_bits();
    let pz = 0.0f64.to_bits();
    assert_eq!(fp::fmin64x(pz, nz), nz, "the minimum of the zeros is -0");
    assert_eq!(fp::fmax64x(nz, pz), pz);
}

#[test]
fn float_compares_follow_ieee() {
    let one = 1.0f64.to_bits();
    let two = 2.0f64.to_bits();
    let nan = 0x7FF8_0000_0000_0000u64;
    let nz = (-0.0f64).to_bits();
    let pz = 0.0f64.to_bits();
    assert!(fp::flt64x(one, two));
    assert!(!fp::flt64x(two, one));
    assert!(fp::feq64x(pz, nz), "the zeros compare equal");
    assert!(!fp::feq64x(nan, nan), "NaN is not equal to itself");
    assert!(!fp::fle64x(nan, one));
    assert!(fp::fle64x(one, one));
    let mone = (-1.0f64).to_bits();
    let mtwo = (-2.0f64).to_bits();
    assert!(fp::flt64x(mtwo, mone));
}

#[test]
fn register_names_convert() {
    assert_eq!(Register::from_field(0), Register::X0);
    assert_eq!(Register::from_field(31), Register::X31);
    assert_eq!(Register::X7.index(), 7);
    assert_eq!(Register::X32.index(), 32);
    assert_eq!(FRegister::from_field(15), FRegister::F15);
    assert_eq!(FRegister::F31.index(), 31);
}

#[test]
fn encoding_table_collects_extensions() {
    let t = EncodingTable::new(Base::RV32I, &vec![Extension::M, Extension::Zicsr]);
    assert_eq!(t.base, Base::RV32I);
    assert!(t.m && t.zicsr);
    assert!(!t.a && !t.f && !t.d && !t.q && !t.zifencei);
    let d = EncodingTable::default();
    assert_eq!(d.base, Base::RV64I);
    assert!(d.m && d.a && d.f && d.d && d.q && d.zicsr && d.zifencei);
}

#[test]
fn bus_is_little_endian() {
    let mut d = Dram::new(64);
    d.write(8, 0x1122_3344_5566_7788, 64).unwrap();
    assert_eq!(d.read(8, 8).unwrap(), 0x88);
    assert_eq!(d.read(9, 8).unwrap(), 0x77);
    assert_eq!(d.read(8, 16).unwrap(), 0x7788);
    assert_eq!(d.read(8, 32).unwrap(), 0x5566_7788);
    assert_eq!(d.read(8, 64).unwrap(), 0x1122_3344_5566_7788);
    assert_eq!(d.read(12, 32).unwrap(), 0x1122_3344);
    assert!(d.read(61, 32).is_err());
    assert!(d.write(64, 1, 8).is_err());
    assert_eq!(d.size(), 64);
}

#[test]
fn hart_accepts_a_custom_bus() {
    let bus = Dram::new(256);
    let t = trecho::soft::SoftThread::with_bus(EncodingTable::default(), bus);
    assert_eq!(t.read_xreg(2), 256, "the stack pointer starts at the bus top");
    assert_eq!(t.bus.size(), 256);
}

#[test]
fn cpu_hosts_fresh_cores() {
    let c = Cpu::new(2, EncodingTable::default());
    assert_eq!(c.cores.len(), 2);
    assert_eq!(c.cores[0].pc, 0);
    assert_eq!(c.cores[1].read_xreg(2), trecho::memory::MEM_SIZE);
}
