//! End-to-end scenarios: programs run on a fresh HART.
use trecho::exceptions::Exception;
use trecho::soft::SoftThread;

#[test]
fn addi_writes_five() {
    // ADDI x1, x0, 5
    let mut t = SoftThread::default();
    t.load_program(vec![0x93, 0x00, 0x50, 0x00]).unwrap();
    assert_eq!(t.pc, 0);
    t.execute().unwrap();
    assert_eq!(t.read_xreg(1), 5);
    assert_eq!(t.pc, 4);
}

#[test]
fn lui_writes_upper_immediate() {
    // LUI x5, 0x12345
    let mut t = SoftThread::default();
    t.load_program(vec![0xB7, 0x52, 0x34, 0x12]).unwrap();
    t.execute().unwrap();
    assert_eq!(t.read_xreg(5), 0x0000_0000_1234_5000);
}

#[test]
fn add_program_sums() {
    // ADDI x1,x0,3; ADDI x2,x0,4; ADD x3,x1,x2
    let mut t = SoftThread::default();
    let mut code: Vec<u8> = Vec::new();
    code.extend_from_slice(&0x0030_0093u32.to_le_bytes());
    code.extend_from_slice(&0x0040_0113u32.to_le_bytes());
    code.extend_from_slice(&0x0020_81B3u32.to_le_bytes());
    t.load_program(code).unwrap();
    t.execute().unwrap();
    t.execute().unwrap();
    t.execute().unwrap();
    assert_eq!(t.read_xreg(3), 7);
    assert_eq!(t.pc, 12);
}

#[test]
fn lr_sc_succeeds_without_intervening_store() {
    // LR.W x1,(x2); SC.W x3,x4,(x2) with X[2]=0x80
    let mut t = SoftThread::default();
    let mut code: Vec<u8> = Vec::new();
    code.extend_from_slice(&0x1001_20AFu32.to_le_bytes());
    code.extend_from_slice(&0x1841_21AFu32.to_le_bytes());
    t.load_program(code).unwrap();
    t.write_xreg(2, 0x80);
    t.write_xreg(4, 0xDEAD_BEEF_0000_1234);
    t.execute().unwrap();
    assert!(t.res.contains(&0x80));
    t.execute().unwrap();
    assert_eq!(t.read_xreg(3), 0, "store-conditional must succeed");
    assert_eq!(t.bus.read(0x80, 32).unwrap(), 0x0000_1234);
    assert!(!t.res.contains(&0x80), "reservation must be cleared");
}

#[test]
fn sc_without_reservation_fails() {
    // SC.W x3,x4,(x2) with no reservation held
    let mut t = SoftThread::default();
    t.load_program(0x1841_21AFu32.to_le_bytes().to_vec()).unwrap();
    t.write_xreg(2, 0x80);
    t.write_xreg(4, 77);
    t.execute().unwrap();
    assert_eq!(t.read_xreg(3), 1, "store-conditional must fail");
    assert_eq!(t.bus.read(0x80, 32).unwrap(), 0, "no store may happen");
}

#[test]
fn div_int_min_by_minus_one() {
    // DIV x1,x2,x3 with X[2]=INT64_MIN, X[3]=-1
    let mut t = SoftThread::default();
    t.load_program(0x0231_40B3u32.to_le_bytes().to_vec()).unwrap();
    t.write_xreg(2, i64::MIN as u64);
    t.write_xreg(3, (-1i64) as u64);
    t.execute().unwrap();
    assert_eq!(t.read_xreg(1), i64::MIN as u64);
    assert_eq!(t.pc, 4);
}

#[test]
fn fadd_d_sums_doubles() {
    // FADD.D f3,f1,f2 with F[1]=1.5, F[2]=2.25
    let mut t = SoftThread::default();
    t.load_program(0x0220_81D3u32.to_le_bytes().to_vec()).unwrap();
    t.write_freg(1, 1.5f64.to_bits());
    t.write_freg(2, 2.25f64.to_bits());
    t.execute().unwrap();
    assert_eq!(t.read_freg(3), 3.75f64.to_bits());
    assert_eq!(t.pc, 4);
}

#[test]
fn fsqrt_d_is_exact() {
    // FSQRT.D f1,f2 of 2.25 is 1.5
    let mut t = SoftThread::default();
    // f7=0x2D, rs2=0, rs1=2, rm=0, rd=1, opcode 0x53
    t.load_program(0x5A01_00D3u32.to_le_bytes().to_vec()).unwrap();
    t.write_freg(2, 2.25f64.to_bits());
    t.execute().unwrap();
    assert_eq!(t.read_freg(1), 1.5f64.to_bits());
}

#[test]
fn fmadd_d_fuses() {
    // FMADD.D f4,f1,f2,f3 computes 2*3+1
    let mut t = SoftThread::default();
    // rs3=3 -> bits[31:27], fmt=01, rs2=2, rs1=1, rm=0, rd=4, opcode 0x43
    t.load_program(0x1A20_8243u32.to_le_bytes().to_vec()).unwrap();
    t.write_freg(1, 2.0f64.to_bits());
    t.write_freg(2, 3.0f64.to_bits());
    t.write_freg(3, 1.0f64.to_bits());
    t.execute().unwrap();
    assert_eq!(t.read_freg(4), 7.0f64.to_bits());
}

#[test]
fn fadd_s_runs_on_boxed_values() {
    // FADD.S f3,f1,f2 on NaN-boxed singles: 1.25 + 0.5
    let mut t = SoftThread::default();
    t.load_program(0x0020_81D3u32.to_le_bytes().to_vec()).unwrap();
    t.write_freg(1, 0xFFFF_FFFF_0000_0000 | 1.25f32.to_bits() as u64);
    t.write_freg(2, 0xFFFF_FFFF_0000_0000 | 0.5f32.to_bits() as u64);
    t.execute().unwrap();
    assert_eq!(t.read_freg(3), 0xFFFF_FFFF_0000_0000 | 1.75f32.to_bits() as u64);
}

#[test]
fn fcvt_w_d_truncates_toward_zero() {
    // FCVT.W.D x1,f2 with rm=001 (toward zero) of -3.7 gives -3
    let mut t = SoftThread::default();
    // f7=0x61, rs2=0, rs1=2, rm=1, rd=1, opcode 0x53
    t.load_program(0xC201_10D3u32.to_le_bytes().to_vec()).unwrap();
    t.write_freg(2, (-3.7f64).to_bits());
    t.execute().unwrap();
    assert_eq!(t.read_xreg(1), (-3i64) as u64);
}

#[test]
fn fcvt_d_w_is_exact() {
    // FCVT.D.W f1,x2 of 7 gives 7.0
    let mut t = SoftThread::default();
    // f7=0x69, rs2=0, rs1=2, rm=0, rd=1, opcode 0x53
    t.load_program(0xD201_00D3u32.to_le_bytes().to_vec()).unwrap();
    t.write_xreg(2, 7);
    t.execute().unwrap();
    assert_eq!(t.read_freg(1), 7.0f64.to_bits());
}

#[test]
fn fmv_round_trip_boxes() {
    // FMV.W.X f1,x2 then FMV.X.W x3,f1: low 32 bits survive, upper bits
    // are the NaN box
    let mut t = SoftThread::default();
    let mut code: Vec<u8> = Vec::new();
    // FMV.W.X: f7=0x78, rs2=0, rs1=2, f3=0, rd=1, opcode 0x53
    code.extend_from_slice(&0xF001_00D3u32.to_le_bytes());
    // FMV.X.W: f7=0x70, rs2=0, rs1=1, f3=0, rd=3, opcode 0x53
    code.extend_from_slice(&0xE000_81D3u32.to_le_bytes());
    t.load_program(code).unwrap();
    t.write_xreg(2, 0xAAAA_BBBB_8123_4567);
    t.execute().unwrap();
    assert_eq!(t.read_freg(1), 0xFFFF_FFFF_8123_4567);
    t.execute().unwrap();
    assert_eq!(t.read_xreg(3), 0xFFFF_FFFF_8123_4567);
}

#[test]
fn sb_lb_sign_extends() {
    // SB x2,0(x1) then LB x3,0(x1) of 0x80 returns the sign extension
    let mut t = SoftThread::default();
    let mut code: Vec<u8> = Vec::new();
    // SB x2, 0(x1): imm=0, rs2=2, rs1=1, f3=0, opcode 0x23
    code.extend_from_slice(&0x0020_8023u32.to_le_bytes());
    // LB x3, 0(x1): imm=0, rs1=1, f3=0, rd=3, opcode 0x03
    code.extend_from_slice(&0x0000_8183u32.to_le_bytes());
    t.load_program(code).unwrap();
    t.write_xreg(1, 0x100);
    t.write_xreg(2, 0x80);
    t.execute().unwrap();
    t.execute().unwrap();
    assert_eq!(t.read_xreg(3), 0xFFFF_FFFF_FFFF_FF80);
}

#[test]
fn lw_sw_leaves_memory_unchanged() {
    // LW x2,0(x1) then SW x2,0(x1): the word is stored back unchanged
    let mut t = SoftThread::default();
    let mut code: Vec<u8> = Vec::new();
    code.extend_from_slice(&0x0000_A103u32.to_le_bytes());
    code.extend_from_slice(&0x0020_A023u32.to_le_bytes());
    t.load_program(code).unwrap();
    t.bus.write(0x200, 0x8765_4321, 32).unwrap();
    t.write_xreg(1, 0x200);
    t.execute().unwrap();
    t.execute().unwrap();
    assert_eq!(t.bus.read(0x200, 32).unwrap(), 0x8765_4321);
}

#[test]
fn jal_zero_offset_loops() {
    // JAL x1, 0 jumps to itself
    let mut t = SoftThread::default();
    t.load_program(0x0000_00EFu32.to_le_bytes().to_vec()).unwrap();
    t.execute().unwrap();
    assert_eq!(t.pc, 0);
    assert_eq!(t.read_xreg(1), 4);
    t.execute().unwrap();
    assert_eq!(t.pc, 0);
}

#[test]
fn auipc_zero_writes_pc() {
    // AUIPC x1, 0 at PC=4 writes 4
    let mut t = SoftThread::default();
    let mut code: Vec<u8> = Vec::new();
    code.extend_from_slice(&0x0000_0013u32.to_le_bytes());  // ADDI x0,x0,0
    code.extend_from_slice(&0x0000_0097u32.to_le_bytes());  // AUIPC x1,0
    t.load_program(code).unwrap();
    t.execute().unwrap();
    t.execute().unwrap();
    assert_eq!(t.read_xreg(1), 4);
}

#[test]
fn writes_to_x0_are_discarded() {
    // ADDI x0, x0, 5 leaves x0 at zero
    let mut t = SoftThread::default();
    t.load_program(vec![0x13, 0x00, 0x50, 0x00]).unwrap();
    t.execute().unwrap();
    assert_eq!(t.read_xreg(0), 0);
    assert_eq!(t.pc, 4);
}

#[test]
fn ecall_and_ebreak_suspend() {
    let mut t = SoftThread::default();
    let mut code: Vec<u8> = Vec::new();
    code.extend_from_slice(&0x0000_0073u32.to_le_bytes());
    code.extend_from_slice(&0x0010_0073u32.to_le_bytes());
    t.load_program(code).unwrap();
    assert_eq!(t.execute(), Err(Exception::EnvironmentCall));
    assert_eq!(t.pc, 0, "the counter must not advance");
    t.pc = 4;
    assert_eq!(t.execute(), Err(Exception::Breakpoint));
    assert_eq!(t.pc, 4);
}

#[test]
fn undefined_opcode_is_illegal() {
    let mut t = SoftThread::default();
    t.load_program(vec![0xFF, 0xFF, 0xFF, 0xFF]).unwrap();
    assert_eq!(t.execute(), Err(Exception::IllegalInstruction));
}

#[test]
fn misaligned_branch_target_faults() {
    // BEQ x0, x0, +2: taken, target misaligned
    let mut t = SoftThread::default();
    t.load_program(0x0000_0163u32.to_le_bytes().to_vec()).unwrap();
    assert_eq!(t.execute(), Err(Exception::InstructionAddressMisaligned));
    assert_eq!(t.pc, 0);
}

#[test]
fn load_outside_bus_faults() {
    // LW x2, 0(x1) with X[1] past the end of memory
    let mut t = SoftThread::default();
    t.load_program(0x0000_A103u32.to_le_bytes().to_vec()).unwrap();
    t.write_xreg(1, 0xFFFF_FFFF_0000_0000);
    assert_eq!(t.execute(), Err(Exception::LoadAccessFault));
    // x2 keeps its reset value, the stack pointer at the top of memory
    assert_eq!(t.read_xreg(2), trecho::memory::MEM_SIZE);
}

#[test]
fn store_outside_bus_faults() {
    // SW x2, 0(x1) with X[1] past the end of memory
    let mut t = SoftThread::default();
    t.load_program(0x0020_A023u32.to_le_bytes().to_vec()).unwrap();
    t.write_xreg(1, 0xFFFF_FFFF_0000_0000);
    assert_eq!(t.execute(), Err(Exception::StoreAccessFault));
}

#[test]
fn misaligned_lr_faults_without_side_effects() {
    // LR.W x1,(x2) with X[2]=0x82
    let mut t = SoftThread::default();
    t.load_program(0x1001_20AFu32.to_le_bytes().to_vec()).unwrap();
    t.write_xreg(2, 0x82);
    assert_eq!(t.execute(), Err(Exception::LoadAddressMisaligned));
    assert_eq!(t.pc, 0);
    assert!(t.res.is_empty());
}

#[test]
fn misaligned_sc_faults_without_side_effects() {
    // SC.W x3,x4,(x2) with X[2]=0x82
    let mut t = SoftThread::default();
    t.load_program(0x1841_21AFu32.to_le_bytes().to_vec()).unwrap();
    t.write_xreg(2, 0x82);
    t.write_xreg(4, 9);
    assert_eq!(t.execute(), Err(Exception::StoreAddressMisaligned));
    assert_eq!(t.bus.read(0x80, 32).unwrap(), 0);
}

#[test]
fn plain_store_invalidates_reservation() {
    // LR.W x1,(x2); SW x4,0(x2); SC.W x3,x4,(x2): the store between them
    // kills the reservation, so the store-conditional fails
    let mut t = SoftThread::default();
    let mut code: Vec<u8> = Vec::new();
    code.extend_from_slice(&0x1001_20AFu32.to_le_bytes());
    code.extend_from_slice(&0x0041_2023u32.to_le_bytes());
    code.extend_from_slice(&0x1841_21AFu32.to_le_bytes());
    t.load_program(code).unwrap();
    t.write_xreg(2, 0x80);
    t.write_xreg(4, 42);
    t.execute().unwrap();
    t.execute().unwrap();
    assert!(t.res.is_empty(), "the plain store must clear the reservation");
    t.execute().unwrap();
    assert_eq!(t.read_xreg(3), 1, "the store-conditional must fail");
}

#[test]
fn program_too_large_is_rejected() {
    let mut t = SoftThread::default();
    let r = t.load_program(vec![0u8; 4097]);
    assert_eq!(r, Err(Exception::ProgramTooLarge));
    let ok = t.load_program(vec![0u8; 4096]);
    assert!(ok.is_ok());
}

#[test]
fn fetch_past_program_end_faults() {
    let mut t = SoftThread::default();
    t.load_program(vec![0x13, 0x00]).unwrap();
    assert_eq!(t.execute(), Err(Exception::LoadAccessFault));
}

#[test]
fn csr_read_modify_write() {
    // CSRRWI x1, 0x340, 5 then CSRRSI x2, 0x340, 2
    let mut t = SoftThread::default();
    let mut code: Vec<u8> = Vec::new();
    // csr=0x340, uimm=5, f3=5, rd=1, opcode 0x73
    code.extend_from_slice(&0x3402_D0F3u32.to_le_bytes());
    // csr=0x340, uimm=2, f3=6, rd=2, opcode 0x73
    code.extend_from_slice(&0x3401_6173u32.to_le_bytes());
    t.load_program(code).unwrap();
    t.execute().unwrap();
    t.execute().unwrap();
    assert_eq!(t.read_xreg(2), 5, "the old value is read back");
    assert_eq!(t.csr[0x340], 7, "the set bits are OR-ed in");
}

#[test]
fn csr_write_to_read_only_faults() {
    // CSRRW x1, 0xC00, x2: the top two bits of the index mark it read-only
    let mut t = SoftThread::default();
    t.load_program(0xC001_10F3u32.to_le_bytes().to_vec()).unwrap();
    assert_eq!(t.execute(), Err(Exception::IllegalInstruction));
}

#[test]
fn amoadd_w_adds_and_returns_old() {
    // AMOADD.W x1,x4,(x2)
    let mut t = SoftThread::default();
    // f5=0, rs2=4, rs1=2, f3=2, rd=1, opcode 0x2F
    t.load_program(0x0041_20AFu32.to_le_bytes().to_vec()).unwrap();
    t.bus.write(0x80, 10, 32).unwrap();
    t.write_xreg(2, 0x80);
    t.write_xreg(4, 32);
    t.execute().unwrap();
    assert_eq!(t.read_xreg(1), 10, "rd receives the old word");
    assert_eq!(t.bus.read(0x80, 32).unwrap(), 42);
}

#[test]
fn div_by_zero_gives_minus_one_and_dividend() {
    // DIV x1,x2,x3 and REM x4,x2,x3 with X[3]=0
    let mut t = SoftThread::default();
    let mut code: Vec<u8> = Vec::new();
    code.extend_from_slice(&0x0231_40B3u32.to_le_bytes());
    // REM: f7=1, rs2=3, rs1=2, f3=6, rd=4, opcode 0x33
    code.extend_from_slice(&0x0231_6233u32.to_le_bytes());
    t.load_program(code).unwrap();
    t.write_xreg(2, 1234);
    t.execute().unwrap();
    t.execute().unwrap();
    assert_eq!(t.read_xreg(1), u64::MAX);
    assert_eq!(t.read_xreg(4), 1234);
}


#[test]
fn dynamic_rounding_reads_frm() {
    // FADD.D f3,f1,f2 with rm=111 defers to the frm register; frm=0 after
    // reset selects nearest-even, an out-of-range frm is illegal
    let mut t = SoftThread::default();
    t.load_program(0x0220_F1D3u32.to_le_bytes().to_vec()).unwrap();
    t.write_freg(1, 1.5f64.to_bits());
    t.write_freg(2, 2.25f64.to_bits());
    t.execute().unwrap();
    assert_eq!(t.read_freg(3), 3.75f64.to_bits());
    let mut u = SoftThread::default();
    u.load_program(0x0220_F1D3u32.to_le_bytes().to_vec()).unwrap();
    u.csr[2] = 5;
    assert_eq!(u.execute(), Err(Exception::IllegalInstruction));
}

#[test]
fn sraiw_shifts_the_low_word() {
    // SRAIW x1, x2, 4 on a negative low word
    let mut t = SoftThread::default();
    t.load_program(0x4041_509Bu32.to_le_bytes().to_vec()).unwrap();
    t.write_xreg(2, 0xFFFF_FFFF_8000_0010);
    t.execute().unwrap();
    assert_eq!(t.read_xreg(1), 0xFFFF_FFFF_F800_0001);
}

#[test]
fn blt_takes_the_signed_branch() {
    // BLT x1, x2, +8 with X[1]=-1, X[2]=1
    let mut t = SoftThread::default();
    t.load_program(0x0020_C463u32.to_le_bytes().to_vec()).unwrap();
    t.write_xreg(1, u64::MAX);
    t.write_xreg(2, 1);
    t.execute().unwrap();
    assert_eq!(t.pc, 8);
}

#[test]
fn lwu_zero_extends() {
    // LWU x3, 0(x1)
    let mut t = SoftThread::default();
    t.load_program(0x0000_E183u32.to_le_bytes().to_vec()).unwrap();
    t.bus.write(0x40, 0xFFFF_FFFF, 32).unwrap();
    t.write_xreg(1, 0x40);
    t.execute().unwrap();
    assert_eq!(t.read_xreg(3), 0xFFFF_FFFF);
}

#[test]
fn fcvt_wu_d_of_negative_saturates_to_zero() {
    // FCVT.WU.D x1,f2 of -3.0 saturates at the unsigned minimum
    let mut t = SoftThread::default();
    t.load_program(0xC211_10D3u32.to_le_bytes().to_vec()).unwrap();
    t.write_freg(2, (-3.0f64).to_bits());
    t.execute().unwrap();
    assert_eq!(t.read_xreg(1), 0);
}

#[test]
fn fcvt_w_d_of_nan_gives_max() {
    // FCVT.W.D x1,f2 of NaN gives the largest signed word
    let mut t = SoftThread::default();
    t.load_program(0xC201_00D3u32.to_le_bytes().to_vec()).unwrap();
    t.write_freg(2, f64::NAN.to_bits());
    t.execute().unwrap();
    assert_eq!(t.read_xreg(1), 0x7FFF_FFFF);
}

#[test]
fn fcvt_s_d_narrows_and_boxes() {
    // FCVT.S.D f1,f2 of 1.5
    let mut t = SoftThread::default();
    t.load_program(0x4011_00D3u32.to_le_bytes().to_vec()).unwrap();
    t.write_freg(2, 1.5f64.to_bits());
    t.execute().unwrap();
    assert_eq!(t.read_freg(1), 0xFFFF_FFFF_0000_0000 | 1.5f32.to_bits() as u64);
}

#[test]
fn fcvt_d_s_widens_exactly() {
    // FCVT.D.S f1,f2 of a boxed single 1.5
    let mut t = SoftThread::default();
    t.load_program(0x4201_00D3u32.to_le_bytes().to_vec()).unwrap();
    t.write_freg(2, 0xFFFF_FFFF_0000_0000 | 1.5f32.to_bits() as u64);
    t.execute().unwrap();
    assert_eq!(t.read_freg(1), 1.5f64.to_bits());
}

#[test]
fn flt_d_with_nan_is_false_and_raises_invalid() {
    // FLT.D x1,f1,f2 with a NaN operand writes 0 and sets the invalid flag
    // in fflags
    let mut t = SoftThread::default();
    // f7=0x51, rs2=2, rs1=1, f3=1, rd=1, opcode 0x53
    t.load_program(0xA220_90D3u32.to_le_bytes().to_vec()).unwrap();
    t.write_freg(1, f64::NAN.to_bits());
    t.write_freg(2, 1.0f64.to_bits());
    t.execute().unwrap();
    assert_eq!(t.read_xreg(1), 0);
    assert_eq!(t.csr[1] & 0x10, 0x10, "the invalid flag must be raised");
}

#[test]
fn unboxed_single_reads_as_canonical_nan() {
    // FADD.S on a register that holds no properly boxed single treats it
    // as the canonical NaN, so the sum is NaN
    let mut t = SoftThread::default();
    t.load_program(0x0020_81D3u32.to_le_bytes().to_vec()).unwrap();
    t.write_freg(1, 1.25f64.to_bits());  // not NaN-boxed
    t.write_freg(2, 0xFFFF_FFFF_0000_0000 | 0.5f32.to_bits() as u64);
    t.execute().unwrap();
    assert_eq!(t.read_freg(3), 0xFFFF_FFFF_7FC0_0000);
}


#[test]
fn shifts_use_low_six_bits_of_rs2() {
    // SLL x3,x1,x2 then SRA x3,x3,x2 with a shift amount of 68 % 64 == 4
    let mut t = SoftThread::default();
    let mut code: Vec<u8> = Vec::new();
    code.extend_from_slice(&0x0020_91B3u32.to_le_bytes());
    t.load_program(code).unwrap();
    t.write_xreg(1, 0x11);
    t.write_xreg(2, 68);
    t.execute().unwrap();
    assert_eq!(t.read_xreg(3), 0x110);
}

#[test]
fn sra_keeps_the_sign() {
    // SRA x3,x1,x2 of a negative value by 8
    let mut t = SoftThread::default();
    t.load_program(0x4020_D1B3u32.to_le_bytes().to_vec()).unwrap();
    t.write_xreg(1, 0x8000_0000_0000_0000);
    t.write_xreg(2, 8);
    t.execute().unwrap();
    assert_eq!(t.read_xreg(3), 0xFF80_0000_0000_0000);
}

#[test]
fn sltu_compares_unsigned() {
    // SLTU x3,x1,x2
    let mut t = SoftThread::default();
    t.load_program(0x0020_B1B3u32.to_le_bytes().to_vec()).unwrap();
    t.write_xreg(1, 1);
    t.write_xreg(2, u64::MAX);
    t.execute().unwrap();
    assert_eq!(t.read_xreg(3), 1);
}

#[test]
fn mulhu_writes_the_high_half() {
    // MULHU x3,x1,x2 of the two largest values
    let mut t = SoftThread::default();
    t.load_program(0x0220_B1B3u32.to_le_bytes().to_vec()).unwrap();
    t.write_xreg(1, u64::MAX);
    t.write_xreg(2, u64::MAX);
    t.execute().unwrap();
    assert_eq!(t.read_xreg(3), 0xFFFF_FFFF_FFFF_FFFE);
}

#[test]
fn remuw_runs_on_the_low_words() {
    // REMUW x3,x1,x2
    let mut t = SoftThread::default();
    t.load_program(0x0220_F1BBu32.to_le_bytes().to_vec()).unwrap();
    t.write_xreg(1, 0xFFFF_FFFF_0000_0007);
    t.write_xreg(2, 3);
    t.execute().unwrap();
    assert_eq!(t.read_xreg(3), 1);
}

#[test]
fn lr_sc_doubleword() {
    // LR.D x1,(x2); SC.D x3,x4,(x2)
    let mut t = SoftThread::default();
    let mut code: Vec<u8> = Vec::new();
    code.extend_from_slice(&0x1001_30AFu32.to_le_bytes());
    code.extend_from_slice(&0x1841_31AFu32.to_le_bytes());
    t.load_program(code).unwrap();
    t.write_xreg(2, 0x88);
    t.write_xreg(4, 0x0102_0304_0506_0708);
    t.execute().unwrap();
    t.execute().unwrap();
    assert_eq!(t.read_xreg(3), 0);
    assert_eq!(t.bus.read(0x88, 64).unwrap(), 0x0102_0304_0506_0708);
}

#[test]
fn amomax_d_stores_the_signed_maximum() {
    // AMOMAX.D x1,x4,(x2) with a negative word in memory
    let mut t = SoftThread::default();
    t.load_program(0xA041_30AFu32.to_le_bytes().to_vec()).unwrap();
    t.bus.write(0x90, (-5i64) as u64, 64).unwrap();
    t.write_xreg(2, 0x90);
    t.write_xreg(4, 3);
    t.execute().unwrap();
    assert_eq!(t.read_xreg(1), (-5i64) as u64);
    assert_eq!(t.bus.read(0x90, 64).unwrap(), 3);
}

#[test]
fn csrrs_register_form_sets_bits() {
    // CSRRWI x0-less setup then CSRRS x2, 0x340, x1
    let mut t = SoftThread::default();
    t.load_program(0x3400_A173u32.to_le_bytes().to_vec()).unwrap();
    t.csr[0x340] = 0b0101;
    t.write_xreg(1, 0b0011);
    t.execute().unwrap();
    assert_eq!(t.read_xreg(2), 0b0101, "rd reads the old value");
    assert_eq!(t.csr[0x340], 0b0111);
}

#[test]
fn fence_is_a_no_op() {
    let mut t = SoftThread::default();
    t.load_program(0x0FF0_000Fu32.to_le_bytes().to_vec()).unwrap();
    t.execute().unwrap();
    assert_eq!(t.pc, 4);
}

#[test]
fn fmin_d_prefers_negative_zero() {
    // FMIN.D f3,f1,f2 of +0 and -0
    let mut t = SoftThread::default();
    t.load_program(0x2A20_81D3u32.to_le_bytes().to_vec()).unwrap();
    t.write_freg(1, 0.0f64.to_bits());
    t.write_freg(2, (-0.0f64).to_bits());
    t.execute().unwrap();
    assert_eq!(t.read_freg(3), (-0.0f64).to_bits());
}

#[test]
fn fsgnjn_d_negates() {
    // FSGNJN.D f3,f1,f2 with f1 == f2 is negation
    let mut t = SoftThread::default();
    t.load_program(0x2220_91D3u32.to_le_bytes().to_vec()).unwrap();
    t.write_freg(1, 1.5f64.to_bits());
    t.write_freg(2, 1.5f64.to_bits());
    t.execute().unwrap();
    assert_eq!(t.read_freg(3), (-1.5f64).to_bits());
}

#[test]
fn fclass_d_classifies_registers() {
    // FCLASS.D x1,f2 of negative infinity
    let mut t = SoftThread::default();
    t.load_program(0xE201_10D3u32.to_le_bytes().to_vec()).unwrap();
    t.write_freg(2, f64::NEG_INFINITY.to_bits());
    t.execute().unwrap();
    assert_eq!(t.read_xreg(1), 1);
}

#[test]
fn feq_d_compares_quietly() {
    // FEQ.D x1,f1,f2 of equal values
    let mut t = SoftThread::default();
    t.load_program(0xA220_A0D3u32.to_le_bytes().to_vec()).unwrap();
    t.write_freg(1, 2.5f64.to_bits());
    t.write_freg(2, 2.5f64.to_bits());
    t.execute().unwrap();
    assert_eq!(t.read_xreg(1), 1);
    assert_eq!(t.csr[1], 0, "quiet equality raises no flag");
}

#[test]
fn fmul_fdiv_fsub_d_are_exact_on_dyadics() {
    // FMUL.D, FDIV.D, FSUB.D over exactly representable values
    let mut t = SoftThread::default();
    let mut code: Vec<u8> = Vec::new();
    code.extend_from_slice(&0x1220_81D3u32.to_le_bytes());  // FMUL.D f3,f1,f2
    t.load_program(code).unwrap();
    t.write_freg(1, 1.5f64.to_bits());
    t.write_freg(2, 2.0f64.to_bits());
    t.execute().unwrap();
    assert_eq!(t.read_freg(3), 3.0f64.to_bits());
    let mut u = SoftThread::default();
    let mut code2: Vec<u8> = Vec::new();
    code2.extend_from_slice(&0x1A20_81D3u32.to_le_bytes());  // FDIV.D f3,f1,f2
    code2.extend_from_slice(&0x0A20_8253u32.to_le_bytes());  // FSUB.D f4,f1,f2
    u.load_program(code2).unwrap();
    u.write_freg(1, 3.0f64.to_bits());
    u.write_freg(2, 2.0f64.to_bits());
    u.execute().unwrap();
    assert_eq!(u.read_freg(3), 1.5f64.to_bits());
    u.execute().unwrap();
    assert_eq!(u.read_freg(4), 1.0f64.to_bits());
}
