//! A RISC-V instruction-set simulator: one hardware thread (HART) that
//! fetches, decodes and executes RV64 instructions with the M, A, F, D, Q
//! (modeled at double precision) and Zicsr extensions against a flat
//! little-endian memory bus.
use vstd::prelude::*;

pub mod bits;
pub mod encoding;
pub mod exceptions;
pub mod fp;
pub mod instructions;
pub mod laws;
pub mod memory;
pub mod register;
pub mod softfp;
pub mod soft;
pub mod vm;

verus! {

} // verus!
