//! The taxonomy of fault conditions that a step may raise.
use vstd::prelude::*;

verus! {

/// A fault raised while fetching, decoding or executing one instruction, or
/// while loading a program image.
///
/// `EnvironmentCall` and `Breakpoint` are not faults proper: they report that
/// ECALL or EBREAK suspended the HART and control returns to the supervisor.
#[derive(Clone, Copy, Debug, PartialEq, Eq, Structural)]
pub enum Exception {
    /// Undefined opcode, disabled extension, malformed shift amount, or a
    /// write to a read-only CSR.
    IllegalInstruction,
    /// A branch or jump target that is not a multiple of 4.
    InstructionAddressMisaligned,
    /// A read address outside the bus range.
    LoadAccessFault,
    /// A write address outside the bus range.
    StoreAccessFault,
    /// An atomic read with an address that is not naturally aligned.
    LoadAddressMisaligned,
    /// An atomic write with an address that is not naturally aligned.
    StoreAddressMisaligned,
    /// ECALL executed; the HART defers to the external supervisor.
    EnvironmentCall,
    /// EBREAK executed; the HART defers to the external supervisor.
    Breakpoint,
    /// A program image larger than the configured program limit.
    ProgramTooLarge,
    /// Reserved for stack guard checks by the supervisor.
    StackSizeExceeded,
}

} // verus!
