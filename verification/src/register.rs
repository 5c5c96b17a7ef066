//! Names for the integer and floating-point register files, and the
//! conversion between a register name and its 5-bit instruction field.
//!
//! The integer file carries one sentinel name, `X32`, so that the index one
//! past the architectural registers stays representable; no instruction
//! field decodes to it.
use vstd::prelude::*;

verus! {

/// An integer register name: `x0` through `x31`, plus the sentinel.
#[derive(Clone, Copy, Debug, PartialEq, Eq, Structural)]
pub enum Register {
    X0,
    X1,
    X2,
    X3,
    X4,
    X5,
    X6,
    X7,
    X8,
    X9,
    X10,
    X11,
    X12,
    X13,
    X14,
    X15,
    X16,
    X17,
    X18,
    X19,
    X20,
    X21,
    X22,
    X23,
    X24,
    X25,
    X26,
    X27,
    X28,
    X29,
    X30,
    X31,
    X32,
}

/// A floating-point register name: `f0` through `f31`.
#[derive(Clone, Copy, Debug, PartialEq, Eq, Structural)]
pub enum FRegister {
    F0,
    F1,
    F2,
    F3,
    F4,
    F5,
    F6,
    F7,
    F8,
    F9,
    F10,
    F11,
    F12,
    F13,
    F14,
    F15,
    F16,
    F17,
    F18,
    F19,
    F20,
    F21,
    F22,
    F23,
    F24,
    F25,
    F26,
    F27,
    F28,
    F29,
    F30,
    F31,
}

/// The file index a register name stands for.
pub open spec fn reg_index(r: Register) -> int {
    match r {
        Register::X0 => 0,
        Register::X1 => 1,
        Register::X2 => 2,
        Register::X3 => 3,
        Register::X4 => 4,
        Register::X5 => 5,
        Register::X6 => 6,
        Register::X7 => 7,
        Register::X8 => 8,
        Register::X9 => 9,
        Register::X10 => 10,
        Register::X11 => 11,
        Register::X12 => 12,
        Register::X13 => 13,
        Register::X14 => 14,
        Register::X15 => 15,
        Register::X16 => 16,
        Register::X17 => 17,
        Register::X18 => 18,
        Register::X19 => 19,
        Register::X20 => 20,
        Register::X21 => 21,
        Register::X22 => 22,
        Register::X23 => 23,
        Register::X24 => 24,
        Register::X25 => 25,
        Register::X26 => 26,
        Register::X27 => 27,
        Register::X28 => 28,
        Register::X29 => 29,
        Register::X30 => 30,
        Register::X31 => 31,
        Register::X32 => 32,
    }
}

/// The file index a floating-point register name stands for.
pub open spec fn freg_index(r: FRegister) -> int {
    match r {
        FRegister::F0 => 0,
        FRegister::F1 => 1,
        FRegister::F2 => 2,
        FRegister::F3 => 3,
        FRegister::F4 => 4,
        FRegister::F5 => 5,
        FRegister::F6 => 6,
        FRegister::F7 => 7,
        FRegister::F8 => 8,
        FRegister::F9 => 9,
        FRegister::F10 => 10,
        FRegister::F11 => 11,
        FRegister::F12 => 12,
        FRegister::F13 => 13,
        FRegister::F14 => 14,
        FRegister::F15 => 15,
        FRegister::F16 => 16,
        FRegister::F17 => 17,
        FRegister::F18 => 18,
        FRegister::F19 => 19,
        FRegister::F20 => 20,
        FRegister::F21 => 21,
        FRegister::F22 => 22,
        FRegister::F23 => 23,
        FRegister::F24 => 24,
        FRegister::F25 => 25,
        FRegister::F26 => 26,
        FRegister::F27 => 27,
        FRegister::F28 => 28,
        FRegister::F29 => 29,
        FRegister::F30 => 30,
        FRegister::F31 => 31,
    }
}

impl Register {
    /// The file index of this name.
    pub fn index(self) -> (i: usize)
        ensures
            i == reg_index(self),
    {
        match self {
            Register::X0 => 0,
            Register::X1 => 1,
            Register::X2 => 2,
            Register::X3 => 3,
            Register::X4 => 4,
            Register::X5 => 5,
            Register::X6 => 6,
            Register::X7 => 7,
            Register::X8 => 8,
            Register::X9 => 9,
            Register::X10 => 10,
            Register::X11 => 11,
            Register::X12 => 12,
            Register::X13 => 13,
            Register::X14 => 14,
            Register::X15 => 15,
            Register::X16 => 16,
            Register::X17 => 17,
            Register::X18 => 18,
            Register::X19 => 19,
            Register::X20 => 20,
            Register::X21 => 21,
            Register::X22 => 22,
            Register::X23 => 23,
            Register::X24 => 24,
            Register::X25 => 25,
            Register::X26 => 26,
            Register::X27 => 27,
            Register::X28 => 28,
            Register::X29 => 29,
            Register::X30 => 30,
            Register::X31 => 31,
            Register::X32 => 32,
        }
    }

    /// The register a 5-bit instruction field names.
    pub fn from_field(n: u8) -> (r: Register)
        requires
            n < 32,
        ensures
            reg_index(r) == n as int,
    {
        match n {
            0 => Register::X0,
            1 => Register::X1,
            2 => Register::X2,
            3 => Register::X3,
            4 => Register::X4,
            5 => Register::X5,
            6 => Register::X6,
            7 => Register::X7,
            8 => Register::X8,
            9 => Register::X9,
            10 => Register::X10,
            11 => Register::X11,
            12 => Register::X12,
            13 => Register::X13,
            14 => Register::X14,
            15 => Register::X15,
            16 => Register::X16,
            17 => Register::X17,
            18 => Register::X18,
            19 => Register::X19,
            20 => Register::X20,
            21 => Register::X21,
            22 => Register::X22,
            23 => Register::X23,
            24 => Register::X24,
            25 => Register::X25,
            26 => Register::X26,
            27 => Register::X27,
            28 => Register::X28,
            29 => Register::X29,
            30 => Register::X30,
            _ => Register::X31,
        }
    }
}

impl FRegister {
    /// The file index of this name.
    pub fn index(self) -> (i: usize)
        ensures
            i == freg_index(self),
    {
        match self {
            FRegister::F0 => 0,
            FRegister::F1 => 1,
            FRegister::F2 => 2,
            FRegister::F3 => 3,
            FRegister::F4 => 4,
            FRegister::F5 => 5,
            FRegister::F6 => 6,
            FRegister::F7 => 7,
            FRegister::F8 => 8,
            FRegister::F9 => 9,
            FRegister::F10 => 10,
            FRegister::F11 => 11,
            FRegister::F12 => 12,
            FRegister::F13 => 13,
            FRegister::F14 => 14,
            FRegister::F15 => 15,
            FRegister::F16 => 16,
            FRegister::F17 => 17,
            FRegister::F18 => 18,
            FRegister::F19 => 19,
            FRegister::F20 => 20,
            FRegister::F21 => 21,
            FRegister::F22 => 22,
            FRegister::F23 => 23,
            FRegister::F24 => 24,
            FRegister::F25 => 25,
            FRegister::F26 => 26,
            FRegister::F27 => 27,
            FRegister::F28 => 28,
            FRegister::F29 => 29,
            FRegister::F30 => 30,
            FRegister::F31 => 31,
        }
    }

    /// The floating-point register a 5-bit instruction field names.
    pub fn from_field(n: u8) -> (r: FRegister)
        requires
            n < 32,
        ensures
            freg_index(r) == n as int,
    {
        match n {
            0 => FRegister::F0,
            1 => FRegister::F1,
            2 => FRegister::F2,
            3 => FRegister::F3,
            4 => FRegister::F4,
            5 => FRegister::F5,
            6 => FRegister::F6,
            7 => FRegister::F7,
            8 => FRegister::F8,
            9 => FRegister::F9,
            10 => FRegister::F10,
            11 => FRegister::F11,
            12 => FRegister::F12,
            13 => FRegister::F13,
            14 => FRegister::F14,
            15 => FRegister::F15,
            16 => FRegister::F16,
            17 => FRegister::F17,
            18 => FRegister::F18,
            19 => FRegister::F19,
            20 => FRegister::F20,
            21 => FRegister::F21,
            22 => FRegister::F22,
            23 => FRegister::F23,
            24 => FRegister::F24,
            25 => FRegister::F25,
            26 => FRegister::F26,
            27 => FRegister::F27,
            28 => FRegister::F28,
            29 => FRegister::F29,
            30 => FRegister::F30,
            _ => FRegister::F31,
        }
    }
}

} // verus!
