//! The flat memory bus: a byte-addressed store with naturally-expressed
//! little-endian reads and writes at widths of 8, 16, 32 and 64 bits.
use vstd::prelude::*;

verus! {

use vstd::arithmetic::div_mod::{lemma_fundamental_div_mod_converse, lemma_small_mod};
use crate::exceptions::Exception;

/// The default bus size in bytes; the HART's stack pointer starts here.
pub const MEM_SIZE: u64 = 0x10_0000;

/// The little-endian value of two bytes at `a`.
pub open spec fn le16v(mem: Seq<u8>, a: int) -> int {
    mem[a] + 0x100 * mem[a + 1]
}

/// The little-endian value of four bytes at `a`.
pub open spec fn le32v(mem: Seq<u8>, a: int) -> int {
    le16v(mem, a) + 0x1_0000 * le16v(mem, a + 2)
}

/// The little-endian value of eight bytes at `a`.
pub open spec fn le64v(mem: Seq<u8>, a: int) -> int {
    le32v(mem, a) + 0x1_0000_0000 * le32v(mem, a + 4)
}

/// One byte of `v` stored at `a`.
pub open spec fn st8s(mem: Seq<u8>, a: int, v: u64) -> Seq<u8> {
    mem.update(a, (v % 0x100) as u8)
}

/// The low 16 bits of `v` stored little-endian at `a`.
pub open spec fn st16s(mem: Seq<u8>, a: int, v: u64) -> Seq<u8> {
    st8s(st8s(mem, a, v), a + 1, v / 0x100)
}

/// The low 32 bits of `v` stored little-endian at `a`.
pub open spec fn st32s(mem: Seq<u8>, a: int, v: u64) -> Seq<u8> {
    st16s(st16s(mem, a, v), a + 2, v / 0x1_0000)
}

/// All 64 bits of `v` stored little-endian at `a`.
pub open spec fn st64s(mem: Seq<u8>, a: int, v: u64) -> Seq<u8> {
    st32s(st32s(mem, a, v), a + 4, v / 0x1_0000_0000)
}

/// A contiguous byte array behind the bus contract; address 0 is valid.
#[derive(Debug)]
pub struct Dram {
    pub mem: Vec<u8>,
}

impl View for Dram {
    type V = Seq<u8>;

    open spec fn view(&self) -> Seq<u8> {
        self.mem@
    }
}

/// Whether an access of `n` bytes at `a` lies inside a store of `len` bytes.
pub open spec fn in_range(len: nat, a: u64, n: nat) -> bool {
    a + n <= len
}

/// The value an in-range read of `n` bytes at `a` returns.
pub open spec fn read_le(mem: Seq<u8>, a: int, n: nat) -> int {
    if n == 1 {
        mem[a] as int
    } else if n == 2 {
        le16v(mem, a)
    } else if n == 4 {
        le32v(mem, a)
    } else {
        le64v(mem, a)
    }
}

/// The store an in-range write of the low `n` bytes of `v` at `a` leaves.
pub open spec fn write_le(mem: Seq<u8>, a: int, n: nat, v: u64) -> Seq<u8> {
    if n == 1 {
        st8s(mem, a, v)
    } else if n == 2 {
        st16s(mem, a, v)
    } else if n == 4 {
        st32s(mem, a, v)
    } else {
        st64s(mem, a, v)
    }
}

impl Dram {
    /// A zeroed store of `size` bytes.
    pub fn new(size: usize) -> (d: Dram)
        ensures
            d@.len() == size,
            forall|i: int| 0 <= i < size ==> d@[i] == 0u8,
    {
        let mut mem: Vec<u8> = Vec::new();
        let mut i: usize = 0;
        while i < size
            invariant
                i <= size,
                mem@.len() == i,
                forall|j: int| 0 <= j < i ==> mem@[j] == 0u8,
            decreases size - i,
        {
            mem.push(0);
            i = i + 1;
        }
        Dram { mem }
    }

    /// The size of the store in bytes.
    pub fn size(&self) -> (n: usize)
        ensures
            n == self@.len(),
    {
        self.mem.len()
    }

    /// Reads `bits` bits at `addr`, little-endian; an address outside the
    /// store raises `LoadAccessFault`.
    pub fn read(&self, addr: u64, bits: u32) -> (r: Result<u64, Exception>)
        requires
            bits == 8 || bits == 16 || bits == 32 || bits == 64,
        ensures
            in_range(self@.len(), addr, (bits / 8) as nat) ==> r == Result::<u64, Exception>::Ok(
                read_le(self@, addr as int, (bits / 8) as nat) as u64,
            ),
            !in_range(self@.len(), addr, (bits / 8) as nat) ==> r == Result::<u64, Exception>::Err(
                Exception::LoadAccessFault,
            ),
    {
        let n: usize = (bits / 8) as usize;
        let len = self.mem.len();
        if n > len || addr > (len - n) as u64 {
            return Err(Exception::LoadAccessFault);
        }
        let i = addr as usize;
        if bits == 8 {
            Ok(self.mem[i] as u64)
        } else if bits == 16 {
            Ok((self.mem[i] as u64) + 0x100 * (self.mem[i + 1] as u64))
        } else if bits == 32 {
            Ok(
                (self.mem[i] as u64) + 0x100 * (self.mem[i + 1] as u64) + 0x1_0000 * (self.mem[i
                    + 2] as u64) + 0x100_0000 * (self.mem[i + 3] as u64),
            )
        } else {
            Ok(
                (self.mem[i] as u64) + 0x100 * (self.mem[i + 1] as u64) + 0x1_0000 * (self.mem[i
                    + 2] as u64) + 0x100_0000 * (self.mem[i + 3] as u64) + 0x1_0000_0000 * (
                self.mem[i + 4] as u64) + 0x100_0000_0000 * (self.mem[i + 5] as u64)
                    + 0x1_0000_0000_0000 * (self.mem[i + 6] as u64) + 0x100_0000_0000_0000 * (
                self.mem[i + 7] as u64),
            )
        }
    }

    /// Writes the low `bits` bits of `value` at `addr`, little-endian; an
    /// address outside the store raises `StoreAccessFault`.
    pub fn write(&mut self, addr: u64, value: u64, bits: u32) -> (r: Result<(), Exception>)
        requires
            bits == 8 || bits == 16 || bits == 32 || bits == 64,
        ensures
            in_range(old(self)@.len(), addr, (bits / 8) as nat) ==> r == Result::<(), Exception>::Ok(()) && final(self)@ == write_le(old(self)@, addr as int, (bits / 8) as nat, value),
            !in_range(old(self)@.len(), addr, (bits / 8) as nat) ==> r == Result::<(), Exception>::Err(Exception::StoreAccessFault) && final(self)@ == old(self)@,
    {
        let n: usize = (bits / 8) as usize;
        let len = self.mem.len();
        if n > len || addr > (len - n) as u64 {
            return Err(Exception::StoreAccessFault);
        }
        let i = addr as usize;
        self.mem[i] = (value % 0x100) as u8;
        if bits >= 16 {
            self.mem[i + 1] = ((value / 0x100) % 0x100) as u8;
        }
        if bits >= 32 {
            self.mem[i + 2] = ((value / 0x1_0000) % 0x100) as u8;
            self.mem[i + 3] = ((value / 0x1_0000 / 0x100) % 0x100) as u8;
        }
        if bits == 64 {
            self.mem[i + 4] = ((value / 0x1_0000_0000) % 0x100) as u8;
            self.mem[i + 5] = ((value / 0x1_0000_0000 / 0x100) % 0x100) as u8;
            self.mem[i + 6] = ((value / 0x1_0000_0000 / 0x1_0000) % 0x100) as u8;
            self.mem[i + 7] = ((value / 0x1_0000_0000 / 0x1_0000 / 0x100) % 0x100) as u8;
        }
        proof {
            assert(self@ =~= write_le(old(self)@, addr as int, (bits / 8) as nat, value));
        }
        Ok(())
    }
}

/// Reading four bytes back after writing them leaves the value intact, so a
/// store of what was just loaded leaves the memory unchanged.
pub proof fn lemma_store_load_identity32(mem: Seq<u8>, a: int)
    requires
        0 <= a,
        a + 4 <= mem.len(),
    ensures
        st32s(mem, a, le32v(mem, a) as u64) == mem,
{
    let v = le32v(mem, a) as u64;
    assert(v == mem[a] + 0x100 * mem[a + 1] + 0x1_0000 * mem[a + 2] + 0x100_0000 * mem[a + 3]);
    lemma_fundamental_div_mod_converse(
        v as int,
        0x100,
        mem[a + 1] + 0x100 * mem[a + 2] + 0x1_0000 * mem[a + 3],
        mem[a] as int,
    );
    lemma_fundamental_div_mod_converse(
        v as int / 0x100,
        0x100,
        mem[a + 2] + 0x100 * mem[a + 3],
        mem[a + 1] as int,
    );
    lemma_fundamental_div_mod_converse(v as int / 0x1_0000, 0x100, mem[a + 3] as int, mem[a + 2] as int);
    lemma_fundamental_div_mod_converse(v as int / 0x1_0000 / 0x100, 0x100, 0, mem[a + 3] as int);
    assert(st32s(mem, a, v) =~= mem);
}

/// A byte stored by SB and loaded back by LB returns the sign extension of
/// that byte.
pub proof fn lemma_store_byte_load_sext(mem: Seq<u8>, a: int, v: u64)
    requires
        0 <= a < mem.len(),
    ensures
        crate::bits::sext8s(st8s(mem, a, v)[a] as u64) == crate::bits::sext8s(v),
{
    lemma_small_mod((v % 0x100) as nat, 0x100nat);
}

} // verus!
