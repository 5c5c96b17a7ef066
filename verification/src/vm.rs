//! The outer VM: a machine hosting one or more HARTs that share one
//! encoding configuration. Each core owns its registers, CSR file and
//! reservation set; an external supervisor drives their steps.
use vstd::prelude::*;

verus! {

use crate::encoding::EncodingTable;
use crate::soft::{fresh_mach, SoftThread};

/// A machine of `cores` HARTs.
#[derive(Debug)]
pub struct Cpu {
    /// The HARTs, each with its own architectural state.
    pub cores: Vec<SoftThread>,
    /// The encoding configuration every core decodes under.
    pub ext: EncodingTable,
}

impl Cpu {
    /// A machine of `n` fresh HARTs over one encoding table: every core
    /// starts in the fresh-HART state and decodes under `ext`.
    pub fn new(n: usize, ext: EncodingTable) -> (c: Cpu)
        ensures
            c.cores@.len() == n,
            forall|i: int| 0 <= i < n ==> (#[trigger] c.cores@[i]).wf(),
            forall|i: int| 0 <= i < n ==> (#[trigger] c.cores@[i])@ == fresh_mach(),
            forall|i: int| 0 <= i < n ==> (#[trigger] c.cores@[i]).enc_table == ext,
            c.ext == ext,
    {
        let mut cores: Vec<SoftThread> = Vec::new();
        let mut i: usize = 0;
        while i < n
            invariant
                i <= n,
                cores@.len() == i,
                forall|j: int| 0 <= j < i ==> (#[trigger] cores@[j]).wf(),
                forall|j: int| 0 <= j < i ==> (#[trigger] cores@[j])@ == fresh_mach(),
                forall|j: int| 0 <= j < i ==> (#[trigger] cores@[j]).enc_table == ext,
            decreases n - i,
        {
            cores.push(SoftThread::new(ext));
            i = i + 1;
        }
        Cpu { cores, ext }
    }
}

} // verus!
