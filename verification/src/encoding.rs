//! The extension and encoding table: which base and which optional
//! extensions are enabled. The decoder consults it to reject encodings of
//! disabled extensions.
use vstd::prelude::*;

verus! {

/// The base integer instruction set.
#[derive(Clone, Copy, Debug, PartialEq, Eq, Structural)]
pub enum Base {
    RV32I,
    RV64I,
}

/// An optional standard extension.
#[derive(Clone, Copy, Debug, PartialEq, Eq, Structural)]
pub enum Extension {
    M,
    A,
    F,
    D,
    Q,
    Zicsr,
    Zifencei,
}

/// The configuration the decoder is driven by: a base and the set of
/// enabled extensions, read-only after construction.
#[derive(Clone, Copy, Debug, PartialEq, Eq, Structural)]
pub struct EncodingTable {
    pub base: Base,
    pub m: bool,
    pub a: bool,
    pub f: bool,
    pub d: bool,
    pub q: bool,
    pub zicsr: bool,
    pub zifencei: bool,
}

/// The default configuration: RV64I with every extension enabled.
pub open spec fn default_table() -> EncodingTable {
    EncodingTable {
        base: Base::RV64I,
        m: true,
        a: true,
        f: true,
        d: true,
        q: true,
        zicsr: true,
        zifencei: true,
    }
}

impl EncodingTable {
    /// Whether the base is RV64I.
    pub open spec fn is_rv64(self) -> bool {
        self.base == Base::RV64I
    }

    /// A table for the given base with exactly the listed extensions.
    pub fn new(base: Base, exts: &Vec<Extension>) -> (t: EncodingTable)
        ensures
            t.base == base,
            t.m == exts@.contains(Extension::M),
            t.a == exts@.contains(Extension::A),
            t.f == exts@.contains(Extension::F),
            t.d == exts@.contains(Extension::D),
            t.q == exts@.contains(Extension::Q),
            t.zicsr == exts@.contains(Extension::Zicsr),
            t.zifencei == exts@.contains(Extension::Zifencei),
    {
        let mut t = EncodingTable {
            base,
            m: false,
            a: false,
            f: false,
            d: false,
            q: false,
            zicsr: false,
            zifencei: false,
        };
        let mut i: usize = 0;
        while i < exts.len()
            invariant
                i <= exts@.len(),
                t.base == base,
                t.m == exts@.take(i as int).contains(Extension::M),
                t.a == exts@.take(i as int).contains(Extension::A),
                t.f == exts@.take(i as int).contains(Extension::F),
                t.d == exts@.take(i as int).contains(Extension::D),
                t.q == exts@.take(i as int).contains(Extension::Q),
                t.zicsr == exts@.take(i as int).contains(Extension::Zicsr),
                t.zifencei == exts@.take(i as int).contains(Extension::Zifencei),
            decreases exts@.len() - i,
        {
            proof {
                assert(exts@.take(i + 1).drop_last() =~= exts@.take(i as int));
                assert(exts@.take(i + 1).last() == exts@[i as int]);
            }
            match exts[i] {
                Extension::M => {
                    t.m = true;
                },
                Extension::A => {
                    t.a = true;
                },
                Extension::F => {
                    t.f = true;
                },
                Extension::D => {
                    t.d = true;
                },
                Extension::Q => {
                    t.q = true;
                },
                Extension::Zicsr => {
                    t.zicsr = true;
                },
                Extension::Zifencei => {
                    t.zifencei = true;
                },
            }
            i = i + 1;
        }
        proof {
            assert(exts@.take(exts@.len() as int) =~= exts@);
        }
        t
    }
}

impl Default for EncodingTable {
    /// RV64I with every extension enabled.
    fn default() -> (t: EncodingTable)
        ensures
            t == default_table(),
    {
        EncodingTable {
            base: Base::RV64I,
            m: true,
            a: true,
            f: true,
            d: true,
            q: true,
            zicsr: true,
            zifencei: true,
        }
    }
}

} // verus!
