//! Width conversions and the integer arithmetic that instruction semantics
//! are written in: sign extension, two's-complement views, wrapping
//! operations, and the multiply/divide family with its RISC-V edge cases.
//!
//! Contracts here are stated with Euclidean `/` and `%` over mathematical
//! integers, so that the instruction-level laws can be proved by ordinary
//! arithmetic reasoning.
use vstd::prelude::*;

verus! {

use vstd::arithmetic::div_mod::{
    lemma_fundamental_div_mod,
    lemma_fundamental_div_mod_converse,
    lemma_small_mod,
};
use vstd::arithmetic::mul::{lemma_mul_nonnegative, lemma_mul_upper_bound};

/// The two's-complement value of a 64-bit pattern.
pub open spec fn s64(v: u64) -> int {
    if v < 0x8000_0000_0000_0000 {
        v as int
    } else {
        v - 0x1_0000_0000_0000_0000
    }
}

/// The two's-complement value of the low 32 bits of a pattern.
pub open spec fn s32(v: u64) -> int {
    let w = v % 0x1_0000_0000;
    if w < 0x8000_0000 {
        w as int
    } else {
        w - 0x1_0000_0000
    }
}

/// An integer reduced to a 64-bit pattern, modulo 2^64.
pub open spec fn to_u64(x: int) -> u64 {
    (x % 0x1_0000_0000_0000_0000) as u64
}

/// An integer reduced to a 32-bit value, modulo 2^32.
pub open spec fn to_u32(x: int) -> u64 {
    (x % 0x1_0000_0000) as u64
}

/// Sign extension of the low 8 bits to 64 bits.
pub open spec fn sext8s(v: u64) -> u64 {
    let b = v % 0x100;
    if b < 0x80 {
        b
    } else {
        (b + 0xFFFF_FFFF_FFFF_FF00) as u64
    }
}

/// Sign extension of the low 16 bits to 64 bits.
pub open spec fn sext16s(v: u64) -> u64 {
    let h = v % 0x1_0000;
    if h < 0x8000 {
        h
    } else {
        (h + 0xFFFF_FFFF_FFFF_0000) as u64
    }
}

/// Sign extension of the low 32 bits to 64 bits.
pub open spec fn sext32s(v: u64) -> u64 {
    let w = v % 0x1_0000_0000;
    if w < 0x8000_0000 {
        w
    } else {
        (w + 0xFFFF_FFFF_0000_0000) as u64
    }
}

pub fn sext8(v: u64) -> (r: u64)
    requires
        v < 0x100,
    ensures
        r == sext8s(v),
{
    if v < 0x80 {
        v
    } else {
        v + 0xFFFF_FFFF_FFFF_FF00
    }
}

pub fn sext16(v: u64) -> (r: u64)
    requires
        v < 0x1_0000,
    ensures
        r == sext16s(v),
{
    if v < 0x8000 {
        v
    } else {
        v + 0xFFFF_FFFF_FFFF_0000
    }
}

pub fn sext32(v: u64) -> (r: u64)
    requires
        v < 0x1_0000_0000,
    ensures
        r == sext32s(v),
{
    if v < 0x8000_0000 {
        v
    } else {
        v + 0xFFFF_FFFF_0000_0000
    }
}

/// Addition modulo 2^64, as the ADD/ADDI/AUIPC/address arithmetic uses it.
pub open spec fn wadd(a: u64, b: u64) -> u64 {
    if a + b <= u64::MAX {
        (a + b) as u64
    } else {
        (a + b - 0x1_0000_0000_0000_0000) as u64
    }
}

/// Subtraction modulo 2^64.
pub open spec fn wsub(a: u64, b: u64) -> u64 {
    if a - b >= 0 {
        (a - b) as u64
    } else {
        (a - b + 0x1_0000_0000_0000_0000) as u64
    }
}

/// Multiplication modulo 2^64, the MUL result.
pub open spec fn wmul(a: u64, b: u64) -> u64 {
    ((a * b) % 0x1_0000_0000_0000_0000) as u64
}

pub proof fn lemma_wadd_is_mod(a: u64, b: u64)
    ensures
        wadd(a, b) == to_u64(a + b),
{
    if a + b <= u64::MAX {
        lemma_fundamental_div_mod_converse(a + b, 0x1_0000_0000_0000_0000, 0, a + b);
    } else {
        lemma_fundamental_div_mod_converse(
            a + b,
            0x1_0000_0000_0000_0000,
            1,
            a + b - 0x1_0000_0000_0000_0000,
        );
    }
}

pub proof fn lemma_wsub_is_mod(a: u64, b: u64)
    ensures
        wsub(a, b) == to_u64(a - b),
{
    if a - b >= 0 {
        lemma_fundamental_div_mod_converse(a - b, 0x1_0000_0000_0000_0000, 0, a - b);
    } else {
        lemma_fundamental_div_mod_converse(
            a - b,
            0x1_0000_0000_0000_0000,
            -1,
            a - b + 0x1_0000_0000_0000_0000,
        );
    }
}

pub fn u64_wadd(a: u64, b: u64) -> (r: u64)
    ensures
        r == wadd(a, b),
{
    a.wrapping_add(b)
}

pub fn u64_wsub(a: u64, b: u64) -> (r: u64)
    ensures
        r == wsub(a, b),
{
    a.wrapping_sub(b)
}

pub fn u64_wmul(a: u64, b: u64) -> (r: u64)
    ensures
        r == wmul(a, b),
{
    a.wrapping_mul(b)
}

/// For 0 < q <= m, the residue of -q modulo m is m - q.
pub proof fn lemma_neg_mod_m(q: int, m: int)
    requires
        0 < q <= m,
    ensures
        (-q) % m == m - q,
{
    lemma_fundamental_div_mod_converse(-q, m, -1, m - q);
}

/// The magnitude of the two's-complement value of a pattern.
pub fn mag_s64(a: u64) -> (r: u64)
    ensures
        r == if s64(a) < 0 {
            -s64(a)
        } else {
            s64(a)
        },
        r <= 0x8000_0000_0000_0000,
{
    if a >= 0x8000_0000_0000_0000 {
        (u64::MAX - a) + 1
    } else {
        a
    }
}

/// The magnitude of the two's-complement value of the low 32 bits.
pub fn mag_s32(a: u64) -> (r: u64)
    ensures
        r == if s32(a) < 0 {
            -s32(a)
        } else {
            s32(a)
        },
        r <= 0x8000_0000,
{
    let w = a % 0x1_0000_0000;
    if w >= 0x8000_0000 {
        (0xFFFF_FFFFu64 - w) + 1
    } else {
        w
    }
}

/// The high 64 bits of a product of magnitudes, negated when `neg` holds:
/// the pattern of `floor(p / 2^64) mod 2^64` for `p = ±(ma * mb)`.
fn mul_hi_signed(neg: bool, ma: u64, mb: u64) -> (r: u64)
    requires
        ma <= 0x8000_0000_0000_0000,
    ensures
        r == to_u64(
            (if neg {
                -(ma * mb)
            } else {
                (ma * mb) as int
            }) / 0x1_0000_0000_0000_0000,
        ),
{
    proof {
        lemma_mul_upper_bound(ma as int, 0x8000_0000_0000_0000, mb as int, u64::MAX as int);
        lemma_mul_nonnegative(ma as int, mb as int);
    }
    let p: u128 = (ma as u128) * (mb as u128);
    let m: u128 = 0x1_0000_0000_0000_0000;
    if neg && p > 0 {
        // floor(-p / 2^64) is the negated ceiling, c; its pattern is 2^64 - c.
        let c: u128 = (p - 1) / 0x1_0000_0000_0000_0000 + 1;
        proof {
            lemma_fundamental_div_mod(p as int - 1, 0x1_0000_0000_0000_0000);
            assert(m * (c - 1) < p <= m * c) by (nonlinear_arith)
                requires
                    c == (p - 1) / 0x1_0000_0000_0000_0000 + 1,
                    m == 0x1_0000_0000_0000_0000,
                    p >= 1,
                    p - 1 == m * ((p as int - 1) / 0x1_0000_0000_0000_0000) + (p as int - 1) % (
                    m as int),
                    0 <= (p as int - 1) % (m as int) < m,
            ;
            assert(c <= 0x1_0000_0000_0000_0000) by (nonlinear_arith)
                requires
                    m * (c - 1) < p,
                    p <= 0x8000_0000_0000_0000u128 * 0xFFFF_FFFF_FFFF_FFFFu128,
                    m == 0x1_0000_0000_0000_0000,
                    c >= 1,
            ;
            lemma_fundamental_div_mod_converse(
                -(p as int),
                0x1_0000_0000_0000_0000,
                -(c as int),
                m * c - p,
            );
            lemma_neg_mod_m(c as int, 0x1_0000_0000_0000_0000);
        }
        (0x1_0000_0000_0000_0000u128 - c) as u64
    } else {
        let q: u128 = p / 0x1_0000_0000_0000_0000;
        proof {
            lemma_small_mod((p / 0x1_0000_0000_0000_0000) as nat, 0x1_0000_0000_0000_0000nat);
        }
        q as u64
    }
}

/// The MULHU result: the high 64 bits of the unsigned 128-bit product.
pub open spec fn mulhu_s(a: u64, b: u64) -> u64 {
    to_u64((a * b) / 0x1_0000_0000_0000_0000)
}

/// The MULH result: the high 64 bits of the signed 128-bit product.
pub open spec fn mulh_s(a: u64, b: u64) -> u64 {
    to_u64((s64(a) * s64(b)) / 0x1_0000_0000_0000_0000)
}

/// The MULHSU result: the high 64 bits of the signed-by-unsigned product.
pub open spec fn mulhsu_s(a: u64, b: u64) -> u64 {
    to_u64((s64(a) * b) / 0x1_0000_0000_0000_0000)
}

pub fn mulhu(a: u64, b: u64) -> (r: u64)
    ensures
        r == mulhu_s(a, b),
{
    proof {
        lemma_mul_upper_bound(a as int, u64::MAX as int, b as int, u64::MAX as int);
        lemma_mul_nonnegative(a as int, b as int);
    }
    let p: u128 = (a as u128) * (b as u128);
    let q: u128 = p / 0x1_0000_0000_0000_0000;
    proof {
        lemma_small_mod((p / 0x1_0000_0000_0000_0000) as nat, 0x1_0000_0000_0000_0000nat);
    }
    q as u64
}

pub fn mulh(a: u64, b: u64) -> (r: u64)
    ensures
        r == mulh_s(a, b),
{
    let ma = mag_s64(a);
    let mb = mag_s64(b);
    let neg = (s64_is_neg(a)) != (s64_is_neg(b));
    proof {
        if neg {
            assert(s64(a) * s64(b) == -(ma * mb)) by (nonlinear_arith)
                requires
                    (s64(a) < 0 ==> ma == -s64(a)) && (s64(a) >= 0 ==> ma == s64(a)),
                    (s64(b) < 0 ==> mb == -s64(b)) && (s64(b) >= 0 ==> mb == s64(b)),
                    (s64(a) < 0) != (s64(b) < 0),
            ;
        } else {
            assert(s64(a) * s64(b) == ma * mb) by (nonlinear_arith)
                requires
                    (s64(a) < 0 ==> ma == -s64(a)) && (s64(a) >= 0 ==> ma == s64(a)),
                    (s64(b) < 0 ==> mb == -s64(b)) && (s64(b) >= 0 ==> mb == s64(b)),
                    (s64(a) < 0) == (s64(b) < 0),
            ;
        }
    }
    mul_hi_signed(neg, ma, mb)
}

pub fn mulhsu(a: u64, b: u64) -> (r: u64)
    ensures
        r == mulhsu_s(a, b),
{
    let ma = mag_s64(a);
    let neg = s64_is_neg(a);
    proof {
        if neg {
            assert(s64(a) * b == -(ma * b)) by (nonlinear_arith)
                requires
                    ma == -s64(a),
                    s64(a) < 0,
            ;
        }
    }
    mul_hi_signed(neg, ma, b)
}

/// Whether the two's-complement value of a pattern is negative.
pub fn s64_is_neg(a: u64) -> (r: bool)
    ensures
        r == (s64(a) < 0),
{
    a >= 0x8000_0000_0000_0000
}

/// Truncated (round-toward-zero) signed division, the DIV rule for a
/// nonzero divisor.
pub open spec fn tdiv(x: int, y: int) -> int {
    let ax = if x < 0 {
        -x
    } else {
        x
    };
    let ay = if y < 0 {
        -y
    } else {
        y
    };
    if (x < 0) == (y < 0) {
        ax / ay
    } else {
        -(ax / ay)
    }
}

/// Truncated signed remainder: the dividend minus `y * tdiv(x, y)`, which
/// carries the sign of the dividend.
pub open spec fn trem(x: int, y: int) -> int {
    let ax = if x < 0 {
        -x
    } else {
        x
    };
    let ay = if y < 0 {
        -y
    } else {
        y
    };
    if x < 0 {
        -(ax % ay)
    } else {
        ax % ay
    }
}

/// The DIVU result, with division by zero giving all ones.
pub open spec fn divu_s(a: u64, b: u64) -> u64 {
    if b == 0 {
        u64::MAX
    } else {
        a / b
    }
}

/// The REMU result, with division by zero giving the dividend.
pub open spec fn remu_s(a: u64, b: u64) -> u64 {
    if b == 0 {
        a
    } else {
        a % b
    }
}

/// The DIV result: truncated signed division, division by zero giving -1
/// and the INT_MIN / -1 overflow giving INT_MIN.
pub open spec fn div_s(a: u64, b: u64) -> u64 {
    if b == 0 {
        u64::MAX
    } else if a == 0x8000_0000_0000_0000 && b == u64::MAX {
        a
    } else {
        to_u64(tdiv(s64(a), s64(b)))
    }
}

/// The REM result: division by zero gives the dividend, the overflow case
/// gives zero.
pub open spec fn rem_s(a: u64, b: u64) -> u64 {
    if b == 0 {
        a
    } else if a == 0x8000_0000_0000_0000 && b == u64::MAX {
        0
    } else {
        to_u64(trem(s64(a), s64(b)))
    }
}

pub fn divu64(a: u64, b: u64) -> (r: u64)
    ensures
        r == divu_s(a, b),
{
    if b == 0 {
        u64::MAX
    } else {
        a / b
    }
}

pub fn remu64(a: u64, b: u64) -> (r: u64)
    ensures
        r == remu_s(a, b),
{
    if b == 0 {
        a
    } else {
        a % b
    }
}

pub fn div64(a: u64, b: u64) -> (r: u64)
    ensures
        r == div_s(a, b),
{
    if b == 0 {
        u64::MAX
    } else if a == 0x8000_0000_0000_0000 && b == u64::MAX {
        a
    } else {
        let ma = mag_s64(a);
        let mb = mag_s64(b);
        let q = ma / mb;
        if s64_is_neg(a) != s64_is_neg(b) {
            if q == 0 {
                proof {
                    lemma_small_mod(0nat, 0x1_0000_0000_0000_0000nat);
                }
                0
            } else {
                proof {
                    lemma_neg_mod_m(q as int, 0x1_0000_0000_0000_0000);
                }
                (u64::MAX - q) + 1
            }
        } else {
            proof {
                lemma_small_mod(q as nat, 0x1_0000_0000_0000_0000nat);
            }
            q
        }
    }
}

pub fn rem64(a: u64, b: u64) -> (r: u64)
    ensures
        r == rem_s(a, b),
{
    if b == 0 {
        a
    } else if a == 0x8000_0000_0000_0000 && b == u64::MAX {
        0
    } else {
        let ma = mag_s64(a);
        let mb = mag_s64(b);
        let rm = ma % mb;
        if s64_is_neg(a) {
            if rm == 0 {
                proof {
                    lemma_small_mod(0nat, 0x1_0000_0000_0000_0000nat);
                }
                0
            } else {
                proof {
                    lemma_neg_mod_m(rm as int, 0x1_0000_0000_0000_0000);
                }
                (u64::MAX - rm) + 1
            }
        } else {
            proof {
                lemma_small_mod(rm as nat, 0x1_0000_0000_0000_0000nat);
            }
            rm
        }
    }
}

/// Sign extension of the low 8 bits, for any pattern.
pub fn sextb(v: u64) -> (r: u64)
    ensures
        r == sext8s(v),
{
    let b = v % 0x100;
    proof {
        lemma_small_mod(b as nat, 0x100nat);
    }
    sext8(b)
}

/// Sign extension of the low 16 bits, for any pattern.
pub fn sexth(v: u64) -> (r: u64)
    ensures
        r == sext16s(v),
{
    let h = v % 0x1_0000;
    proof {
        lemma_small_mod(h as nat, 0x1_0000nat);
    }
    sext16(h)
}

/// Sign extension of the low 32 bits, for any pattern.
pub fn sextw(v: u64) -> (r: u64)
    ensures
        r == sext32s(v),
{
    let w = v % 0x1_0000_0000;
    proof {
        lemma_small_mod(w as nat, 0x1_0000_0000nat);
    }
    sext32(w)
}

/// The MULW result: the low 32 bits of the product, sign-extended.
pub open spec fn mulw_s(a: u64, b: u64) -> u64 {
    sext32s((((a % 0x1_0000_0000) * (b % 0x1_0000_0000)) % 0x1_0000_0000) as u64)
}

/// The DIVW result: 32-bit truncated signed division, sign-extended, with
/// the two edge cases of the 64-bit form at 32 bits.
pub open spec fn divw_s(a: u64, b: u64) -> u64 {
    if s32(b) == 0 {
        u64::MAX
    } else if s32(a) == -0x8000_0000 && s32(b) == -1 {
        0xFFFF_FFFF_8000_0000u64
    } else {
        sext32s(to_u32(tdiv(s32(a), s32(b))))
    }
}

/// The REMW result.
pub open spec fn remw_s(a: u64, b: u64) -> u64 {
    if s32(b) == 0 {
        sext32s(a)
    } else if s32(a) == -0x8000_0000 && s32(b) == -1 {
        0
    } else {
        sext32s(to_u32(trem(s32(a), s32(b))))
    }
}

/// The DIVUW result: 32-bit unsigned division, sign-extended.
pub open spec fn divuw_s(a: u64, b: u64) -> u64 {
    if b % 0x1_0000_0000 == 0 {
        u64::MAX
    } else {
        sext32s((a % 0x1_0000_0000) / (b % 0x1_0000_0000))
    }
}

/// The REMUW result.
pub open spec fn remuw_s(a: u64, b: u64) -> u64 {
    if b % 0x1_0000_0000 == 0 {
        sext32s(a)
    } else {
        sext32s((a % 0x1_0000_0000) % (b % 0x1_0000_0000))
    }
}

pub fn mulw(a: u64, b: u64) -> (r: u64)
    ensures
        r == mulw_s(a, b),
{
    let aw = a % 0x1_0000_0000;
    let bw = b % 0x1_0000_0000;
    proof {
        lemma_mul_upper_bound(aw as int, 0xFFFF_FFFF, bw as int, 0xFFFF_FFFF);
        lemma_mul_nonnegative(aw as int, bw as int);
    }
    let p = (aw * bw) % 0x1_0000_0000;
    sext32(p)
}

pub fn divw(a: u64, b: u64) -> (r: u64)
    ensures
        r == divw_s(a, b),
{
    let aw = a % 0x1_0000_0000;
    let bw = b % 0x1_0000_0000;
    if bw == 0 {
        u64::MAX
    } else if aw == 0x8000_0000 && bw == 0xFFFF_FFFF {
        0xFFFF_FFFF_8000_0000u64
    } else {
        let ma = mag_s32(a);
        let mb = mag_s32(b);
        let q = ma / mb;
        if (aw >= 0x8000_0000) != (bw >= 0x8000_0000) {
            if q == 0 {
                proof {
                    lemma_small_mod(0nat, 0x1_0000_0000nat);
                }
                0
            } else {
                proof {
                    lemma_neg_mod_m(q as int, 0x1_0000_0000);
                }
                sext32(0x1_0000_0000u64 - q)
            }
        } else {
            proof {
                lemma_small_mod(q as nat, 0x1_0000_0000nat);
            }
            sext32(q)
        }
    }
}

pub fn remw(a: u64, b: u64) -> (r: u64)
    ensures
        r == remw_s(a, b),
{
    let aw = a % 0x1_0000_0000;
    let bw = b % 0x1_0000_0000;
    if bw == 0 {
        sextw(a)
    } else if aw == 0x8000_0000 && bw == 0xFFFF_FFFF {
        0
    } else {
        let ma = mag_s32(a);
        let mb = mag_s32(b);
        let rm = ma % mb;
        if aw >= 0x8000_0000 {
            if rm == 0 {
                proof {
                    lemma_small_mod(0nat, 0x1_0000_0000nat);
                }
                0
            } else {
                proof {
                    lemma_neg_mod_m(rm as int, 0x1_0000_0000);
                }
                sext32(0x1_0000_0000u64 - rm)
            }
        } else {
            proof {
                lemma_small_mod(rm as nat, 0x1_0000_0000nat);
            }
            sext32(rm)
        }
    }
}

pub fn divuw(a: u64, b: u64) -> (r: u64)
    ensures
        r == divuw_s(a, b),
{
    let aw = a % 0x1_0000_0000;
    let bw = b % 0x1_0000_0000;
    if bw == 0 {
        u64::MAX
    } else {
        sext32(aw / bw)
    }
}

pub fn remuw(a: u64, b: u64) -> (r: u64)
    ensures
        r == remuw_s(a, b),
{
    let aw = a % 0x1_0000_0000;
    let bw = b % 0x1_0000_0000;
    if bw == 0 {
        sextw(a)
    } else {
        sext32(aw % bw)
    }
}

/// Signed comparison of two 64-bit patterns, used by BLT/BGE/SLT and the
/// signed atomic minimum and maximum.
pub fn signed_lt(a: u64, b: u64) -> (r: bool)
    ensures
        r == (s64(a) < s64(b)),
{
    let an = a >= 0x8000_0000_0000_0000;
    let bn = b >= 0x8000_0000_0000_0000;
    if an != bn {
        an
    } else {
        a < b
    }
}

/// Signed comparison of the low 32 bits of two patterns.
pub fn signed_lt32(a: u64, b: u64) -> (r: bool)
    ensures
        r == (s32(a) < s32(b)),
{
    let aw = a % 0x1_0000_0000;
    let bw = b % 0x1_0000_0000;
    let an = aw >= 0x8000_0000;
    let bn = bw >= 0x8000_0000;
    if an != bn {
        an
    } else {
        aw < bw
    }
}

/// The low 64 bits of a signed 128-bit value, as the two's-complement
/// pattern of its value.
pub fn i128_low64(v: i128) -> (r: u64)
    requires
        -0x8000_0000_0000_0000 <= v < 0x1_0000_0000_0000_0000,
    ensures
        r == to_u64(v as int),
{
    if v >= 0 {
        proof {
            lemma_small_mod(v as nat, 0x1_0000_0000_0000_0000nat);
        }
        v as u64
    } else {
        proof {
            lemma_neg_mod_m(-(v as int), 0x1_0000_0000_0000_0000);
        }
        (v + 0x1_0000_0000_0000_0000i128) as u64
    }
}

/// The low 64 bits of an unsigned 128-bit value.
pub fn u128_low64(v: u128) -> (r: u64)
    ensures
        r == to_u64(v as int),
{
    (v % 0x1_0000_0000_0000_0000) as u64
}

/// The signed value of the low 32 bits, as a 128-bit integer.
pub fn s32_i128(a: u64) -> (v: i128)
    ensures
        v as int == s32(a),
{
    let w = a % 0x1_0000_0000;
    if w < 0x8000_0000 {
        w as i128
    } else {
        (w as i128) - 0x1_0000_0000
    }
}

/// The signed value of a 64-bit pattern, as a 128-bit integer.
pub fn s64_i128(a: u64) -> (v: i128)
    ensures
        v as int == s64(a),
{
    if a < 0x8000_0000_0000_0000 {
        a as i128
    } else {
        (a as i128) - 0x1_0000_0000_0000_0000
    }
}

} // verus!
