//! Agreement between the binary32 and binary16 forms of a coefficient
//! table.
//!
//! Both forms of a table entry are bit patterns of IEEE-754 values, so each
//! denotes an exact dyadic fraction. Scaling every finite value by `2^149`
//! (the reciprocal of the smallest positive binary32) turns both into plain
//! integers, and "the forms agree to within one binary16 unit in the last
//! place" becomes an integer inequality: [`within_one_ulp`]. The checker
//! [`fp16_agrees`] certifies that inequality; [`tables_agree`] certifies it
//! for every entry of a table pair.

use vstd::prelude::*;

use crate::coef::coef_scale_bits;
use crate::coef::coef_scale_bits_spec;
use crate::coef::coef_scale_fp16;
use crate::coef::coef_scale_fp16_spec;
use crate::coef::coef_usm_bits;
use crate::coef::coef_usm_bits_spec;
use crate::coef::coef_usm_fp16;
use crate::coef::coef_usm_fp16_spec;
use vstd::arithmetic::power2::pow2;
use vstd::arithmetic::power2::lemma_pow2_adds;
use vstd::arithmetic::power2::lemma_pow2_pos;
use vstd::arithmetic::power2::lemma_pow2_strictly_increases;
use vstd::arithmetic::power2::lemma2_to64;
use vstd::arithmetic::power2::lemma2_to64_rest;
use vstd::bits::lemma_u64_shl_is_mul;

verus! {

/// Sign bit of a binary16 bit pattern.
pub open spec fn fp16_sign(h: u16) -> int {
    h as int / 0x8000
}

/// Biased exponent field of a binary16 bit pattern.
pub open spec fn fp16_exp(h: u16) -> int {
    (h as int / 0x400) % 0x20
}

/// Fraction field of a binary16 bit pattern.
pub open spec fn fp16_frac(h: u16) -> int {
    h as int % 0x400
}

/// Significand of a finite binary16 value, with the implicit leading bit
/// for normal numbers.
pub open spec fn fp16_sig(h: u16) -> int {
    if fp16_exp(h) == 0 {
        fp16_frac(h)
    } else {
        0x400 + fp16_frac(h)
    }
}

/// Exponent of a finite binary16 value scaled by `2^149`: the value is
/// `(-1)^sign * sig * 2^(this - 149)`.
pub open spec fn fp16_scaled_exp(h: u16) -> nat {
    if fp16_exp(h) == 0 {
        125nat
    } else {
        (fp16_exp(h) + 124) as nat
    }
}

/// A finite binary16 value times `2^149`, as an integer.
pub open spec fn fp16_val_scaled(h: u16) -> int {
    let mag = fp16_sig(h) * pow2(fp16_scaled_exp(h));
    if fp16_sign(h) == 1 {
        -mag
    } else {
        mag
    }
}

/// One binary16 unit in the last place at `h`, times `2^149`.
pub open spec fn fp16_ulp_scaled(h: u16) -> int {
    pow2(fp16_scaled_exp(h)) as int
}

/// Sign bit of a binary32 bit pattern.
pub open spec fn f32_sign(f: u32) -> int {
    f as int / 0x8000_0000
}

/// Biased exponent field of a binary32 bit pattern.
pub open spec fn f32_exp(f: u32) -> int {
    (f as int / 0x80_0000) % 0x100
}

/// Fraction field of a binary32 bit pattern.
pub open spec fn f32_frac(f: u32) -> int {
    f as int % 0x80_0000
}

/// Significand of a finite binary32 value, with the implicit leading bit
/// for normal numbers.
pub open spec fn f32_sig(f: u32) -> int {
    if f32_exp(f) == 0 {
        f32_frac(f)
    } else {
        0x80_0000 + f32_frac(f)
    }
}

/// Exponent of a finite binary32 value scaled by `2^149`.
pub open spec fn f32_scaled_exp(f: u32) -> nat {
    if f32_exp(f) == 0 {
        0nat
    } else {
        (f32_exp(f) - 1) as nat
    }
}

/// A finite binary32 value times `2^149`, as an integer.
pub open spec fn f32_val_scaled(f: u32) -> int {
    let mag = f32_sig(f) * pow2(f32_scaled_exp(f));
    if f32_sign(f) == 1 {
        -mag
    } else {
        mag
    }
}

/// Both patterns are finite and their values differ by at most one
/// binary16 unit in the last place at `h`.
pub open spec fn within_one_ulp(h: u16, f: u32) -> bool {
    let d = fp16_val_scaled(h) - f32_val_scaled(f);
    &&& fp16_exp(h) != 31
    &&& f32_exp(f) != 255
    &&& (if d < 0 {
        -d
    } else {
        d
    }) <= fp16_ulp_scaled(h)
}

/// Closeness of aligned significands carries over to the scaled values:
/// if the significands at a common scale `2^ef` differ by at most
/// `2^d`, the values differ by at most `2^(ef + d)`.
proof fn lemma_close_scaled(neg_h: bool, mh: int, neg_f: bool, mf: int, ef: nat, d: nat, diff: int)
    requires
        mh >= 0,
        mf >= 0,
        neg_h == neg_f ==> diff == (if mh * pow2(d) >= mf {
            mh * pow2(d) - mf
        } else {
            mf - mh * pow2(d)
        }),
        neg_h != neg_f ==> diff == mh * pow2(d) + mf,
        diff <= pow2(d),
    ensures
        ({
            let vh = if neg_h {
                -(mh * pow2((ef + d) as nat))
            } else {
                mh * pow2((ef + d) as nat)
            };
            let vf = if neg_f {
                -(mf * pow2(ef))
            } else {
                mf * pow2(ef)
            };
            let dd = vh - vf;
            (if dd < 0 {
                -dd
            } else {
                dd
            }) <= pow2((ef + d) as nat)
        }),
{
    lemma_pow2_adds(ef, d);
    lemma_pow2_pos(ef);
    lemma_pow2_pos(d);
    let p = pow2(ef) as int;
    let q = pow2(d) as int;
    assert(({
        let vh = if neg_h {
            -(mh * (p * q))
        } else {
            mh * (p * q)
        };
        let vf = if neg_f {
            -(mf * p)
        } else {
            mf * p
        };
        let dd = vh - vf;
        (if dd < 0 {
            -dd
        } else {
            dd
        }) <= p * q
    })) by (nonlinear_arith)
        requires
            mh >= 0,
            mf >= 0,
            p > 0,
            q > 0,
            neg_h == neg_f ==> diff == (if mh * q >= mf {
                mh * q - mf
            } else {
                mf - mh * q
            }),
            neg_h != neg_f ==> diff == mh * q + mf,
            diff <= q,
    ;
}

/// Certifies that a binary16 pattern and a binary32 pattern denote finite
/// values at most one binary16 unit in the last place apart.
///
/// The check is conservative: `true` always implies [`within_one_ulp`],
/// while exotic pairings it does not analyze (values whose scaled
/// exponents are more than forty binades apart, or a lone zero against a
/// nonzero value) are reported as disagreeing.
pub fn fp16_agrees(h: u16, f: u32) -> (r: bool)
    ensures
        r ==> within_one_ulp(h, f),
{
    let h_exp: u16 = (h / 0x400) % 0x20;
    let h_frac: u16 = h % 0x400;
    let h_neg: bool = h / 0x8000 == 1;
    let f_exp: u32 = (f / 0x80_0000) % 0x100;
    let f_frac: u32 = f % 0x80_0000;
    let f_neg: bool = f / 0x8000_0000 == 1;

    if h_exp == 31 || f_exp == 255 {
        return false;
    }
    let mh: u64 = if h_exp == 0 {
        h_frac as u64
    } else {
        0x400 + h_frac as u64
    };
    let eh: u64 = if h_exp == 0 {
        125
    } else {
        h_exp as u64 + 124
    };
    let mf: u64 = if f_exp == 0 {
        f_frac as u64
    } else {
        0x80_0000 + f_frac as u64
    };
    let ef: u64 = if f_exp == 0 {
        0
    } else {
        f_exp as u64 - 1
    };

    if mh == 0 && mf == 0 {
        proof {
            lemma_pow2_pos(fp16_scaled_exp(h));
            assert(fp16_sig(h) == 0);
            assert(f32_sig(f) == 0);
            assert(fp16_sig(h) * pow2(fp16_scaled_exp(h)) == 0) by (nonlinear_arith)
                requires
                    fp16_sig(h) == 0,
            ;
            assert(f32_sig(f) * pow2(f32_scaled_exp(f)) == 0) by (nonlinear_arith)
                requires
                    f32_sig(f) == 0,
            ;
        }
        return true;
    }
    if eh < ef {
        return false;
    }
    let d: u64 = eh - ef;
    if d > 40 {
        return false;
    }

    proof {
        lemma2_to64();
        lemma2_to64_rest();
        if d < 40 {
            lemma_pow2_strictly_increases(d as nat, 40);
        }
        assert(mh * pow2(d as nat) <= 2047 * 0x100_0000_0000) by (nonlinear_arith)
            requires
                mh <= 2047,
                pow2(d as nat) <= 0x100_0000_0000,
        ;
        lemma_u64_shl_is_mul(mh, d);
        lemma_u64_shl_is_mul(1u64, d);
    }
    let a: u64 = mh << d;
    let tol: u64 = 1u64 << d;
    let diff: u64 = if h_neg == f_neg {
        if a >= mf {
            a - mf
        } else {
            mf - a
        }
    } else {
        a + mf
    };
    if diff <= tol {
        proof {
            lemma_close_scaled(
                h_neg,
                mh as int,
                f_neg,
                mf as int,
                ef as nat,
                d as nat,
                diff as int,
            );
            assert(fp16_scaled_exp(h) == ef as nat + d as nat);
        }
        true
    } else {
        false
    }
}

/// Every entry of the binary16 table agrees with the binary32 entry to
/// within one binary16 unit in the last place.
pub open spec fn tables_within_one_ulp(h: [[u16; 8]; 64], f: [[u32; 8]; 64]) -> bool {
    forall|i: int, j: int| 0 <= i < 64 && 0 <= j < 8 ==> within_one_ulp(h@[i]@[j], f@[i]@[j])
}

/// Certifies that every entry of the binary16 form of a coefficient table
/// agrees with the binary32 entry to within one binary16 unit in the last
/// place.
pub fn tables_agree(h: &[[u16; 8]; 64], f: &[[u32; 8]; 64]) -> (r: bool)
    ensures
        r ==> tables_within_one_ulp(*h, *f),
{
    let mut i: usize = 0;
    while i < 64
        invariant
            i <= 64,
            forall|p: int, q: int|
                0 <= p < i && 0 <= q < 8 ==> within_one_ulp(h@[p]@[q], f@[p]@[q]),
        decreases 64 - i,
    {
        let mut j: usize = 0;
        while j < 8
            invariant
                i < 64,
                j <= 8,
                forall|p: int, q: int|
                    0 <= p < i && 0 <= q < 8 ==> within_one_ulp(h@[p]@[q], f@[p]@[q]),
                forall|q: int| 0 <= q < j ==> within_one_ulp(h@[i as int]@[q], f@[i as int]@[q]),
            decreases 8 - j,
        {
            if !fp16_agrees(h[i][j], f[i][j]) {
                return false;
            }
            j = j + 1;
        }
        i = i + 1;
    }
    true
}

/// Law (certified): the binary16 form of the smoothing/resize kernel
/// agrees with its authoritative binary32 form to within one binary16 unit
/// in the last place — e.g. the unit center tap of phase 0 is bit pattern
/// 15360. `true` certifies the property of the specification tables
/// themselves, through the verified [`fp16_agrees`].
pub fn check_coef_scale_agreement() -> (r: bool)
    ensures
        r ==> tables_within_one_ulp(coef_scale_fp16_spec(), coef_scale_bits_spec()),
{
    tables_agree(&coef_scale_fp16(), &coef_scale_bits())
}

/// Law (certified): the binary16 form of the band-pass/unsharp-mask kernel
/// agrees with its authoritative binary32 form to within one binary16 unit
/// in the last place. `true` certifies the property of the specification
/// tables themselves, through the verified [`fp16_agrees`].
pub fn check_coef_usm_agreement() -> (r: bool)
    ensures
        r ==> tables_within_one_ulp(coef_usm_fp16_spec(), coef_usm_bits_spec()),
{
    tables_agree(&coef_usm_fp16(), &coef_usm_bits())
}

} // verus!

