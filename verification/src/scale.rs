//! Target dimensions for a thumbnail: scale the source down, preserving
//! its aspect ratio, so that the pixel count fits a fixed budget. The
//! computation is pure integer arithmetic in 32.32 fixed point, total
//! over all dimensions a bitmap can have.

use vstd::prelude::*;
use vstd::arithmetic::div_mod::{lemma_remainder_lower, lemma_remainder_upper};

verus! {

/// The pixel budget every thumbnail is scaled to fit.
pub const TARGET_PX: u64 = 1048576;

/// The quality percentage thumbnails are encoded at.
pub const TARGET_QUALITY: u8 = 60;

/// Floor of the square root, defined by counting up.
pub open spec fn spec_isqrt(x: nat) -> nat
    decreases x,
{
    if x == 0 {
        0
    } else {
        let r = spec_isqrt((x - 1) as nat);
        if (r + 1) * (r + 1) <= x {
            r + 1
        } else {
            r
        }
    }
}

/// `spec_isqrt` is the floor of the square root.
pub proof fn lemma_spec_isqrt_bounds(x: nat)
    ensures
        spec_isqrt(x) * spec_isqrt(x) <= x,
        x < (spec_isqrt(x) + 1) * (spec_isqrt(x) + 1),
    decreases x,
{
    if x > 0 {
        lemma_spec_isqrt_bounds((x - 1) as nat);
        let r = spec_isqrt((x - 1) as nat);
        if (r + 1) * (r + 1) <= x {
            assert(spec_isqrt(x) == r + 1);
            let s = spec_isqrt(x);
            assert(x < (s + 1) * (s + 1)) by (nonlinear_arith)
                requires
                    s == r + 1,
                    x - 1 < (r + 1) * (r + 1),
                    r >= 0,
            ;
        } else {
            assert(spec_isqrt(x) == r);
            let s = spec_isqrt(x);
            assert(x < (s + 1) * (s + 1)) by (nonlinear_arith)
                requires
                    s == r,
                    x < (r + 1) * (r + 1),
            ;
        }
    } else {
        assert(spec_isqrt(0) == 0);
        assert((spec_isqrt(x) + 1) * (spec_isqrt(x) + 1) == 1);
    }
}

/// Two integers with the floor-square-root property of the same number
/// are equal.
pub proof fn lemma_isqrt_unique(x: nat, f: nat, g: nat)
    requires
        f * f <= x < (f + 1) * (f + 1),
        g * g <= x < (g + 1) * (g + 1),
    ensures
        f == g,
{
    assert(f == g) by (nonlinear_arith)
        requires
            f * f <= x < (f + 1) * (f + 1),
            g * g <= x < (g + 1) * (g + 1),
            f >= 0,
            g >= 0,
    ;
}

/// Floor of the square root.
pub fn integer_sqrt(x: u128) -> (r: u128)
    requires
        x < 19342813113834066795298816,
    ensures
        r * r <= x,
        x < (r + 1) * (r + 1),
        r == spec_isqrt(x as nat),
{
    let mut lo: u128 = 0;
    let mut hi: u128 = 0x40000000000u128;
    proof {
        assert(0x40000000000u128 * 0x40000000000u128 == 19342813113834066795298816u128);
    }
    while lo + 1 < hi
        invariant
            lo < hi <= 0x40000000000u128,
            lo * lo <= x,
            x < hi * hi,
        decreases hi - lo,
    {
        let mid = lo + (hi - lo) / 2;
        proof {
            assert(mid as int * mid as int <= 19342813113834066795298816) by (nonlinear_arith)
                requires
                    0 <= mid <= 0x40000000000,
            ;
        }
        if mid * mid <= x {
            lo = mid;
        } else {
            hi = mid;
        }
    }
    proof {
        lemma_spec_isqrt_bounds(x as nat);
        lemma_isqrt_unique(x as nat, lo as nat, spec_isqrt(x as nat));
    }
    lo
}

/// The 32.32 fixed-point factor an over-budget bitmap is scaled by: the
/// square root of the ratio of the budget to the bitmap's area.
pub open spec fn scale_factor_spec(width: u32, height: u32) -> nat
    recommends
        width as int * height as int > TARGET_PX,
{
    spec_isqrt(
        ((TARGET_PX * 18446744073709551616) / (width as int * height as int)) as nat,
    )
}

/// The scaled dimensions: unchanged when the source already fits the
/// budget, else both sides multiplied by the common factor.
pub open spec fn scaled_dimensions_spec(width: u32, height: u32) -> (u32, u32) {
    if width as int * height as int <= TARGET_PX {
        (width, height)
    } else {
        let f = scale_factor_spec(width, height) as int;
        (
            ((width as int * f) / 4294967296) as u32,
            ((height as int * f) / 4294967296) as u32,
        )
    }
}

/// The scaled dimensions: unchanged when the source already fits the
/// budget; otherwise both sides shrink by one common factor so that the
/// area fits the budget and the aspect ratio is preserved to within one
/// pixel of rounding.
pub fn scale_dimensions(width: u32, height: u32) -> (r: (u32, u32))
    ensures
        r == scaled_dimensions_spec(width, height),
        width as u64 * height as u64 <= TARGET_PX ==> r == (width, height),
        width as u64 * height as u64 > TARGET_PX ==> {
            &&& r.0 as u64 * r.1 as u64 <= TARGET_PX
            &&& r.0 <= width
            &&& r.1 <= height
            &&& r.0 as int * height as int <= r.1 as int * width as int + width as int
            &&& r.1 as int * width as int <= r.0 as int * height as int + height as int
        },
{
    let w_wide = width as u128;
    let h_wide = height as u128;
    proof {
        assert(w_wide as int * h_wide as int <= 18446744065119617025) by (nonlinear_arith)
            requires
                0 <= w_wide <= 4294967295,
                0 <= h_wide <= 4294967295,
        ;
    }
    let area = w_wide * h_wide;
    if area <= TARGET_PX as u128 {
        return (width, height);
    }
    let f2 = (TARGET_PX as u128 * 18446744073709551616u128) / area;
    proof {
        assert(TARGET_PX as u128 * 18446744073709551616u128 == 19342813113834066795298816u128);
        lemma_remainder_lower(19342813113834066795298816, area as int);
        lemma_remainder_upper(19342813113834066795298816, area as int);
        // The factor's square is at most the budget ratio, which is
        // below 2^64 because the area exceeds the budget.
        assert(f2 as int * area as int <= 19342813113834066795298816);
        assert(f2 < 18446744073709551616) by (nonlinear_arith)
            requires
                f2 as int * area as int <= 19342813113834066795298816,
                area > 1048576,
                f2 >= 0,
        ;
    }
    let f = integer_sqrt(f2);
    proof {
        assert(f * f <= f2);
        assert(f < 4294967296) by (nonlinear_arith)
            requires
                f * f <= f2,
                f2 < 18446744073709551616,
                f >= 0,
        ;
        assert(w_wide as int * f as int <= 18446744069414584320 && h_wide as int * f as int
            <= 18446744069414584320) by (nonlinear_arith)
            requires
                0 <= w_wide <= 4294967295,
                0 <= h_wide <= 4294967295,
                0 <= f <= 4294967295,
        ;
    }
    let scaled_w = (w_wide * f) / 4294967296;
    let scaled_h = (h_wide * f) / 4294967296;
    proof {
        lemma_remainder_lower((w_wide * f) as int, 4294967296);
        lemma_remainder_upper((w_wide * f) as int, 4294967296);
        lemma_remainder_lower((h_wide * f) as int, 4294967296);
        lemma_remainder_upper((h_wide * f) as int, 4294967296);
        let wi = w_wide as int;
        let hi_ = h_wide as int;
        let fi = f as int;
        let swi = scaled_w as int;
        let shi = scaled_h as int;
        let t = TARGET_PX as int;
        assert(wi > 0 && hi_ > 0) by (nonlinear_arith)
            requires
                wi * hi_ > 1048576,
                wi >= 0,
                hi_ >= 0,
        ;
        assert(swi * 4294967296 <= wi * fi);
        assert(shi * 4294967296 <= hi_ * fi);
        assert(fi * fi * (wi * hi_) <= t * 18446744073709551616) by (nonlinear_arith)
            requires
                fi * fi <= f2 as int,
                f2 as int * (wi * hi_) <= t * 18446744073709551616,
                wi * hi_ > 0,
                fi >= 0,
        ;
        assert(swi * shi <= t) by (nonlinear_arith)
            requires
                swi * 4294967296 <= wi * fi,
                shi * 4294967296 <= hi_ * fi,
                fi * fi * (wi * hi_) <= t * 18446744073709551616,
                swi >= 0,
                shi >= 0,
                wi >= 0,
                hi_ >= 0,
                fi >= 0,
        ;
        assert(swi <= wi && shi <= hi_) by (nonlinear_arith)
            requires
                swi * 4294967296 <= wi * fi,
                shi * 4294967296 <= hi_ * fi,
                fi < 4294967296,
                swi >= 0,
                shi >= 0,
                wi >= 0,
                hi_ >= 0,
                fi >= 0,
        ;
        // Aspect ratio: the two floors differ from the exact scaling by
        // less than one unit each.
        assert(wi * fi < (swi + 1) * 4294967296);
        assert(hi_ * fi < (shi + 1) * 4294967296);
        assert(swi * hi_ <= shi * wi + wi && shi * wi <= swi * hi_ + hi_) by (nonlinear_arith)
            requires
                swi * 4294967296 <= wi * fi,
                shi * 4294967296 <= hi_ * fi,
                wi * fi < (swi + 1) * 4294967296,
                hi_ * fi < (shi + 1) * 4294967296,
                swi >= 0,
                shi >= 0,
                wi > 0,
                hi_ > 0,
                fi >= 0,
        ;
    }
    (scaled_w as u32, scaled_h as u32)
}

} // verus!
