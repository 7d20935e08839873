use vstd::prelude::*;

verus! {

/// Number of fixed-point units in one whole: values are in billionths.
pub const SCALE: u64 = 1_000_000_000;

/// `v` limited to the closed range `[lo, hi]`.
pub open spec fn clamp_int(v: int, lo: int, hi: int) -> int {
    if v < lo {
        lo
    } else if v > hi {
        hi
    } else {
        v
    }
}

/// Limits `v` to `[lo, hi]`; `lo` is tested first, as a lower bound wins.
pub fn clamp_i64(v: i64, lo: i64, hi: i64) -> (r: i64)
    ensures
        r as int == clamp_int(v as int, lo as int, hi as int),
{
    if v < lo {
        lo
    } else if v > hi {
        hi
    } else {
        v
    }
}

/// `a / b` rounded toward minus infinity.
pub fn floor_div(a: i128, b: u64) -> (r: i128)
    requires
        b > 0,
        a > i128::MIN,
    ensures
        r == (a as int) / (b as int),
{
    if a >= 0 {
        (a as u128 / b as u128) as i128
    } else {
        let m = (-a - 1) as u128;
        let q = m / (b as u128);
        proof {
            let bi = b as int;
            vstd::arithmetic::div_mod::lemma_fundamental_div_mod(m as int, bi);
            vstd::arithmetic::div_mod::lemma_mod_bound(m as int, bi);
            vstd::arithmetic::div_mod::lemma_fundamental_div_mod(a as int, bi);
            vstd::arithmetic::div_mod::lemma_mod_bound(a as int, bi);
            let rm = (m as int) % bi;
            let qa = (a as int) / bi;
            let ra = (a as int) % bi;
            assert(qa == -(q as int) - 1) by (nonlinear_arith)
                requires
                    m == -a - 1,
                    m as int == bi * (q as int) + rm,
                    0 <= rm < bi,
                    a as int == bi * qa + ra,
                    0 <= ra < bi,
            ;
        }
        -(q as i128) - 1
    }
}

} // verus!
