//! Conversion of raw PM2.5 concentrations to Air Quality Index values.
//!
//! Concentrations are fixed-point integers in thousandths of a ug/m^3
//! ("millis"); AQI values are fixed-point integers in tenths of a point
//! ("tenths").  The conversion interpolates linearly inside the EPA
//! breakpoint table and saturates at AQI 500 for concentrations at or above
//! 500.5 ug/m^3.  Negative readings are clamped to AQI 0.
//!
//! The interpolated value is rounded to the nearest tenth, an exact half to
//! the even tenth, the rule the standard float formatter applies to an
//! exact tie.  A reading whose binary floating-point image sits inexactly
//! next to a tie can still round the other way in a float pipeline; that
//! residue is inherent to the change of number representation.

use vstd::prelude::*;
use vstd::arithmetic::div_mod::lemma_div_is_ordered;
use vstd::arithmetic::div_mod::lemma_div_pos_is_pos;
use vstd::arithmetic::div_mod::lemma_fundamental_div_mod;
use vstd::arithmetic::div_mod::lemma_mod_division_less_than_divisor;
use vstd::arithmetic::div_mod::lemma_multiply_divide_le;

verus! {

/// Concentration (in millis) of breakpoint `i` of the table.  Entry 0 is the
/// origin; entry 7 is the saturation point, 500.5 ug/m^3.
pub open spec fn bp_conc(i: int) -> int {
    if i <= 0 {
        0
    } else if i == 1 {
        12100
    } else if i == 2 {
        35500
    } else if i == 3 {
        55500
    } else if i == 4 {
        150500
    } else if i == 5 {
        250500
    } else if i == 6 {
        350500
    } else {
        500500
    }
}

/// AQI (in tenths) of breakpoint `i` of the table.
pub open spec fn bp_aqi(i: int) -> int {
    if i <= 0 {
        0
    } else if i == 1 {
        510
    } else if i == 2 {
        1010
    } else if i == 3 {
        1510
    } else if i == 4 {
        2010
    } else if i == 5 {
        3010
    } else if i == 6 {
        4010
    } else {
        5000
    }
}

/// `num / d` rounded to the nearest integer, an exact half to the even
/// neighbour.
pub open spec fn spec_round_even(num: int, d: int) -> int {
    let q = num / d;
    let rem = num % d;
    if 2 * rem < d {
        q
    } else if 2 * rem > d {
        q + 1
    } else if q % 2 == 0 {
        q
    } else {
        q + 1
    }
}

/// Linear interpolation between `(lo_c, lo_a)` and `(hi_c, hi_a)` at
/// concentration `r`, rounded to the nearest tenth, ties to even.
pub open spec fn spec_interp(lo_c: int, lo_a: int, hi_c: int, hi_a: int, r: int) -> int {
    lo_a + spec_round_even((hi_a - lo_a) * (r - lo_c), hi_c - lo_c)
}

/// Index of the table segment that encloses `r`: the smallest `i >= 1` with
/// `bp_conc(i) >= r`.  Meaningful for `0 <= r < bp_conc(7)`.
pub open spec fn spec_segment(r: int) -> int {
    if r <= 12100 {
        1
    } else if r <= 35500 {
        2
    } else if r <= 55500 {
        3
    } else if r <= 150500 {
        4
    } else if r <= 250500 {
        5
    } else if r <= 350500 {
        6
    } else {
        7
    }
}

/// AQI in tenths for a raw concentration of `r` millis: 0 for negative
/// readings, the saturation value 500.0 at or above 500.5 ug/m^3, and the
/// interpolated value of the enclosing segment otherwise.
pub open spec fn spec_raw_to_aqi(r: int) -> int {
    if r < 0 {
        0
    } else if r >= bp_conc(7) {
        bp_aqi(7)
    } else {
        let i = spec_segment(r);
        spec_interp(bp_conc(i - 1), bp_aqi(i - 1), bp_conc(i), bp_aqi(i), r)
    }
}

/// Interpolation inside one segment stays between the segment's endpoint AQI
/// values and is monotone in the concentration.
proof fn lemma_interp_mono(lo_c: int, lo_a: int, hi_c: int, hi_a: int, r1: int, r2: int)
    requires
        lo_c < hi_c,
        lo_a <= hi_a,
        lo_c <= r1 <= r2 <= hi_c,
    ensures
        lo_a <= spec_interp(lo_c, lo_a, hi_c, hi_a, r1),
        spec_interp(lo_c, lo_a, hi_c, hi_a, r1) <= spec_interp(lo_c, lo_a, hi_c, hi_a, r2),
        spec_interp(lo_c, lo_a, hi_c, hi_a, r2) <= hi_a,
{
    let d = hi_c - lo_c;
    let da = hi_a - lo_a;
    let n1 = da * (r1 - lo_c);
    let n2 = da * (r2 - lo_c);
    assert(0 <= n1) by (nonlinear_arith)
        requires
            n1 == da * (r1 - lo_c),
            0 <= da,
            lo_c <= r1,
    ;
    assert(n1 <= n2) by (nonlinear_arith)
        requires
            n1 == da * (r1 - lo_c),
            n2 == da * (r2 - lo_c),
            0 <= da,
            r1 <= r2,
    ;
    assert(n2 <= da * d) by (nonlinear_arith)
        requires
            n2 == da * (r2 - lo_c),
            0 <= da,
            r2 - lo_c <= d,
    ;
    lemma_round_even_props(n1, n2, d, da);
}

/// Half-even rounding of a quotient is non-negative for a non-negative
/// numerator, monotone in the numerator, and at most `hi` when the
/// numerator is at most `hi * d`.
proof fn lemma_round_even_props(n1: int, n2: int, d: int, hi: int)
    requires
        0 < d,
        0 <= n1 <= n2,
        n2 <= hi * d,
    ensures
        0 <= spec_round_even(n1, d),
        spec_round_even(n1, d) <= spec_round_even(n2, d),
        spec_round_even(n2, d) <= hi,
{
    let q1 = n1 / d;
    let q2 = n2 / d;
    lemma_div_pos_is_pos(n1, d);
    lemma_div_is_ordered(n1, n2, d);
    lemma_fundamental_div_mod(n1, d);
    lemma_fundamental_div_mod(n2, d);
    lemma_mod_division_less_than_divisor(n1, d);
    lemma_mod_division_less_than_divisor(n2, d);
    assert(n2 <= d * hi) by (nonlinear_arith)
        requires
            n2 <= hi * d,
    ;
    lemma_multiply_divide_le(n2, d, hi);
    if q2 == hi {
        assert(n2 % d == n2 - d * q2);
        assert(d * hi == hi * d) by (nonlinear_arith);
        assert(n2 % d <= 0);
    }
    if q1 == q2 {
        assert(n1 % d <= n2 % d);
    }
}

/// The AQI of a reading below the saturation point lies between the AQI
/// values of the two breakpoints that enclose it.
pub proof fn lemma_raw_to_aqi_bounds(r: int)
    requires
        0 <= r < bp_conc(7),
    ensures
        bp_aqi(spec_segment(r) - 1) <= spec_raw_to_aqi(r),
        spec_raw_to_aqi(r) <= bp_aqi(spec_segment(r)),
{
    let i = spec_segment(r);
    lemma_interp_mono(bp_conc(i - 1), bp_aqi(i - 1), bp_conc(i), bp_aqi(i), r, r);
}

/// The converted AQI always lies on the 0.0 .. 500.0 scale.
pub proof fn lemma_raw_to_aqi_range(r: int)
    ensures
        0 <= spec_raw_to_aqi(r) <= bp_aqi(7),
{
    if 0 <= r < bp_conc(7) {
        lemma_raw_to_aqi_bounds(r);
    }
}

/// The conversion is monotonically non-decreasing in the raw reading.
pub proof fn lemma_raw_to_aqi_monotone(r1: int, r2: int)
    requires
        r1 <= r2,
    ensures
        spec_raw_to_aqi(r1) <= spec_raw_to_aqi(r2),
{
    lemma_raw_to_aqi_range(r1);
    lemma_raw_to_aqi_range(r2);
    if 0 <= r1 && r2 < bp_conc(7) {
        let i = spec_segment(r1);
        let j = spec_segment(r2);
        lemma_raw_to_aqi_bounds(r1);
        lemma_raw_to_aqi_bounds(r2);
        if i == j {
            lemma_interp_mono(bp_conc(i - 1), bp_aqi(i - 1), bp_conc(i), bp_aqi(i), r1, r2);
        } else {
            assert(bp_aqi(i) <= bp_aqi(j - 1));
        }
    }
}

/// Breakpoint `i` of the table as a `(concentration millis, AQI tenths)`
/// pair.
fn breakpoint(i: usize) -> (p: (u64, u64))
    requires
        i < 8,
    ensures
        p.0 == bp_conc(i as int),
        p.1 == bp_aqi(i as int),
{
    if i == 0 {
        (0, 0)
    } else if i == 1 {
        (12100, 510)
    } else if i == 2 {
        (35500, 1010)
    } else if i == 3 {
        (55500, 1510)
    } else if i == 4 {
        (150500, 2010)
    } else if i == 5 {
        (250500, 3010)
    } else if i == 6 {
        (350500, 4010)
    } else {
        (500500, 5000)
    }
}

/// Convert a raw PM2.5 reading in millis (thousandths of a ug/m^3) to an AQI
/// value in tenths of a point.
pub fn raw_to_aqi(raw: i64) -> (aqi: u64)
    ensures
        aqi == spec_raw_to_aqi(raw as int),
        aqi <= 5000,
{
    proof {
        lemma_raw_to_aqi_range(raw as int);
    }
    if raw < 0 {
        return 0;
    }
    let r: u64 = raw as u64;
    if r >= 500500 {
        return 5000;
    }
    let high: usize = if r <= 12100 {
        1
    } else if r <= 35500 {
        2
    } else if r <= 55500 {
        3
    } else if r <= 150500 {
        4
    } else if r <= 250500 {
        5
    } else if r <= 350500 {
        6
    } else {
        7
    };
    assert(high == spec_segment(raw as int));
    let (lo_c, lo_a) = breakpoint(high - 1);
    let (hi_c, hi_a) = breakpoint(high);
    proof {
        lemma_interp_mono(lo_c as int, lo_a as int, hi_c as int, hi_a as int, raw as int, raw as int);
    }
    let da: u64 = hi_a - lo_a;
    let dr: u64 = r - lo_c;
    assert(da <= 1000);
    assert(dr <= 150000);
    assert(da as int * dr as int <= 150000000) by (nonlinear_arith)
        requires
            da <= 1000,
            dr <= 150000,
    ;
    let num: u64 = da * dr;
    let den: u64 = hi_c - lo_c;
    let q: u64 = num / den;
    let rem: u64 = num % den;
    proof {
        vstd::arithmetic::div_mod::lemma_div_nonincreasing(num as int, den as int);
    }
    let rounded: u64 = if 2 * rem < den {
        q
    } else if 2 * rem > den {
        q + 1
    } else if q % 2 == 0 {
        q
    } else {
        q + 1
    };
    lo_a + rounded
}

} // verus!
