//! The calibration remap: a linear rescale of the median reading from the
//! configured input range (wet..dry) onto a bounded output range, clamped to
//! stay inside the output bounds.
//!
//! Reading values leave this core as exact rationals (the surrounding driver
//! divides them out into floating point just before reporting), so the map is
//! computed here over integers with no rounding at all.

use vstd::prelude::*;

verus! {

/// Calibration is applied only when both reference values are set (the unset
/// sentinel is negative), strictly positive, and distinct.
pub open spec fn calibration_valid(dry_value: int, wet_value: int) -> bool {
    &&& dry_value > 0
    &&& wet_value > 0
    &&& dry_value != wet_value
}

/// One numeric output of a reading request, as the exact rational
/// `numerator / denominator` with a positive denominator.
#[derive(Debug, Clone, Copy, PartialEq, Eq)]
pub struct ReadingValue {
    pub numerator: i64,
    pub denominator: i64,
}

impl ReadingValue {
    pub open spec fn wf(&self) -> bool {
        self.denominator > 0
    }

    /// The integer `n`, as a rational.
    pub fn whole(n: i64) -> (v: ReadingValue)
        ensures
            v.numerator == n,
            v.denominator == 1,
            v.wf(),
    {
        ReadingValue { numerator: n, denominator: 1 }
    }
}

/// Denominator of the mapped value: the width of the input range, normalized
/// to be positive.
pub open spec fn map_den_spec(in_min: int, in_max: int) -> int {
    if in_max >= in_min {
        in_max - in_min
    } else {
        in_min - in_max
    }
}

/// Numerator of `(x - in_min) * (out_max - out_min) / (in_max - in_min)
/// + out_min` over the normalized (positive) denominator, before clamping.
pub open spec fn map_num_raw_spec(x: int, in_min: int, in_max: int, out_min: int, out_max: int) -> int {
    if in_max >= in_min {
        (x - in_min) * (out_max - out_min) + out_min * (in_max - in_min)
    } else {
        -((x - in_min) * (out_max - out_min) + out_min * (in_max - in_min))
    }
}

/// The lower of the two output bounds.
pub open spec fn out_lo_spec(out_min: int, out_max: int) -> int {
    if out_min <= out_max {
        out_min
    } else {
        out_max
    }
}

/// The higher of the two output bounds.
pub open spec fn out_hi_spec(out_min: int, out_max: int) -> int {
    if out_min <= out_max {
        out_max
    } else {
        out_min
    }
}

/// Numerator of the mapped value after clamping into the output range.
pub open spec fn map_num_spec(x: int, in_min: int, in_max: int, out_min: int, out_max: int) -> int {
    let n = map_num_raw_spec(x, in_min, in_max, out_min, out_max);
    let d = map_den_spec(in_min, in_max);
    if n < out_lo_spec(out_min, out_max) * d {
        out_lo_spec(out_min, out_max) * d
    } else if n > out_hi_spec(out_min, out_max) * d {
        out_hi_spec(out_min, out_max) * d
    } else {
        n
    }
}

/// Linearly rescale `x` from the input range `in_min..in_max` onto the
/// output range `out_min..out_max`, clamping the result into the output
/// bounds, as the exact rational `v.numerator / v.denominator`.
///
/// The range bounds in `requires` exist only so that every intermediate
/// product fits in 64 bits; the driver calls this with a 16-bit median, two
/// 32-bit calibration endpoints, and the fixed output bounds 100 and 0.
pub fn map_value(x: i64, in_min: i64, in_max: i64, out_min: i64, out_max: i64) -> (v: ReadingValue)
    requires
        in_min != in_max,
        -0x1_0000_0000 <= x <= 0x1_0000_0000,
        -0x1_0000_0000 <= in_min <= 0x1_0000_0000,
        -0x1_0000_0000 <= in_max <= 0x1_0000_0000,
        -0x10_0000 <= out_min <= 0x10_0000,
        -0x10_0000 <= out_max <= 0x10_0000,
    ensures
        v.denominator == map_den_spec(in_min as int, in_max as int),
        v.numerator == map_num_spec(x as int, in_min as int, in_max as int, out_min as int, out_max as int),
        v.wf(),
        out_lo_spec(out_min as int, out_max as int) * v.denominator <= v.numerator,
        v.numerator <= out_hi_spec(out_min as int, out_max as int) * v.denominator,
{
    let a: i64 = x - in_min;
    let span: i64 = out_max - out_min;
    assert(-0x8000_0000_0000_0000 < a * span < 0x8000_0000_0000_0000) by (nonlinear_arith)
        requires
            -0x2_0000_0000 <= a <= 0x2_0000_0000,
            -0x20_0000 <= span <= 0x20_0000,
    ;
    let prod: i64 = a * span;
    let width: i64 = in_max - in_min;
    assert(-0x8000_0000_0000_0000 < out_min * width < 0x8000_0000_0000_0000) by (nonlinear_arith)
        requires
            -0x10_0000 <= out_min <= 0x10_0000,
            -0x2_0000_0000 <= width <= 0x2_0000_0000,
    ;
    let base: i64 = out_min * width;
    assert(-0x4000_0000_0000_0000 < prod + base < 0x4000_0000_0000_0000) by (nonlinear_arith)
        requires
            -0x2_0000_0000 <= a <= 0x2_0000_0000,
            -0x20_0000 <= span <= 0x20_0000,
            -0x10_0000 <= out_min <= 0x10_0000,
            -0x2_0000_0000 <= width <= 0x2_0000_0000,
            prod == a * span,
            base == out_min * width,
    ;
    let raw: i64 = prod + base;
    let (num_raw, den): (i64, i64) = if width >= 0 {
        (raw, width)
    } else {
        (-raw, -width)
    };
    let lo: i64 = if out_min <= out_max {
        out_min
    } else {
        out_max
    };
    let hi: i64 = if out_min <= out_max {
        out_max
    } else {
        out_min
    };
    assert(-0x8000_0000_0000_0000 < lo * den < 0x8000_0000_0000_0000 && -0x8000_0000_0000_0000
        < hi * den < 0x8000_0000_0000_0000 && lo * den <= hi * den) by (nonlinear_arith)
        requires
            -0x10_0000 <= lo <= 0x10_0000,
            -0x10_0000 <= hi <= 0x10_0000,
            lo <= hi,
            0 < den <= 0x2_0000_0000,
    ;
    let lo_bound: i64 = lo * den;
    let hi_bound: i64 = hi * den;
    let num: i64 = if num_raw < lo_bound {
        lo_bound
    } else if num_raw > hi_bound {
        hi_bound
    } else {
        num_raw
    };
    ReadingValue { numerator: num, denominator: den }
}

/// Hitting the input bounds exactly yields the output bounds exactly: the
/// mapped value is `out_min` (times the denominator) at `x == in_min` and
/// `out_max` at `x == in_max`, with no clamping in the way.
pub proof fn lemma_map_value_endpoints(x: int, in_min: int, in_max: int, out_min: int, out_max: int)
    requires
        in_min != in_max,
    ensures
        x == in_min ==> map_num_spec(x, in_min, in_max, out_min, out_max) == out_min * map_den_spec(
            in_min,
            in_max,
        ),
        x == in_max ==> map_num_spec(x, in_min, in_max, out_min, out_max) == out_max * map_den_spec(
            in_min,
            in_max,
        ),
{
    let d = map_den_spec(in_min, in_max);
    let lo = out_lo_spec(out_min, out_max);
    let hi = out_hi_spec(out_min, out_max);
    assert(d > 0);
    if x == in_min {
        assert(map_num_raw_spec(x, in_min, in_max, out_min, out_max) == out_min * d)
            by (nonlinear_arith)
            requires
                x == in_min,
                in_min != in_max,
                d == map_den_spec(in_min, in_max),
                map_num_raw_spec(x, in_min, in_max, out_min, out_max) == (if in_max >= in_min {
                    (x - in_min) * (out_max - out_min) + out_min * (in_max - in_min)
                } else {
                    -((x - in_min) * (out_max - out_min) + out_min * (in_max - in_min))
                }),
        ;
        assert(lo * d <= out_min * d && out_min * d <= hi * d) by (nonlinear_arith)
            requires
                d > 0,
                lo <= out_min <= hi,
        ;
    }
    if x == in_max {
        assert(map_num_raw_spec(x, in_min, in_max, out_min, out_max) == out_max * d)
            by (nonlinear_arith)
            requires
                x == in_max,
                in_min != in_max,
                d == map_den_spec(in_min, in_max),
                map_num_raw_spec(x, in_min, in_max, out_min, out_max) == (if in_max >= in_min {
                    (x - in_min) * (out_max - out_min) + out_min * (in_max - in_min)
                } else {
                    -((x - in_min) * (out_max - out_min) + out_min * (in_max - in_min))
                }),
        ;
        assert(lo * d <= out_max * d && out_max * d <= hi * d) by (nonlinear_arith)
            requires
                d > 0,
                lo <= out_max <= hi,
        ;
    }
}

} // verus!
