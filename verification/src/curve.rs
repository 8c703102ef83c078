//! Speed-curve interpolation: mapping a temperature to a duty-cycle
//! percentage over an ordered sequence of control points.
//!
//! Between two neighbouring points the speed is interpolated linearly with
//! a truncating integer slope; below the first point and above the last the
//! curve extrapolates flat.

use vstd::arithmetic::div_mod::{
    lemma_div_pos_is_pos, lemma_fundamental_div_mod, lemma_mod_division_less_than_divisor,
};
use vstd::arithmetic::mul::lemma_mul_inequality;
use vstd::prelude::*;

use crate::config::CurvePoint;

verus! {

/// Division truncating toward zero, as Rust's `/` computes it on signed
/// integers; only used with a positive divisor.
pub open spec fn trunc_div(a: int, b: int) -> int {
    if a >= 0 {
        a / b
    } else {
        -((-a) / b)
    }
}

/// Index of the first point whose temperature is at least `t`, or the
/// curve's length when every point lies below `t`.
pub open spec fn first_at_or_above(curve: Seq<CurvePoint>, t: u32) -> int
    decreases curve.len(),
{
    if curve.len() == 0 {
        0
    } else if curve[0].temp >= t {
        0
    } else {
        1 + first_at_or_above(curve.drop_first(), t)
    }
}

/// A duty cycle forced into the meaningful percentage range.
pub open spec fn clamp_percent(v: int) -> int {
    if v < 0 {
        0
    } else if v > 100 {
        100
    } else {
        v
    }
}

/// The raw (unclamped) linear interpolation between `lo` and `hi` at `t`.
pub open spec fn segment_value(lo: CurvePoint, hi: CurvePoint, t: u32) -> int {
    lo.speed + (t - lo.temp) * trunc_div(hi.speed - lo.speed, hi.temp - lo.temp)
}

/// What `interpolate` returns: the speed of the nearest point when `t`
/// falls outside the curve or exactly on its first covering point, and the
/// clamped linear interpolation of the surrounding pair otherwise.
pub open spec fn interpolate_spec(curve: Seq<CurvePoint>, t: u32) -> int {
    if curve.len() == 0 {
        0
    } else {
        let h = first_at_or_above(curve, t);
        if h == curve.len() {
            curve[curve.len() - 1].speed as int
        } else if h == 0 {
            curve[0].speed as int
        } else if curve[h - 1].temp == curve[h].temp {
            curve[h - 1].speed as int
        } else {
            clamp_percent(segment_value(curve[h - 1], curve[h], t))
        }
    }
}

proof fn lemma_faa_bounds(curve: Seq<CurvePoint>, t: u32)
    ensures
        0 <= first_at_or_above(curve, t) <= curve.len(),
        forall|j: int| 0 <= j < first_at_or_above(curve, t) ==> (#[trigger] curve[j].temp) < t,
        first_at_or_above(curve, t) < curve.len() ==> curve[first_at_or_above(curve, t)].temp
            >= t,
    decreases curve.len(),
{
    if curve.len() == 0 {
    } else if curve[0].temp >= t {
    } else {
        lemma_faa_bounds(curve.drop_first(), t);
        let h = first_at_or_above(curve, t);
        assert forall|j: int| 0 <= j < h implies (#[trigger] curve[j].temp) < t by {
            if j > 0 {
                assert(curve.drop_first()[j - 1] == curve[j]);
            }
        }
        if h < curve.len() {
            assert(curve.drop_first()[h - 1] == curve[h]);
        }
    }
}

proof fn lemma_faa_unique(curve: Seq<CurvePoint>, t: u32, k: int)
    requires
        0 <= k <= curve.len(),
        forall|j: int| 0 <= j < k ==> (#[trigger] curve[j].temp) < t,
        k < curve.len() ==> curve[k].temp >= t,
    ensures
        first_at_or_above(curve, t) == k,
{
    lemma_faa_bounds(curve, t);
    let h = first_at_or_above(curve, t);
    if h < k {
        assert(curve[h].temp < t);
    } else if k < h {
        assert(curve[k].temp < t);
    }
}

/// Computes the duty cycle for `temp` from the curve, scanning for the
/// first point at or above `temp` and interpolating from its predecessor.
pub fn interpolate(curve: &[CurvePoint], temp: u32) -> (r: u32)
    ensures
        r == interpolate_spec(curve@, temp),
{
    let n = curve.len();
    if n == 0 {
        return 0;
    }
    let mut min_idx: usize = 0;
    let mut max_idx: usize = n - 1;
    let mut hit: bool = false;
    let mut i: usize = 0;
    while i < n && !hit
        invariant
            0 < n == curve@.len(),
            i <= n,
            !hit ==> forall|j: int| 0 <= j < i ==> (#[trigger] curve@[j].temp) < temp,
            !hit ==> min_idx as int == if i == 0 {
                0int
            } else {
                i - 1
            },
            !hit ==> max_idx == n - 1,
            hit ==> i < n && i == first_at_or_above(curve@, temp),
            hit ==> max_idx == i && min_idx as int == if i == 0 {
                0int
            } else {
                i - 1
            },
        decreases n - i + (if hit {
            0int
        } else {
            1int
        }),
    {
        if temp > curve[i].temp {
            min_idx = i;
            i = i + 1;
        } else {
            max_idx = i;
            proof {
                lemma_faa_unique(curve@, temp, i as int);
            }
            hit = true;
        }
    }
    proof {
        if !hit {
            lemma_faa_unique(curve@, temp, n as int);
        }
    }

    let lo = curve[min_idx];
    let hi = curve[max_idx];

    if lo.temp == hi.temp {
        return lo.speed;
    }
    proof {
        lemma_faa_bounds(curve@, temp);
    }

    let den: u32 = hi.temp - lo.temp;
    let delta: u32 = temp - lo.temp;
    let slope: i128 = if hi.speed >= lo.speed {
        ((hi.speed - lo.speed) / den) as i128
    } else {
        proof {
            lemma_div_pos_is_pos(lo.speed - hi.speed, den as int);
        }
        -(((lo.speed - hi.speed) / den) as i128)
    };
    proof {
        assert(-0xffff_ffff <= slope <= 0xffff_ffff);
        assert((delta as i128) * slope <= 0xffff_ffff * 0xffff_ffff && (delta as i128) * slope
            >= -(0xffff_ffff * 0xffff_ffff)) by (nonlinear_arith)
            requires
                0 <= delta <= 0xffff_ffffu32,
                -0xffff_ffff <= slope <= 0xffff_ffff,
        ;
    }
    let raw: i128 = lo.speed as i128 + (delta as i128) * slope;
    if raw < 0 {
        0
    } else if raw > 100 {
        100
    } else {
        raw as u32
    }
}

/// A curve whose points are strictly ordered by temperature, with speeds
/// that never decrease and stay in the percentage range.
pub open spec fn curve_monotone(curve: Seq<CurvePoint>) -> bool {
    &&& forall|i: int, j: int|
        0 <= i < j < curve.len() ==> (#[trigger] curve[i].temp) < (#[trigger] curve[j].temp)
    &&& forall|i: int, j: int|
        0 <= i < j < curve.len() ==> (#[trigger] curve[i].speed) <= (#[trigger] curve[j].speed)
    &&& forall|i: int| 0 <= i < curve.len() ==> (#[trigger] curve[i].speed) <= 100
}

proof fn lemma_segment_bounds(lo: CurvePoint, hi: CurvePoint, t: u32)
    requires
        lo.temp < t <= hi.temp,
        lo.speed <= hi.speed,
    ensures
        lo.speed <= segment_value(lo, hi, t) <= hi.speed,
{
    let num = hi.speed - lo.speed;
    let den = hi.temp - lo.temp;
    let slope = num / den;
    lemma_div_pos_is_pos(num, den);
    assert(trunc_div(num, den) == slope);
    assert((t - lo.temp) * slope >= 0) by (nonlinear_arith)
        requires
            t - lo.temp >= 0,
            slope >= 0,
    ;
    lemma_mul_inequality(t - lo.temp, den, slope);
    lemma_fundamental_div_mod(num, den);
    lemma_mod_division_less_than_divisor(num, den);
    assert(den * slope <= num);
    assert((t - lo.temp) * slope <= num);
}

proof fn lemma_segment_monotone(lo: CurvePoint, hi: CurvePoint, t1: u32, t2: u32)
    requires
        lo.temp < t1 <= t2 <= hi.temp,
        lo.speed <= hi.speed,
    ensures
        segment_value(lo, hi, t1) <= segment_value(lo, hi, t2),
{
    let num = hi.speed - lo.speed;
    let den = hi.temp - lo.temp;
    let slope = num / den;
    lemma_div_pos_is_pos(num, den);
    assert(trunc_div(num, den) == slope);
    lemma_mul_inequality(t1 - lo.temp, t2 - lo.temp, slope);
}

/// Over a curve whose speeds are percentages, interpolation stays a
/// percentage: flat extrapolation returns a point's own speed, and the
/// interpolated value is clamped.
pub proof fn lemma_interpolate_in_range(curve: Seq<CurvePoint>, t: u32)
    requires
        forall|i: int| 0 <= i < curve.len() ==> (#[trigger] curve[i].speed) <= 100,
    ensures
        0 <= interpolate_spec(curve, t) <= 100,
{
    if curve.len() > 0 {
        lemma_faa_bounds(curve, t);
    }
}

/// Monotonicity of interpolation: over a curve whose speeds never decrease
/// with temperature, a higher temperature never yields a lower duty cycle.
pub proof fn lemma_interpolate_monotonic(curve: Seq<CurvePoint>, t1: u32, t2: u32)
    requires
        curve_monotone(curve),
        t1 <= t2,
    ensures
        interpolate_spec(curve, t1) <= interpolate_spec(curve, t2),
{
    if curve.len() == 0 {
        return ;
    }
    lemma_faa_bounds(curve, t1);
    lemma_faa_bounds(curve, t2);
    let h1 = first_at_or_above(curve, t1);
    let h2 = first_at_or_above(curve, t2);
    if h2 < h1 {
        assert(curve[h2].temp < t1);
    }
    assert(h1 <= h2);

    // The value at t1 never exceeds the speed of the first point at or
    // above t1; the value at t2 is at least the speed of the point the
    // second segment starts from.
    if h1 == h2 {
        if h1 == curve.len() || h1 == 0 || curve[h1 - 1].temp == curve[h1].temp {
        } else {
            lemma_segment_monotone(curve[h1 - 1], curve[h1], t1, t2);
            lemma_segment_bounds(curve[h1 - 1], curve[h1], t1);
            lemma_segment_bounds(curve[h1 - 1], curve[h1], t2);
        }
    } else {
        // h1 < h2 <= len, so h1 names a real point.
        let v1 = interpolate_spec(curve, t1);
        let v2 = interpolate_spec(curve, t2);
        assert(v1 <= curve[h1].speed) by {
            if h1 == 0 {
            } else if curve[h1 - 1].temp == curve[h1].temp {
            } else {
                lemma_segment_bounds(curve[h1 - 1], curve[h1], t1);
            }
        }
        assert(curve[h2 - 1].speed <= v2) by {
            if h2 == curve.len() {
            } else if h2 == 0 {
            } else if curve[h2 - 1].temp == curve[h2].temp {
            } else {
                lemma_segment_bounds(curve[h2 - 1], curve[h2], t2);
            }
        }
        assert(curve[h1].speed <= curve[h2 - 1].speed);
    }
}

} // verus!
