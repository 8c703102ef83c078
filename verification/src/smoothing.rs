//! Temperature smoothing: a moving average over the positive entries of a
//! bounded sample history, blended 2:1 with the instantaneous reading.
//!
//! Temperatures are carried in hundredths of a degree Celsius, so the
//! "round to two decimals" of the effective temperature is rounding to the
//! nearest unit here. Non-positive samples are the sensor's invalid
//! sentinel: they are stored in the history but excluded from averaging.

use vstd::arithmetic::div_mod::{
    lemma_div_is_ordered, lemma_fundamental_div_mod_converse, lemma_mod_division_less_than_divisor,
};
use vstd::prelude::*;

verus! {

/// The samples kept for averaging: the positive ones, in order.
pub open spec fn positives(s: Seq<i64>) -> Seq<i64>
    decreases s.len(),
{
    if s.len() == 0 {
        Seq::empty()
    } else if s.last() > 0 {
        positives(s.drop_last()).push(s.last())
    } else {
        positives(s.drop_last())
    }
}

/// Sum of a sample sequence.
pub open spec fn sample_sum(s: Seq<i64>) -> int
    decreases s.len(),
{
    if s.len() == 0 {
        0
    } else {
        sample_sum(s.drop_last()) + s.last()
    }
}

/// `total / count` rounded half-up, for a positive `count`.
pub open spec fn avg_rounded(total: int, count: int) -> int {
    (2 * total + count) / (2 * count)
}

/// The window the average runs over: the last `interval` positive samples,
/// or all of them when `interval` is zero or exceeds their number.
pub open spec fn average_window(pos: Seq<i64>, interval: u32) -> Seq<i64> {
    if interval == 0 || interval >= pos.len() {
        pos
    } else {
        pos.skip(pos.len() - interval as int)
    }
}

/// The moving average of the positive entries of `history`, or `fallback`
/// when no entry is positive.
pub open spec fn moving_average_spec(history: Seq<i64>, interval: u32, fallback: i64) -> int {
    let pos = positives(history);
    if pos.len() == 0 {
        fallback as int
    } else {
        let w = average_window(pos, interval);
        avg_rounded(sample_sum(w), w.len() as int)
    }
}

/// The effective temperature: the moving average (falling back to the
/// sample itself) blended 2:1 with the instantaneous sample, rounded
/// half-up. `(2 * (2 * a + s) + 3) / 6` is `(2a + s) / 3` rounded to the
/// nearest unit.
pub open spec fn effective_spec(history: Seq<i64>, sample: i64, interval: u32) -> int {
    let a = moving_average_spec(history, interval, sample);
    (2 * (2 * a + sample) + 3) / 6
}

proof fn lemma_positives_range(s: Seq<i64>)
    ensures
        positives(s).len() <= s.len(),
        forall|i: int| 0 <= i < positives(s).len() ==> 0 < #[trigger] positives(s)[i],
    decreases s.len(),
{
    if s.len() > 0 {
        lemma_positives_range(s.drop_last());
    }
}

proof fn lemma_sample_sum_bounds(s: Seq<i64>, lo: int, hi: int)
    requires
        forall|i: int| 0 <= i < s.len() ==> lo <= #[trigger] s[i] <= hi,
    ensures
        s.len() * lo <= sample_sum(s) <= s.len() * hi,
    decreases s.len(),
{
    if s.len() == 0 {
    } else {
        lemma_sample_sum_bounds(s.drop_last(), lo, hi);
        assert((s.len() - 1) * lo + lo == s.len() * lo) by (nonlinear_arith);
        assert((s.len() - 1) * hi + hi == s.len() * hi) by (nonlinear_arith);
    }
}

proof fn lemma_avg_rounded_bounds(total: int, count: int, lo: int, hi: int)
    requires
        count >= 1,
        count * lo <= total <= count * hi,
    ensures
        lo <= avg_rounded(total, count) <= hi,
{
    assert(lo * (2 * count) == 2 * (count * lo) && hi * (2 * count) == 2 * (count * hi))
        by (nonlinear_arith);
    lemma_fundamental_div_mod_converse(lo * (2 * count) + count, 2 * count, lo, count);
    lemma_fundamental_div_mod_converse(hi * (2 * count) + count, 2 * count, hi, count);
    lemma_div_is_ordered(lo * (2 * count) + count, 2 * total + count, 2 * count);
    lemma_div_is_ordered(2 * total + count, hi * (2 * count) + count, 2 * count);
}

/// A window of samples each equal to `v` averages to exactly `v`: the sum
/// is `count * v`, and rounding half-up of an exact value changes nothing.
proof fn lemma_avg_rounded_exact(count: int, v: int)
    requires
        count >= 1,
    ensures
        avg_rounded(count * v, count) == v,
{
    assert(v * (2 * count) == 2 * (count * v)) by (nonlinear_arith);
    lemma_fundamental_div_mod_converse(v * (2 * count) + count, 2 * count, v, count);
}

proof fn lemma_positives_const(s: Seq<i64>, v: i64)
    requires
        v > 0,
        forall|i: int| 0 <= i < s.len() ==> #[trigger] s[i] == v,
    ensures
        positives(s) =~= s,
    decreases s.len(),
{
    if s.len() > 0 {
        lemma_positives_const(s.drop_last(), v);
    }
}

proof fn lemma_sample_sum_const(s: Seq<i64>, v: i64)
    requires
        forall|i: int| 0 <= i < s.len() ==> #[trigger] s[i] == v,
    ensures
        sample_sum(s) == s.len() * v,
    decreases s.len(),
{
    if s.len() == 0 {
    } else {
        lemma_sample_sum_const(s.drop_last(), v);
        assert((s.len() - 1) * v + v == s.len() * v) by (nonlinear_arith);
    }
}

proof fn lemma_positives_none(s: Seq<i64>)
    requires
        forall|i: int| 0 <= i < s.len() ==> #[trigger] s[i] <= 0,
    ensures
        positives(s).len() == 0,
    decreases s.len(),
{
    if s.len() > 0 {
        lemma_positives_none(s.drop_last());
    }
}

/// The moving average of a history holding only the positive constant `v`
/// is `v`, whatever the interval.
pub proof fn lemma_moving_average_constant(history: Seq<i64>, interval: u32, fallback: i64, v: i64)
    requires
        v > 0,
        history.len() > 0,
        forall|i: int| 0 <= i < history.len() ==> #[trigger] history[i] == v,
    ensures
        moving_average_spec(history, interval, fallback) == v,
{
    lemma_positives_const(history, v);
    let w = average_window(history, interval);
    assert(forall|i: int| 0 <= i < w.len() ==> #[trigger] w[i] == v);
    lemma_sample_sum_const(w, v);
    lemma_avg_rounded_exact(w.len() as int, v as int);
}

/// A history with no positive sample leaves the average to the fallback
/// reading.
pub proof fn lemma_moving_average_fallback(history: Seq<i64>, interval: u32, fallback: i64)
    requires
        forall|i: int| 0 <= i < history.len() ==> #[trigger] history[i] <= 0,
    ensures
        moving_average_spec(history, interval, fallback) == fallback,
{
    lemma_positives_none(history);
}

/// The effective temperature always lies between the moving average and
/// the instantaneous sample.
pub proof fn lemma_effective_between(history: Seq<i64>, sample: i64, interval: u32)
    ensures
        ({
            let a = moving_average_spec(history, interval, sample);
            let e = effective_spec(history, sample, interval);
            &&& (if a <= sample {
                a
            } else {
                sample as int
            }) <= e
            &&& e <= (if a <= sample {
                sample as int
            } else {
                a
            })
        }),
{
    let a = moving_average_spec(history, interval, sample);
    let e = effective_spec(history, sample, interval);
    lemma_fundamental_div_mod_converse(6 * a, 6, a, 0);
    lemma_fundamental_div_mod_converse(6 * sample, 6, sample as int, 0);
    lemma_fundamental_div_mod_converse(6 * a + 3, 6, a, 3);
    lemma_fundamental_div_mod_converse(6 * sample + 3, 6, sample as int, 3);
    if a <= sample {
        lemma_div_is_ordered(6 * a, 2 * (2 * a + sample) + 3, 6);
        lemma_div_is_ordered(2 * (2 * a + sample) + 3, 6 * sample + 3, 6);
    } else {
        lemma_div_is_ordered(6 * sample, 2 * (2 * a + sample) + 3, 6);
        lemma_div_is_ordered(2 * (2 * a + sample) + 3, 6 * a + 3, 6);
    }
}

/// Floor division by six on a signed value, matching the mathematical
/// (Euclidean) quotient the specifications use.
fn div6_floor(n: i128) -> (q: i128)
    requires
        i128::MIN + 8 < n,
    ensures
        q == n as int / 6,
{
    if n >= 0 {
        let q = (n as u128) / 6u128;
        proof {
            assert(q == n as int / 6);
        }
        q as i128
    } else {
        let m = (-n) as u128;
        let q = (m + 5) / 6;
        proof {
            let r = (m + 5) as int % 6;
            lemma_mod_division_less_than_divisor((m + 5) as int, 6);
            lemma_fundamental_div_mod_converse(n as int, 6, -(q as int), 5 - r);
        }
        -(q as i128)
    }
}

/// The moving average of the positive samples in `history`: the mean of
/// the last `interval` of them (all of them when `interval` is zero or
/// larger), rounded half-up, or `fallback` when none is positive.
pub fn moving_average(history: &Vec<i64>, interval: u32, fallback: i64) -> (r: i64)
    requires
        history@.len() <= 100,
    ensures
        r == moving_average_spec(history@, interval, fallback),
{
    let n = history.len();
    let mut pos: Vec<i64> = Vec::new();
    let mut i: usize = 0;
    proof {
        assert(history@.take(0) =~= Seq::<i64>::empty());
    }
    while i < n
        invariant
            i <= n,
            n == history@.len() <= 100,
            pos@ =~= positives(history@.take(i as int)),
        decreases n - i,
    {
        proof {
            assert(history@.take(i + 1).drop_last() =~= history@.take(i as int));
            assert(history@.take(i + 1).last() == history@[i as int]);
        }
        if history[i] > 0 {
            pos.push(history[i]);
        }
        i = i + 1;
    }
    proof {
        assert(history@.take(n as int) =~= history@);
    }

    let count_all = pos.len();
    if count_all == 0 {
        return fallback;
    }

    let start: usize = if interval == 0 || interval as usize >= count_all {
        0
    } else {
        count_all - interval as usize
    };
    let ghost w = average_window(positives(history@), interval);
    proof {
        assert(pos@.skip(0) =~= pos@);
        assert(w =~= pos@.skip(start as int));
        lemma_positives_range(history@);
    }

    let mut total: i128 = 0;
    let mut j: usize = start;
    proof {
        assert(pos@.subrange(start as int, start as int) =~= Seq::<i64>::empty());
    }
    while j < count_all
        invariant
            start <= j <= count_all,
            count_all == pos@.len() <= 100,
            forall|k: int| 0 <= k < pos@.len() ==> 0 < #[trigger] pos@[k],
            total == sample_sum(pos@.subrange(start as int, j as int)),
            0 <= total <= (j - start) * i64::MAX,
        decreases count_all - j,
    {
        proof {
            let sub = pos@.subrange(start as int, j + 1);
            assert(sub.drop_last() =~= pos@.subrange(start as int, j as int));
            assert(sub.last() == pos@[j as int]);
            assert((j - start) * i64::MAX + i64::MAX == (j + 1 - start) * i64::MAX)
                by (nonlinear_arith);
        }
        total = total + pos[j] as i128;
        j = j + 1;
    }
    proof {
        assert(pos@.subrange(start as int, count_all as int) =~= pos@.skip(start as int));
    }

    let count = count_all - start;
    let num: u128 = (2 * total + count as i128) as u128;
    let den: u128 = 2 * count as u128;
    let q = num / den;
    proof {
        assert(q == avg_rounded(sample_sum(w), w.len() as int));
        lemma_sample_sum_bounds(w, 1, i64::MAX as int);
        lemma_avg_rounded_bounds(sample_sum(w), w.len() as int, 1, i64::MAX as int);
    }
    q as i64
}

/// The effective temperature driving curve lookup: the moving average of
/// the history (the sample itself standing in when the history holds no
/// positive entry) blended 2:1 with the instantaneous sample, rounded to
/// the nearest hundredth of a degree.
pub fn effective_temperature(history: &Vec<i64>, sample: i64, interval: u32) -> (r: i64)
    requires
        history@.len() <= 100,
    ensures
        r == effective_spec(history@, sample, interval),
        ({
            let a = moving_average_spec(history@, interval, sample);
            &&& (if a <= sample {
                a
            } else {
                sample as int
            }) <= r
            &&& r <= (if a <= sample {
                sample as int
            } else {
                a
            })
        }),
{
    let a = moving_average(history, interval, sample);
    let x: i128 = 2 * (a as i128) + (sample as i128);
    let e = div6_floor(2 * x + 3);
    proof {
        lemma_effective_between(history@, sample, interval);
    }
    e as i64
}

} // verus!
