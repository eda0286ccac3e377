//! The axis range calculator.
//!
//! From the values of all series it derives the bounds of the value axis and
//! the distance between two ticks.  The tick step is the least number of the
//! form 1, 2 or 5 times a power of ten that covers the data in at most
//! [`MAX_INTERVALS`] steps; the bounds are the data's extremes moved outward
//! to the next multiple of that step.

use vstd::prelude::*;
use crate::error::ChartError;

verus! {

/// The most tick intervals that the data's own range may span.
pub const MAX_INTERVALS: i64 = 10;

/// No bound of an axis lies further from zero than this: the extremes of the
/// data are 32-bit numbers, and the bounds lie less than a step beyond them.
pub const MAX_BOUND: i64 = 0x4_0000_0000;

/// How the value axis lies about zero.
#[derive(Clone, Copy, Debug, PartialEq, Eq, Structural)]
pub enum AxisKind {
    /// All of the axis lies on one side of zero.
    Single,
    /// The axis runs from below zero to above zero.
    DoubleVertical,
}

/// `DoubleVertical` exactly when the bounds lie strictly about zero.
pub open spec fn axis_kind_of(min: int, max: int) -> AxisKind {
    if min < 0 && 0 < max {
        AxisKind::DoubleVertical
    } else {
        AxisKind::Single
    }
}

/// The kind of an axis with the given bounds.
pub fn axis_kind(min: i64, max: i64) -> (kind: AxisKind)
    ensures
        kind == axis_kind_of(min as int, max as int),
        kind == AxisKind::DoubleVertical <==> min < 0 && 0 < max,
        kind == AxisKind::Single <==> !(min < 0 && 0 < max),
{
    if min < 0 && max > 0 {
        AxisKind::DoubleVertical
    } else {
        AxisKind::Single
    }
}

/// `grid[j][i]` is a value of the data.
pub open spec fn in_grid(grid: Seq<Seq<i32>>, j: int, i: int) -> bool {
    0 <= j < grid.len() && 0 <= i < grid[j].len()
}

/// The data holds at least one value.
pub open spec fn has_values(grid: Seq<Seq<i32>>) -> bool {
    exists|j: int, i: int| in_grid(grid, j, i)
}

/// `m` is a value of the data, and no value is smaller.
pub open spec fn is_data_min(grid: Seq<Seq<i32>>, m: int) -> bool {
    &&& exists|j: int, i: int| in_grid(grid, j, i) && grid[j][i] == m
    &&& forall|j: int, i: int| in_grid(grid, j, i) ==> m <= grid[j][i]
}

/// `m` is a value of the data, and no value is larger.
pub open spec fn is_data_max(grid: Seq<Seq<i32>>, m: int) -> bool {
    &&& exists|j: int, i: int| in_grid(grid, j, i) && grid[j][i] == m
    &&& forall|j: int, i: int| in_grid(grid, j, i) ==> grid[j][i] <= m
}

/// The smallest value of the data.
pub open spec fn data_min(grid: Seq<Seq<i32>>) -> int {
    choose|m: int| is_data_min(grid, m)
}

/// The largest value of the data.
pub open spec fn data_max(grid: Seq<Seq<i32>>) -> int {
    choose|m: int| is_data_max(grid, m)
}

/// The data has one smallest value only.
pub proof fn lemma_data_min_unique(grid: Seq<Seq<i32>>, m: int)
    requires
        is_data_min(grid, m),
    ensures
        data_min(grid) == m,
{
    let c = data_min(grid);
    assert(is_data_min(grid, c));
    let (j, i) = choose|j: int, i: int| in_grid(grid, j, i) && grid[j][i] == m;
    let (k, l) = choose|k: int, l: int| in_grid(grid, k, l) && grid[k][l] == c;
    assert(in_grid(grid, j, i));
    assert(in_grid(grid, k, l));
}

/// The data has one largest value only.
pub proof fn lemma_data_max_unique(grid: Seq<Seq<i32>>, m: int)
    requires
        is_data_max(grid, m),
    ensures
        data_max(grid) == m,
{
    let c = data_max(grid);
    assert(is_data_max(grid, c));
    let (j, i) = choose|j: int, i: int| in_grid(grid, j, i) && grid[j][i] == m;
    let (k, l) = choose|k: int, l: int| in_grid(grid, k, l) && grid[k][l] == c;
    assert(in_grid(grid, j, i));
    assert(in_grid(grid, k, l));
}

/// The smallest and the largest value of the data, or `None` when the data
/// holds no value.
pub fn data_extremes(series: &Vec<Vec<i32>>) -> (r: Option<(i32, i32)>)
    ensures
        r.is_some() <==> has_values(series.deep_view()),
        r matches Some(e) ==> {
            &&& is_data_min(series.deep_view(), e.0 as int)
            &&& is_data_max(series.deep_view(), e.1 as int)
            &&& e.0 == data_min(series.deep_view())
            &&& e.1 == data_max(series.deep_view())
        },
{
    let ghost grid = series.deep_view();
    let mut found: Option<(i32, i32)> = None;
    let mut j: usize = 0;
    while j < series.len()
        invariant
            j <= series.len(),
            grid == series.deep_view(),
            found.is_none() ==> forall|k: int, l: int| in_grid(grid, k, l) ==> k >= j,
            found matches Some(e) ==> {
                &&& exists|k: int, l: int| in_grid(grid, k, l) && k < j && grid[k][l] == e.0
                &&& exists|k: int, l: int| in_grid(grid, k, l) && k < j && grid[k][l] == e.1
                &&& forall|k: int, l: int| in_grid(grid, k, l) && k < j ==> e.0 <= grid[k][l] <= e.1
            },
        decreases series.len() - j,
    {
        let row = &series[j];
        assert(grid[j as int] == row@);
        let mut i: usize = 0;
        while i < row.len()
            invariant
                i <= row.len(),
                j < series.len(),
                grid == series.deep_view(),
                grid[j as int] == row@,
                found.is_none() ==> forall|k: int, l: int|
                    in_grid(grid, k, l) ==> k > j || (k == j && l >= i),
                found matches Some(e) ==> {
                    &&& exists|k: int, l: int|
                        in_grid(grid, k, l) && (k < j || (k == j && l < i)) && grid[k][l] == e.0
                    &&& exists|k: int, l: int|
                        in_grid(grid, k, l) && (k < j || (k == j && l < i)) && grid[k][l] == e.1
                    &&& forall|k: int, l: int|
                        in_grid(grid, k, l) && (k < j || (k == j && l < i)) ==> e.0 <= grid[k][l]
                            <= e.1
                },
            decreases row.len() - i,
        {
            let x = row[i];
            assert(in_grid(grid, j as int, i as int) && grid[j as int][i as int] == x);
            found = match found {
                None => Some((x, x)),
                Some(e) => {
                    let (low, high) = e;
                    let ghost (k0, l0) = choose|k: int, l: int|
                        in_grid(grid, k, l) && (k < j || (k == j && l < i)) && grid[k][l] == low;
                    let ghost (k1, l1) = choose|k: int, l: int|
                        in_grid(grid, k, l) && (k < j || (k == j && l < i)) && grid[k][l] == high;
                    assert(in_grid(grid, k0, l0) && (k0 < j || (k0 == j && l0 < i + 1))
                        && grid[k0][l0] == low);
                    assert(in_grid(grid, k1, l1) && (k1 < j || (k1 == j && l1 < i + 1))
                        && grid[k1][l1] == high);
                    Some((if x < low { x } else { low }, if x > high { x } else { high }))
                },
            };
            i += 1;
        }
        j += 1;
    }
    proof {
        match found {
            None => {
                assert(!has_values(grid)) by {
                    if has_values(grid) {
                        let (k, l) = choose|k: int, l: int| in_grid(grid, k, l);
                        assert(in_grid(grid, k, l));
                    }
                }
            },
            Some(e) => {
                let (k0, l0) = choose|k: int, l: int|
                    in_grid(grid, k, l) && k < j && grid[k][l] == e.0;
                assert(in_grid(grid, k0, l0) && grid[k0][l0] == e.0);
                let (k1, l1) = choose|k: int, l: int|
                    in_grid(grid, k, l) && k < j && grid[k][l] == e.1;
                assert(in_grid(grid, k1, l1) && grid[k1][l1] == e.1);
                assert(is_data_min(grid, e.0 as int));
                assert(is_data_max(grid, e.1 as int));
                lemma_data_min_unique(grid, e.0 as int);
                lemma_data_max_unique(grid, e.1 as int);
            },
        }
    }
    found
}

/// `b` is a power of ten.
pub open spec fn is_power_of_ten(b: int) -> bool
    decreases b,
{
    if b <= 0 {
        false
    } else if b == 1 {
        true
    } else {
        b % 10 == 0 && is_power_of_ten(b / 10)
    }
}

/// `s` is 1, 2 or 5 times a power of ten.
pub open spec fn is_nice(s: int) -> bool
    decreases s,
{
    if s <= 0 {
        false
    } else if s == 1 || s == 2 || s == 5 {
        true
    } else {
        s % 10 == 0 && is_nice(s / 10)
    }
}

/// `step` is the least nice number of which [`MAX_INTERVALS`] cover `span`.
pub open spec fn is_nice_step(step: int, span: int) -> bool {
    &&& is_nice(step)
    &&& span <= MAX_INTERVALS * step
    &&& forall|s: int| is_nice(s) && span <= MAX_INTERVALS * s ==> step <= s
}

/// The tick step for data that spans `span`.
pub open spec fn nice_step_for(span: int) -> int {
    choose|step: int| is_nice_step(step, span)
}

/// A span has one nice step only.
pub proof fn lemma_nice_step_unique(step: int, span: int)
    requires
        is_nice_step(step, span),
    ensures
        nice_step_for(span) == step,
{
    let c = nice_step_for(span);
    assert(is_nice_step(c, span));
}

/// A wider span never has a smaller step.
pub proof fn lemma_nice_step_monotonic(narrow: int, wide: int, a: int, b: int)
    requires
        narrow <= wide,
        is_nice_step(a, narrow),
        is_nice_step(b, wide),
    ensures
        a <= b,
{
}

proof fn lemma_multiples_are_nice(base: int)
    requires
        is_power_of_ten(base),
    ensures
        is_nice(base),
        is_nice(2 * base),
        is_nice(5 * base),
        is_power_of_ten(10 * base),
    decreases base,
{
    if base != 1 {
        lemma_multiples_are_nice(base / 10);
        assert((2 * base) / 10 == 2 * (base / 10));
        assert((5 * base) / 10 == 5 * (base / 10));
    }
    assert((10 * base) / 10 == base);
}

proof fn lemma_nice_gaps(base: int, s: int)
    requires
        is_power_of_ten(base),
        is_nice(s),
    ensures
        s <= base || s == 2 * base || s == 5 * base || s >= 10 * base,
    decreases base,
{
    if base != 1 && !(s == 1 || s == 2 || s == 5) {
        lemma_nice_gaps(base / 10, s / 10);
    }
}

/// The tick step for data that spans `span`: the least number of the form
/// 1, 2 or 5 times a power of ten of which ten cover the span.
pub fn nice_step(span: i64) -> (step: i64)
    requires
        0 < span <= i64::MAX / MAX_INTERVALS,
    ensures
        is_nice_step(step as int, span as int),
        step == nice_step_for(span as int),
        0 < step <= span,
{
    let mut base: i64 = 1;
    let mut mantissa: i64 = 1;
    proof {
        lemma_multiples_are_nice(1);
    }
    while MAX_INTERVALS * (mantissa * base) < span
        invariant
            0 < span <= i64::MAX / MAX_INTERVALS,
            is_power_of_ten(base as int),
            mantissa == 1 || mantissa == 2 || mantissa == 5,
            0 < base,
            mantissa * base <= span,
            forall|s: int| is_nice(s) && s < mantissa * base ==> MAX_INTERVALS * s < span,
        decreases span - mantissa * base,
    {
        let ghost before = mantissa * base;
        proof {
            lemma_multiples_are_nice(base as int);
            assert forall|s: int| is_nice(s) && s <= before implies MAX_INTERVALS * s
                < span by {}
        }
        if mantissa == 1 {
            proof {
                assert forall|s: int| is_nice(s) && s < 2 * base implies s <= before by {
                    lemma_nice_gaps(base as int, s);
                }
            }
            mantissa = 2;
        } else if mantissa == 2 {
            proof {
                assert forall|s: int| is_nice(s) && s < 5 * base implies s <= before by {
                    lemma_nice_gaps(base as int, s);
                }
            }
            mantissa = 5;
        } else {
            proof {
                assert forall|s: int| is_nice(s) && s < 10 * base implies s <= before by {
                    lemma_nice_gaps(base as int, s);
                }
            }
            mantissa = 1;
            base = 10 * base;
        }
    }
    let step = mantissa * base;
    proof {
        lemma_multiples_are_nice(base as int);
        assert(is_nice(step as int));
        assert(is_nice_step(step as int, span as int));
        lemma_nice_step_unique(step as int, span as int);
    }
    step
}

/// The extremes after zero is taken in, if asked for, and after a range of
/// no extent is widened by one unit on either side.
pub open spec fn widened(low: int, high: int, force_include_zero: bool) -> (int, int) {
    let lo = if force_include_zero && low > 0 {
        0
    } else {
        low
    };
    let hi = if force_include_zero && high < 0 {
        0
    } else {
        high
    };
    if lo == hi {
        (lo - 1, hi + 1)
    } else {
        (lo, hi)
    }
}

/// The largest multiple of `step` that is at most `x`.
pub open spec fn floor_to(x: int, step: int) -> int {
    (x / step) * step
}

/// The smallest multiple of `step` that is at least `x`.
pub open spec fn ceil_to(x: int, step: int) -> int {
    -floor_to(-x, step)
}

/// The bounds and the tick step of an axis for data between `low` and `high`.
pub open spec fn axis_for(low: int, high: int, force_include_zero: bool) -> ((int, int), int) {
    let range = widened(low, high, force_include_zero);
    let step = nice_step_for(range.1 - range.0);
    ((floor_to(range.0, step), ceil_to(range.1, step)), step)
}

/// `floor_to` and `ceil_to` give the nearest multiples of the step below and
/// above.
pub proof fn lemma_rounding(x: int, step: int)
    requires
        step > 0,
    ensures
        floor_to(x, step) <= x < floor_to(x, step) + step,
        ceil_to(x, step) - step < x <= ceil_to(x, step),
        floor_to(x, step) % step == 0,
        ceil_to(x, step) % step == 0,
        x % step == 0 ==> floor_to(x, step) == x && ceil_to(x, step) == x,
{
    vstd::arithmetic::div_mod::lemma_fundamental_div_mod(x, step);
    vstd::arithmetic::div_mod::lemma_fundamental_div_mod(-x, step);
    vstd::arithmetic::div_mod::lemma_mod_bound(x, step);
    vstd::arithmetic::div_mod::lemma_mod_bound(-x, step);
    vstd::arithmetic::div_mod::lemma_mod_multiples_basic(x / step, step);
    vstd::arithmetic::div_mod::lemma_mod_multiples_basic(-((-x) / step), step);
    assert(step * (x / step) == (x / step) * step) by (nonlinear_arith);
    assert(step * ((-x) / step) == ((-x) / step) * step) by (nonlinear_arith);
    assert(-(((-x) / step) * step) == (-((-x) / step)) * step) by (nonlinear_arith);
    if x % step == 0 {
        assert((-x) % step == 0) by {
            vstd::arithmetic::div_mod::lemma_mod_multiples_basic(-(x / step), step);
            assert(-x == (-(x / step)) * step) by (nonlinear_arith)
                requires
                    x == step * (x / step) + 0,
            ;
        }
    }
}

/// The largest multiple of `step` that is at most `x`.
pub fn round_down(x: i64, step: i64) -> (r: i64)
    requires
        0 < step <= i64::MAX / 2,
        -(i64::MAX / 2) <= x <= i64::MAX / 2,
    ensures
        r == floor_to(x as int, step as int),
        r <= x < r + step,
{
    proof {
        lemma_rounding(x as int, step as int);
    }
    if x >= 0 {
        let q = x / step;
        assert(q * step <= x) by {
            vstd::arithmetic::div_mod::lemma_fundamental_div_mod(x as int, step as int);
            vstd::arithmetic::div_mod::lemma_mod_bound(x as int, step as int);
            assert(step * q == q * step) by (nonlinear_arith);
        }
        q * step
    } else {
        let a = -x;
        let q = (a + (step - 1)) / step;
        proof {
            lemma_floor_of_negative(a as int, step as int);
            assert(0 <= q * step <= a + step) by {
                vstd::arithmetic::div_mod::lemma_fundamental_div_mod(a + (step - 1), step as int);
                vstd::arithmetic::div_mod::lemma_mod_bound(a + (step - 1), step as int);
                assert(step * q == q * step) by (nonlinear_arith);
            }
            assert((-q) * step == -(q * step)) by (nonlinear_arith);
            assert((x as int) / (step as int) == -q);
        }
        -(q * step)
    }
}

proof fn lemma_floor_of_negative(a: int, step: int)
    requires
        a > 0,
        step > 0,
    ensures
        (-a) / step == -((a + (step - 1)) / step),
{
    let q = (a + (step - 1)) / step;
    let r = (a + (step - 1)) % step;
    vstd::arithmetic::div_mod::lemma_fundamental_div_mod(a + (step - 1), step);
    vstd::arithmetic::div_mod::lemma_mod_bound(a + (step - 1), step);
    assert(step * q == q * step) by (nonlinear_arith);
    // -a == (-q) * step + (step - 1 - r), with 0 <= step - 1 - r < step
    assert(-a == step * (-q) + (step - 1 - r)) by (nonlinear_arith)
        requires
            a + (step - 1) == step * q + r,
    ;
    vstd::arithmetic::div_mod::lemma_fundamental_div_mod_converse(-a, step, -q, step - 1 - r);
}

/// The smallest multiple of `step` that is at least `x`.
pub fn round_up(x: i64, step: i64) -> (r: i64)
    requires
        0 < step <= i64::MAX / 2,
        -(i64::MAX / 2) <= x <= i64::MAX / 2,
    ensures
        r == ceil_to(x as int, step as int),
        r - step < x <= r,
{
    -round_down(-x, step)
}

/// The bounds and the tick step of an axis for data between `low` and `high`.
/// With `force_include_zero` the bounds take in zero; equal extremes are
/// moved apart by one unit on either side before the step is chosen.
pub fn axis_from_extremes(low: i32, high: i32, force_include_zero: bool) -> (r: ((i64, i64), i64))
    requires
        low <= high,
    ensures
        ((r.0.0 as int, r.0.1 as int), r.1 as int) == axis_for(
            low as int,
            high as int,
            force_include_zero,
        ),
        r.0.0 <= low,
        high <= r.0.1,
        force_include_zero ==> r.0.0 <= 0 <= r.0.1,
        r.0.0 < r.0.1,
        r.1 > 0,
        r.0.0 % r.1 == 0,
        r.0.1 % r.1 == 0,
        -MAX_BOUND <= r.0.0,
        r.0.1 <= MAX_BOUND,
{
    let mut lo: i64 = low as i64;
    let mut hi: i64 = high as i64;
    if force_include_zero {
        if lo > 0 {
            lo = 0;
        }
        if hi < 0 {
            hi = 0;
        }
    }
    if lo == hi {
        lo = lo - 1;
        hi = hi + 1;
    }
    let step = nice_step(hi - lo);
    proof {
        lemma_rounding(lo as int, step as int);
        lemma_rounding(hi as int, step as int);
    }
    ((round_down(lo, step), round_up(hi, step)), step)
}

/// The bounds and the tick step of the value axis for the given series, or
/// `EmptyDataset` when the series hold no value at all.
pub fn compute_axis(series: &Vec<Vec<i32>>, force_include_zero: bool) -> (r: Result<
    ((i64, i64), i64),
    ChartError,
>)
    ensures
        r.is_ok() <==> has_values(series.deep_view()),
        r is Err ==> r == Err::<((i64, i64), i64), ChartError>(ChartError::EmptyDataset),
        r matches Ok(a) ==> {
            &&& ((a.0.0 as int, a.0.1 as int), a.1 as int) == axis_for(
                data_min(series.deep_view()),
                data_max(series.deep_view()),
                force_include_zero,
            )
            &&& forall|j: int, i: int| #[trigger]
                in_grid(series.deep_view(), j, i) ==> a.0.0 <= series.deep_view()[j][i] <= a.0.1
            &&& a.0.0 <= data_min(series.deep_view()) <= data_max(series.deep_view()) <= a.0.1
            &&& force_include_zero ==> a.0.0 <= 0 <= a.0.1
            &&& a.0.0 < a.0.1
            &&& a.1 > 0
        },
{
    match data_extremes(series) {
        None => Err(ChartError::EmptyDataset),
        Some(e) => {
            proof {
                let grid = series.deep_view();
                let (j, i) = choose|j: int, i: int| in_grid(grid, j, i) && grid[j][i] == e.0;
                assert(in_grid(grid, j, i));
            }
            Ok(axis_from_extremes(e.0, e.1, force_include_zero))
        },
    }
}

} // verus!
