//! The coordinate mapper.
//!
//! Pure functions from data to positions: the share of an axis at which a
//! value lies, and the place on the surface of a category and of a value.

use vstd::prelude::*;
use crate::ratio::{Frac, Ratio};
use crate::scale::{planned, ScaleTuple, ScaleView};

verus! {

/// The most categories, and the most series, that a chart can hold.
pub const MAX_COUNT: usize = 0xFFFF_FFFF;

/// The fraction of the way from `min` to `max` at which `value` lies.  It is
/// not clamped: a value outside the bounds gives a fraction outside `[0, 1]`.
pub open spec fn normalized(value: int, min: int, max: int) -> Frac {
    if min < max {
        Frac { num: value - min, den: max - min }
    } else {
        Frac { num: min - value, den: min - max }
    }
}

/// The value that lies the fraction `share` of the way from `min` to `max`:
/// the inverse of [`normalized`].
pub open spec fn denormalized(share: Frac, min: int, max: int) -> Frac {
    Frac::of(min).plus(share.times(Frac::of(max - min)))
}

/// The fraction of the way from `min` to `max` at which `value` lies.
pub fn normalize(value: i64, min: i64, max: i64) -> (r: Ratio)
    requires
        min != max,
    ensures
        r@ == normalized(value as int, min as int, max as int),
        r@.wf(),
{
    if min < max {
        Ratio::from_parts(value as i128 - min as i128, max as i128 - min as i128)
    } else {
        Ratio::from_parts(min as i128 - value as i128, min as i128 - max as i128)
    }
}

/// The fraction of the way from `min` to `max` at which zero lies: the
/// baseline of bars, and the place of the category axis.
pub fn zero_intercept(min: i64, max: i64) -> (r: Ratio)
    requires
        min != max,
    ensures
        r@ == normalized(0, min as int, max as int),
        r@.wf(),
{
    normalize(0, min, max)
}

/// A larger value never lies at a smaller fraction of the axis.
pub proof fn lemma_normalized_monotonic(low: int, high: int, min: int, max: int)
    requires
        min < max,
        low <= high,
    ensures
        normalized(low, min, max).le(normalized(high, min, max)),
        low < high ==> normalized(low, min, max).lt(normalized(high, min, max)),
{
    let d = max - min;
    assert((low - min) * d <= (high - min) * d) by (nonlinear_arith)
        requires
            d > 0,
            low <= high,
    ;
    if low < high {
        assert((low - min) * d < (high - min) * d) by (nonlinear_arith)
            requires
                d > 0,
                low < high,
        ;
    }
}

/// Values at or above zero lie at or above the zero intercept, values at or
/// below zero at or below it.
pub proof fn lemma_zero_intercept_divides(value: int, min: int, max: int)
    requires
        min < max,
    ensures
        value >= 0 ==> normalized(0, min, max).le(normalized(value, min, max)),
        value <= 0 ==> normalized(value, min, max).le(normalized(0, min, max)),
{
    if value >= 0 {
        lemma_normalized_monotonic(0, value, min, max);
    }
    if value <= 0 {
        lemma_normalized_monotonic(value, 0, min, max);
    }
}

/// The zero intercept moves with the bounds: it falls as either bound rises.
pub proof fn lemma_zero_intercept_monotonic(min: int, max: int, other_min: int, other_max: int)
    requires
        min <= 0 <= max,
        min < max,
        other_min <= 0 <= other_max,
        other_min < other_max,
    ensures
        min <= other_min && max == other_max ==> normalized(0, other_min, other_max).le(
            normalized(0, min, max),
        ),
        min == other_min && max <= other_max ==> normalized(0, other_min, other_max).le(
            normalized(0, min, max),
        ),
{
    if min <= other_min && max == other_max {
        assert((0 - other_min) * (max - min) <= (0 - min) * (max - other_min)) by (nonlinear_arith)
            requires
                min <= other_min <= 0 <= max,
        ;
    }
    if min == other_min && max <= other_max {
        assert((0 - min) * (max - min) <= (0 - min) * (other_max - min)) by (nonlinear_arith)
            requires
                min <= 0 <= max <= other_max,
        ;
    }
}

/// The zero intercept is zero when the axis starts at zero and one when it
/// ends there.
pub proof fn lemma_zero_intercept_at_ends(min: int, max: int)
    requires
        min < max,
    ensures
        min == 0 ==> normalized(0, min, max).same(Frac::of(0)),
        max == 0 ==> normalized(0, min, max).same(Frac::of(1)),
{
    let share = normalized(0, min, max);
    if min == 0 {
        assert(share.num * 1 == 0 * share.den) by (nonlinear_arith)
            requires
                share.num == 0,
        ;
    }
    if max == 0 {
        assert(share.num * 1 == 1 * share.den) by (nonlinear_arith)
            requires
                share.num == share.den,
        ;
    }
}

/// The bounds themselves lie at the fractions zero and one.
pub proof fn lemma_normalized_at_bounds(min: int, max: int)
    requires
        min < max,
    ensures
        normalized(min, min, max).same(Frac::of(0)),
        normalized(max, min, max).same(Frac::of(1)),
{
    let d = max - min;
    assert(0 * 1 == 0 * d) by (nonlinear_arith);
    assert(d * 1 == 1 * d) by (nonlinear_arith);
}

/// A value within the bounds lies within `[0, 1]`.
pub proof fn lemma_normalized_within_unit(value: int, min: int, max: int)
    requires
        min <= value <= max,
        min < max,
    ensures
        normalized(value, min, max).within_unit(),
{
}

/// Taking a value to its fraction of the axis and back gives the value.
pub proof fn lemma_normalize_round_trip(value: int, min: int, max: int)
    requires
        min != max,
    ensures
        denormalized(normalized(value, min, max), min, max).same(Frac::of(value)),
{
    let d = max - min;
    if min < max {
        assert(min * d + (value - min) * d == value * d) by (nonlinear_arith);
        assert((min * (d * 1) + ((value - min) * d) * 1) * 1 == value * (1 * (d * 1)))
            by (nonlinear_arith)
            requires
                min * d + (value - min) * d == value * d,
        ;
    } else {
        let e = min - max;
        assert(min * e + (min - value) * d == value * e) by (nonlinear_arith)
            requires
                d == -e,
        ;
        assert((min * (e * 1) + ((min - value) * d) * 1) * 1 == value * (1 * (e * 1)))
            by (nonlinear_arith)
            requires
                min * e + (min - value) * d == value * e,
        ;
    }
}

/// The width of one category: the horizontal factor times the share
/// `1 / count` that a category has of the axis.
pub open spec fn interval(h_corr: Frac, count: int) -> Frac {
    h_corr.times(Frac { num: 1, den: count })
}

/// The horizontal position `left - interval / 2 + interval * (index + 1) +
/// offset`, computed term by term.
pub open spec fn x_formula(left: Frac, interval: Frac, index: int, offset: Frac) -> Frac {
    left.minus(interval.over(2)).plus(interval.times(Frac::of(index + 1))).plus(offset)
}

/// The horizontal centre of category `index` out of `count`, over the single
/// denominator `left.den * 2 * h_corr.den * count`.
pub open spec fn category_centre(scale: ScaleView, count: int, index: int) -> Frac {
    Frac {
        num: scale.left.num * (2 * scale.h_corr.den * count) + scale.left.den * scale.h_corr.num
            * (2 * index + 1),
        den: scale.left.den * (2 * scale.h_corr.den * count),
    }
}

/// [`category_centre`] is [`x_formula`] without an offset.
pub proof fn lemma_category_centre_is_formula(scale: ScaleView, count: int, index: int)
    ensures
        category_centre(scale, count, index).same(
            x_formula(scale.left, interval(scale.h_corr, count), index, Frac::of(0)),
        ),
{
    let a = scale.left.num;
    let b = scale.left.den;
    let p = scale.h_corr.num * 1;
    let q = scale.h_corr.den * count;
    let k = index + 1;
    let formula = x_formula(scale.left, interval(scale.h_corr, count), index, Frac::of(0));
    let closed = category_centre(scale, count, index);
    assert(2 * scale.h_corr.den * count == 2 * q) by (nonlinear_arith)
        requires
            q == scale.h_corr.den * count,
    ;
    assert(scale.left.den * scale.h_corr.num * (2 * index + 1) == b * p * (2 * k - 1))
        by (nonlinear_arith)
        requires
            b == scale.left.den,
            p == scale.h_corr.num * 1,
            k == index + 1,
    ;
    let n = a * (2 * q) + b * p * (2 * k - 1);
    let d = b * (2 * q);
    assert(closed.num == n && closed.den == d);
    assert(formula.num == ((a * (q * 2) - p * b) * (q * 1) + (p * k) * (b * (q * 2))) * 1 + 0 * ((b
        * (q * 2)) * (q * 1)));
    assert(formula.den == ((b * (q * 2)) * (q * 1)) * 1);
    assert((a * (q * 2) - p * b) * (q * 1) == a * (2 * q) * q - b * p * q) by (nonlinear_arith);
    assert((p * k) * (b * (q * 2)) == b * p * (2 * k) * q) by (nonlinear_arith);
    assert(b * p * (2 * k) * q - b * p * q == b * p * (2 * k - 1) * q) by (nonlinear_arith);
    assert((a * (2 * q) + b * p * (2 * k - 1)) * q == a * (2 * q) * q + b * p * (2 * k - 1) * q)
        by (nonlinear_arith);
    assert(formula.num == n * q);
    assert((b * (q * 2)) * (q * 1) == (b * (2 * q)) * q) by (nonlinear_arith);
    assert(formula.den == d * q);
    crate::ratio::lemma_same_scaled(closed, q);
}

/// The category whose centre lies at `x`: the inverse of [`x_formula`]
/// without an offset, `(x - left) / interval - 1 / 2`.
pub open spec fn category_at(scale: ScaleView, count: int, x: Frac) -> Frac {
    x.minus(scale.left).divided_by(interval(scale.h_corr, count)).minus(Frac { num: 1, den: 2 })
}

/// Mapping a category to its place on the surface and back recovers the
/// category.
pub proof fn lemma_category_round_trip(scale: ScaleView, count: int, index: int)
    requires
        scale.wf(),
        count > 0,
    ensures
        category_at(scale, count, category_centre(scale, count, index)).wf(),
        category_at(scale, count, category_centre(scale, count, index)).same(Frac::of(index)),
{
    let a = scale.left.num;
    let b = scale.left.den;
    let p = scale.h_corr.num;
    let q = scale.h_corr.den * count;
    let x = category_centre(scale, count, index);
    assert(2 * scale.h_corr.den * count == 2 * q) by (nonlinear_arith)
        requires
            q == scale.h_corr.den * count,
    ;
    let odd = 2 * index + 1;
    assert(x.num == a * (2 * q) + b * p * odd);
    assert(x.den == b * (2 * q));
    let moved = x.minus(scale.left);
    assert(moved.num == x.num * b - a * x.den);
    assert(moved.num == (b * b) * (p * odd)) by (nonlinear_arith)
        requires
            moved.num == (a * (2 * q) + b * p * odd) * b - a * (b * (2 * q)),
    ;
    assert(moved.den == x.den * b);
    assert(moved.den == (b * b) * (2 * q)) by (nonlinear_arith)
        requires
            moved.den == (b * (2 * q)) * b,
    ;
    let slots = moved.divided_by(interval(scale.h_corr, count));
    assert(slots.num == moved.num * q);
    assert(slots.den == moved.den * (p * 1));
    let back = category_at(scale, count, x);
    assert(back.num == slots.num * 2 - 1 * slots.den);
    assert(back.den == slots.den * 2);
    let k = (b * b) * (p * q);
    assert(slots.num == k * odd) by (nonlinear_arith)
        requires
            slots.num == ((b * b) * (p * odd)) * q,
            k == (b * b) * (p * q),
    ;
    assert(slots.den == k * 2) by (nonlinear_arith)
        requires
            slots.den == ((b * b) * (2 * q)) * (p * 1),
            k == (b * b) * (p * q),
    ;
    assert(back.num * 1 == index * back.den) by (nonlinear_arith)
        requires
            back.num == (k * odd) * 2 - 1 * (k * 2),
            back.den == (k * 2) * 2,
            odd == 2 * index + 1,
    ;
    assert(k > 0) by (nonlinear_arith)
        requires
            k == (b * b) * (p * q),
            q == scale.h_corr.den * count,
            b > 0,
            p > 0,
            scale.h_corr.den > 0,
            count > 0,
    ;
}

/// The vertical position of a value: `lower - normalized * v_corr`.
pub open spec fn y_formula(scale: ScaleView, value: int, min: int, max: int) -> Frac {
    scale.lower.minus(normalized(value, min, max).times(scale.v_corr))
}

/// The share of the axis at which a value is drawn at the height `y`: the
/// inverse of [`y_formula`] up to [`denormalized`].
pub open spec fn share_at(scale: ScaleView, y: Frac) -> Frac {
    scale.lower.minus(y).divided_by(scale.v_corr)
}

/// Mapping a value to its height on the surface and back recovers the value.
pub proof fn lemma_position_round_trip(scale: ScaleView, value: int, min: int, max: int)
    requires
        scale.wf(),
        min != max,
    ensures
        share_at(scale, y_formula(scale, value, min, max)).wf(),
        share_at(scale, y_formula(scale, value, min, max)).same(normalized(value, min, max)),
        denormalized(normalized(value, min, max), min, max).wf(),
        denormalized(normalized(value, min, max), min, max).same(Frac::of(value)),
{
    lemma_normalize_round_trip(value, min, max);
    let n = normalized(value, min, max);
    let l = scale.lower;
    let v = scale.v_corr;
    let y = y_formula(scale, value, min, max);
    let w = n.den * v.den;
    let t = n.num * v.num;
    assert(y.num == l.num * w - t * l.den);
    assert(y.den == l.den * w);
    let back = share_at(scale, y);
    assert(back.num == (l.num * y.den - y.num * l.den) * v.den);
    assert(back.den == (l.den * y.den) * v.num);
    assert(l.num * (l.den * w) - (l.num * w - t * l.den) * l.den == t * (l.den * l.den))
        by (nonlinear_arith);
    let k = (l.den * l.den) * (v.num * v.den);
    assert((t * (l.den * l.den)) * v.den == n.num * k) by (nonlinear_arith)
        requires
            t == n.num * v.num,
            k == (l.den * l.den) * (v.num * v.den),
    ;
    assert((l.den * (l.den * w)) * v.num == n.den * k) by (nonlinear_arith)
        requires
            w == n.den * v.den,
            k == (l.den * l.den) * (v.num * v.den),
    ;
    assert(back.num == n.num * k && back.den == n.den * k);
    crate::ratio::lemma_same_scaled(n, k);
    assert(n.den * k > 0) by (nonlinear_arith)
        requires
            n.den > 0,
            k == (l.den * l.den) * (v.num * v.den),
            l.den > 0,
            v.num > 0,
            v.den > 0,
    ;
    assert(denormalized(n, min, max).den == 1 * (n.den * 1));
}

/// The horizontal centre of category `index` out of `count`.
pub fn category_x(scale: &ScaleTuple, count: usize, index: usize) -> (r: Ratio)
    requires
        0 < count <= MAX_COUNT,
        index < count,
    ensures
        r@ == category_centre(scale@, count as int, index as int),
        r@.wf(),
{
    let left = scale.left();
    let h = scale.h_corr();
    let a: i128 = left.num();
    let b: i128 = left.den();
    let p: i128 = h.num();
    let hd: i128 = h.den();
    let n: i128 = count as i128;
    let i: i128 = index as i128;
    assert(0 < 2 * hd * n <= 2 * 85196 * 0xFFFF_FFFF) by (nonlinear_arith)
        requires
            0 < hd <= 85196,
            0 < n <= 0xFFFF_FFFF,
    ;
    let q2: i128 = 2 * hd * n;
    assert(0 <= a * q2 <= 85196 * (2 * 85196 * 0xFFFF_FFFF)) by (nonlinear_arith)
        requires
            0 <= a <= 85196,
            0 < q2 <= 2 * 85196 * 0xFFFF_FFFF,
    ;
    assert(0 < b * q2 <= 85196 * (2 * 85196 * 0xFFFF_FFFF)) by (nonlinear_arith)
        requires
            0 < b <= 85196,
            0 < q2 <= 2 * 85196 * 0xFFFF_FFFF,
    ;
    assert(0 < b * p <= 85196 * 85196) by (nonlinear_arith)
        requires
            0 < b <= 85196,
            0 < p <= 85196,
    ;
    assert(0 < b * p * (2 * i + 1) <= 85196 * 85196 * (2 * 0xFFFF_FFFF + 1)) by (nonlinear_arith)
        requires
            0 < b * p <= 85196 * 85196,
            0 <= i <= 0xFFFF_FFFF,
    ;
    Ratio::from_parts(a * q2 + b * p * (2 * i + 1), b * q2)
}

/// The vertical position of `value` on an axis from `min` to `max`.
pub fn value_y(scale: &ScaleTuple, value: i64, min: i64, max: i64) -> (r: Ratio)
    requires
        min != max,
    ensures
        r@ == y_formula(scale@, value as int, min as int, max as int),
        r@.wf(),
        -0x10_0000_0000_0000_0000_0000_0000 < r@.num < 0x10_0000_0000_0000_0000_0000_0000,
{
    let share = normalize(value, min, max);
    let lower = scale.lower();
    let v = scale.v_corr();
    let nn: i128 = share.num();
    let nd: i128 = share.den();
    let ln: i128 = lower.num();
    let ld: i128 = lower.den();
    let vn: i128 = v.num();
    let vd: i128 = v.den();
    assert(0 < nd * vd <= 0x1_0000_0000_0000_0000 * 85196) by (nonlinear_arith)
        requires
            0 < nd <= 0x1_0000_0000_0000_0000,
            0 < vd <= 85196,
    ;
    let nv: i128 = nd * vd;
    assert(0 <= ln * nv <= 85196 * (0x1_0000_0000_0000_0000 * 85196)) by (nonlinear_arith)
        requires
            0 <= ln <= 85196,
            0 < nv <= 0x1_0000_0000_0000_0000 * 85196,
    ;
    assert(0 < ld * nv <= 85196 * (0x1_0000_0000_0000_0000 * 85196)) by (nonlinear_arith)
        requires
            0 < ld <= 85196,
            0 < nv <= 0x1_0000_0000_0000_0000 * 85196,
    ;
    assert(-(0x2_0000_0000_0000_0000 * 85196) <= nn * vn <= 0x2_0000_0000_0000_0000 * 85196)
        by (nonlinear_arith)
        requires
            -0x2_0000_0000_0000_0000 <= nn <= 0x2_0000_0000_0000_0000,
            0 < vn <= 85196,
    ;
    let top: i128 = nn * vn;
    assert(-(0x2_0000_0000_0000_0000 * 85196 * 85196) <= top * ld <= 0x2_0000_0000_0000_0000 * 85196
        * 85196) by (nonlinear_arith)
        requires
            -(0x2_0000_0000_0000_0000 * 85196) <= top <= 0x2_0000_0000_0000_0000 * 85196,
            0 < ld <= 85196,
    ;
    Ratio::from_parts(ln * nv - top * ld, ld * nv)
}

/// On a planned scale the centre of every category lies on the surface,
/// less than the horizontal factor away from its left edge.
pub proof fn lemma_category_centre_on_surface(
    width: int,
    height: int,
    show_legend: bool,
    count: int,
    index: int,
)
    requires
        0 < width <= u16::MAX,
        0 < height <= u16::MAX,
        0 <= index < count,
    ensures
        ({
            let scale = planned(width, height, show_legend);
            let x = category_centre(scale, count, index);
            &&& x.wf()
            &&& Frac::of(0).lt(x)
            &&& x.lt(scale.h_corr)
            &&& x.lt(Frac::of(1))
        }),
{
    let scale = planned(width, height, show_legend);
    let x = category_centre(scale, count, index);
    let hn = scale.h_corr.num;
    let hd = scale.h_corr.den;
    crate::scale::lemma_planned_wf(width, height, show_legend);
    assert(x.num == hn * (2 * index + 1)) by (nonlinear_arith)
        requires
            x.num == 0 * (2 * hd * count) + 1 * hn * (2 * index + 1),
    ;
    assert(x.den == 2 * hd * count) by (nonlinear_arith)
        requires
            x.den == 1 * (2 * hd * count),
    ;
    assert(0 < hn * (2 * index + 1) < hn * (2 * count)) by (nonlinear_arith)
        requires
            0 < hn,
            0 <= index < count,
    ;
    assert(0 < 2 * hd * count) by (nonlinear_arith)
        requires
            0 < hd,
            0 < count,
    ;
    assert((hn * (2 * index + 1)) * hd < hn * (2 * hd * count)) by (nonlinear_arith)
        requires
            hn * (2 * index + 1) < hn * (2 * count),
            0 < hd,
    ;
    assert(hn * (2 * count) <= 2 * hd * count) by (nonlinear_arith)
        requires
            0 < hn <= hd,
            0 < count,
    ;
    assert(0 * x.den < x.num * 1);
    assert(x.num * 1 < 1 * x.den);
}

/// On a planned scale every value within the bounds of its axis is drawn on
/// the surface, at most the vertical factor above its lower edge.
pub proof fn lemma_value_on_surface(
    width: int,
    height: int,
    show_legend: bool,
    value: int,
    min: int,
    max: int,
)
    requires
        0 < width <= u16::MAX,
        0 < height <= u16::MAX,
        min < max,
        min <= value <= max,
    ensures
        ({
            let scale = planned(width, height, show_legend);
            let y = y_formula(scale, value, min, max);
            &&& y.wf()
            &&& Frac::of(0).le(y)
            &&& y.le(Frac::of(1))
            &&& scale.lower.minus(scale.v_corr).le(y)
        }),
{
    let scale = planned(width, height, show_legend);
    let y = y_formula(scale, value, min, max);
    let vn = scale.v_corr.num;
    let vd = scale.v_corr.den;
    let n = value - min;
    let d = max - min;
    crate::scale::lemma_planned_wf(width, height, show_legend);
    assert(y.num == d * vd - n * vn) by (nonlinear_arith)
        requires
            y.num == 1 * (d * vd) - (n * vn) * 1,
    ;
    assert(y.den == d * vd) by (nonlinear_arith)
        requires
            y.den == 1 * (d * vd),
    ;
    assert(0 <= n * vn <= d * vd) by (nonlinear_arith)
        requires
            0 <= n <= d,
            0 < vn <= vd,
    ;
    assert(0 < d * vd) by (nonlinear_arith)
        requires
            0 < d,
            0 < vd,
    ;
    assert(0 * y.den <= y.num * 1);
    assert(y.num * 1 <= 1 * y.den);
    let low = scale.lower.minus(scale.v_corr);
    assert(low.num == vd - vn && low.den == vd) by (nonlinear_arith)
        requires
            low.num == 1 * vd - vn * 1,
            low.den == 1 * vd,
    ;
    assert((vd - vn) * (d * vd) <= (d * vd - n * vn) * vd) by (nonlinear_arith)
        requires
            0 <= n <= d,
            0 < vn <= vd,
    ;
}

/// The centres of two neighbouring categories lie one interval apart.
pub proof fn lemma_neighbours_one_interval_apart(scale: ScaleView, count: int, index: int)
    requires
        scale.wf(),
        count > 0,
    ensures
        category_centre(scale, count, index + 1).minus(category_centre(scale, count, index)).same(
            interval(scale.h_corr, count),
        ),
{
    let a = scale.left.num;
    let b = scale.left.den;
    let p = scale.h_corr.num;
    let q = scale.h_corr.den * count;
    let next = category_centre(scale, count, index + 1);
    let here = category_centre(scale, count, index);
    assert(2 * scale.h_corr.den * count == 2 * q) by (nonlinear_arith)
        requires
            q == scale.h_corr.den * count,
    ;
    let d = b * (2 * q);
    assert(next.den == d && here.den == d);
    assert(next.num - here.num == b * p * 2) by (nonlinear_arith)
        requires
            next.num == a * (2 * q) + b * p * (2 * (index + 1) + 1),
            here.num == a * (2 * q) + b * p * (2 * index + 1),
    ;
    let apart = next.minus(here);
    assert(apart.num == (next.num - here.num) * d) by (nonlinear_arith)
        requires
            apart.num == next.num * d - here.num * d,
    ;
    assert(((b * p * 2) * d) * (q * 1) == (p * 1) * (d * d)) by (nonlinear_arith)
        requires
            d == b * (2 * q),
    ;
    assert(interval(scale.h_corr, count).num == p * 1);
    assert(interval(scale.h_corr, count).den == q) by (nonlinear_arith)
        requires
            interval(scale.h_corr, count).den == scale.h_corr.den * count,
            q == scale.h_corr.den * count,
    ;
    assert(apart.den == d * d);
    assert(apart.num * q == (p * 1) * (d * d)) by (nonlinear_arith)
        requires
            apart.num == (b * p * 2) * d,
            ((b * p * 2) * d) * (q * 1) == (p * 1) * (d * d),
    ;
}

} // verus!
