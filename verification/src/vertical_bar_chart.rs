//! The vertical bar chart: for every category one bar per series, side by
//! side, from the height of zero to the height of the value.

use vstd::prelude::*;
use crate::data::{AxisProperties, ChartProperties, ChartView, SeriesData, shape_error};
use crate::error::ChartError;
use crate::mapper::{interval, value_y, x_formula, y_formula, MAX_COUNT};
use crate::primitive::{emit, series_colour, series_colour_of, Primitive, PrimitiveView};
use crate::ratio::{lemma_same_scaled, Frac, Ratio};
use crate::render::{baseline_of, canvas_of, draw_trailing, trailing_of};
use crate::scale::{effective_width, plan, ScaleTuple, ScaleView};

verus! {

/// The share of a category's slot that its bars fill: seven tenths.
pub open spec fn filled_share() -> Frac {
    Frac { num: 7, den: 10 }
}

/// The width of one bar: the share `1 / labels` of a category, times the
/// share `0.7 / series` of one series in it, times the horizontal factor.
pub open spec fn bar_width_of(h_corr: Frac, labels: int, series: int) -> Frac {
    Frac { num: 1, den: labels }.times(Frac { num: 7, den: 10 * series }).times(h_corr)
}

/// How far the bar of series `j` starts from the centre of its category:
/// `(j - series / 2)` bar widths.
pub open spec fn bar_offset_of(h_corr: Frac, labels: int, series: int, j: int) -> Frac {
    Frac::of(j).minus(Frac { num: series, den: 2 }).times(bar_width_of(h_corr, labels, series))
}

/// The left edge of the bar of series `j` in category `i`, over the single
/// denominator `left.den * 20 * h_corr.den * labels * series`.
pub open spec fn bar_left(scale: ScaleView, labels: int, series: int, i: int, j: int) -> Frac {
    Frac {
        num: scale.left.num * (20 * scale.h_corr.den * labels * series) + scale.left.den
            * scale.h_corr.num * (10 * series * (2 * i + 1) + 7 * (2 * j - series)),
        den: scale.left.den * (20 * scale.h_corr.den * labels * series),
    }
}

/// The height of a bar: from the height of zero to the height of `value`,
/// over the denominator that both share.  It is negative for a bar that
/// reaches upward.
pub open spec fn bar_height_of(scale: ScaleView, value: int, min: int, max: int) -> Frac {
    Frac {
        num: y_formula(scale, value, min, max).num - y_formula(scale, 0, min, max).num,
        den: y_formula(scale, value, min, max).den,
    }
}

/// With `series` series a bar is the `series`-th part as wide as with one.
pub proof fn lemma_bar_width_divides(h_corr: Frac, labels: int, series: int)
    requires
        h_corr.wf(),
        labels > 0,
        series > 0,
    ensures
        bar_width_of(h_corr, labels, series).wf(),
        bar_width_of(h_corr, labels, series).times(Frac::of(series)).same(
            bar_width_of(h_corr, labels, 1),
        ),
{
    assert(labels * h_corr.den > 0) by (nonlinear_arith)
        requires
            labels > 0,
            h_corr.den > 0,
    ;
    assert(10 * series * (labels * h_corr.den) > 0) by (nonlinear_arith)
        requires
            series > 0,
            labels * h_corr.den > 0,
    ;
    let p = (1 * 7) * h_corr.num;
    let q = labels * h_corr.den;
    assert((labels * (10 * series)) * h_corr.den == 10 * series * q) by (nonlinear_arith)
        requires
            q == labels * h_corr.den,
    ;
    assert((labels * (10 * 1)) * h_corr.den == 10 * q) by (nonlinear_arith)
        requires
            q == labels * h_corr.den,
    ;
    assert((p * series) * (10 * q) == p * ((10 * series * q) * 1)) by (nonlinear_arith);
}

/// With two series each bar is exactly half as wide as with one.
pub proof fn lemma_bar_width_halves(h_corr: Frac, labels: int)
    requires
        h_corr.wf(),
        labels > 0,
    ensures
        bar_width_of(h_corr, labels, 1).wf(),
        bar_width_of(h_corr, labels, 2).wf(),
        bar_width_of(h_corr, labels, 2).plus(bar_width_of(h_corr, labels, 2)).same(
            bar_width_of(h_corr, labels, 1),
        ),
        bar_width_of(h_corr, labels, 2).same(bar_width_of(h_corr, labels, 1).over(2)),
{
    assert(labels * h_corr.den > 0) by (nonlinear_arith)
        requires
            labels > 0,
            h_corr.den > 0,
    ;
    let p = (1 * 7) * h_corr.num;
    let q = labels * h_corr.den;
    assert((labels * (10 * 2)) * h_corr.den == 20 * q) by (nonlinear_arith)
        requires
            q == labels * h_corr.den,
    ;
    assert((labels * (10 * 1)) * h_corr.den == 10 * q) by (nonlinear_arith)
        requires
            q == labels * h_corr.den,
    ;
    assert((p * (20 * q) + p * (20 * q)) * (10 * q) == p * ((20 * q) * (20 * q)))
        by (nonlinear_arith);
    assert(p * ((10 * q) * 2) == p * (20 * q)) by (nonlinear_arith);
}

/// [`bar_left`] is [`x_formula`] with the offset of the series.
pub proof fn lemma_bar_left_is_formula(scale: ScaleView, labels: int, series: int, i: int, j: int)
    ensures
        bar_left(scale, labels, series, i, j).same(
            x_formula(
                scale.left,
                interval(scale.h_corr, labels),
                i,
                bar_offset_of(scale.h_corr, labels, series, j),
            ),
        ),
{
    let a = scale.left.num;
    let b = scale.left.den;
    let p = scale.h_corr.num;
    let hd = scale.h_corr.den;
    let q = hd * labels;
    let m = series;
    let k = i + 1;
    let closed = bar_left(scale, labels, series, i, j);
    let offset = bar_offset_of(scale.h_corr, labels, series, j);
    let formula = x_formula(scale.left, interval(scale.h_corr, labels), i, offset);
    // the position without the offset
    let base_num = (a * (q * 2) - (p * 1) * b) * (q * 1) + ((p * 1) * k) * (b * (q * 2));
    let base_den = (b * (q * 2)) * (q * 1);
    // the offset
    let off_num = (j * 2 - m * 1) * ((1 * 7) * p);
    let off_den = (1 * 2) * ((labels * (10 * m)) * hd);
    assert(offset.num == off_num && offset.den == off_den);
    assert(formula.num == base_num * off_den + off_num * base_den);
    assert(formula.den == base_den * off_den);
    let n = a * (2 * q) + b * p * (2 * k - 1);
    let d = b * (2 * q);
    assert(base_num == n * q) by {
        assert((a * (q * 2) - (p * 1) * b) * (q * 1) == a * (2 * q) * q - b * p * q)
            by (nonlinear_arith);
        assert(((p * 1) * k) * (b * (q * 2)) == b * p * (2 * k) * q) by (nonlinear_arith);
        assert(b * p * (2 * k) * q - b * p * q == b * p * (2 * k - 1) * q) by (nonlinear_arith);
        assert((a * (2 * q) + b * p * (2 * k - 1)) * q == a * (2 * q) * q + b * p * (2 * k - 1)
            * q) by (nonlinear_arith);
    }
    assert(base_den == d * q) by (nonlinear_arith)
        requires
            base_den == (b * (q * 2)) * (q * 1),
            d == b * (2 * q),
    ;
    assert(off_den == 20 * m * q) by (nonlinear_arith)
        requires
            off_den == (1 * 2) * ((labels * (10 * m)) * hd),
            q == hd * labels,
    ;
    let s = 7 * (2 * j - m);
    assert(off_num == s * p) by (nonlinear_arith)
        requires
            off_num == (j * 2 - m * 1) * ((1 * 7) * p),
            s == 7 * (2 * j - m),
    ;
    let u = 2 * (q * q);
    // the closed form, in the same letters
    let c = 10 * m * (2 * k - 1) + s;
    assert(closed.num == a * (20 * q * m) + b * p * c) by {
        assert(20 * hd * labels * m == 20 * q * m) by (nonlinear_arith)
            requires
                q == hd * labels,
        ;
        assert(10 * m * (2 * i + 1) + 7 * (2 * j - m) == c);
    }
    assert(closed.den == b * (20 * q * m)) by {
        assert(20 * hd * labels * m == 20 * q * m) by (nonlinear_arith)
            requires
                q == hd * labels,
        ;
    }
    assert(formula.den == closed.den * u) by (nonlinear_arith)
        requires
            formula.den == (d * q) * (20 * m * q),
            d == b * (2 * q),
            closed.den == b * (20 * q * m),
            u == 2 * (q * q),
    ;
    assert((n * q) * (20 * m * q) == (20 * m * n) * (q * q)) by (nonlinear_arith);
    assert((s * p) * (d * q) == (2 * (s * p * b)) * (q * q)) by (nonlinear_arith)
        requires
            d == b * (2 * q),
    ;
    assert(20 * m * n == 2 * (a * (20 * q * m)) + 2 * (b * p * (10 * m * (2 * k - 1))))
        by (nonlinear_arith)
        requires
            n == a * (2 * q) + b * p * (2 * k - 1),
    ;
    assert(b * p * c == b * p * (10 * m * (2 * k - 1)) + s * p * b) by (nonlinear_arith)
        requires
            c == 10 * m * (2 * k - 1) + s,
    ;
    assert(formula.num == closed.num * u) by (nonlinear_arith)
        requires
            formula.num == (n * q) * (20 * m * q) + (s * p) * (d * q),
            (n * q) * (20 * m * q) == (20 * m * n) * (q * q),
            (s * p) * (d * q) == (2 * (s * p * b)) * (q * q),
            20 * m * n == 2 * (a * (20 * q * m)) + 2 * (b * p * (10 * m * (2 * k - 1))),
            closed.num == a * (20 * q * m) + b * p * c,
            b * p * c == b * p * (10 * m * (2 * k - 1)) + s * p * b,
            u == 2 * (q * q),
    ;
    lemma_same_scaled(closed, u);
}

/// The bars of a category fill seven tenths of its slot: `series` bar widths
/// are seven tenths of an interval.
pub proof fn lemma_bars_fill_seven_tenths(h_corr: Frac, labels: int, series: int)
    ensures
        bar_width_of(h_corr, labels, series).times(Frac::of(series)).same(
            filled_share().times(interval(h_corr, labels)),
        ),
{
    let p = h_corr.num;
    let q = h_corr.den * labels;
    let wide = bar_width_of(h_corr, labels, series);
    assert(wide.num == 7 * p);
    assert(wide.den == 10 * series * q) by (nonlinear_arith)
        requires
            wide.den == (labels * (10 * series)) * h_corr.den,
            q == h_corr.den * labels,
    ;
    let slot = filled_share().times(interval(h_corr, labels));
    assert(slot.num == 7 * (p * 1));
    assert(slot.den == 10 * q);
    assert(((7 * p) * series) * (10 * q) == (7 * (p * 1)) * ((10 * series * q) * 1))
        by (nonlinear_arith);
}

/// The bars of a category stand side by side: each starts where the bar of
/// the series before ends.
pub proof fn lemma_bars_side_by_side(scale: ScaleView, labels: int, series: int, i: int, j: int)
    ensures
        bar_left(scale, labels, series, i, j).plus(
            bar_width_of(scale.h_corr, labels, series),
        ).same(bar_left(scale, labels, series, i, j + 1)),
{
    let a = scale.left.num;
    let b = scale.left.den;
    let p = scale.h_corr.num;
    let q = scale.h_corr.den * labels;
    let m = series;
    let here = bar_left(scale, labels, series, i, j);
    let next = bar_left(scale, labels, series, i, j + 1);
    let wide = bar_width_of(scale.h_corr, labels, series);
    let slots = 20 * q * m;
    assert(20 * scale.h_corr.den * labels * m == slots) by (nonlinear_arith)
        requires
            q == scale.h_corr.den * labels,
            slots == 20 * q * m,
    ;
    let c = 10 * m * (2 * i + 1) + 7 * (2 * j - m);
    assert(here.num == a * slots + b * p * c);
    assert(here.den == b * slots);
    assert(next.num == a * slots + b * p * (c + 14)) by {
        assert(10 * m * (2 * i + 1) + 7 * (2 * (j + 1) - m) == c + 14);
    }
    assert(next.den == b * slots);
    assert(wide.num == 7 * p);
    let wd = 10 * m * q;
    assert(wide.den == wd) by (nonlinear_arith)
        requires
            wide.den == (labels * (10 * m)) * scale.h_corr.den,
            q == scale.h_corr.den * labels,
            wd == 10 * m * q,
    ;
    let sum = here.plus(wide);
    assert(sum.num == here.num * wd + (7 * p) * here.den);
    assert(sum.den == here.den * wd);
    assert((7 * p) * (b * slots) == (b * p * 14) * wd) by (nonlinear_arith)
        requires
            slots == 20 * q * m,
            wd == 10 * m * q,
    ;
    assert(b * p * (c + 14) == b * p * c + b * p * 14) by (nonlinear_arith);
    assert(sum.num == next.num * wd) by (nonlinear_arith)
        requires
            sum.num == (a * slots + b * p * c) * wd + (b * p * 14) * wd,
            next.num == a * slots + b * p * c + b * p * 14,
    ;
    assert(sum.den == next.den * wd);
    lemma_same_scaled(next, wd);
}

/// A bar rises from the baseline for a value above zero, hangs from it for
/// a value below zero, and has no height for zero.  The surface's heights
/// grow downward, so a bar that rises has a negative height.
pub proof fn lemma_bar_direction(scale: ScaleView, value: int, min: int, max: int)
    requires
        scale.wf(),
        min < max,
    ensures
        value > 0 ==> bar_height_of(scale, value, min, max).num < 0,
        value < 0 ==> bar_height_of(scale, value, min, max).num > 0,
        value == 0 ==> bar_height_of(scale, value, min, max).num == 0,
        bar_height_of(scale, value, min, max).den > 0,
{
    let l = scale.lower;
    let v = scale.v_corr;
    let d = max - min;
    let top = y_formula(scale, value, min, max);
    let base = y_formula(scale, 0, min, max);
    assert(top.num == l.num * (d * v.den) - ((value - min) * v.num) * l.den);
    assert(base.num == l.num * (d * v.den) - ((0 - min) * v.num) * l.den);
    assert(top.num - base.num == -(value * (v.num * l.den))) by (nonlinear_arith)
        requires
            top.num == l.num * (d * v.den) - ((value - min) * v.num) * l.den,
            base.num == l.num * (d * v.den) - ((0 - min) * v.num) * l.den,
    ;
    assert(v.num * l.den > 0) by (nonlinear_arith)
        requires
            v.num > 0,
            l.den > 0,
    ;
    let k = v.num * l.den;
    assert(value > 0 ==> value * k > 0) by (nonlinear_arith)
        requires
            k > 0,
    ;
    assert(value < 0 ==> value * k < 0) by (nonlinear_arith)
        requires
            k > 0,
    ;
    assert(top.den == l.den * (d * v.den));
    assert(l.den * (d * v.den) > 0) by (nonlinear_arith)
        requires
            l.den > 0,
            d > 0,
            v.den > 0,
    ;
}

/// [`bar_height_of`] is the height of the value less the height of zero.
pub proof fn lemma_bar_height_is_difference(scale: ScaleView, value: int, min: int, max: int)
    ensures
        bar_height_of(scale, value, min, max).same(
            y_formula(scale, value, min, max).minus(y_formula(scale, 0, min, max)),
        ),
{
    let top = y_formula(scale, value, min, max);
    let base = y_formula(scale, 0, min, max);
    assert(top.den == base.den);
    let d = top.den;
    assert((top.num - base.num) * (d * d) == (top.num * d - base.num * d) * d)
        by (nonlinear_arith);
}

/// All bars of a chart stand on one baseline, whatever their value.
pub proof fn lemma_bars_share_baseline(chart: ChartView, j: int, i: int, k: int, l: int)
    ensures
        bar_of(chart, j, i)->Bar_y == bar_of(chart, k, l)->Bar_y,
        bar_of(chart, j, i)->Bar_y == baseline_of(chart.scale(), chart.axis_prop),
{
}

/// The bar of series `j` in category `i`.
pub open spec fn bar_of(chart: ChartView, j: int, i: int) -> PrimitiveView {
    let scale = chart.scale();
    let labels = chart.data.labels.len() as int;
    let series = chart.data.values.len() as int;
    let min = chart.axis_prop.y_bounds.0;
    let max = chart.axis_prop.y_bounds.1;
    PrimitiveView::Bar {
        x: bar_left(scale, labels, series, i, j),
        y: baseline_of(scale, chart.axis_prop),
        width: bar_width_of(scale.h_corr, labels, series),
        height: bar_height_of(scale, chart.data.values[j][i] as int, min, max),
    }
}

/// What is drawn for series `j`: its colour, then its bars in the order of
/// the categories.
pub open spec fn bar_series(chart: ChartView, j: int) -> Seq<PrimitiveView> {
    seq![series_colour_of(j)] + Seq::new(
        chart.data.labels.len(),
        |i: int| bar_of(chart, j, i),
    )
}

/// What is drawn for the first `upto` series.
pub open spec fn bar_plot(chart: ChartView, upto: int) -> Seq<PrimitiveView>
    decreases upto,
{
    if upto <= 0 {
        Seq::empty()
    } else {
        bar_plot(chart, upto - 1) + bar_series(chart, upto - 1)
    }
}

/// Every series is drawn as its colour and one bar per category.
pub proof fn lemma_bar_plot_len(chart: ChartView, series: int)
    requires
        series >= 0,
    ensures
        bar_plot(chart, series).len() == series * (chart.data.labels.len() + 1),
    decreases series,
{
    let count = chart.data.labels.len() as int;
    if series > 0 {
        lemma_bar_plot_len(chart, series - 1);
        assert(series * (count + 1) == (series - 1) * (count + 1) + (count + 1))
            by (nonlinear_arith);
    }
}

/// The rendering of a bar chart: the canvas, the series in order, then the
/// title, the axes and the legend.
pub open spec fn bar_drawing(chart: ChartView) -> Seq<PrimitiveView> {
    seq![canvas_of(chart)] + bar_plot(chart, chart.data.values.len() as int) + trailing_of(chart)
}

/// The width of one bar of a chart with `labels` categories and `series`
/// series.
pub fn bar_width(scale: &ScaleTuple, labels: usize, series: usize) -> (r: Ratio)
    requires
        0 < labels <= MAX_COUNT,
        0 < series <= MAX_COUNT,
    ensures
        r@ == bar_width_of(scale@.h_corr, labels as int, series as int),
        r@.wf(),
{
    let h = scale.h_corr();
    let n: i128 = labels as i128;
    let m: i128 = series as i128;
    let hd: i128 = h.den();
    assert(0 < n * (10 * m) <= 0xFFFF_FFFF * (10 * 0xFFFF_FFFF)) by (nonlinear_arith)
        requires
            0 < n <= 0xFFFF_FFFF,
            0 < m <= 0xFFFF_FFFF,
    ;
    let slots: i128 = n * (10 * m);
    assert(0 < slots * hd <= 0xFFFF_FFFF * (10 * 0xFFFF_FFFF) * 85196) by (nonlinear_arith)
        requires
            0 < slots <= 0xFFFF_FFFF * (10 * 0xFFFF_FFFF),
            0 < hd <= 85196,
    ;
    Ratio::from_parts((1 * 7) * h.num(), slots * hd)
}

/// The left edge of the bar of series `j` in category `i`.
pub fn bar_x(scale: &ScaleTuple, labels: usize, series: usize, i: usize, j: usize) -> (r: Ratio)
    requires
        0 < labels <= MAX_COUNT,
        0 < series <= MAX_COUNT,
        i < labels,
        j < series,
    ensures
        r@ == bar_left(scale@, labels as int, series as int, i as int, j as int),
        r@.wf(),
{
    let left = scale.left();
    let h = scale.h_corr();
    let a: i128 = left.num();
    let b: i128 = left.den();
    let p: i128 = h.num();
    let hd: i128 = h.den();
    let n: i128 = labels as i128;
    let m: i128 = series as i128;
    let ii: i128 = i as i128;
    let jj: i128 = j as i128;
    assert(0 < 20 * hd * n <= 20 * 85196 * 0xFFFF_FFFF) by (nonlinear_arith)
        requires
            0 < hd <= 85196,
            0 < n <= 0xFFFF_FFFF,
    ;
    assert(0 < 20 * hd * n * m <= 20 * 85196 * 0xFFFF_FFFF * 0xFFFF_FFFF) by (nonlinear_arith)
        requires
            0 < 20 * hd * n <= 20 * 85196 * 0xFFFF_FFFF,
            0 < m <= 0xFFFF_FFFF,
    ;
    let slots: i128 = 20 * hd * n * m;
    assert(0 <= a * slots <= 85196 * (20 * 85196 * 0xFFFF_FFFF * 0xFFFF_FFFF))
        by (nonlinear_arith)
        requires
            0 <= a <= 85196,
            0 < slots <= 20 * 85196 * 0xFFFF_FFFF * 0xFFFF_FFFF,
    ;
    assert(0 < b * slots <= 85196 * (20 * 85196 * 0xFFFF_FFFF * 0xFFFF_FFFF)) by (nonlinear_arith)
        requires
            0 < b <= 85196,
            0 < slots <= 20 * 85196 * 0xFFFF_FFFF * 0xFFFF_FFFF,
    ;
    let tens: i128 = 10 * m;
    let odd: i128 = 2 * ii + 1;
    assert(0 < tens * odd <= (10 * 0xFFFF_FFFF) * (2 * 0xFFFF_FFFF + 1)) by (nonlinear_arith)
        requires
            0 < tens <= 10 * 0xFFFF_FFFF,
            0 < odd <= 2 * 0xFFFF_FFFF + 1,
    ;
    let shift: i128 = tens * odd + 7 * (2 * jj - m);
    assert(0 < b * p <= 85196 * 85196) by (nonlinear_arith)
        requires
            0 < b <= 85196,
            0 < p <= 85196,
    ;
    assert(-(85196 * 85196 * (8 * 0xFFFF_FFFF)) <= b * p * shift <= 85196 * 85196 * (10
        * 0xFFFF_FFFF * (2 * 0xFFFF_FFFF + 1) + 14 * 0xFFFF_FFFF)) by (nonlinear_arith)
        requires
            0 < b * p <= 85196 * 85196,
            -(8 * 0xFFFF_FFFF) <= shift <= 10 * 0xFFFF_FFFF * (2 * 0xFFFF_FFFF + 1) + 14
                * 0xFFFF_FFFF,
    ;
    Ratio::from_parts(a * slots + b * p * shift, b * slots)
}

/// A vertical bar chart: values compared across categories.
#[derive(Debug, PartialEq, Eq)]
pub struct VerticalBarChart {
    data: SeriesData,
    chart_prop: ChartProperties,
    axis_prop: AxisProperties,
}

impl View for VerticalBarChart {
    type V = ChartView;

    closed spec fn view(&self) -> ChartView {
        ChartView { data: self.data@, chart_prop: self.chart_prop@, axis_prop: self.axis_prop@ }
    }
}

impl Clone for VerticalBarChart {
    fn clone(&self) -> (r: Self)
        ensures
            r@ == self@,
    {
        proof {
            use_type_invariant(self);
        }
        VerticalBarChart {
            data: self.data.clone(),
            chart_prop: self.chart_prop.clone(),
            axis_prop: self.axis_prop.clone(),
        }
    }
}

impl VerticalBarChart {
    #[verifier::type_invariant]
    spec fn inv(self) -> bool {
        self@.wf(true)
    }

    /// A bar chart of the given data.  `new_data_labels` names the
    /// categories; `new_data` holds, for each series, one value per category.
    /// The value axis always takes in zero.
    pub fn new(chart_title: String, new_data_labels: Vec<String>, new_data: Vec<Vec<i32>>) -> (r:
        Result<VerticalBarChart, ChartError>)
        ensures
            match shape_error(new_data_labels.len() as int, new_data.deep_view()) {
                Some(e) => r == Err::<VerticalBarChart, ChartError>(e),
                None => r matches Ok(c) && c@ == ChartView::fresh(
                    chart_title@,
                    new_data_labels.deep_view(),
                    new_data.deep_view(),
                    true,
                ) && c@.wf(true),
            },
    {
        match SeriesData::new(new_data_labels, new_data) {
            Err(e) => Err(e),
            Ok(data) => {
                let axis_prop = AxisProperties::for_data(&data, true);
                let chart_prop = ChartProperties::new(chart_title);
                Ok(VerticalBarChart { data, chart_prop, axis_prop })
            },
        }
    }

    /// The data of the chart.
    pub fn data(&self) -> (d: &SeriesData)
        ensures
            d@ == self@.data,
            self@.wf(true),
    {
        proof {
            use_type_invariant(self);
        }
        &self.data
    }

    /// The properties of the chart.
    pub fn get_chart_prop(&self) -> (p: &ChartProperties)
        ensures
            p@ == self@.chart_prop,
            self@.wf(true),
    {
        proof {
            use_type_invariant(self);
        }
        &self.chart_prop
    }

    /// The axes of the chart.
    pub fn get_axis_prop(&self) -> (a: &AxisProperties)
        ensures
            a@ == self@.axis_prop,
            self@.wf(true),
    {
        proof {
            use_type_invariant(self);
        }
        &self.axis_prop
    }

    /// Replaces the properties of the chart.
    pub fn set_chart_prop(&mut self, chart_prop: ChartProperties)
        ensures
            final(self)@ == (ChartView { chart_prop: chart_prop@, ..old(self)@ }),
    {
        proof {
            use_type_invariant(&*self);
        }
        let _ = chart_prop.surface_size.width();
        self.chart_prop = chart_prop;
    }

    /// Gives the two axes their titles.
    pub fn set_axis_titles(&mut self, x_title: String, y_title: String)
        ensures
            final(self)@ == (ChartView {
                axis_prop: crate::data::AxisView {
                    x_title: x_title@,
                    y_title: y_title@,
                    ..old(self)@.axis_prop
                },
                ..old(self)@
            }),
    {
        proof {
            use_type_invariant(&*self);
        }
        self.axis_prop.set_x_title(x_title);
        self.axis_prop.set_y_title(y_title);
    }

    /// Lists what is to be drawn, in order.
    #[verifier::loop_isolation(false)]
    pub fn draw_chart(&self) -> (out: Vec<Primitive>)
        ensures
            out.deep_view() == bar_drawing(self@),
    {
        proof {
            use_type_invariant(self);
        }
        let ghost chart = self@;
        let size = self.chart_prop.surface_size;
        let show_legend = self.chart_prop.show_legend;
        let wide = effective_width(size, show_legend);
        let scale = plan(size, show_legend);
        let bounds = self.axis_prop.y_bounds();
        let count = self.data.label_count();
        let values = self.data.values();
        let series = values.len();
        let baseline = value_y(&scale, 0, bounds.0, bounds.1);
        let width = bar_width(&scale, count, series);

        let mut out: Vec<Primitive> = Vec::new();
        emit(
            &mut out,
            Primitive::Canvas {
                wide,
                high: size.height(),
                h_corr: scale.h_corr(),
                v_corr: scale.v_corr(),
            },
        );
        assert(out.deep_view() =~= seq![canvas_of(chart)] + bar_plot(chart, 0));
        let mut j: usize = 0;
        while j < series
            invariant
                j <= series,
                out.deep_view() == seq![canvas_of(chart)] + bar_plot(chart, j as int),
            decreases series - j,
        {
            let ghost before = out.deep_view();
            let ghost block = bar_series(chart, j as int);
            let row = &values[j];
            assert(row@ == chart.data.values[j as int]);
            emit(&mut out, series_colour(j));
            assert(out.deep_view() =~= before + block.subrange(0, 1));
            let mut i: usize = 0;
            while i < count
                invariant
                    i <= count,
                    j < series,
                    row@ == chart.data.values[j as int],
                    block == bar_series(chart, j as int),
                    out.deep_view() == before + block.subrange(0, i + 1),
                decreases count - i,
            {
                let top = value_y(&scale, row[i] as i64, bounds.0, bounds.1);
                let bar = Primitive::Bar {
                    x: bar_x(&scale, count, series, i, j),
                    y: baseline,
                    width,
                    height: Ratio::from_parts(top.num() - baseline.num(), top.den()),
                };
                assert(bar.deep_view() == block[i + 1]);
                emit(&mut out, bar);
                assert(out.deep_view() =~= before + block.subrange(0, i + 2));
                i += 1;
            }
            assert(block.subrange(0, count + 1) =~= block);
            assert(out.deep_view() =~= seq![canvas_of(chart)] + bar_plot(chart, j + 1));
            j += 1;
        }
        draw_trailing(&mut out, &self.data, &self.chart_prop, &self.axis_prop);
        out
    }
}

} // verus!
