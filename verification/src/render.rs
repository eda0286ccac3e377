//! What every chart draws after its data: the title, the two axes and the
//! legend.

use vstd::prelude::*;
use crate::data::{AxisProperties, AxisView, ChartProperties, ChartView, SeriesData};
use crate::mapper::{category_centre, category_x, value_y, y_formula};
use crate::palette::{color_for_index, colour_of};
use crate::primitive::{emit, Point, PointView, Primitive, PrimitiveView};
use crate::ratio::{Frac, Ratio};
use crate::scale::{plan, ScaleTuple, ScaleView};

verus! {

/// The title, anchored at the upper left corner of the plot rectangle.
pub open spec fn title_of(scale: ScaleView, title: Seq<char>) -> PrimitiveView {
    PrimitiveView::Title { at: PointView { x: scale.left, y: scale.upper }, text: title }
}

/// The height of the value zero on an axis with the given bounds: where bars
/// stand and where the category axis lies.
pub open spec fn baseline_of(scale: ScaleView, axis: AxisView) -> Frac {
    y_formula(scale, 0, axis.y_bounds.0, axis.y_bounds.1)
}

/// The label of category `i`, at the centre of the category on the category
/// axis.
pub open spec fn category_label_of(
    scale: ScaleView,
    labels: Seq<Seq<char>>,
    axis: AxisView,
    i: int,
) -> PrimitiveView {
    PrimitiveView::CategoryLabel {
        at: PointView {
            x: category_centre(scale, labels.len() as int, i),
            y: baseline_of(scale, axis),
        },
        text: labels[i],
    }
}

/// The line of the category axis: at the height of the value zero, from the
/// left of the plot rectangle across all categories, which take up the
/// width `h_corr`.
pub open spec fn category_line_of(scale: ScaleView, axis: AxisView) -> PrimitiveView {
    PrimitiveView::CategoryAxis {
        from: PointView { x: scale.left, y: baseline_of(scale, axis) },
        to: PointView { x: scale.left.plus(scale.h_corr), y: baseline_of(scale, axis) },
        title: axis.x_title,
    }
}

/// The category axis: its line, and one label per category.
pub open spec fn category_axis_of(scale: ScaleView, labels: Seq<Seq<char>>, axis: AxisView) -> Seq<
    PrimitiveView,
> {
    seq![category_line_of(scale, axis)] + Seq::new(
        labels.len(),
        |i: int| category_label_of(scale, labels, axis, i),
    )
}

/// The number of ticks of the value axis: one at each multiple of the step
/// from the lower bound to the upper bound.
pub open spec fn tick_count(axis: AxisView) -> int {
    (axis.y_bounds.1 - axis.y_bounds.0) / axis.y_scale + 1
}

/// Tick `k` of the value axis, at the height of its value.
pub open spec fn value_tick_of(scale: ScaleView, axis: AxisView, k: int) -> PrimitiveView {
    PrimitiveView::ValueTick {
        at: PointView {
            x: scale.left,
            y: y_formula(
                scale,
                axis.y_bounds.0 + k * axis.y_scale,
                axis.y_bounds.0,
                axis.y_bounds.1,
            ),
        },
        value: axis.y_bounds.0 + k * axis.y_scale,
    }
}

/// The ticks run from bound to bound: the first tick is at the lower bound,
/// the last at the upper bound, and each lies one step above the one before.
pub proof fn lemma_ticks_span_axis(scale: ScaleView, axis: AxisView)
    requires
        axis.wf(),
    ensures
        tick_count(axis) >= 2,
        value_tick_of(scale, axis, 0)->ValueTick_value == axis.y_bounds.0,
        value_tick_of(scale, axis, tick_count(axis) - 1)->ValueTick_value == axis.y_bounds.1,
        forall|k: int|
            (#[trigger] value_tick_of(scale, axis, k + 1))->ValueTick_value == value_tick_of(
                scale,
                axis,
                k,
            )->ValueTick_value + axis.y_scale,
{
    let min = axis.y_bounds.0;
    let max = axis.y_bounds.1;
    let step = axis.y_scale;
    let span = max - min;
    vstd::arithmetic::div_mod::lemma_fundamental_div_mod(min, step);
    vstd::arithmetic::div_mod::lemma_fundamental_div_mod(max, step);
    let q = max / step - min / step;
    assert(span == step * q) by (nonlinear_arith)
        requires
            min == step * (min / step),
            max == step * (max / step),
            span == max - min,
            q == max / step - min / step,
    ;
    assert(q >= 1) by (nonlinear_arith)
        requires
            span == step * q,
            span > 0,
            step > 0,
    ;
    vstd::arithmetic::div_mod::lemma_fundamental_div_mod_converse(span, step, q, 0);
    assert(span / step == q);
    assert(0 * step == 0);
    assert(q * step == span) by (nonlinear_arith)
        requires
            span == step * q,
    ;
    assert forall|k: int|
        (#[trigger] value_tick_of(scale, axis, k + 1))->ValueTick_value == value_tick_of(
            scale,
            axis,
            k,
        )->ValueTick_value + axis.y_scale by {
        assert((k + 1) * step == k * step + step) by (nonlinear_arith);
    }
}

/// The line of the value axis: at the left of the plot rectangle, from the
/// height of the lower bound to the height of the upper bound.
pub open spec fn value_line_of(scale: ScaleView, axis: AxisView) -> PrimitiveView {
    PrimitiveView::ValueAxis {
        from: PointView {
            x: scale.left,
            y: y_formula(scale, axis.y_bounds.0, axis.y_bounds.0, axis.y_bounds.1),
        },
        to: PointView {
            x: scale.left,
            y: y_formula(scale, axis.y_bounds.1, axis.y_bounds.0, axis.y_bounds.1),
        },
        title: axis.y_title,
    }
}

/// The value axis: its line and its ticks, from the lower bound upward.
pub open spec fn value_axis_of(scale: ScaleView, axis: AxisView) -> Seq<PrimitiveView> {
    seq![value_line_of(scale, axis)] + Seq::new(
        tick_count(axis) as nat,
        |k: int| value_tick_of(scale, axis, k),
    )
}

/// Entry `k` of the legend.  The legend band lies right of the plot
/// rectangle; its height is divided evenly among the entries, and entry `k`
/// has the `k`-th row from the top.
pub open spec fn legend_entry_of(scale: ScaleView, entries: Seq<Seq<char>>, k: int)
    -> PrimitiveView {
    PrimitiveView::LegendEntry {
        index: k,
        colour: colour_of(k),
        at: PointView { x: scale.right, y: Frac { num: k, den: entries.len() as int } },
        text: entries[k],
    }
}

/// The legend: one entry per label, in order.
pub open spec fn legend_of(scale: ScaleView, entries: Seq<Seq<char>>) -> Seq<PrimitiveView> {
    Seq::new(entries.len(), |k: int| legend_entry_of(scale, entries, k))
}

/// Appends the title.
pub fn draw_title(out: &mut Vec<Primitive>, scale: &ScaleTuple, title: &String)
    ensures
        final(out).deep_view() == old(out).deep_view().push(title_of(scale@, title@)),
{
    emit(
        out,
        Primitive::Title { at: Point { x: scale.left(), y: scale.upper() }, text: title.clone() },
    );
}

/// Appends the category axis and the labels of its categories.
pub fn draw_x_axis_cat(
    out: &mut Vec<Primitive>,
    scale: &ScaleTuple,
    data: &SeriesData,
    axis: &AxisProperties,
)
    ensures
        final(out).deep_view() == old(out).deep_view() + category_axis_of(
            scale@,
            data@.labels,
            axis@,
        ),
{
    let bounds = axis.y_bounds();
    let labels = data.labels();
    let count = data.label_count();
    let ghost start = out.deep_view();
    let ghost all = category_axis_of(scale@, data@.labels, axis@);
    let baseline = value_y(scale, 0, bounds.0, bounds.1);
    let left = scale.left();
    let h = scale.h_corr();
    assert(0 <= left@.num * h@.den <= 85196 * 85196) by (nonlinear_arith)
        requires
            0 <= left@.num <= 85196,
            0 < h@.den <= 85196,
    ;
    assert(0 < h@.num * left@.den <= 85196 * 85196) by (nonlinear_arith)
        requires
            0 < h@.num <= 85196,
            0 < left@.den <= 85196,
    ;
    assert(0 < left@.den * h@.den <= 85196 * 85196) by (nonlinear_arith)
        requires
            0 < left@.den <= 85196,
            0 < h@.den <= 85196,
    ;
    let end = Ratio::from_parts(
        left.num() * h.den() + h.num() * left.den(),
        left.den() * h.den(),
    );
    emit(
        out,
        Primitive::CategoryAxis {
            from: Point { x: left, y: baseline },
            to: Point { x: end, y: baseline },
            title: axis.x_title().clone(),
        },
    );
    let mut i: usize = 0;
    while i < count
        invariant
            i <= count,
            count == labels.len(),
            0 < count <= crate::mapper::MAX_COUNT,
            labels.deep_view() == data@.labels,
            baseline@ == baseline_of(scale@, axis@),
            all == category_axis_of(scale@, data@.labels, axis@),
            out.deep_view() == start + all.subrange(0, i + 1),
        decreases count - i,
    {
        let label = Primitive::CategoryLabel {
            at: Point { x: category_x(scale, count, i), y: baseline },
            text: labels[i].clone(),
        };
        assert(label.deep_view() == all[i + 1]);
        emit(out, label);
        assert(out.deep_view() =~= start + all.subrange(0, i + 2));
        i += 1;
    }
    assert(all.subrange(0, count + 1) =~= all);
}

/// Appends the value axis and its ticks.
pub fn draw_y_axis_con(out: &mut Vec<Primitive>, scale: &ScaleTuple, axis: &AxisProperties)
    ensures
        final(out).deep_view() == old(out).deep_view() + value_axis_of(scale@, axis@),
{
    let bounds = axis.y_bounds();
    let step = axis.y_scale();
    let min = bounds.0;
    let max = bounds.1;
    let ghost start = out.deep_view();
    let ghost all = value_axis_of(scale@, axis@);
    let left = scale.left();
    emit(
        out,
        Primitive::ValueAxis {
            from: Point { x: left, y: value_y(scale, min, min, max) },
            to: Point { x: left, y: value_y(scale, max, min, max) },
            title: axis.y_title().clone(),
        },
    );
    let last: i64 = (max - min) / step;
    proof {
        vstd::arithmetic::div_mod::lemma_fundamental_div_mod((max - min) as int, step as int);
        vstd::arithmetic::div_mod::lemma_mod_bound((max - min) as int, step as int);
        assert(step * last == last * step) by (nonlinear_arith);
        assert(last >= 0) by (nonlinear_arith)
            requires
                last * step + step > 0,
                step > 0,
        ;
    }
    let mut k: i64 = 0;
    while k <= last
        invariant
            0 <= k <= last + 1,
            step > 0,
            min < max,
            -crate::axis::MAX_BOUND <= min,
            max <= crate::axis::MAX_BOUND,
            last * step <= max - min,
            last + 1 == tick_count(axis@),
            min == axis@.y_bounds.0,
            max == axis@.y_bounds.1,
            step == axis@.y_scale,
            all == value_axis_of(scale@, axis@),
            left@ == scale@.left,
            out.deep_view() == start + all.subrange(0, k + 1),
        decreases last + 1 - k,
    {
        assert(0 <= k * step <= last * step) by (nonlinear_arith)
            requires
                0 <= k <= last,
                step > 0,
        ;
        let value = min + k * step;
        let tick = Primitive::ValueTick {
            at: Point { x: left, y: value_y(scale, value, min, max) },
            value,
        };
        assert(tick.deep_view() == all[k + 1]);
        emit(out, tick);
        assert(out.deep_view() =~= start + all.subrange(0, k + 2));
        k += 1;
    }
    assert(all.subrange(0, last + 2) =~= all);
}

/// Appends the legend, one entry per label.
pub fn draw_legend(out: &mut Vec<Primitive>, scale: &ScaleTuple, entries: &Vec<String>)
    ensures
        final(out).deep_view() == old(out).deep_view() + legend_of(scale@, entries.deep_view()),
{
    let ghost start = out.deep_view();
    let ghost all = legend_of(scale@, entries.deep_view());
    let right = scale.right();
    let count = entries.len();
    let mut k: usize = 0;
    assert(out.deep_view() =~= start + all.subrange(0, 0));
    while k < count
        invariant
            k <= count,
            count == entries.len(),
            right@ == scale@.right,
            all == legend_of(scale@, entries.deep_view()),
            out.deep_view() == start + all.subrange(0, k as int),
        decreases count - k,
    {
        let entry = Primitive::LegendEntry {
            index: k,
            colour: color_for_index(k),
            at: Point { x: right, y: Ratio::from_parts(k as i128, count as i128) },
            text: entries[k].clone(),
        };
        assert(entry.deep_view() == all[k as int]);
        emit(out, entry);
        assert(out.deep_view() =~= start + all.subrange(0, k + 1));
        k += 1;
    }
    assert(all.subrange(0, count as int) =~= all);
}

/// The first primitive of a rendering: the effective size of the surface.
pub open spec fn canvas_of(chart: ChartView) -> PrimitiveView {
    PrimitiveView::Canvas {
        wide: chart.effective_width(),
        high: chart.chart_prop.surface_size.height,
        h_corr: chart.scale().h_corr,
        v_corr: chart.scale().v_corr,
    }
}

/// What follows the data in every rendering: the title, the category axis,
/// the value axis and, where one is shown, the legend.
pub open spec fn trailing_of(chart: ChartView) -> Seq<PrimitiveView> {
    seq![title_of(chart.scale(), chart.chart_prop.title)] + category_axis_of(
        chart.scale(),
        chart.data.labels,
        chart.axis_prop,
    ) + value_axis_of(chart.scale(), chart.axis_prop) + if chart.chart_prop.show_legend {
        legend_of(chart.scale(), chart.chart_prop.legend_entries)
    } else {
        Seq::empty()
    }
}

/// Appends what follows the data in every rendering.
pub fn draw_trailing(
    out: &mut Vec<Primitive>,
    data: &SeriesData,
    chart_prop: &ChartProperties,
    axis_prop: &AxisProperties,
)
    ensures
        final(out).deep_view() == old(out).deep_view() + trailing_of(
            ChartView { data: data@, chart_prop: chart_prop@, axis_prop: axis_prop@ },
        ),
{
    let ghost start = out.deep_view();
    let ghost chart = ChartView { data: data@, chart_prop: chart_prop@, axis_prop: axis_prop@ };
    let scale = plan(chart_prop.surface_size, chart_prop.show_legend);
    draw_title(out, &scale, &chart_prop.title);
    draw_x_axis_cat(out, &scale, data, axis_prop);
    draw_y_axis_con(out, &scale, axis_prop);
    if chart_prop.show_legend {
        draw_legend(out, &scale, &chart_prop.legend_entries);
    }
    assert(out.deep_view() =~= start + trailing_of(chart));
}

} // verus!
