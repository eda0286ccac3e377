//! The line chart: a marker for every value, and a segment from each marker
//! to the one before it in its series.

use vstd::prelude::*;
use crate::axis::in_grid;
use crate::data::{AxisProperties, ChartProperties, ChartView, SeriesData, shape_error};
use crate::error::ChartError;
use crate::mapper::{category_centre, category_x, interval, value_y, y_formula};
use crate::primitive::{
    emit, series_colour, series_colour_of, stroke_for, stroke_of, Point, PointView, Primitive,
    PrimitiveView,
};
use crate::ratio::{Frac, Ratio};
use crate::render::{canvas_of, draw_trailing, trailing_of};
use crate::scale::{effective_width, marker_radius, plan};

verus! {

/// The place of the value of series `j` in category `i`.
pub open spec fn line_point(chart: ChartView, j: int, i: int) -> PointView {
    PointView {
        x: category_centre(chart.scale(), chart.data.labels.len() as int, i),
        y: y_formula(
            chart.scale(),
            chart.data.values[j][i] as int,
            chart.axis_prop.y_bounds.0,
            chart.axis_prop.y_bounds.1,
        ),
    }
}

/// The distance between two fractions over one denominator.
pub open spec fn gap(a: Frac, b: Frac) -> Frac {
    Frac {
        num: if a.num >= b.num {
            a.num - b.num
        } else {
            b.num - a.num
        },
        den: a.den,
    }
}

/// Over one positive denominator, [`gap`] is the difference of the larger
/// and the smaller fraction.
pub proof fn lemma_gap_is_distance(a: Frac, b: Frac)
    requires
        a.den == b.den,
        a.den > 0,
    ensures
        b.le(a) ==> gap(a, b).same(a.minus(b)),
        a.le(b) ==> gap(a, b).same(b.minus(a)),
        Frac::of(0).le(gap(a, b)),
{
    let d = a.den;
    assert(b.le(a) <==> b.num <= a.num) by (nonlinear_arith)
        requires
            b.le(a) <==> b.num * d <= a.num * d,
            d > 0,
    ;
    assert(a.le(b) <==> a.num <= b.num) by (nonlinear_arith)
        requires
            a.le(b) <==> a.num * d <= b.num * d,
            d > 0,
    ;
    assert((a.num - b.num) * (d * d) == (a.num * d - b.num * d) * d) by (nonlinear_arith);
    assert((b.num - a.num) * (d * d) == (b.num * d - a.num * d) * d) by (nonlinear_arith);
    assert(0 * d <= gap(a, b).num * 1) by (nonlinear_arith)
        requires
            gap(a, b).num >= 0,
    ;
}

/// The marker of the value of series `j` in category `i`.
pub open spec fn line_marker(chart: ChartView, j: int, i: int) -> PrimitiveView {
    PrimitiveView::Marker { centre: line_point(chart, j, i), radius: chart.marker_radius() }
}

/// The segment from the value of series `j` in category `i` back to the
/// value in the category before.  It spans one category sideways.
pub open spec fn line_segment(chart: ChartView, j: int, i: int) -> PrimitiveView {
    let from = line_point(chart, j, i);
    let to = line_point(chart, j, i - 1);
    PrimitiveView::Segment {
        from,
        to,
        stroke: stroke_of(
            chart.scale(),
            interval(chart.scale().h_corr, chart.data.labels.len() as int),
            gap(from.y, to.y),
        ),
    }
}

/// What is drawn for category `i` of series `j`: its marker and, but for the
/// first category, the segment back to the marker before.
pub open spec fn line_step(chart: ChartView, j: int, i: int) -> Seq<PrimitiveView> {
    if i == 0 {
        seq![line_marker(chart, j, i)]
    } else {
        seq![line_marker(chart, j, i), line_segment(chart, j, i)]
    }
}

/// What is drawn for the first `upto` categories of series `j`, after the
/// series' colour is chosen.
pub open spec fn line_series(chart: ChartView, j: int, upto: int) -> Seq<PrimitiveView>
    decreases upto,
{
    if upto <= 0 {
        seq![series_colour_of(j)]
    } else {
        line_series(chart, j, upto - 1) + line_step(chart, j, upto - 1)
    }
}

/// What is drawn for the first `upto` series.
pub open spec fn line_plot(chart: ChartView, upto: int) -> Seq<PrimitiveView>
    decreases upto,
{
    if upto <= 0 {
        Seq::empty()
    } else {
        line_plot(chart, upto - 1) + line_series(
            chart,
            upto - 1,
            chart.data.labels.len() as int,
        )
    }
}

/// Every marker of a chart lies on the surface.
pub proof fn lemma_line_points_on_surface(chart: ChartView, j: int, i: int)
    requires
        chart.wf(false),
        0 <= j < chart.data.values.len(),
        0 <= i < chart.data.labels.len(),
    ensures
        ({
            let p = line_point(chart, j, i);
            &&& p.x.wf() && Frac::of(0).lt(p.x) && p.x.lt(Frac::of(1))
            &&& p.y.wf() && Frac::of(0).le(p.y) && p.y.le(Frac::of(1))
        }),
{
    let size = chart.chart_prop.surface_size;
    assert(in_grid(chart.data.values, j, i));
    crate::mapper::lemma_category_centre_on_surface(
        size.width,
        size.height,
        chart.chart_prop.show_legend,
        chart.data.labels.len() as int,
        i,
    );
    crate::mapper::lemma_value_on_surface(
        size.width,
        size.height,
        chart.chart_prop.show_legend,
        chart.data.values[j][i] as int,
        chart.axis_prop.y_bounds.0,
        chart.axis_prop.y_bounds.1,
    );
}

/// A series of `count` categories is drawn as its colour, `count` markers
/// and `count - 1` segments; `series` such series take `2 * count` primitives
/// each.
pub proof fn lemma_line_plot_len(chart: ChartView, series: int)
    requires
        chart.data.labels.len() > 0,
        series >= 0,
    ensures
        line_series(chart, 0, chart.data.labels.len() as int).len() == 2 * chart.data.labels.len(),
        line_plot(chart, series).len() == series * (2 * chart.data.labels.len()),
    decreases series,
{
    let count = chart.data.labels.len() as int;
    lemma_line_series_len(chart, 0, count);
    if series > 0 {
        lemma_line_plot_len(chart, series - 1);
        lemma_line_series_len(chart, series - 1, count);
        assert(series * (2 * count) == (series - 1) * (2 * count) + 2 * count)
            by (nonlinear_arith);
    }
}

proof fn lemma_line_series_len(chart: ChartView, j: int, upto: int)
    requires
        upto >= 0,
    ensures
        line_series(chart, j, upto).len() == if upto == 0 {
            1int
        } else {
            2 * upto
        },
    decreases upto,
{
    if upto > 0 {
        lemma_line_series_len(chart, j, upto - 1);
    }
}

/// The rendering of a line chart: the canvas, the series in order, then the
/// title, the axes and the legend.
pub open spec fn line_drawing(chart: ChartView) -> Seq<PrimitiveView> {
    seq![canvas_of(chart)] + line_plot(chart, chart.data.values.len() as int) + trailing_of(chart)
}

/// A line chart: trends over categories, one line per series.
#[derive(Debug, PartialEq, Eq)]
pub struct LineChart {
    data: SeriesData,
    chart_prop: ChartProperties,
    axis_prop: AxisProperties,
}

impl View for LineChart {
    type V = ChartView;

    closed spec fn view(&self) -> ChartView {
        ChartView { data: self.data@, chart_prop: self.chart_prop@, axis_prop: self.axis_prop@ }
    }
}

impl Clone for LineChart {
    fn clone(&self) -> (r: Self)
        ensures
            r@ == self@,
    {
        proof {
            use_type_invariant(self);
        }
        LineChart {
            data: self.data.clone(),
            chart_prop: self.chart_prop.clone(),
            axis_prop: self.axis_prop.clone(),
        }
    }
}

impl LineChart {
    #[verifier::type_invariant]
    spec fn inv(self) -> bool {
        self@.wf(false)
    }

    /// A line chart of the given data.  `new_data_labels` names the
    /// categories; `new_data` holds, for each series, one value per category.
    pub fn new(chart_title: String, new_data_labels: Vec<String>, new_data: Vec<Vec<i32>>) -> (r:
        Result<LineChart, ChartError>)
        ensures
            match shape_error(new_data_labels.len() as int, new_data.deep_view()) {
                Some(e) => r == Err::<LineChart, ChartError>(e),
                None => r matches Ok(c) && c@ == ChartView::fresh(
                    chart_title@,
                    new_data_labels.deep_view(),
                    new_data.deep_view(),
                    false,
                ) && c@.wf(false),
            },
    {
        match SeriesData::new(new_data_labels, new_data) {
            Err(e) => Err(e),
            Ok(data) => {
                let axis_prop = AxisProperties::for_data(&data, false);
                let chart_prop = ChartProperties::new(chart_title);
                Ok(LineChart { data, chart_prop, axis_prop })
            },
        }
    }

    /// Replaces the chart by a new one of the given data.  Data that is
    /// refused leaves the chart as it was.
    pub fn set_data(&mut self, chart_title: String, data_labels: Vec<String>, data: Vec<Vec<i32>>)
        -> (r: Result<(), ChartError>)
        ensures
            match shape_error(data_labels.len() as int, data.deep_view()) {
                Some(e) => r == Err::<(), ChartError>(e) && *final(self) == *old(self),
                None => r == Ok::<(), ChartError>(()) && final(self)@ == ChartView::fresh(
                    chart_title@,
                    data_labels.deep_view(),
                    data.deep_view(),
                    false,
                ),
            },
    {
        match LineChart::new(chart_title, data_labels, data) {
            Err(e) => Err(e),
            Ok(chart) => {
                *self = chart;
                Ok(())
            },
        }
    }

    /// The data of the chart.
    pub fn data(&self) -> (d: &SeriesData)
        ensures
            d@ == self@.data,
            self@.wf(false),
    {
        proof {
            use_type_invariant(self);
        }
        &self.data
    }

    /// The properties of the chart.
    pub fn get_chart_prop(&self) -> (p: &ChartProperties)
        ensures
            p@ == self@.chart_prop,
            self@.wf(false),
    {
        proof {
            use_type_invariant(self);
        }
        &self.chart_prop
    }

    /// The axes of the chart.
    pub fn get_axis_prop(&self) -> (a: &AxisProperties)
        ensures
            a@ == self@.axis_prop,
            self@.wf(false),
    {
        proof {
            use_type_invariant(self);
        }
        &self.axis_prop
    }

    /// Replaces the properties of the chart.
    pub fn set_chart_prop(&mut self, chart_prop: ChartProperties)
        ensures
            final(self)@ == (ChartView { chart_prop: chart_prop@, ..old(self)@ }),
    {
        proof {
            use_type_invariant(&*self);
        }
        let _ = chart_prop.surface_size.width();
        self.chart_prop = chart_prop;
    }

    /// Gives the two axes their titles.
    pub fn set_axis_titles(&mut self, x_title: String, y_title: String)
        ensures
            final(self)@ == (ChartView {
                axis_prop: crate::data::AxisView {
                    x_title: x_title@,
                    y_title: y_title@,
                    ..old(self)@.axis_prop
                },
                ..old(self)@
            }),
    {
        proof {
            use_type_invariant(&*self);
        }
        self.axis_prop.set_x_title(x_title);
        self.axis_prop.set_y_title(y_title);
    }

    /// Lists what is to be drawn, in order.
    #[verifier::loop_isolation(false)]
    pub fn draw_chart(&self) -> (out: Vec<Primitive>)
        ensures
            out.deep_view() == line_drawing(self@),
    {
        proof {
            use_type_invariant(self);
        }
        let ghost chart = self@;
        let size = self.chart_prop.surface_size;
        let show_legend = self.chart_prop.show_legend;
        let wide = effective_width(size, show_legend);
        let scale = plan(size, show_legend);
        let radius = marker_radius(&scale, wide, size.height());
        let bounds = self.axis_prop.y_bounds();
        let count = self.data.label_count();
        let values = self.data.values();
        let h = scale.h_corr();
        assert(0 < h@.den * count <= 85196 * 0xFFFF_FFFF) by (nonlinear_arith)
            requires
                0 < h@.den <= 85196,
                0 < count <= 0xFFFF_FFFF,
        ;
        let dx = Ratio::from_parts(h.num() * 1, h.den() * (count as i128));

        let mut out: Vec<Primitive> = Vec::new();
        emit(
            &mut out,
            Primitive::Canvas {
                wide,
                high: size.height(),
                h_corr: scale.h_corr(),
                v_corr: scale.v_corr(),
            },
        );
        assert(out.deep_view() =~= seq![canvas_of(chart)] + line_plot(chart, 0));
        let mut j: usize = 0;
        while j < values.len()
            invariant
                j <= values.len(),
                out.deep_view() == seq![canvas_of(chart)] + line_plot(chart, j as int),
            decreases values.len() - j,
        {
            let ghost before = out.deep_view();
            let row = &values[j];
            assert(row@ == chart.data.values[j as int]);
            emit(&mut out, series_colour(j));
            assert(out.deep_view() =~= before + line_series(chart, j as int, 0));
            let mut previous = Point { x: Ratio::zero(), y: Ratio::zero() };
            let mut i: usize = 0;
            while i < count
                invariant
                    i <= count,
                    j < values.len(),
                    row@ == chart.data.values[j as int],
                    out.deep_view() == before + line_series(chart, j as int, i as int),
                    i > 0 ==> previous.deep_view() == line_point(chart, j as int, i - 1),
                    -0x10_0000_0000_0000_0000_0000_0000 < previous.y@.num
                        < 0x10_0000_0000_0000_0000_0000_0000,
                decreases count - i,
            {
                let value = row[i];
                let here = Point {
                    x: category_x(&scale, count, i),
                    y: value_y(&scale, value as i64, bounds.0, bounds.1),
                };
                assert(here.deep_view() == line_point(chart, j as int, i as int));
                let ghost so_far = out.deep_view();
                emit(&mut out, Primitive::Marker { centre: here, radius });
                if i != 0 {
                    let a = here.y.num();
                    let b = previous.y.num();
                    let dy = Ratio::from_parts(
                        if a >= b {
                            a - b
                        } else {
                            b - a
                        },
                        here.y.den(),
                    );
                    assert(dy@ == gap(here.y@, previous.y@));
                    let stroke = stroke_for(&scale, dx, dy);
                    emit(&mut out, Primitive::Segment { from: here, to: previous, stroke });
                }
                assert(out.deep_view() =~= so_far + line_step(chart, j as int, i as int));
                assert(out.deep_view() =~= before + line_series(chart, j as int, i + 1));
                previous = here;
                i += 1;
            }
            assert(out.deep_view() =~= seq![canvas_of(chart)] + line_plot(chart, j + 1));
            j += 1;
        }
        draw_trailing(&mut out, &self.data, &self.chart_prop, &self.axis_prop);
        out
    }
}

} // verus!
