//! What a chart asks its host to draw.
//!
//! A rendering is an ordered list of [`Primitive`]s.  Positions and lengths
//! are fractions of the effective surface, whose size the first primitive
//! gives.

use vstd::prelude::*;
use crate::palette::Colour;
use crate::ratio::{Frac, Ratio};
use crate::scale::{ScaleTuple, ScaleView};

verus! {

/// A place on the surface.
#[derive(Clone, Copy, Debug, PartialEq, Eq)]
pub struct Point {
    pub x: Ratio,
    pub y: Ratio,
}

/// The mathematical value of a [`Point`].
pub struct PointView {
    pub x: Frac,
    pub y: Frac,
}

impl DeepView for Point {
    type V = PointView;

    open spec fn deep_view(&self) -> PointView {
        PointView { x: self.x@, y: self.y@ }
    }
}

/// How wide the stroke of a segment is.
#[derive(Clone, Copy, Debug, PartialEq, Eq)]
pub enum Stroke {
    /// The segment does not rise or fall; its stroke has the given width.
    Horizontal { width: Ratio },
    /// The segment does not move sideways; its stroke has the given width.
    Vertical { width: Ratio },
    /// The segment spans `dx` sideways and `dy` in height, neither of them
    /// zero.  Its stroke is as wide as `level` where it runs level and as
    /// wide as `upright` where it runs upright; the host weighs the two by
    /// the angles of the slope, `atan(dx / dy)` and `atan(dy / dx)`, each
    /// taken as a share of the right angle.
    Slanted { dx: Ratio, dy: Ratio, level: Ratio, upright: Ratio },
}

/// The mathematical value of a [`Stroke`].
pub enum StrokeView {
    Horizontal { width: Frac },
    Vertical { width: Frac },
    Slanted { dx: Frac, dy: Frac, level: Frac, upright: Frac },
}

impl DeepView for Stroke {
    type V = StrokeView;

    open spec fn deep_view(&self) -> StrokeView {
        match *self {
            Stroke::Horizontal { width } => StrokeView::Horizontal { width: width@ },
            Stroke::Vertical { width } => StrokeView::Vertical { width: width@ },
            Stroke::Slanted { dx, dy, level, upright } => StrokeView::Slanted {
                dx: dx@,
                dy: dy@,
                level: level@,
                upright: upright@,
            },
        }
    }
}

/// One drawing command.
#[derive(Clone, Debug, PartialEq, Eq)]
pub enum Primitive {
    /// The effective size of the surface that the positions refer to, and
    /// the two factors by which round marks are scaled to stay round.
    Canvas { wide: u32, high: u16, h_corr: Ratio, v_corr: Ratio },
    /// What follows is drawn in the colour of the series with this index.
    SeriesColour { index: usize, colour: Colour },
    /// A filled circle.
    Marker { centre: Point, radius: Ratio },
    /// A straight line between two points.
    Segment { from: Point, to: Point, stroke: Stroke },
    /// A filled rectangle with a corner at `(x, y)`.  A negative `height`
    /// reaches upward on the surface.
    Bar { x: Ratio, y: Ratio, width: Ratio, height: Ratio },
    /// The chart's title, anchored at the upper left corner of the plot
    /// rectangle.
    Title { at: Point, text: String },
    /// The category axis: a line at the height of the value zero, under all
    /// categories.
    CategoryAxis { from: Point, to: Point, title: String },
    /// The label of one category, below the centre of the category on the
    /// category axis.
    CategoryLabel { at: Point, text: String },
    /// The value axis: a line at the left of the plot rectangle, from the
    /// height of the lower bound to the height of the upper bound.
    ValueAxis { from: Point, to: Point, title: String },
    /// A tick on the value axis, for the value `value`.
    ValueTick { at: Point, value: i64 },
    /// One entry of the legend: a swatch in the colour of the series with
    /// this index, and its label, in a row of the legend band that starts
    /// at `at`.
    LegendEntry { index: usize, colour: Colour, at: Point, text: String },
}

/// The mathematical value of a [`Primitive`].
pub enum PrimitiveView {
    Canvas { wide: int, high: int, h_corr: Frac, v_corr: Frac },
    SeriesColour { index: int, colour: Colour },
    Marker { centre: PointView, radius: Frac },
    Segment { from: PointView, to: PointView, stroke: StrokeView },
    Bar { x: Frac, y: Frac, width: Frac, height: Frac },
    Title { at: PointView, text: Seq<char> },
    CategoryAxis { from: PointView, to: PointView, title: Seq<char> },
    CategoryLabel { at: PointView, text: Seq<char> },
    ValueAxis { from: PointView, to: PointView, title: Seq<char> },
    ValueTick { at: PointView, value: int },
    LegendEntry { index: int, colour: Colour, at: PointView, text: Seq<char> },
}

impl DeepView for Primitive {
    type V = PrimitiveView;

    open spec fn deep_view(&self) -> PrimitiveView {
        match *self {
            Primitive::Canvas { wide, high, h_corr, v_corr } => PrimitiveView::Canvas {
                wide: wide as int,
                high: high as int,
                h_corr: h_corr@,
                v_corr: v_corr@,
            },
            Primitive::SeriesColour { index, colour } => PrimitiveView::SeriesColour {
                index: index as int,
                colour,
            },
            Primitive::Marker { centre, radius } => PrimitiveView::Marker {
                centre: centre.deep_view(),
                radius: radius@,
            },
            Primitive::Segment { from, to, stroke } => PrimitiveView::Segment {
                from: from.deep_view(),
                to: to.deep_view(),
                stroke: stroke.deep_view(),
            },
            Primitive::Bar { x, y, width, height } => PrimitiveView::Bar {
                x: x@,
                y: y@,
                width: width@,
                height: height@,
            },
            Primitive::Title { at, text } => PrimitiveView::Title {
                at: at.deep_view(),
                text: text@,
            },
            Primitive::CategoryAxis { from, to, title } => PrimitiveView::CategoryAxis {
                from: from.deep_view(),
                to: to.deep_view(),
                title: title@,
            },
            Primitive::CategoryLabel { at, text } => PrimitiveView::CategoryLabel {
                at: at.deep_view(),
                text: text@,
            },
            Primitive::ValueAxis { from, to, title } => PrimitiveView::ValueAxis {
                from: from.deep_view(),
                to: to.deep_view(),
                title: title@,
            },
            Primitive::ValueTick { at, value } => PrimitiveView::ValueTick {
                at: at.deep_view(),
                value: value as int,
            },
            Primitive::LegendEntry { index, colour, at, text } => PrimitiveView::LegendEntry {
                index: index as int,
                colour,
                at: at.deep_view(),
                text: text@,
            },
        }
    }
}

/// Appends one primitive to a rendering.
pub(crate) fn emit(out: &mut Vec<Primitive>, primitive: Primitive)
    ensures
        final(out).deep_view() == old(out).deep_view().push(primitive.deep_view()),
{
    out.push(primitive);
    assert(out.deep_view() =~= old(out).deep_view().push(primitive.deep_view()));
}

/// The width of a stroke before it is weighed by a correction factor: five
/// thousandths of the surface.
pub open spec fn base_stroke() -> Frac {
    Frac { num: 5, den: 1000 }
}

/// The stroke of a segment that spans `dx` sideways and `dy` in height.  A
/// segment without height is horizontal and takes the vertical factor alone,
/// one without width is vertical and takes the horizontal factor alone; any
/// other takes a share of both.
pub open spec fn stroke_of(scale: ScaleView, dx: Frac, dy: Frac) -> StrokeView {
    let level = base_stroke().times(scale.v_corr);
    let upright = base_stroke().times(scale.h_corr);
    if dy.num == 0 {
        StrokeView::Horizontal { width: level }
    } else if dx.num == 0 {
        StrokeView::Vertical { width: upright }
    } else {
        StrokeView::Slanted { dx, dy, level, upright }
    }
}

/// The stroke of a segment that spans `dx` sideways and `dy` in height.
pub fn stroke_for(scale: &ScaleTuple, dx: Ratio, dy: Ratio) -> (s: Stroke)
    ensures
        s.deep_view() == stroke_of(scale@, dx@, dy@),
{
    let v = scale.v_corr();
    let h = scale.h_corr();
    let level = Ratio::from_parts(5 * v.num(), 1000 * v.den());
    let upright = Ratio::from_parts(5 * h.num(), 1000 * h.den());
    if dy.num() == 0 {
        Stroke::Horizontal { width: level }
    } else if dx.num() == 0 {
        Stroke::Vertical { width: upright }
    } else {
        Stroke::Slanted { dx, dy, level, upright }
    }
}

/// The choice of the colour of series `j`.
pub open spec fn series_colour_of(j: int) -> PrimitiveView {
    PrimitiveView::SeriesColour { index: j, colour: crate::palette::colour_of(j) }
}

/// The choice of the colour of the series with the given index.
pub fn series_colour(index: usize) -> (p: Primitive)
    ensures
        p.deep_view() == series_colour_of(index as int),
{
    Primitive::SeriesColour { index, colour: crate::palette::color_for_index(index) }
}

} // verus!
