//! The kinds of chart, behind one drawing contract.

use vstd::prelude::*;
use crate::data::ChartView;
use crate::histogram::Histogram;
use crate::line_chart::{line_drawing, LineChart};
use crate::primitive::{Primitive, PrimitiveView};
use crate::vertical_bar_chart::{bar_drawing, VerticalBarChart};

verus! {

/// A chart of one of the kinds that the crate draws.
#[derive(Debug, PartialEq, Eq)]
pub enum ChartType {
    /// A line chart.
    Line(LineChart),
    /// A vertical bar chart.
    VBar(VerticalBarChart),
    /// A histogram.
    Hist(Histogram),
}

impl View for ChartType {
    type V = ChartView;

    open spec fn view(&self) -> ChartView {
        match self {
            ChartType::Line(chart) => chart@,
            ChartType::VBar(chart) => chart@,
            ChartType::Hist(chart) => chart@,
        }
    }
}

impl Clone for ChartType {
    fn clone(&self) -> (r: Self)
        ensures
            r@ == self@,
            r.drawing() == self.drawing(),
    {
        match self {
            ChartType::Line(chart) => ChartType::Line(chart.clone()),
            ChartType::VBar(chart) => ChartType::VBar(chart.clone()),
            ChartType::Hist(chart) => ChartType::Hist(chart.clone()),
        }
    }
}

impl ChartType {
    /// The rendering of the chart: lines for a line chart, bars for the
    /// others.
    pub open spec fn drawing(&self) -> Seq<PrimitiveView> {
        match self {
            ChartType::Line(chart) => line_drawing(chart@),
            ChartType::VBar(chart) => bar_drawing(chart@),
            ChartType::Hist(chart) => bar_drawing(chart@),
        }
    }

    /// Lists what is to be drawn, in order.
    pub fn draw_chart(&self) -> (out: Vec<Primitive>)
        ensures
            out.deep_view() == self.drawing(),
    {
        match self {
            ChartType::Line(chart) => chart.draw_chart(),
            ChartType::VBar(chart) => chart.draw_chart(),
            ChartType::Hist(chart) => chart.draw_chart(),
        }
    }
}

} // verus!
