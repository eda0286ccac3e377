//! The histogram: the counts of bins that a collaborator has made, drawn as
//! the bars of a single series with the bin edges as categories.

use vstd::prelude::*;
use crate::data::{ChartView, shape_error};
use crate::error::ChartError;
use crate::primitive::Primitive;
use crate::vertical_bar_chart::{bar_drawing, VerticalBarChart};

verus! {

/// A histogram of counts per bin.
#[derive(Debug, PartialEq, Eq)]
pub struct Histogram {
    bars: VerticalBarChart,
}

impl View for Histogram {
    type V = ChartView;

    closed spec fn view(&self) -> ChartView {
        self.bars@
    }
}

impl Clone for Histogram {
    fn clone(&self) -> (r: Self)
        ensures
            r@ == self@,
    {
        Histogram { bars: self.bars.clone() }
    }
}

impl Histogram {
    /// A histogram of the given bins.  `bin_labels` names the bins by their
    /// edges; `counts` holds one count per bin.
    pub fn new(chart_title: String, bin_labels: Vec<String>, counts: Vec<i32>) -> (r: Result<
        Histogram,
        ChartError,
    >)
        ensures
            match shape_error(bin_labels.len() as int, seq![counts@]) {
                Some(e) => r == Err::<Histogram, ChartError>(e),
                None => r matches Ok(c) && c@ == ChartView::fresh(
                    chart_title@,
                    bin_labels.deep_view(),
                    seq![counts@],
                    true,
                ) && c@.wf(true),
            },
    {
        let ghost bins = counts@;
        assert(counts.deep_view() =~= bins);
        let mut series: Vec<Vec<i32>> = Vec::new();
        series.push(counts);
        assert(series.deep_view() =~= seq![bins]);
        match VerticalBarChart::new(chart_title, bin_labels, series) {
            Err(e) => Err(e),
            Ok(bars) => Ok(Histogram { bars }),
        }
    }

    /// The bar chart that draws the histogram.
    pub fn bars(&self) -> (b: &VerticalBarChart)
        ensures
            b@ == self@,
    {
        &self.bars
    }

    /// Lists what is to be drawn, in order: the bars of the one series.
    pub fn draw_chart(&self) -> (out: Vec<Primitive>)
        ensures
            out.deep_view() == bar_drawing(self@),
    {
        self.bars.draw_chart()
    }
}

} // verus!
