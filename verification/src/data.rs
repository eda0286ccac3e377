//! The chart model: the data of a chart and its properties.

use vstd::prelude::*;
use crate::axis::{
    axis_for, axis_from_extremes, axis_kind, axis_kind_of, data_extremes, data_max, data_min,
    in_grid, AxisKind, MAX_BOUND,
};
use crate::error::ChartError;
use crate::mapper::MAX_COUNT;
use crate::ratio::{Frac, Ratio};
use crate::scale::{SurfaceSize, SurfaceView};

verus! {

/// The mathematical value of a [`SeriesData`]: the labels of the categories,
/// and for each series one value per category.
pub struct SeriesView {
    pub labels: Seq<Seq<char>>,
    pub values: Seq<Seq<i32>>,
}

impl SeriesView {
    /// There is a category and a series, every series holds one value per
    /// category, and neither count exceeds [`MAX_COUNT`].
    pub open spec fn wf(self) -> bool {
        &&& 0 < self.labels.len() <= MAX_COUNT
        &&& 0 < self.values.len() <= MAX_COUNT
        &&& forall|j: int|
            0 <= j < self.values.len() ==> (#[trigger] self.values[j]).len() == self.labels.len()
    }
}

/// Some series does not hold `labels` values.
pub open spec fn is_ragged(labels: int, values: Seq<Seq<i32>>) -> bool {
    exists|j: int| 0 <= j < values.len() && (#[trigger] values[j]).len() != labels
}

/// What is wrong with data of `labels` categories and the given series, if
/// anything.  An empty dataset is reported before a ragged one, and a ragged
/// one before one that is too large.
pub open spec fn shape_error(labels: int, values: Seq<Seq<i32>>) -> Option<ChartError> {
    if labels == 0 || values.len() == 0 {
        Some(ChartError::EmptyDataset)
    } else if is_ragged(labels, values) {
        Some(ChartError::InvalidSeriesShape)
    } else if labels > MAX_COUNT || values.len() > MAX_COUNT {
        Some(ChartError::DatasetTooLarge)
    } else {
        None
    }
}

/// Labelled series: one label per category, and for each series one value
/// per category.  The values are whole numbers of a unit that the caller
/// chooses, such as thousandths.
#[derive(Debug, PartialEq, Eq)]
pub struct SeriesData {
    labels: Vec<String>,
    values: Vec<Vec<i32>>,
}

impl View for SeriesData {
    type V = SeriesView;

    closed spec fn view(&self) -> SeriesView {
        SeriesView { labels: self.labels.deep_view(), values: self.values.deep_view() }
    }
}

impl SeriesData {
    #[verifier::type_invariant]
    spec fn inv(self) -> bool {
        self@.wf()
    }

    /// Checks the shape of the data and takes it.
    pub fn new(labels: Vec<String>, values: Vec<Vec<i32>>) -> (r: Result<SeriesData, ChartError>)
        ensures
            match shape_error(labels.len() as int, values.deep_view()) {
                Some(e) => r == Err::<SeriesData, ChartError>(e),
                None => r matches Ok(d) && d@ == (SeriesView {
                    labels: labels.deep_view(),
                    values: values.deep_view(),
                }) && d@.wf(),
            },
    {
        let count = labels.len();
        if count == 0 || values.len() == 0 {
            return Err(ChartError::EmptyDataset);
        }
        let ghost grid = values.deep_view();
        let mut j: usize = 0;
        while j < values.len()
            invariant
                j <= values.len(),
                count == labels.len(),
                count != 0,
                grid == values.deep_view(),
                forall|k: int| 0 <= k < j ==> (#[trigger] grid[k]).len() == count,
            decreases values.len() - j,
        {
            if values[j].len() != count {
                assert(grid[j as int].len() != count);
                return Err(ChartError::InvalidSeriesShape);
            }
            j += 1;
        }
        if count > MAX_COUNT || values.len() > MAX_COUNT {
            return Err(ChartError::DatasetTooLarge);
        }
        Ok(SeriesData { labels, values })
    }

    /// The number of categories.
    pub fn label_count(&self) -> (n: usize)
        ensures
            n == self@.labels.len(),
            self@.wf(),
    {
        proof {
            use_type_invariant(self);
        }
        self.labels.len()
    }

    /// The number of series.
    pub fn series_count(&self) -> (n: usize)
        ensures
            n == self@.values.len(),
            self@.wf(),
    {
        proof {
            use_type_invariant(self);
        }
        self.values.len()
    }

    /// The labels of the categories.
    pub fn labels(&self) -> (r: &Vec<String>)
        ensures
            r.deep_view() == self@.labels,
            self@.wf(),
    {
        proof {
            use_type_invariant(self);
        }
        &self.labels
    }

    /// The values, series by series.
    pub fn values(&self) -> (r: &Vec<Vec<i32>>)
        ensures
            r.deep_view() == self@.values,
            self@.wf(),
    {
        proof {
            use_type_invariant(self);
        }
        &self.values
    }
}

/// A copy of the given strings.
pub fn clone_strings(strings: &Vec<String>) -> (r: Vec<String>)
    ensures
        r.deep_view() == strings.deep_view(),
{
    let mut out: Vec<String> = Vec::new();
    let mut i: usize = 0;
    while i < strings.len()
        invariant
            i <= strings.len(),
            out.len() == i,
            forall|k: int| 0 <= k < i ==> (#[trigger] out[k])@ == strings[k]@,
        decreases strings.len() - i,
    {
        out.push(strings[i].clone());
        i += 1;
    }
    assert(out.deep_view() =~= strings.deep_view());
    out
}

/// A copy of the given series.
pub fn clone_series(series: &Vec<Vec<i32>>) -> (r: Vec<Vec<i32>>)
    ensures
        r.deep_view() == series.deep_view(),
{
    let mut out: Vec<Vec<i32>> = Vec::new();
    let mut j: usize = 0;
    while j < series.len()
        invariant
            j <= series.len(),
            out.len() == j,
            forall|k: int| 0 <= k < j ==> (#[trigger] out[k])@ == series[k]@,
        decreases series.len() - j,
    {
        let row = &series[j];
        let mut copy: Vec<i32> = Vec::new();
        let mut i: usize = 0;
        while i < row.len()
            invariant
                i <= row.len(),
                copy.len() == i,
                forall|k: int| 0 <= k < i ==> #[trigger] copy[k] == row[k],
            decreases row.len() - i,
        {
            copy.push(row[i]);
            i += 1;
        }
        assert(copy@ =~= row@);
        out.push(copy);
        j += 1;
    }
    assert(out.deep_view() =~~= series.deep_view());
    out
}

impl Clone for SeriesData {
    fn clone(&self) -> (r: Self)
        ensures
            r@ == self@,
    {
        proof {
            use_type_invariant(self);
        }
        SeriesData { labels: clone_strings(&self.labels), values: clone_series(&self.values) }
    }
}

/// The mathematical value of a [`ChartProperties`].
pub struct ChartPropView {
    pub title: Seq<char>,
    pub legend_entries: Seq<Seq<char>>,
    pub surface_size: SurfaceView,
    pub show_legend: bool,
}

/// What a chart shows besides its data.
#[derive(Debug, PartialEq, Eq)]
pub struct ChartProperties {
    /// The title above the plot.
    pub title: String,
    /// The legend's labels, in the order of the series.
    pub legend_entries: Vec<String>,
    /// The size of the surface, without the legend band.
    pub surface_size: SurfaceSize,
    /// Whether a legend is drawn beside the plot.
    pub show_legend: bool,
}

impl View for ChartProperties {
    type V = ChartPropView;

    open spec fn view(&self) -> ChartPropView {
        ChartPropView {
            title: self.title@,
            legend_entries: self.legend_entries.deep_view(),
            surface_size: self.surface_size@,
            show_legend: self.show_legend,
        }
    }
}

impl Clone for ChartProperties {
    fn clone(&self) -> (r: Self)
        ensures
            r@ == self@,
    {
        ChartProperties {
            title: self.title.clone(),
            legend_entries: clone_strings(&self.legend_entries),
            surface_size: self.surface_size,
            show_legend: self.show_legend,
        }
    }
}

/// The properties of a new chart with the given title: no legend, on an 800
/// by 600 surface.
pub open spec fn initial_properties(title: Seq<char>) -> ChartPropView {
    ChartPropView {
        title,
        legend_entries: Seq::empty(),
        surface_size: SurfaceView { width: 800, height: 600 },
        show_legend: false,
    }
}

impl ChartProperties {
    /// The properties of a new chart with the given title.
    pub fn new(title: String) -> (p: ChartProperties)
        ensures
            p@ == initial_properties(title@),
    {
        let p = ChartProperties {
            title,
            legend_entries: Vec::new(),
            surface_size: SurfaceSize::standard(),
            show_legend: false,
        };
        assert(p.legend_entries.deep_view() =~= Seq::<Seq<char>>::empty());
        p
    }
}

/// The mathematical value of an [`AxisProperties`].
pub struct AxisView {
    pub x_bounds: (int, int),
    pub y_bounds: (int, int),
    pub x_scale: Frac,
    pub y_scale: int,
    pub axis_kind: AxisKind,
    pub x_title: Seq<char>,
    pub y_title: Seq<char>,
}

impl AxisView {
    /// The value axis has an extent and a positive tick step, both bounds are
    /// multiples of the step, the kind says whether the bounds lie about
    /// zero, and the category axis gives every category the same share.
    pub open spec fn wf(self) -> bool {
        &&& self.y_bounds.0 < self.y_bounds.1
        &&& -MAX_BOUND <= self.y_bounds.0
        &&& self.y_bounds.1 <= MAX_BOUND
        &&& self.y_scale > 0
        &&& self.y_bounds.0 % self.y_scale == 0
        &&& self.y_bounds.1 % self.y_scale == 0
        &&& self.axis_kind == axis_kind_of(self.y_bounds.0, self.y_bounds.1)
        &&& self.x_scale.num == 1
        &&& 0 < self.x_scale.den <= MAX_COUNT
        &&& self.x_bounds == (0int, 0int)
    }

    /// No value of the data lies outside the bounds of the value axis.
    pub open spec fn spans(self, data: SeriesView) -> bool {
        forall|j: int, i: int| #[trigger]
            in_grid(data.values, j, i) ==> self.y_bounds.0 <= data.values[j][i] <= self.y_bounds.1
    }

    /// The axes are those that [`axes_for`] derives from the data, whatever
    /// their titles.
    pub open spec fn derived_from(self, data: SeriesView, force_include_zero: bool) -> bool {
        self == (AxisView {
            x_title: self.x_title,
            y_title: self.y_title,
            ..axes_for(data, force_include_zero)
        })
    }
}

/// The axes of a chart of the given data, without titles.  The category axis
/// has no numeric bounds and gives each category the share `1 / count`; the
/// value axis has the bounds and the step of [`axis_for`].
pub open spec fn axes_for(data: SeriesView, force_include_zero: bool) -> AxisView {
    let a = axis_for(data_min(data.values), data_max(data.values), force_include_zero);
    AxisView {
        x_bounds: (0, 0),
        y_bounds: a.0,
        x_scale: Frac { num: 1, den: data.labels.len() as int },
        y_scale: a.1,
        axis_kind: axis_kind_of(a.0.0, a.0.1),
        x_title: Seq::empty(),
        y_title: Seq::empty(),
    }
}

/// The bounds, scales, kind and titles of a chart's two axes.
#[derive(Debug, PartialEq, Eq)]
pub struct AxisProperties {
    x_min: i64,
    x_max: i64,
    y_min: i64,
    y_max: i64,
    x_scale: Ratio,
    y_scale: i64,
    axis_kind: AxisKind,
    x_title: String,
    y_title: String,
}

impl View for AxisProperties {
    type V = AxisView;

    closed spec fn view(&self) -> AxisView {
        AxisView {
            x_bounds: (self.x_min as int, self.x_max as int),
            y_bounds: (self.y_min as int, self.y_max as int),
            x_scale: self.x_scale@,
            y_scale: self.y_scale as int,
            axis_kind: self.axis_kind,
            x_title: self.x_title@,
            y_title: self.y_title@,
        }
    }
}

impl Clone for AxisProperties {
    fn clone(&self) -> (r: Self)
        ensures
            r@ == self@,
    {
        proof {
            use_type_invariant(self);
        }
        AxisProperties {
            x_min: self.x_min,
            x_max: self.x_max,
            y_min: self.y_min,
            y_max: self.y_max,
            x_scale: self.x_scale,
            y_scale: self.y_scale,
            axis_kind: self.axis_kind,
            x_title: self.x_title.clone(),
            y_title: self.y_title.clone(),
        }
    }
}

impl AxisProperties {
    #[verifier::type_invariant]
    spec fn inv(self) -> bool {
        self@.wf()
    }

    /// Derives the axes from the data.  With `force_include_zero` the value
    /// axis takes in zero, as bars need it.
    pub fn for_data(data: &SeriesData, force_include_zero: bool) -> (a: AxisProperties)
        ensures
            a@ == axes_for(data@, force_include_zero),
            a@.wf(),
            a@.axis_kind == AxisKind::DoubleVertical <==> a@.y_bounds.0 < 0 < a@.y_bounds.1,
            forall|j: int, i: int| #[trigger]
                in_grid(data@.values, j, i) ==> a@.y_bounds.0 <= data@.values[j][i]
                    <= a@.y_bounds.1,
            force_include_zero ==> a@.y_bounds.0 <= 0 <= a@.y_bounds.1,
    {
        let values = data.values();
        let count = data.label_count();
        proof {
            assert(values.deep_view()[0].len() == count);
            assert(in_grid(values.deep_view(), 0, 0));
        }
        let extremes = data_extremes(values).unwrap();
        proof {
            let grid = values.deep_view();
            assert forall|j: int, i: int| #[trigger] in_grid(grid, j, i) implies extremes.0
                <= grid[j][i] <= extremes.1 by {}
        }
        let axis = axis_from_extremes(extremes.0, extremes.1, force_include_zero);
        let a = AxisProperties {
            x_min: 0,
            x_max: 0,
            y_min: axis.0.0,
            y_max: axis.0.1,
            x_scale: Ratio::from_parts(1, count as i128),
            y_scale: axis.1,
            axis_kind: axis_kind(axis.0.0, axis.0.1),
            x_title: String::new(),
            y_title: String::new(),
        };
        a
    }

    /// The bounds of the category axis, which has none: `(0, 0)`.
    pub fn x_bounds(&self) -> (b: (i64, i64))
        ensures
            (b.0 as int, b.1 as int) == self@.x_bounds,
            self@.wf(),
    {
        proof {
            use_type_invariant(self);
        }
        (self.x_min, self.x_max)
    }

    /// The bounds of the value axis.
    pub fn y_bounds(&self) -> (b: (i64, i64))
        ensures
            (b.0 as int, b.1 as int) == self@.y_bounds,
            self@.wf(),
    {
        proof {
            use_type_invariant(self);
        }
        (self.y_min, self.y_max)
    }

    /// The share of the category axis that one category takes.
    pub fn x_scale(&self) -> (s: Ratio)
        ensures
            s@ == self@.x_scale,
            self@.wf(),
    {
        proof {
            use_type_invariant(self);
        }
        self.x_scale
    }

    /// The distance between two ticks of the value axis.
    pub fn y_scale(&self) -> (s: i64)
        ensures
            s == self@.y_scale,
            self@.wf(),
    {
        proof {
            use_type_invariant(self);
        }
        self.y_scale
    }

    /// Whether the value axis lies about zero.
    pub fn axis_kind(&self) -> (k: AxisKind)
        ensures
            k == self@.axis_kind,
            k == AxisKind::DoubleVertical <==> self@.y_bounds.0 < 0 < self@.y_bounds.1,
            self@.wf(),
    {
        proof {
            use_type_invariant(self);
        }
        self.axis_kind
    }

    /// The title of the category axis.
    pub fn x_title(&self) -> (t: &String)
        ensures
            t@ == self@.x_title,
    {
        &self.x_title
    }

    /// The title of the value axis.
    pub fn y_title(&self) -> (t: &String)
        ensures
            t@ == self@.y_title,
    {
        &self.y_title
    }

    /// Gives the category axis a title.
    pub fn set_x_title(&mut self, title: String)
        ensures
            final(self)@ == (AxisView { x_title: title@, ..old(self)@ }),
        no_unwind
    {
        proof {
            use_type_invariant(&*self);
        }
        self.x_title = title;
    }

    /// Gives the value axis a title.
    pub fn set_y_title(&mut self, title: String)
        ensures
            final(self)@ == (AxisView { y_title: title@, ..old(self)@ }),
        no_unwind
    {
        proof {
            use_type_invariant(&*self);
        }
        self.y_title = title;
    }
}

/// The mathematical value of a chart: its data, its properties and its axes.
pub struct ChartView {
    pub data: SeriesView,
    pub chart_prop: ChartPropView,
    pub axis_prop: AxisView,
}

impl ChartView {
    /// The data is well shaped, the surface has a size, and the axes are
    /// those derived from the data: they span every value, and with
    /// `force_include_zero` they take in zero.
    pub open spec fn wf(self, force_include_zero: bool) -> bool {
        &&& self.data.wf()
        &&& self.chart_prop.surface_size.wf()
        &&& self.axis_prop.wf()
        &&& self.axis_prop.derived_from(self.data, force_include_zero)
        &&& self.axis_prop.spans(self.data)
        &&& force_include_zero ==> self.axis_prop.y_bounds.0 <= 0 <= self.axis_prop.y_bounds.1
    }

    /// A new chart of the given data: initial properties, and axes derived
    /// from the data, without titles.
    pub open spec fn fresh(
        title: Seq<char>,
        labels: Seq<Seq<char>>,
        values: Seq<Seq<i32>>,
        force_include_zero: bool,
    ) -> ChartView {
        let data = SeriesView { labels, values };
        ChartView {
            data,
            chart_prop: initial_properties(title),
            axis_prop: axes_for(data, force_include_zero),
        }
    }

    /// The width of the surface, with the legend band when a legend is shown.
    pub open spec fn effective_width(self) -> int {
        crate::scale::effective(self.chart_prop.surface_size.width, self.chart_prop.show_legend)
    }

    /// The scale on which the chart is drawn.
    pub open spec fn scale(self) -> crate::scale::ScaleView {
        crate::scale::planned(
            self.chart_prop.surface_size.width,
            self.chart_prop.surface_size.height,
            self.chart_prop.show_legend,
        )
    }

    /// The radius of the chart's markers.
    pub open spec fn marker_radius(self) -> Frac {
        crate::scale::marker_radius_of(
            self.scale(),
            self.effective_width(),
            self.chart_prop.surface_size.height,
        )
    }
}

} // verus!
