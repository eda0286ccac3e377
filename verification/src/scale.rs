//! The scale planner.
//!
//! From the size of the drawing surface and the legend switch it derives the
//! two correction factors that undo the surface's aspect ratio, and the four
//! bounds of the plot rectangle.  Positions are fractions of the effective
//! surface: `0` is its left or upper edge, `1` its right or lower edge.

use vstd::prelude::*;
use crate::ratio::{Frac, Ratio};

verus! {

/// The widest effective surface: the widest surface plus its legend band.
pub const MAX_EXTENT: u32 = 85196;

/// The size of a drawing surface in whole units.  Both sides are positive.
#[derive(Clone, Copy, Debug, PartialEq, Eq)]
pub struct SurfaceSize {
    width: u16,
    height: u16,
}

/// The mathematical value of a [`SurfaceSize`].
pub struct SurfaceView {
    pub width: int,
    pub height: int,
}

impl SurfaceView {
    pub open spec fn wf(self) -> bool {
        0 < self.width <= u16::MAX && 0 < self.height <= u16::MAX
    }
}

impl View for SurfaceSize {
    type V = SurfaceView;

    closed spec fn view(&self) -> SurfaceView {
        SurfaceView { width: self.width as int, height: self.height as int }
    }
}

impl SurfaceSize {
    #[verifier::type_invariant]
    spec fn inv(self) -> bool {
        self.width > 0 && self.height > 0
    }

    /// A surface of the given size, or `None` when a side is zero.
    pub fn new(width: u16, height: u16) -> (r: Option<SurfaceSize>)
        ensures
            r.is_some() <==> width > 0 && height > 0,
            r matches Some(s) ==> s@ == (SurfaceView { width: width as int, height: height as int }),
    {
        if width > 0 && height > 0 {
            Some(SurfaceSize { width, height })
        } else {
            None
        }
    }

    /// The surface that a chart has until another is set: 800 by 600.
    pub fn standard() -> (s: SurfaceSize)
        ensures
            s@ == (SurfaceView { width: 800, height: 600 }),
    {
        SurfaceSize { width: 800, height: 600 }
    }

    pub fn width(&self) -> (w: u16)
        ensures
            w == self@.width,
            self@.wf(),
    {
        proof {
            use_type_invariant(self);
        }
        self.width
    }

    pub fn height(&self) -> (h: u16)
        ensures
            h == self@.height,
            self@.wf(),
    {
        proof {
            use_type_invariant(self);
        }
        self.height
    }
}

/// The width of the legend band for a surface `width` wide: three tenths of
/// the width, rounded up to a whole unit.
pub open spec fn legend_band(width: int) -> int {
    (3 * width + 9) / 10
}

/// The width on which the layout is planned: the surface's own width, and the
/// legend band beside it when a legend is shown.
pub open spec fn effective(width: int, show_legend: bool) -> int {
    if show_legend {
        width + legend_band(width)
    } else {
        width
    }
}

/// The legend band is the least whole number that is at least three tenths of
/// the width.
pub proof fn lemma_legend_band_is_ceiling(width: int)
    ensures
        10 * legend_band(width) >= 3 * width,
        10 * (legend_band(width) - 1) < 3 * width,
{
}

/// The width of the legend band, `ceil(width * 3 / 10)`.
pub fn legend_width(width: u16) -> (l: u32)
    ensures
        l == legend_band(width as int),
        10 * l >= 3 * width > 10 * (l - 1),
{
    (3 * (width as u32) + 9) / 10
}

/// The effective width of a surface: its width, plus the legend band when a
/// legend is shown.
pub fn effective_width(size: SurfaceSize, show_legend: bool) -> (w: u32)
    ensures
        w == effective(size@.width, show_legend),
        show_legend ==> w == size@.width + legend_band(size@.width),
        !show_legend ==> w == size@.width,
        0 < w <= MAX_EXTENT,
{
    let width = size.width();
    if show_legend {
        width as u32 + legend_width(width)
    } else {
        width as u32
    }
}

/// The horizontal and the vertical correction factor of a surface `width` by
/// `height`.  They start as `height / width` and `width / height`; the larger
/// of the two is then set to one, so that shapes are only ever shrunk.
pub open spec fn corrections(width: int, height: int) -> (Frac, Frac) {
    if height < width {
        (Frac { num: height, den: width }, Frac::of(1))
    } else {
        (Frac::of(1), Frac { num: width, den: height })
    }
}

/// `height / width` is below `width / height` exactly when the surface is
/// wider than high, which is the test that [`corrections`] makes.
pub proof fn lemma_corrections_compare_ratios(width: int, height: int)
    requires
        width > 0,
        height > 0,
    ensures
        (Frac { num: height, den: width }).lt(Frac { num: width, den: height }) <==> height < width,
{
    assert(height * height < width * width <==> height < width) by (nonlinear_arith)
        requires
            width > 0,
            height > 0,
    ;
}

/// Each correction factor lies in `(0, 1]`, and at least one of them is one.
pub proof fn lemma_corrections_shrink(width: int, height: int)
    requires
        width > 0,
        height > 0,
    ensures
        corrections(width, height).0.is_unit_fraction(),
        corrections(width, height).1.is_unit_fraction(),
        corrections(width, height).0 == Frac::of(1) || corrections(width, height).1 == Frac::of(1),
{
}

/// The plot rectangle on a surface without a legend: the whole surface.
/// The result is `(left, right, lower, upper)`.
pub open spec fn normal_bounds() -> (Frac, Frac, Frac, Frac) {
    (Frac::of(0), Frac::of(1), Frac::of(1), Frac::of(0))
}

/// The plot rectangle on a surface `width` wide of which the rightmost
/// `legend` units hold the legend.  The result is `(left, right, lower, upper)`.
pub open spec fn legend_bounds(width: int, legend: int) -> (Frac, Frac, Frac, Frac) {
    (Frac::of(0), Frac { num: width - legend, den: width }, Frac::of(1), Frac::of(0))
}

/// The mathematical value of a [`ScaleTuple`].
pub struct ScaleView {
    pub h_corr: Frac,
    pub v_corr: Frac,
    pub left: Frac,
    pub right: Frac,
    pub lower: Frac,
    pub upper: Frac,
}

impl ScaleView {
    /// What holds of every planned scale: the correction factors lie in
    /// `(0, 1]` and one of them is one, the bounds lie within the surface,
    /// and no denominator exceeds [`MAX_EXTENT`].
    pub open spec fn wf(self) -> bool {
        &&& self.h_corr.is_unit_fraction()
        &&& self.v_corr.is_unit_fraction()
        &&& self.h_corr.is_one() || self.v_corr.is_one()
        &&& self.h_corr.den <= MAX_EXTENT
        &&& self.v_corr.den <= MAX_EXTENT
        &&& self.left.within_unit() && self.left.den <= MAX_EXTENT
        &&& self.right.within_unit() && self.right.den <= MAX_EXTENT
        &&& self.lower.within_unit() && self.lower.den <= MAX_EXTENT
        &&& self.upper.within_unit() && self.upper.den <= MAX_EXTENT
        &&& self.left.lt(self.right)
        &&& self.upper.lt(self.lower)
    }
}

/// The scale that [`plan`] computes for a surface `width` by `height`.
pub open spec fn planned(width: int, height: int, show_legend: bool) -> ScaleView {
    let wide = effective(width, show_legend);
    let factors = corrections(wide, height);
    let bounds = if show_legend {
        legend_bounds(wide, legend_band(width))
    } else {
        normal_bounds()
    };
    ScaleView {
        h_corr: factors.0,
        v_corr: factors.1,
        left: bounds.0,
        right: bounds.1,
        lower: bounds.2,
        upper: bounds.3,
    }
}

/// Every planned scale is well formed.
pub proof fn lemma_planned_wf(width: int, height: int, show_legend: bool)
    requires
        0 < width <= u16::MAX,
        0 < height <= u16::MAX,
    ensures
        planned(width, height, show_legend).wf(),
{
}

/// The correction factors and the plot rectangle of one rendering.
#[derive(Clone, Copy, Debug, PartialEq, Eq)]
pub struct ScaleTuple {
    h_corr: Ratio,
    v_corr: Ratio,
    left: Ratio,
    right: Ratio,
    lower: Ratio,
    upper: Ratio,
}

impl View for ScaleTuple {
    type V = ScaleView;

    closed spec fn view(&self) -> ScaleView {
        ScaleView {
            h_corr: self.h_corr@,
            v_corr: self.v_corr@,
            left: self.left@,
            right: self.right@,
            lower: self.lower@,
            upper: self.upper@,
        }
    }
}

impl ScaleTuple {
    #[verifier::type_invariant]
    spec fn inv(self) -> bool {
        self@.wf()
    }

    /// The horizontal correction factor.
    pub fn h_corr(&self) -> (r: Ratio)
        ensures
            r@ == self@.h_corr,
            self@.wf(),
    {
        proof {
            use_type_invariant(self);
        }
        self.h_corr
    }

    /// The vertical correction factor.
    pub fn v_corr(&self) -> (r: Ratio)
        ensures
            r@ == self@.v_corr,
            self@.wf(),
    {
        proof {
            use_type_invariant(self);
        }
        self.v_corr
    }

    /// The left edge of the plot rectangle.
    pub fn left(&self) -> (r: Ratio)
        ensures
            r@ == self@.left,
            self@.wf(),
    {
        proof {
            use_type_invariant(self);
        }
        self.left
    }

    /// The right edge of the plot rectangle.
    pub fn right(&self) -> (r: Ratio)
        ensures
            r@ == self@.right,
            self@.wf(),
    {
        proof {
            use_type_invariant(self);
        }
        self.right
    }

    /// The lower edge of the plot rectangle.
    pub fn lower(&self) -> (r: Ratio)
        ensures
            r@ == self@.lower,
            self@.wf(),
    {
        proof {
            use_type_invariant(self);
        }
        self.lower
    }

    /// The upper edge of the plot rectangle.
    pub fn upper(&self) -> (r: Ratio)
        ensures
            r@ == self@.upper,
            self@.wf(),
    {
        proof {
            use_type_invariant(self);
        }
        self.upper
    }
}

/// The two correction factors of an effective surface `width` by `height`.
pub fn correction_factors(width: u32, height: u16) -> (r: (Ratio, Ratio))
    requires
        width > 0,
        height > 0,
    ensures
        (r.0@, r.1@) == corrections(width as int, height as int),
        r.0@.is_unit_fraction(),
        r.1@.is_unit_fraction(),
        r.0@ == Frac::of(1) || r.1@ == Frac::of(1),
{
    if (height as u32) < width {
        (Ratio::from_parts(height as i128, width as i128), Ratio::one())
    } else {
        (Ratio::one(), Ratio::from_parts(width as i128, height as i128))
    }
}

/// Plans the scale of one rendering on a surface of the given size.
pub fn plan(size: SurfaceSize, show_legend: bool) -> (s: ScaleTuple)
    ensures
        s@ == planned(size@.width, size@.height, show_legend),
        s@.wf(),
{
    let wide = effective_width(size, show_legend);
    let factors = correction_factors(wide, size.height());
    let right = if show_legend {
        let legend = legend_width(size.width());
        Ratio::from_parts((wide - legend) as i128, wide as i128)
    } else {
        Ratio::one()
    };
    ScaleTuple {
        h_corr: factors.0,
        v_corr: factors.1,
        left: Ratio::zero(),
        right,
        lower: Ratio::one(),
        upper: Ratio::zero(),
    }
}

/// The smaller of two fractions; the first where they denote the same number.
pub open spec fn lesser(a: Frac, b: Frac) -> Frac {
    if a.le(b) {
        a
    } else {
        b
    }
}

/// The larger of two fractions; the second where they denote the same number.
pub open spec fn greater(a: Frac, b: Frac) -> Frac {
    if a.le(b) {
        b
    } else {
        a
    }
}

/// The factor by which marks are scaled on an effective surface `width` by
/// `height`: the smaller correction factor on a surface higher than wide,
/// the larger one otherwise.
pub open spec fn radius_factor(scale: ScaleView, width: int, height: int) -> Frac {
    if height > width {
        lesser(scale.h_corr, scale.v_corr)
    } else {
        greater(scale.h_corr, scale.v_corr)
    }
}

/// The radius of a marker before scaling: nine thousandths of the surface.
pub open spec fn base_radius() -> Frac {
    Frac { num: 9, den: 1000 }
}

/// The radius of a marker on an effective surface `width` by `height`.
pub open spec fn marker_radius_of(scale: ScaleView, width: int, height: int) -> Frac {
    base_radius().times(radius_factor(scale, width, height))
}

/// The factor by which marks are scaled on an effective surface `width` by
/// `height`.
pub fn radius_scaling(scale: &ScaleTuple, width: u32, height: u16) -> (r: Ratio)
    ensures
        r@ == radius_factor(scale@, width as int, height as int),
        r@.is_unit_fraction(),
        r@.den <= MAX_EXTENT,
{
    let h = scale.h_corr();
    let v = scale.v_corr();
    assert(0 < h@.num * v@.den <= 85196 * 85196) by (nonlinear_arith)
        requires
            0 < h@.num <= 85196,
            0 < v@.den <= 85196,
    ;
    assert(0 < v@.num * h@.den <= 85196 * 85196) by (nonlinear_arith)
        requires
            0 < v@.num <= 85196,
            0 < h@.den <= 85196,
    ;
    let h_first = h.num() * v.den() <= v.num() * h.den();
    if height as u32 > width {
        if h_first {
            h
        } else {
            v
        }
    } else {
        if h_first {
            v
        } else {
            h
        }
    }
}

/// The radius of a marker on an effective surface `width` by `height`.
pub fn marker_radius(scale: &ScaleTuple, width: u32, height: u16) -> (r: Ratio)
    ensures
        r@ == marker_radius_of(scale@, width as int, height as int),
        r@.wf(),
{
    let f = radius_scaling(scale, width, height);
    Ratio::from_parts(9 * f.num(), 1000 * f.den())
}

/// On a planned scale the factor of the marks is the vertical factor: that
/// is the smaller factor of a surface higher than wide, and the larger factor
/// of any other surface.
pub proof fn lemma_mark_factor_is_vertical(width: int, height: int, show_legend: bool)
    requires
        0 < width <= u16::MAX,
        0 < height <= u16::MAX,
    ensures
        radius_factor(
            planned(width, height, show_legend),
            effective(width, show_legend),
            height,
        ) == planned(width, height, show_legend).v_corr,
{
    let wide = effective(width, show_legend);
    let h = planned(width, height, show_legend).h_corr;
    let v = planned(width, height, show_legend).v_corr;
    assert(h.le(v) <==> height <= wide) by (nonlinear_arith)
        requires
            h.le(v) <==> h.num * v.den <= v.num * h.den,
            height < wide ==> h.num == height && h.den == wide && v.num == 1 && v.den == 1,
            height >= wide ==> h.num == 1 && h.den == 1 && v.num == wide && v.den == height,
    ;
}

/// With a legend the plot rectangle keeps the surface's own width: the band
/// is added beside it, not taken from it.
pub proof fn lemma_legend_is_added(width: int, height: int)
    requires
        0 < width <= u16::MAX,
        0 < height <= u16::MAX,
    ensures
        planned(width, height, true).right == (Frac { num: width, den: effective(width, true) }),
        effective(width, true) == width + legend_band(width),
        planned(width, height, false).right == Frac::of(1),
{
}

/// On a surface that is at least as wide as high, the categories of a chart
/// with a legend end before the legend band begins.
pub proof fn lemma_plot_clear_of_legend(width: int, height: int)
    requires
        0 < height <= width <= u16::MAX,
    ensures
        planned(width, height, true).left.plus(planned(width, height, true).h_corr).le(
            planned(width, height, true).right,
        ),
{
    let wide = effective(width, true);
    let scale = planned(width, height, true);
    assert(scale.h_corr == Frac { num: height, den: wide });
    assert(scale.right == Frac { num: width, den: wide });
    let end = scale.left.plus(scale.h_corr);
    assert(end.num == height && end.den == wide) by (nonlinear_arith)
        requires
            end.num == 0 * wide + height * 1,
            end.den == 1 * wide,
    ;
    assert(height * wide <= width * wide) by (nonlinear_arith)
        requires
            height <= width,
            wide > 0,
    ;
}

} // verus!
