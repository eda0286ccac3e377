use rustplot::ratio::Ratio;
use rustplot::scale::{
    correction_factors, effective_width, legend_width, marker_radius, plan, radius_scaling,
    SurfaceSize,
};

fn ratio(num: i128, den: i128) -> Ratio {
    Ratio::new(num, den).unwrap()
}

#[test]
fn a_surface_needs_two_positive_sides() {
    assert!(SurfaceSize::new(0, 600).is_none());
    assert!(SurfaceSize::new(800, 0).is_none());
    let size = SurfaceSize::new(800, 600).unwrap();
    assert_eq!((size.width(), size.height()), (800, 600));
    assert_eq!(SurfaceSize::standard(), size);
}

#[test]
fn a_ratio_needs_a_positive_denominator() {
    assert!(Ratio::new(1, 0).is_none());
    assert!(Ratio::new(1, -2).is_none());
    let r = ratio(-3, 4);
    assert_eq!((r.num(), r.den()), (-3, 4));
    assert_eq!(Ratio::zero(), ratio(0, 1));
    assert_eq!(Ratio::one(), ratio(1, 1));
}

#[test]
fn legend_width_is_three_tenths_rounded_up() {
    assert_eq!(legend_width(800), 240);
    assert_eq!(legend_width(801), 241);
    assert_eq!(legend_width(10), 3);
    assert_eq!(legend_width(1), 1);
    assert_eq!(legend_width(u16::MAX), 19661);
}

#[test]
fn legend_adds_its_band_to_the_width() {
    let size = SurfaceSize::new(800, 600).unwrap();
    assert_eq!(effective_width(size, false), 800);
    assert_eq!(effective_width(size, true), 1040);
    let odd = SurfaceSize::new(801, 600).unwrap();
    assert_eq!(effective_width(odd, true), 801 + 241);
    let widest = SurfaceSize::new(u16::MAX, 1).unwrap();
    assert_eq!(effective_width(widest, true), 85196);
}

#[test]
fn correction_factors_only_shrink() {
    for &(width, height) in &[(800u32, 600u16), (600, 800), (500, 500), (1, 65535), (85196, 1)] {
        let (h, v) = correction_factors(width, height);
        assert!(0 < h.num() && h.num() <= h.den());
        assert!(0 < v.num() && v.num() <= v.den());
        assert!(h == Ratio::one() || v == Ratio::one());
    }
}

#[test]
fn correction_factors_of_landscape_portrait_and_square() {
    assert_eq!(correction_factors(800, 600), (ratio(600, 800), Ratio::one()));
    assert_eq!(correction_factors(600, 800), (Ratio::one(), ratio(600, 800)));
    assert_eq!(correction_factors(500, 500), (Ratio::one(), ratio(500, 500)));
}

#[test]
fn plan_without_legend_uses_the_whole_surface() {
    let scale = plan(SurfaceSize::new(800, 600).unwrap(), false);
    assert_eq!(scale.h_corr(), ratio(600, 800));
    assert_eq!(scale.v_corr(), Ratio::one());
    assert_eq!(scale.left(), Ratio::zero());
    assert_eq!(scale.right(), Ratio::one());
    assert_eq!(scale.lower(), Ratio::one());
    assert_eq!(scale.upper(), Ratio::zero());
}

#[test]
fn plan_with_legend_keeps_the_band_free() {
    let scale = plan(SurfaceSize::new(800, 600).unwrap(), true);
    assert_eq!(scale.h_corr(), ratio(600, 1040));
    assert_eq!(scale.v_corr(), Ratio::one());
    assert_eq!(scale.left(), Ratio::zero());
    assert_eq!(scale.right(), ratio(800, 1040));
    assert_eq!(scale.lower(), Ratio::one());
    assert_eq!(scale.upper(), Ratio::zero());
}

#[test]
fn plan_with_legend_can_turn_portrait_into_landscape() {
    // 700 wide and 800 high is portrait; with its band of 210 it is landscape
    let size = SurfaceSize::new(700, 800).unwrap();
    let bare = plan(size, false);
    assert_eq!((bare.h_corr(), bare.v_corr()), (Ratio::one(), ratio(700, 800)));
    let with_legend = plan(size, true);
    assert_eq!((with_legend.h_corr(), with_legend.v_corr()), (ratio(800, 910), Ratio::one()));
}

#[test]
fn marks_take_the_larger_factor_on_landscape_and_the_smaller_on_portrait() {
    let landscape = plan(SurfaceSize::new(800, 600).unwrap(), false);
    assert_eq!(radius_scaling(&landscape, 800, 600), Ratio::one());
    assert_eq!(marker_radius(&landscape, 800, 600), ratio(9, 1000));
    let portrait = plan(SurfaceSize::new(600, 800).unwrap(), false);
    assert_eq!(radius_scaling(&portrait, 600, 800), ratio(600, 800));
    assert_eq!(marker_radius(&portrait, 600, 800), ratio(5400, 800_000));
}
