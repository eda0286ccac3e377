use rustplot::mapper::{category_x, normalize, value_y, zero_intercept};
use rustplot::ratio::Ratio;
use rustplot::scale::{plan, SurfaceSize};

fn ratio(num: i128, den: i128) -> Ratio {
    Ratio::new(num, den).unwrap()
}

fn less_or_equal(a: Ratio, b: Ratio) -> bool {
    a.num() * b.den() <= b.num() * a.den()
}

fn same(a: Ratio, b: Ratio) -> bool {
    a.num() * b.den() == b.num() * a.den()
}

#[test]
fn normalize_is_the_fraction_between_the_bounds() {
    assert_eq!(normalize(5, 0, 10), ratio(5, 10));
    assert_eq!(normalize(0, -2, 3), ratio(2, 5));
    assert_eq!(normalize(-2, -2, 3), ratio(0, 5));
    assert_eq!(normalize(3, -2, 3), ratio(5, 5));
}

#[test]
fn normalize_does_not_clamp() {
    assert_eq!(normalize(15, 0, 10), ratio(15, 10));
    assert_eq!(normalize(-5, 0, 10), ratio(-5, 10));
}

#[test]
fn normalize_with_swapped_bounds_keeps_a_positive_denominator() {
    let r = normalize(2, 10, 0);
    assert_eq!(r, ratio(8, 10));
    assert!(same(r, ratio(4, 5)));
}

#[test]
fn normalize_covers_the_whole_range_of_its_type() {
    let r = normalize(i64::MAX, i64::MIN, i64::MAX);
    assert_eq!(r.num(), r.den());
    assert_eq!(r.den(), u64::MAX as i128);
}

#[test]
fn normalize_is_monotonic_in_the_value() {
    let mut last = normalize(-20, -7, 13);
    for value in -19..=20 {
        let next = normalize(value, -7, 13);
        assert!(less_or_equal(last, next));
        assert!(!same(last, next));
        last = next;
    }
}

#[test]
fn zero_intercept_is_normalize_of_zero() {
    for &(min, max) in &[(-2i64, 3i64), (0, 10), (-10, 0), (3, 7), (-7, -3), (-1, 1)] {
        assert_eq!(zero_intercept(min, max), normalize(0, min, max));
    }
}

#[test]
fn zero_intercept_is_zero_at_a_zero_minimum_and_one_at_a_zero_maximum() {
    assert!(same(zero_intercept(0, 10), Ratio::zero()));
    assert!(same(zero_intercept(-10, 0), Ratio::one()));
    assert_eq!(zero_intercept(-2, 3), ratio(2, 5));
}

#[test]
fn zero_intercept_divides_negative_values_from_positive_ones() {
    let zero = zero_intercept(-7, 13);
    for value in -7..=13 {
        let share = normalize(value, -7, 13);
        if value >= 0 {
            assert!(less_or_equal(zero, share));
        }
        if value <= 0 {
            assert!(less_or_equal(share, zero));
        }
    }
}

#[test]
fn category_centres_follow_the_formula() {
    // left - interval / 2 + interval * (i + 1), with interval = (3/4) / 3 = 1/4
    let scale = plan(SurfaceSize::new(800, 600).unwrap(), false);
    assert_eq!(category_x(&scale, 3, 0), ratio(600, 4800));
    assert_eq!(category_x(&scale, 3, 1), ratio(1800, 4800));
    assert_eq!(category_x(&scale, 3, 2), ratio(3000, 4800));
    assert!(same(category_x(&scale, 3, 0), ratio(1, 8)));
    assert!(same(category_x(&scale, 3, 1), ratio(3, 8)));
    assert!(same(category_x(&scale, 3, 2), ratio(5, 8)));
}

#[test]
fn values_are_measured_up_from_the_lower_bound() {
    // lower - normalize * v_corr, with v_corr = 3/4 on a portrait surface
    let scale = plan(SurfaceSize::new(600, 800).unwrap(), false);
    assert_eq!(scale.v_corr(), ratio(600, 800));
    let y = value_y(&scale, 5, 0, 10);
    assert_eq!(y, ratio(8000 - 3000, 8000));
    assert!(same(y, ratio(5, 8)));
    assert!(same(value_y(&scale, 0, 0, 10), Ratio::one()));
    assert!(same(value_y(&scale, 10, 0, 10), ratio(1, 4)));
    // outside the bounds the position leaves the plot rectangle
    assert!(same(value_y(&scale, -10, 0, 10), ratio(7, 4)));
}

#[test]
fn mapping_to_the_surface_and_back_recovers_the_value() {
    for &(width, height, legend) in &[(800u16, 600u16, false), (600, 800, true), (333, 333, false)]
    {
        let scale = plan(SurfaceSize::new(width, height).unwrap(), legend);
        for &(min, max) in &[(-20i64, 30i64), (0, 7), (-1000, -10)] {
            for value in (min - 5)..=(max + 5) {
                let y = value_y(&scale, value, min, max);
                let lower = scale.lower();
                let v = scale.v_corr();
                // share = (lower - y) / v_corr
                let share_num = (lower.num() * y.den() - y.num() * lower.den()) * v.den();
                let share_den = lower.den() * y.den() * v.num();
                assert!(share_num * normalize(value, min, max).den()
                    == normalize(value, min, max).num() * share_den);
                // value = min + share * (max - min)
                let span = (max - min) as i128;
                assert_eq!((share_num * span) % share_den, 0);
                assert_eq!(min as i128 + share_num * span / share_den, value as i128);
            }
        }
    }
}

#[test]
fn mapping_a_category_to_the_surface_and_back_recovers_it() {
    for &(width, height, legend) in &[(800u16, 600u16, false), (600, 800, true), (1, 65535, true)] {
        let scale = plan(SurfaceSize::new(width, height).unwrap(), legend);
        let (left, h) = (scale.left(), scale.h_corr());
        for count in 1..7usize {
            for index in 0..count {
                let x = category_x(&scale, count, index);
                // slots = (x - left) / interval, with interval = h_corr / count
                let slots_num =
                    (x.num() * left.den() - left.num() * x.den()) * h.den() * count as i128;
                let slots_den = x.den() * left.den() * h.num();
                // index = slots - 1/2
                assert_eq!(2 * slots_num - slots_den, 2 * slots_den * index as i128);
            }
        }
    }
}
