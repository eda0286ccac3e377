use rustplot::axis::AxisKind;
use rustplot::chart::ChartType;
use rustplot::error::ChartError;
use rustplot::palette::color_for_index;
use rustplot::primitive::{Point, Primitive};
use rustplot::ratio::Ratio;
use rustplot::scale::{plan, SurfaceSize};
use rustplot::vertical_bar_chart::{bar_width, bar_x, VerticalBarChart};

fn ratio(num: i128, den: i128) -> Ratio {
    Ratio::new(num, den).unwrap()
}

fn same(a: Ratio, b: Ratio) -> bool {
    a.num() * b.den() == b.num() * a.den()
}

fn labels(names: &[&str]) -> Vec<String> {
    names.iter().map(|name| name.to_string()).collect()
}

fn bars(drawing: &[Primitive]) -> Vec<(Ratio, Ratio, Ratio, Ratio)> {
    drawing
        .iter()
        .filter_map(|p| match p {
            Primitive::Bar { x, y, width, height } => Some((*x, *y, *width, *height)),
            _ => None,
        })
        .collect()
}

#[test]
fn three_bars_about_zero_share_one_baseline() {
    let chart =
        VerticalBarChart::new("Bars".to_string(), labels(&["A", "B", "C"]), vec![vec![1, -2, 3]])
            .unwrap();
    let axis = chart.get_axis_prop();
    assert_eq!(axis.axis_kind(), AxisKind::DoubleVertical);
    let (min, max) = axis.y_bounds();
    assert!(min <= -2 && 3 <= max);
    assert_eq!((min, max), (-2, 3));
    let drawn = bars(&chart.draw_chart());
    assert_eq!(drawn.len(), 3);
    assert_eq!(
        drawn,
        vec![
            // centres at 1/8, 3/8 and 5/8, less half a bar width of 0.175
            (ratio(1800, 48000), ratio(3, 5), ratio(4200, 24000), ratio(-1, 5)),
            (ratio(13800, 48000), ratio(3, 5), ratio(4200, 24000), ratio(2, 5)),
            (ratio(25800, 48000), ratio(3, 5), ratio(4200, 24000), ratio(-3, 5)),
        ]
    );
    assert!(drawn.iter().all(|bar| bar.1 == drawn[0].1));
    // the category axis lies on the same baseline
    assert!(chart.draw_chart().iter().any(|p| matches!(p,
        Primitive::CategoryAxis { from, to, .. } if from.y == drawn[0].1 && to.y == drawn[0].1)));
}

#[test]
fn bars_rise_for_positive_values_and_hang_for_negative_ones() {
    let chart =
        VerticalBarChart::new("t".to_string(), labels(&["A", "B"]), vec![vec![4, -4]]).unwrap();
    let drawn = bars(&chart.draw_chart());
    // the surface's heights grow downward
    assert!(drawn[0].3.num() < 0);
    assert!(drawn[1].3.num() > 0);
}

#[test]
fn two_series_halve_the_bar_width() {
    let scale = plan(SurfaceSize::new(800, 600).unwrap(), false);
    let single = bar_width(&scale, 3, 1);
    let double = bar_width(&scale, 3, 2);
    assert_eq!(single, ratio(4200, 24000));
    assert_eq!(double, ratio(4200, 48000));
    assert_eq!(double.num() * 2 * single.den(), single.num() * double.den());

    let one = VerticalBarChart::new("t".to_string(), labels(&["A", "B", "C"]), vec![vec![1, 2, 3]])
        .unwrap();
    let two = VerticalBarChart::new(
        "t".to_string(),
        labels(&["A", "B", "C"]),
        vec![vec![1, 2, 3], vec![3, 2, 1]],
    )
    .unwrap();
    let wide = bars(&one.draw_chart())[0].2;
    for bar in bars(&two.draw_chart()) {
        assert_eq!(bar.2.num() * 2 * wide.den(), wide.num() * bar.2.den());
    }
}

#[test]
fn bars_of_a_category_stand_side_by_side_about_its_centre() {
    // 2 categories, 2 series: interval 3/8, bar width 0.7 * 3/16
    let scale = plan(SurfaceSize::new(800, 600).unwrap(), false);
    let width = bar_width(&scale, 2, 2);
    let first = bar_x(&scale, 2, 2, 0, 0);
    let second = bar_x(&scale, 2, 2, 0, 1);
    assert_eq!(first, ratio(600 * (20 - 14), 64000));
    assert_eq!(second, ratio(600 * 20, 64000));
    // the second bar starts at the centre of the category, where the first ends
    assert!(same(second, ratio(3, 16)));
    assert_eq!(
        first.num() * width.den() + width.num() * first.den(),
        second.num() * width.den() * first.den() / second.den()
    );
}

#[test]
fn bar_chart_lists_series_by_series() {
    let chart = VerticalBarChart::new(
        "t".to_string(),
        labels(&["A", "B"]),
        vec![vec![1, 2], vec![3, 4], vec![5, 6]],
    )
    .unwrap();
    let drawing = chart.draw_chart();
    assert_eq!(
        drawing[0],
        Primitive::Canvas { wide: 800, high: 600, h_corr: ratio(600, 800), v_corr: ratio(1, 1) }
    );
    for series in 0..3 {
        assert_eq!(
            drawing[1 + 3 * series],
            Primitive::SeriesColour { index: series, colour: color_for_index(series) }
        );
        assert!(matches!(drawing[2 + 3 * series], Primitive::Bar { .. }));
        assert!(matches!(drawing[3 + 3 * series], Primitive::Bar { .. }));
    }
    assert_eq!(
        drawing[10],
        Primitive::Title {
            at: Point { x: Ratio::zero(), y: Ratio::zero() },
            text: "t".to_string()
        }
    );
}

#[test]
fn bar_axis_always_takes_in_zero() {
    let positive =
        VerticalBarChart::new("t".to_string(), labels(&["A", "B"]), vec![vec![12, 47]]).unwrap();
    assert_eq!(positive.get_axis_prop().y_bounds(), (0, 50));
    assert_eq!(positive.get_axis_prop().axis_kind(), AxisKind::Single);
    let negative =
        VerticalBarChart::new("t".to_string(), labels(&["A", "B"]), vec![vec![-12, -47]]).unwrap();
    assert_eq!(negative.get_axis_prop().y_bounds(), (-50, 0));
    assert_eq!(negative.get_axis_prop().axis_kind(), AxisKind::Single);
}

#[test]
fn bar_chart_refuses_malformed_data() {
    assert_eq!(
        VerticalBarChart::new("t".to_string(), Vec::new(), Vec::new()).err(),
        Some(ChartError::EmptyDataset)
    );
    assert_eq!(
        VerticalBarChart::new("t".to_string(), labels(&["A"]), vec![vec![1], vec![]]).err(),
        Some(ChartError::InvalidSeriesShape)
    );
}

#[test]
fn value_ticks_run_from_bound_to_bound() {
    let chart =
        VerticalBarChart::new("t".to_string(), labels(&["A", "B"]), vec![vec![12, 47]]).unwrap();
    let ticks: Vec<i64> = chart
        .draw_chart()
        .iter()
        .filter_map(|p| match p {
            Primitive::ValueTick { value, .. } => Some(*value),
            _ => None,
        })
        .collect();
    assert_eq!(ticks, vec![0, 5, 10, 15, 20, 25, 30, 35, 40, 45, 50]);
}

#[test]
fn a_bar_chart_type_draws_what_its_chart_draws() {
    let chart =
        VerticalBarChart::new("t".to_string(), labels(&["A", "B"]), vec![vec![1, 3]]).unwrap();
    let drawing = chart.draw_chart();
    assert_eq!(ChartType::VBar(chart).draw_chart(), drawing);
}

#[test]
fn the_bars_of_a_category_fill_seven_tenths_of_its_slot() {
    let scale = plan(SurfaceSize::new(800, 600).unwrap(), false);
    for series in 1..6usize {
        let width = bar_width(&scale, 3, series);
        // the interval is (600 / 800) / 3 = 1/4
        assert!(same(ratio(width.num() * series as i128, width.den()), ratio(7, 40)));
        for j in 0..series - 1 {
            let here = bar_x(&scale, 3, series, 1, j);
            let next = bar_x(&scale, 3, series, 1, j + 1);
            let end = ratio(
                here.num() * width.den() + width.num() * here.den(),
                here.den() * width.den(),
            );
            assert!(same(end, next));
        }
        // the first bar starts 0.35 intervals left of the centre: 3/8 - 7/80
        assert!(same(bar_x(&scale, 3, series, 1, 0), ratio(23, 80)));
    }
}

#[test]
fn a_cloned_bar_chart_draws_the_same() {
    let chart =
        VerticalBarChart::new("t".to_string(), labels(&["A", "B"]), vec![vec![1, -3]]).unwrap();
    let copy = chart.clone();
    assert_eq!(copy, chart);
    assert_eq!(copy.draw_chart(), chart.draw_chart());
    assert_eq!(copy.get_axis_prop().clone(), *chart.get_axis_prop());
}
