use rustplot::axis::AxisKind;
use rustplot::chart::ChartType;
use rustplot::data::{ChartProperties, SeriesData};
use rustplot::error::ChartError;
use rustplot::line_chart::LineChart;
use rustplot::palette::{color_for_index, Colour};
use rustplot::primitive::{stroke_for, Point, Primitive, Stroke};
use rustplot::ratio::Ratio;
use rustplot::scale::{plan, SurfaceSize};

fn ratio(num: i128, den: i128) -> Ratio {
    Ratio::new(num, den).unwrap()
}

fn labels(names: &[&str]) -> Vec<String> {
    names.iter().map(|name| name.to_string()).collect()
}

#[test]
fn line_chart_lists_markers_segments_and_trailing_parts_in_order() {
    let chart = LineChart::new("Trend".to_string(), labels(&["a", "b"]), vec![vec![1, 3]]).unwrap();
    let first = Point { x: ratio(600, 3200), y: ratio(2, 2) };
    let second = Point { x: ratio(1800, 3200), y: ratio(0, 2) };
    let origin = Point { x: ratio(0, 1), y: ratio(0, 1) };
    let expected = vec![
        Primitive::Canvas { wide: 800, high: 600, h_corr: ratio(600, 800), v_corr: ratio(1, 1) },
        Primitive::SeriesColour { index: 0, colour: Colour { red: 31, green: 119, blue: 180 } },
        Primitive::Marker { centre: first, radius: ratio(9, 1000) },
        Primitive::Marker { centre: second, radius: ratio(9, 1000) },
        Primitive::Segment {
            from: second,
            to: first,
            stroke: Stroke::Slanted {
                dx: ratio(600, 1600),
                dy: ratio(2, 2),
                level: ratio(5, 1000),
                upright: ratio(5 * 600, 1000 * 800),
            },
        },
        Primitive::Title { at: origin, text: "Trend".to_string() },
        // zero lies half the range below the lower bound of 1
        Primitive::CategoryAxis {
            from: Point { x: ratio(0, 1), y: ratio(3, 2) },
            to: Point { x: ratio(600, 800), y: ratio(3, 2) },
            title: String::new(),
        },
        Primitive::CategoryLabel {
            at: Point { x: ratio(600, 3200), y: ratio(3, 2) },
            text: "a".to_string(),
        },
        Primitive::CategoryLabel {
            at: Point { x: ratio(1800, 3200), y: ratio(3, 2) },
            text: "b".to_string(),
        },
        Primitive::ValueAxis {
            from: Point { x: ratio(0, 1), y: ratio(2, 2) },
            to: Point { x: ratio(0, 1), y: ratio(0, 2) },
            title: String::new(),
        },
        Primitive::ValueTick { at: Point { x: ratio(0, 1), y: ratio(2, 2) }, value: 1 },
        Primitive::ValueTick { at: Point { x: ratio(0, 1), y: ratio(1, 2) }, value: 2 },
        Primitive::ValueTick { at: Point { x: ratio(0, 1), y: ratio(0, 2) }, value: 3 },
    ];
    assert_eq!(chart.draw_chart(), expected);
}

#[test]
fn drawing_twice_gives_the_same_list() {
    let chart =
        LineChart::new("t".to_string(), labels(&["a", "b", "c"]), vec![vec![4, -1, 9], vec![0, 2, 2]])
            .unwrap();
    assert_eq!(chart.draw_chart(), chart.draw_chart());
}

#[test]
fn every_series_has_a_marker_per_category_and_a_segment_between_neighbours() {
    let chart = LineChart::new(
        "t".to_string(),
        labels(&["a", "b", "c", "d"]),
        vec![vec![4, -1, 9, 2], vec![0, 2, 2, 5], vec![1, 1, 1, 1]],
    )
    .unwrap();
    let drawing = chart.draw_chart();
    let markers = drawing.iter().filter(|p| matches!(p, Primitive::Marker { .. })).count();
    let segments = drawing.iter().filter(|p| matches!(p, Primitive::Segment { .. })).count();
    let colours: Vec<usize> = drawing
        .iter()
        .filter_map(|p| match p {
            Primitive::SeriesColour { index, colour } => {
                assert_eq!(*colour, color_for_index(*index));
                Some(*index)
            }
            _ => None,
        })
        .collect();
    assert_eq!(markers, 12);
    assert_eq!(segments, 9);
    assert_eq!(colours, vec![0, 1, 2]);
}

#[test]
fn a_level_segment_takes_the_vertical_factor_alone() {
    let chart = LineChart::new("t".to_string(), labels(&["a", "b", "c"]), vec![vec![2, 2, 5]])
        .unwrap();
    let strokes: Vec<Stroke> = chart
        .draw_chart()
        .iter()
        .filter_map(|p| match p {
            Primitive::Segment { stroke, .. } => Some(*stroke),
            _ => None,
        })
        .collect();
    assert_eq!(strokes.len(), 2);
    // 0.005 times the vertical factor, which is one on a landscape surface
    assert_eq!(strokes[0], Stroke::Horizontal { width: ratio(5, 1000) });
    assert!(matches!(strokes[1], Stroke::Slanted { .. }));
}

#[test]
fn strokes_of_degenerate_segments_avoid_the_slope() {
    let scale = plan(SurfaceSize::new(600, 800).unwrap(), false);
    assert_eq!(
        stroke_for(&scale, ratio(1, 4), ratio(0, 7)),
        Stroke::Horizontal { width: ratio(5 * 600, 1000 * 800) }
    );
    assert_eq!(
        stroke_for(&scale, ratio(0, 4), ratio(1, 7)),
        Stroke::Vertical { width: ratio(5, 1000) }
    );
    assert_eq!(
        stroke_for(&scale, ratio(1, 4), ratio(1, 7)),
        Stroke::Slanted {
            dx: ratio(1, 4),
            dy: ratio(1, 7),
            level: ratio(5 * 600, 1000 * 800),
            upright: ratio(5, 1000),
        }
    );
}

#[test]
fn line_chart_axes_follow_the_data() {
    let positive = LineChart::new("t".to_string(), labels(&["a", "b"]), vec![vec![3, 7]]).unwrap();
    assert_eq!(positive.get_axis_prop().y_bounds(), (3, 7));
    assert_eq!(positive.get_axis_prop().axis_kind(), AxisKind::Single);
    let negative =
        LineChart::new("t".to_string(), labels(&["a", "b"]), vec![vec![-3, -7]]).unwrap();
    assert_eq!(negative.get_axis_prop().y_bounds(), (-7, -3));
    assert_eq!(negative.get_axis_prop().axis_kind(), AxisKind::Single);
    let mixed = LineChart::new("t".to_string(), labels(&["a", "b"]), vec![vec![-3, 7]]).unwrap();
    assert_eq!(mixed.get_axis_prop().y_bounds(), (-3, 7));
    assert_eq!(mixed.get_axis_prop().axis_kind(), AxisKind::DoubleVertical);
    assert_eq!(mixed.get_axis_prop().x_bounds(), (0, 0));
    assert_eq!(mixed.get_axis_prop().x_scale(), ratio(1, 2));
    assert_eq!(mixed.get_axis_prop().y_scale(), 1);
}

#[test]
fn a_new_chart_has_no_legend_and_the_standard_surface() {
    let chart = LineChart::new("Trend".to_string(), labels(&["a"]), vec![vec![1]]).unwrap();
    let prop = chart.get_chart_prop();
    assert_eq!(prop.title, "Trend");
    assert!(prop.legend_entries.is_empty());
    assert_eq!(prop.surface_size, SurfaceSize::new(800, 600).unwrap());
    assert!(!prop.show_legend);
    assert_eq!(chart.get_axis_prop().x_title(), "");
    assert_eq!(chart.get_axis_prop().y_title(), "");
    assert_eq!(chart.data().label_count(), 1);
    assert_eq!(chart.data().series_count(), 1);
    assert_eq!(chart.data().labels(), &labels(&["a"]));
    assert_eq!(chart.data().values(), &vec![vec![1]]);
}

#[test]
fn malformed_data_is_refused_at_construction() {
    assert_eq!(
        LineChart::new("t".to_string(), Vec::new(), vec![vec![]]).err(),
        Some(ChartError::EmptyDataset)
    );
    assert_eq!(
        LineChart::new("t".to_string(), labels(&["a"]), Vec::new()).err(),
        Some(ChartError::EmptyDataset)
    );
    assert_eq!(
        LineChart::new("t".to_string(), labels(&["a", "b"]), vec![vec![1, 2], vec![3]]).err(),
        Some(ChartError::InvalidSeriesShape)
    );
    assert_eq!(
        SeriesData::new(labels(&["a"]), vec![vec![1, 2]]).err(),
        Some(ChartError::InvalidSeriesShape)
    );
}

#[test]
fn every_error_says_what_was_wrong() {
    assert_eq!(ChartError::EmptyDataset.describe(), "the dataset has no category or no series");
    assert_eq!(
        ChartError::InvalidSeriesShape.describe(),
        "a series does not hold one value per category"
    );
    assert_eq!(
        ChartError::DatasetTooLarge.describe(),
        "the dataset has too many categories or series"
    );
}

#[test]
fn set_data_replaces_the_chart() {
    let mut chart = LineChart::new("old".to_string(), labels(&["a"]), vec![vec![1]]).unwrap();
    let mut prop = ChartProperties::new("old".to_string());
    prop.show_legend = true;
    prop.legend_entries = labels(&["first"]);
    chart.set_chart_prop(prop);
    chart.set_axis_titles("x".to_string(), "y".to_string());
    assert_eq!(chart.set_data("new".to_string(), labels(&["a", "b"]), vec![vec![-5, 15]]), Ok(()));
    let fresh = LineChart::new("new".to_string(), labels(&["a", "b"]), vec![vec![-5, 15]]).unwrap();
    assert_eq!(chart, fresh);
    assert_eq!(chart.get_chart_prop().title, "new");
    // a span of 20 has the step 2; the bounds move out to its multiples
    assert_eq!(chart.get_axis_prop().y_bounds(), (-6, 16));
    assert_eq!(chart.get_axis_prop().y_scale(), 2);
}

#[test]
fn set_data_with_malformed_data_changes_nothing() {
    let mut chart = LineChart::new("old".to_string(), labels(&["a"]), vec![vec![1]]).unwrap();
    let before = chart.draw_chart();
    assert_eq!(
        chart.set_data("new".to_string(), labels(&["a", "b"]), vec![vec![1]]),
        Err(ChartError::InvalidSeriesShape)
    );
    assert_eq!(chart.get_chart_prop().title, "old");
    assert_eq!(chart.draw_chart(), before);
}

#[test]
fn legend_and_titles_are_drawn_when_set() {
    let mut chart =
        LineChart::new("t".to_string(), labels(&["a"]), vec![vec![1], vec![2]]).unwrap();
    let mut prop = ChartProperties::new("t".to_string());
    prop.show_legend = true;
    prop.legend_entries = labels(&["first", "second"]);
    chart.set_chart_prop(prop);
    chart.set_axis_titles("category".to_string(), "value".to_string());
    let drawing = chart.draw_chart();
    assert_eq!(
        drawing[0],
        Primitive::Canvas { wide: 1040, high: 600, h_corr: ratio(600, 1040), v_corr: ratio(1, 1) }
    );
    let count = drawing.len();
    assert_eq!(
        drawing[count - 2],
        Primitive::LegendEntry {
            index: 0,
            colour: Colour { red: 31, green: 119, blue: 180 },
            at: Point { x: ratio(800, 1040), y: ratio(0, 2) },
            text: "first".to_string(),
        }
    );
    assert_eq!(
        drawing[count - 1],
        Primitive::LegendEntry {
            index: 1,
            colour: Colour { red: 255, green: 127, blue: 14 },
            at: Point { x: ratio(800, 1040), y: ratio(1, 2) },
            text: "second".to_string(),
        }
    );
    assert!(drawing.iter().any(|p| matches!(p,
        Primitive::ValueAxis { title, .. } if title == "value")));
    assert!(drawing.iter().any(|p| matches!(p,
        Primitive::CategoryAxis { title, .. } if title == "category")));
}

#[test]
fn legend_entries_are_not_drawn_while_the_legend_is_off() {
    let mut chart = LineChart::new("t".to_string(), labels(&["a"]), vec![vec![1]]).unwrap();
    let mut prop = ChartProperties::new("t".to_string());
    prop.legend_entries = labels(&["first"]);
    chart.set_chart_prop(prop);
    assert!(!chart.draw_chart().iter().any(|p| matches!(p, Primitive::LegendEntry { .. })));
}

#[test]
fn a_chart_type_draws_what_its_chart_draws() {
    let chart = LineChart::new("t".to_string(), labels(&["a", "b"]), vec![vec![1, 3]]).unwrap();
    let drawing = chart.draw_chart();
    assert_eq!(ChartType::Line(chart).draw_chart(), drawing);
}

#[test]
fn every_marker_lies_on_the_surface() {
    for &(width, height, legend) in &[(800u16, 600u16, false), (600, 800, true), (65535, 1, true)] {
        let mut chart = LineChart::new(
            "t".to_string(),
            labels(&["a", "b", "c"]),
            vec![vec![-40_000, 7, i32::MAX], vec![i32::MIN, 0, 12]],
        )
        .unwrap();
        let mut prop = ChartProperties::new("t".to_string());
        prop.surface_size = SurfaceSize::new(width, height).unwrap();
        prop.show_legend = legend;
        chart.set_chart_prop(prop);
        let mut markers = 0;
        for primitive in chart.draw_chart() {
            if let Primitive::Marker { centre, .. } = primitive {
                assert!(0 < centre.x.num() && centre.x.num() < centre.x.den());
                assert!(0 <= centre.y.num() && centre.y.num() <= centre.y.den());
                markers += 1;
            }
        }
        assert_eq!(markers, 6);
    }
}

#[test]
fn a_clone_is_the_same_chart() {
    let mut chart =
        LineChart::new("t".to_string(), labels(&["a", "b"]), vec![vec![1, 3], vec![2, 2]]).unwrap();
    let mut prop = ChartProperties::new("t".to_string());
    prop.show_legend = true;
    prop.legend_entries = labels(&["first", "second"]);
    chart.set_chart_prop(prop.clone());
    chart.set_axis_titles("x".to_string(), "y".to_string());
    let copy = chart.clone();
    assert_eq!(copy, chart);
    assert_eq!(copy.draw_chart(), chart.draw_chart());
    assert_eq!(copy.get_chart_prop(), &prop);
    assert_eq!(copy.data().clone(), SeriesData::new(labels(&["a", "b"]), vec![vec![1, 3], vec![2, 2]]).unwrap());
    let wrapped = ChartType::Line(chart);
    assert_eq!(wrapped.clone(), wrapped);
}
