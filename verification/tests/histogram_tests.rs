use rustplot::chart::ChartType;
use rustplot::error::ChartError;
use rustplot::histogram::Histogram;
use rustplot::primitive::{Point, Primitive};
use rustplot::ratio::Ratio;
use rustplot::vertical_bar_chart::VerticalBarChart;

fn bin_labels(count: usize) -> Vec<String> {
    (0..count).map(|bin| format!("{}", bin * 100)).collect()
}

#[test]
fn histogram_tests() {
    let counts: Vec<i32> = vec![3, 17, 42, 118, 203, 251, 190, 111, 48, 17];
    assert_eq!(counts.iter().sum::<i32>(), 1000);
    let histogram_1 =
        Histogram::new(String::from("Test Histogram 1"), bin_labels(10), counts.clone()).unwrap();
    let drawing = histogram_1.draw_chart();
    let bars = drawing.iter().filter(|p| matches!(p, Primitive::Bar { .. })).count();
    assert_eq!(bars, 10);
    assert!(drawing.contains(&Primitive::Title {
        at: Point { x: Ratio::zero(), y: Ratio::zero() },
        text: String::from("Test Histogram 1"),
    }));
}

#[test]
fn a_histogram_is_a_bar_chart_of_one_series() {
    let counts = vec![1, 4, 2];
    let histogram = Histogram::new("h".to_string(), bin_labels(3), counts.clone()).unwrap();
    let bars = VerticalBarChart::new("h".to_string(), bin_labels(3), vec![counts]).unwrap();
    assert_eq!(histogram.draw_chart(), bars.draw_chart());
    assert_eq!(histogram.bars(), &bars);
    assert_eq!(histogram.bars().get_axis_prop().y_bounds(), (0, 4));
    let drawing = histogram.draw_chart();
    assert_eq!(histogram.clone(), histogram);
    assert_eq!(ChartType::Hist(histogram).draw_chart(), drawing);
}

#[test]
fn a_histogram_needs_one_count_per_bin() {
    assert_eq!(
        Histogram::new("h".to_string(), bin_labels(3), vec![1, 2]).err(),
        Some(ChartError::InvalidSeriesShape)
    );
    assert_eq!(
        Histogram::new("h".to_string(), Vec::new(), Vec::new()).err(),
        Some(ChartError::EmptyDataset)
    );
}
