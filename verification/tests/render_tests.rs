use rustplot::data::{clone_series, clone_strings, AxisProperties, ChartProperties, SeriesData};
use rustplot::palette::{color_for_index, Colour, PALETTE_SIZE};
use rustplot::primitive::{series_colour, Point, Primitive};
use rustplot::ratio::Ratio;
use rustplot::render::{draw_legend, draw_title, draw_trailing, draw_x_axis_cat, draw_y_axis_con};
use rustplot::scale::{plan, SurfaceSize};

fn ratio(num: i128, den: i128) -> Ratio {
    Ratio::new(num, den).unwrap()
}

fn labels(names: &[&str]) -> Vec<String> {
    names.iter().map(|name| name.to_string()).collect()
}

#[test]
fn palette_repeats_after_its_last_colour() {
    assert_eq!(PALETTE_SIZE, 8);
    assert_eq!(color_for_index(0), Colour { red: 31, green: 119, blue: 180 });
    assert_eq!(color_for_index(7), Colour { red: 127, green: 127, blue: 127 });
    for index in 0..40 {
        assert_eq!(color_for_index(index), color_for_index(index + PALETTE_SIZE));
    }
    assert_eq!(color_for_index(usize::MAX), color_for_index(usize::MAX % 8));
}

#[test]
fn palette_colours_differ_within_one_round() {
    for a in 0..PALETTE_SIZE {
        for b in (a + 1)..PALETTE_SIZE {
            assert_ne!(color_for_index(a), color_for_index(b));
        }
    }
}

#[test]
fn series_colour_names_index_and_colour() {
    assert_eq!(
        series_colour(2),
        Primitive::SeriesColour { index: 2, colour: Colour { red: 44, green: 160, blue: 44 } }
    );
}

#[test]
fn title_is_anchored_at_the_upper_left_of_the_plot() {
    let scale = plan(SurfaceSize::new(800, 600).unwrap(), true);
    let mut out = vec![series_colour(0)];
    draw_title(&mut out, &scale, &"Readings".to_string());
    assert_eq!(
        out,
        vec![
            series_colour(0),
            Primitive::Title {
                at: Point { x: ratio(0, 1), y: ratio(0, 1) },
                text: "Readings".to_string()
            },
        ]
    );
}

#[test]
fn category_axis_lies_at_the_height_of_zero() {
    let data = SeriesData::new(labels(&["a", "b"]), vec![vec![-10, 30]]).unwrap();
    let mut axis = AxisProperties::for_data(&data, false);
    axis.set_x_title("category".to_string());
    assert_eq!(axis.y_bounds(), (-10, 30));
    let scale = plan(SurfaceSize::new(800, 600).unwrap(), false);
    let mut out = Vec::new();
    draw_x_axis_cat(&mut out, &scale, &data, &axis);
    assert_eq!(
        out,
        vec![
            // at 1 - 10/40 of the height, from the left edge to the width 600/800
            Primitive::CategoryAxis {
                from: Point { x: ratio(0, 1), y: ratio(30, 40) },
                to: Point { x: ratio(600, 800), y: ratio(30, 40) },
                title: "category".to_string(),
            },
            Primitive::CategoryLabel {
                at: Point { x: ratio(600, 3200), y: ratio(30, 40) },
                text: "a".to_string(),
            },
            Primitive::CategoryLabel {
                at: Point { x: ratio(1800, 3200), y: ratio(30, 40) },
                text: "b".to_string(),
            },
        ]
    );
}

#[test]
fn value_axis_has_a_tick_at_every_step() {
    let data = SeriesData::new(labels(&["a", "b"]), vec![vec![-10, 30]]).unwrap();
    let mut axis = AxisProperties::for_data(&data, false);
    axis.set_y_title("value".to_string());
    assert_eq!(axis.y_scale(), 5);
    let scale = plan(SurfaceSize::new(600, 800).unwrap(), false);
    let mut out = Vec::new();
    draw_y_axis_con(&mut out, &scale, &axis);
    assert_eq!(out.len(), 10);
    assert_eq!(
        out[0],
        Primitive::ValueAxis {
            from: Point { x: ratio(0, 1), y: ratio(40 * 800, 40 * 800) },
            to: Point { x: ratio(0, 1), y: ratio(40 * 800 - 40 * 600, 40 * 800) },
            title: "value".to_string(),
        }
    );
    for k in 0..9i64 {
        // lower - (5k / 40) * (600 / 800)
        let expected = Primitive::ValueTick {
            at: Point { x: ratio(0, 1), y: ratio((40 * 800 - 5 * k * 600) as i128, 40 * 800) },
            value: -10 + 5 * k,
        };
        assert_eq!(out[1 + k as usize], expected);
    }
}

#[test]
fn legend_has_one_entry_per_label() {
    // with its band of 240 the surface is 1040 wide, and the band starts at 800
    let scale = plan(SurfaceSize::new(800, 600).unwrap(), true);
    let mut out = Vec::new();
    draw_legend(&mut out, &scale, &labels(&["north", "south", "east"]));
    assert_eq!(
        out,
        vec![
            Primitive::LegendEntry {
                index: 0,
                colour: color_for_index(0),
                at: Point { x: ratio(800, 1040), y: ratio(0, 3) },
                text: "north".to_string()
            },
            Primitive::LegendEntry {
                index: 1,
                colour: color_for_index(1),
                at: Point { x: ratio(800, 1040), y: ratio(1, 3) },
                text: "south".to_string()
            },
            Primitive::LegendEntry {
                index: 2,
                colour: color_for_index(2),
                at: Point { x: ratio(800, 1040), y: ratio(2, 3) },
                text: "east".to_string()
            },
        ]
    );
    let mut none = Vec::new();
    draw_legend(&mut none, &scale, &Vec::new());
    assert!(none.is_empty());
}

#[test]
fn trailing_parts_come_in_a_fixed_order() {
    let data = SeriesData::new(labels(&["a"]), vec![vec![1]]).unwrap();
    let axis = AxisProperties::for_data(&data, true);
    let mut prop = ChartProperties::new("t".to_string());
    prop.show_legend = true;
    prop.legend_entries = labels(&["only"]);
    let mut out = Vec::new();
    draw_trailing(&mut out, &data, &prop, &axis);
    let kinds: Vec<&str> = out
        .iter()
        .map(|p| match p {
            Primitive::Title { .. } => "title",
            Primitive::CategoryAxis { .. } => "category axis",
            Primitive::CategoryLabel { .. } => "category label",
            Primitive::ValueAxis { .. } => "value axis",
            Primitive::ValueTick { .. } => "value tick",
            Primitive::LegendEntry { .. } => "legend entry",
            _ => "other",
        })
        .collect();
    assert_eq!(
        kinds,
        vec![
            "title",
            "category axis",
            "category label",
            "value axis",
            "value tick",
            "value tick",
            "legend entry"
        ]
    );
}

#[test]
fn copies_of_labels_and_series_hold_the_same() {
    let names = labels(&["a", "", "c"]);
    assert_eq!(clone_strings(&names), names);
    assert!(clone_strings(&Vec::new()).is_empty());
    let series = vec![vec![1, 2], vec![], vec![-3]];
    assert_eq!(clone_series(&series), series);
}
