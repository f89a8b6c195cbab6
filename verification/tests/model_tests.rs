use plotkit::colors::{generate_palette, parse_hex, parse_hex_color, parse_hex_digit, Palette, Rgba};
use plotkit::data_bound::{DataBound, DataBound2D};
use plotkit::draw_command::chart::chart::Chart;
use plotkit::draw_command::chart::chart_builder::ChartBuilder;
use plotkit::draw_command::chart::conversions::IntoChart;
use plotkit::draw_command::chart::series::ChartSeries;
use plotkit::draw_command::chart::series_builder::ChartSeriesBuilder;
use plotkit::draw_command::chart::series_style::SeriesStyle;
use plotkit::draw_command::chart::series_ty::{
    ChartSeriesLineConfig, ChartSeriesScatterConfig, ChartSeriesType,
};
use plotkit::map_reduce::MapReduce;
use plotkit::point_data::{data_from_iterator, IntoData};

fn bare_series(data: Vec<(i64, i64)>) -> ChartSeries {
    ChartSeries {
        name: String::new(),
        data,
        chart_series_type: ChartSeriesType::default(),
        style: SeriesStyle::default(),
    }
}

#[test]
fn normalize_preserves_length_and_order() {
    let data = vec![5i64, 7, 9].into_data();
    assert_eq!(data, vec![(0, 5), (1, 7), (2, 9)]);
}

#[test]
fn normalize_pairs_pass_through() {
    let data = vec![(3i64, 4i64), (1, 2), (1, 2)].into_data();
    assert_eq!(data, vec![(3, 4), (1, 2), (1, 2)]);
}

#[test]
fn normalize_single_values_are_indexed() {
    let data = data_from_iterator(vec![10u32, 20, 30, 40]);
    for (i, p) in data.iter().enumerate() {
        assert_eq!(p.0, i as i64);
    }
    assert_eq!(data, vec![(0, 10), (1, 20), (2, 30), (3, 40)]);
}

#[test]
fn normalize_other_widths() {
    assert_eq!(vec![-5i8, 3].into_data(), vec![(0, -5), (1, 3)]);
    assert_eq!(vec![250u8].into_data(), vec![(0, 250)]);
    assert_eq!(vec![7u64, 8].into_data(), vec![(0, 7), (1, 8)]);
    assert_eq!(vec![(1i32, -2i32)].into_data(), vec![(1, -2)]);
}

#[test]
fn normalize_arrays() {
    assert_eq!([5i64, 7, 9].into_data(), vec![(0, 5), (1, 7), (2, 9)]);
    assert_eq!([(3i64, 4i64), (1, 2)].into_data(), vec![(3, 4), (1, 2)]);
}

#[test]
fn map_reduce_seeds_with_first_item() {
    let r = vec![1i64, 2, 3].map_reduce(|x| x * 10, |acc, x| acc + x);
    assert_eq!(r, Some(15));
    let r = Vec::<i64>::new().map_reduce(|x| x, |acc, x| acc + x);
    assert_eq!(r, None);
}

#[test]
fn series_bounds_contain_all_points() {
    let s = bare_series(vec![(0, 0), (1, 5), (-2, 3)]);
    let b = s.bounds().unwrap();
    assert_eq!(b.x.as_tuple(), (-2, 1));
    assert_eq!(b.y.as_tuple(), (0, 5));
    for (x, y) in [(0i64, 0i64), (1, 5), (-2, 3)] {
        let (xmin, xmax) = b.x.as_tuple();
        let (ymin, ymax) = b.y.as_tuple();
        assert!(xmin <= x && x <= xmax);
        assert!(ymin <= y && y <= ymax);
    }
}

#[test]
fn empty_series_bounds_is_none() {
    let s = bare_series(Vec::new());
    assert!(s.bounds().is_none());
}

#[test]
fn data_bound_merges() {
    let a = DataBound(0, 1);
    let b = DataBound(-2, 3);
    assert_eq!(a.max(b), DataBound(0, 3));
    assert_eq!(a.extend_to_include(b), DataBound(-2, 3));
    assert_eq!(a.extend_to_include(5i64), DataBound(0, 5));
    assert_eq!(DataBound::zero(), DataBound(0, 0));
    let r = DataBound(2, 9).as_range();
    assert_eq!((r.start, r.end), (2, 9));
    let p = DataBound2D::from_point((4, -1));
    assert_eq!(p.x, DataBound(4, 4));
    assert_eq!(p.y, DataBound(-1, -1));
}

#[test]
fn chart_bounds_fixture() {
    let c = Chart {
        series_l: vec![bare_series(vec![(0, 0), (1, 5)])],
        series_r: vec![bare_series(vec![(0, 0), (2, 3)])],
        x_label: String::new(),
        y_label_l: String::new(),
        y_label_r: String::new(),
        title: String::new(),
        margin: 40,
    };
    let (x, yl, yr) = c.bounds();
    assert_eq!(x, Some(DataBound(0, 2)));
    assert_eq!(yl, Some(DataBound(0, 5)));
    assert_eq!(yr, Some(DataBound(0, 3)));
}

#[test]
fn chart_bounds_primary_max_merge_is_asymmetric() {
    // Two primary series: the primary reduction takes the max of the
    // mins, so the combined y minimum is 1, not 0.
    let c = Chart {
        series_l: vec![
            bare_series(vec![(0, 0), (1, 5)]),
            bare_series(vec![(-2, 1), (3, 2)]),
        ],
        series_r: Vec::new(),
        x_label: String::new(),
        y_label_l: String::new(),
        y_label_r: String::new(),
        title: String::new(),
        margin: 40,
    };
    let (x, yl, yr) = c.bounds();
    assert_eq!(x, Some(DataBound(0, 3)));
    assert_eq!(yl, Some(DataBound(1, 5)));
    assert_eq!(yr, None);
}

#[test]
fn chart_bounds_empty_sides_are_none() {
    let c = Chart {
        series_l: Vec::new(),
        series_r: Vec::new(),
        x_label: String::new(),
        y_label_l: String::new(),
        y_label_r: String::new(),
        title: String::new(),
        margin: 40,
    };
    assert_eq!(c.bounds(), (None, None, None));
}

#[test]
fn hex_digits_parse() {
    assert_eq!(parse_hex_digit('0'), 0);
    assert_eq!(parse_hex_digit('9'), 9);
    assert_eq!(parse_hex_digit('a'), 10);
    assert_eq!(parse_hex_digit('F'), 15);
}

#[test]
fn hex_strings_parse_base16() {
    assert_eq!(parse_hex("ff"), 255);
    assert_eq!(parse_hex("1f"), 31);
    assert_eq!(parse_hex("10"), 16);
    assert_eq!(parse_hex("ffffffff"), 0xffff_ffff);
    assert_eq!(parse_hex(""), 0);
}

#[test]
fn hex_colors_parse() {
    let c = parse_hex_color("1f77b4");
    assert_eq!(c, Rgba { r: 31, g: 119, b: 180, a: 255 });
    let with_hash = parse_hex_color("#1f77b4");
    assert_eq!(with_hash, c);
    let with_alpha = parse_hex_color("1f77b400");
    assert_eq!(with_alpha, Rgba { r: 31, g: 119, b: 180, a: 0 });
}

#[test]
fn palette_has_ten_colors_in_order() {
    let pal = generate_palette();
    assert_eq!(pal.len(), 10);
    assert_eq!(pal[0], Rgba { r: 31, g: 119, b: 180, a: 255 });
    assert_eq!(pal[1], Rgba { r: 255, g: 127, b: 14, a: 255 });
    assert_eq!(pal[7], Rgba { r: 127, g: 127, b: 127, a: 255 });
}

#[test]
fn palette_iter_yields_each_color_once() {
    let pal = generate_palette();
    let mut it = Palette::default().iter();
    let mut seen = Vec::new();
    while let Some(c) = it.next() {
        seen.push(c);
    }
    assert_eq!(seen, pal);
    assert_eq!(it.next(), None);
}

#[test]
fn palette_cycling_stops_after_exhaustion() {
    let pal = generate_palette();
    let mut b = ChartBuilder::default();
    for _ in 0..11 {
        b = b.add_series_l(vec![0i64]);
    }
    let c = b.build();
    assert_eq!(c.series_l.len(), 11);
    for i in 0..10 {
        assert_eq!(c.series_l[i].style.color, pal[i]);
    }
    // The palette is exhausted, not wrapped: the eleventh series keeps
    // the default (zero) color.
    assert_eq!(c.series_l[10].style.color, Rgba { r: 0, g: 0, b: 0, a: 0 });
}

#[test]
fn palette_assignment_spans_both_axes() {
    let pal = generate_palette();
    let c = ChartBuilder::default()
        .add_series_l(vec![0i64])
        .add_series_r(vec![1i64])
        .build();
    assert_eq!(c.series_l[0].style.color, pal[0]);
    assert_eq!(c.series_r[0].style.color, pal[1]);
}

#[test]
fn explicit_color_is_kept() {
    let pal = generate_palette();
    let red = Rgba { r: 255, g: 0, b: 0, a: 255 };
    let c = ChartBuilder::default()
        .add_series_l(ChartSeriesBuilder::default().data(vec![0i64]).color(red))
        .add_series_l(vec![0i64])
        .build();
    assert_eq!(c.series_l[0].style.color, red);
    // The explicit series still consumed a palette position.
    assert_eq!(c.series_l[1].style.color, pal[1]);
}

#[test]
fn mapping_builds_one_series_per_entry() {
    let pal = generate_palette();
    let mapping: Vec<(String, Vec<i64>)> =
        vec![("alpha".to_string(), vec![1i64, 2]), ("beta".to_string(), vec![3i64])];
    let c = mapping.into_chart();
    assert_eq!(c.title, "");
    assert!(c.series_r.is_empty());
    assert_eq!(c.series_l.len(), 2);
    assert_eq!(c.series_l[0].name, "alpha");
    assert_eq!(c.series_l[0].data, vec![(0, 1), (1, 2)]);
    assert_eq!(c.series_l[0].style.color, pal[0]);
    assert_eq!(c.series_l[1].name, "beta");
    assert_eq!(c.series_l[1].data, vec![(0, 3)]);
    assert_eq!(c.series_l[1].style.color, pal[1]);
}

#[test]
fn titled_mapping_sets_title() {
    let mapping: Vec<(String, Vec<i64>)> = vec![("x".to_string(), vec![4i64])];
    let c = (mapping, "speeds".to_string()).into_chart();
    assert_eq!(c.title, "speeds");
    assert_eq!(c.series_l.len(), 1);
    assert_eq!(c.series_l[0].name, "x");
}

#[test]
fn series_builder_configures_series() {
    let s = ChartSeriesBuilder::default()
        .data(vec![(1i64, 2i64)])
        .name("speed".to_string())
        .dashed()
        .build();
    assert_eq!(s.name, "speed");
    assert_eq!(s.data, vec![(1, 2)]);
    assert_eq!(
        s.chart_series_type,
        ChartSeriesType::Line(ChartSeriesLineConfig { dashed: true })
    );
}

#[test]
fn series_type_transitions() {
    let t = ChartSeriesType::default();
    assert_eq!(t, ChartSeriesType::Line(ChartSeriesLineConfig { dashed: false }));
    assert_eq!(t.get_line(), Some(ChartSeriesLineConfig { dashed: false }));
    assert_eq!(
        t.dashed(),
        ChartSeriesType::Line(ChartSeriesLineConfig { dashed: true })
    );
    let sc = t.scatter();
    assert_eq!(sc, ChartSeriesType::Scatter(ChartSeriesScatterConfig { filled: true }));
    assert_eq!(sc.get_line(), None);
    // dashed() on a scatter falls back to a fresh dashed line.
    assert_eq!(
        sc.dashed(),
        ChartSeriesType::Line(ChartSeriesLineConfig { dashed: true })
    );
    assert_eq!(
        sc.scatter_not_filled(),
        ChartSeriesType::Scatter(ChartSeriesScatterConfig { filled: false })
    );
}

#[test]
fn chart_builder_sets_labels() {
    let c = ChartBuilder::default()
        .title("t".to_string())
        .x_label("x".to_string())
        .y_label_l("l".to_string())
        .y_label_r("r".to_string())
        .margin(7)
        .build();
    assert_eq!(c.title, "t");
    assert_eq!(c.x_label, "x");
    assert_eq!(c.y_label_l, "l");
    assert_eq!(c.y_label_r, "r");
    assert_eq!(c.margin, 7);
    assert!(c.series_l.is_empty() && c.series_r.is_empty());
}
