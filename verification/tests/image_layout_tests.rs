use plotkit::draw_command::image::builder::ImageBuilder;
use plotkit::draw_command::image::pixel::{IntoPixel, PixelCoreType};
use plotkit::draw_command::image::{Image, ImageFormat, ImageStyle};
use plotkit::draw_command::layout::layout_builder::LayoutBuilder;
use plotkit::draw_command::layout::{GridConstraint, Layout};
use plotkit::draw_command::{plot, plot_chart, plot_image, plot_layout, DrawComand};

#[test]
fn grid_constraint_rows() {
    assert_eq!(GridConstraint::Rows(3).calculate_rows_cols(7), (3, 3));
    assert_eq!(GridConstraint::Rows(2).calculate_rows_cols(4), (2, 2));
    assert_eq!(GridConstraint::Rows(5).calculate_rows_cols(0), (5, 0));
}

#[test]
fn grid_constraint_columns() {
    assert_eq!(GridConstraint::Columns(2).calculate_rows_cols(7), (4, 2));
    assert_eq!(GridConstraint::Columns(3).calculate_rows_cols(9), (3, 3));
}

#[test]
fn pixel_normalization_endpoints() {
    assert_eq!(0i64.normalize(0, 10), 0);
    assert_eq!(10i64.normalize(0, 10), 255);
    assert_eq!(5i64.normalize(0, 10), 127);
    assert_eq!(7i32.normalize(7, 7), 0);
    // Every width shares the same linear rescale, 8-bit channels too.
    assert_eq!(3u8.normalize(0, 10), 76);
    assert_eq!(10u8.normalize(0, 10), 255);
}

#[test]
fn scalar_cells_broadcast() {
    assert_eq!(0i64.into_pixel(0, 10), [0, 0, 0]);
    assert_eq!(10i64.into_pixel(0, 10), [255, 255, 255]);
    assert_eq!((0i64, 5i64, 10i64).into_pixel(0, 10), [0, 127, 255]);
    assert_eq!([10i32, 0, 10].into_pixel(0, 10), [255, 0, 255]);
}

#[test]
fn image_from_scalar_grid() {
    let img = Image::from_grid(vec![vec![0i64], vec![10i64]]);
    assert_eq!(img.rows, 2);
    assert_eq!(img.cols, 1);
    assert_eq!(img.format, ImageFormat::Png);
    assert_eq!(img.title, "");
    assert!(!img.style.draw_axes);
    let decoded = image::load_from_memory(&img.buffer).unwrap().to_rgb8();
    assert_eq!((decoded.width(), decoded.height()), (1, 2));
    assert_eq!(decoded.get_pixel(0, 0).0, [0, 0, 0]);
    assert_eq!(decoded.get_pixel(0, 1).0, [255, 255, 255]);
}

#[test]
fn image_ragged_rows_pad_black() {
    let img = Image::from_grid(vec![vec![0i64, 10], vec![5i64]]);
    assert_eq!((img.rows, img.cols), (2, 2));
    let decoded = image::load_from_memory(&img.buffer).unwrap().to_rgb8();
    assert_eq!(decoded.get_pixel(0, 0).0, [0, 0, 0]);
    assert_eq!(decoded.get_pixel(1, 0).0, [255, 255, 255]);
    assert_eq!(decoded.get_pixel(0, 1).0, [127, 127, 127]);
    // The missing cell of the shorter row is black.
    assert_eq!(decoded.get_pixel(1, 1).0, [0, 0, 0]);
}

#[test]
fn image_u8_grid_rescales_like_other_widths() {
    let img = Image::from_grid(vec![vec![0u8, 5u8, 10u8]]);
    let decoded = image::load_from_memory(&img.buffer).unwrap().to_rgb8();
    assert_eq!(decoded.get_pixel(0, 0).0, [0, 0, 0]);
    assert_eq!(decoded.get_pixel(1, 0).0, [127, 127, 127]);
    assert_eq!(decoded.get_pixel(2, 0).0, [255, 255, 255]);
}

#[test]
fn image_round_trip_dimensions() {
    let img = Image::from_grid(vec![vec![1i64, 2, 3], vec![4, 5, 6]]);
    assert_eq!((img.rows, img.cols), (2, 3));
    assert_eq!(img.decode_dims(), Some((2, 3)));
}

#[test]
fn image_builder_adjusts_style() {
    let img = Image::from_grid(vec![vec![0u8, 255u8]]);
    let built = ImageBuilder::from(img).axes().build();
    assert!(built.style.draw_axes);
    let img2 = Image::from_grid(vec![vec![0u8, 255u8]]);
    let styled = ImageBuilder::from(img2).style(ImageStyle { draw_axes: false }).build();
    assert!(!styled.style.draw_axes);
}

#[test]
fn layout_builder_last_call_wins() {
    let l = LayoutBuilder::default()
        .vsplit(vec![DrawComand::Blank, DrawComand::Blank])
        .hsplit(vec![DrawComand::Blank])
        .build();
    match l {
        Layout::HSplit(cmds) => assert_eq!(cmds.len(), 1),
        _ => panic!("expected the last call to win"),
    }
}

#[test]
fn layout_builder_grid_variants() {
    let l = LayoutBuilder::default().grid_with_rows(vec![DrawComand::Blank], 2).build();
    match l {
        Layout::Grid { commands, constraint } => {
            assert_eq!(commands.len(), 1);
            assert_eq!(constraint, GridConstraint::Rows(2));
        }
        _ => panic!("expected a grid"),
    }
    let l = LayoutBuilder::default().grid_with_cols(Vec::new(), 4).build();
    match l {
        Layout::Grid { constraint, .. } => assert_eq!(constraint, GridConstraint::Columns(4)),
        _ => panic!("expected a grid"),
    }
}

#[test]
fn plot_wraps_values_into_commands() {
    let cmd = plot(vec![1i64, 2, 3]);
    match cmd {
        DrawComand::Chart(c) => {
            assert_eq!(c.series_l.len(), 1);
            assert_eq!(c.series_l[0].data, vec![(0, 1), (1, 2), (2, 3)]);
        }
        _ => panic!("expected a chart command"),
    }
}

#[test]
fn plot_named_series() {
    let cmd = plot((vec![4i64, 5], "line".to_string()));
    match cmd {
        DrawComand::Chart(c) => {
            assert_eq!(c.series_l[0].name, "line");
            assert_eq!(c.series_l[0].data, vec![(0, 4), (1, 5)]);
        }
        _ => panic!("expected a chart command"),
    }
}

#[test]
fn plot_chart_builds_through_closure() {
    let cmd = plot_chart(|b| b.title("hello".to_string()).add_series_l(vec![1i64]));
    match cmd {
        DrawComand::Chart(c) => {
            assert_eq!(c.title, "hello");
            assert_eq!(c.series_l.len(), 1);
        }
        _ => panic!("expected a chart command"),
    }
}

#[test]
fn plot_image_and_layout() {
    let img = Image::from_grid(vec![vec![0i64, 1]]);
    match plot_image(img) {
        DrawComand::Image(i) => assert_eq!((i.rows, i.cols), (1, 2)),
        _ => panic!("expected an image command"),
    }
    let cmd = plot_layout(|l| l.vsplit(vec![DrawComand::Blank, DrawComand::Blank]));
    match cmd {
        DrawComand::Layout(l) => match *l {
            Layout::VSplit(cmds) => assert_eq!(cmds.len(), 2),
            _ => panic!("expected a vertical split"),
        },
        _ => panic!("expected a layout command"),
    }
}
