use linelight::quantize::{pack_rgb, quantize, quantize_channel};
use linelight::raster::{interior_columns, plot_index, plot_pair};

#[test]
fn plot_in_bounds_resolves_row_major_index() {
    assert_eq!(plot_index(0, 0, 10, 5), Some(0));
    assert_eq!(plot_index(3, 2, 10, 5), Some(23));
    assert_eq!(plot_index(9, 4, 10, 5), Some(49));
}

#[test]
fn plot_out_of_bounds_is_clipped() {
    assert_eq!(plot_index(-1, 0, 10, 5), None);
    assert_eq!(plot_index(0, -1, 10, 5), None);
    assert_eq!(plot_index(10, 0, 10, 5), None);
    assert_eq!(plot_index(0, 5, 10, 5), None);
    assert_eq!(plot_index(-1, -1, 10, 5), None);
}

#[test]
fn plot_pair_shallow_addresses_adjacent_rows() {
    let (lower, upper) = plot_pair(false, 2, 1, 10, 5);
    assert_eq!(lower, Some(12));
    assert_eq!(upper, Some(22));
}

#[test]
fn plot_pair_steep_swaps_axes_back() {
    let (lower, upper) = plot_pair(true, 2, 1, 10, 5);
    assert_eq!(lower, Some(21));
    assert_eq!(upper, Some(22));
}

#[test]
fn plot_pair_clips_the_off_image_neighbor() {
    let (lower, upper) = plot_pair(false, 0, 4, 10, 5);
    assert_eq!(lower, Some(40));
    assert_eq!(upper, None);
}

#[test]
fn horizontal_span_interior_columns() {
    // A segment anchored at columns 0 and 4 walks only columns 1 and 2: the
    // interior run stops one column short of the second anchor.
    assert_eq!(interior_columns(0, 4), vec![1, 2]);
}

#[test]
fn interior_columns_empty_for_short_spans() {
    assert_eq!(interior_columns(0, 2), Vec::<i32>::new());
    assert_eq!(interior_columns(5, 5), Vec::<i32>::new());
    assert_eq!(interior_columns(3, 0), Vec::<i32>::new());
}

#[test]
fn interior_columns_handles_negative_anchors() {
    assert_eq!(interior_columns(-3, 2), vec![-2, -1, 0]);
}

#[test]
fn quantizer_clamps_negative_to_zero() {
    let scaled = (-1.0f32 * 255.0) as i64;
    assert_eq!(quantize_channel(scaled), 0);
}

#[test]
fn quantizer_clamps_over_bright_to_full() {
    let scaled = (2.0f32 * 255.0) as i64;
    assert_eq!(quantize_channel(scaled), 255);
}

#[test]
fn quantizer_truncates_instead_of_rounding() {
    assert_eq!(quantize_channel((0.5f32 * 255.0) as i64), 127);
    assert_eq!(quantize_channel((0.9999f32 * 255.0) as i64), 254);
}

#[test]
fn pack_puts_red_high_and_blue_low() {
    assert_eq!(pack_rgb(0x12, 0x34, 0x56), 0x123456);
    assert_eq!(pack_rgb(255, 0, 0), 0xFF0000);
    assert_eq!(pack_rgb(0, 255, 0), 0x00FF00);
    assert_eq!(pack_rgb(0, 0, 255), 0x0000FF);
}

#[test]
fn quantize_matches_the_float_reference() {
    let cases: [(f32, f32, f32); 4] = [
        (0.0, 0.0, 0.0),
        (1.0, 1.0, 1.0),
        (0.25, 0.5, 0.75),
        (-1.0, 2.0, 0.5),
    ];
    for (r, g, b) in cases {
        let reference = {
            let rc = (r * 255.0).max(0.0).min(255.0) as u32;
            let gc = (g * 255.0).max(0.0).min(255.0) as u32;
            let bc = (b * 255.0).max(0.0).min(255.0) as u32;
            rc << 16 | gc << 8 | bc
        };
        let packed = quantize((r * 255.0) as i64, (g * 255.0) as i64, (b * 255.0) as i64);
        assert_eq!(packed, reference);
    }
}
