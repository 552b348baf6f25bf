use ascii_art::cell::RenderOptions;
use ascii_art::grid::ImageGrid;
use ascii_art::pixel::Pixel;
use ascii_art::render::{render_grid, render_partitioned, render_rows};

fn solid(r: u8, g: u8, b: u8, a: u8) -> Pixel {
    Pixel { r, g, b, a }
}

fn plain_opts() -> RenderOptions {
    RenderOptions { colour: false, no_bg: false, capable: false }
}

#[test]
fn white_two_by_two_renders_as_blank_lines() {
    let px = vec![solid(255, 255, 255, 255); 4];
    let g = ImageGrid::from_pixels(2, 2, px).unwrap();
    let out = render_grid(&g, plain_opts());
    assert_eq!(out, "    \n    \n");
}

#[test]
fn transparent_single_pixel_renders_as_two_spaces() {
    let px = vec![solid(0, 0, 0, 0)];
    let g = ImageGrid::from_pixels(1, 1, px).unwrap();
    let o = RenderOptions { colour: false, no_bg: true, capable: false };
    let out = render_grid(&g, o);
    assert_eq!(out, "  \n");
}

#[test]
fn transparent_pixel_keeps_column_count() {
    // A transparent cell in the middle of a row still takes two columns.
    let px = vec![solid(0, 0, 0, 255), solid(9, 9, 9, 0), solid(0, 0, 0, 255)];
    let g = ImageGrid::from_pixels(3, 1, px).unwrap();
    let o = RenderOptions { colour: false, no_bg: true, capable: false };
    let out = render_grid(&g, o);
    assert_eq!(out, "$   $ \n");
    assert_eq!(out.lines().next().unwrap().chars().count(), 6);
}

#[test]
fn zero_width_or_height_renders_empty() {
    let g = ImageGrid::from_pixels(0, 5, vec![]).unwrap();
    assert_eq!(render_grid(&g, plain_opts()), "");
    let g2 = ImageGrid::from_pixels(5, 0, vec![]).unwrap();
    assert_eq!(render_grid(&g2, plain_opts()), "");
}

#[test]
fn mismatched_pixel_count_is_rejected() {
    assert!(ImageGrid::from_pixels(2, 2, vec![solid(0, 0, 0, 255); 3]).is_none());
}

#[test]
fn plain_output_has_no_escape_codes() {
    let px = vec![
        solid(255, 0, 0, 255),
        solid(0, 255, 0, 255),
        solid(0, 0, 255, 255),
        solid(12, 200, 90, 0),
    ];
    let g = ImageGrid::from_pixels(2, 2, px).unwrap();
    // Colour requested, but the stream takes no color: nothing is escaped.
    let o = RenderOptions { colour: true, no_bg: false, capable: false };
    let out = render_grid(&g, o);
    assert!(!out.contains('\u{1b}'));
}

#[test]
fn colored_output_wraps_glyph_in_truecolor_escape() {
    let px = vec![solid(255, 0, 0, 255)];
    let g = ImageGrid::from_pixels(1, 1, px).unwrap();
    let o = RenderOptions { colour: true, no_bg: false, capable: true };
    let out = render_grid(&g, o);
    // Red has luminance 76, bucket 4 of the ramp: '*'.
    assert_eq!(out, "\u{1b}[38;2;255;0;0m*\u{1b}[0m \n");
}

#[test]
fn escape_codes_carry_short_decimal_components() {
    // Channel values below ten and below a hundred print without padding.
    let px = vec![solid(10, 2, 0, 255)];
    let g = ImageGrid::from_pixels(1, 1, px).unwrap();
    let o = RenderOptions { colour: true, no_bg: false, capable: true };
    let out = render_grid(&g, o);
    // Luminance (299*10 + 587*2) / 1000 = 4, bucket 0 of the ramp: '$'.
    assert_eq!(out, "\u{1b}[38;2;10;2;0m$\u{1b}[0m \n");
}

#[test]
fn colour_off_on_capable_stream_paints_white() {
    let px = vec![solid(0, 0, 0, 255)];
    let g = ImageGrid::from_pixels(1, 1, px).unwrap();
    let o = RenderOptions { colour: false, no_bg: false, capable: true };
    let out = render_grid(&g, o);
    assert_eq!(out, "\u{1b}[38;2;255;255;255m$\u{1b}[0m \n");
}

#[test]
fn glyphs_follow_brightness() {
    let px = vec![solid(0, 0, 0, 255), solid(128, 128, 128, 255), solid(255, 255, 255, 255)];
    let g = ImageGrid::from_pixels(3, 1, px).unwrap();
    let out = render_grid(&g, plain_opts());
    // Luminance 0 -> '$', 128 -> bucket 8 -> ':', 255 -> ' '.
    assert_eq!(out, "$ :   \n");
}

#[test]
fn render_is_deterministic() {
    let px: Vec<Pixel> =
        (0..30u32).map(|i| solid((i * 7) as u8, (i * 13) as u8, (i * 29) as u8, 255)).collect();
    let g = ImageGrid::from_pixels(5, 6, px.clone()).unwrap();
    let g2 = ImageGrid::from_pixels(5, 6, px).unwrap();
    let o = RenderOptions { colour: true, no_bg: true, capable: true };
    assert_eq!(render_grid(&g, o), render_grid(&g2, o));
}

#[test]
fn partitioned_render_matches_sequential_for_any_worker_count() {
    let px: Vec<Pixel> =
        (0..35u32).map(|i| solid((i * 11) as u8, (i * 3) as u8, (i * 17) as u8, (i % 4) as u8)).collect();
    let g = ImageGrid::from_pixels(5, 7, px).unwrap();
    let o = RenderOptions { colour: true, no_bg: true, capable: true };
    let sequential = render_grid(&g, o);
    for workers in [1u8, 2, 8] {
        assert_eq!(render_partitioned(&g, workers, o), sequential);
    }
}

#[test]
fn row_ranges_concatenate_to_full_render() {
    let px: Vec<Pixel> = (0..12u32).map(|i| solid((i * 20) as u8, 0, 0, 255)).collect();
    let g = ImageGrid::from_pixels(3, 4, px).unwrap();
    let o = plain_opts();
    let mut joined = String::new();
    for (s, e) in ascii_art::geometry::row_partition(4, 3) {
        joined.push_str(&render_rows(&g, s, e, o));
    }
    assert_eq!(joined, render_grid(&g, o));
}
