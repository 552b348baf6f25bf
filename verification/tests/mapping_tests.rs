use ascii_art::pixel::Pixel;
use ascii_art::ramp::{ramp_char, ramp_index, RAMP_LEN};

#[test]
fn ramp_index_in_bounds_for_all_lumas() {
    for luma in 0..=255u8 {
        let i = ramp_index(luma);
        assert!(i < RAMP_LEN);
        // The mapping is a pure function: a second call gives the same index.
        assert_eq!(i, ramp_index(luma));
    }
}

#[test]
fn ramp_index_endpoints() {
    assert_eq!(ramp_index(0), 0);
    assert_eq!(ramp_char(ramp_index(0)), '$');
    assert_eq!(ramp_index(255), 16);
    assert_eq!(ramp_char(ramp_index(255)), ' ');
    assert_eq!(ramp_index(254), 15);
    assert_eq!(ramp_char(ramp_index(254)), '.');
}

#[test]
fn ramp_index_monotone() {
    for luma in 0..255u8 {
        assert!(ramp_index(luma) <= ramp_index(luma + 1));
    }
}

#[test]
fn luma_of_known_pixels() {
    let white = Pixel { r: 255, g: 255, b: 255, a: 255 };
    assert_eq!(white.luma(), 255);
    let black = Pixel { r: 0, g: 0, b: 0, a: 255 };
    assert_eq!(black.luma(), 0);
    // 299 * 255 / 1000 == 76 by integer division.
    let red = Pixel { r: 255, g: 0, b: 0, a: 255 };
    assert_eq!(red.luma(), 76);
    let gray = Pixel { r: 128, g: 128, b: 128, a: 255 };
    assert_eq!(gray.luma(), 128);
}

#[test]
fn cell_policy_colour_off_is_white() {
    let p = Pixel { r: 10, g: 20, b: 30, a: 255 };
    let c = ascii_art::cell::make_cell(&p, false, false);
    assert_eq!((c.r, c.g, c.b), (255, 255, 255));
    assert!(!c.blank);
}

#[test]
fn cell_policy_colour_on_keeps_pixel_color() {
    let p = Pixel { r: 10, g: 20, b: 30, a: 255 };
    let c = ascii_art::cell::make_cell(&p, true, false);
    assert_eq!((c.r, c.g, c.b), (10, 20, 30));
}

#[test]
fn cell_policy_blank_only_under_no_bg() {
    let clear = Pixel { r: 1, g: 2, b: 3, a: 0 };
    assert!(ascii_art::cell::make_cell(&clear, false, true).blank);
    assert!(ascii_art::cell::make_cell(&clear, true, true).blank);
    assert!(!ascii_art::cell::make_cell(&clear, false, false).blank);
    let solid = Pixel { r: 1, g: 2, b: 3, a: 255 };
    assert!(!ascii_art::cell::make_cell(&solid, false, true).blank);
}
