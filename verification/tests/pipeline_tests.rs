use ascii_art::cell::RenderOptions;
use ascii_art::source::{grid_of, prepare_grid, run_pipeline, RenderError};

fn plain_opts() -> RenderOptions {
    RenderOptions { colour: false, no_bg: false, capable: false }
}

fn rgba_image(width: u32, height: u32, pixels: Vec<[u8; 4]>) -> image::DynamicImage {
    let mut buf = image::RgbaImage::new(width, height);
    let mut i = 0;
    for y in 0..height {
        for x in 0..width {
            buf.put_pixel(x, y, image::Rgba(pixels[i]));
            i += 1;
        }
    }
    image::DynamicImage::ImageRgba8(buf)
}

#[test]
fn white_image_full_scale_renders_blank_lines() {
    let img = rgba_image(2, 2, vec![[255, 255, 255, 255]; 4]);
    let out = run_pipeline(&img, 0, 2, 2, plain_opts()).unwrap();
    assert_eq!(out, "    \n    \n");
}

#[test]
fn transparent_image_with_no_bg_renders_two_spaces() {
    let img = rgba_image(1, 1, vec![[0, 0, 0, 0]]);
    let o = RenderOptions { colour: false, no_bg: true, capable: false };
    let out = run_pipeline(&img, 0, 1, 1, o).unwrap();
    assert_eq!(out, "  \n");
}

#[test]
fn zero_target_yields_empty_output_without_error() {
    let img = rgba_image(3, 3, vec![[9, 9, 9, 255]; 9]);
    assert_eq!(run_pipeline(&img, 0, 0, 3, plain_opts()).unwrap(), "");
    assert_eq!(run_pipeline(&img, 0, 3, 0, plain_opts()).unwrap(), "");
}

#[test]
fn pipeline_is_deterministic() {
    let pixels: Vec<[u8; 4]> =
        (0..16u32).map(|i| [(i * 15) as u8, (i * 5) as u8, (i * 9) as u8, 255]).collect();
    let img = rgba_image(4, 4, pixels);
    let o = RenderOptions { colour: true, no_bg: true, capable: true };
    let first = run_pipeline(&img, 10, 2, 2, o).unwrap();
    let second = run_pipeline(&img, 10, 2, 2, o).unwrap();
    assert_eq!(first, second);
}

#[test]
fn contrast_zero_keeps_pixel_values() {
    // Contrast zero goes through the image collaborator's floating-point
    // transform, which is an identity up to its rounding; black, mid gray
    // and white pass through it exactly.
    let pixels = vec![[0, 0, 0, 255], [128, 128, 128, 255], [255, 255, 255, 255], [0, 128, 255, 0]];
    let img = rgba_image(2, 2, pixels.clone());
    let g = prepare_grid(&img, 0, 2, 2).unwrap();
    assert_eq!(g.grid_width(), 2);
    assert_eq!(g.grid_height(), 2);
    for y in 0..2u32 {
        for x in 0..2u32 {
            let p = g.pixel(x, y);
            let want = pixels[(y * 2 + x) as usize];
            assert_eq!([p.r, p.g, p.b, p.a], want);
        }
    }
}

#[test]
fn grid_reads_back_exact_pixels() {
    let pixels = vec![[1, 2, 3, 4], [5, 6, 7, 8], [9, 10, 11, 12], [13, 14, 15, 16]];
    let img = rgba_image(2, 2, pixels.clone());
    let g = grid_of(&img).unwrap();
    assert_eq!(g.grid_width(), 2);
    assert_eq!(g.grid_height(), 2);
    for y in 0..2u32 {
        for x in 0..2u32 {
            let p = g.pixel(x, y);
            assert_eq!([p.r, p.g, p.b, p.a], pixels[(y * 2 + x) as usize]);
        }
    }
}

#[test]
fn downscale_halves_the_grid() {
    // A 4x4 image resized into 2x2 bounds: two rows of two cells each.
    let img = rgba_image(4, 4, vec![[0, 0, 0, 255]; 16]);
    let out = run_pipeline(&img, 0, 2, 2, plain_opts()).unwrap();
    assert_eq!(out, "$ $ \n$ $ \n");
}

#[test]
fn nonzero_contrast_changes_mid_gray() {
    // A strong contrast pushes a mid-bright gray away from where it was; this
    // run must differ from the run with contrast zero.
    let img = rgba_image(2, 2, vec![[100, 100, 100, 255]; 4]);
    let o = RenderOptions { colour: true, no_bg: false, capable: true };
    let boosted = run_pipeline(&img, 80, 2, 2, o).unwrap();
    let untouched = run_pipeline(&img, 0, 2, 2, o).unwrap();
    assert_ne!(boosted, untouched);
}

#[test]
fn error_message_names_the_fault() {
    assert_eq!(RenderError::ImageTooLarge.message(), "image too large");
}
