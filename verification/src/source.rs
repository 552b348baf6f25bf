//! The image-source collaborator: trusted declarations over the `image`
//! crate, the read of a decoded image into a grid, and the whole pipeline.

use vstd::prelude::*;
use vstd::string::StringExecFns;
use crate::cell::RenderOptions;
use crate::grid::ImageGrid;
use crate::pixel::Pixel;
use crate::render::{lemma_empty_render, render_grid, rows_text_spec};

verus! {

/// Declares the `image` crate's decoded image so that it can cross this
/// crate's signatures; its contents are reached only through the trusted
/// functions below.
#[verifier::external_type_specification]
#[verifier::external_body]
pub struct ExDynamicImage(image::DynamicImage);

/// Width in pixels of a decoded image.
pub uninterp spec fn img_width(img: image::DynamicImage) -> u32;

/// Height in pixels of a decoded image.
pub uninterp spec fn img_height(img: image::DynamicImage) -> u32;

/// The RGBA bytes of each pixel of a decoded image, keyed by column and row.
pub uninterp spec fn img_pixels(img: image::DynamicImage) -> Map<(u32, u32), (u8, u8, u8, u8)>;

/// The RGBA bytes of one of this crate's pixels.
pub open spec fn pixel_bytes(p: Pixel) -> (u8, u8, u8, u8) {
    (p.r, p.g, p.b, p.a)
}

/// Relies on `image::GenericImageView::dimensions` for `DynamicImage`: the
/// width and height of the decoded image.
#[verifier::external_body]
fn image_dims(img: &image::DynamicImage) -> (d: (u32, u32))
    ensures
        d.0 == img_width(*img),
        d.1 == img_height(*img),
{
    image::GenericImageView::dimensions(img)
}

/// Relies on `image::GenericImageView::get_pixel` for `DynamicImage`: the
/// RGBA value at an in-bounds coordinate (out of bounds it would panic, so
/// the bounds are required here).
#[verifier::external_body]
fn image_pixel_at(img: &image::DynamicImage, x: u32, y: u32) -> (p: Pixel)
    requires
        x < img_width(*img),
        y < img_height(*img),
    ensures
        pixel_bytes(p) == img_pixels(*img)[(x, y)],
{
    let q = image::GenericImageView::get_pixel(img, x, y);
    Pixel { r: q.0[0], g: q.0[1], b: q.0[2], a: q.0[3] }
}

/// Width of the contrast-adjusted, nearest-neighbor-resized image. Both
/// transforms are deterministic in the image value and the amounts, so the
/// result is a function of these arguments alone.
pub uninterp spec fn prepared_w(img: image::DynamicImage, contrast: i8, bw: u32, bh: u32) -> u32;

/// Height of the contrast-adjusted, nearest-neighbor-resized image.
pub uninterp spec fn prepared_h(img: image::DynamicImage, contrast: i8, bw: u32, bh: u32) -> u32;

/// The RGBA bytes of each pixel of the contrast-adjusted, nearest-neighbor-
/// resized image, keyed by column and row.
pub uninterp spec fn prepared_pix(img: image::DynamicImage, contrast: i8, bw: u32, bh: u32) -> Map<
    (u32, u32),
    (u8, u8, u8, u8),
>;

/// Relies on `image::DynamicImage::adjust_contrast` (maps pixel values only,
/// keeping the dimensions) followed by `image::DynamicImage::resize` with the
/// nearest-neighbor filter (scaled to fit the given bounds preserving aspect
/// ratio; neither output dimension is zero when the input's are not; bounds
/// equal to the input's dimensions return the image unchanged, a clone).
/// Both are deterministic in the image value and the amounts, so the result
/// carries the names above.
#[verifier::external_body]
fn image_prepare(img: &image::DynamicImage, contrast: i8, bw: u32, bh: u32) -> (r:
    image::DynamicImage)
    requires
        img_width(*img) >= 1,
        img_height(*img) >= 1,
        bw >= 1,
        bh >= 1,
    ensures
        img_width(r) == prepared_w(*img, contrast, bw, bh),
        img_height(r) == prepared_h(*img, contrast, bw, bh),
        img_pixels(r) == prepared_pix(*img, contrast, bw, bh),
        img_width(r) >= 1,
        img_height(r) >= 1,
        bw == img_width(*img) && bh == img_height(*img) ==> img_width(r) == bw && img_height(r)
            == bh,
{
    let adjusted = img.adjust_contrast(contrast.into());
    adjusted.resize(bw, bh, image::imageops::FilterType::Nearest)
}

/// The one fatal error of the pipeline itself: the resampled pixel domain,
/// one extra slot per row counted for the line terminator, does not fit the
/// 32-bit unsigned range.
#[derive(Clone, Copy, PartialEq, Eq, Structural, Debug)]
pub enum RenderError {
    ImageTooLarge,
}

impl RenderError {
    /// A human-readable description, for the caller's error stream.
    pub fn message(&self) -> (m: String)
        ensures
            m@ == "image too large"@,
    {
        String::from_str("image too large")
    }
}

/// Reads a whole decoded image into a grid of plain pixels. Fails exactly
/// when the pixel count, one extra slot per row included, exceeds the 32-bit
/// unsigned range.
pub fn grid_of(img: &image::DynamicImage) -> (r: Result<ImageGrid, RenderError>)
    ensures
        match r {
            Ok(g) => g.wf() && g.width == img_width(*img) && g.height == img_height(*img) && (
            img_width(*img) as int + 1) * (img_height(*img) as int) <= u32::MAX as int && forall|
                x: u32,
                y: u32,
            |
                x < g.width && y < g.height ==> (#[trigger] img_pixels(*img)[(x, y)])
                    == pixel_bytes(g.pixel_spec(x as int, y as int)),
            Err(e) => e == RenderError::ImageTooLarge && (img_width(*img) as int + 1) * (img_height(
                *img,
            ) as int) > u32::MAX as int,
        },
{
    let (w, h) = image_dims(img);
    proof {
        assert((w as int + 1) * (h as int) <= (u32::MAX as int + 1) * (u32::MAX as int))
            by (nonlinear_arith)
            requires
                w <= u32::MAX,
                h <= u32::MAX,
        ;
    }
    let total: u64 = ((w as u64) + 1) * (h as u64);
    if total > (u32::MAX as u64) {
        return Err(RenderError::ImageTooLarge);
    }
    let mut pixels: Vec<Pixel> = Vec::new();
    let mut y: u32 = 0;
    while y < h
        invariant
            w == img_width(*img),
            h == img_height(*img),
            y <= h,
            (w as int + 1) * (h as int) <= u32::MAX as int,
            pixels@.len() == (y as int) * (w as int),
            forall|xx: u32, yy: u32|
                xx < w && yy < y ==> (#[trigger] img_pixels(*img)[(xx, yy)]) == pixel_bytes(
                    pixels@[(yy as int) * (w as int) + (xx as int)],
                ),
        decreases h as int - y as int,
    {
        let mut x: u32 = 0;
        while x < w
            invariant
                w == img_width(*img),
                h == img_height(*img),
                y < h,
                x <= w,
                (w as int + 1) * (h as int) <= u32::MAX as int,
                pixels@.len() == (y as int) * (w as int) + (x as int),
                forall|xx: u32, yy: u32|
                    xx < w && yy < y ==> (#[trigger] img_pixels(*img)[(xx, yy)]) == pixel_bytes(
                        pixels@[(yy as int) * (w as int) + (xx as int)],
                    ),
                forall|xx: u32|
                    xx < x ==> (#[trigger] img_pixels(*img)[(xx, y)]) == pixel_bytes(
                        pixels@[(y as int) * (w as int) + (xx as int)],
                    ),
            decreases w as int - x as int,
        {
            let p = image_pixel_at(img, x, y);
            pixels.push(p);
            proof {
                assert forall|xx: u32, yy: u32| xx < w && yy < y implies (
                #[trigger] img_pixels(*img)[(xx, yy)]) == pixel_bytes(
                    pixels@[(yy as int) * (w as int) + (xx as int)],
                ) by {
                    assert((yy as int) * (w as int) + (xx as int) < (y as int) * (w as int))
                        by (nonlinear_arith)
                        requires
                            0 <= (yy as int),
                            0 <= (xx as int),
                            (yy as int) < (y as int),
                            (xx as int) < (w as int),
                    ;
                }
            }
            x = x + 1;
        }
        proof {
            assert((y as int + 1) * (w as int) == (y as int) * (w as int) + (w as int))
                by (nonlinear_arith);
            assert forall|xx: u32, yy: u32| xx < w && yy <= y implies (
            #[trigger] img_pixels(*img)[(xx, yy)]) == pixel_bytes(
                pixels@[(yy as int) * (w as int) + (xx as int)],
            ) by {
                if yy < y {
                    assert(img_pixels(*img)[(xx, yy)] == pixel_bytes(
                        pixels@[(yy as int) * (w as int) + (xx as int)],
                    ));
                } else {
                    assert(yy == y);
                    assert(img_pixels(*img)[(xx, y)] == pixel_bytes(
                        pixels@[(y as int) * (w as int) + (xx as int)],
                    ));
                }
            }
        }
        y = y + 1;
    }
    proof {
        assert((h as int) * (w as int) == (w as int) * (h as int));
    }
    Ok(ImageGrid { width: w, height: h, pixels })
}

/// One of this crate's pixels from its RGBA bytes.
pub open spec fn pixel_of_bytes(b: (u8, u8, u8, u8)) -> Pixel {
    Pixel { r: b.0, g: b.1, b: b.2, a: b.3 }
}

/// The row-major pixel sequence of a `w` by `h` coordinate-keyed RGBA map.
pub open spec fn grid_seq(pix: Map<(u32, u32), (u8, u8, u8, u8)>, w: u32, h: u32) -> Seq<Pixel> {
    Seq::new(
        (w as nat) * (h as nat),
        |i: int|
            pixel_of_bytes(pix[(((i % (w as int)) as u32), ((i / (w as int)) as u32))]),
    )
}

/// A well-formed grid whose pixels agree with a coordinate-keyed map at every
/// in-bounds coordinate is, as a row-major sequence, exactly that map's.
proof fn lemma_grid_seq_matches(g: ImageGrid, pix: Map<(u32, u32), (u8, u8, u8, u8)>)
    requires
        g.wf(),
        g.width >= 1,
        forall|x: u32, y: u32|
            x < g.width && y < g.height ==> (#[trigger] pix[(x, y)]) == pixel_bytes(
                g.pixel_spec(x as int, y as int),
            ),
    ensures
        g.pixels@ == grid_seq(pix, g.width, g.height),
{
    let w = g.width as int;
    let h = g.height as int;
    assert forall|i: int| 0 <= i < w * h implies g.pixels@[i] == grid_seq(pix, g.width, g.height)[i]
        by {
        let x = i % w;
        let y = i / w;
        vstd::arithmetic::div_mod::lemma_fundamental_div_mod(i, w);
        vstd::arithmetic::div_mod::lemma_mod_bound(i, w);
        assert(0 <= x < w);
        assert(y * w + x == i);
        assert(0 <= y < h) by (nonlinear_arith)
            requires
                w >= 1,
                0 <= i < w * h,
                0 <= x < w,
                y * w + x == i,
        ;
        assert(pix[((x as u32), (y as u32))] == pixel_bytes(g.pixel_spec(x, y)));
        assert(grid_seq(pix, g.width, g.height)[i] == pixel_of_bytes(pix[((x as u32), (y as u32))]));
    }
    assert(g.pixels@ =~= grid_seq(pix, g.width, g.height));
}

/// Runs the image-side half of the pipeline: contrast adjustment, the empty
/// cases, nearest-neighbor resizing to the target bounds, and the read into a
/// grid. A zero target bound or a zero source dimension yields the empty
/// grid; otherwise the grid is exactly the prepared image, and the one error
/// comes exactly when its pixel domain is too large for 32 bits.
pub fn prepare_grid(img: &image::DynamicImage, contrast: i8, tw: u32, th: u32) -> (r: Result<
    ImageGrid,
    RenderError,
>)
    ensures
        match r {
            Ok(g) => g.wf() && ((tw == 0 || th == 0 || img_width(*img) == 0 || img_height(*img)
                == 0) ==> (g.width == 0 && g.height == 0)) && (tw >= 1 && th >= 1 && img_width(
                *img,
            ) >= 1 && img_height(*img) >= 1 ==> (g.width == prepared_w(*img, contrast, tw, th)
                && g.height == prepared_h(*img, contrast, tw, th) && g.width >= 1 && g.height >= 1
                && forall|x: u32, y: u32|
                x < g.width && y < g.height ==> (#[trigger] prepared_pix(*img, contrast, tw, th)[
                (x, y)]) == pixel_bytes(g.pixel_spec(x as int, y as int)))) && (tw >= 1 && th >= 1
                && tw == img_width(*img) && th == img_height(*img) ==> g.width == tw && g.height
                == th),
            Err(e) => e == RenderError::ImageTooLarge && tw >= 1 && th >= 1,
        },
        (tw == 0 || th == 0 || img_width(*img) == 0 || img_height(*img) == 0) ==> r is Ok,
        tw >= 1 && th >= 1 && img_width(*img) >= 1 && img_height(*img) >= 1 ==> (r is Err <==> (
        prepared_w(*img, contrast, tw, th) as int + 1) * (prepared_h(*img, contrast, tw, th) as int)
            > u32::MAX as int),
        tw >= 1 && th >= 1 && tw == img_width(*img) && th == img_height(*img) ==> (r is Err <==> (
        tw as int + 1) * (th as int) > u32::MAX as int),
{
    let (sw, sh) = image_dims(img);
    if tw == 0 || th == 0 || sw == 0 || sh == 0 {
        let none: Vec<Pixel> = Vec::new();
        let empty = ImageGrid { width: 0, height: 0, pixels: none };
        proof {
            assert(empty.width == 0);
            assert(empty.height == 0);
            assert((empty.width as int) * (empty.height as int) == 0);
            assert(empty.wf());
        }
        return Ok(empty);
    }
    let prepared = image_prepare(img, contrast, tw, th);
    grid_of(&prepared)
}

/// The text of the whole pipeline on a nonempty image and nonzero target
/// bounds: the rendering of the prepared (contrast-adjusted, resized) image,
/// a function of the image value and the flags alone.
pub open spec fn pipeline_text_spec(
    img: image::DynamicImage,
    contrast: i8,
    tw: u32,
    th: u32,
    o: RenderOptions,
) -> Seq<char> {
    rows_text_spec(
        prepared_w(img, contrast, tw, th) as int,
        grid_seq(
            prepared_pix(img, contrast, tw, th),
            prepared_w(img, contrast, tw, th),
            prepared_h(img, contrast, tw, th),
        ),
        0,
        prepared_h(img, contrast, tw, th) as int,
        o,
    )
}

/// Running the pipeline twice on the same image and flags produces
/// byte-identical output: its text depends on nothing but the image value
/// and the flags.
pub proof fn lemma_pipeline_deterministic(
    img1: image::DynamicImage,
    img2: image::DynamicImage,
    contrast: i8,
    tw: u32,
    th: u32,
    o: RenderOptions,
)
    requires
        img1 == img2,
    ensures
        pipeline_text_spec(img1, contrast, tw, th, o) == pipeline_text_spec(img2, contrast, tw, th, o),
{
}

/// The whole pipeline on a decoded image: contrast adjustment, resize to the
/// target bounds, luminance mapping, color policy and row-major rendering.
/// A zero target bound yields empty output without error; otherwise the
/// output is exactly the rendering of the prepared image, so two runs on the
/// same image and flags give byte-identical output.
pub fn run_pipeline(img: &image::DynamicImage, contrast: i8, tw: u32, th: u32, o: RenderOptions) -> (r:
    Result<String, RenderError>)
    ensures
        match r {
            Ok(out) => ((tw == 0 || th == 0 || img_width(*img) == 0 || img_height(*img) == 0)
                ==> out@ == Seq::<char>::empty()) && (tw >= 1 && th >= 1 && img_width(*img) >= 1
                && img_height(*img) >= 1 ==> out@ == pipeline_text_spec(*img, contrast, tw, th, o)),
            Err(e) => e == RenderError::ImageTooLarge && tw >= 1 && th >= 1,
        },
        (tw == 0 || th == 0 || img_width(*img) == 0 || img_height(*img) == 0) ==> r is Ok,
        tw >= 1 && th >= 1 && img_width(*img) >= 1 && img_height(*img) >= 1 ==> (r is Err <==> (
        prepared_w(*img, contrast, tw, th) as int + 1) * (prepared_h(*img, contrast, tw, th) as int)
            > u32::MAX as int),
        tw >= 1 && th >= 1 && tw == img_width(*img) && th == img_height(*img) ==> (r is Err <==> (
        tw as int + 1) * (th as int) > u32::MAX as int),
{
    match prepare_grid(img, contrast, tw, th) {
        Ok(g) => {
            let out = render_grid(&g, o);
            proof {
                if g.width == 0 || g.height == 0 {
                    lemma_empty_render(g, o);
                }
                if tw >= 1 && th >= 1 && img_width(*img) >= 1 && img_height(*img) >= 1 {
                    lemma_grid_seq_matches(g, prepared_pix(*img, contrast, tw, th));
                }
            }
            Ok(out)
        },
        Err(e) => Err(e),
    }
}

} // verus!
