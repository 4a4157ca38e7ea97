//! Owned raster images and the compositor.
//!
//! An image is a row-major pixel buffer with its dimensions.  The
//! compositor overlays the rasterized countdown text centered over the
//! background, blending by the text's alpha so that transparent text
//! pixels leave the background untouched.

use vstd::arithmetic::div_mod::{lemma_div_is_ordered, lemma_div_multiples_vanish};
use vstd::prelude::*;

verus! {

use crate::errors::PipelineError;

/// One RGBA pixel.
#[derive(Debug, Clone, Copy, PartialEq, Eq, Structural)]
pub struct Pixel {
    pub r: u8,
    pub g: u8,
    pub b: u8,
    pub a: u8,
}

/// An owned image: `width * height` pixels, row-major.
#[derive(Debug, Clone, PartialEq)]
pub struct RasterImage {
    pub width: u32,
    pub height: u32,
    pub pixels: Vec<Pixel>,
}

/// A row-major position lies inside the buffer of its grid.
proof fn lemma_grid_index(x: int, y: int, w: int, h: int)
    requires
        0 <= x < w,
        0 <= y < h,
    ensures
        0 <= y * w + x,
        y * w + x < w * h,
{
    assert(0 <= y * w + x && y * w + x < w * h) by (nonlinear_arith)
        requires
            0 <= x < w,
            0 <= y < h,
    ;
}

impl RasterImage {
    /// The buffer holds exactly one pixel per grid position.
    pub open spec fn wf(&self) -> bool {
        self.pixels@.len() == self.width as int * self.height as int
    }

    /// The pixel at column `x` of row `y`.
    pub open spec fn pix(&self, x: int, y: int) -> Pixel {
        self.pixels@[y * self.width as int + x]
    }

    /// Reads one pixel.
    pub fn pixel_at(&self, x: u32, y: u32) -> (p: Pixel)
        requires
            self.wf(),
            x < self.width,
            y < self.height,
        ensures
            p == self.pix(x as int, y as int),
    {
        proof {
            lemma_grid_index(x as int, y as int, self.width as int, self.height as int);
        }
        // Reading the length bounds the buffer, so the row-major index
        // arithmetic below cannot overflow usize.
        let _n = self.pixels.len();
        self.pixels[(y as usize) * (self.width as usize) + (x as usize)]
    }

    /// Flattens the image back into raw RGBA bytes, four per pixel.
    pub fn to_raw_rgba(&self) -> (r: Vec<u8>)
        requires
            self.wf(),
        ensures
            r@.len() == 4 * (self.width as int * self.height as int),
            forall|i: int|
                0 <= i < self.pixels@.len() ==> {
                    &&& r@[4 * i] == self.pixels@[i].r
                    &&& r@[4 * i + 1] == self.pixels@[i].g
                    &&& r@[4 * i + 2] == self.pixels@[i].b
                    &&& r@[4 * i + 3] == self.pixels@[i].a
                },
    {
        let n = self.pixels.len();
        let mut raw: Vec<u8> = Vec::new();
        let mut i: usize = 0;
        while i < n
            invariant
                i <= n,
                n == self.pixels@.len(),
                n <= usize::MAX,
                raw@.len() == 4 * i,
                forall|j: int|
                    0 <= j < i ==> {
                        &&& raw@[4 * j] == self.pixels@[j].r
                        &&& raw@[4 * j + 1] == self.pixels@[j].g
                        &&& raw@[4 * j + 2] == self.pixels@[j].b
                        &&& raw@[4 * j + 3] == self.pixels@[j].a
                    },
            decreases n - i,
    {
            let p = self.pixels[i];
            raw.push(p.r);
            raw.push(p.g);
            raw.push(p.b);
            raw.push(p.a);
            i = i + 1;
        }
        raw
    }
}

/// The opaque pixel of a solid background color.
pub open spec fn solid_pixel(rgb: [u8; 3]) -> Pixel {
    Pixel { r: rgb[0], g: rgb[1], b: rgb[2], a: 255 }
}

/// Allocates a canvas of the requested dimensions filled uniformly with
/// the requested color.  Never fails.
pub fn solid(width: u32, height: u32, rgb: [u8; 3]) -> (r: RasterImage)
    requires
        width as int * height as int <= usize::MAX as int,
    ensures
        r.wf(),
        r.width == width,
        r.height == height,
        forall|x: int, y: int|
            0 <= x < width && 0 <= y < height ==> r.pix(x, y) == solid_pixel(rgb),
{
    let total: usize = (width as usize) * (height as usize);
    let mut pixels: Vec<Pixel> = Vec::new();
    let mut i: usize = 0;
    while i < total
        invariant
            i <= total,
            total == width as int * height as int,
            pixels@.len() == i,
            forall|j: int| 0 <= j < i ==> pixels@[j] == solid_pixel(rgb),
        decreases total - i,
    {
        pixels.push(Pixel { r: rgb[0], g: rgb[1], b: rgb[2], a: 255 });
        i = i + 1;
    }
    let img = RasterImage { width, height, pixels };
    proof {
        assert forall|x: int, y: int|
            0 <= x < width && 0 <= y < height implies img.pix(x, y) == solid_pixel(rgb) by {
            lemma_grid_index(x, y, width as int, height as int);
        }
    }
    img
}

/// The pixel at buffer position `idx` of a raw RGBA byte sequence.
pub open spec fn raw_rgba_pixel(raw: Seq<u8>, idx: int) -> Pixel {
    Pixel { r: raw[4 * idx], g: raw[4 * idx + 1], b: raw[4 * idx + 2], a: raw[4 * idx + 3] }
}

/// Builds an image from raw RGBA bytes, four per pixel, row-major.
pub fn from_raw_rgba(width: u32, height: u32, raw: &Vec<u8>) -> (r: RasterImage)
    requires
        raw@.len() == 4 * (width as int * height as int),
    ensures
        r.wf(),
        r.width == width,
        r.height == height,
        forall|x: int, y: int|
            0 <= x < width && 0 <= y < height ==> r.pix(x, y) == raw_rgba_pixel(
                raw@,
                y * width as int + x,
            ),
{
    let n = raw.len();
    let total: usize = (width as usize) * (height as usize);
    let mut pixels: Vec<Pixel> = Vec::new();
    let mut i: usize = 0;
    while i < total
        invariant
            i <= total,
            total == width as int * height as int,
            n == raw@.len(),
            raw@.len() == 4 * (width as int * height as int),
            pixels@.len() == i,
            forall|j: int| 0 <= j < i ==> pixels@[j] == raw_rgba_pixel(raw@, j),
        decreases total - i,
    {
        let base: usize = 4 * i;
        pixels.push(
            Pixel { r: raw[base], g: raw[base + 1], b: raw[base + 2], a: raw[base + 3] },
        );
        i = i + 1;
    }
    let img = RasterImage { width, height, pixels };
    proof {
        assert forall|x: int, y: int|
            0 <= x < width && 0 <= y < height implies img.pix(x, y) == raw_rgba_pixel(
            raw@,
            y * width as int + x,
        ) by {
            lemma_grid_index(x, y, width as int, height as int);
        }
    }
    img
}

/// One channel of source-over blending with integer arithmetic: the text
/// weighs in by its alpha, the background by the rest.  A fully
/// transparent text pixel leaves the channel exactly unchanged; a fully
/// opaque one replaces it.
pub open spec fn blend_channel(bgc: int, fgc: int, alpha: int) -> int {
    (fgc * alpha + bgc * (255 - alpha)) / 255
}

/// Source-over blending of a text pixel onto a background pixel.
pub open spec fn blend(bg: Pixel, fg: Pixel) -> Pixel {
    Pixel {
        r: blend_channel(bg.r as int, fg.r as int, fg.a as int) as u8,
        g: blend_channel(bg.g as int, fg.g as int, fg.a as int) as u8,
        b: blend_channel(bg.b as int, fg.b as int, fg.a as int) as u8,
        a: (fg.a as int + (bg.a as int * (255 - fg.a as int)) / 255) as u8,
    }
}

/// Computes one blended channel.
fn blend_channel_exec(bgc: u8, fgc: u8, alpha: u8) -> (r: u8)
    ensures
        r as int == blend_channel(bgc as int, fgc as int, alpha as int),
{
    proof {
        assert((fgc as int) * (alpha as int) + (bgc as int) * (255 - alpha as int) <= 65025)
            by (nonlinear_arith)
            requires
                fgc as int <= 255,
                bgc as int <= 255,
                0 <= alpha as int <= 255,
        ;
        assert(0 <= (fgc as int) * (alpha as int) && 0 <= (bgc as int) * (255 - alpha as int))
            by (nonlinear_arith)
            requires
                0 <= fgc as int,
                0 <= bgc as int,
                0 <= alpha as int <= 255,
        ;
        lemma_div_is_ordered(
            (fgc as int) * (alpha as int) + (bgc as int) * (255 - alpha as int),
            65025,
            255,
        );
    }
    let v: u32 = (fgc as u32) * (alpha as u32) + (bgc as u32) * (255 - (alpha as u32));
    (v / 255) as u8
}

/// Computes one blended pixel.
fn blend_exec(bg: Pixel, fg: Pixel) -> (r: Pixel)
    ensures
        r == blend(bg, fg),
{
    proof {
        assert(0 <= (bg.a as int) * (255 - fg.a as int) && (bg.a as int) * (255 - fg.a as int)
            <= 255 * (255 - fg.a as int)) by (nonlinear_arith)
            requires
                0 <= bg.a as int <= 255,
                0 <= fg.a as int <= 255,
        ;
        lemma_div_is_ordered(
            (bg.a as int) * (255 - fg.a as int),
            255 * (255 - fg.a as int),
            255,
        );
        lemma_div_multiples_vanish(255 - fg.a as int, 255);
    }
    let rest: u32 = (bg.a as u32) * (255 - (fg.a as u32)) / 255;
    let a_out: u8 = fg.a + (rest as u8);
    Pixel {
        r: blend_channel_exec(bg.r, fg.r, fg.a),
        g: blend_channel_exec(bg.g, fg.g, fg.a),
        b: blend_channel_exec(bg.b, fg.b, fg.a),
        a: a_out,
    }
}

/// Where the top-left corner of the text lands: the text is centered,
/// and an odd pixel of slack goes to the top-left.
pub fn overlay_origin(bg_w: u32, bg_h: u32, t_w: u32, t_h: u32) -> (r: (u32, u32))
    requires
        t_w <= bg_w,
        t_h <= bg_h,
    ensures
        r.0 as int == bg_w as int / 2 - t_w as int / 2,
        r.1 as int == bg_h as int / 2 - t_h as int / 2,
{
    proof {
        lemma_div_is_ordered(t_w as int, bg_w as int, 2);
        lemma_div_is_ordered(t_h as int, bg_h as int, 2);
    }
    (bg_w / 2 - t_w / 2, bg_h / 2 - t_h / 2)
}

/// What each output pixel of the compositor is: inside the centered
/// text rectangle the blend of background and text, elsewhere the
/// background pixel unchanged.
pub open spec fn composed_pixel(bg: RasterImage, t: RasterImage, x: int, y: int) -> Pixel {
    let ox = bg.width as int / 2 - t.width as int / 2;
    let oy = bg.height as int / 2 - t.height as int / 2;
    if ox <= x && x < ox + t.width as int && oy <= y && y < oy + t.height as int {
        blend(bg.pix(x, y), t.pix(x - ox, y - oy))
    } else {
        bg.pix(x, y)
    }
}

/// Overlays the text image onto a copy of the background, centered.
/// Fails exactly when the text is not strictly smaller than the
/// background in both dimensions; the background itself is never
/// changed, and pixels outside the text rectangle are kept as they are.
pub fn compose(bg: &RasterImage, text: &RasterImage) -> (r: Result<RasterImage, PipelineError>)
    requires
        bg.wf(),
        text.wf(),
    ensures
        (r is Err) <==> (bg.width <= text.width || bg.height <= text.height),
        r is Err ==> r == Err::<RasterImage, PipelineError>(PipelineError::SizeMismatch),
        r is Ok ==> {
            let img = r.unwrap();
            &&& img.wf()
            &&& img.width == bg.width
            &&& img.height == bg.height
            &&& forall|x: int, y: int|
                0 <= x < bg.width && 0 <= y < bg.height ==> img.pix(x, y) == composed_pixel(
                    *bg,
                    *text,
                    x,
                    y,
                )
        },
{
    if bg.width <= text.width || bg.height <= text.height {
        return Err(PipelineError::SizeMismatch);
    }
    let w = bg.width;
    let h = bg.height;
    let origin = overlay_origin(w, h, text.width, text.height);
    let ox = origin.0;
    let oy = origin.1;
    let mut pixels: Vec<Pixel> = Vec::new();
    let mut y: u32 = 0;
    while y < h
        invariant
            bg.wf(),
            text.wf(),
            w == bg.width,
            h == bg.height,
            text.width < w,
            text.height < h,
            ox as int == w as int / 2 - text.width as int / 2,
            oy as int == h as int / 2 - text.height as int / 2,
            y <= h,
            pixels@.len() == y as int * w as int,
            forall|xx: int, yy: int|
                0 <= xx < w && 0 <= yy < y ==> pixels@[yy * w as int + xx] == composed_pixel(
                    *bg,
                    *text,
                    xx,
                    yy,
                ),
        decreases h - y,
    {
        let mut x: u32 = 0;
        while x < w
            invariant
                bg.wf(),
                text.wf(),
                w == bg.width,
                h == bg.height,
                text.width < w,
                text.height < h,
                ox as int == w as int / 2 - text.width as int / 2,
                oy as int == h as int / 2 - text.height as int / 2,
                y < h,
                x <= w,
                pixels@.len() == y as int * w as int + x as int,
                forall|xx: int, yy: int|
                    0 <= xx < w && 0 <= yy < y ==> pixels@[yy * w as int + xx] == composed_pixel(
                        *bg,
                        *text,
                        xx,
                        yy,
                    ),
                forall|xx: int|
                    0 <= xx < x ==> pixels@[y as int * w as int + xx] == composed_pixel(
                        *bg,
                        *text,
                        xx,
                        y as int,
                    ),
            decreases w - x,
        {
            let inside = (x as u64) >= (ox as u64) && (x as u64) < (ox as u64) + (
            text.width as u64) && (y as u64) >= (oy as u64) && (y as u64) < (oy as u64) + (
            text.height as u64);
            let p = if inside {
                blend_exec(bg.pixel_at(x, y), text.pixel_at(x - ox, y - oy))
            } else {
                bg.pixel_at(x, y)
            };
            pixels.push(p);
            proof {
                assert(pixels@[y as int * w as int + x as int] == composed_pixel(
                    *bg,
                    *text,
                    x as int,
                    y as int,
                ));
                assert forall|xx: int, yy: int|
                    0 <= xx < w && 0 <= yy < y implies pixels@[yy * w as int + xx]
                    == composed_pixel(*bg, *text, xx, yy) by {
                    lemma_grid_index(xx, yy, w as int, y as int);
                    assert(yy * w as int + xx < y as int * w as int + x as int + 1);
                }
            }
            x = x + 1;
        }
        proof {
            assert(pixels@.len() == (y as int + 1) * w as int) by (nonlinear_arith)
                requires
                    pixels@.len() == y as int * w as int + w as int,
            ;
        }
        y = y + 1;
    }
    let img = RasterImage { width: w, height: h, pixels };
    proof {
        assert(h as int * w as int == w as int * h as int) by (nonlinear_arith);
        assert(img.wf());
    }
    Ok(img)
}

/// Composing the same text image onto two independent, equal copies of
/// a background yields pixel-identical outputs: the composed pixel is a
/// function of the two images alone.
pub proof fn lemma_compose_copies_identical(bg1: RasterImage, bg2: RasterImage, t: RasterImage)
    requires
        bg1 == bg2,
    ensures
        forall|x: int, y: int| composed_pixel(bg1, t, x, y) == composed_pixel(bg2, t, x, y),
{
}

} // verus!
