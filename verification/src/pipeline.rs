//! The rendering pipeline: calculator, rasterizer, resolver and
//! compositor in sequence, any failure mapped to its error and
//! short-circuiting the run.
//!
//! The pipeline itself performs no I/O.  The caller reads the clock,
//! the font file and the background source, hands their contents in,
//! and persists the composited image that comes back.

use vstd::prelude::*;

verus! {

use crate::background::resolve_background;
use crate::config::{Background, Font, ScreenDimensions, UnitVisibility};
use crate::countdown::{compute, spec_label};
use crate::errors::PipelineError;
use crate::ext::{decode_rgba, parse_epoch, parse_epoch_of, render_label_png, render_png_of,
    rgba_decode_of};
use crate::raster::{blend, compose, composed_pixel, from_raw_rgba, raw_rgba_pixel, solid_pixel,
    Pixel, RasterImage};

/// Everything one render run needs, owned by that run: the deadline as
/// the editor saved it, the unit visibility, the background source, the
/// target dimensions, and the text styling.
#[derive(Debug, Clone, PartialEq)]
pub struct RenderConfig {
    pub deadline: String,
    pub visibility: UnitVisibility,
    pub background: Background,
    pub screen_dimensions: ScreenDimensions,
    pub font: Font,
    pub font_size: u8,
    pub font_color: [u8; 3],
}

/// The date/time grammar a deadline string must match: date, then
/// twelve-hour time with its AM/PM period.
pub open spec fn deadline_format() -> Seq<char> {
    "%Y-%m-%d %I:%M %p"@
}

/// Seconds between the clock reading and the parsed deadline, or
/// nothing when the deadline string does not parse.
pub open spec fn spec_deadline_diff(conf: RenderConfig, now_secs: i64) -> Option<int> {
    match parse_epoch_of(conf.deadline@, deadline_format()) {
        Some(t) => Some(t as int - now_secs as int),
        None => None,
    }
}

/// The rasterized countdown text of this run, decoded to dimensions and
/// raw RGBA bytes: the label of the breakdown, rendered with the given
/// font bytes at the configured size and color.  Nothing when the font
/// is unusable, the rendering fails, or its PNG does not decode.
pub open spec fn spec_text_image(conf: RenderConfig, font: Seq<u8>, diff: int) -> Option<
    (u32, u32, Seq<u8>),
> {
    match render_png_of(font, spec_label(diff, conf.visibility), conf.font_size, conf.font_color) {
        Some(png) => rgba_decode_of(png),
        None => None,
    }
}

/// What the background stage yields: the canvas dimensions, with the
/// decoded raw bytes for an image source and nothing for a solid color;
/// or the error of the source that failed.
pub open spec fn spec_background_outcome(conf: RenderConfig, bytes: Option<&Vec<u8>>) -> Result<
    (u32, u32, Option<Seq<u8>>),
    PipelineError,
> {
    match conf.background {
        Background::Solid(_) => Ok(
            (conf.screen_dimensions.width, conf.screen_dimensions.height, None::<Seq<u8>>),
        ),
        Background::FromDisk { .. } => match bytes {
            None => Err(PipelineError::NotFound),
            Some(b) => match rgba_decode_of(b@) {
                None => Err(PipelineError::DecodeError),
                Some(t) => Ok((t.0, t.1, Some(t.2))),
            },
        },
        Background::FromURL { .. } => match bytes {
            None => Err(PipelineError::DownloadError),
            Some(b) => match rgba_decode_of(b@) {
                None => Err(PipelineError::DecodeError),
                Some(t) => Ok((t.0, t.1, Some(t.2))),
            },
        },
    }
}

/// The pixel of the resolved background at a grid position: the solid
/// color, or the decoded image's own pixel.
pub open spec fn spec_background_pixel(
    conf: RenderConfig,
    bg: (u32, u32, Option<Seq<u8>>),
    x: int,
    y: int,
) -> Pixel {
    match conf.background {
        Background::Solid(rgb) => solid_pixel(rgb),
        _ => raw_rgba_pixel(bg.2.unwrap(), y * bg.0 as int + x),
    }
}

/// The finished wallpaper: the resolved background's dimensions, with
/// the decoded text blended over its center pixel for pixel and every
/// other pixel untouched.
pub open spec fn overlaid_output(
    img: RasterImage,
    conf: RenderConfig,
    bg: (u32, u32, Option<Seq<u8>>),
    text: (u32, u32, Seq<u8>),
) -> bool {
    let bw = bg.0 as int;
    let bh = bg.1 as int;
    let tw = text.0 as int;
    let th = text.1 as int;
    let ox = bw / 2 - tw / 2;
    let oy = bh / 2 - th / 2;
    &&& img.wf()
    &&& img.width == bg.0
    &&& img.height == bg.1
    &&& forall|x: int, y: int|
        0 <= x < bw && 0 <= y < bh ==> img.pix(x, y) == (if ox <= x && x < ox + tw && oy <= y
            && y < oy + th {
            blend(
                spec_background_pixel(conf, bg, x, y),
                raw_rgba_pixel(text.2, (y - oy) * tw + (x - ox)),
            )
        } else {
            spec_background_pixel(conf, bg, x, y)
        })
}

/// Runs the whole countdown-rendering pipeline on plain values and
/// returns the composited wallpaper image.
///
/// `now_secs` is the clock reading in whole seconds since the epoch,
/// `font_bytes` the contents of the chosen font file, and
/// `background_bytes` what the background source produced (`None` both
/// when the spec is a solid color and when the file read or download
/// failed).  The contract pins the run stage by stage: which error
/// comes back on which inputs, and for a run whose every stage
/// succeeds, the output image itself.  Persisting the result is the
/// caller's step, so `PersistError` never comes back from here.
pub fn generate_wallpaper(
    conf: &RenderConfig,
    now_secs: i64,
    font_bytes: &Vec<u8>,
    background_bytes: Option<&Vec<u8>>,
) -> (r: Result<RasterImage, PipelineError>)
    requires
        conf.background is Solid ==> conf.screen_dimensions.width as int
            * conf.screen_dimensions.height as int <= usize::MAX as int,
    ensures
        r != Err::<RasterImage, PipelineError>(PipelineError::PersistError),
        ({
            let diffo = spec_deadline_diff(*conf, now_secs);
            &&& (r == Err::<RasterImage, PipelineError>(PipelineError::MalformedDeadline)
                <==> diffo is None)
            &&& (diffo matches Some(diff) ==> {
                &&& (r == Err::<RasterImage, PipelineError>(PipelineError::PastDeadline)
                    <==> diff < 60)
                &&& (diff >= 60 ==> {
                    let texto = spec_text_image(*conf, font_bytes@, diff);
                    &&& (r == Err::<RasterImage, PipelineError>(PipelineError::InvalidFont)
                        <==> texto is None)
                    &&& (texto matches Some(text) ==> {
                        let bgo = spec_background_outcome(*conf, background_bytes);
                        &&& (bgo matches Err(e) ==> r == Err::<RasterImage, PipelineError>(e))
                        &&& (bgo matches Ok(bg) ==> {
                            &&& (r == Err::<RasterImage, PipelineError>(
                                PipelineError::SizeMismatch,
                            ) <==> !(text.0 < bg.0 && text.1 < bg.1))
                            &&& (text.0 < bg.0 && text.1 < bg.1 ==> (r matches Ok(img)
                                && overlaid_output(img, *conf, bg, text)))
                        })
                    })
                })
            })
        }),
{
    let deadline_secs = match parse_epoch(conf.deadline.as_str(), "%Y-%m-%d %I:%M %p") {
        None => { return Err(PipelineError::MalformedDeadline) },
        Some(t) => t,
    };
    let breakdown = match compute(now_secs, deadline_secs, conf.visibility) {
        Err(e) => { return Err(e) },
        Ok(b) => b,
    };
    let text_png = match render_label_png(font_bytes, breakdown.label.as_str(), conf.font_size,
        conf.font_color) {
        None => { return Err(PipelineError::InvalidFont) },
        Some(d) => d,
    };
    let text_img = match decode_rgba(&text_png) {
        None => { return Err(PipelineError::InvalidFont) },
        Some((w, h, raw)) => from_raw_rgba(w, h, &raw),
    };
    let bg_img = match resolve_background(&conf.background, conf.screen_dimensions,
        background_bytes) {
        Err(e) => { return Err(e) },
        Ok(img) => img,
    };
    match compose(&bg_img, &text_img) {
        Err(e) => Err(e),
        Ok(img) => {
            proof {
                let diff = deadline_secs as int - now_secs as int;
                let text = spec_text_image(*conf, font_bytes@, diff)->0;
                let bg = spec_background_outcome(*conf, background_bytes)->Ok_0;
                lemma_overlaid_output(img, *conf, bg, text, bg_img, text_img);
            }
            Ok(img)
        },
    }
}

/// The image that `compose` built from the resolved background and the
/// decoded text satisfies the pipeline's pixel-level output statement.
proof fn lemma_overlaid_output(
    img: RasterImage,
    conf: RenderConfig,
    bg: (u32, u32, Option<Seq<u8>>),
    text: (u32, u32, Seq<u8>),
    bg_img: RasterImage,
    text_img: RasterImage,
)
    requires
        bg_img.wf(),
        text_img.wf(),
        bg_img.width == bg.0,
        bg_img.height == bg.1,
        text_img.width == text.0,
        text_img.height == text.1,
        forall|x: int, y: int|
            0 <= x < bg.0 && 0 <= y < bg.1 ==> bg_img.pix(x, y) == spec_background_pixel(
                conf,
                bg,
                x,
                y,
            ),
        forall|x: int, y: int|
            0 <= x < text.0 && 0 <= y < text.1 ==> text_img.pix(x, y) == raw_rgba_pixel(
                text.2,
                y * text.0 as int + x,
            ),
        img.wf(),
        img.width == bg_img.width,
        img.height == bg_img.height,
        forall|x: int, y: int|
            0 <= x < bg_img.width && 0 <= y < bg_img.height ==> img.pix(x, y) == composed_pixel(
                bg_img,
                text_img,
                x,
                y,
            ),
    ensures
        overlaid_output(img, conf, bg, text),
{
    let bw = bg.0 as int;
    let bh = bg.1 as int;
    let tw = text.0 as int;
    let th = text.1 as int;
    let ox = bw / 2 - tw / 2;
    let oy = bh / 2 - th / 2;
    assert forall|x: int, y: int| 0 <= x < bw && 0 <= y < bh implies img.pix(x, y) == (if ox <= x
        && x < ox + tw && oy <= y && y < oy + th {
        blend(
            spec_background_pixel(conf, bg, x, y),
            raw_rgba_pixel(text.2, (y - oy) * tw + (x - ox)),
        )
    } else {
        spec_background_pixel(conf, bg, x, y)
    }) by {
        assert(img.pix(x, y) == composed_pixel(bg_img, text_img, x, y));
        assert(bg_img.pix(x, y) == spec_background_pixel(conf, bg, x, y));
        if ox <= x && x < ox + tw && oy <= y && y < oy + th {
            assert(text_img.pix(x - ox, y - oy) == raw_rgba_pixel(
                text.2,
                (y - oy) * tw + (x - ox),
            ));
        }
    }
}

} // verus!
