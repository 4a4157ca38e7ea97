//! The background resolver: turns a background specification and the
//! bytes its source produced into a decoded raster image.
//!
//! Reading a file or downloading a URL happens outside the library; the
//! resolver receives the bytes, or `None` when the source failed, and
//! does everything that can be checked: the solid canvas, the decode
//! step, and the mapping of each failure to its error.

use vstd::prelude::*;

verus! {

use crate::config::{Background, ScreenDimensions};
use crate::errors::PipelineError;
use crate::ext::{decode_rgba, rgba_decode_of};
use crate::raster::{from_raw_rgba, raw_rgba_pixel, solid, solid_pixel, RasterImage};

/// What resolving from decoded bytes must yield: the decoded image,
/// pixel for pixel, or `DecodeError` when the bytes are no image.
pub open spec fn decoded_background_ok(
    bytes: Seq<u8>,
    r: Result<RasterImage, PipelineError>,
) -> bool {
    match rgba_decode_of(bytes) {
        None => r == Err::<RasterImage, PipelineError>(PipelineError::DecodeError),
        Some(t) => {
            &&& r is Ok
            &&& r.unwrap().wf()
            &&& r.unwrap().width == t.0
            &&& r.unwrap().height == t.1
            &&& forall|x: int, y: int|
                0 <= x < t.0 && 0 <= y < t.1 ==> r.unwrap().pix(x, y) == raw_rgba_pixel(
                    t.2,
                    y * t.0 as int + x,
                )
        },
    }
}

/// Decodes fetched background bytes into an image.
fn decode_background(bytes: &Vec<u8>) -> (r: Result<RasterImage, PipelineError>)
    ensures
        decoded_background_ok(bytes@, r),
{
    match decode_rgba(bytes) {
        None => Err(PipelineError::DecodeError),
        Some((w, h, raw)) => Ok(from_raw_rgba(w, h, &raw)),
    }
}

/// Resolves a background specification to pixels.
///
/// A solid color always succeeds and fills a canvas of exactly the
/// requested dimensions.  For the two image sources, `bytes` carries
/// what the file reader or the network collaborator produced: `None`
/// means the source itself failed, and is reported as `NotFound` for a
/// file and `DownloadError` for a URL; bytes that do not decode are a
/// `DecodeError`.  The fit mode plays no part here: it is recorded on
/// the specification and read by the wallpaper-setting collaborator.
pub fn resolve_background(
    bg: &Background,
    dims: ScreenDimensions,
    bytes: Option<&Vec<u8>>,
) -> (r: Result<RasterImage, PipelineError>)
    requires
        bg is Solid ==> dims.width as int * dims.height as int <= usize::MAX as int,
    ensures
        ({
            match *bg {
                Background::Solid(rgb) => {
                    &&& r is Ok
                    &&& r.unwrap().wf()
                    &&& r.unwrap().width == dims.width
                    &&& r.unwrap().height == dims.height
                    &&& forall|x: int, y: int|
                        0 <= x < dims.width && 0 <= y < dims.height ==> r.unwrap().pix(x, y)
                            == solid_pixel(rgb)
                },
                Background::FromDisk { .. } => match bytes {
                    None => r == Err::<RasterImage, PipelineError>(PipelineError::NotFound),
                    Some(b) => decoded_background_ok(b@, r),
                },
                Background::FromURL { .. } => match bytes {
                    None => r == Err::<RasterImage, PipelineError>(PipelineError::DownloadError),
                    Some(b) => decoded_background_ok(b@, r),
                },
            }
        }),
        r is Ok ==> r.unwrap().wf(),
{
    match bg {
        Background::Solid(rgb) => Ok(solid(dims.width, dims.height, *rgb)),
        Background::FromDisk { .. } => match bytes {
            None => Err(PipelineError::NotFound),
            Some(b) => decode_background(b),
        },
        Background::FromURL { .. } => match bytes {
            None => Err(PipelineError::DownloadError),
            Some(b) => decode_background(b),
        },
    }
}

} // verus!
