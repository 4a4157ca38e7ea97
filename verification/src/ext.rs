//! The trusted boundary: the few outside calls the pipeline makes, each
//! behind a wrapper whose contract states what the called crate's source
//! shows.  Everything downstream of these results is verified.

use vstd::prelude::*;

verus! {

/// What parsing a date/time string against a format and reading it as
/// whole seconds since the epoch yields; a function of the two strings
/// alone.
pub uninterp spec fn parse_epoch_of(s: Seq<char>, fmt: Seq<char>) -> Option<i64>;

/// Relies on chrono::NaiveDateTime::parse_from_str for the date/time
/// grammar, and on NaiveDateTime::and_utc with DateTime::timestamp to
/// read the parsed wall-clock value as whole seconds since the epoch.
/// Both depend on their inputs alone.
#[verifier::external_body]
pub(crate) fn parse_epoch(s: &str, fmt: &str) -> (r: Option<i64>)
    ensures
        r == parse_epoch_of(s@, fmt@),
{
    match chrono::NaiveDateTime::parse_from_str(s, fmt) {
        Ok(dt) => Some(dt.and_utc().timestamp()),
        Err(_) => None,
    }
}

/// What decoding image bytes to dimensions and a raw RGBA buffer
/// yields; a function of the bytes alone.
pub uninterp spec fn rgba_decode_of(bytes: Seq<u8>) -> Option<(u32, u32, Seq<u8>)>;

/// Relies on image::load_from_memory to decode the bytes, and on
/// DynamicImage::to_rgba8 with ImageBuffer::into_raw for the pixels.
/// to_rgba8 always rebuilds the buffer through ImageBuffer::new, so the
/// raw bytes are exactly four per pixel, row-major.
#[verifier::external_body]
pub(crate) fn decode_rgba(bytes: &Vec<u8>) -> (r: Option<(u32, u32, Vec<u8>)>)
    ensures
        r is Some <==> rgba_decode_of(bytes@) is Some,
        r matches Some(t) ==> {
            let s = rgba_decode_of(bytes@).unwrap();
            &&& t.0 == s.0
            &&& t.1 == s.1
            &&& t.2@ == s.2
            &&& t.2@.len() == 4 * (t.0 as int * t.1 as int)
        },
{
    match image::load_from_memory(bytes) {
        Ok(img) => {
            let buf = img.to_rgba8();
            let w = buf.width();
            let h = buf.height();
            Some((w, h, buf.into_raw()))
        },
        Err(_) => None,
    }
}

/// What rasterizing a label with a font, a pixel size and a color
/// yields as PNG bytes; a function of the four arguments alone.
pub uninterp spec fn render_png_of(
    font: Seq<u8>,
    label: Seq<char>,
    size: u8,
    color: [u8; 3],
) -> Option<Seq<u8>>;

/// Relies on text_to_png::TextRenderer::try_new_with_ttf_font_data and
/// TextRenderer::render_text_to_png_data, called with a Color value: a
/// renderer comes back exactly when the bytes parse as a TrueType font
/// or collection, and the PNG of the rendered line depends on the font
/// bytes, the label, the pixel size and the color alone (the renderer
/// lays text out with the supplied font data only; a zero size fails).
#[verifier::external_body]
pub(crate) fn render_label_png(
    font_bytes: &Vec<u8>,
    label: &str,
    font_size: u8,
    color: [u8; 3],
) -> (r: Option<Vec<u8>>)
    ensures
        r is Some <==> render_png_of(font_bytes@, label@, font_size, color) is Some,
        r matches Some(v) ==> v@ == render_png_of(font_bytes@, label@, font_size, color).unwrap(),
{
    let renderer = match text_to_png::TextRenderer::try_new_with_ttf_font_data(
        font_bytes.as_slice(),
    ) {
        Ok(renderer) => renderer,
        Err(_) => return None,
    };
    renderer.render_text_to_png_data(
        label,
        font_size,
        text_to_png::Color::new(color[0], color[1], color[2]),
    ).ok().map(|png| png.data)
}

} // verus!
