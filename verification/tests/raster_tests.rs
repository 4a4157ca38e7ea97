use deadliner::errors::PipelineError;
use deadliner::raster::{compose, from_raw_rgba, overlay_origin, solid, Pixel, RasterImage};

fn opaque_rect(width: u32, height: u32, rgb: [u8; 3]) -> RasterImage {
    let mut raw: Vec<u8> = Vec::new();
    for _ in 0..(width * height) {
        raw.push(rgb[0]);
        raw.push(rgb[1]);
        raw.push(rgb[2]);
        raw.push(255);
    }
    from_raw_rgba(width, height, &raw)
}

fn transparent_rect(width: u32, height: u32) -> RasterImage {
    let raw: Vec<u8> = vec![0u8; (width * height * 4) as usize];
    from_raw_rgba(width, height, &raw)
}

#[test]
fn solid_canvas_has_requested_dimensions_and_color() {
    let img = solid(5, 4, [10, 20, 30]);
    assert_eq!(img.width, 5);
    assert_eq!(img.height, 4);
    for y in 0..4 {
        for x in 0..5 {
            let p = img.pixel_at(x, y);
            assert_eq!(p, Pixel { r: 10, g: 20, b: 30, a: 255 });
        }
    }
}

#[test]
fn overlay_origin_centers_the_text() {
    assert_eq!(overlay_origin(1000, 800, 200, 100), (400, 350));
    // Odd slack goes to the top-left.
    assert_eq!(overlay_origin(5, 5, 2, 2), (1, 1));
}

#[test]
fn compose_rejects_text_as_wide_as_the_background() {
    let bg = solid(10, 10, [0, 0, 0]);
    let text = transparent_rect(10, 5);
    assert_eq!(compose(&bg, &text).unwrap_err(), PipelineError::SizeMismatch);
}

#[test]
fn compose_rejects_text_as_tall_as_the_background() {
    let bg = solid(10, 10, [0, 0, 0]);
    let text = transparent_rect(5, 10);
    assert_eq!(compose(&bg, &text).unwrap_err(), PipelineError::SizeMismatch);
}

#[test]
fn compose_accepts_any_strictly_smaller_text() {
    let bg = solid(10, 10, [0, 0, 0]);
    let text = transparent_rect(9, 9);
    let out = compose(&bg, &text).unwrap();
    assert_eq!(out.width, 10);
    assert_eq!(out.height, 10);
}

#[test]
fn size_mismatch_message_wording() {
    assert_eq!(
        PipelineError::SizeMismatch.message(),
        "Font size is bigger than wallpaper's dimensions!"
    );
}

#[test]
fn compose_overlays_opaque_text_centered() {
    let bg = solid(10, 8, [200, 0, 0]);
    let text = opaque_rect(4, 2, [0, 255, 0]);
    let out = compose(&bg, &text).unwrap();
    // Origin is (10/2 - 4/2, 8/2 - 2/2) = (3, 3).
    for y in 0..8 {
        for x in 0..10 {
            let p = out.pixel_at(x, y);
            if (3..7).contains(&x) && (3..5).contains(&y) {
                assert_eq!(p, Pixel { r: 0, g: 255, b: 0, a: 255 });
            } else {
                assert_eq!(p, Pixel { r: 200, g: 0, b: 0, a: 255 });
            }
        }
    }
}

#[test]
fn compose_keeps_background_under_transparent_text() {
    let bg = solid(10, 8, [1, 2, 3]);
    let text = transparent_rect(4, 2);
    let out = compose(&bg, &text).unwrap();
    for y in 0..8 {
        for x in 0..10 {
            assert_eq!(out.pixel_at(x, y), Pixel { r: 1, g: 2, b: 3, a: 255 });
        }
    }
}

#[test]
fn compose_on_two_copies_is_pixel_identical() {
    let bg1 = solid(12, 9, [5, 6, 7]);
    let bg2 = solid(12, 9, [5, 6, 7]);
    let text = opaque_rect(3, 3, [9, 9, 9]);
    let out1 = compose(&bg1, &text).unwrap();
    let out2 = compose(&bg2, &text).unwrap();
    assert_eq!(out1.to_raw_rgba(), out2.to_raw_rgba());
    // The inputs were not touched.
    assert_eq!(bg1.to_raw_rgba(), bg2.to_raw_rgba());
}

#[test]
fn raw_rgba_round_trips_through_the_image_type() {
    let raw: Vec<u8> = (0u8..48u8).collect();
    let img = from_raw_rgba(4, 3, &raw);
    assert_eq!(img.width, 4);
    assert_eq!(img.height, 3);
    assert_eq!(img.to_raw_rgba(), raw);
    assert_eq!(img.pixel_at(0, 0), Pixel { r: 0, g: 1, b: 2, a: 3 });
    assert_eq!(img.pixel_at(1, 2), Pixel { r: 36, g: 37, b: 38, a: 39 });
}

#[test]
fn blending_weighs_text_by_its_alpha() {
    let bg = solid(3, 3, [100, 100, 100]);
    // A single half-transparent white pixel, centered at (1, 1).
    let raw: Vec<u8> = vec![255, 255, 255, 128];
    let text = from_raw_rgba(1, 1, &raw);
    let out = compose(&bg, &text).unwrap();
    let p = out.pixel_at(1, 1);
    // (255 * 128 + 100 * 127) / 255 = 177 for each color channel;
    // alpha becomes 128 + 255 * 127 / 255 = 255.
    assert_eq!(p, Pixel { r: 177, g: 177, b: 177, a: 255 });
    assert_eq!(out.pixel_at(0, 0), Pixel { r: 100, g: 100, b: 100, a: 255 });
}
