use std::io::Cursor;

use deadliner::background::resolve_background;
use deadliner::config::{Background, Font, ScreenDimensions, UnitVisibility, WallpaperMode};
use deadliner::errors::PipelineError;
use deadliner::pipeline::{generate_wallpaper, RenderConfig};

fn test_config(deadline: &str, background: Background) -> RenderConfig {
    RenderConfig {
        deadline: deadline.to_owned(),
        visibility: UnitVisibility { months: false, weeks: false, days: true, hours: true },
        background,
        screen_dimensions: ScreenDimensions { width: 640, height: 480 },
        font: Font::PoppinsBlack,
        font_size: 100,
        font_color: [255, 255, 255],
    }
}

fn png_bytes(width: u32, height: u32, rgb: [u8; 3]) -> Vec<u8> {
    let mut buf = image::RgbaImage::new(width, height);
    for p in buf.pixels_mut() {
        *p = image::Rgba([rgb[0], rgb[1], rgb[2], 255]);
    }
    let mut bytes: Vec<u8> = Vec::new();
    buf.write_to(&mut Cursor::new(&mut bytes), image::ImageOutputFormat::Png).unwrap();
    bytes
}

#[test]
fn malformed_deadline_is_reported() {
    let conf = test_config("tomorrow, probably", Background::Solid([0, 0, 0]));
    let r = generate_wallpaper(&conf, 0, &vec![0u8; 4], None);
    assert_eq!(r.unwrap_err(), PipelineError::MalformedDeadline);
}

#[test]
fn past_deadline_is_reported_before_any_rendering() {
    let conf = test_config("2000-01-01 07:28 AM", Background::Solid([0, 0, 0]));
    // A clock reading far after the year 2000; the nonsense font bytes
    // are never reached.
    let r = generate_wallpaper(&conf, 1_600_000_000, &vec![0u8; 4], None);
    assert_eq!(r.unwrap_err(), PipelineError::PastDeadline);
}

#[test]
fn unusable_font_bytes_are_reported() {
    let conf = test_config("2100-01-01 07:28 AM", Background::Solid([0, 0, 0]));
    let r = generate_wallpaper(&conf, 1_600_000_000, &vec![0u8; 4], None);
    assert_eq!(r.unwrap_err(), PipelineError::InvalidFont);
}

#[test]
fn deadline_parsing_reads_twelve_hour_time() {
    // "1970-01-01 12:05 AM" is five minutes past the epoch.  With 59
    // seconds left the deadline has passed; with 60 it has not, and the
    // run proceeds to the font and fails there.
    let conf = test_config("1970-01-01 12:05 AM", Background::Solid([0, 0, 0]));
    let r = generate_wallpaper(&conf, 241, &vec![0u8; 4], None);
    assert_eq!(r.unwrap_err(), PipelineError::PastDeadline);
    let r = generate_wallpaper(&conf, 240, &vec![0u8; 4], None);
    assert_eq!(r.unwrap_err(), PipelineError::InvalidFont);
}

#[test]
fn solid_background_resolves_to_the_requested_canvas() {
    let dims = ScreenDimensions { width: 7, height: 5 };
    let img = resolve_background(&Background::Solid([9, 8, 7]), dims, None).unwrap();
    assert_eq!(img.width, 7);
    assert_eq!(img.height, 5);
    for y in 0..5 {
        for x in 0..7 {
            let p = img.pixel_at(x, y);
            assert_eq!((p.r, p.g, p.b, p.a), (9, 8, 7, 255));
        }
    }
}

#[test]
fn missing_file_bytes_are_not_found() {
    let dims = ScreenDimensions { width: 10, height: 10 };
    let bg = Background::FromDisk { location: "bg.png".to_owned(), mode: WallpaperMode::Crop };
    let r = resolve_background(&bg, dims, None);
    assert_eq!(r.unwrap_err(), PipelineError::NotFound);
}

#[test]
fn missing_download_bytes_are_a_download_error() {
    let dims = ScreenDimensions { width: 10, height: 10 };
    let bg = Background::FromURL { url: "https://example.com/bg".to_owned(), mode: WallpaperMode::Fit };
    let r = resolve_background(&bg, dims, None);
    assert_eq!(r.unwrap_err(), PipelineError::DownloadError);
}

#[test]
fn garbage_bytes_are_a_decode_error() {
    let dims = ScreenDimensions { width: 10, height: 10 };
    let bg = Background::FromDisk { location: "bg.png".to_owned(), mode: WallpaperMode::Center };
    let garbage = vec![1u8, 2, 3, 4, 5];
    let r = resolve_background(&bg, dims, Some(&garbage));
    assert_eq!(r.unwrap_err(), PipelineError::DecodeError);
}

#[test]
fn decoded_background_keeps_its_own_dimensions() {
    // The screen dimensions play no part for an image background.
    let dims = ScreenDimensions { width: 9999, height: 9999 };
    let bg = Background::FromDisk { location: "bg.png".to_owned(), mode: WallpaperMode::Center };
    let bytes = png_bytes(6, 4, [20, 30, 40]);
    let img = resolve_background(&bg, dims, Some(&bytes)).unwrap();
    assert_eq!(img.width, 6);
    assert_eq!(img.height, 4);
    let p = img.pixel_at(2, 2);
    assert_eq!((p.r, p.g, p.b, p.a), (20, 30, 40, 255));
}

#[test]
fn saved_wallpaper_decodes_back_with_background_dimensions() {
    // Render onto a solid background, encode the result as the cache
    // file's PNG, and decode it again: the dimensions survive.
    let dims = ScreenDimensions { width: 32, height: 20 };
    let bg = resolve_background(&Background::Solid([12, 34, 56]), dims, None).unwrap();
    let text_raw = vec![255u8; 5 * 3 * 4];
    let text = deadliner::raster::from_raw_rgba(5, 3, &text_raw);
    let out = deadliner::raster::compose(&bg, &text).unwrap();
    let buf = image::RgbaImage::from_raw(out.width, out.height, out.to_raw_rgba()).unwrap();
    let mut bytes: Vec<u8> = Vec::new();
    buf.write_to(&mut Cursor::new(&mut bytes), image::ImageOutputFormat::Png).unwrap();
    let reloaded = image::load_from_memory(&bytes).unwrap();
    assert_eq!(reloaded.width(), 32);
    assert_eq!(reloaded.height(), 20);
}

#[test]
fn background_mode_passes_the_fit_mode_through() {
    let disk = Background::FromDisk { location: "a.png".to_owned(), mode: WallpaperMode::Fit };
    let url = Background::FromURL { url: "https://example.com".to_owned(), mode: WallpaperMode::Span };
    let solid = Background::Solid([1, 2, 3]);
    assert_eq!(disk.mode(), WallpaperMode::Fit);
    assert_eq!(url.mode(), WallpaperMode::Span);
    assert_eq!(solid.mode(), WallpaperMode::Center);
}

#[test]
fn wallpaper_mode_defaults_to_center() {
    assert_eq!(WallpaperMode::default(), WallpaperMode::Center);
}

#[test]
fn error_messages_match_the_user_facing_wording() {
    assert_eq!(PipelineError::PastDeadline.message(), "Deadline must be a future date!");
    assert_eq!(
        PipelineError::DownloadError.message(),
        "Couldn't download the Image from the supplied URL!"
    );
    assert_eq!(PipelineError::PersistError.message(), "Couldn't save result.png");
    assert_eq!(PipelineError::MalformedDeadline.message(), "Deadline isn't a valid date!");
    assert_eq!(PipelineError::NotFound.message(), "Couldn't read the Image from the supplied path!");
    assert_eq!(PipelineError::DecodeError.message(), "Couldn't decode the supplied Image!");
    assert_eq!(PipelineError::InvalidFont.message(), "Couldn't load the supplied font!");
}

#[test]
fn background_kind_names_match_the_editor_labels() {
    let disk = Background::FromDisk { location: String::new(), mode: WallpaperMode::Center };
    let url = Background::FromURL { url: String::new(), mode: WallpaperMode::Center };
    assert_eq!(Background::Solid([0, 0, 0]).kind_name(), "Solid");
    assert_eq!(disk.kind_name(), "From Disk");
    assert_eq!(url.kind_name(), "From URL");
}

#[test]
fn empty_background_bytes_are_a_decode_error() {
    // What an unreadable-but-present background file hands the pipeline.
    let dims = ScreenDimensions { width: 10, height: 10 };
    let bg = Background::FromDisk { location: "bg.png".to_owned(), mode: WallpaperMode::Center };
    let empty: Vec<u8> = Vec::new();
    let r = resolve_background(&bg, dims, Some(&empty));
    assert_eq!(r.unwrap_err(), PipelineError::DecodeError);
}
