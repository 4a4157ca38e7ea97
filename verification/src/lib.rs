//! Core of a deadline-countdown wallpaper generator.
//!
//! The library turns a clock reading and a configured deadline into a
//! human-readable remaining-time breakdown, resolves a background image
//! from one of several sources, rasterizes the countdown text, and
//! composites the text centered over the background.  File, network and
//! desktop-wallpaper I/O live outside the library; it receives bytes and
//! returns pixels.

pub mod background;
pub mod config;
pub mod countdown;
pub mod errors;
pub mod ext;
pub mod numfmt;
pub mod pipeline;
pub mod raster;

pub use config::{
    Background, DeadlinerConf, Font, Periods, ScreenDimensions, UnitVisibility, WallpaperMode,
};
