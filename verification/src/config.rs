//! Configuration records: which time units to show, where the background
//! comes from, how the wallpaper is fitted, and which font renders the
//! countdown text.

use vstd::prelude::*;

verus! {

/// Width and height of the target screen, in pixels.
#[derive(Debug, Clone, Copy, PartialEq, Eq, Structural)]
pub struct ScreenDimensions {
    pub width: u32,
    pub height: u32,
}

/// AM/PM half of the configured deadline's time of day.
#[derive(Debug, Clone, Copy, PartialEq, Eq, Structural)]
pub enum Periods {
    AM,
    PM,
}

/// How the OS stretches or tiles the wallpaper on the screen.  Applied by
/// the external wallpaper-setting collaborator, never by this library.
#[derive(Debug, Clone, Copy, PartialEq, Eq, Structural)]
pub enum WallpaperMode {
    Center,
    Crop,
    Fit,
    Span,
}

impl Default for WallpaperMode {
    fn default() -> (r: Self)
        ensures
            r == WallpaperMode::Center,
    {
        WallpaperMode::Center
    }
}

/// Where the background pixels come from: a uniform color, an image file
/// already on disk, or an image downloaded from a URL.
#[derive(Debug, Clone, PartialEq)]
pub enum Background {
    Solid([u8; 3]),
    FromDisk { location: String, mode: WallpaperMode },
    FromURL { url: String, mode: WallpaperMode },
}

impl Background {
    /// The fit mode recorded on the background; a solid color has no
    /// source image, so it always fits centered.
    pub fn mode(&self) -> (r: WallpaperMode)
        ensures
            r == self.spec_mode(),
    {
        match self {
            Background::FromURL { mode, .. } | Background::FromDisk { mode, .. } => *mode,
            Background::Solid(_) => WallpaperMode::Center,
        }
    }

    pub open spec fn spec_mode(&self) -> WallpaperMode {
        match self {
            Background::FromURL { mode, .. } => *mode,
            Background::FromDisk { mode, .. } => *mode,
            Background::Solid(_) => WallpaperMode::Center,
        }
    }

    /// The display name of this background's kind.
    pub open spec fn spec_kind_name(&self) -> Seq<char> {
        match self {
            Background::Solid(_) => "Solid"@,
            Background::FromDisk { .. } => "From Disk"@,
            Background::FromURL { .. } => "From URL"@,
        }
    }

    /// The display name of this background's kind, as shown by the
    /// configuration editor.
    pub fn kind_name(&self) -> (r: String)
        ensures
            r@ == self.spec_kind_name(),
    {
        let s: &str = match self {
            Background::Solid(_) => "Solid",
            Background::FromDisk { .. } => "From Disk",
            Background::FromURL { .. } => "From URL",
        };
        s.to_owned()
    }
}

/// The packaged font variants, plus the choice of a user-supplied font
/// file.  The bytes of the chosen font are read outside the library and
/// handed in.
#[derive(Debug, Clone, Copy, PartialEq, Eq, Structural)]
pub enum Font {
    PoppinsBlack,
    PoppinsMedium,
    PoppinsRegular,
    PoppinsLight,
    ChooseFromDisk,
}

/// The raw configuration record as the editor collaborator saves it:
/// date and time still as strings, exactly as typed.
#[derive(Debug, Clone, PartialEq)]
pub struct DeadlinerConf {
    pub screen_dimensions: ScreenDimensions,
    pub default_background: Background,
    pub show_months: bool,
    pub show_weeks: bool,
    pub show_days: bool,
    pub show_hours: bool,
    pub font: Font,
    pub font_size: u8,
    pub font_color: [u8; 3],
    pub custom_font_location: String,
    pub date: String,
    pub hours: String,
    pub minutes: String,
    pub period: Periods,
}

/// Which units appear in the breakdown.  Disabled units fold their
/// remainder into the next enabled finer unit.
#[derive(Debug, Clone, Copy, PartialEq, Eq, Structural)]
pub struct UnitVisibility {
    pub months: bool,
    pub weeks: bool,
    pub days: bool,
    pub hours: bool,
}

impl DeadlinerConf {
    /// The unit-visibility flags of this configuration, gathered.
    pub fn visibility(&self) -> (r: UnitVisibility)
        ensures
            r.months == self.show_months,
            r.weeks == self.show_weeks,
            r.days == self.show_days,
            r.hours == self.show_hours,
    {
        UnitVisibility {
            months: self.show_months,
            weeks: self.show_weeks,
            days: self.show_days,
            hours: self.show_hours,
        }
    }
}

} // verus!
