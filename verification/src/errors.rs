//! The error taxonomy of the rendering pipeline.  Every failure of a run
//! is one of these values; each carries a fixed user-facing message.

use vstd::prelude::*;

verus! {

/// Everything that can go wrong between reading the clock and handing
/// back the composited wallpaper.
#[derive(Debug, Clone, Copy, PartialEq, Eq, Structural)]
pub enum PipelineError {
    /// The configured deadline string does not match the expected
    /// date/time grammar.
    MalformedDeadline,
    /// The deadline is not at least a full minute in the future.
    PastDeadline,
    /// A background image file could not be read.
    NotFound,
    /// Background image bytes could not be decoded as an image.
    DecodeError,
    /// The network collaborator could not retrieve the background URL.
    DownloadError,
    /// The supplied font bytes are unusable for rasterizing text.
    InvalidFont,
    /// The rendered text does not fit strictly inside the background.
    SizeMismatch,
    /// The composited image could not be written to the cache file.
    PersistError,
}

impl PipelineError {
    /// The message shown to the user for this failure.
    pub open spec fn spec_message(self) -> Seq<char> {
        match self {
            PipelineError::MalformedDeadline => "Deadline isn't a valid date!"@,
            PipelineError::PastDeadline => "Deadline must be a future date!"@,
            PipelineError::NotFound => "Couldn't read the Image from the supplied path!"@,
            PipelineError::DecodeError => "Couldn't decode the supplied Image!"@,
            PipelineError::DownloadError => "Couldn't download the Image from the supplied URL!"@,
            PipelineError::InvalidFont => "Couldn't load the supplied font!"@,
            PipelineError::SizeMismatch => "Font size is bigger than wallpaper's dimensions!"@,
            PipelineError::PersistError => "Couldn't save result.png"@,
        }
    }

    /// The user-facing message, as an owned string.
    pub fn message(&self) -> (r: String)
        ensures
            r@ == self.spec_message(),
    {
        let s: &str = match self {
            PipelineError::MalformedDeadline => "Deadline isn't a valid date!",
            PipelineError::PastDeadline => "Deadline must be a future date!",
            PipelineError::NotFound => "Couldn't read the Image from the supplied path!",
            PipelineError::DecodeError => "Couldn't decode the supplied Image!",
            PipelineError::DownloadError => "Couldn't download the Image from the supplied URL!",
            PipelineError::InvalidFont => "Couldn't load the supplied font!",
            PipelineError::SizeMismatch => "Font size is bigger than wallpaper's dimensions!",
            PipelineError::PersistError => "Couldn't save result.png",
        };
        s.to_owned()
    }
}

} // verus!
