//! What can go wrong around the reading surface. None of it ends the
//! program: the view falls back to text.

use vstd::prelude::*;
use vstd::string::*;

verus! {

/// What went wrong.
#[derive(Clone, Copy, Debug, PartialEq, Eq, Structural)]
pub enum Error {
    /// The bytes of an image could not be had.
    ResourceMissing,
    /// The height of an image could not be determined.
    UnsupportedImageFormat,
    /// The compositor process could not be started.
    CompositorSpawnFailed,
    /// A message could not be written to the compositor process.
    CompositorWriteFailed,
    /// The lines could not be laid out again for a new width.
    LayoutRegenerationFailed,
}

impl Error {
    /// The notice that names the failure.
    pub open spec fn notice(self) -> Seq<char> {
        match self {
            Error::ResourceMissing => "image resource is missing"@,
            Error::UnsupportedImageFormat => "image format is not supported"@,
            Error::CompositorSpawnFailed => "compositor could not be started"@,
            Error::CompositorWriteFailed => "compositor could not be written to"@,
            Error::LayoutRegenerationFailed => "layout could not be regenerated"@,
        }
    }

    /// The notice that names the failure.
    pub fn to_string(&self) -> (r: String)
        ensures
            r@ == self.notice(),
    {
        match self {
            Error::ResourceMissing => String::from_str("image resource is missing"),
            Error::UnsupportedImageFormat => String::from_str("image format is not supported"),
            Error::CompositorSpawnFailed => String::from_str("compositor could not be started"),
            Error::CompositorWriteFailed => String::from_str("compositor could not be written to"),
            Error::LayoutRegenerationFailed => String::from_str("layout could not be regenerated"),
        }
    }
}

} // verus!
