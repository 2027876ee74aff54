//! What one sync run works on: the remote playlist, the local directory, the
//! media format and whether an index file is kept.
use vstd::prelude::*;

verus! {

/// The form in which items are stored locally.
#[derive(Clone, Copy, Debug, PartialEq, Eq, Structural)]
pub enum MediaFormat {
    /// Audio only, extracted to Opus.
    Audio,
    /// Best video and best audio, merged into Matroska.
    Video,
}

/// The file extension that the acquisition tool gives items of a format.
pub open spec fn extension_of(format: MediaFormat) -> Seq<char> {
    match format {
        MediaFormat::Audio => "opus"@,
        MediaFormat::Video => "mkv"@,
    }
}

impl MediaFormat {
    /// The file extension for this format, without the dot.
    pub fn extension(&self) -> (r: &'static str)
        ensures
            r@ == extension_of(*self),
    {
        match self {
            MediaFormat::Audio => "opus",
            MediaFormat::Video => "mkv",
        }
    }
}

/// One remote playlist mapped to one local directory.
#[derive(Clone, Debug)]
pub struct SyncTarget {
    pub remote_playlist_id: String,
    pub local_location: String,
    pub media_format: MediaFormat,
    pub emit_index: bool,
}

} // verus!
