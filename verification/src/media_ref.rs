use crate::rational::JadeRational;
use vstd::prelude::*;

verus! {

/// The exact duration of one stream in its own native units: a tick
/// count together with the rational time base those ticks are measured
/// in. Kept in native units so no precision is lost before a consumer
/// chooses its target frame rate.
#[derive(Debug, Copy, Clone, PartialEq, Eq, Structural)]
pub struct MediaLength {
    pub time_base_length: u64,
    pub time_base: JadeRational,
}

/// Per-stream metadata shared by every stream kind: the stream's ordinal
/// index within its container and its native-unit length.
#[derive(Debug, Copy, Clone, PartialEq, Eq, Structural)]
pub struct BasicStreamInfo {
    pub index: usize,
    pub length: MediaLength,
}

/// Marker payload for a video stream; video needs its own decode
/// pipeline downstream, so the tag stays distinct from audio.
#[derive(Debug, Copy, Clone, PartialEq, Eq, Structural)]
pub struct VideoMediaStream {}

/// Marker payload for an audio stream.
#[derive(Debug, Copy, Clone, PartialEq, Eq, Structural)]
pub struct AudioMediaStream {}

/// A classified stream: the shared descriptor paired with its kind.
#[derive(Debug, Copy, Clone, PartialEq, Eq, Structural)]
pub enum MediaStream {
    Video(BasicStreamInfo, VideoMediaStream),
    Audio(BasicStreamInfo, AudioMediaStream),
}

impl MediaStream {
    /// The shared descriptor, whichever kind the stream is.
    pub open spec fn spec_info(self) -> BasicStreamInfo {
        match self {
            MediaStream::Video(basic_info, _) => basic_info,
            MediaStream::Audio(basic_info, _) => basic_info,
        }
    }

    pub fn info(&self) -> (r: BasicStreamInfo)
        ensures
            r == self.spec_info(),
    {
        match self {
            Self::Video(basic_info, _) => *basic_info,
            Self::Audio(basic_info, _) => *basic_info,
        }
    }
}

/// Everything recorded about one probed media file: its path and its
/// classified streams in container order. Created once when a file is
/// successfully probed and immutable thereafter; re-importing a file
/// creates a new entry.
#[derive(Debug, Clone, PartialEq, Eq)]
pub struct MediaInfo {
    pub path: String,
    pub streams: Vec<MediaStream>,
}

} // verus!
