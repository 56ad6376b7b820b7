use crate::media_ref::{
    AudioMediaStream, BasicStreamInfo, MediaInfo, MediaLength, MediaStream, VideoMediaStream,
};
use crate::rational::JadeRational;
use vstd::prelude::*;

verus! {

/// Why probing a path failed.
#[derive(Debug, Copy, Clone, PartialEq, Eq, Structural)]
pub enum ProbeError {
    /// The path could not be opened or parsed as a media container.
    /// Always surfaced to the caller; the import is abandoned.
    OpenFailed,
}

/// The medium a container reports for one of its streams. Mediums other
/// than video and audio (subtitles, data, attachments) are recognized
/// but not imported: probing skips them with a diagnostic.
#[derive(Debug, Copy, Clone, PartialEq, Eq, Structural)]
pub enum StreamMedium {
    Video,
    Audio,
    Other,
}

/// One stream exactly as the demultiplexer reports it, before
/// classification: its ordinal index, its medium, and its duration in
/// native time-base ticks. No rounding or rate conversion has happened.
#[derive(Debug, Copy, Clone, PartialEq, Eq, Structural)]
pub struct RawStreamInfo {
    pub index: usize,
    pub medium: StreamMedium,
    pub duration: u64,
    pub time_base: JadeRational,
}

impl RawStreamInfo {
    /// The native-unit length this stream reports.
    pub open spec fn spec_length(self) -> MediaLength {
        MediaLength { time_base_length: self.duration, time_base: self.time_base }
    }

    /// The shared descriptor recorded for this stream.
    pub open spec fn spec_info(self) -> BasicStreamInfo {
        BasicStreamInfo { index: self.index, length: self.spec_length() }
    }
}

/// The streams a probe keeps, in container order: every video or audio
/// stream becomes a classified entry, every other medium is dropped.
pub open spec fn classified_streams(raw: Seq<RawStreamInfo>) -> Seq<MediaStream>
    decreases raw.len(),
{
    if raw.len() == 0 {
        Seq::empty()
    } else {
        let done = classified_streams(raw.drop_last());
        let r = raw.last();
        match r.medium {
            StreamMedium::Video => done.push(MediaStream::Video(r.spec_info(), VideoMediaStream {})),
            StreamMedium::Audio => done.push(MediaStream::Audio(r.spec_info(), AudioMediaStream {})),
            StreamMedium::Other => done,
        }
    }
}

/// The stream indices a probe skips, in container order.
pub open spec fn skipped_streams(raw: Seq<RawStreamInfo>) -> Seq<usize>
    decreases raw.len(),
{
    if raw.len() == 0 {
        Seq::empty()
    } else {
        let done = skipped_streams(raw.drop_last());
        match raw.last().medium {
            StreamMedium::Other => done.push(raw.last().index),
            _ => done,
        }
    }
}

/// How many of the reported streams are video or audio.
pub open spec fn media_stream_count(raw: Seq<RawStreamInfo>) -> int
    decreases raw.len(),
{
    if raw.len() == 0 {
        0int
    } else {
        media_stream_count(raw.drop_last()) + match raw.last().medium {
            StreamMedium::Other => 0int,
            _ => 1int,
        }
    }
}

/// Classify every reported stream, keeping video and audio streams in
/// container order and dropping the rest.
pub fn classify_streams(raw: &Vec<RawStreamInfo>) -> (streams: Vec<MediaStream>)
    ensures
        streams@ == classified_streams(raw@),
{
    let mut streams: Vec<MediaStream> = Vec::new();
    let mut i: usize = 0;
    while i < raw.len()
        invariant
            i <= raw.len(),
            streams@ == classified_streams(raw@.take(i as int)),
        decreases raw.len() - i,
    {
        let r = raw[i];
        let basic_info = BasicStreamInfo {
            index: r.index,
            length: MediaLength { time_base_length: r.duration, time_base: r.time_base },
        };
        match r.medium {
            StreamMedium::Video => streams.push(MediaStream::Video(basic_info, VideoMediaStream {})),
            StreamMedium::Audio => streams.push(MediaStream::Audio(basic_info, AudioMediaStream {})),
            StreamMedium::Other => {},
        }
        proof {
            assert(raw@.take(i + 1).drop_last() =~= raw@.take(i as int));
            assert(raw@.take(i + 1).last() == raw@[i as int]);
        }
        i = i + 1;
    }
    proof {
        assert(raw@.take(raw@.len() as int) =~= raw@);
    }
    streams
}

/// The indices of the streams a probe drops, so the caller can log a
/// diagnostic for each without deciding anything itself.
pub fn skipped_stream_indices(raw: &Vec<RawStreamInfo>) -> (skipped: Vec<usize>)
    ensures
        skipped@ == skipped_streams(raw@),
{
    let mut skipped: Vec<usize> = Vec::new();
    let mut i: usize = 0;
    while i < raw.len()
        invariant
            i <= raw.len(),
            skipped@ == skipped_streams(raw@.take(i as int)),
        decreases raw.len() - i,
    {
        let r = raw[i];
        match r.medium {
            StreamMedium::Other => skipped.push(r.index),
            _ => {},
        }
        proof {
            assert(raw@.take(i + 1).drop_last() =~= raw@.take(i as int));
            assert(raw@.take(i + 1).last() == raw@[i as int]);
        }
        i = i + 1;
    }
    proof {
        assert(raw@.take(raw@.len() as int) =~= raw@);
    }
    skipped
}

/// Build the catalog entry for a successfully opened container: the path
/// it was probed at and its classified streams.
pub fn media_info_from_streams(path: String, raw: &Vec<RawStreamInfo>) -> (m: MediaInfo)
    ensures
        m.path == path,
        m.streams@ == classified_streams(raw@),
{
    let streams = classify_streams(raw);
    MediaInfo { path, streams }
}

/// Probing a container that reports `N` streams of which `K` are video
/// or audio yields exactly `K` classified entries.
pub proof fn lemma_classified_count(raw: Seq<RawStreamInfo>)
    ensures
        classified_streams(raw).len() == media_stream_count(raw),
        0 <= media_stream_count(raw) <= raw.len(),
    decreases raw.len(),
{
    if raw.len() > 0 {
        lemma_classified_count(raw.drop_last());
    }
}

/// When streams carry their container ordinals, classification preserves
/// the container's stream index order: the kept entries' indices are
/// strictly increasing.
pub proof fn lemma_classified_order(raw: Seq<RawStreamInfo>)
    requires
        forall|i: int| 0 <= i < raw.len() ==> (#[trigger] raw[i]).index == i,
    ensures
        forall|k: int|
            0 <= k < classified_streams(raw).len()
                ==> (#[trigger] classified_streams(raw)[k]).spec_info().index < raw.len(),
        forall|j: int, k: int|
            0 <= j < k < classified_streams(raw).len()
                ==> (#[trigger] classified_streams(raw)[j]).spec_info().index
                    < (#[trigger] classified_streams(raw)[k]).spec_info().index,
    decreases raw.len(),
{
    if raw.len() > 0 {
        let prev_raw = raw.drop_last();
        let prev = classified_streams(prev_raw);
        let cur = classified_streams(raw);
        assert(forall|i: int| 0 <= i < prev_raw.len() ==> (#[trigger] prev_raw[i]).index == i);
        lemma_classified_order(prev_raw);
        match raw.last().medium {
            StreamMedium::Other => {
                assert(cur == prev);
            },
            _ => {
                assert(cur.len() == prev.len() + 1);
                assert(forall|k: int| 0 <= k < prev.len() ==> #[trigger] cur[k] == prev[k]);
                assert(raw[raw.len() - 1].index == raw.len() - 1);
                assert(cur[cur.len() - 1].spec_info().index == raw.len() - 1);
            },
        }
        assert(forall|k: int|
            0 <= k < cur.len() ==> (#[trigger] cur[k]).spec_info().index < raw.len());
    }
}

} // verus!
