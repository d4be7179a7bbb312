//! Publishing bookkeeping: which tracks are published under which
//! identifiers, what source a stream's track needs, and the conversion of
//! delivered frames into the transport's layout.
use vstd::prelude::*;
use vstd::string::*;

use crate::error::GStreamerError;
use crate::stream::{install_post, stop_post, GstMediaStream, PublishOptions, StreamHandle};
use crate::text::str_eq;
use crate::utils::random_string;

verus! {

/// A published track's identifier and the resources behind it.
#[derive(Debug)]
pub struct TrackEntry<H> {
    pub sid: String,
    pub handle: H,
}

/// What forgetting `sid` guarantees: the handle published under it is
/// handed back, every other track is kept, and an unknown identifier
/// changes nothing.
pub open spec fn unpublish_post<H>(before: LKParticipant<H>, after: LKParticipant<H>, sid: Seq<char>, r: Option<H>) -> bool {
    &&& after.wf()
    &&& !after.has_track(sid)
    &&& r is Some == before.has_track(sid)
    &&& (r matches Some(h) ==> h == before.track(sid))
    &&& (r is None ==> after.entries() == before.entries())
    &&& forall|k: Seq<char>| k != sid ==> after.has_track(k) == before.has_track(k)
    &&& forall|k: Seq<char>| k != sid && before.has_track(k) ==> after.track(k) == before.track(k)
}

/// Published tracks by identifier; identifiers are distinct.
#[derive(Debug)]
pub struct LKParticipant<H> {
    published_tracks: Vec<TrackEntry<H>>,
}

impl<H> LKParticipant<H> {
    pub closed spec fn entries(&self) -> Seq<TrackEntry<H>> {
        self.published_tracks@
    }

    pub open spec fn wf(&self) -> bool {
        forall|i: int, j: int|
            0 <= i < self.entries().len() && 0 <= j < self.entries().len() && (#[trigger] self.entries()[i]).sid@
                == (#[trigger] self.entries()[j]).sid@ ==> i == j
    }

    pub open spec fn has_track(&self, sid: Seq<char>) -> bool {
        exists|i: int| 0 <= i < self.entries().len() && (#[trigger] self.entries()[i]).sid@ == sid
    }

    /// The handle published under `sid`.
    pub open spec fn track(&self, sid: Seq<char>) -> H
        recommends
            self.has_track(sid),
    {
        self.entries()[choose|i: int| 0 <= i < self.entries().len() && (#[trigger] self.entries()[i]).sid@ == sid].handle
    }

    pub open spec fn track_count(&self) -> nat {
        self.entries().len()
    }

    pub fn new() -> (r: Self)
        ensures
            r.wf(),
            r.track_count() == 0,
            forall|k: Seq<char>| !r.has_track(k),
    {
        LKParticipant { published_tracks: Vec::new() }
    }

    proof fn lemma_track_at(&self, i: int)
        requires
            self.wf(),
            0 <= i < self.entries().len(),
        ensures
            self.has_track(self.entries()[i].sid@),
            self.track(self.entries()[i].sid@) == self.entries()[i].handle,
    {
        let k = self.entries()[i].sid@;
        assert(self.has_track(k));
        let j = choose|j: int| 0 <= j < self.entries().len() && (#[trigger] self.entries()[j]).sid@ == k;
        assert(self.entries()[j].sid@ == self.entries()[i].sid@);
    }

    fn find(&self, sid: &str) -> (r: Option<usize>)
        ensures
            match r {
                Some(i) => i < self.entries().len() && self.entries()[i as int].sid@ == sid@,
                None => !self.has_track(sid@),
            },
    {
        let mut i: usize = 0;
        while i < self.published_tracks.len()
            invariant
                i <= self.entries().len(),
                self.entries() == self.published_tracks@,
                forall|k: int| 0 <= k < i ==> (#[trigger] self.entries()[k]).sid@ != sid@,
            decreases self.published_tracks.len() - i,
        {
            if str_eq(self.published_tracks[i].sid.as_str(), sid) {
                return Some(i);
            }
            i += 1;
        }
        None
    }

    pub fn is_published(&self, sid: &str) -> (r: bool)
        ensures
            r == self.has_track(sid@),
    {
        self.find(sid).is_some()
    }

    /// Records a freshly published track. A handle already kept under the
    /// same identifier is replaced and handed back.
    pub fn insert_track(&mut self, sid: String, handle: H) -> (r: Option<H>)
        requires
            old(self).wf(),
        ensures
            final(self).wf(),
            final(self).has_track(sid@),
            final(self).track(sid@) == handle,
            forall|k: Seq<char>| k != sid@ ==> final(self).has_track(k) == old(self).has_track(k),
            forall|k: Seq<char>|
                k != sid@ && old(self).has_track(k) ==> final(self).track(k) == old(self).track(k),
            r is Some == old(self).has_track(sid@),
            r matches Some(h) ==> h == old(self).track(sid@),
    {
        let prior = self.unpublish_track(sid.as_str());
        let ghost mid = self.entries();
        assert(unpublish_post(*old(self), *self, sid@, prior));
        self.published_tracks.push(TrackEntry { sid, handle });
        let ghost n = self.entries().len() - 1;
        assert forall|i: int, j: int|
            0 <= i < self.entries().len() && 0 <= j < self.entries().len() && (#[trigger] self.entries()[i]).sid@
                == (#[trigger] self.entries()[j]).sid@ implies i == j by {
            if i < n && j < n {
                assert(self.entries()[i] == mid[i] && self.entries()[j] == mid[j]);
            } else if i < n {
                assert(self.entries()[i] == mid[i]);
            } else if j < n {
                assert(self.entries()[j] == mid[j]);
            }
        }
        proof {
            self.lemma_track_at(n);
            assert forall|k: Seq<char>| k != sid@ implies final(self).has_track(k) == old(self).has_track(k) by {
                if old(self).has_track(k) {
                    assert(self.has_track(k)) by {
                        let i = choose|i: int| 0 <= i < mid.len() && (#[trigger] mid[i]).sid@ == k;
                        assert(self.entries()[i] == mid[i]);
                    }
                }
                if self.has_track(k) {
                    let i = choose|i: int| 0 <= i < self.entries().len() && (#[trigger] self.entries()[i]).sid@ == k;
                    assert(i < n);
                    assert(self.entries()[i] == mid[i]);
                }
            }
            assert forall|k: Seq<char>| k != sid@ && old(self).has_track(k) implies final(self).track(k) == old(self).track(k) by {
                let i = choose|i: int| 0 <= i < self.entries().len() && (#[trigger] self.entries()[i]).sid@ == k;
                assert(i < n);
                assert(self.entries()[i] == mid[i]);
                self.lemma_track_at(i);
            }
        }
        prior
    }

    /// Forgets the track published under `sid` and hands back its handle,
    /// whose transport track and forwarding task the caller then ends. An
    /// unknown identifier changes nothing.
    pub fn unpublish_track(&mut self, sid: &str) -> (r: Option<H>)
        requires
            old(self).wf(),
        ensures
            unpublish_post(*old(self), *final(self), sid@, r),
    {
        match self.find(sid) {
            None => None,
            Some(i) => {
                let ghost before = self.entries();
                proof {
                    self.lemma_track_at(i as int);
                }
                let entry = self.published_tracks.remove(i);
                let ghost after = self.entries();
                assert(after == before.remove(i as int));
                assert forall|a: int, b: int|
                    0 <= a < after.len() && 0 <= b < after.len() && (#[trigger] after[a]).sid@ == (#[trigger] after[b]).sid@ implies a == b by {
                    let a0 = if a < i { a } else { a + 1 };
                    let b0 = if b < i { b } else { b + 1 };
                    assert(after[a] == before[a0] && after[b] == before[b0]);
                }
                assert(!self.has_track(sid@)) by {
                    if self.has_track(sid@) {
                        let a = choose|a: int| 0 <= a < after.len() && (#[trigger] after[a]).sid@ == sid@;
                        let a0 = if a < i { a } else { a + 1 };
                        assert(after[a] == before[a0]);
                    }
                }
                assert forall|k: Seq<char>| k != sid@ implies #[trigger] self.has_track(k) == old(self).has_track(k) by {
                    if old(self).has_track(k) {
                        let a0 = choose|a: int| 0 <= a < before.len() && (#[trigger] before[a]).sid@ == k;
                        assert(a0 != i);
                        let a = if a0 < i { a0 } else { a0 - 1 };
                        assert(after[a] == before[a0]);
                    }
                    if self.has_track(k) {
                        let a = choose|a: int| 0 <= a < after.len() && (#[trigger] after[a]).sid@ == k;
                        let a0 = if a < i { a } else { a + 1 };
                        assert(after[a] == before[a0]);
                    }
                }
                assert forall|k: Seq<char>| k != sid@ && old(self).has_track(k) implies #[trigger] self.track(k) == old(self).track(k) by {
                    let a0 = choose|a: int| 0 <= a < before.len() && (#[trigger] before[a]).sid@ == k;
                    assert(a0 != i);
                    let a = if a0 < i { a0 } else { a0 - 1 };
                    assert(after[a] == before[a0]);
                    self.lemma_track_at(a);
                    old(self).lemma_track_at(a0);
                }
                Some(entry.handle)
            },
        }
    }
}

} // verus!

verus! {

/// Which kind of source a published track is tagged with.
#[derive(Debug, Clone, Copy, PartialEq, Eq, Structural)]
pub enum TrackSource {
    Camera,
    Microphone,
    ScreenShare,
}

/// The transport-side source a track needs.
#[derive(Debug, Clone, Copy, PartialEq, Eq, Structural)]
pub enum SourceSpec {
    Video { width: u32, height: u32 },
    Audio { sample_rate: u32, num_channels: u32, queue_size_ms: u32 },
}

/// Everything needed to publish a started stream's track.
#[derive(Debug)]
pub struct TrackPlan {
    pub sid: String,
    pub name: String,
    pub source: TrackSource,
    pub spec: SourceSpec,
}

/// Publishing either starts the stream first or goes ahead with a plan.
#[derive(Debug)]
pub enum PublishStep {
    StartFirst,
    Ready(TrackPlan),
}

#[derive(Debug, Clone)]
pub enum LKParticipantError {
    GStreamerError(GStreamerError),
    LivekitError(String),
    StreamingError(String),
}

/// Audio is captured mono into a transport queue of this many milliseconds.
pub const AUDIO_QUEUE_SIZE_MS: u32 = 2000;

pub open spec fn publish_needs_start<R>(stream: GstMediaStream<R>) -> bool {
    !stream.started()
}

/// Source tag and source shape for a stream's options.
pub open spec fn track_source_of(o: PublishOptions) -> (TrackSource, SourceSpec) {
    match o {
        PublishOptions::Video(v) => (TrackSource::Camera, SourceSpec::Video { width: v.width as u32, height: v.height as u32 }),
        PublishOptions::Screen(s) => (
            TrackSource::ScreenShare,
            SourceSpec::Video { width: s.width as u32, height: s.height as u32 },
        ),
        PublishOptions::Audio(a) => (
            TrackSource::Microphone,
            SourceSpec::Audio { sample_rate: a.framerate as u32, num_channels: 1, queue_size_ms: 2000 },
        ),
    }
}

pub open spec fn sid_prefix(source: TrackSource) -> Seq<char> {
    match source {
        TrackSource::Camera => "video-track"@,
        TrackSource::Microphone => "audio-track"@,
        TrackSource::ScreenShare => "screen-track"@,
    }
}

impl<H> LKParticipant<H> {
    /// Plans the publication of `stream`'s track under `track_name`, or
    /// the device's name when none is given. An unstarted stream is to be
    /// started first. The identifier is fresh and random.
    pub fn plan_track<R>(stream: &GstMediaStream<R>, track_name: Option<String>) -> (r: PublishStep)
        ensures
            r is StartFirst <==> publish_needs_start(*stream),
            r matches PublishStep::Ready(p) ==> {
                let (src, spec) = track_source_of(stream.options());
                &&& p.source == src
                &&& p.spec == spec
                &&& p.name == match track_name {
                    Some(n) => n,
                    None => stream.live()->Some_0.device.display_name,
                }
                &&& p.sid@.len() == sid_prefix(src).len() + 17
                &&& p.sid@.subrange(0, sid_prefix(src).len() as int) == sid_prefix(src)
            },
    {
        let device_name = match stream.get_device_name() {
            Some(n) => n,
            None => return PublishStep::StartFirst,
        };
        let name = match track_name {
            Some(n) => n,
            None => device_name,
        };
        let (source, spec, sid) = match stream.publish_options() {
            PublishOptions::Video(v) => (
                TrackSource::Camera,
                SourceSpec::Video { width: v.width as u32, height: v.height as u32 },
                random_string("video-track"),
            ),
            PublishOptions::Screen(s) => (
                TrackSource::ScreenShare,
                SourceSpec::Video { width: s.width as u32, height: s.height as u32 },
                random_string("screen-track"),
            ),
            PublishOptions::Audio(a) => (
                TrackSource::Microphone,
                SourceSpec::Audio {
                    sample_rate: a.framerate as u32,
                    num_channels: 1,
                    queue_size_ms: AUDIO_QUEUE_SIZE_MS,
                },
                random_string("audio-track"),
            ),
        };
        PublishStep::Ready(TrackPlan { sid, name, source, spec })
    }
}

/// Publishing an unstarted stream starts it: planning asks for the start,
/// and once the start's stop and install have run the stream is started and
/// planning goes ahead.
pub proof fn lemma_publish_starts_stream<R>(
    s0: GstMediaStream<R>,
    s1: GstMediaStream<R>,
    s2: GstMediaStream<R>,
    stopped: Option<StreamHandle<R>>,
    handle: StreamHandle<R>,
    displaced: Option<StreamHandle<R>>,
)
    requires
        !s0.started(),
        stop_post(s0, s1, stopped),
        install_post(s1, s2, handle, displaced),
    ensures
        publish_needs_start(s0),
        s2.started(),
        !publish_needs_start(s2),
        s2.options() == s0.options(),
{
}

/// Forgetting an identifier that was never published leaves the published
/// tracks exactly as they were.
pub proof fn lemma_unpublish_unknown_is_noop<H>(
    before: LKParticipant<H>,
    after: LKParticipant<H>,
    sid: Seq<char>,
    r: Option<H>,
)
    requires
        before.wf(),
        !before.has_track(sid),
        unpublish_post(before, after, sid, r),
    ensures
        r is None,
        after.entries() == before.entries(),
{
}

} // verus!

verus! {

/// Size of the luma plane of an I420 frame.
pub open spec fn luma_size(width: u32, height: u32) -> int {
    width as int * height as int
}

/// Size of each chroma plane of an I420 frame.
pub open spec fn chroma_size(width: u32, height: u32) -> int {
    luma_size(width, height) / 4
}

/// The three planes of an I420 frame, copied out of a delivered buffer.
#[derive(Debug)]
pub struct I420Planes {
    pub y: Vec<u8>,
    pub u: Vec<u8>,
    pub v: Vec<u8>,
}

fn copy_range(data: &[u8], from: usize, to: usize) -> (r: Vec<u8>)
    requires
        from <= to <= data@.len(),
    ensures
        r@ == data@.subrange(from as int, to as int),
{
    let mut out: Vec<u8> = Vec::new();
    let mut i: usize = from;
    while i < to
        invariant
            from <= i <= to <= data@.len(),
            out@ == data@.subrange(from as int, i as int),
        decreases to - i,
    {
        out.push(data[i]);
        assert(out@ =~= data@.subrange(from as int, i + 1));
        i += 1;
    }
    out
}

/// Splits a delivered frame into its luma plane (`width * height` bytes)
/// and two quarter-size chroma planes, in that order. A buffer too short
/// for that layout gives `None`, and the frame is dropped.
pub fn split_i420(data: &[u8], width: u32, height: u32) -> (r: Option<I420Planes>)
    ensures
        r is Some <==> luma_size(width, height) + 2 * chroma_size(width, height) <= data@.len(),
        r matches Some(p) ==> {
            let ys = luma_size(width, height);
            let cs = chroma_size(width, height);
            &&& p.y@ == data@.subrange(0, ys)
            &&& p.u@ == data@.subrange(ys, ys + cs)
            &&& p.v@ == data@.subrange(ys + cs, ys + 2 * cs)
        },
{
    assert(width as u64 * height as u64 <= 0xffff_ffff_u64 * 0xffff_ffff_u64) by (nonlinear_arith);
    let ys: u64 = width as u64 * height as u64;
    let cs: u64 = ys / 4;
    let len: u64 = data.len() as u64;
    if ys > len || cs > (len - ys) / 2 {
        return None;
    }
    let ys = ys as usize;
    let cs = cs as usize;
    Some(
        I420Planes {
            y: copy_range(data, 0, ys),
            u: copy_range(data, ys, ys + cs),
            v: copy_range(data, ys + cs, ys + 2 * cs),
        },
    )
}

/// The signed 16-bit value of two little-endian bytes.
pub open spec fn le_i16(lo: u8, hi: u8) -> int {
    let u = lo as int + 256 * hi as int;
    if u >= 32768 { u - 65536 } else { u }
}

/// Reads a delivered audio buffer as signed 16-bit little-endian samples;
/// a trailing odd byte is not a sample.
pub fn samples_from_le_bytes(data: &[u8]) -> (r: Vec<i16>)
    ensures
        r@.len() == data@.len() / 2,
        forall|k: int| 0 <= k < r@.len() ==> #[trigger] r@[k] as int == le_i16(data@[2 * k], data@[2 * k + 1]),
{
    let n = data.len() / 2;
    let mut out: Vec<i16> = Vec::new();
    let mut k: usize = 0;
    while k < n
        invariant
            n == data@.len() / 2,
            data@.len() <= usize::MAX,
            k <= n,
            out@.len() == k,
            forall|j: int| 0 <= j < k ==> #[trigger] out@[j] as int == le_i16(data@[2 * j], data@[2 * j + 1]),
        decreases n - k,
    {
        let lo = data[2 * k] as i32;
        let hi = data[2 * k + 1] as i32;
        let u = lo + 256 * hi;
        let s: i32 = if u >= 32768 { u - 65536 } else { u };
        out.push(s as i16);
        k += 1;
    }
    out
}

/// Samples per channel in a frame of `sample_count` interleaved samples.
pub fn samples_per_channel(sample_count: usize, num_channels: u32) -> (r: u32)
    requires
        num_channels > 0,
    ensures
        r == (sample_count as u32) / num_channels,
{
    (sample_count as u32) / num_channels
}

} // verus!

verus! {

/// Standard camera resolutions.
#[derive(Debug, Clone, Copy, PartialEq, Eq, Structural)]
pub enum VideoPreset {
    H1080p,
    H720p,
    H480p,
    H360p,
    H240p,
}

#[derive(Debug, Clone, Copy, PartialEq, Eq, Structural)]
pub struct VideoResolution {
    pub width: u32,
    pub height: u32,
}

impl VideoPreset {
    pub fn resolution(&self) -> (r: VideoResolution)
        ensures
            r == match *self {
                VideoPreset::H1080p => VideoResolution { width: 1920, height: 1080 },
                VideoPreset::H720p => VideoResolution { width: 1280, height: 720 },
                VideoPreset::H480p => VideoResolution { width: 854, height: 480 },
                VideoPreset::H360p => VideoResolution { width: 640, height: 360 },
                VideoPreset::H240p => VideoResolution { width: 426, height: 240 },
            },
    {
        match self {
            VideoPreset::H1080p => VideoResolution { width: 1920, height: 1080 },
            VideoPreset::H720p => VideoResolution { width: 1280, height: 720 },
            VideoPreset::H480p => VideoResolution { width: 854, height: 480 },
            VideoPreset::H360p => VideoResolution { width: 640, height: 360 },
            VideoPreset::H240p => VideoResolution { width: 426, height: 240 },
        }
    }
}

} // verus!
