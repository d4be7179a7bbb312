//! Processing-graph topologies: which elements a request needs and how they
//! are linked. A `Topology` is a plan; the pipeline engine instantiates it.
use vstd::prelude::*;

use crate::capability::{
    audio_class, spec_supports_audio, spec_supports_screen_share, spec_supports_video, video_class,
    GstMediaDevice, MediaCapability,
};
use crate::error::{pipeline_error, GStreamerError};
use crate::text::str_eq;
use crate::utils::{decimal, int_text, random_string};

verus! {

/// Media type of a caps description.
#[derive(Debug, Clone, Copy, PartialEq, Eq, Structural)]
pub enum MediaType {
    VideoRaw,
    ImageJpeg,
    VideoH264,
    AudioRaw,
}

/// Sample or pixel layout of raw media.
#[derive(Debug, Clone, Copy, PartialEq, Eq, Structural)]
pub enum SampleFormat {
    I420,
    S16LE,
}

/// A caps description; absent fields are left unconstrained.
#[derive(Debug, Clone, Copy, PartialEq, Eq, Structural)]
pub struct CapsSpec {
    pub media: MediaType,
    pub format: Option<SampleFormat>,
    pub width: Option<i32>,
    pub height: Option<i32>,
    pub framerate: Option<i32>,
    pub channels: Option<i32>,
    pub rate: Option<i32>,
    pub channel_mask: Option<u64>,
    pub square_pixels: bool,
}

/// One processing element with its settings.
#[derive(Debug, Clone, Copy, PartialEq, Eq, Structural)]
pub enum Element {
    /// The capture element the resolved device creates.
    DeviceSource,
    /// Screen capture of an inclusive pixel rectangle, pointer shown.
    ScreenSource { startx: u32, starty: u32, endx: u32, endy: u32 },
    CapsFilter { caps: CapsSpec },
    JpegDecoder,
    VideoConvert,
    VideoScale,
    H264Parser,
    H264Decoder,
    Tee,
    Queue,
    Deinterleave,
    AudioConvert,
    AudioResample,
    /// Delivers units to subscribers; drops when the consumer is slow,
    /// holding at most one pending unit.
    FrameSink { caps: Option<CapsSpec> },
    H264Encoder { bitrate: u32, zero_latency: bool },
    AacEncoder { bitrate: i32 },
    AacParser,
    Mp4Muxer,
    /// Writes to the topology's recording path.
    FileSink { sync: bool },
}

/// A named element of a topology.
#[derive(Debug, Clone)]
pub struct Node {
    pub name: String,
    pub element: Element,
}

/// A static link from the output of one node to the input of another.
#[derive(Debug, Clone, Copy, PartialEq, Eq, Structural)]
pub struct Link {
    pub from: usize,
    pub to: usize,
}

/// A link made at run time, when the output pad with this index appears.
#[derive(Debug, Clone, Copy, PartialEq, Eq, Structural)]
pub struct PadLink {
    pub from: usize,
    pub pad_index: u32,
    pub to: usize,
}

/// A complete processing graph, not yet running.
#[derive(Debug)]
pub struct Topology {
    pub nodes: Vec<Node>,
    pub links: Vec<Link>,
    pub pad_link: Option<PadLink>,
    pub record_path: Option<String>,
}

/// The elements of `nodes`, in order.
pub open spec fn elements_of(nodes: Seq<Node>) -> Seq<Element> {
    Seq::new(nodes.len(), |i: int| nodes[i].element)
}

/// Links joining `n` consecutive nodes starting at `start` into a chain.
pub open spec fn chain_links(start: nat, n: nat) -> Seq<Link> {
    Seq::new(
        if n == 0 { 0 } else { (n - 1) as nat },
        |i: int| Link { from: (start + i) as usize, to: (start + i + 1) as usize },
    )
}

impl Topology {
    pub open spec fn elements(&self) -> Seq<Element> {
        elements_of(self.nodes@)
    }

    /// Every link joins two nodes of the graph.
    pub open spec fn wf(&self) -> bool {
        &&& forall|i: int| 0 <= i < self.links@.len() ==> (#[trigger] self.links@[i]).from
            < self.nodes@.len() && self.links@[i].to < self.nodes@.len()
        &&& match self.pad_link {
            Some(p) => p.from < self.nodes@.len() && p.to < self.nodes@.len(),
            None => true,
        }
    }

    fn empty(record_path: Option<String>) -> (t: Topology)
        ensures
            t.elements() == Seq::<Element>::empty(),
            t.nodes@.len() == 0,
            t.links@ == Seq::<Link>::empty(),
            t.pad_link.is_none(),
            t.record_path == record_path,
            t.wf(),
    {
        let t = Topology { nodes: Vec::new(), links: Vec::new(), pad_link: None, record_path };
        assert(t.elements() =~= Seq::<Element>::empty());
        t
    }

    /// Appends `els` as new nodes linked one after the other.
    fn add_chain(&mut self, els: &Vec<Element>)
        requires
            old(self).nodes@.len() + els@.len() <= usize::MAX,
            old(self).wf(),
        ensures
            final(self).wf(),
            final(self).nodes@.len() == old(self).nodes@.len() + els@.len(),
            final(self).elements() == old(self).elements() + els@,
            final(self).links@ == old(self).links@ + chain_links(old(self).nodes@.len() as nat, els@.len() as nat),
            final(self).pad_link == old(self).pad_link,
            final(self).record_path == old(self).record_path,
    {
        let start = self.nodes.len();
        let ghost old_links = self.links@;
        let ghost old_elems = self.elements();
        let mut i: usize = 0;
        while i < els.len()
            invariant
                start == old(self).nodes@.len(),
                old_elems == elements_of(old(self).nodes@),
                old_links == old(self).links@,
                start + els@.len() <= usize::MAX,
                i <= els@.len(),
                self.nodes@.len() == start + i,
                self.elements() == old_elems + els@.subrange(0, i as int),
                self.links@ == old_links + chain_links(start as nat, i as nat),
                self.pad_link == old(self).pad_link,
                self.record_path == old(self).record_path,
                self.wf(),
            decreases els.len() - i,
        {
            let e = els[i];
            let name = random_string(element_prefix(e));
            let ghost before = self.nodes@;
            self.nodes.push(Node { name, element: e });
            if i > 0 {
                self.links.push(Link { from: start + i - 1, to: start + i });
            }
            let ghost want = old_elems + els@.subrange(0, i + 1);
            assert(elements_of(before) == old_elems + els@.subrange(0, i as int));
            assert forall|k: int| 0 <= k < self.nodes@.len() implies #[trigger] self.elements()[k] == want[k] by {
                if k < before.len() {
                    assert(self.elements()[k] == elements_of(before)[k]);
                }
            }
            assert(self.elements() =~= want);
            assert(self.links@ =~= old_links + chain_links(start as nat, (i + 1) as nat));
            i += 1;
        }
        assert(els@.subrange(0, els@.len() as int) =~= els@);
    }
}

/// The name prefix given to an element of each kind.
fn element_prefix(e: Element) -> &'static str {
    match e {
        Element::DeviceSource => "source",
        Element::ScreenSource { .. } => "screen-source",
        Element::CapsFilter { .. } => "capsfilter",
        Element::JpegDecoder => "jpegdec",
        Element::VideoConvert => "videoconvert",
        Element::VideoScale => "videoscale",
        Element::H264Parser => "h264parse",
        Element::H264Decoder => "avdec_h264",
        Element::Tee => "tee",
        Element::Queue => "queue",
        Element::Deinterleave => "deinterleave",
        Element::AudioConvert => "audioconvert",
        Element::AudioResample => "audioresample",
        Element::FrameSink { .. } => "appsink",
        Element::H264Encoder { .. } => "x264enc",
        Element::AacEncoder { .. } => "avenc_aac",
        Element::AacParser => "aacparse",
        Element::Mp4Muxer => "mp4mux",
        Element::FileSink { .. } => "filesink",
    }
}

} // verus!

verus! {

pub open spec fn no_caps(media: MediaType) -> CapsSpec {
    CapsSpec {
        media,
        format: None,
        width: None,
        height: None,
        framerate: None,
        channels: None,
        rate: None,
        channel_mask: None,
        square_pixels: false,
    }
}

/// Size and frame rate of an encoded or raw camera stream.
pub open spec fn sized_caps(media: MediaType, width: i32, height: i32, fps: i32) -> CapsSpec {
    CapsSpec { width: Some(width), height: Some(height), framerate: Some(fps), ..no_caps(media) }
}

/// Planar I420 video, any size.
pub open spec fn i420_caps() -> CapsSpec {
    CapsSpec { format: Some(SampleFormat::I420), ..no_caps(MediaType::VideoRaw) }
}

/// Planar I420 video at a fixed size and rate.
pub open spec fn raw_video_caps(width: i32, height: i32, fps: i32) -> CapsSpec {
    CapsSpec { format: Some(SampleFormat::I420), ..sized_caps(MediaType::VideoRaw, width, height, fps) }
}

/// Screen capture output: I420 at a fixed size and rate, square pixels.
pub open spec fn screen_caps(width: i32, height: i32, fps: i32) -> CapsSpec {
    CapsSpec { square_pixels: true, ..raw_video_caps(width, height, fps) }
}

/// Interleaved signed 16-bit little-endian audio.
pub open spec fn audio_caps(channels: i32, rate: i32, mask: Option<u64>) -> CapsSpec {
    CapsSpec {
        format: Some(SampleFormat::S16LE),
        channels: Some(channels),
        rate: Some(rate),
        channel_mask: mask,
        ..no_caps(MediaType::AudioRaw)
    }
}

/// Bit mask selecting the lowest `n` channels.
pub open spec fn low_mask(n: nat) -> nat
    decreases n,
{
    if n == 0 { 0 } else { 2 * low_mask((n - 1) as nat) + 1 }
}

pub open spec fn frame_sink_i420() -> Element {
    Element::FrameSink { caps: Some(i420_caps()) }
}

pub open spec fn xraw_elements(width: i32, height: i32, fps: i32) -> Seq<Element> {
    seq![
        Element::DeviceSource,
        Element::CapsFilter { caps: raw_video_caps(width, height, fps) },
        frame_sink_i420(),
    ]
}

pub open spec fn h264_elements(width: i32, height: i32, fps: i32) -> Seq<Element> {
    seq![
        Element::DeviceSource,
        Element::CapsFilter { caps: sized_caps(MediaType::VideoH264, width, height, fps) },
        Element::H264Parser,
        Element::H264Decoder,
        frame_sink_i420(),
    ]
}

/// JPEG camera: decode, convert to I420, then a tee whose first branch
/// feeds subscribers. The tee is node 5.
pub open spec fn jpeg_elements(width: i32, height: i32, fps: i32) -> Seq<Element> {
    seq![
        Element::DeviceSource,
        Element::CapsFilter { caps: sized_caps(MediaType::ImageJpeg, width, height, fps) },
        Element::JpegDecoder,
        Element::VideoConvert,
        Element::CapsFilter { caps: i420_caps() },
        Element::Tee,
        Element::Queue,
        frame_sink_i420(),
    ]
}

/// Screen capture up to a tee (node 4) and its subscriber branch.
pub open spec fn screen_elements(src: Element, width: i32, height: i32, fps: i32) -> Seq<Element> {
    seq![
        src,
        Element::VideoConvert,
        Element::VideoScale,
        Element::CapsFilter { caps: screen_caps(width, height, fps) },
        Element::Tee,
        Element::Queue,
        Element::FrameSink { caps: Some(screen_caps(width, height, fps)) },
    ]
}

/// Microphone up to a tee (node 3) and its subscriber branch.
pub open spec fn audio_elements(channels: i32, rate: i32) -> Seq<Element> {
    seq![
        Element::DeviceSource,
        Element::AudioConvert,
        Element::CapsFilter { caps: audio_caps(channels, rate, None) },
        Element::Tee,
        Element::Queue,
        Element::FrameSink { caps: None },
    ]
}

/// Multi-channel input split per channel (node 3); the selected channel's
/// pad feeds a queue (node 4), then a tee (node 5) and its subscriber branch.
pub open spec fn deinterleaved_elements(channels: i32, rate: i32, mask: u64) -> Seq<Element> {
    seq![
        Element::DeviceSource,
        Element::AudioConvert,
        Element::CapsFilter { caps: audio_caps(channels, rate, Some(mask)) },
        Element::Deinterleave,
        Element::Queue,
        Element::Tee,
        Element::Queue,
        Element::FrameSink { caps: None },
    ]
}

/// Recording branch for video: re-encode to H.264 in MP4.
pub open spec fn video_file_elements() -> Seq<Element> {
    seq![
        Element::Queue,
        Element::VideoConvert,
        Element::CapsFilter { caps: i420_caps() },
        Element::H264Encoder { bitrate: 3000, zero_latency: true },
        Element::H264Parser,
        Element::Mp4Muxer,
        Element::FileSink { sync: false },
    ]
}

/// Recording branch for audio: resample and encode to AAC in MP4.
pub open spec fn audio_file_elements() -> Seq<Element> {
    seq![
        Element::Queue,
        Element::AudioConvert,
        Element::AudioResample,
        Element::AacEncoder { bitrate: 128000 },
        Element::AacParser,
        Element::Mp4Muxer,
        Element::FileSink { sync: false },
    ]
}

/// A branch of `n` chained nodes from `start`, fed by the tee at `tee`.
pub open spec fn branch_links(tee: nat, start: nat, n: nat) -> Seq<Link> {
    seq![Link { from: tee as usize, to: start as usize }] + chain_links(start, n)
}

/// `extra` when recording, nothing otherwise.
pub open spec fn if_recording<T>(record: bool, extra: Seq<T>) -> Seq<T> {
    if record { extra } else { Seq::empty() }
}

impl Topology {
    /// Hangs a chain of `els` off the tee at node `tee`.
    fn add_branch(&mut self, tee: usize, els: &Vec<Element>)
        requires
            old(self).nodes@.len() + els@.len() <= usize::MAX,
            old(self).wf(),
            tee < old(self).nodes@.len(),
            els@.len() > 0,
        ensures
            final(self).wf(),
            final(self).nodes@.len() == old(self).nodes@.len() + els@.len(),
            final(self).elements() == old(self).elements() + els@,
            final(self).links@ == old(self).links@ + branch_links(
                tee as nat,
                old(self).nodes@.len() as nat,
                els@.len() as nat,
            ),
            final(self).pad_link == old(self).pad_link,
            final(self).record_path == old(self).record_path,
    {
        let start = self.nodes.len();
        let pos = self.links.len();
        self.add_chain(els);
        self.links.insert(pos, Link { from: tee, to: start });
        assert(self.links@ =~= old(self).links@ + branch_links(tee as nat, start as nat, els@.len() as nat));
        assert forall|i: int| 0 <= i < self.links@.len() implies (#[trigger] self.links@[i]).from
            < self.nodes@.len() && self.links@[i].to < self.nodes@.len() by {
            if i > pos {
                assert(self.links@[i] == old(self).links@.add(chain_links(start as nat, els@.len() as nat))[i - 1]);
            }
        }
    }
}

fn video_file_branch() -> (v: Vec<Element>)
    ensures
        v@ == video_file_elements(),
{
    let v = vec![
        Element::Queue,
        Element::VideoConvert,
        Element::CapsFilter { caps: make_i420_caps() },
        Element::H264Encoder { bitrate: 3000, zero_latency: true },
        Element::H264Parser,
        Element::Mp4Muxer,
        Element::FileSink { sync: false },
    ];
    assert(v@ =~= video_file_elements());
    v
}

fn make_i420_caps() -> (c: CapsSpec)
    ensures
        c == i420_caps(),
{
    CapsSpec {
        media: MediaType::VideoRaw,
        format: Some(SampleFormat::I420),
        width: None,
        height: None,
        framerate: None,
        channels: None,
        rate: None,
        channel_mask: None,
        square_pixels: false,
    }
}

} // verus!

verus! {

pub open spec fn raw_video_codec() -> Seq<char> {
    "video/x-raw"@
}

pub open spec fn h264_codec() -> Seq<char> {
    "video/x-h264"@
}

pub open spec fn jpeg_codec() -> Seq<char> {
    "image/jpeg"@
}

pub open spec fn raw_audio_codec() -> Seq<char> {
    "audio/x-raw"@
}

/// Codecs a camera stream may be requested in.
pub open spec fn is_video_codec(codec: Seq<char>) -> bool {
    codec == raw_video_codec() || codec == h264_codec() || codec == jpeg_codec()
}

/// A camera request that a topology is built for: a video device that lists
/// the exact mode, in a supported codec; only JPEG streams can be recorded.
pub open spec fn video_request_ok(
    class: Seq<char>,
    caps: Seq<MediaCapability>,
    codec: Seq<char>,
    width: i32,
    height: i32,
    fps: i32,
    record: bool,
) -> bool {
    &&& class != audio_class()
    &&& is_video_codec(codec)
    &&& spec_supports_video(class, caps, codec, width, height, fps)
    &&& (record ==> codec == jpeg_codec())
}

pub open spec fn video_topology_elements(codec: Seq<char>, width: i32, height: i32, fps: i32, record: bool) -> Seq<Element> {
    if codec == raw_video_codec() {
        xraw_elements(width, height, fps)
    } else if codec == h264_codec() {
        h264_elements(width, height, fps)
    } else {
        jpeg_elements(width, height, fps) + if_recording(record, video_file_elements())
    }
}

pub open spec fn video_topology_links(codec: Seq<char>, record: bool) -> Seq<Link> {
    if codec == raw_video_codec() {
        chain_links(0, 3)
    } else if codec == h264_codec() {
        chain_links(0, 5)
    } else {
        chain_links(0, 8) + if_recording(record, branch_links(5, 8, 7))
    }
}

/// A microphone request: an audio device whose listed modes cover it, in raw audio.
pub open spec fn audio_request_ok(class: Seq<char>, caps: Seq<MediaCapability>, codec: Seq<char>, channels: i32, rate: i32) -> bool {
    &&& class != video_class()
    &&& codec == raw_audio_codec()
    &&& spec_supports_audio(class, caps, codec, channels, rate)
}

pub open spec fn audio_topology_elements(channels: i32, rate: i32, record: bool) -> Seq<Element> {
    audio_elements(channels, rate) + if_recording(record, audio_file_elements())
}

pub open spec fn audio_topology_links(record: bool) -> Seq<Link> {
    chain_links(0, 4) + branch_links(3, 4, 2) + if_recording(record, branch_links(3, 6, 7))
}

/// Channel selection also needs the channel to exist, and at most 63
/// channels so that the channel mask fits.
pub open spec fn channel_selection_ok(channels: i32, selected: i32) -> bool {
    1 <= selected <= channels && channels <= 63
}

pub open spec fn deinterleaved_topology_elements(channels: i32, rate: i32, record: bool) -> Seq<Element> {
    deinterleaved_elements(channels, rate, low_mask(channels as nat) as u64) + if_recording(record, audio_file_elements())
}

pub open spec fn deinterleaved_topology_links(record: bool) -> Seq<Link> {
    chain_links(0, 4) + chain_links(4, 2) + branch_links(5, 6, 2) + if_recording(record, branch_links(5, 8, 7))
}

/// The capture rectangle of the first listed screen mode, when it is a
/// non-empty rectangle at non-negative coordinates.
pub open spec fn screen_rect(caps: Seq<MediaCapability>) -> Option<Element> {
    if caps.len() > 0 {
        match caps[0] {
            MediaCapability::Screen(s) => if 0 <= s.startx < s.endx && 0 <= s.starty < s.endy {
                Some(
                    Element::ScreenSource {
                        startx: s.startx as u32,
                        starty: s.starty as u32,
                        endx: (s.endx - 1) as u32,
                        endy: (s.endy - 1) as u32,
                    },
                )
            } else {
                None
            },
            _ => None,
        }
    } else {
        None
    }
}

pub open spec fn screen_request_ok(class: Seq<char>, caps: Seq<MediaCapability>, codec: Seq<char>, width: i32, height: i32, fps: i32) -> bool {
    &&& spec_supports_screen_share(class, caps, codec, width, height, fps)
    &&& screen_rect(caps).is_some()
}

pub open spec fn screen_topology_links(record: bool) -> Seq<Link> {
    chain_links(0, 5) + branch_links(4, 5, 2) + if_recording(record, branch_links(4, 7, 7))
}

fn audio_file_branch() -> (v: Vec<Element>)
    ensures
        v@ == audio_file_elements(),
{
    let v = vec![
        Element::Queue,
        Element::AudioConvert,
        Element::AudioResample,
        Element::AacEncoder { bitrate: 128000 },
        Element::AacParser,
        Element::Mp4Muxer,
        Element::FileSink { sync: false },
    ];
    assert(v@ =~= audio_file_elements());
    v
}

fn make_sized_caps(media: MediaType, width: i32, height: i32, fps: i32) -> (c: CapsSpec)
    ensures
        c == sized_caps(media, width, height, fps),
{
    CapsSpec {
        media,
        format: None,
        width: Some(width),
        height: Some(height),
        framerate: Some(fps),
        channels: None,
        rate: None,
        channel_mask: None,
        square_pixels: false,
    }
}

fn make_audio_caps(channels: i32, rate: i32, mask: Option<u64>) -> (c: CapsSpec)
    ensures
        c == audio_caps(channels, rate, mask),
{
    CapsSpec {
        media: MediaType::AudioRaw,
        format: Some(SampleFormat::S16LE),
        width: None,
        height: None,
        framerate: None,
        channels: Some(channels),
        rate: Some(rate),
        channel_mask: mask,
        square_pixels: false,
    }
}

proof fn lemma_low_mask_bound(n: nat)
    requires
        n <= 63,
    ensures
        low_mask(n) < 0x8000_0000_0000_0000,
{
    lemma_low_mask_pow(n);
    vstd::arithmetic::power2::lemma2_to64_rest();
    if n < 63 {
        vstd::arithmetic::power2::lemma_pow2_strictly_increases(n, 63);
    }
}

/// One more than the mask of `n` bits is `2^n`.
proof fn lemma_low_mask_pow(n: nat)
    ensures
        low_mask(n) + 1 == vstd::arithmetic::power2::pow2(n),
    decreases n,
{
    if n > 0 {
        vstd::arithmetic::power2::lemma_pow2_unfold(n);
        lemma_low_mask_pow((n - 1) as nat);
    } else {
        vstd::arithmetic::power2::lemma2_to64();
    }
}

/// The mask with the lowest `n` bits set.
fn channel_mask(n: i32) -> (m: u64)
    requires
        0 <= n <= 63,
    ensures
        m == low_mask(n as nat),
{
    let mut m: u64 = 0;
    let mut i: i32 = 0;
    while i < n
        invariant
            0 <= i <= n <= 63,
            m == low_mask(i as nat),
        decreases n - i,
    {
        proof {
            lemma_low_mask_bound(i as nat);
        }
        m = 2 * m + 1;
        i += 1;
    }
    m
}

} // verus!

verus! {

fn make_raw_video_caps(width: i32, height: i32, fps: i32, square_pixels: bool) -> (c: CapsSpec)
    ensures
        c == (CapsSpec { square_pixels, ..raw_video_caps(width, height, fps) }),
{
    CapsSpec {
        media: MediaType::VideoRaw,
        format: Some(SampleFormat::I420),
        width: Some(width),
        height: Some(height),
        framerate: Some(fps),
        channels: None,
        rate: None,
        channel_mask: None,
        square_pixels,
    }
}

fn xraw_topology(width: i32, height: i32, fps: i32) -> (t: Topology)
    ensures
        t.wf(),
        t.elements() == xraw_elements(width, height, fps),
        t.links@ == chain_links(0, 3),
        t.pad_link.is_none(),
        t.record_path.is_none(),
{
    let mut t = Topology::empty(None);
    let els = vec![
        Element::DeviceSource,
        Element::CapsFilter { caps: make_raw_video_caps(width, height, fps, false) },
        Element::FrameSink { caps: Some(make_i420_caps()) },
    ];
    t.add_chain(&els);
    assert(t.elements() =~= xraw_elements(width, height, fps));
    assert(t.links@ =~= chain_links(0, 3));
    t
}

fn h264_topology(width: i32, height: i32, fps: i32) -> (t: Topology)
    ensures
        t.wf(),
        t.elements() == h264_elements(width, height, fps),
        t.links@ == chain_links(0, 5),
        t.pad_link.is_none(),
        t.record_path.is_none(),
{
    let mut t = Topology::empty(None);
    let els = vec![
        Element::DeviceSource,
        Element::CapsFilter { caps: make_sized_caps(MediaType::VideoH264, width, height, fps) },
        Element::H264Parser,
        Element::H264Decoder,
        Element::FrameSink { caps: Some(make_i420_caps()) },
    ];
    t.add_chain(&els);
    assert(t.elements() =~= h264_elements(width, height, fps));
    assert(t.links@ =~= chain_links(0, 5));
    t
}

fn jpeg_topology(width: i32, height: i32, fps: i32, filename: Option<String>) -> (t: Topology)
    ensures
        t.wf(),
        t.elements() == jpeg_elements(width, height, fps) + if_recording(filename is Some, video_file_elements()),
        t.links@ == chain_links(0, 8) + if_recording(filename is Some, branch_links(5, 8, 7)),
        t.pad_link.is_none(),
        t.record_path == filename,
{
    let record = filename.is_some();
    let mut t = Topology::empty(filename);
    let els = vec![
        Element::DeviceSource,
        Element::CapsFilter { caps: make_sized_caps(MediaType::ImageJpeg, width, height, fps) },
        Element::JpegDecoder,
        Element::VideoConvert,
        Element::CapsFilter { caps: make_i420_caps() },
        Element::Tee,
        Element::Queue,
        Element::FrameSink { caps: Some(make_i420_caps()) },
    ];
    t.add_chain(&els);
    assert(t.elements() =~= jpeg_elements(width, height, fps));
    assert(t.links@ =~= chain_links(0, 8));
    if record {
        t.add_branch(5, &video_file_branch());
    } else {
        assert(t.elements() =~= jpeg_elements(width, height, fps) + if_recording(false, video_file_elements()));
        assert(t.links@ =~= chain_links(0, 8) + if_recording(false, branch_links(5, 8, 7)));
    }
    t
}

fn screen_topology(src: Element, width: i32, height: i32, fps: i32, filename: Option<String>) -> (t: Topology)
    ensures
        t.wf(),
        t.elements() == screen_elements(src, width, height, fps) + if_recording(filename is Some, video_file_elements()),
        t.links@ == screen_topology_links(filename is Some),
        t.pad_link.is_none(),
        t.record_path == filename,
{
    let record = filename.is_some();
    let mut t = Topology::empty(filename);
    let caps = make_raw_video_caps(width, height, fps, true);
    let trunk = vec![
        src,
        Element::VideoConvert,
        Element::VideoScale,
        Element::CapsFilter { caps },
        Element::Tee,
    ];
    t.add_chain(&trunk);
    let sink_branch = vec![Element::Queue, Element::FrameSink { caps: Some(caps) }];
    t.add_branch(4, &sink_branch);
    assert(t.elements() =~= screen_elements(src, width, height, fps));
    assert(t.links@ =~= chain_links(0, 5) + branch_links(4, 5, 2));
    if record {
        t.add_branch(4, &video_file_branch());
    }
    assert(t.links@ =~= screen_topology_links(record));
    assert(t.elements() =~= screen_elements(src, width, height, fps) + if_recording(record, video_file_elements()));
    t
}

fn audio_topology(channels: i32, rate: i32, filename: Option<String>) -> (t: Topology)
    ensures
        t.wf(),
        t.elements() == audio_topology_elements(channels, rate, filename is Some),
        t.links@ == audio_topology_links(filename is Some),
        t.pad_link.is_none(),
        t.record_path == filename,
{
    let record = filename.is_some();
    let mut t = Topology::empty(filename);
    let trunk = vec![
        Element::DeviceSource,
        Element::AudioConvert,
        Element::CapsFilter { caps: make_audio_caps(channels, rate, None) },
        Element::Tee,
    ];
    t.add_chain(&trunk);
    let sink_branch = vec![Element::Queue, Element::FrameSink { caps: None }];
    t.add_branch(3, &sink_branch);
    assert(t.elements() =~= audio_elements(channels, rate));
    if record {
        t.add_branch(3, &audio_file_branch());
    }
    assert(t.links@ =~= audio_topology_links(record));
    assert(t.elements() =~= audio_topology_elements(channels, rate, record));
    t
}

fn deinterleaved_topology(channels: i32, selected: i32, rate: i32, filename: Option<String>) -> (t: Topology)
    requires
        channel_selection_ok(channels, selected),
    ensures
        t.wf(),
        t.elements() == deinterleaved_topology_elements(channels, rate, filename is Some),
        t.links@ == deinterleaved_topology_links(filename is Some),
        t.pad_link == Some(PadLink { from: 3, pad_index: (selected - 1) as u32, to: 4 }),
        t.record_path == filename,
{
    let record = filename.is_some();
    let mut t = Topology::empty(filename);
    let mask = channel_mask(channels);
    let trunk = vec![
        Element::DeviceSource,
        Element::AudioConvert,
        Element::CapsFilter { caps: make_audio_caps(channels, rate, Some(mask)) },
        Element::Deinterleave,
    ];
    t.add_chain(&trunk);
    let after_select = vec![Element::Queue, Element::Tee];
    t.add_chain(&after_select);
    let sink_branch = vec![Element::Queue, Element::FrameSink { caps: None }];
    t.add_branch(5, &sink_branch);
    assert(t.elements() =~= deinterleaved_elements(channels, rate, low_mask(channels as nat) as u64));
    if record {
        t.add_branch(5, &audio_file_branch());
    }
    t.pad_link = Some(PadLink { from: 3, pad_index: (selected - 1) as u32, to: 4 });
    assert(t.links@ =~= deinterleaved_topology_links(record));
    assert(t.elements() =~= deinterleaved_topology_elements(channels, rate, record));
    t
}

} // verus!

verus! {

/// The screen-capture source for the first listed screen mode.
fn screen_source(caps: &Vec<MediaCapability>) -> (r: Option<Element>)
    ensures
        r == screen_rect(caps@),
{
    if caps.len() == 0 {
        return None;
    }
    match &caps[0] {
        MediaCapability::Screen(s) => {
            if 0 <= s.startx && s.startx < s.endx && 0 <= s.starty && s.starty < s.endy {
                Some(
                    Element::ScreenSource {
                        startx: s.startx as u32,
                        starty: s.starty as u32,
                        endx: (s.endx - 1) as u32,
                        endy: (s.endy - 1) as u32,
                    },
                )
            } else {
                None
            }
        },
        _ => None,
    }
}

impl GstMediaDevice {
    /// Plans the camera topology for `codec` at the given mode, after
    /// checking the request against the capabilities `caps` fetched for this
    /// device. Nothing is built for a rejected request.
    pub fn video_pipeline(
        &self,
        caps: &Vec<MediaCapability>,
        codec: &str,
        width: i32,
        height: i32,
        framerate: i32,
        filename: Option<String>,
    ) -> (r: Result<Topology, GStreamerError>)
        ensures
            r is Ok <==> video_request_ok(
                self.device_class@,
                caps@,
                codec@,
                width,
                height,
                framerate,
                filename is Some,
            ),
            match r {
                Ok(t) => {
                    &&& t.wf()
                    &&& t.elements() == video_topology_elements(codec@, width, height, framerate, filename is Some)
                    &&& t.links@ == video_topology_links(codec@, filename is Some)
                    &&& t.pad_link.is_none()
                    &&& t.record_path == filename
                },
                Err(e) => e.is_pipeline_error(),
            },
    {
        if str_eq(self.device_class.as_str(), "Audio/Source") {
            return Err(pipeline_error("Device is an audio source"));
        }
        let is_raw = str_eq(codec, "video/x-raw");
        let is_h264 = str_eq(codec, "video/x-h264");
        let is_jpeg = str_eq(codec, "image/jpeg");
        if !(is_raw || is_h264 || is_jpeg) {
            return Err(pipeline_error("Unsupported codec"));
        }
        if !self.supports_video(caps, codec, width, height, framerate) {
            return Err(pipeline_error("Device does not support requested configuration"));
        }
        proof {
            reveal_strlit("video/x-raw");
            reveal_strlit("video/x-h264");
            reveal_strlit("image/jpeg");
            assert(raw_video_codec()[0] != jpeg_codec()[0]);
            assert(h264_codec()[0] != jpeg_codec()[0]);
        }
        if is_raw {
            if filename.is_some() {
                return Err(pipeline_error("Filename not supported for xraw pipeline"));
            }
            Ok(xraw_topology(width, height, framerate))
        } else if is_h264 {
            if filename.is_some() {
                return Err(pipeline_error("Filename not supported for H264 pipeline"));
            }
            Ok(h264_topology(width, height, framerate))
        } else {
            Ok(jpeg_topology(width, height, framerate, filename))
        }
    }

    /// Plans the microphone topology, after checking the request against
    /// the capabilities `caps` fetched for this device.
    pub fn audio_pipeline(
        &self,
        caps: &Vec<MediaCapability>,
        codec: &str,
        channels: i32,
        framerate: i32,
        filename: Option<String>,
    ) -> (r: Result<Topology, GStreamerError>)
        ensures
            r is Ok <==> audio_request_ok(self.device_class@, caps@, codec@, channels, framerate),
            match r {
                Ok(t) => {
                    &&& t.wf()
                    &&& t.elements() == audio_topology_elements(channels, framerate, filename is Some)
                    &&& t.links@ == audio_topology_links(filename is Some)
                    &&& t.pad_link.is_none()
                    &&& t.record_path == filename
                },
                Err(e) => e.is_pipeline_error(),
            },
    {
        if str_eq(self.device_class.as_str(), "Video/Source") {
            return Err(pipeline_error("Device is a video source"));
        }
        if !str_eq(codec, "audio/x-raw") {
            return Err(pipeline_error("Unsupported codec"));
        }
        if !self.supports_audio(caps, codec, channels, framerate) {
            return Err(pipeline_error("Device does not support requested configuration"));
        }
        Ok(audio_topology(channels, framerate, filename))
    }

    /// Plans a topology that keeps one input channel (`selected_channel`,
    /// counted from 1) of a multi-channel device.
    pub fn deinterleaved_audio_pipeline(
        &self,
        caps: &Vec<MediaCapability>,
        codec: &str,
        channels: i32,
        selected_channel: i32,
        framerate: i32,
        filename: Option<String>,
    ) -> (r: Result<Topology, GStreamerError>)
        ensures
            r is Ok <==> audio_request_ok(self.device_class@, caps@, codec@, channels, framerate)
                && channel_selection_ok(channels, selected_channel),
            match r {
                Ok(t) => {
                    &&& t.wf()
                    &&& t.elements() == deinterleaved_topology_elements(channels, framerate, filename is Some)
                    &&& t.links@ == deinterleaved_topology_links(filename is Some)
                    &&& t.pad_link == Some(
                        PadLink { from: 3, pad_index: (selected_channel - 1) as u32, to: 4 },
                    )
                    &&& t.record_path == filename
                },
                Err(e) => e.is_pipeline_error(),
            },
    {
        if str_eq(self.device_class.as_str(), "Video/Source") {
            return Err(pipeline_error("Device is a video source"));
        }
        if !str_eq(codec, "audio/x-raw") {
            return Err(pipeline_error("Unsupported codec"));
        }
        if !self.supports_audio(caps, codec, channels, framerate) {
            return Err(pipeline_error("Device does not support requested configuration"));
        }
        if !(1 <= selected_channel && selected_channel <= channels && channels <= 63) {
            return Err(pipeline_error("Selected channel is not available on the device"));
        }
        Ok(deinterleaved_topology(channels, selected_channel, framerate, filename))
    }

    /// Plans the screen-capture topology for the rectangle of the first
    /// listed screen mode.
    pub fn screen_share_pipeline(
        &self,
        caps: &Vec<MediaCapability>,
        codec: &str,
        width: i32,
        height: i32,
        framerate: i32,
        filename: Option<String>,
    ) -> (r: Result<Topology, GStreamerError>)
        ensures
            r is Ok <==> screen_request_ok(self.device_class@, caps@, codec@, width, height, framerate),
            match r {
                Ok(t) => {
                    &&& t.wf()
                    &&& t.elements() == screen_elements(screen_rect(caps@)->Some_0, width, height, framerate)
                        + if_recording(filename is Some, video_file_elements())
                    &&& t.links@ == screen_topology_links(filename is Some)
                    &&& t.pad_link.is_none()
                    &&& t.record_path == filename
                },
                Err(e) => e.is_pipeline_error(),
            },
    {
        if !str_eq(self.device_class.as_str(), "Screen/Source") {
            return Err(pipeline_error("Device is not a screen source"));
        }
        if !self.supports_screen_share(caps, codec, width, height, framerate) {
            return Err(pipeline_error("Device does not support requested configuration"));
        }
        match screen_source(caps) {
            Some(src) => Ok(screen_topology(src, width, height, framerate, filename)),
            None => Err(pipeline_error("No screen capability found")),
        }
    }
}

} // verus!

verus! {

/// Nodes `lo..=hi` form a branch fed by the tee at `tee` alone: the tee
/// links to `lo`, any other link into the range starts inside it, and no
/// link leaves the range.
pub open spec fn is_tee_branch(links: Seq<Link>, tee: int, lo: int, hi: int) -> bool {
    &&& tee < lo <= hi
    &&& links.contains(Link { from: tee as usize, to: lo as usize })
    &&& forall|k: int|
        0 <= k < links.len() && lo <= (#[trigger] links[k]).to <= hi ==> (links[k].from == tee
            && links[k].to == lo) || (lo <= links[k].from <= hi)
    &&& forall|k: int|
        0 <= k < links.len() && lo <= (#[trigger] links[k]).from <= hi ==> lo <= links[k].to <= hi
}

/// A JPEG camera topology that records has one tee with two independent
/// branches: nodes 6..=7 end in the subscriber sink, nodes 8..=14 in the
/// file sink. No link runs between the branches, so either keeps flowing
/// when the other stops.
pub proof fn lemma_jpeg_recording_branches(width: i32, height: i32, fps: i32)
    ensures
        ({
            let els = video_topology_elements(jpeg_codec(), width, height, fps, true);
            let links = video_topology_links(jpeg_codec(), true);
            &&& els.len() == 15
            &&& els[5] == Element::Tee
            &&& forall|k: int| 0 <= k < links.len() && (#[trigger] links[k]).from == 5 ==> links[k].to == 6
                || links[k].to == 8
            &&& is_tee_branch(links, 5, 6, 7)
            &&& els[7] is FrameSink
            &&& is_tee_branch(links, 5, 8, 14)
            &&& els[14] is FileSink
            &&& forall|k: int| 0 <= k < links.len() ==> !(6 <= (#[trigger] links[k]).from <= 7 && 8
                <= links[k].to <= 14) && !(8 <= links[k].from <= 14 && 6 <= links[k].to <= 7)
        }),
{
    let els = video_topology_elements(jpeg_codec(), width, height, fps, true);
    let links = video_topology_links(jpeg_codec(), true);
    reveal_strlit("video/x-raw");
    reveal_strlit("video/x-h264");
    reveal_strlit("image/jpeg");
    assert(raw_video_codec()[0] != jpeg_codec()[0]);
    assert(h264_codec()[0] != jpeg_codec()[0]);
    let trunk = chain_links(0, 8);
    let branch = branch_links(5, 8, 7);
    assert(links == trunk + branch);
    assert(links.len() == 14);
    assert forall|k: int| 0 <= k < 7 implies #[trigger] links[k] == (Link {
        from: k as usize,
        to: (k + 1) as usize,
    }) by {}
    assert(links[7] == Link { from: 5, to: 8 });
    assert forall|k: int| 8 <= k < 14 implies #[trigger] links[k] == (Link {
        from: k as usize,
        to: (k + 1) as usize,
    }) by {
        assert(links[k] == branch[k - 7]);
        assert(branch[k - 7] == chain_links(8, 7)[k - 8]);
    }
    assert(links[6] == Link { from: 6, to: 7 });
    assert(links.contains(Link { from: 5, to: 6 })) by {
        assert(links[5] == Link { from: 5, to: 6 });
    }
    assert(links.contains(Link { from: 5, to: 8 }));
}

} // verus!

verus! {

/// Name of the output pad a deinterleaver creates for channel `index`.
pub open spec fn channel_pad_name(index: u32) -> Seq<char> {
    "src_"@ + decimal(index as nat)
}

/// Guards the run-time link from a deinterleaver to the downstream queue:
/// only the pad of the selected channel is linked, and at most once.
#[derive(Debug, Clone, Copy, PartialEq, Eq, Structural)]
pub struct PadLinker {
    pub pad_index: u32,
    pub linked: bool,
}

/// The linker after a pad named `name` appears, and whether to link it.
pub open spec fn pad_step(l: PadLinker, name: Seq<char>) -> (PadLinker, bool) {
    let link = !l.linked && name == channel_pad_name(l.pad_index);
    (PadLinker { pad_index: l.pad_index, linked: l.linked || link }, link)
}

impl PadLinker {
    /// A linker waiting for the pad of channel index `pad_index`.
    pub fn new(pad_index: u32) -> (r: PadLinker)
        ensures
            r == (PadLinker { pad_index, linked: false }),
    {
        PadLinker { pad_index, linked: false }
    }

    /// Handles the appearance of the pad `pad_name`: returns whether it is
    /// to be linked now, and remembers a link once made.
    pub fn on_pad_added(&mut self, pad_name: &str) -> (link: bool)
        ensures
            (*final(self), link) == pad_step(*old(self), pad_name@),
    {
        if self.linked {
            return false;
        }
        let digits = int_text(self.pad_index as i64);
        let expected = String::from_str("src_").concat(digits.as_str());
        let link = str_eq(pad_name, expected.as_str());
        if link {
            self.linked = true;
        }
        link
    }
}

impl Topology {
    /// A linker for the topology's run-time pad link, if it has one.
    pub fn pad_linker(&self) -> (r: Option<PadLinker>)
        ensures
            r == match self.pad_link {
                Some(p) => Some(PadLinker { pad_index: p.pad_index, linked: false }),
                None => None::<PadLinker>,
            },
    {
        match self.pad_link {
            Some(p) => Some(PadLinker::new(p.pad_index)),
            None => None,
        }
    }
}

/// Channel selection links once: starting from a fresh linker for channel
/// `selected` (counted from 1), a pad is linked only if it is named for
/// index `selected - 1`, and of two pad events at most one is linked.
pub proof fn lemma_channel_pad_linked_once(selected: i32, first: Seq<char>, second: Seq<char>)
    requires
        1 <= selected,
    ensures
        ({
            let l0 = PadLinker { pad_index: (selected - 1) as u32, linked: false };
            let (l1, r1) = pad_step(l0, first);
            let (l2, r2) = pad_step(l1, second);
            &&& r1 ==> first == channel_pad_name((selected - 1) as u32)
            &&& r2 ==> second == channel_pad_name((selected - 1) as u32)
            &&& !(r1 && r2)
            &&& l2.linked == (r1 || r2)
        }),
{
}

} // verus!
