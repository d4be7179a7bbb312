//! The capability model: what a capture device can deliver, and the two
//! matching predicates used to validate a request before any graph exists.
use vstd::prelude::*;

use crate::text::str_eq;

verus! {

/// One discrete video mode of a camera.
#[derive(Debug, Clone)]
pub struct VideoCapability {
    pub width: i32,
    pub height: i32,
    pub framerates: Vec<i32>,
    pub codec: String,
}

/// An inclusive range of sample rates.
#[derive(Debug, Clone, Copy, PartialEq, Eq)]
pub struct RateRange {
    pub min: i32,
    pub max: i32,
}

/// One audio mode: a channel count and an inclusive sample-rate range.
#[derive(Debug, Clone)]
pub struct AudioCapability {
    pub channels: i32,
    pub framerates: RateRange,
    pub codec: String,
}

/// One screen-capture mode with its capture rectangle.
#[derive(Debug, Clone)]
pub struct ScreenCapability {
    pub width: i32,
    pub height: i32,
    pub framerates: Vec<i32>,
    pub codec: String,
    pub startx: i32,
    pub starty: i32,
    pub endx: i32,
    pub endy: i32,
}

#[derive(Debug, Clone)]
pub enum MediaCapability {
    Video(VideoCapability),
    Audio(AudioCapability),
    Screen(ScreenCapability),
}

/// A device as seen by one enumeration pass.
#[derive(Debug, Clone)]
pub struct MediaDeviceInfo {
    pub device_path: String,
    pub display_name: String,
    pub capabilities: Vec<MediaCapability>,
    pub device_class: String,
}

/// A resolved capture device.
#[derive(Debug, Clone)]
pub struct GstMediaDevice {
    pub display_name: String,
    pub device_class: String,
    pub device_path: String,
}

pub open spec fn video_class() -> Seq<char> {
    "Video/Source"@
}

pub open spec fn audio_class() -> Seq<char> {
    "Audio/Source"@
}

pub open spec fn screen_class() -> Seq<char> {
    "Screen/Source"@
}

/// `c` is a video mode with exactly this codec and size, listing `fps`.
pub open spec fn video_mode_matches(c: MediaCapability, codec: Seq<char>, width: i32, height: i32, fps: i32) -> bool {
    match c {
        MediaCapability::Video(v) => v.codec@ == codec && v.width == width && v.height == height
            && v.framerates@.contains(fps),
        _ => false,
    }
}

/// `c` is an audio mode with this codec and channel count whose rate range holds `rate`.
pub open spec fn audio_mode_matches(c: MediaCapability, codec: Seq<char>, channels: i32, rate: i32) -> bool {
    match c {
        MediaCapability::Audio(a) => a.codec@ == codec && a.channels == channels && a.framerates.min
            <= rate && rate <= a.framerates.max,
        _ => false,
    }
}

/// `c` is a screen mode with this codec, at least this large, listing `fps`.
pub open spec fn screen_mode_matches(c: MediaCapability, codec: Seq<char>, width: i32, height: i32, fps: i32) -> bool {
    match c {
        MediaCapability::Screen(s) => s.codec@ == codec && s.width >= width && s.height >= height
            && s.framerates@.contains(fps),
        _ => false,
    }
}

pub open spec fn spec_supports_video(class: Seq<char>, caps: Seq<MediaCapability>, codec: Seq<char>, width: i32, height: i32, fps: i32) -> bool {
    class != audio_class() && exists|i: int|
        0 <= i < caps.len() && #[trigger] video_mode_matches(caps[i], codec, width, height, fps)
}

pub open spec fn spec_supports_audio(class: Seq<char>, caps: Seq<MediaCapability>, codec: Seq<char>, channels: i32, rate: i32) -> bool {
    class != video_class() && exists|i: int|
        0 <= i < caps.len() && #[trigger] audio_mode_matches(caps[i], codec, channels, rate)
}

pub open spec fn spec_supports_screen_share(class: Seq<char>, caps: Seq<MediaCapability>, codec: Seq<char>, width: i32, height: i32, fps: i32) -> bool {
    class == screen_class() && exists|i: int|
        0 <= i < caps.len() && #[trigger] screen_mode_matches(caps[i], codec, width, height, fps)
}

/// Whether `rates` lists `fps`.
pub fn rates_contain(rates: &Vec<i32>, fps: i32) -> (r: bool)
    ensures
        r == rates@.contains(fps),
{
    let mut i: usize = 0;
    while i < rates.len()
        invariant
            i <= rates@.len(),
            forall|k: int| 0 <= k < i ==> rates@[k] != fps,
        decreases rates.len() - i,
    {
        if rates[i] == fps {
            return true;
        }
        i += 1;
    }
    false
}

fn video_mode_check(c: &MediaCapability, codec: &str, width: i32, height: i32, fps: i32) -> (r: bool)
    ensures
        r == video_mode_matches(*c, codec@, width, height, fps),
{
    match c {
        MediaCapability::Video(v) => str_eq(v.codec.as_str(), codec) && v.width == width && v.height
            == height && rates_contain(&v.framerates, fps),
        _ => false,
    }
}

fn audio_mode_check(c: &MediaCapability, codec: &str, channels: i32, rate: i32) -> (r: bool)
    ensures
        r == audio_mode_matches(*c, codec@, channels, rate),
{
    match c {
        MediaCapability::Audio(a) => str_eq(a.codec.as_str(), codec) && a.channels == channels
            && a.framerates.min <= rate && rate <= a.framerates.max,
        _ => false,
    }
}

fn screen_mode_check(c: &MediaCapability, codec: &str, width: i32, height: i32, fps: i32) -> (r: bool)
    ensures
        r == screen_mode_matches(*c, codec@, width, height, fps),
{
    match c {
        MediaCapability::Screen(s) => str_eq(s.codec.as_str(), codec) && s.width >= width
            && s.height >= height && rates_contain(&s.framerates, fps),
        _ => false,
    }
}

impl GstMediaDevice {
    /// Whether this device offers the exact video mode, judged on the
    /// capability list `caps` fetched for it just before the call.
    pub fn supports_video(
        &self,
        caps: &Vec<MediaCapability>,
        codec: &str,
        width: i32,
        height: i32,
        framerate: i32,
    ) -> (r: bool)
        ensures
            r == spec_supports_video(self.device_class@, caps@, codec@, width, height, framerate),
    {
        if str_eq(self.device_class.as_str(), "Audio/Source") {
            return false;
        }
        let mut i: usize = 0;
        while i < caps.len()
            invariant
                i <= caps@.len(),
                self.device_class@ != audio_class(),
                forall|k: int| 0 <= k < i ==> !video_mode_matches(#[trigger] caps@[k], codec@, width, height, framerate),
            decreases caps.len() - i,
        {
            if video_mode_check(&caps[i], codec, width, height, framerate) {
                return true;
            }
            i += 1;
        }
        false
    }

    /// Whether this device offers the channel count with a rate range that
    /// holds `framerate`, judged on the freshly fetched list `caps`.
    pub fn supports_audio(&self, caps: &Vec<MediaCapability>, codec: &str, channels: i32, framerate: i32) -> (r: bool)
        ensures
            r == spec_supports_audio(self.device_class@, caps@, codec@, channels, framerate),
    {
        if str_eq(self.device_class.as_str(), "Video/Source") {
            return false;
        }
        let mut i: usize = 0;
        while i < caps.len()
            invariant
                i <= caps@.len(),
                self.device_class@ != video_class(),
                forall|k: int| 0 <= k < i ==> !audio_mode_matches(#[trigger] caps@[k], codec@, channels, framerate),
            decreases caps.len() - i,
        {
            if audio_mode_check(&caps[i], codec, channels, framerate) {
                return true;
            }
            i += 1;
        }
        false
    }

    /// Whether this screen offers a mode at least as large as requested,
    /// listing `framerate`, judged on the freshly fetched list `caps`.
    pub fn supports_screen_share(
        &self,
        caps: &Vec<MediaCapability>,
        codec: &str,
        width: i32,
        height: i32,
        framerate: i32,
    ) -> (r: bool)
        ensures
            r == spec_supports_screen_share(self.device_class@, caps@, codec@, width, height, framerate),
    {
        if !str_eq(self.device_class.as_str(), "Screen/Source") {
            return false;
        }
        let mut i: usize = 0;
        while i < caps.len()
            invariant
                i <= caps@.len(),
                self.device_class@ == screen_class(),
                forall|k: int| 0 <= k < i ==> !screen_mode_matches(#[trigger] caps@[k], codec@, width, height, framerate),
            decreases caps.len() - i,
        {
            if screen_mode_check(&caps[i], codec, width, height, framerate) {
                return true;
            }
            i += 1;
        }
        false
    }
}

} // verus!

verus! {

/// A device offering a single video mode supports a request exactly when
/// codec, width, height and frame rate all equal that mode's; changing any
/// one of them makes the answer false.
pub proof fn lemma_single_video_mode_exact(
    class: Seq<char>,
    caps: Seq<MediaCapability>,
    codec: Seq<char>,
    width: i32,
    height: i32,
    fps: i32,
)
    requires
        class != audio_class(),
        caps.len() == 1,
        caps[0] is Video,
        caps[0]->Video_0.framerates@.len() == 1,
    ensures
        spec_supports_video(class, caps, codec, width, height, fps) <==> ({
            let m = caps[0]->Video_0;
            &&& codec == m.codec@
            &&& width == m.width
            &&& height == m.height
            &&& fps == m.framerates@[0]
        }),
{
    let m = caps[0]->Video_0;
    if fps == m.framerates@[0] {
        assert(m.framerates@.contains(fps));
    }
    if spec_supports_video(class, caps, codec, width, height, fps) {
        assert(video_mode_matches(caps[0], codec, width, height, fps));
        assert(m.framerates@.contains(fps));
        let k = choose|k: int| 0 <= k < m.framerates@.len() && m.framerates@[k] == fps;
        assert(k == 0);
    } else {
        if codec == m.codec@ && width == m.width && height == m.height && fps == m.framerates@[0] {
            assert(video_mode_matches(caps[0], codec, width, height, fps));
        }
    }
}

/// A video source never supports an audio request, whatever it lists.
pub proof fn lemma_video_device_supports_no_audio(
    caps: Seq<MediaCapability>,
    codec: Seq<char>,
    channels: i32,
    rate: i32,
)
    ensures
        !spec_supports_audio(video_class(), caps, codec, channels, rate),
{
}

} // verus!
