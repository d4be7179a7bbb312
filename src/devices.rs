//! Device resolution: matching a user-supplied identifier against the
//! devices and displays that the enumeration backend reports.
use vstd::prelude::*;
use vstd::string::*;

use crate::capability::{GstMediaDevice, MediaCapability, MediaDeviceInfo, ScreenCapability};
use crate::error::{device_error, GStreamerError};
use crate::text::{contains_seq, str_contains, str_eq};
use crate::utils::{int_text, signed_decimal};

verus! {

/// What the enumeration backend reports of one capture device.
#[derive(Debug)]
pub struct DeviceRecord {
    pub display_name: String,
    pub device_class: String,
    /// The `device.api` property.
    pub api: Option<String>,
    /// The `api.v4l2.path` property.
    pub v4l2_path: Option<String>,
    /// The `device.string` property.
    pub device_string: Option<String>,
    /// The `device.path` property.
    pub device_path: Option<String>,
    pub capabilities: Vec<MediaCapability>,
}

/// What the display backend reports of one monitor, in physical pixels.
#[derive(Debug, Clone)]
pub struct DisplayRecord {
    pub id: u32,
    pub name: String,
    pub friendly_name: String,
    pub x: i32,
    pub y: i32,
    pub width: i32,
    pub height: i32,
    /// Refresh rate in whole hertz.
    pub frequency: i32,
}

pub open spec fn opt_contains(p: Option<String>, needle: Seq<char>) -> bool {
    match p {
        Some(v) => contains_seq(v@, needle),
        None => false,
    }
}

/// One of the path-like properties of `d` contains `path`.
pub open spec fn record_matches(d: DeviceRecord, path: Seq<char>) -> bool {
    opt_contains(d.v4l2_path, path) || opt_contains(d.device_string, path) || opt_contains(d.device_path, path)
}

fn opt_str_contains(p: &Option<String>, needle: &str) -> (r: bool)
    ensures
        r == opt_contains(*p, needle@),
{
    match p {
        Some(v) => str_contains(v.as_str(), needle),
        None => false,
    }
}

/// The first device one of whose path-like properties contains `path`.
pub fn get_gst_device(devices: &Vec<DeviceRecord>, path: &str) -> (r: Option<usize>)
    ensures
        match r {
            Some(i) => i < devices@.len() && record_matches(devices@[i as int], path@) && forall|j: int|
                0 <= j < i ==> !record_matches(#[trigger] devices@[j], path@),
            None => forall|j: int| 0 <= j < devices@.len() ==> !record_matches(#[trigger] devices@[j], path@),
        },
{
    let mut i: usize = 0;
    while i < devices.len()
        invariant
            i <= devices@.len(),
            forall|j: int| 0 <= j < i ==> !record_matches(#[trigger] devices@[j], path@),
        decreases devices.len() - i,
    {
        let d = &devices[i];
        if opt_str_contains(&d.v4l2_path, path) || opt_str_contains(&d.device_string, path)
            || opt_str_contains(&d.device_path, path) {
            return Some(i);
        }
        i += 1;
    }
    None
}

pub open spec fn is_video_class(c: Seq<char>) -> bool {
    c == "Video/Source"@ || c == "Source/Video"@
}

pub open spec fn is_audio_class(c: Seq<char>) -> bool {
    c == "Audio/Source"@ || c == "Source/Audio"@
}

/// The class under its canonical name.
pub open spec fn canonical_class(c: Seq<char>) -> Seq<char> {
    if is_video_class(c) {
        "Video/Source"@
    } else if is_audio_class(c) {
        "Audio/Source"@
    } else {
        c
    }
}

/// Maps both spellings of the video and audio source classes to one name.
pub fn get_device_class(class: &str) -> (r: String)
    ensures
        r@ == canonical_class(class@),
{
    if str_eq(class, "Video/Source") || str_eq(class, "Source/Video") {
        String::from_str("Video/Source")
    } else if str_eq(class, "Audio/Source") || str_eq(class, "Source/Audio") {
        String::from_str("Audio/Source")
    } else {
        String::from_str(class)
    }
}

/// The stable identifier of a device: its V4L2 path for video, its
/// device string for audio.
pub open spec fn record_path(d: DeviceRecord) -> Option<String> {
    if is_video_class(d.device_class@) {
        d.v4l2_path
    } else if is_audio_class(d.device_class@) {
        d.device_string
    } else {
        None
    }
}

pub fn get_device_path(d: &DeviceRecord) -> (r: Option<String>)
    ensures
        r == record_path(*d),
{
    let c = d.device_class.as_str();
    if str_eq(c, "Video/Source") || str_eq(c, "Source/Video") {
        d.v4l2_path.clone()
    } else if str_eq(c, "Audio/Source") || str_eq(c, "Source/Audio") {
        d.device_string.clone()
    } else {
        None
    }
}

/// Capture APIs whose devices are listed.
pub open spec fn is_supported_api(api: Seq<char>) -> bool {
    api == "v4l2"@ || api == "v4l2src"@ || api == "alsa"@ || api == "alsasrc"@
}

pub fn confirm_supported_api(api: &Option<String>) -> (r: bool)
    ensures
        r == match api {
            Some(a) => is_supported_api(a@),
            None => false,
        },
{
    match api {
        Some(a) => {
            let a = a.as_str();
            str_eq(a, "v4l2") || str_eq(a, "v4l2src") || str_eq(a, "alsa") || str_eq(a, "alsasrc")
        },
        None => false,
    }
}

/// A listed device: on a supported API, with a stable identifier.
pub open spec fn record_listed(d: DeviceRecord) -> bool {
    &&& match d.api {
        Some(a) => is_supported_api(a@),
        None => false,
    }
    &&& record_path(d) is Some
}

/// `info` describes the listed device `d`.
pub open spec fn info_of_record(info: MediaDeviceInfo, d: DeviceRecord) -> bool {
    &&& record_path(d) matches Some(p) && info.device_path == p
    &&& info.display_name == d.display_name
    &&& info.capabilities == d.capabilities
    &&& info.device_class@ == canonical_class(d.device_class@)
}

impl GstMediaDevice {
    /// Resolves the first device one of whose path-like properties contains
    /// `path`, keeping `path` as its identifier.
    pub fn from_device_path(devices: &Vec<DeviceRecord>, path: &str) -> (r: Result<GstMediaDevice, GStreamerError>)
        ensures
            r is Err <==> forall|j: int| 0 <= j < devices@.len() ==> !record_matches(#[trigger] devices@[j], path@),
            match r {
                Ok(d) => exists|i: int|
                    0 <= i < devices@.len() && record_matches(#[trigger] devices@[i], path@) && (forall|j: int|
                        0 <= j < i ==> !record_matches(#[trigger] devices@[j], path@)) && d.display_name
                        == devices@[i].display_name && d.device_class@ == canonical_class(
                        devices@[i].device_class@,
                    ) && d.device_path@ == path@,
                Err(e) => e.is_device_error(),
            },
    {
        match get_gst_device(devices, path) {
            Some(i) => {
                let d = &devices[i];
                Ok(
                    GstMediaDevice {
                        display_name: d.display_name.clone(),
                        device_class: get_device_class(d.device_class.as_str()),
                        device_path: String::from_str(path),
                    },
                )
            },
            None => Err(device_error("No device found")),
        }
    }
}

} // verus!

verus! {

/// Capture modes offered for a display refreshing at `freq` hertz: its own
/// rate, and 30 as well when it is faster.
pub open spec fn screen_rates(freq: i32) -> Seq<i32> {
    if freq > 30 { seq![freq, 30] } else { seq![freq] }
}

/// `v` cut to the `i32` range.
pub open spec fn clamp_i32(v: int) -> i32 {
    if v > i32::MAX { i32::MAX } else if v < i32::MIN { i32::MIN } else { v as i32 }
}

pub open spec fn screen_class_name() -> Seq<char> {
    "Screen/Source"@
}

/// `info` describes display `d`: one screen mode at the display's size,
/// capturing the rectangle it covers.
pub open spec fn info_of_display(info: MediaDeviceInfo, d: DisplayRecord) -> bool {
    &&& info.device_path@ == signed_decimal(d.id as int)
    &&& info.display_name@ == d.friendly_name@
    &&& info.device_class@ == screen_class_name()
    &&& display_capabilities(info.capabilities@, d)
}

/// One screen mode at the display's size, capturing the rectangle it covers.
pub open spec fn display_capabilities(caps: Seq<MediaCapability>, d: DisplayRecord) -> bool {
    &&& caps.len() == 1
    &&& caps[0] matches MediaCapability::Screen(s) && s.width == d.width && s.height == d.height
        && s.framerates@ == screen_rates(d.frequency) && s.codec@ == "video/x-raw"@ && s.startx
        == d.x && s.starty == d.y && s.endx == clamp_i32(d.x + d.width) && s.endy == clamp_i32(
        d.y + d.height,
    )
}

fn clamped_sum(a: i32, b: i32) -> (r: i32)
    ensures
        r == clamp_i32(a + b),
{
    let s: i64 = a as i64 + b as i64;
    if s > i32::MAX as i64 {
        i32::MAX
    } else if s < i32::MIN as i64 {
        i32::MIN
    } else {
        s as i32
    }
}

fn get_frame_rates(freq: i32) -> (r: Vec<i32>)
    ensures
        r@ == screen_rates(freq),
{
    let mut rates = vec![freq];
    if freq > 30 {
        rates.push(30);
    }
    assert(rates@ =~= screen_rates(freq));
    rates
}

impl MediaDeviceInfo {
    /// The screen-source description of a display.
    pub fn from_display(d: &DisplayRecord) -> (r: MediaDeviceInfo)
        ensures
            info_of_display(r, *d),
    {
        let cap = ScreenCapability {
            width: d.width,
            height: d.height,
            framerates: get_frame_rates(d.frequency),
            codec: String::from_str("video/x-raw"),
            startx: d.x,
            starty: d.y,
            endx: clamped_sum(d.x, d.width),
            endy: clamped_sum(d.y, d.height),
        };
        let caps = vec![MediaCapability::Screen(cap)];
        MediaDeviceInfo {
            device_path: int_text(d.id as i64),
            display_name: d.friendly_name.clone(),
            capabilities: caps,
            device_class: String::from_str("Screen/Source"),
        }
    }
}

/// `d` is named by `q`: its numeric id in decimal, or its name.
pub open spec fn display_matches(d: DisplayRecord, q: Seq<char>) -> bool {
    signed_decimal(d.id as int) == q || d.name@ == q
}

/// The first display whose id or name is `id_or_name`.
pub fn get_monitor(displays: &Vec<DisplayRecord>, id_or_name: &str) -> (r: Option<usize>)
    ensures
        match r {
            Some(i) => i < displays@.len() && display_matches(displays@[i as int], id_or_name@) && forall|j: int|
                0 <= j < i ==> !display_matches(#[trigger] displays@[j], id_or_name@),
            None => forall|j: int| 0 <= j < displays@.len() ==> !display_matches(#[trigger] displays@[j], id_or_name@),
        },
{
    let mut i: usize = 0;
    while i < displays.len()
        invariant
            i <= displays@.len(),
            forall|j: int| 0 <= j < i ==> !display_matches(#[trigger] displays@[j], id_or_name@),
        decreases displays.len() - i,
    {
        let d = &displays[i];
        let id = int_text(d.id as i64);
        if str_eq(id.as_str(), id_or_name) || str_eq(d.name.as_str(), id_or_name) {
            return Some(i);
        }
        i += 1;
    }
    None
}

impl GstMediaDevice {
    /// Resolves a screen by id or name; its identifier is the display id.
    pub fn from_screen_id_or_name(displays: &Vec<DisplayRecord>, screen_id_or_name: &str) -> (r: Result<
        GstMediaDevice,
        GStreamerError,
    >)
        ensures
            r is Err <==> forall|j: int|
                0 <= j < displays@.len() ==> !display_matches(#[trigger] displays@[j], screen_id_or_name@),
            match r {
                Ok(dev) => exists|i: int|
                    0 <= i < displays@.len() && display_matches(#[trigger] displays@[i], screen_id_or_name@)
                        && (forall|j: int| 0 <= j < i ==> !display_matches(#[trigger] displays@[j], screen_id_or_name@))
                        && dev.display_name@ == displays@[i].friendly_name@ && dev.device_path@
                        == signed_decimal(displays@[i].id as int) && dev.device_class@ == screen_class_name(),
                Err(e) => e.is_device_error(),
            },
    {
        match get_monitor(displays, screen_id_or_name) {
            Some(i) => {
                let d = &displays[i];
                Ok(
                    GstMediaDevice {
                        display_name: d.friendly_name.clone(),
                        device_class: String::from_str("Screen/Source"),
                        device_path: int_text(d.id as i64),
                    },
                )
            },
            None => Err(device_error("No screen found")),
        }
    }
}

/// The capabilities of the screen with this id or name, from the displays
/// enumerated just now; none when it is gone.
pub fn screen_capabilities(displays: &Vec<DisplayRecord>, screen_id_or_name: &str) -> (r: Vec<MediaCapability>)
    ensures
        match get_monitor_spec(displays@, screen_id_or_name@) {
            Some(i) => display_capabilities(r@, displays@[i]),
            None => r@.len() == 0,
        },
{
    match get_monitor(displays, screen_id_or_name) {
        Some(i) => {
            let info = MediaDeviceInfo::from_display(&displays[i]);
            proof {
                lemma_first_display_unique(displays@, screen_id_or_name@, i as int);
            }
            info.capabilities
        },
        None => {
            proof {
                lemma_no_display(displays@, screen_id_or_name@);
            }
            Vec::new()
        },
    }
}

/// Index of the first display named by `q`.
pub open spec fn get_monitor_spec(displays: Seq<DisplayRecord>, q: Seq<char>) -> Option<int> {
    if exists|i: int| 0 <= i < displays.len() && display_matches(#[trigger] displays[i], q) {
        Some(
            choose|i: int|
                0 <= i < displays.len() && display_matches(#[trigger] displays[i], q) && forall|j: int|
                    0 <= j < i ==> !display_matches(#[trigger] displays[j], q),
        )
    } else {
        None
    }
}

proof fn lemma_first_display_unique(displays: Seq<DisplayRecord>, q: Seq<char>, i: int)
    requires
        0 <= i < displays.len(),
        display_matches(displays[i], q),
        forall|j: int| 0 <= j < i ==> !display_matches(#[trigger] displays[j], q),
    ensures
        get_monitor_spec(displays, q) == Some(i),
{
    let k = choose|k: int|
        0 <= k < displays.len() && display_matches(#[trigger] displays[k], q) && forall|j: int|
            0 <= j < k ==> !display_matches(#[trigger] displays[j], q);
    assert(display_matches(displays[k], q));
    if k < i {
        assert(!display_matches(displays[k], q));
    }
    if i < k {
        assert(!display_matches(displays[i], q));
    }
}

proof fn lemma_no_display(displays: Seq<DisplayRecord>, q: Seq<char>)
    requires
        forall|j: int| 0 <= j < displays.len() ==> !display_matches(#[trigger] displays[j], q),
    ensures
        get_monitor_spec(displays, q) is None,
{
}

} // verus!

verus! {

pub open spec fn listed_records(devices: Seq<DeviceRecord>) -> Seq<DeviceRecord> {
    devices.filter(|d: DeviceRecord| record_listed(d))
}

/// Every display as a screen source, in order.
pub fn parse_monitors_linux(displays: &Vec<DisplayRecord>) -> (r: Vec<MediaDeviceInfo>)
    ensures
        r@.len() == displays@.len(),
        forall|j: int| 0 <= j < displays@.len() ==> info_of_display(#[trigger] r@[j], displays@[j]),
{
    let mut out: Vec<MediaDeviceInfo> = Vec::new();
    let mut k: usize = 0;
    while k < displays.len()
        invariant
            k <= displays@.len(),
            out@.len() == k,
            forall|j: int| 0 <= j < k ==> info_of_display(#[trigger] out@[j], displays@[j]),
        decreases displays.len() - k,
    {
        out.push(MediaDeviceInfo::from_display(&displays[k]));
        k += 1;
    }
    out
}

/// The description of one enumerated device, if it is listed.
pub fn device_info(d: DeviceRecord) -> (r: Option<MediaDeviceInfo>)
    ensures
        r is Some <==> record_listed(d),
        r matches Some(info) ==> info_of_record(info, d),
{
    if !confirm_supported_api(&d.api) {
        return None;
    }
    let path = match get_device_path(&d) {
        Some(p) => p,
        None => return None,
    };
    let class = get_device_class(d.device_class.as_str());
    Some(
        MediaDeviceInfo {
            device_path: path,
            display_name: d.display_name,
            capabilities: d.capabilities,
            device_class: class,
        },
    )
}

/// Every listed capture device, in enumeration order, then every display
/// as a screen source.
pub fn get_devices_info(devices: Vec<DeviceRecord>, displays: &Vec<DisplayRecord>) -> (r: Vec<MediaDeviceInfo>)
    ensures
        r@.len() == listed_records(devices@).len() + displays@.len(),
        forall|j: int|
            0 <= j < listed_records(devices@).len() ==> info_of_record(#[trigger] r@[j], listed_records(devices@)[j]),
        forall|j: int|
            0 <= j < displays@.len() ==> info_of_display(
                #[trigger] r@[listed_records(devices@).len() + j],
                displays@[j],
            ),
{
    let ghost orig = devices@;
    let mut rest = devices;
    let mut out: Vec<MediaDeviceInfo> = Vec::new();
    let ghost mut i: int = 0;
    while rest.len() > 0
        invariant
            0 <= i <= orig.len(),
            rest@ == orig.subrange(i, orig.len() as int),
            out@.len() == listed_records(orig.subrange(0, i)).len(),
            forall|j: int|
                0 <= j < out@.len() ==> info_of_record(#[trigger] out@[j], listed_records(orig.subrange(0, i))[j]),
        decreases rest@.len(),
    {
        let d = rest.remove(0);
        let ghost prev = orig.subrange(0, i);
        let ghost next = orig.subrange(0, i + 1);
        proof {
            assert(d == orig[i]);
            assert(next.drop_last() =~= prev);
            assert(next.last() == orig[i]);
            reveal(Seq::filter);
        }
        match device_info(d) {
            Some(info) => {
                out.push(info);
                assert(listed_records(next) == listed_records(prev).push(orig[i]));
            },
            None => {
                assert(listed_records(next) == listed_records(prev));
            },
        }
        proof {
            i = i + 1;
        }
        assert(rest@ =~= orig.subrange(i, orig.len() as int));
    }
    assert(orig.subrange(0, i) =~= orig);
    let screens = parse_monitors_linux(displays);
    let ghost n = out@.len();
    let ghost mut k: int = 0;
    let mut screens = screens;
    let ghost all_screens = screens@;
    while screens.len() > 0
        invariant
            n == listed_records(orig).len(),
            all_screens.len() == displays@.len(),
            forall|j: int| 0 <= j < displays@.len() ==> info_of_display(#[trigger] all_screens[j], displays@[j]),
            0 <= k <= displays@.len(),
            screens@ == all_screens.subrange(k, all_screens.len() as int),
            out@.len() == n + k,
            forall|j: int| 0 <= j < n ==> info_of_record(#[trigger] out@[j], listed_records(orig)[j]),
            forall|j: int| 0 <= j < k ==> info_of_display(#[trigger] out@[n + j], displays@[j]),
        decreases screens@.len(),
    {
        let info = screens.remove(0);
        out.push(info);
        proof {
            k = k + 1;
        }
        assert(screens@ =~= all_screens.subrange(k, all_screens.len() as int));
    }
    out
}

} // verus!

verus! {

/// A frame-rate fraction as the engine reports it.
#[derive(Debug, Clone, Copy, PartialEq, Eq, Structural)]
pub struct Fraction {
    pub numer: i32,
    pub denom: i32,
}

/// One caps structure of a device, read into plain values.
#[derive(Debug, Clone)]
pub struct CapsRecord {
    /// The structure's media type, such as `image/jpeg`.
    pub name: String,
    pub width: Option<i32>,
    pub height: Option<i32>,
    /// The listed frame rates; `None` for an entry that is not a fraction.
    pub framerates: Vec<Option<Fraction>>,
    pub channels: Option<i32>,
    /// The sample-rate range, when the structure gives one.
    pub rate: Option<RateBounds>,
}

/// An integer range as the engine reports it.
#[derive(Debug, Clone, Copy, PartialEq, Eq, Structural)]
pub struct RateBounds {
    pub min: i32,
    pub max: i32,
}

/// Whole frames per second of a listed rate; 0 for an entry that is not a
/// non-negative fraction with a positive denominator.
pub open spec fn whole_fps(f: Option<Fraction>) -> i32 {
    match f {
        Some(fr) => if fr.numer >= 0 && fr.denom > 0 { (fr.numer / fr.denom) as i32 } else { 0 },
        None => 0,
    }
}

/// `c` is the capability read from `rec` for a device of `class`: a video
/// mode for video sources (size 0 where the structure gives none, which
/// matches no request), an audio mode otherwise (one channel by default;
/// no rate range gives `audio/x-raw` at rate 0).
pub open spec fn capability_of_record(c: MediaCapability, rec: CapsRecord, class: Seq<char>) -> bool {
    if class == "Video/Source"@ {
        c matches MediaCapability::Video(v) && v.width == match rec.width {
            Some(w) => w,
            None => 0i32,
        } && v.height == match rec.height {
            Some(h) => h,
            None => 0i32,
        } && v.codec@ == rec.name@ && v.framerates@ == rec.framerates@.map_values(
            |f: Option<Fraction>| whole_fps(f),
        )
    } else {
        c matches MediaCapability::Audio(a) && a.channels == match rec.channels {
            Some(n) => n,
            None => 1i32,
        } && match rec.rate {
            Some(b) => a.framerates.min == b.min && a.framerates.max == b.max && a.codec@ == rec.name@,
            None => a.framerates.min == 0 && a.framerates.max == 0 && a.codec@ == "audio/x-raw"@,
        }
    }
}

fn fps_of(f: Option<Fraction>) -> (r: i32)
    ensures
        r == whole_fps(f),
{
    match f {
        Some(fr) => if fr.numer >= 0 && fr.denom > 0 {
            fr.numer / fr.denom
        } else {
            0
        },
        None => 0,
    }
}

fn capability_from(rec: &CapsRecord, is_video: bool) -> (c: MediaCapability)
    ensures
        is_video ==> capability_of_record(c, *rec, "Video/Source"@),
        !is_video ==> (forall|class: Seq<char>|
            class != "Video/Source"@ ==> capability_of_record(c, *rec, class)),
{
    if is_video {
        let mut rates: Vec<i32> = Vec::new();
        let mut i: usize = 0;
        while i < rec.framerates.len()
            invariant
                i <= rec.framerates@.len(),
                rates@ == rec.framerates@.subrange(0, i as int).map_values(|f: Option<Fraction>| whole_fps(f)),
            decreases rec.framerates.len() - i,
        {
            rates.push(fps_of(rec.framerates[i]));
            assert(rates@ =~= rec.framerates@.subrange(0, i + 1).map_values(|f: Option<Fraction>| whole_fps(f)));
            i += 1;
        }
        assert(rec.framerates@.subrange(0, i as int) =~= rec.framerates@);
        MediaCapability::Video(
            crate::capability::VideoCapability {
                width: match rec.width {
                    Some(w) => w,
                    None => 0,
                },
                height: match rec.height {
                    Some(h) => h,
                    None => 0,
                },
                framerates: rates,
                codec: rec.name.clone(),
            },
        )
    } else {
        let channels = match rec.channels {
            Some(n) => n,
            None => 1,
        };
        match rec.rate {
            Some(b) => MediaCapability::Audio(
                crate::capability::AudioCapability {
                    channels,
                    framerates: crate::capability::RateRange { min: b.min, max: b.max },
                    codec: rec.name.clone(),
                },
            ),
            None => MediaCapability::Audio(
                crate::capability::AudioCapability {
                    channels,
                    framerates: crate::capability::RateRange { min: 0, max: 0 },
                    codec: String::from_str("audio/x-raw"),
                },
            ),
        }
    }
}

/// The capabilities of a device of `device_class` from its caps
/// structures, one per structure, in order.
pub fn get_device_capabilities(device_class: &str, caps: &Vec<CapsRecord>) -> (r: Vec<MediaCapability>)
    ensures
        r@.len() == caps@.len(),
        forall|j: int| 0 <= j < caps@.len() ==> capability_of_record(#[trigger] r@[j], caps@[j], device_class@),
{
    let is_video = str_eq(device_class, "Video/Source");
    let mut out: Vec<MediaCapability> = Vec::new();
    let mut i: usize = 0;
    while i < caps.len()
        invariant
            i <= caps@.len(),
            is_video == (device_class@ == "Video/Source"@),
            out@.len() == i,
            forall|j: int| 0 <= j < i ==> capability_of_record(#[trigger] out@[j], caps@[j], device_class@),
        decreases caps.len() - i,
    {
        out.push(capability_from(&caps[i], is_video));
        i += 1;
    }
    out
}

} // verus!

verus! {

/// Index of the first device one of whose path-like properties contains `path`.
pub open spec fn first_device_spec(devices: Seq<DeviceRecord>, path: Seq<char>) -> Option<int> {
    if exists|i: int| 0 <= i < devices.len() && record_matches(#[trigger] devices[i], path) {
        Some(
            choose|i: int|
                0 <= i < devices.len() && record_matches(#[trigger] devices[i], path) && forall|j: int|
                    0 <= j < i ==> !record_matches(#[trigger] devices[j], path),
        )
    } else {
        None
    }
}

proof fn lemma_first_device_unique(devices: Seq<DeviceRecord>, path: Seq<char>, i: int)
    requires
        0 <= i < devices.len(),
        record_matches(devices[i], path),
        forall|j: int| 0 <= j < i ==> !record_matches(#[trigger] devices[j], path),
    ensures
        first_device_spec(devices, path) == Some(i),
{
    let k = choose|k: int|
        0 <= k < devices.len() && record_matches(#[trigger] devices[k], path) && forall|j: int|
            0 <= j < k ==> !record_matches(#[trigger] devices[j], path);
    assert(record_matches(devices[k], path));
    if k < i {
        assert(!record_matches(devices[k], path));
    }
    if i < k {
        assert(!record_matches(devices[i], path));
    }
}

impl GstMediaDevice {
    /// The device's capabilities as enumerated just now: a screen's from
    /// the displays, any other device's from the first record its
    /// identifier matches; none when the device is gone.
    pub fn capabilities(&self, devices: Vec<DeviceRecord>, displays: &Vec<DisplayRecord>) -> (r: Vec<MediaCapability>)
        ensures
            self.device_class@ == screen_class_name() ==> match get_monitor_spec(displays@, self.device_path@) {
                Some(i) => display_capabilities(r@, displays@[i]),
                None => r@.len() == 0,
            },
            self.device_class@ != screen_class_name() ==> match first_device_spec(devices@, self.device_path@) {
                Some(i) => r == devices@[i].capabilities,
                None => r@.len() == 0,
            },
    {
        if str_eq(self.device_class.as_str(), "Screen/Source") {
            return screen_capabilities(displays, self.device_path.as_str());
        }
        match get_gst_device(&devices, self.device_path.as_str()) {
            Some(i) => {
                proof {
                    lemma_first_device_unique(devices@, self.device_path@, i as int);
                }
                let mut devices = devices;
                let rec = devices.remove(i);
                rec.capabilities
            },
            None => {
                assert(first_device_spec(devices@, self.device_path@) is None);
                Vec::new()
            },
        }
    }
}

} // verus!
