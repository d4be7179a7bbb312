//! The stream runtime's state: at most one live handle per stream, and the
//! plan of what a start builds.
use vstd::prelude::*;
use vstd::string::*;

use crate::capability::{GstMediaDevice, MediaCapability};
use crate::error::GStreamerError;
use crate::recording::RecordingMetadata;
use crate::text::{replace_char, replace_char_in};
use crate::topology::{
    audio_request_ok, audio_topology_elements, audio_topology_links, channel_selection_ok,
    deinterleaved_topology_elements, deinterleaved_topology_links, screen_elements, screen_rect,
    screen_request_ok, screen_topology_links, video_file_elements, video_request_ok,
    video_topology_elements, video_topology_links, if_recording, PadLink, Topology,
};
use crate::utils::{int_text, signed_decimal};

verus! {

#[derive(Debug, Clone)]
pub struct LocalFileSaveOptions {
    pub output_dir: String,
}

#[derive(Debug, Clone)]
pub struct LocalSaveFileMetadata {
    pub file_name: String,
    pub codec: String,
    pub started_at: String,
}

#[derive(Debug, Clone)]
pub struct VideoPublishOptions {
    pub codec: String,
    pub device_id: String,
    pub width: i32,
    pub height: i32,
    pub framerate: i32,
    pub local_file_save_options: Option<LocalFileSaveOptions>,
}

#[derive(Debug, Clone)]
pub struct AudioPublishOptions {
    pub codec: String,
    pub device_id: String,
    pub framerate: i32,
    pub channels: i32,
    pub selected_channel: Option<i32>,
    pub local_file_save_options: Option<LocalFileSaveOptions>,
}

#[derive(Debug, Clone)]
pub struct ScreenPublishOptions {
    pub codec: String,
    pub width: i32,
    pub height: i32,
    pub framerate: i32,
    pub screen_id_or_name: String,
    pub local_file_save_options: Option<LocalFileSaveOptions>,
}

/// What a stream captures; fixed for the stream's lifetime.
#[derive(Debug, Clone)]
pub enum PublishOptions {
    Video(VideoPublishOptions),
    Audio(AudioPublishOptions),
    Screen(ScreenPublishOptions),
}

impl PublishOptions {
    /// Where recordings go, if the stream records.
    pub open spec fn save_options(&self) -> Option<LocalFileSaveOptions> {
        match self {
            PublishOptions::Video(v) => v.local_file_save_options,
            PublishOptions::Audio(a) => a.local_file_save_options,
            PublishOptions::Screen(s) => s.local_file_save_options,
        }
    }

    pub fn local_file_save_options(&self) -> (r: Option<&LocalFileSaveOptions>)
        ensures
            r == match self.save_options() {
                Some(o) => Some(&o),
                None => None::<&LocalFileSaveOptions>,
            },
    {
        match self {
            PublishOptions::Video(v) => v.local_file_save_options.as_ref(),
            PublishOptions::Audio(a) => a.local_file_save_options.as_ref(),
            PublishOptions::Screen(s) => s.local_file_save_options.as_ref(),
        }
    }
}

/// The live resources of a running stream: what the runtime `R` holds
/// (channels, task, engine handle) and the device it captures from.
#[derive(Debug)]
pub struct StreamHandle<R> {
    pub runtime: R,
    pub device: GstMediaDevice,
}

/// A stream and its at most one live handle.
#[derive(Debug)]
pub struct GstMediaStream<R> {
    handle: Option<StreamHandle<R>>,
    publish_options: PublishOptions,
}

impl<R> GstMediaStream<R> {
    pub closed spec fn live(&self) -> Option<StreamHandle<R>> {
        self.handle
    }

    pub closed spec fn options(&self) -> PublishOptions {
        self.publish_options
    }

    pub open spec fn started(&self) -> bool {
        self.live() is Some
    }

    pub fn new(publish_options: PublishOptions) -> (r: Self)
        ensures
            r.live().is_none(),
            r.options() == publish_options,
    {
        GstMediaStream { handle: None, publish_options }
    }

    pub fn has_started(&self) -> (r: bool)
        ensures
            r == self.started(),
    {
        self.handle.is_some()
    }

    pub fn publish_options(&self) -> (r: &PublishOptions)
        ensures
            *r == self.options(),
    {
        &self.publish_options
    }

    /// "Video", "Audio" or "Screen", after the options' kind.
    pub fn kind(&self) -> (r: &'static str)
        ensures
            r@ == match self.options() {
                PublishOptions::Video(_) => "Video"@,
                PublishOptions::Audio(_) => "Audio"@,
                PublishOptions::Screen(_) => "Screen"@,
            },
    {
        match &self.publish_options {
            PublishOptions::Video(_) => "Video",
            PublishOptions::Audio(_) => "Audio",
            PublishOptions::Screen(_) => "Screen",
        }
    }

    /// Takes the live handle out, leaving the stream stopped. The caller
    /// ends the pipeline it holds (end of stream, then waits for its task).
    /// On a stream that never started this returns `None` and changes nothing.
    pub fn stop(&mut self) -> (r: Option<StreamHandle<R>>)
        ensures
            stop_post(*old(self), *final(self), r),
    {
        self.handle.take()
    }

    /// Installs the handle of a freshly started pipeline. Starting stops
    /// first, so nothing is displaced then; any handle that was still live
    /// is handed back to be ended.
    pub fn install(&mut self, handle: StreamHandle<R>) -> (r: Option<StreamHandle<R>>)
        ensures
            install_post(*old(self), *final(self), handle, r),
    {
        let prior = self.handle.take();
        self.handle = Some(handle);
        prior
    }

    /// The live runtime, to subscribe to; `None` when not started.
    pub fn runtime(&self) -> (r: Option<&R>)
        ensures
            r == match self.live() {
                Some(h) => Some(&h.runtime),
                None => None::<&R>,
            },
    {
        match &self.handle {
            Some(h) => Some(&h.runtime),
            None => None,
        }
    }

    /// The options, while the stream runs.
    pub fn details(&self) -> (r: Option<&PublishOptions>)
        ensures
            r == if self.started() { Some(&self.options()) } else { None::<&PublishOptions> },
    {
        match &self.handle {
            Some(_) => Some(&self.publish_options),
            None => None,
        }
    }

    /// The captured device's display name, while the stream runs.
    pub fn get_device_name(&self) -> (r: Option<String>)
        ensures
            r == match self.live() {
                Some(h) => Some(h.device.display_name),
                None => None::<String>,
            },
    {
        match &self.handle {
            Some(h) => Some(h.device.display_name.clone()),
            None => None,
        }
    }
}

} // verus!

verus! {

/// What `stop` guarantees: the live handle is handed out, none remains.
pub open spec fn stop_post<R>(before: GstMediaStream<R>, after: GstMediaStream<R>, r: Option<StreamHandle<R>>) -> bool {
    &&& r == before.live()
    &&& after.live().is_none()
    &&& after.options() == before.options()
}

/// What `install` guarantees: the new handle is live, any prior one handed out.
pub open spec fn install_post<R>(
    before: GstMediaStream<R>,
    after: GstMediaStream<R>,
    handle: StreamHandle<R>,
    r: Option<StreamHandle<R>>,
) -> bool {
    &&& r == before.live()
    &&& after.live() == Some(handle)
    &&& after.options() == before.options()
}

/// Stopping a stream that never started is a no-op: nothing is handed out
/// to tear down and the stream is left as it was.
pub proof fn lemma_stop_unstarted_is_noop<R>(
    before: GstMediaStream<R>,
    after: GstMediaStream<R>,
    r: Option<StreamHandle<R>>,
)
    requires
        !before.started(),
        stop_post(before, after, r),
    ensures
        r is None,
        after.live() == before.live(),
        after.options() == before.options(),
{
}

/// Starting twice (each start stops first, then installs its handle) leaves
/// exactly the second handle live, and the second start's stop hands out
/// the first handle, so the first pipeline is ended before the second runs.
pub proof fn lemma_restart_keeps_one_handle<R>(
    s0: GstMediaStream<R>,
    s1: GstMediaStream<R>,
    s2: GstMediaStream<R>,
    s3: GstMediaStream<R>,
    s4: GstMediaStream<R>,
    h1: StreamHandle<R>,
    h2: StreamHandle<R>,
    stopped1: Option<StreamHandle<R>>,
    displaced1: Option<StreamHandle<R>>,
    stopped2: Option<StreamHandle<R>>,
    displaced2: Option<StreamHandle<R>>,
)
    requires
        stop_post(s0, s1, stopped1),
        install_post(s1, s2, h1, displaced1),
        stop_post(s2, s3, stopped2),
        install_post(s3, s4, h2, displaced2),
    ensures
        displaced1 is None,
        displaced2 is None,
        stopped2 == Some(h1),
        s4.live() == Some(h2),
        s4.options() == s0.options(),
{
}

} // verus!

verus! {

/// Where and when a recording is made: an absolute directory and the
/// formatted local start time.
#[derive(Debug, Clone)]
pub struct RecordingTarget {
    pub directory: String,
    pub timestamp: String,
}

/// What a start builds: the topology and, when recording, its metadata.
#[derive(Debug)]
pub struct StartPlan {
    pub topology: Topology,
    pub metadata: Option<RecordingMetadata>,
}

pub open spec fn underscored(s: Seq<char>) -> Seq<char> {
    replace_char(s, ' ', '_')
}

pub open spec fn path_safe(s: Seq<char>) -> Seq<char> {
    replace_char(underscored(s), '/', '_')
}

/// `<dir>/<name>`, with no doubled separator.
pub open spec fn joined(dir: Seq<char>, name: Seq<char>) -> Seq<char> {
    if dir.len() == 0 {
        name
    } else if dir.last() == '/' {
        dir + name
    } else {
        dir + "/"@ + name
    }
}

pub open spec fn video_recording_name(display: Seq<char>, device_id: Seq<char>, ts: Seq<char>) -> Seq<char> {
    "video-"@ + underscored(display) + "-"@ + path_safe(device_id) + "-"@ + ts + ".mp4"@
}

pub open spec fn screen_recording_name(display: Seq<char>, screen: Seq<char>, ts: Seq<char>) -> Seq<char> {
    "screen-"@ + underscored(display) + "-"@ + path_safe(screen) + "-"@ + ts + ".mp4"@
}

pub open spec fn audio_label(display: Seq<char>, channel: Option<i32>) -> Seq<char> {
    match channel {
        Some(c) => underscored(display) + "-channel-"@ + signed_decimal(c as int),
        None => underscored(display),
    }
}

pub open spec fn audio_recording_name(display: Seq<char>, channel: Option<i32>, device_id: Seq<char>, ts: Seq<char>) -> Seq<char> {
    "audio-"@ + audio_label(display, channel) + "-"@ + underscored(device_id) + "-"@ + path_safe(device_id)
        + "-"@ + ts + ".m4a"@
}

/// The recording's file name for these options.
pub open spec fn recording_name(o: PublishOptions, display: Seq<char>, ts: Seq<char>) -> Seq<char> {
    match o {
        PublishOptions::Video(v) => video_recording_name(display, v.device_id@, ts),
        PublishOptions::Audio(a) => audio_recording_name(display, a.selected_channel, a.device_id@, ts),
        PublishOptions::Screen(s) => screen_recording_name(display, s.screen_id_or_name@, ts),
    }
}

/// The metadata of a recording of these options named `name` in `dir`.
pub open spec fn recording_metadata_ok(m: RecordingMetadata, o: PublishOptions, name: Seq<char>, dir: Seq<char>) -> bool {
    &&& m.filename@ == name
    &&& m.parent_dir@ == dir
    &&& m.start_time is None
    &&& m.end_time is None
    &&& match o {
        PublishOptions::Video(v) => m.source@ == "camera"@ && m.media_type@ == "video"@ && m.codec@
            == v.codec@ && m.audio_channel is None,
        PublishOptions::Audio(a) => m.source@ == "microphone"@ && m.media_type@ == "audio"@
            && m.codec@ == a.codec@ && m.audio_channel == a.selected_channel,
        PublishOptions::Screen(s) => m.source@ == "screen"@ && m.media_type@ == "video"@ && m.codec@
            == s.codec@ && m.audio_channel is None,
    }
}

fn join_path(dir: &str, name: &str) -> (r: String)
    ensures
        r@ == joined(dir@, name@),
{
    let n = dir.unicode_len();
    if n == 0 {
        return String::from_str(name);
    }
    if dir.get_char(n - 1) == '/' {
        String::from_str(dir).concat(name)
    } else {
        String::from_str(dir).concat("/").concat(name)
    }
}

fn underscore(s: &str) -> (r: String)
    ensures
        r@ == underscored(s@),
{
    proof {
        reveal_strlit("_");
    }
    replace_char_in(s, ' ', "_")
}

fn make_path_safe(s: &str) -> (r: String)
    ensures
        r@ == path_safe(s@),
{
    proof {
        reveal_strlit("_");
    }
    let u = underscore(s);
    replace_char_in(u.as_str(), '/', "_")
}

fn recording_file_name(o: &PublishOptions, display: &str, ts: &str) -> (r: String)
    ensures
        r@ == recording_name(*o, display@, ts@),
{
    match o {
        PublishOptions::Video(v) => String::from_str("video-").concat(underscore(display).as_str()).concat(
            "-",
        ).concat(make_path_safe(v.device_id.as_str()).as_str()).concat("-").concat(ts).concat(".mp4"),
        PublishOptions::Screen(s) => String::from_str("screen-").concat(underscore(display).as_str()).concat(
            "-",
        ).concat(make_path_safe(s.screen_id_or_name.as_str()).as_str()).concat("-").concat(ts).concat(
            ".mp4",
        ),
        PublishOptions::Audio(a) => {
            let label = match a.selected_channel {
                Some(c) => underscore(display).concat("-channel-").concat(int_text(c as i64).as_str()),
                None => underscore(display),
            };
            String::from_str("audio-").concat(label.as_str()).concat("-").concat(
                underscore(a.device_id.as_str()).as_str(),
            ).concat("-").concat(make_path_safe(a.device_id.as_str()).as_str()).concat("-").concat(
                ts,
            ).concat(".m4a")
        },
    }
}

fn recording_metadata(o: &PublishOptions, name: String, dir: String) -> (m: RecordingMetadata)
    ensures
        recording_metadata_ok(m, *o, name@, dir@),
{
    match o {
        PublishOptions::Video(v) => RecordingMetadata::new(
            name,
            dir,
            String::from_str("camera"),
            String::from_str("video"),
            v.codec.clone(),
            None,
        ),
        PublishOptions::Audio(a) => RecordingMetadata::new(
            name,
            dir,
            String::from_str("microphone"),
            String::from_str("audio"),
            a.codec.clone(),
            a.selected_channel,
        ),
        PublishOptions::Screen(s) => RecordingMetadata::new(
            name,
            dir,
            String::from_str("screen"),
            String::from_str("video"),
            s.codec.clone(),
            None,
        ),
    }
}

} // verus!

verus! {

/// The device and its freshly fetched capabilities accept these options.
pub open spec fn start_request_ok(o: PublishOptions, class: Seq<char>, caps: Seq<MediaCapability>, record: bool) -> bool {
    match o {
        PublishOptions::Video(v) => video_request_ok(class, caps, v.codec@, v.width, v.height, v.framerate, record),
        PublishOptions::Audio(a) => audio_request_ok(class, caps, a.codec@, a.channels, a.framerate)
            && match a.selected_channel {
            Some(c) => channel_selection_ok(a.channels, c),
            None => true,
        },
        PublishOptions::Screen(s) => screen_request_ok(class, caps, s.codec@, s.width, s.height, s.framerate),
    }
}

/// `t` has the shape that these options call for.
pub open spec fn start_topology_ok(t: Topology, o: PublishOptions, caps: Seq<MediaCapability>, record: bool) -> bool {
    match o {
        PublishOptions::Video(v) => {
            &&& t.elements() == video_topology_elements(v.codec@, v.width, v.height, v.framerate, record)
            &&& t.links@ == video_topology_links(v.codec@, record)
            &&& t.pad_link is None
        },
        PublishOptions::Audio(a) => match a.selected_channel {
            Some(c) => {
                &&& t.elements() == deinterleaved_topology_elements(a.channels, a.framerate, record)
                &&& t.links@ == deinterleaved_topology_links(record)
                &&& t.pad_link == Some(PadLink { from: 3, pad_index: (c - 1) as u32, to: 4 })
            },
            None => {
                &&& t.elements() == audio_topology_elements(a.channels, a.framerate, record)
                &&& t.links@ == audio_topology_links(record)
                &&& t.pad_link is None
            },
        },
        PublishOptions::Screen(s) => {
            &&& t.elements() == screen_elements(screen_rect(caps)->Some_0, s.width, s.height, s.framerate)
                + if_recording(record, video_file_elements())
            &&& t.links@ == screen_topology_links(record)
            &&& t.pad_link is None
        },
    }
}

impl<R> GstMediaStream<R> {
    /// Plans what a start builds on `device`, whose capabilities `caps`
    /// were fetched just before; with a `target`, the stream also records
    /// there. A rejected request builds nothing.
    pub fn plan_start(
        &self,
        device: &GstMediaDevice,
        caps: &Vec<MediaCapability>,
        target: Option<RecordingTarget>,
    ) -> (r: Result<StartPlan, GStreamerError>)
        ensures
            r is Ok <==> start_request_ok(self.options(), device.device_class@, caps@, target is Some),
            match r {
                Ok(p) => {
                    &&& p.topology.wf()
                    &&& start_topology_ok(p.topology, self.options(), caps@, target is Some)
                    &&& match target {
                        Some(tg) => {
                            let name = recording_name(self.options(), device.display_name@, tg.timestamp@);
                            &&& p.topology.record_path matches Some(path) && path@ == joined(
                                tg.directory@,
                                name,
                            )
                            &&& p.metadata matches Some(m) && recording_metadata_ok(
                                m,
                                self.options(),
                                name,
                                tg.directory@,
                            )
                        },
                        None => p.topology.record_path is None && p.metadata is None,
                    }
                },
                Err(e) => e.is_pipeline_error(),
            },
    {
        let (path, metadata) = match &target {
            Some(tg) => {
                let name = recording_file_name(
                    &self.publish_options,
                    device.display_name.as_str(),
                    tg.timestamp.as_str(),
                );
                let path = join_path(tg.directory.as_str(), name.as_str());
                let m = recording_metadata(&self.publish_options, name, tg.directory.clone());
                (Some(path), Some(m))
            },
            None => (None, None),
        };
        let topology = match &self.publish_options {
            PublishOptions::Video(v) => device.video_pipeline(
                caps,
                v.codec.as_str(),
                v.width,
                v.height,
                v.framerate,
                path,
            ),
            PublishOptions::Audio(a) => match a.selected_channel {
                Some(c) => device.deinterleaved_audio_pipeline(
                    caps,
                    a.codec.as_str(),
                    a.channels,
                    c,
                    a.framerate,
                    path,
                ),
                None => device.audio_pipeline(caps, a.codec.as_str(), a.channels, a.framerate, path),
            },
            PublishOptions::Screen(s) => device.screen_share_pipeline(
                caps,
                s.codec.as_str(),
                s.width,
                s.height,
                s.framerate,
                path,
            ),
        };
        match topology {
            Ok(t) => Ok(StartPlan { topology: t, metadata }),
            Err(e) => Err(e),
        }
    }
}

} // verus!
