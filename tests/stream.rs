use rust_livekit_streamer::capability::{AudioCapability, GstMediaDevice, MediaCapability, RateRange};
use rust_livekit_streamer::publish::{
    split_i420, samples_from_le_bytes, samples_per_channel, LKParticipant, PublishStep,
    SourceSpec, TrackSource, VideoPreset, VideoResolution,
};
use rust_livekit_streamer::recording::{
    BusAction, BusEvent, FileSinkTiming, PipelineRun, PipelineState, RecordingMetadata,
};
use rust_livekit_streamer::register::{
    default_device_name, DeviceResponse, ErrorKind, ProjectInfo, RegistrationResponse,
    SyncFlowPublisherError,
};
use rust_livekit_streamer::stream::{
    AudioPublishOptions, GstMediaStream, LocalFileSaveOptions, PublishOptions, RecordingTarget,
    StreamHandle, VideoPublishOptions,
};
use rust_livekit_streamer::utils::{nanos_to_timestamp, random_string, system_time_nanos};

fn mic_options(selected: Option<i32>, save: bool) -> PublishOptions {
    PublishOptions::Audio(AudioPublishOptions {
        codec: "audio/x-raw".to_string(),
        device_id: "hw:2".to_string(),
        framerate: 48000,
        channels: 1,
        selected_channel: selected,
        local_file_save_options: if save {
            Some(LocalFileSaveOptions { output_dir: "rec".to_string() })
        } else {
            None
        },
    })
}

fn mic_device() -> GstMediaDevice {
    GstMediaDevice {
        display_name: "USB Audio".to_string(),
        device_class: "Audio/Source".to_string(),
        device_path: "hw:2".to_string(),
    }
}

fn mic_caps() -> Vec<MediaCapability> {
    vec![MediaCapability::Audio(AudioCapability {
        channels: 1,
        framerates: RateRange { min: 8000, max: 96000 },
        codec: "audio/x-raw".to_string(),
    })]
}

fn handle(tag: u32) -> StreamHandle<u32> {
    StreamHandle { runtime: tag, device: mic_device() }
}

#[test]
fn stop_when_never_started_is_noop() {
    let mut s: GstMediaStream<u32> = GstMediaStream::new(mic_options(None, false));
    assert!(s.stop().is_none());
    assert!(!s.has_started());
    assert!(s.stop().is_none());
    assert!(s.runtime().is_none());
}

#[test]
fn start_twice_keeps_one_handle() {
    let mut s: GstMediaStream<u32> = GstMediaStream::new(mic_options(None, false));
    assert!(s.stop().is_none());
    assert!(s.install(handle(1)).is_none());
    let first = s.stop().expect("first handle is handed out for teardown");
    assert_eq!(first.runtime, 1);
    assert!(s.install(handle(2)).is_none());
    assert_eq!(s.runtime(), Some(&2));
    assert!(s.has_started());
}

#[test]
fn audio_stream_start_subscribe_stop() {
    let mut s: GstMediaStream<u32> = GstMediaStream::new(mic_options(None, false));
    let plan = s.plan_start(&mic_device(), &mic_caps(), None).unwrap();
    assert!(plan.metadata.is_none());
    assert!(plan.topology.record_path.is_none());
    assert_eq!(plan.topology.nodes.len(), 6);
    s.stop();
    s.install(handle(7));
    assert_eq!(s.runtime(), Some(&7));
    assert_eq!(s.get_device_name().as_deref(), Some("USB Audio"));
    assert!(s.details().is_some());
    assert!(s.stop().is_some());
    assert!(s.runtime().is_none());
    assert!(s.details().is_none());
}

#[test]
fn start_plan_rejects_unsupported_rate() {
    let s: GstMediaStream<u32> = GstMediaStream::new(PublishOptions::Audio(AudioPublishOptions {
        codec: "audio/x-raw".to_string(),
        device_id: "hw:2".to_string(),
        framerate: 192000,
        channels: 1,
        selected_channel: None,
        local_file_save_options: None,
    }));
    assert!(s.plan_start(&mic_device(), &mic_caps(), None).is_err());
}

#[test]
fn recording_plan_names_files() {
    let s: GstMediaStream<u32> = GstMediaStream::new(mic_options(Some(1), true));
    let target = RecordingTarget {
        directory: "/data/rec".to_string(),
        timestamp: "2024-05-01-10-00-00".to_string(),
    };
    let plan = s.plan_start(&mic_device(), &mic_caps(), Some(target)).unwrap();
    let name = "audio-USB_Audio-channel-1-hw:2-hw:2-2024-05-01-10-00-00.m4a";
    assert_eq!(plan.topology.record_path.as_deref(), Some(format!("/data/rec/{}", name).as_str()));
    let m = plan.metadata.unwrap();
    assert_eq!(m.filename, name);
    assert_eq!(m.parent_dir, "/data/rec");
    assert_eq!(m.source, "microphone");
    assert_eq!(m.media_type, "audio");
    assert_eq!(m.audio_channel, Some(1));
    assert_eq!(m.success_file_name(), format!("{}.json", name));
    assert_eq!(m.error_file_name(), format!("{}.error.json", name));
}

#[test]
fn video_recording_name_replaces_spaces_and_slashes() {
    let s: GstMediaStream<u32> = GstMediaStream::new(PublishOptions::Video(VideoPublishOptions {
        codec: "image/jpeg".to_string(),
        device_id: "/dev/video 0".to_string(),
        width: 640,
        height: 480,
        framerate: 30,
        local_file_save_options: Some(LocalFileSaveOptions { output_dir: "out".to_string() }),
    }));
    let cam = GstMediaDevice {
        display_name: "HD Cam 2".to_string(),
        device_class: "Video/Source".to_string(),
        device_path: "/dev/video 0".to_string(),
    };
    let caps = vec![MediaCapability::Video(rust_livekit_streamer::capability::VideoCapability {
        width: 640,
        height: 480,
        framerates: vec![30],
        codec: "image/jpeg".to_string(),
    })];
    let target = RecordingTarget { directory: "/out/".to_string(), timestamp: "T".to_string() };
    let plan = s.plan_start(&cam, &caps, Some(target)).unwrap();
    assert_eq!(plan.topology.record_path.as_deref(), Some("/out/video-HD_Cam_2-_dev_video_0-T.mp4"));
    assert_eq!(plan.metadata.unwrap().source, "camera");
    assert_eq!(s.kind(), "Video");
}

#[test]
fn publish_on_unstarted_stream_starts_it_first() {
    let mut s: GstMediaStream<u32> = GstMediaStream::new(mic_options(None, false));
    assert!(matches!(LKParticipant::<u32>::plan_track(&s, None), PublishStep::StartFirst));
    s.stop();
    s.install(handle(1));
    assert!(s.has_started());
    match LKParticipant::<u32>::plan_track(&s, None) {
        PublishStep::Ready(p) => {
            assert_eq!(p.name, "USB Audio");
            assert_eq!(p.source, TrackSource::Microphone);
            assert_eq!(p.spec, SourceSpec::Audio { sample_rate: 48000, num_channels: 1, queue_size_ms: 2000 });
            assert!(p.sid.starts_with("audio-track-"));
            assert_eq!(p.sid.len(), "audio-track-".len() + 16);
        }
        PublishStep::StartFirst => panic!("stream is started"),
    }
    match LKParticipant::<u32>::plan_track(&s, Some("mic".to_string())) {
        PublishStep::Ready(p) => assert_eq!(p.name, "mic"),
        PublishStep::StartFirst => panic!("stream is started"),
    }
}

#[test]
fn unpublish_unknown_track_is_noop() {
    let mut p: LKParticipant<&str> = LKParticipant::new();
    assert!(p.insert_track("video-track-a".to_string(), "task-a").is_none());
    assert!(p.unpublish_track("video-track-zzz").is_none());
    assert!(p.is_published("video-track-a"));
    assert_eq!(p.unpublish_track("video-track-a"), Some("task-a"));
    assert!(!p.is_published("video-track-a"));
    assert!(p.unpublish_track("video-track-a").is_none());
}

#[test]
fn insert_track_replaces_same_identifier() {
    let mut p: LKParticipant<u8> = LKParticipant::new();
    assert_eq!(p.insert_track("t1".to_string(), 1), None);
    assert_eq!(p.insert_track("t2".to_string(), 2), None);
    assert_eq!(p.insert_track("t1".to_string(), 3), Some(1));
    assert_eq!(p.unpublish_track("t1"), Some(3));
    assert_eq!(p.unpublish_track("t2"), Some(2));
}

#[test]
fn i420_planes_split() {
    let data: Vec<u8> = (0..24).map(|b| b as u8).collect();
    let planes = split_i420(&data, 4, 4).unwrap();
    assert_eq!(planes.y, (0..16).collect::<Vec<u8>>());
    assert_eq!(planes.u, vec![16, 17, 18, 19]);
    assert_eq!(planes.v, vec![20, 21, 22, 23]);
    assert!(split_i420(&data[..23], 4, 4).is_none());
}

#[test]
fn audio_samples_little_endian() {
    let data = vec![0x01, 0x00, 0xff, 0xff, 0x00, 0x80, 0xff, 0x7f, 0x05];
    assert_eq!(samples_from_le_bytes(&data), vec![1, -1, -32768, 32767]);
    assert_eq!(samples_per_channel(960, 2), 480);
    assert_eq!(samples_per_channel(480, 1), 480);
}

#[test]
fn bus_eos_finalises_recording_times() {
    let m = RecordingMetadata::new(
        "a.m4a".to_string(),
        "/d".to_string(),
        "microphone".to_string(),
        "audio".to_string(),
        "audio/x-raw".to_string(),
        None,
    );
    let mut run = PipelineRun::new(Some(m));
    assert!(matches!(run.on_event(&BusEvent::StateChanged(PipelineState::Playing), 100), BusAction::Continue));
    assert_eq!(run.metadata.as_ref().unwrap().start_time(), Some(100));
    run.timing.on_buffer(150);
    run.timing.on_buffer(180);
    assert_eq!(run.timing, FileSinkTiming { start_time: Some(150), end_time: Some(180) });
    assert!(matches!(run.on_event(&BusEvent::Eos, 200), BusAction::FinishRecorded));
    let m = run.metadata.unwrap();
    assert_eq!((m.start_time(), m.end_time()), (Some(150), Some(180)));
}

#[test]
fn bus_eos_without_file_buffers_uses_now() {
    let m = RecordingMetadata::new(
        "a".to_string(),
        "/d".to_string(),
        "camera".to_string(),
        "video".to_string(),
        "image/jpeg".to_string(),
        None,
    );
    let mut run = PipelineRun::new(Some(m));
    assert!(matches!(run.on_event(&BusEvent::Eos, 42), BusAction::FinishRecorded));
    assert_eq!(run.metadata.unwrap().end_time(), Some(42));
}

#[test]
fn bus_error_and_null_state() {
    let m = RecordingMetadata::new(
        "a".to_string(),
        "/d".to_string(),
        "camera".to_string(),
        "video".to_string(),
        "image/jpeg".to_string(),
        None,
    );
    let mut run = PipelineRun::new(Some(m));
    match run.on_event(&BusEvent::Error("device lost".to_string()), 5) {
        BusAction::FinishWithError(msg) => assert_eq!(msg, "Pipeline error: device lost"),
        _ => panic!("expected an error record"),
    }
    let mut plain = PipelineRun::new(None);
    assert!(matches!(plain.on_event(&BusEvent::Error("x".to_string()), 5), BusAction::Finish));
    assert!(matches!(plain.on_event(&BusEvent::StateChanged(PipelineState::Paused), 5), BusAction::Continue));
    assert!(matches!(plain.on_event(&BusEvent::StateChanged(PipelineState::Null), 5), BusAction::Finish));
    assert!(matches!(plain.on_event(&BusEvent::Eos, 5), BusAction::Finish));
}

#[test]
fn random_names_and_clock() {
    let a = random_string("queue");
    let b = random_string("queue");
    assert!(a.starts_with("queue-"));
    assert_eq!(a.len(), 22);
    assert!(a[6..].chars().all(|c| c.is_ascii_alphanumeric()));
    assert_ne!(a, b);
    assert!(system_time_nanos() > 1_600_000_000_000_000_000);
    assert_eq!(nanos_to_timestamp(None), 0);
    assert_eq!(nanos_to_timestamp(Some(5)), 5);
}

#[test]
fn registration_and_device_names() {
    let dev = DeviceResponse {
        id: "d1".to_string(),
        name: "lab-pc".to_string(),
        group: "lab".to_string(),
        comments: None,
    };
    let proj = ProjectInfo {
        id: "p1".to_string(),
        name: "Study".to_string(),
        livekit_server_url: "wss://lk".to_string(),
        bucket_name: "b".to_string(),
        endpoint: "https://s3".to_string(),
    };
    let r = RegistrationResponse::compose(&dev, &proj);
    assert_eq!(r.project_comments, "");
    assert_eq!(r.lk_server_url, "wss://lk");
    assert_eq!(r.device_id, "d1");
    assert_eq!(default_device_name("host", Some("10.0.0.2")), "host (10.0.0.2)");
    assert_eq!(default_device_name("host", None), "host");
    match SyncFlowPublisherError::NotIntialized("cfg".to_string()).kind() {
        ErrorKind::Io(m) => assert_eq!(m, "Failed to read file: cfg"),
        _ => panic!("expected an I/O kind"),
    }
    match SyncFlowPublisherError::IoError("denied".to_string()).kind() {
        ErrorKind::Io(m) => assert_eq!(m, "IoError: denied"),
        _ => panic!("expected an I/O kind"),
    }
    assert!(matches!(SyncFlowPublisherError::JsonError("m".to_string()).kind(), ErrorKind::JSON(_)));
    assert!(matches!(
        SyncFlowPublisherError::ProjectClientError("m".to_string()).kind(),
        ErrorKind::ProjectClient(_)
    ));
}

#[test]
fn video_preset_resolutions() {
    assert_eq!(VideoPreset::H1080p.resolution(), VideoResolution { width: 1920, height: 1080 });
    assert_eq!(VideoPreset::H480p.resolution(), VideoResolution { width: 854, height: 480 });
    assert_eq!(VideoPreset::H240p.resolution(), VideoResolution { width: 426, height: 240 });
}
