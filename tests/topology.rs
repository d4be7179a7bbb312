use rust_livekit_streamer::capability::{
    AudioCapability, GstMediaDevice, MediaCapability, RateRange, ScreenCapability, VideoCapability,
};
use rust_livekit_streamer::error::GStreamerError;
use rust_livekit_streamer::topology::{Element, Link, PadLink, PadLinker, SampleFormat};

fn device(class: &str) -> GstMediaDevice {
    GstMediaDevice {
        display_name: "dev".to_string(),
        device_class: class.to_string(),
        device_path: "/dev/video0".to_string(),
    }
}

fn video_caps(codec: &str) -> Vec<MediaCapability> {
    vec![MediaCapability::Video(VideoCapability {
        width: 1920,
        height: 1080,
        framerates: vec![30],
        codec: codec.to_string(),
    })]
}

fn audio_caps(channels: i32) -> Vec<MediaCapability> {
    vec![MediaCapability::Audio(AudioCapability {
        channels,
        framerates: RateRange { min: 8000, max: 192000 },
        codec: "audio/x-raw".to_string(),
    })]
}

fn elements(t: &rust_livekit_streamer::topology::Topology) -> Vec<Element> {
    t.nodes.iter().map(|n| n.element).collect()
}

fn out_links(t: &rust_livekit_streamer::topology::Topology, from: usize) -> Vec<usize> {
    t.links.iter().filter(|l| l.from == from).map(|l| l.to).collect()
}

/// Nodes reachable from `start` along static links.
fn reachable(t: &rust_livekit_streamer::topology::Topology, start: usize) -> Vec<usize> {
    let mut seen = vec![start];
    let mut i = 0;
    while i < seen.len() {
        for to in out_links(t, seen[i]) {
            if !seen.contains(&to) {
                seen.push(to);
            }
        }
        i += 1;
    }
    seen
}

#[test]
fn jpeg_recording_topology_has_two_independent_tee_branches() {
    let d = device("Video/Source");
    let t = d
        .video_pipeline(&video_caps("image/jpeg"), "image/jpeg", 1920, 1080, 30, Some("/tmp/out.mp4".to_string()))
        .unwrap();
    assert_eq!(t.nodes.len(), 15);
    assert_eq!(t.record_path.as_deref(), Some("/tmp/out.mp4"));
    let tees: Vec<usize> = (0..t.nodes.len()).filter(|&i| t.nodes[i].element == Element::Tee).collect();
    assert_eq!(tees, vec![5]);
    let mut branches = out_links(&t, 5);
    branches.sort();
    assert_eq!(branches, vec![6, 8]);
    let sub = reachable(&t, 6);
    let rec = reachable(&t, 8);
    assert!(sub.iter().all(|n| !rec.contains(n)));
    assert!(matches!(t.nodes[*sub.last().unwrap()].element, Element::FrameSink { .. }));
    assert!(matches!(t.nodes[*rec.last().unwrap()].element, Element::FileSink { sync: false }));
    assert!(elements(&t).contains(&Element::H264Encoder { bitrate: 3000, zero_latency: true }));
}

#[test]
fn jpeg_without_recording_is_one_branch() {
    let t = device("Video/Source")
        .video_pipeline(&video_caps("image/jpeg"), "image/jpeg", 1920, 1080, 30, None)
        .unwrap();
    assert_eq!(t.nodes.len(), 8);
    assert_eq!(out_links(&t, 5), vec![6]);
    assert_eq!(t.links.len(), 7);
}

#[test]
fn h264_topology_is_linear_and_refuses_recording() {
    let d = device("Video/Source");
    let caps = video_caps("video/x-h264");
    let t = d.video_pipeline(&caps, "video/x-h264", 1920, 1080, 30, None).unwrap();
    assert_eq!(
        elements(&t)[2..4].to_vec(),
        vec![Element::H264Parser, Element::H264Decoder]
    );
    assert_eq!(t.links, (0..4).map(|i| Link { from: i, to: i + 1 }).collect::<Vec<_>>());
    let r = d.video_pipeline(&caps, "video/x-h264", 1920, 1080, 30, Some("a.mp4".to_string()));
    assert!(matches!(r, Err(GStreamerError::PipelineError(_))));
}

#[test]
fn raw_video_topology_refuses_recording() {
    let d = device("Video/Source");
    let caps = video_caps("video/x-raw");
    let t = d.video_pipeline(&caps, "video/x-raw", 1920, 1080, 30, None).unwrap();
    assert_eq!(t.nodes.len(), 3);
    assert!(d.video_pipeline(&caps, "video/x-raw", 1920, 1080, 30, Some("a.mp4".to_string())).is_err());
}

#[test]
fn video_request_rejections() {
    let caps = video_caps("image/jpeg");
    let audio_dev = device("Audio/Source");
    assert!(matches!(
        audio_dev.video_pipeline(&caps, "image/jpeg", 1920, 1080, 30, None),
        Err(GStreamerError::PipelineError(_))
    ));
    let d = device("Video/Source");
    assert!(d.video_pipeline(&video_caps("video/x-vp8"), "video/x-vp8", 1920, 1080, 30, None).is_err());
    assert!(d.video_pipeline(&caps, "image/jpeg", 1920, 1080, 25, None).is_err());
}

#[test]
fn audio_topology_with_recording() {
    let d = device("Audio/Source");
    let t = d
        .audio_pipeline(&audio_caps(2), "audio/x-raw", 2, 48000, Some("rec.m4a".to_string()))
        .unwrap();
    assert_eq!(t.nodes.len(), 13);
    let mut b = out_links(&t, 3);
    b.sort();
    assert_eq!(b, vec![4, 6]);
    assert!(elements(&t).contains(&Element::AacEncoder { bitrate: 128000 }));
    match elements(&t)[2] {
        Element::CapsFilter { caps } => {
            assert_eq!(caps.format, Some(SampleFormat::S16LE));
            assert_eq!((caps.channels, caps.rate, caps.channel_mask), (Some(2), Some(48000), None));
        }
        _ => panic!("expected a caps filter"),
    }
    assert!(device("Video/Source").audio_pipeline(&audio_caps(2), "audio/x-raw", 2, 48000, None).is_err());
    assert!(d.audio_pipeline(&audio_caps(2), "audio/x-raw", 1, 48000, None).is_err());
}

#[test]
fn deinterleaved_topology_selects_channel_pad() {
    let d = device("Audio/Source");
    let t = d
        .deinterleaved_audio_pipeline(&audio_caps(8), "audio/x-raw", 8, 3, 48000, None)
        .unwrap();
    assert_eq!(t.pad_link, Some(PadLink { from: 3, pad_index: 2, to: 4 }));
    assert_eq!(t.nodes[3].element, Element::Deinterleave);
    match t.nodes[2].element {
        Element::CapsFilter { caps } => assert_eq!(caps.channel_mask, Some(0xff)),
        _ => panic!("expected a caps filter"),
    }
    assert!(!t.links.iter().any(|l| l.from == 3));
    assert!(d.deinterleaved_audio_pipeline(&audio_caps(8), "audio/x-raw", 8, 9, 48000, None).is_err());
    assert!(d.deinterleaved_audio_pipeline(&audio_caps(8), "audio/x-raw", 8, 0, 48000, None).is_err());
}

#[test]
fn pad_linker_links_selected_pad_once() {
    let d = device("Audio/Source");
    let t = d
        .deinterleaved_audio_pipeline(&audio_caps(8), "audio/x-raw", 8, 3, 48000, None)
        .unwrap();
    let mut linker: PadLinker = t.pad_linker().unwrap();
    assert!(!linker.on_pad_added("src_0"));
    assert!(!linker.on_pad_added("src_1"));
    assert!(linker.on_pad_added("src_2"));
    assert!(!linker.on_pad_added("src_2"));
    assert!(!linker.on_pad_added("src_3"));
    assert!(linker.linked);
}

#[test]
fn pad_linker_multi_digit_index() {
    let mut linker = PadLinker::new(12);
    assert!(!linker.on_pad_added("src_1"));
    assert!(!linker.on_pad_added("src_12_"));
    assert!(linker.on_pad_added("src_12"));
}

#[test]
fn screen_topology_uses_capture_rectangle() {
    let d = device("Screen/Source");
    let caps = vec![MediaCapability::Screen(ScreenCapability {
        width: 1920,
        height: 1080,
        framerates: vec![60, 30],
        codec: "video/x-raw".to_string(),
        startx: 1920,
        starty: 0,
        endx: 3840,
        endy: 1080,
    })];
    let t = d
        .screen_share_pipeline(&caps, "video/x-raw", 1280, 720, 30, Some("s.mp4".to_string()))
        .unwrap();
    assert_eq!(
        t.nodes[0].element,
        Element::ScreenSource { startx: 1920, starty: 0, endx: 3839, endy: 1079 }
    );
    assert_eq!(t.nodes.len(), 14);
    let mut b = out_links(&t, 4);
    b.sort();
    assert_eq!(b, vec![5, 7]);
    assert!(device("Video/Source")
        .screen_share_pipeline(&caps, "video/x-raw", 1280, 720, 30, None)
        .is_err());
}

#[test]
fn element_names_are_prefixed_and_distinct() {
    let t = device("Video/Source")
        .video_pipeline(&video_caps("image/jpeg"), "image/jpeg", 1920, 1080, 30, Some("x.mp4".to_string()))
        .unwrap();
    assert!(t.nodes[0].name.starts_with("source-"));
    assert!(t.nodes[5].name.starts_with("tee-"));
    assert_eq!(t.nodes[5].name.len(), "tee-".len() + 16);
    for i in 0..t.nodes.len() {
        for j in (i + 1)..t.nodes.len() {
            assert_ne!(t.nodes[i].name, t.nodes[j].name);
        }
    }
}
