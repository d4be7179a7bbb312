use rust_livekit_streamer::capability::{
    AudioCapability, GstMediaDevice, MediaCapability, MediaDeviceInfo, RateRange, ScreenCapability,
    VideoCapability,
};
use rust_livekit_streamer::cli::ListDevices;
use rust_livekit_streamer::devices::{
    get_device_capabilities, get_devices_info, get_gst_device, get_monitor, parse_monitors_linux,
    CapsRecord, DeviceRecord, DisplayRecord, Fraction, RateBounds,
};
use rust_livekit_streamer::error::GStreamerError;

fn camera_record(path: &str) -> DeviceRecord {
    DeviceRecord {
        display_name: "HD Webcam".to_string(),
        device_class: "Video/Source".to_string(),
        api: Some("v4l2".to_string()),
        v4l2_path: Some(path.to_string()),
        device_string: None,
        device_path: None,
        capabilities: vec![],
    }
}

fn device(class: &str) -> GstMediaDevice {
    GstMediaDevice {
        display_name: "dev".to_string(),
        device_class: class.to_string(),
        device_path: "/dev/video0".to_string(),
    }
}

fn jpeg_caps() -> Vec<MediaCapability> {
    vec![MediaCapability::Video(VideoCapability {
        width: 1920,
        height: 1080,
        framerates: vec![30, 15],
        codec: "image/jpeg".to_string(),
    })]
}

#[test]
fn media_device_test_from_path() {
    let path = "/dev/video4";
    let devices = vec![camera_record("/dev/video2"), camera_record("/dev/video4")];
    let device = GstMediaDevice::from_device_path(&devices, path);
    assert!(device.is_ok());
    let device = device.unwrap();
    assert_eq!(device.device_path, path);
}

#[test]
fn video_device_test_from_path() {
    let path = "/dev/video4";
    let devices = vec![camera_record("/dev/video4")];
    let device = GstMediaDevice::from_device_path(&devices, path);
    println!("Device: {:?}", device);
    assert!(device.is_ok());
    let device = device.unwrap();
    assert_eq!(device.device_path, path);
    assert_eq!(device.display_name, "HD Webcam");
}

#[test]
fn from_device_path_unknown_is_device_error() {
    let devices = vec![camera_record("/dev/video2")];
    let r = GstMediaDevice::from_device_path(&devices, "/dev/video9");
    assert!(matches!(r, Err(GStreamerError::DeviceError(_))));
}

#[test]
fn from_device_path_matches_substring_of_device_string() {
    let mut rec = camera_record("/dev/video0");
    rec.v4l2_path = None;
    rec.device_class = "Source/Audio".to_string();
    rec.device_string = Some("front:CARD=hw:2,DEV=0".to_string());
    let r = GstMediaDevice::from_device_path(&vec![rec], "hw:2").unwrap();
    assert_eq!(r.device_class, "Audio/Source");
    assert_eq!(r.device_path, "hw:2");
}

#[test]
fn supports_video_exact_match() {
    let d = device("Video/Source");
    let caps = jpeg_caps();
    assert!(d.supports_video(&caps, "image/jpeg", 1920, 1080, 30));
    assert!(!d.supports_video(&caps, "video/x-h264", 1920, 1080, 30));
    assert!(!d.supports_video(&caps, "image/jpeg", 1280, 1080, 30));
    assert!(!d.supports_video(&caps, "image/jpeg", 1920, 720, 30));
    assert!(!d.supports_video(&caps, "image/jpeg", 1920, 1080, 60));
}

#[test]
fn supports_video_on_audio_device_is_false() {
    let d = device("Audio/Source");
    assert!(!d.supports_video(&jpeg_caps(), "image/jpeg", 1920, 1080, 30));
}

#[test]
fn supports_audio_on_video_device_is_false() {
    let d = device("Video/Source");
    let caps = vec![MediaCapability::Audio(AudioCapability {
        channels: 1,
        framerates: RateRange { min: 8000, max: 96000 },
        codec: "audio/x-raw".to_string(),
    })];
    assert!(!d.supports_audio(&caps, "audio/x-raw", 1, 48000));
    let mic = device("Audio/Source");
    assert!(mic.supports_audio(&caps, "audio/x-raw", 1, 48000));
    assert!(mic.supports_audio(&caps, "audio/x-raw", 1, 8000));
    assert!(mic.supports_audio(&caps, "audio/x-raw", 1, 96000));
    assert!(!mic.supports_audio(&caps, "audio/x-raw", 1, 96001));
    assert!(!mic.supports_audio(&caps, "audio/x-raw", 2, 48000));
}

#[test]
fn supports_screen_share_allows_smaller_sizes() {
    let d = device("Screen/Source");
    let caps = vec![MediaCapability::Screen(ScreenCapability {
        width: 2560,
        height: 1440,
        framerates: vec![60, 30],
        codec: "video/x-raw".to_string(),
        startx: 0,
        starty: 0,
        endx: 2560,
        endy: 1440,
    })];
    assert!(d.supports_screen_share(&caps, "video/x-raw", 1920, 1080, 30));
    assert!(!d.supports_screen_share(&caps, "video/x-raw", 3840, 1080, 30));
    assert!(!device("Video/Source").supports_screen_share(&caps, "video/x-raw", 1920, 1080, 30));
}

#[test]
fn devices_info_lists_supported_devices_then_displays() {
    let mut unsupported = camera_record("/dev/video1");
    unsupported.api = Some("pipewire".to_string());
    let mut mic = camera_record("x");
    mic.device_class = "Audio/Source".to_string();
    mic.api = Some("alsa".to_string());
    mic.v4l2_path = None;
    mic.device_string = Some("hw:2".to_string());
    let devices = vec![camera_record("/dev/video0"), unsupported, mic];
    let displays = vec![DisplayRecord {
        id: 7,
        name: "DP-1".to_string(),
        friendly_name: "Main".to_string(),
        x: 100,
        y: 0,
        width: 1920,
        height: 1080,
        frequency: 60,
    }];
    let infos = get_devices_info(devices, &displays);
    assert_eq!(infos.len(), 3);
    assert_eq!(infos[0].device_path, "/dev/video0");
    assert_eq!(infos[1].device_path, "hw:2");
    assert_eq!(infos[1].device_class, "Audio/Source");
    assert_eq!(infos[2].device_path, "7");
    assert_eq!(infos[2].device_class, "Screen/Source");
    match &infos[2].capabilities[0] {
        MediaCapability::Screen(s) => {
            assert_eq!(s.framerates, vec![60, 30]);
            assert_eq!((s.startx, s.endx, s.endy), (100, 2020, 1080));
        }
        _ => panic!("expected a screen capability"),
    }
}

#[test]
fn monitor_found_by_id_or_name() {
    let displays = vec![
        DisplayRecord {
            id: 3,
            name: "HDMI-1".to_string(),
            friendly_name: "Side".to_string(),
            x: 0,
            y: 0,
            width: 1280,
            height: 720,
            frequency: 30,
        },
        DisplayRecord {
            id: 12,
            name: "DP-1".to_string(),
            friendly_name: "Main".to_string(),
            x: 1280,
            y: 0,
            width: 1920,
            height: 1080,
            frequency: 60,
        },
    ];
    assert_eq!(get_monitor(&displays, "12"), Some(1));
    assert_eq!(get_monitor(&displays, "HDMI-1"), Some(0));
    assert_eq!(get_monitor(&displays, "1"), None);
    let d = GstMediaDevice::from_screen_id_or_name(&displays, "DP-1").unwrap();
    assert_eq!(d.device_path, "12");
    assert_eq!(d.display_name, "Main");
    assert!(matches!(
        GstMediaDevice::from_screen_id_or_name(&displays, "VGA"),
        Err(GStreamerError::DeviceError(_))
    ));
}

#[test]
fn capabilities_from_caps_records() {
    let video = vec![CapsRecord {
        name: "image/jpeg".to_string(),
        width: Some(640),
        height: Some(480),
        framerates: vec![Some(Fraction { numer: 30, denom: 1 }), Some(Fraction { numer: 15, denom: 2 }), None],
        channels: None,
        rate: None,
    }];
    let caps = get_device_capabilities("Video/Source", &video);
    match &caps[0] {
        MediaCapability::Video(v) => {
            assert_eq!((v.width, v.height), (640, 480));
            assert_eq!(v.framerates, vec![30, 7, 0]);
            assert_eq!(v.codec, "image/jpeg");
        }
        _ => panic!("expected a video capability"),
    }
    let audio = vec![
        CapsRecord {
            name: "audio/x-raw".to_string(),
            width: None,
            height: None,
            framerates: vec![],
            channels: Some(8),
            rate: Some(RateBounds { min: 44100, max: 192000 }),
        },
        CapsRecord {
            name: "audio/x-alaw".to_string(),
            width: None,
            height: None,
            framerates: vec![],
            channels: None,
            rate: None,
        },
    ];
    let caps = get_device_capabilities("Audio/Source", &audio);
    match (&caps[0], &caps[1]) {
        (MediaCapability::Audio(a), MediaCapability::Audio(b)) => {
            assert_eq!((a.channels, a.framerates.min, a.framerates.max), (8, 44100, 192000));
            assert_eq!((b.channels, b.framerates.min, b.framerates.max), (1, 0, 0));
            assert_eq!(b.codec, "audio/x-raw");
        }
        _ => panic!("expected audio capabilities"),
    }
}

fn display(id: u32, name: &str, x: i32, freq: i32) -> DisplayRecord {
    DisplayRecord {
        id,
        name: name.to_string(),
        friendly_name: format!("{} monitor", name),
        x,
        y: 0,
        width: 1920,
        height: 1080,
        frequency: freq,
    }
}

#[test]
fn gst_device_lookup_by_substring() {
    let devices = vec![camera_record("/dev/video0"), camera_record("/dev/video4")];
    assert_eq!(get_gst_device(&devices, "video4"), Some(1));
    assert_eq!(get_gst_device(&devices, "/dev/video"), Some(0));
    assert_eq!(get_gst_device(&devices, "video7"), None);
}

#[test]
fn monitors_become_screen_sources() {
    let infos = parse_monitors_linux(&vec![display(1, "DP-1", 0, 30), display(2, "DP-2", 1920, 144)]);
    assert_eq!(infos.len(), 2);
    assert_eq!(infos[1].display_name, "DP-2 monitor");
    match (&infos[0].capabilities[0], &infos[1].capabilities[0]) {
        (MediaCapability::Screen(a), MediaCapability::Screen(b)) => {
            assert_eq!(a.framerates, vec![30]);
            assert_eq!(b.framerates, vec![144, 30]);
            assert_eq!((b.startx, b.endx), (1920, 3840));
        }
        _ => panic!("expected screen capabilities"),
    }
}

#[test]
fn device_capabilities_from_fresh_enumeration() {
    let mut rec = camera_record("/dev/video4");
    rec.capabilities = jpeg_caps();
    let cam = GstMediaDevice {
        display_name: "HD Webcam".to_string(),
        device_class: "Video/Source".to_string(),
        device_path: "/dev/video4".to_string(),
    };
    let caps = cam.capabilities(vec![camera_record("/dev/video0"), rec], &vec![]);
    assert_eq!(caps.len(), 1);
    assert!(cam.capabilities(vec![camera_record("/dev/video0")], &vec![]).is_empty());
    let screen = GstMediaDevice {
        display_name: "DP-1 monitor".to_string(),
        device_class: "Screen/Source".to_string(),
        device_path: "2".to_string(),
    };
    let caps = screen.capabilities(vec![], &vec![display(1, "DP-1", 0, 60), display(2, "DP-2", 1920, 60)]);
    match &caps[0] {
        MediaCapability::Screen(s) => assert_eq!(s.startx, 1920),
        _ => panic!("expected a screen capability"),
    }
}

#[test]
fn list_devices_filter() {
    let mic = MediaDeviceInfo {
        device_path: "hw:2".to_string(),
        display_name: "Mic".to_string(),
        capabilities: vec![],
        device_class: "Audio/Source".to_string(),
    };
    let cam = MediaDeviceInfo {
        device_path: "/dev/video0".to_string(),
        display_name: "Cam".to_string(),
        capabilities: vec![],
        device_class: "Video/Source".to_string(),
    };
    let all = ListDevices { audio: true, video: true, device_id: "all".to_string(), input_only: true };
    assert!(all.shows(&mic) && all.shows(&cam));
    let audio_only = ListDevices { audio: true, video: false, device_id: "all".to_string(), input_only: true };
    assert!(audio_only.shows(&mic) && !audio_only.shows(&cam));
    let one = ListDevices { audio: true, video: true, device_id: "hw:2".to_string(), input_only: true };
    assert!(one.shows(&mic) && !one.shows(&cam));
}
