//! Commands of the command-line tool.
use vstd::prelude::*;

use crate::capability::MediaDeviceInfo;
use crate::text::str_eq;

verus! {

/// Options of the device-listing command.
#[derive(Debug, Clone)]
pub struct ListDevices {
    pub audio: bool,
    pub video: bool,
    pub device_id: String,
    pub input_only: bool,
}

impl ListDevices {
    /// Whether the listing shows `info`: audio sources when audio is
    /// asked for, every other source when video is, and only the device
    /// named by `device_id` unless that is "all".
    pub fn shows(&self, info: &MediaDeviceInfo) -> (r: bool)
        ensures
            r == ((if info.device_class@ == "Audio/Source"@ { self.audio } else { self.video }) && (
            self.device_id@ == "all"@ || info.device_path@ == self.device_id@)),
    {
        let audio = str_eq(info.device_class.as_str(), "Audio/Source");
        let kind_shown = if audio {
            self.audio
        } else {
            self.video
        };
        kind_shown && (str_eq(self.device_id.as_str(), "all") || str_eq(
            info.device_path.as_str(),
            self.device_id.as_str(),
        ))
    }
}

/// Commands of the command-line tool.
#[derive(Debug, Clone)]
pub enum Commands {
    ListDevices(ListDevices),
}

} // verus!
