//! Application settings and their defaults.
use vstd::prelude::*;
use crate::paths::get_output_directory;

verus! {

/// Where and how recordings are written.
#[derive(Debug, Clone)]
pub struct OutputSettings {
    pub directory: String,
    pub resolution: String,
    pub frame_rate: u32,
    pub format: String,
}

/// The global keys bound to lifecycle requests.
#[derive(Debug, Clone)]
pub struct HotkeySettings {
    pub start_stop: String,
    pub pause_resume: String,
    pub cancel: String,
    pub toggle_camera: String,
}

/// Behaviour around a capture.
#[derive(Debug, Clone)]
pub struct RecordingSettings {
    pub show_countdown: bool,
    pub countdown_duration: u32,
    pub cursor_smoothing: bool,
    pub highlight_clicks: bool,
    pub play_start_sound: bool,
    pub play_end_sound: bool,
}

/// The camera overlay.
#[derive(Debug, Clone)]
pub struct CameraSettings {
    pub device_id: Option<String>,
    pub position: String,
    pub size: u32,
    pub shape: String,
}

/// Everything else.
#[derive(Debug, Clone)]
pub struct GeneralSettings {
    pub language: String,
    pub launch_at_startup: bool,
    pub minimize_to_tray: bool,
    pub show_preview_after_recording: bool,
}

/// All application settings.
#[derive(Debug, Clone)]
pub struct Settings {
    pub output: OutputSettings,
    pub hotkeys: HotkeySettings,
    pub recording: RecordingSettings,
    pub camera: CameraSettings,
    pub general: GeneralSettings,
    pub is_first_launch: bool,
}

impl Settings {
    /// Every field but the output directory holds its default value.
    pub open spec fn has_default_values(&self) -> bool {
        &&& self.output.resolution@ == "1080p"@
        &&& self.output.frame_rate == 60
        &&& self.output.format@ == "mp4"@
        &&& self.hotkeys.start_stop@ == "F1"@
        &&& self.hotkeys.pause_resume@ == "F2"@
        &&& self.hotkeys.cancel@ == "F3"@
        &&& self.hotkeys.toggle_camera@ == "F4"@
        &&& !self.recording.show_countdown
        &&& self.recording.countdown_duration == 3
        &&& self.recording.cursor_smoothing
        &&& !self.recording.highlight_clicks
        &&& self.recording.play_start_sound
        &&& self.recording.play_end_sound
        &&& self.camera.device_id is None
        &&& self.camera.position@ == "bottom-right"@
        &&& self.camera.size == 150
        &&& self.camera.shape@ == "circle"@
        &&& self.general.language@ == "zh-CN"@
        &&& !self.general.launch_at_startup
        &&& self.general.minimize_to_tray
        &&& self.general.show_preview_after_recording
        &&& self.is_first_launch
    }

    /// The default settings, writing recordings to `directory`.
    pub fn with_directory(directory: String) -> (r: Settings)
        ensures
            r.has_default_values(),
            r.output.directory@ == directory@,
    {
        Settings {
            output: OutputSettings {
                directory,
                resolution: String::from_str("1080p"),
                frame_rate: 60,
                format: String::from_str("mp4"),
            },
            hotkeys: HotkeySettings {
                start_stop: String::from_str("F1"),
                pause_resume: String::from_str("F2"),
                cancel: String::from_str("F3"),
                toggle_camera: String::from_str("F4"),
            },
            recording: RecordingSettings {
                show_countdown: false,
                countdown_duration: 3,
                cursor_smoothing: true,
                highlight_clicks: false,
                play_start_sound: true,
                play_end_sound: true,
            },
            camera: CameraSettings {
                device_id: None,
                position: String::from_str("bottom-right"),
                size: 150,
                shape: String::from_str("circle"),
            },
            general: GeneralSettings {
                language: String::from_str("zh-CN"),
                launch_at_startup: false,
                minimize_to_tray: true,
                show_preview_after_recording: true,
            },
            is_first_launch: true,
        }
    }
}

impl Default for Settings {
    /// The default settings, writing to the default output folder.
    fn default() -> (r: Settings)
        ensures
            r.has_default_values(),
    {
        Settings::with_directory(get_output_directory())
    }
}

} // verus!
