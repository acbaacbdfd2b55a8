//! The session record: lifecycle status, capture mode, region, sources and
//! the output path of the recording in progress.
use vstd::prelude::*;

verus! {

/// Where a session stands in its lifecycle.
#[derive(Debug, Clone, Copy, PartialEq, Eq, Structural)]
pub enum RecordingStatus {
    Idle,
    Selecting,
    Countdown,
    Recording,
    Paused,
    Encoding,
    Preview,
}

impl RecordingStatus {
    /// A capture is under way (running or paused).
    pub open spec fn is_active(self) -> bool {
        self == RecordingStatus::Recording || self == RecordingStatus::Paused
    }
}

impl Default for RecordingStatus {
    fn default() -> (r: Self)
        ensures
            r == RecordingStatus::Idle,
    {
        RecordingStatus::Idle
    }
}

/// What part of the screen is captured.
#[derive(Debug, Clone, Copy, PartialEq, Eq, Structural)]
pub enum RecordingMode {
    Fullscreen,
    Window,
    Region,
}

impl Default for RecordingMode {
    fn default() -> (r: Self)
        ensures
            r == RecordingMode::Fullscreen,
    {
        RecordingMode::Fullscreen
    }
}

/// A rectangle of the screen, by its top-left corner and its size.
#[derive(Debug, Clone, Copy, PartialEq, Eq, Structural)]
pub struct Region {
    pub x: i32,
    pub y: i32,
    pub width: u32,
    pub height: u32,
}

impl Region {
    /// A region covers some area.
    pub open spec fn has_area(self) -> bool {
        self.width > 0 && self.height > 0
    }
}

/// The inputs captured beside the screen.
#[derive(Debug, Clone, Copy, PartialEq, Eq, Structural)]
pub struct RecordingSources {
    pub microphone: bool,
    pub system_audio: bool,
    pub camera: bool,
}

impl RecordingSources {
    /// No source enabled: video only.
    pub open spec fn none_spec() -> RecordingSources {
        RecordingSources { microphone: false, system_audio: false, camera: false }
    }

    /// Any audio input is enabled.
    pub open spec fn has_audio(self) -> bool {
        self.microphone || self.system_audio
    }
}

impl Default for RecordingSources {
    fn default() -> (r: Self)
        ensures
            r == RecordingSources::none_spec(),
    {
        RecordingSources { microphone: false, system_audio: false, camera: false }
    }
}

/// The view of an optional text.
pub open spec fn opt_view(o: Option<String>) -> Option<Seq<char>> {
    match o {
        Some(s) => Some(s@),
        None => None,
    }
}

/// The mutable session record. `start_time` is a reading, in milliseconds,
/// of a monotonic clock that the caller keeps.
#[derive(Debug, Clone)]
pub struct RecordingState {
    pub status: RecordingStatus,
    pub mode: RecordingMode,
    pub duration: u64,
    pub region: Option<Region>,
    pub window_id: Option<String>,
    pub sources: RecordingSources,
    pub output_path: Option<String>,
    pub start_time: Option<u64>,
}

impl RecordingState {
    /// The output path and the start time are present exactly while a
    /// capture is under way.
    pub open spec fn wf(&self) -> bool {
        &&& (self.output_path is Some) == self.status.is_active()
        &&& (self.start_time is Some) == self.status.is_active()
    }

    /// The record of a session with nothing under way.
    pub open spec fn is_default(&self) -> bool {
        &&& self.status == RecordingStatus::Idle
        &&& self.mode == RecordingMode::Fullscreen
        &&& self.duration == 0
        &&& self.region is None
        &&& self.window_id is None
        &&& self.sources == RecordingSources::none_spec()
        &&& self.output_path is None
        &&& self.start_time is None
    }

    pub fn new() -> (r: Self)
        ensures
            r.is_default(),
            r.wf(),
    {
        RecordingState {
            status: RecordingStatus::Idle,
            mode: RecordingMode::Fullscreen,
            duration: 0,
            region: None,
            window_id: None,
            sources: RecordingSources { microphone: false, system_audio: false, camera: false },
            output_path: None,
            start_time: None,
        }
    }

    /// Clears the whole record back to its default.
    pub fn reset(&mut self)
        ensures
            final(self).is_default(),
            final(self).wf(),
    {
        *self = RecordingState::new();
    }
}

impl Default for RecordingState {
    fn default() -> (r: Self)
        ensures
            r.is_default(),
    {
        RecordingState::new()
    }
}

/// The snapshot of the session handed to the user interface.
#[derive(Debug, Clone)]
pub struct RecordingStateResponse {
    pub status: RecordingStatus,
    pub mode: RecordingMode,
    pub duration: u64,
    pub region: Option<Region>,
    pub window_id: Option<String>,
    pub sources: RecordingSources,
    pub output_path: Option<String>,
}

} // verus!
