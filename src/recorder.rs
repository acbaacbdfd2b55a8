//! The capture-process manager. It owns at most one live capture process,
//! decides every lifecycle step, and is the sole authority on the output
//! path. Spawning, signalling and killing the process are left to the
//! caller, which acts on what the manager hands back: a start plan to spawn,
//! a process to finalise, or a process to kill and a file to delete.
use vstd::prelude::*;
use crate::args::{build_args, capture_args, views};
use crate::clock::{file_name, recording_file_name, LocalStamp};
use crate::paths::{ends_with, join_path};
use crate::state::{RecordingMode, RecordingSources, Region};

verus! {

/// How long a stopping process is given to finalise its container, in
/// milliseconds, before it is killed.
pub const GRACE_MS: u64 = 500;

/// How long to wait after killing a cancelled process before its output
/// file is deleted, in milliseconds.
pub const SETTLE_MS: u64 = 100;

/// Why a lifecycle step failed.
#[derive(Debug, Clone, Copy, PartialEq, Eq, Structural)]
pub enum RecorderError {
    AlreadyRecording,
    ContextUnavailable,
    SpawnFailed,
    SignalFailed,
    FilesystemFailed,
}

impl RecorderError {
    /// A short description for the user.
    pub fn message(&self) -> &'static str {
        match self {
            RecorderError::AlreadyRecording => "Recording already in progress",
            RecorderError::ContextUnavailable => "App handle not set",
            RecorderError::SpawnFailed => "Failed to spawn FFmpeg",
            RecorderError::SignalFailed => "Failed to signal FFmpeg",
            RecorderError::FilesystemFailed => "Failed to prepare the output directory",
        }
    }
}

/// What the caller needs to launch a capture: the folder to create if it
/// is missing, the resolved output file, and the argument list.
pub struct StartPlan {
    pub output_dir: String,
    pub output_path: String,
    pub args: Vec<String>,
}

/// A process to stop gracefully: send it the quit request, wait
/// `grace_ms`, then kill it if it is still running.
pub struct Finalize<H> {
    pub child: H,
    pub output_path: String,
    pub grace_ms: u64,
}

/// A process to kill at once; after `settle_ms`, its incomplete output file
/// is deleted if it exists.
pub struct Discard<H> {
    pub child: H,
    pub delete_path: String,
    pub settle_ms: u64,
}

/// A live capture process and the file it writes.
struct LiveCapture<H> {
    child: H,
    output_path: String,
}

/// The capture-process manager. `C` is the context able to spawn the
/// capture program, `H` the handle of a spawned process. The slot holds at
/// most one live process, always together with its output path.
pub struct FFmpegRecorder<C, H> {
    slot: Option<LiveCapture<H>>,
    is_paused: bool,
    app_handle: Option<C>,
}

impl<C, H> FFmpegRecorder<C, H> {
    /// A capture process is live.
    pub closed spec fn live(&self) -> bool {
        self.slot is Some
    }

    /// The resolved output path of the live process.
    pub closed spec fn path(&self) -> Option<Seq<char>> {
        match self.slot {
            Some(c) => Some(c.output_path@),
            None => None,
        }
    }

    /// The paused flag.
    pub closed spec fn paused(&self) -> bool {
        self.is_paused
    }

    /// An execution context has been set.
    pub closed spec fn has_context(&self) -> bool {
        self.app_handle is Some
    }

    /// The output path is known exactly while a process is live.
    pub broadcast proof fn lemma_path_iff_live(&self)
        ensures
            #[trigger] self.live() == (self.path() is Some),
    {
    }

    pub fn new() -> (r: Self)
        ensures
            !r.live(),
            r.path() is None,
            !r.paused(),
            !r.has_context(),
    {
        FFmpegRecorder { slot: None, is_paused: false, app_handle: None }
    }

    /// Sets the context through which the capture program is spawned.
    pub fn set_app_handle(&mut self, handle: C)
        ensures
            final(self).has_context(),
            final(self).live() == old(self).live(),
            final(self).path() == old(self).path(),
            final(self).paused() == old(self).paused(),
    {
        self.app_handle = Some(handle);
    }

    /// The context through which the capture program is spawned.
    pub fn app_handle(&self) -> (r: Option<&C>)
        ensures
            (r is Some) == self.has_context(),
    {
        self.app_handle.as_ref()
    }

    /// Decides whether a capture may start and, if so, resolves the output
    /// file from the time `stamp` and builds the argument list. Nothing
    /// changes: the caller creates the folder, spawns the process and hands
    /// the outcome to `start`.
    pub fn plan_start(
        &self,
        mode: RecordingMode,
        region: Option<&Region>,
        sources: &RecordingSources,
        output_dir: &str,
        resolution: &str,
        frame_rate: u32,
        stamp: &LocalStamp,
    ) -> (r: Result<StartPlan, RecorderError>)
        ensures
            self.live() ==> r == Err::<StartPlan, RecorderError>(RecorderError::AlreadyRecording),
            !self.live() && !self.has_context() ==> r == Err::<StartPlan, RecorderError>(
                RecorderError::ContextUnavailable,
            ),
            !self.live() && self.has_context() ==> r is Ok,
            r is Ok ==> {
                let p = r->Ok_0;
                &&& p.output_dir@ == output_dir@
                &&& ends_with(p.output_path@, file_name(*stamp))
                &&& views(p.args@) == capture_args(
                    mode,
                    match region {
                        Some(g) => Some(*g),
                        None => None,
                    },
                    *sources,
                    p.output_path@,
                    resolution@,
                    frame_rate,
                )
            },
    {
        if self.slot.is_some() {
            return Err(RecorderError::AlreadyRecording);
        }
        if self.app_handle.is_none() {
            return Err(RecorderError::ContextUnavailable);
        }
        let name = recording_file_name(stamp);
        let output_path = join_path(output_dir, name.as_str());
        let args = build_args(mode, region, sources, output_path.as_str(), resolution, frame_rate);
        Ok(StartPlan { output_dir: String::from_str(output_dir), output_path, args })
    }

    /// Takes over the process spawned for `output_path`, or reports why
    /// there is none. On any error nothing changes.
    pub fn start(&mut self, output_path: String, spawned: Result<H, RecorderError>) -> (r: Result<
        String,
        RecorderError,
    >)
        ensures
            old(self).live() ==> r == Err::<String, RecorderError>(RecorderError::AlreadyRecording),
            !old(self).live() && spawned is Err ==> r == Err::<String, RecorderError>(
                spawned->Err_0,
            ),
            !old(self).live() && spawned is Ok ==> r is Ok && r->Ok_0@ == output_path@,
            r is Err ==> *final(self) == *old(self),
            r is Ok ==> {
                &&& final(self).live()
                &&& final(self).path() == Some(output_path@)
                &&& !final(self).paused()
                &&& final(self).has_context() == old(self).has_context()
            },
    {
        if self.slot.is_some() {
            return Err(RecorderError::AlreadyRecording);
        }
        match spawned {
            Ok(child) => {
                let path = output_path.clone();
                self.slot = Some(LiveCapture { child, output_path });
                self.is_paused = false;
                Ok(path)
            },
            Err(e) => Err(e),
        }
    }

    /// Stops the live process, if any: the handle leaves the manager with
    /// the output path and the grace interval. Stopping with nothing live
    /// changes nothing.
    pub fn stop(&mut self) -> (r: Option<Finalize<H>>)
        ensures
            (r is Some) == old(self).live(),
            r is Some ==> {
                &&& Some(r->Some_0.output_path@) == old(self).path()
                &&& r->Some_0.grace_ms == GRACE_MS
                &&& !final(self).live()
                &&& final(self).path() is None
                &&& !final(self).paused()
                &&& final(self).has_context() == old(self).has_context()
            },
            r is None ==> *final(self) == *old(self),
    {
        match self.slot.take() {
            Some(live) => {
                self.is_paused = false;
                Some(Finalize { child: live.child, output_path: live.output_path, grace_ms: GRACE_MS })
            },
            None => None,
        }
    }

    /// Sets the paused flag. The capture process is not signalled: the
    /// capture program has no pause of its own, so capture goes on.
    pub fn pause(&mut self)
        ensures
            final(self).paused(),
            final(self).live() == old(self).live(),
            final(self).path() == old(self).path(),
            final(self).has_context() == old(self).has_context(),
    {
        self.is_paused = true;
    }

    /// Clears the paused flag.
    pub fn resume(&mut self)
        ensures
            !final(self).paused(),
            final(self).live() == old(self).live(),
            final(self).path() == old(self).path(),
            final(self).has_context() == old(self).has_context(),
    {
        self.is_paused = false;
    }

    /// Cancels the live process, if any: the handle leaves the manager with
    /// the incomplete file to delete. The paused flag is cleared either way.
    pub fn cancel(&mut self) -> (r: Option<Discard<H>>)
        ensures
            (r is Some) == old(self).live(),
            r is Some ==> Some(r->Some_0.delete_path@) == old(self).path() && r->Some_0.settle_ms
                == SETTLE_MS,
            !final(self).live(),
            final(self).path() is None,
            !final(self).paused(),
            final(self).has_context() == old(self).has_context(),
    {
        let r = match self.slot.take() {
            Some(live) => {
                Some(Discard { child: live.child, delete_path: live.output_path, settle_ms: SETTLE_MS })
            },
            None => None,
        };
        self.is_paused = false;
        r
    }

    /// A process is live and not paused.
    pub fn is_recording(&self) -> (r: bool)
        ensures
            r == (self.live() && !self.paused()),
    {
        self.slot.is_some() && !self.is_paused
    }

    /// The paused flag.
    pub fn is_paused(&self) -> (r: bool)
        ensures
            r == self.paused(),
    {
        self.is_paused
    }

    /// The output path of the live process.
    pub fn output_path(&self) -> (r: Option<&String>)
        ensures
            match r {
                Some(p) => self.path() == Some(p@),
                None => self.path() is None,
            },
    {
        match &self.slot {
            Some(live) => Some(&live.output_path),
            None => None,
        }
    }
}

impl<C, H> Default for FFmpegRecorder<C, H> {
    fn default() -> (r: Self)
        ensures
            !r.live(),
            !r.paused(),
            !r.has_context(),
    {
        FFmpegRecorder::new()
    }
}

} // verus!
