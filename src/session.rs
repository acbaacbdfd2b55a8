//! The lifecycle operations on the shared manager and session record.
//!
//! Each operation takes the manager and the record together (the caller
//! holds both locks, manager first), performs its step on the manager and,
//! on success only, brings the record in line. On failure neither changes.
use vstd::prelude::*;
use crate::args::{capture_args, views};
use crate::clock::{file_name, local_now, LocalStamp};
use crate::paths::ends_with;
use crate::recorder::{Discard, FFmpegRecorder, RecorderError, StartPlan};
use crate::state::{
    opt_view, RecordingMode, RecordingSources, RecordingState, RecordingStateResponse,
    RecordingStatus, Region,
};

verus! {

/// The record agrees with the manager: a capture is active in the record
/// exactly while a process is live, under the same output path.
pub open spec fn in_step<C, H>(rec: &FFmpegRecorder<C, H>, st: &RecordingState) -> bool {
    &&& st.wf()
    &&& rec.live() == st.status.is_active()
    &&& rec.path() == opt_view(st.output_path)
}

/// While a start is unfinished — the record shows a capture under way and
/// agrees with the manager — the manager holds a live process, so
/// `plan_recording`, `FFmpegRecorder::plan_start` and `start_recording` all
/// refuse a further start with `AlreadyRecording` and change nothing.
pub proof fn lemma_unfinished_start_blocks_start<C, H>(rec: &FFmpegRecorder<C, H>, st: &RecordingState)
    requires
        in_step(rec, st),
        st.status.is_active(),
    ensures
        rec.live(),
{
}

/// Plans a capture at the current local time (see `FFmpegRecorder::plan_start`).
pub fn plan_recording<C, H>(
    rec: &FFmpegRecorder<C, H>,
    mode: RecordingMode,
    region: Option<&Region>,
    sources: &RecordingSources,
    output_dir: &str,
    resolution: &str,
    frame_rate: u32,
) -> (r: Result<StartPlan, RecorderError>)
    ensures
        rec.live() ==> r == Err::<StartPlan, RecorderError>(RecorderError::AlreadyRecording),
        !rec.live() && !rec.has_context() ==> r == Err::<StartPlan, RecorderError>(
            RecorderError::ContextUnavailable,
        ),
        !rec.live() && rec.has_context() ==> r is Ok,
        r is Ok ==> {
            let p = r->Ok_0;
            &&& p.output_dir@ == output_dir@
            &&& exists|s: LocalStamp| s.wf() && ends_with(p.output_path@, #[trigger] file_name(s))
            &&& views(p.args@) == capture_args(
                mode,
                match region {
                    Some(g) => Some(*g),
                    None => None,
                },
                *sources,
                p.output_path@,
                resolution@,
                frame_rate,
            )
        },
{
    let stamp = local_now();
    rec.plan_start(mode, region, sources, output_dir, resolution, frame_rate, &stamp)
}

/// Completes a start: on the manager's success the record shows the new
/// capture, started at `now_ms`; on any failure neither changes.
pub fn start_recording<C, H>(
    rec: &mut FFmpegRecorder<C, H>,
    st: &mut RecordingState,
    mode: RecordingMode,
    region: Option<Region>,
    window_id: Option<String>,
    sources: RecordingSources,
    plan: StartPlan,
    spawned: Result<H, RecorderError>,
    now_ms: u64,
) -> (r: Result<String, RecorderError>)
    ensures
        old(rec).live() ==> r == Err::<String, RecorderError>(RecorderError::AlreadyRecording),
        !old(rec).live() && spawned is Err ==> r == Err::<String, RecorderError>(spawned->Err_0),
        !old(rec).live() && spawned is Ok ==> r is Ok && r->Ok_0@ == plan.output_path@,
        r is Err ==> *final(rec) == *old(rec) && *final(st) == *old(st),
        r is Ok ==> {
            &&& final(st).status == RecordingStatus::Recording
            &&& final(st).mode == mode
            &&& final(st).region == region
            &&& final(st).window_id == window_id
            &&& final(st).sources == sources
            &&& opt_view(final(st).output_path) == Some(plan.output_path@)
            &&& final(st).start_time == Some(now_ms)
            &&& final(st).duration == old(st).duration
            &&& final(rec).live()
            &&& final(rec).path() == Some(plan.output_path@)
            &&& !final(rec).paused()
            &&& final(rec).has_context() == old(rec).has_context()
        },
        old(st).wf() ==> final(st).wf(),
        in_step(old(rec), old(st)) ==> in_step(final(rec), final(st)),
{
    match rec.start(plan.output_path, spawned) {
        Ok(path) => {
            st.status = RecordingStatus::Recording;
            st.mode = mode;
            st.region = region;
            st.window_id = window_id;
            st.sources = sources;
            st.output_path = Some(path.clone());
            st.start_time = Some(now_ms);
            Ok(path)
        },
        Err(e) => Err(e),
    }
}

/// Stops the capture. Returns the output path (empty when nothing was
/// live) and the process to finalise, if any; the record is reset either
/// way.
pub fn stop_recording<C, H>(rec: &mut FFmpegRecorder<C, H>, st: &mut RecordingState) -> (r: (
    String,
    Option<H>,
))
    ensures
        (r.1 is Some) == old(rec).live(),
        old(rec).live() ==> Some(r.0@) == old(rec).path(),
        !old(rec).live() ==> r.0@.len() == 0,
        !final(rec).live(),
        final(rec).path() is None,
        final(rec).has_context() == old(rec).has_context(),
        final(st).is_default(),
        final(st).wf(),
        in_step(final(rec), final(st)),
{
    proof {
        rec.lemma_path_iff_live();
    }
    let r = match rec.stop() {
        Some(f) => (f.output_path, Some(f.child)),
        None => (String::new(), None),
    };
    st.reset();
    r
}

/// Pauses: the manager's flag is set, and a running capture shows as paused.
pub fn pause_recording<C, H>(rec: &mut FFmpegRecorder<C, H>, st: &mut RecordingState)
    ensures
        final(rec).paused(),
        final(rec).live() == old(rec).live(),
        final(rec).path() == old(rec).path(),
        final(st).status == if old(st).status == RecordingStatus::Recording {
            RecordingStatus::Paused
        } else {
            old(st).status
        },
        *final(st) == (RecordingState { status: final(st).status, ..*old(st) }),
        old(st).wf() ==> final(st).wf(),
        in_step(old(rec), old(st)) ==> in_step(final(rec), final(st)),
{
    rec.pause();
    if st.status == RecordingStatus::Recording {
        st.status = RecordingStatus::Paused;
    }
}

/// Resumes: the manager's flag is cleared, and a paused capture shows as
/// running.
pub fn resume_recording<C, H>(rec: &mut FFmpegRecorder<C, H>, st: &mut RecordingState)
    ensures
        !final(rec).paused(),
        final(rec).live() == old(rec).live(),
        final(rec).path() == old(rec).path(),
        final(st).status == if old(st).status == RecordingStatus::Paused {
            RecordingStatus::Recording
        } else {
            old(st).status
        },
        *final(st) == (RecordingState { status: final(st).status, ..*old(st) }),
        old(st).wf() ==> final(st).wf(),
        in_step(old(rec), old(st)) ==> in_step(final(rec), final(st)),
{
    rec.resume();
    if st.status == RecordingStatus::Paused {
        st.status = RecordingStatus::Recording;
    }
}

/// Cancels the capture: the manager lets go of the process, which is to be
/// killed and its file deleted, and the record is reset.
pub fn cancel_recording<C, H>(rec: &mut FFmpegRecorder<C, H>, st: &mut RecordingState) -> (r:
    Option<Discard<H>>)
    ensures
        (r is Some) == old(rec).live(),
        r is Some ==> Some(r->Some_0.delete_path@) == old(rec).path(),
        !final(rec).live(),
        final(rec).path() is None,
        !final(rec).paused(),
        final(rec).has_context() == old(rec).has_context(),
        final(st).is_default(),
        final(st).wf(),
        in_step(final(rec), final(st)),
{
    let r = rec.cancel();
    st.reset();
    r
}

/// Whole seconds elapsed since the capture started, or zero with none.
pub open spec fn elapsed_secs(start_time: Option<u64>, now_ms: u64) -> u64 {
    match start_time {
        Some(s) => if now_ms >= s {
            ((now_ms - s) / 1000) as u64
        } else {
            0
        },
        None => 0,
    }
}

/// A snapshot of the record, with the duration derived from `now_ms`.
pub fn get_recording_state(st: &RecordingState, now_ms: u64) -> (r: RecordingStateResponse)
    ensures
        r.status == st.status,
        r.mode == st.mode,
        r.duration == elapsed_secs(st.start_time, now_ms),
        r.region == st.region,
        opt_view(r.window_id) == opt_view(st.window_id),
        r.sources == st.sources,
        opt_view(r.output_path) == opt_view(st.output_path),
{
    let duration: u64 = match st.start_time {
        Some(s) => if now_ms >= s {
            (now_ms - s) / 1000
        } else {
            0
        },
        None => 0,
    };
    let window_id = match &st.window_id {
        Some(w) => Some(w.clone()),
        None => None,
    };
    let output_path = match &st.output_path {
        Some(p) => Some(p.clone()),
        None => None,
    };
    RecordingStateResponse {
        status: st.status,
        mode: st.mode,
        duration,
        region: st.region,
        window_id,
        sources: st.sources,
        output_path,
    }
}

} // verus!
