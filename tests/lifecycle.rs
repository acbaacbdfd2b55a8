use flashscreen::clock::LocalStamp;
use flashscreen::recorder::{FFmpegRecorder, RecorderError, GRACE_MS, SETTLE_MS};
use flashscreen::session::{
    cancel_recording, get_recording_state, pause_recording, plan_recording, resume_recording,
    start_recording, stop_recording,
};
use flashscreen::settings::Settings;
use flashscreen::state::{RecordingMode, RecordingSources, RecordingState, RecordingStatus, Region};

type Recorder = FFmpegRecorder<(), u32>;

fn no_sources() -> RecordingSources {
    RecordingSources { microphone: false, system_audio: false, camera: false }
}

fn stamp() -> LocalStamp {
    LocalStamp { year: 2025, month: 1, day: 2, hour: 3, minute: 4, second: 5 }
}

fn ready() -> (Recorder, RecordingState) {
    let mut rec = Recorder::new();
    rec.set_app_handle(());
    (rec, RecordingState::new())
}

fn start(rec: &mut Recorder, st: &mut RecordingState, child: u32, now: u64) -> Result<String, RecorderError> {
    let plan = rec.plan_start(RecordingMode::Fullscreen, None, &no_sources(), "/tmp/rec", "1080p", 60, &stamp())?;
    start_recording(rec, st, RecordingMode::Fullscreen, None, None, no_sources(), plan, Ok(child), now)
}

#[test]
fn start_then_state_then_stop() {
    let (mut rec, mut st) = ready();
    let path = start(&mut rec, &mut st, 7, 1_000).unwrap();
    assert_eq!(path, "/tmp/rec/FlashScreen_20250102_030405.mp4");
    let snap = get_recording_state(&st, 1_000);
    assert_eq!(snap.status, RecordingStatus::Recording);
    assert_eq!(snap.duration, 0);
    assert_eq!(snap.output_path.as_deref(), Some(path.as_str()));
    assert!(rec.is_recording());
    let (stopped, child) = stop_recording(&mut rec, &mut st);
    assert_eq!(stopped, path);
    assert_eq!(child, Some(7));
    let snap = get_recording_state(&st, 5_000);
    assert_eq!(snap.status, RecordingStatus::Idle);
    assert_eq!(snap.output_path, None);
    assert_eq!(snap.duration, 0);
    assert!(!rec.is_recording());
    assert_eq!(rec.output_path(), None);
}

#[test]
fn start_plan_holds_path_and_arguments() {
    let (rec, _) = ready();
    let region = Region { x: 1, y: 2, width: 3, height: 4 };
    let plan = rec
        .plan_start(RecordingMode::Region, Some(&region), &no_sources(), "/tmp/out", "720p", 24, &stamp())
        .unwrap();
    assert_eq!(plan.output_dir, "/tmp/out");
    assert_eq!(plan.output_path, "/tmp/out/FlashScreen_20250102_030405.mp4");
    assert_eq!(plan.args[3], "24");
    assert!(plan.args.contains(&"scale=1280:720".to_string()));
    assert_eq!(plan.args[plan.args.len() - 4], plan.output_path);
}

#[test]
fn plan_at_current_time() {
    let (rec, _) = ready();
    let plan = plan_recording(&rec, RecordingMode::Fullscreen, None, &no_sources(), "/tmp/x", "", 60).unwrap();
    assert!(plan.output_path.starts_with("/tmp/x/FlashScreen_"));
    assert!(plan.output_path.ends_with(".mp4"));
    let name = &plan.output_path["/tmp/x/".len()..];
    assert_eq!(name.len(), "FlashScreen_YYYYMMDD_HHMMSS.mp4".len());
    let stamp = &name["FlashScreen_".len()..name.len() - 4];
    assert!(stamp.chars().enumerate().all(|(i, c)| if i == 8 { c == '_' } else { c.is_ascii_digit() }));
}

#[test]
fn second_start_is_refused() {
    let (mut rec, mut st) = ready();
    start(&mut rec, &mut st, 1, 0).unwrap();
    let before = get_recording_state(&st, 0);
    assert_eq!(start(&mut rec, &mut st, 2, 10), Err(RecorderError::AlreadyRecording));
    pause_recording(&mut rec, &mut st);
    assert_eq!(start(&mut rec, &mut st, 3, 10), Err(RecorderError::AlreadyRecording));
    resume_recording(&mut rec, &mut st);
    assert_eq!(start(&mut rec, &mut st, 4, 10), Err(RecorderError::AlreadyRecording));
    let after = get_recording_state(&st, 0);
    assert_eq!(after.status, before.status);
    assert_eq!(after.output_path, before.output_path);
    assert_eq!(st.start_time, Some(0));
}

#[test]
fn start_without_context_is_refused() {
    let rec = Recorder::new();
    let r = rec.plan_start(RecordingMode::Fullscreen, None, &no_sources(), "/tmp", "", 60, &stamp());
    assert!(matches!(r, Err(RecorderError::ContextUnavailable)));
}

#[test]
fn failed_spawn_leaves_state_unchanged() {
    let (mut rec, mut st) = ready();
    let plan = rec.plan_start(RecordingMode::Fullscreen, None, &no_sources(), "/tmp", "", 60, &stamp()).unwrap();
    let r = start_recording(&mut rec, &mut st, RecordingMode::Window, None, Some("w1".to_string()), no_sources(), plan, Err(RecorderError::SpawnFailed), 5);
    assert_eq!(r, Err(RecorderError::SpawnFailed));
    assert_eq!(st.status, RecordingStatus::Idle);
    assert_eq!(st.window_id, None);
    assert_eq!(st.start_time, None);
    assert!(!rec.is_recording());
    let plan = rec.plan_start(RecordingMode::Fullscreen, None, &no_sources(), "/tmp", "", 60, &stamp()).unwrap();
    let r = start_recording(&mut rec, &mut st, RecordingMode::Fullscreen, None, None, no_sources(), plan, Err(RecorderError::FilesystemFailed), 5);
    assert_eq!(r, Err(RecorderError::FilesystemFailed));
}

#[test]
fn stop_with_nothing_live_is_idempotent() {
    let (mut rec, mut st) = ready();
    let (path, child) = stop_recording(&mut rec, &mut st);
    assert_eq!(path, "");
    assert_eq!(child, None);
    assert_eq!(st.status, RecordingStatus::Idle);
    let (path, child) = stop_recording(&mut rec, &mut st);
    assert_eq!((path.as_str(), child), ("", None));
}

#[test]
fn cancel_after_start_discards_everything() {
    let (mut rec, mut st) = ready();
    let region = Region { x: 5, y: 5, width: 10, height: 10 };
    let plan = rec.plan_start(RecordingMode::Region, Some(&region), &no_sources(), "/tmp/c", "", 60, &stamp()).unwrap();
    let path = start_recording(&mut rec, &mut st, RecordingMode::Region, Some(region), Some("7".to_string()), no_sources(), plan, Ok(9), 0).unwrap();
    pause_recording(&mut rec, &mut st);
    let discard = cancel_recording(&mut rec, &mut st).unwrap();
    assert_eq!(discard.child, 9);
    assert_eq!(discard.delete_path, path);
    assert_eq!(discard.settle_ms, SETTLE_MS);
    assert!(!rec.is_recording() && !rec.is_paused());
    assert_eq!(st.status, RecordingStatus::Idle);
    assert_eq!(st.mode, RecordingMode::Fullscreen);
    assert_eq!(st.region, None);
    assert_eq!(st.window_id, None);
    assert_eq!(st.output_path, None);
    assert_eq!(st.start_time, None);
    assert!(cancel_recording(&mut rec, &mut st).is_none());
}

#[test]
fn pause_and_resume_flip_status() {
    let (mut rec, mut st) = ready();
    pause_recording(&mut rec, &mut st);
    assert_eq!(st.status, RecordingStatus::Idle);
    assert!(rec.is_paused());
    resume_recording(&mut rec, &mut st);
    assert!(!rec.is_paused());
    start(&mut rec, &mut st, 3, 0).unwrap();
    pause_recording(&mut rec, &mut st);
    assert_eq!(st.status, RecordingStatus::Paused);
    assert!(rec.is_paused() && !rec.is_recording());
    resume_recording(&mut rec, &mut st);
    assert_eq!(st.status, RecordingStatus::Recording);
    assert!(rec.is_recording());
}

#[test]
fn stop_hands_over_process_with_grace() {
    let (mut rec, mut st) = ready();
    start(&mut rec, &mut st, 11, 0).unwrap();
    let f = rec.stop().unwrap();
    assert_eq!(f.child, 11);
    assert_eq!(f.grace_ms, GRACE_MS);
    assert_eq!(GRACE_MS, 500);
    assert_eq!(SETTLE_MS, 100);
    assert!(rec.stop().is_none());
}

#[test]
fn duration_counts_whole_seconds() {
    let (mut rec, mut st) = ready();
    start(&mut rec, &mut st, 1, 1_000).unwrap();
    assert_eq!(get_recording_state(&st, 4_500).duration, 3);
    assert_eq!(get_recording_state(&st, 1_999).duration, 0);
    assert_eq!(get_recording_state(&st, 500).duration, 0);
}

#[test]
fn fresh_state_and_reset() {
    let mut st = RecordingState::new();
    assert_eq!(st.status, RecordingStatus::Idle);
    assert_eq!(st.sources.microphone, false);
    st.status = RecordingStatus::Encoding;
    st.output_path = Some("x".to_string());
    st.reset();
    assert_eq!(st.status, RecordingStatus::Idle);
    assert_eq!(st.output_path, None);
    assert_eq!(RecordingStatus::default(), RecordingStatus::Idle);
    assert_eq!(RecordingMode::default(), RecordingMode::Fullscreen);
}

#[test]
fn error_messages() {
    assert_eq!(RecorderError::AlreadyRecording.message(), "Recording already in progress");
    assert_eq!(RecorderError::ContextUnavailable.message(), "App handle not set");
    assert!(!RecorderError::SpawnFailed.message().is_empty());
    assert!(!RecorderError::SignalFailed.message().is_empty());
    assert!(!RecorderError::FilesystemFailed.message().is_empty());
}

#[test]
fn default_settings() {
    let s = Settings::with_directory("/videos/FlashScreen".to_string());
    assert_eq!(s.output.directory, "/videos/FlashScreen");
    assert_eq!(s.output.resolution, "1080p");
    assert_eq!(s.output.frame_rate, 60);
    assert_eq!(s.output.format, "mp4");
    assert_eq!(s.hotkeys.start_stop, "F1");
    assert_eq!(s.hotkeys.toggle_camera, "F4");
    assert_eq!(s.recording.countdown_duration, 3);
    assert_eq!(s.camera.size, 150);
    assert_eq!(s.camera.position, "bottom-right");
    assert_eq!(s.general.language, "zh-CN");
    assert!(s.is_first_launch);
    let d = Settings::default();
    assert_eq!(d.output.resolution, "1080p");
}
