use flashscreen::args::{build_args, scale_filter_for};
use flashscreen::state::{RecordingMode, RecordingSources, Region};

fn no_sources() -> RecordingSources {
    RecordingSources { microphone: false, system_audio: false, camera: false }
}

fn position(args: &[String], token: &str) -> usize {
    args.iter().position(|a| a == token).expect("token present")
}

#[test]
fn fullscreen_video_only_arguments() {
    let args = build_args(RecordingMode::Fullscreen, None, &no_sources(), "/v/out.mp4", "1080p", 60);
    let expected = vec![
        "-f", "gdigrab", "-framerate", "60", "-i", "desktop", "-c:v", "libx264", "-preset",
        "ultrafast", "-tune", "zerolatency", "-crf", "23", "-vf", "scale=1920:1080", "-f", "mp4",
        "-movflags", "+faststart", "-y", "/v/out.mp4", "-hide_banner", "-loglevel", "error",
    ];
    assert_eq!(args, expected);
}

#[test]
fn region_offset_and_size_precede_desktop_input() {
    let region = Region { x: 10, y: 20, width: 800, height: 600 };
    let args = build_args(RecordingMode::Region, Some(&region), &no_sources(), "o.mp4", "", 30);
    let ox = position(&args, "-offset_x");
    let oy = position(&args, "-offset_y");
    let size = position(&args, "-video_size");
    let desktop = position(&args, "desktop");
    assert_eq!(args[ox + 1], "10");
    assert_eq!(args[oy + 1], "20");
    assert_eq!(args[size + 1], "800x600");
    assert!(ox < oy && oy < size && size < desktop);
    assert_eq!(args[desktop - 1], "-i");
    assert_eq!(args[3], "30");
}

#[test]
fn region_with_negative_offset() {
    let region = Region { x: -1920, y: 0, width: 1, height: 2 };
    let args = build_args(RecordingMode::Region, Some(&region), &no_sources(), "o.mp4", "", 60);
    assert_eq!(args[position(&args, "-offset_x") + 1], "-1920");
    assert_eq!(args[position(&args, "-video_size") + 1], "1x2");
}

#[test]
fn region_mode_without_region_captures_desktop() {
    let args = build_args(RecordingMode::Region, None, &no_sources(), "o.mp4", "", 60);
    assert!(!args.iter().any(|a| a == "-offset_x"));
    assert_eq!(&args[4..6], &["-i".to_string(), "desktop".to_string()]);
}

#[test]
fn window_mode_captures_whole_desktop() {
    let region = Region { x: 10, y: 20, width: 800, height: 600 };
    let args = build_args(RecordingMode::Window, Some(&region), &no_sources(), "o.mp4", "", 60);
    assert!(!args.iter().any(|a| a == "-offset_x"));
    assert_eq!(&args[4..6], &["-i".to_string(), "desktop".to_string()]);
}

#[test]
fn two_audio_inputs_system_first() {
    let sources = RecordingSources { microphone: true, system_audio: true, camera: false };
    let args = build_args(RecordingMode::Fullscreen, None, &sources, "o.mp4", "", 60);
    let stanzas: Vec<usize> = (0..args.len()).filter(|&i| args[i] == "dshow").collect();
    assert_eq!(stanzas.len(), 2);
    assert_eq!(args[stanzas[0] + 2], "audio=Stereo Mix");
    assert_eq!(args[stanzas[1] + 2], "audio=Microphone");
    assert!(args.iter().any(|a| a == "aac"));
    assert_eq!(args[position(&args, "-b:a") + 1], "128k");
}

#[test]
fn microphone_only_gives_one_audio_input() {
    let sources = RecordingSources { microphone: true, system_audio: false, camera: true };
    let args = build_args(RecordingMode::Fullscreen, None, &sources, "o.mp4", "", 60);
    assert_eq!(args.iter().filter(|a| *a == "dshow").count(), 1);
    assert!(args.iter().any(|a| a == "audio=Microphone"));
    assert!(args.iter().any(|a| a == "-c:a"));
}

#[test]
fn video_only_has_no_audio_codec() {
    let args = build_args(RecordingMode::Fullscreen, None, &no_sources(), "o.mp4", "", 60);
    assert!(!args.iter().any(|a| a == "-c:a" || a == "dshow"));
}

#[test]
fn scale_filter_for_presets() {
    let args = build_args(RecordingMode::Fullscreen, None, &no_sources(), "o.mp4", "1440p", 60);
    assert_eq!(args[position(&args, "-vf") + 1], "scale=2560:1440");
    let args = build_args(RecordingMode::Fullscreen, None, &no_sources(), "o.mp4", "potato", 60);
    assert!(!args.iter().any(|a| a == "-vf" || a.starts_with("scale=")));
    assert_eq!(scale_filter_for("720p"), Some("scale=1280:720"));
    assert_eq!(scale_filter_for("1080p"), Some("scale=1920:1080"));
    assert_eq!(scale_filter_for("4k"), Some("scale=3840:2160"));
    assert_eq!(scale_filter_for(""), None);
    assert_eq!(scale_filter_for("4K"), None);
}

#[test]
fn output_path_is_last_positional_argument() {
    let args = build_args(RecordingMode::Fullscreen, None, &no_sources(), "/a b/c.mp4", "", 60);
    let n = args.len();
    assert_eq!(args[n - 4], "/a b/c.mp4");
    assert_eq!(args[n - 5], "-y");
    assert_eq!(&args[n - 3..], &["-hide_banner".to_string(), "-loglevel".to_string(), "error".to_string()]);
}
