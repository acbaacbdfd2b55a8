//! The argument list of the capture process.
//!
//! The capture program parses its arguments positionally: every input
//! stanza comes before the options that apply to it, and the output path is
//! the last positional argument, followed only by diagnostic flags.
use vstd::prelude::*;
use crate::state::{RecordingMode, RecordingSources, Region};
use crate::text::{decimal, signed_decimal, push_decimal, push_signed_decimal, text_eq};

verus! {

/// The views of a list of texts.
pub open spec fn views(v: Seq<String>) -> Seq<Seq<char>> {
    v.map_values(|s: String| s@)
}

/// Offset and size of a captured region.
pub open spec fn region_args(r: Region) -> Seq<Seq<char>> {
    seq![
        "-offset_x"@,
        signed_decimal(r.x as int),
        "-offset_y"@,
        signed_decimal(r.y as int),
        "-video_size"@,
        decimal(r.width as nat) + seq!['x'] + decimal(r.height as nat),
    ]
}

/// The screen input: frame rate, the region when there is one, then the desktop.
pub open spec fn screen_input_args(
    mode: RecordingMode,
    region: Option<Region>,
    frame_rate: u32,
) -> Seq<Seq<char>> {
    let area = if mode == RecordingMode::Region && region is Some {
        region_args(region->Some_0)
    } else {
        Seq::empty()
    };
    seq!["-f"@, "gdigrab"@, "-framerate"@, decimal(frame_rate as nat)] + area + seq![
        "-i"@,
        "desktop"@,
    ]
}

/// One audio input stanza for the device `device`.
pub open spec fn audio_input(device: Seq<char>) -> Seq<Seq<char>> {
    seq!["-f"@, "dshow"@, "-i"@, device]
}

/// The audio inputs: system audio first, then the microphone.
pub open spec fn audio_input_args(sources: RecordingSources) -> Seq<Seq<char>> {
    let system = if sources.system_audio {
        audio_input("audio=Stereo Mix"@)
    } else {
        Seq::empty()
    };
    let mic = if sources.microphone {
        audio_input("audio=Microphone"@)
    } else {
        Seq::empty()
    };
    system + mic
}

/// Real-time video encoding.
pub open spec fn video_codec_args() -> Seq<Seq<char>> {
    seq![
        "-c:v"@,
        "libx264"@,
        "-preset"@,
        "ultrafast"@,
        "-tune"@,
        "zerolatency"@,
        "-crf"@,
        "23"@,
    ]
}

/// The scaling filter of a known resolution preset; none for any other text.
pub open spec fn scale_filter(resolution: Seq<char>) -> Option<Seq<char>> {
    if resolution == "720p"@ {
        Some("scale=1280:720"@)
    } else if resolution == "1080p"@ {
        Some("scale=1920:1080"@)
    } else if resolution == "1440p"@ {
        Some("scale=2560:1440"@)
    } else if resolution == "4k"@ {
        Some("scale=3840:2160"@)
    } else {
        None
    }
}

/// The scaling option, when the resolution names a preset.
pub open spec fn scale_args(resolution: Seq<char>) -> Seq<Seq<char>> {
    match scale_filter(resolution) {
        Some(f) => seq!["-vf"@, f],
        None => Seq::empty(),
    }
}

/// Audio encoding, when any audio input is present.
pub open spec fn audio_codec_args(sources: RecordingSources) -> Seq<Seq<char>> {
    if sources.has_audio() {
        seq!["-c:a"@, "aac"@, "-b:a"@, "128k"@]
    } else {
        Seq::empty()
    }
}

/// Container options, overwrite, the output path, then diagnostic flags.
pub open spec fn output_args(output_path: Seq<char>) -> Seq<Seq<char>> {
    seq![
        "-f"@,
        "mp4"@,
        "-movflags"@,
        "+faststart"@,
        "-y"@,
        output_path,
        "-hide_banner"@,
        "-loglevel"@,
        "error"@,
    ]
}

/// The whole argument list of the capture process.
pub open spec fn capture_args(
    mode: RecordingMode,
    region: Option<Region>,
    sources: RecordingSources,
    output_path: Seq<char>,
    resolution: Seq<char>,
    frame_rate: u32,
) -> Seq<Seq<char>> {
    screen_input_args(mode, region, frame_rate) + audio_input_args(sources) + video_codec_args()
        + scale_args(resolution) + audio_codec_args(sources) + output_args(output_path)
}

fn push_text(args: &mut Vec<String>, s: &str)
    ensures
        views(final(args)@) == views(old(args)@).push(s@),
{
    args.push(String::from_str(s));
    assert(views(args@) =~= views(old(args)@).push(s@));
}

fn push_owned(args: &mut Vec<String>, s: String)
    ensures
        views(final(args)@) == views(old(args)@).push(s@),
{
    let ghost v = s@;
    args.push(s);
    assert(views(args@) =~= views(old(args)@).push(v));
}

fn push_screen_input(
    args: &mut Vec<String>,
    mode: RecordingMode,
    region: Option<&Region>,
    frame_rate: u32,
)
    ensures
        views(final(args)@) == views(old(args)@) + screen_input_args(
            mode,
            match region {
                Some(r) => Some(*r),
                None => None,
            },
            frame_rate,
        ),
{
    let ghost start = views(args@);
    push_text(args, "-f");
    push_text(args, "gdigrab");
    push_text(args, "-framerate");
    push_owned(args, crate::text::decimal_text(frame_rate as u64));
    let ghost head = views(args@);
    match mode {
        RecordingMode::Region => {
            match region {
                Some(r) => {
                    push_text(args, "-offset_x");
                    let mut x = String::new();
                    push_signed_decimal(&mut x, r.x as i64);
                    push_owned(args, x);
                    push_text(args, "-offset_y");
                    let mut y = String::new();
                    push_signed_decimal(&mut y, r.y as i64);
                    push_owned(args, y);
                    push_text(args, "-video_size");
                    let mut size = String::new();
                    push_decimal(&mut size, r.width as u64);
                    proof {
                        reveal_strlit("x");
                        assert("x"@ =~= seq!['x']);
                    }
                    size.append("x");
                    push_decimal(&mut size, r.height as u64);
                    push_owned(args, size);
                    assert(views(args@) =~= head + region_args(*r));
                },
                None => {},
            }
        },
        _ => {},
    }
    push_text(args, "-i");
    push_text(args, "desktop");
    assert(views(args@) =~= start + screen_input_args(
        mode,
        match region {
            Some(r) => Some(*r),
            None => None,
        },
        frame_rate,
    ));
}

fn push_audio_input(args: &mut Vec<String>, device: &str)
    ensures
        views(final(args)@) == views(old(args)@) + audio_input(device@),
{
    push_text(args, "-f");
    push_text(args, "dshow");
    push_text(args, "-i");
    push_text(args, device);
    assert(views(args@) =~= views(old(args)@) + audio_input(device@));
}

fn push_audio_inputs(args: &mut Vec<String>, sources: &RecordingSources)
    ensures
        views(final(args)@) == views(old(args)@) + audio_input_args(*sources),
{
    let ghost start = views(args@);
    if sources.system_audio {
        push_audio_input(args, "audio=Stereo Mix");
    }
    let ghost mid = views(args@);
    if sources.microphone {
        push_audio_input(args, "audio=Microphone");
    }
    assert(views(args@) =~= start + audio_input_args(*sources));
}

fn push_video_codec(args: &mut Vec<String>)
    ensures
        views(final(args)@) == views(old(args)@) + video_codec_args(),
{
    push_text(args, "-c:v");
    push_text(args, "libx264");
    push_text(args, "-preset");
    push_text(args, "ultrafast");
    push_text(args, "-tune");
    push_text(args, "zerolatency");
    push_text(args, "-crf");
    push_text(args, "23");
    assert(views(args@) =~= views(old(args)@) + video_codec_args());
}

/// The scaling filter for a resolution preset, or `None` to keep the
/// native capture size.
pub fn scale_filter_for(resolution: &str) -> (r: Option<&'static str>)
    ensures
        match r {
            Some(f) => scale_filter(resolution@) == Some(f@),
            None => scale_filter(resolution@) is None,
        },
{
    if text_eq(resolution, "720p") {
        Some("scale=1280:720")
    } else if text_eq(resolution, "1080p") {
        Some("scale=1920:1080")
    } else if text_eq(resolution, "1440p") {
        Some("scale=2560:1440")
    } else if text_eq(resolution, "4k") {
        Some("scale=3840:2160")
    } else {
        None
    }
}

fn push_audio_codec(args: &mut Vec<String>, sources: &RecordingSources)
    ensures
        views(final(args)@) == views(old(args)@) + audio_codec_args(*sources),
{
    if sources.system_audio || sources.microphone {
        push_text(args, "-c:a");
        push_text(args, "aac");
        push_text(args, "-b:a");
        push_text(args, "128k");
    }
    assert(views(args@) =~= views(old(args)@) + audio_codec_args(*sources));
}

fn push_output(args: &mut Vec<String>, output_path: &str)
    ensures
        views(final(args)@) == views(old(args)@) + output_args(output_path@),
{
    push_text(args, "-f");
    push_text(args, "mp4");
    push_text(args, "-movflags");
    push_text(args, "+faststart");
    push_text(args, "-y");
    push_text(args, output_path);
    push_text(args, "-hide_banner");
    push_text(args, "-loglevel");
    push_text(args, "error");
    assert(views(args@) =~= views(old(args)@) + output_args(output_path@));
}

/// Builds the argument list of the capture process: screen input, audio
/// inputs, video encoding, optional scaling, audio encoding, container
/// options and the output path, in that order.
pub fn build_args(
    mode: RecordingMode,
    region: Option<&Region>,
    sources: &RecordingSources,
    output_path: &str,
    resolution: &str,
    frame_rate: u32,
) -> (r: Vec<String>)
    ensures
        views(r@) == capture_args(
            mode,
            match region {
                Some(g) => Some(*g),
                None => None,
            },
            *sources,
            output_path@,
            resolution@,
            frame_rate,
        ),
{
    let mut args: Vec<String> = Vec::new();
    assert(views(args@) =~= Seq::empty());
    push_screen_input(&mut args, mode, region, frame_rate);
    push_audio_inputs(&mut args, sources);
    push_video_codec(&mut args);
    let ghost before_scale = views(args@);
    match scale_filter_for(resolution) {
        Some(f) => {
            push_text(&mut args, "-vf");
            push_text(&mut args, f);
        },
        None => {},
    }
    assert(views(args@) =~= before_scale + scale_args(resolution@));
    push_audio_codec(&mut args, sources);
    push_output(&mut args, output_path);
    let ghost reg = match region {
        Some(g) => Some(*g),
        None => None,
    };
    assert(views(args@) =~= capture_args(
        mode,
        reg,
        *sources,
        output_path@,
        resolution@,
        frame_rate,
    ));
    args
}

} // verus!
