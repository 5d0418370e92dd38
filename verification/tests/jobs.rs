use media_sidecar::error::ErrorKind;
use media_sidecar::staging::generate_output_filename;
use media_sidecar::jobs::{
    audio_codec, is_audio_only, remux, transcode, trim, JobEvent, MediaJob, ProcessResult,
};

fn exited(success: bool, diagnostic: &str, exit_code: Option<i32>) -> JobEvent {
    JobEvent::Exited(ProcessResult { success, diagnostic: diagnostic.to_string(), exit_code })
}

#[test]
fn remux_copies_all_streams() {
    let job = remux("in.mkv", "out.mp4");
    assert_eq!(job.arguments(), vec!["-i", "in.mkv", "-c", "copy", "out.mp4"]);
    assert_eq!(job.output_path(), "out.mp4");
}

#[test]
fn trim_seeks_then_cuts_and_copies() {
    let job = trim("input.mov", "input_trimmed.mov", "00:00:05", "00:00:10");
    assert_eq!(
        job.arguments(),
        vec![
            "-ss",
            "00:00:05",
            "-i",
            "input.mov",
            "-to",
            "00:00:10",
            "-c:v",
            "copy",
            "-c:a",
            "copy",
            "input_trimmed.mov",
        ]
    );
    assert_eq!(job.output_path(), "input_trimmed.mov");
}

#[test]
fn transcode_to_video_encodes_video() {
    let job = transcode("in.mov", "out.mp4", "aac");
    assert_eq!(
        job.arguments(),
        vec![
            "-i", "in.mov", "-c:v", "libx264", "-preset", "fast", "-crf", "22", "-c:a", "aac",
            "out.mp4",
        ]
    );
}

#[test]
fn transcode_to_audio_omits_video_arguments() {
    let job = transcode("in.mov", "out.mp3", "mp3");
    assert_eq!(job.arguments(), vec!["-i", "in.mov", "-c:a", "libmp3lame", "out.mp3"]);
}

#[test]
fn every_audio_extension_omits_video_in_both_cases() {
    for extension in ["mp3", "wav", "m4a", "aac", "flac", "ogg", "opus"] {
        for name in [
            format!("out.{}", extension),
            format!("out.{}", extension.to_uppercase()),
            format!("dir.v2/Out.{}", extension),
        ] {
            assert!(is_audio_only(&name));
            let arguments = transcode("in.mov", &name, extension).arguments();
            assert_eq!(arguments.len(), 5);
            assert!(!arguments.contains(&"-c:v".to_string()));
            assert_eq!(arguments[4], name);
        }
    }
}

#[test]
fn other_extensions_keep_video_arguments() {
    for name in ["out.mp4", "out.mkv", "out.mov", "out", "mp3", "out.mp3.mp4", "out.mp3x", "out.mp"]
    {
        assert!(!is_audio_only(name));
        let arguments = transcode("in.mov", name, "aac").arguments();
        assert_eq!(arguments.len(), 11);
        assert_eq!(arguments[2..8], ["-c:v", "libx264", "-preset", "fast", "-crf", "22"]);
    }
}

#[test]
fn codec_lookup_table() {
    assert_eq!(audio_codec("mp3"), "libmp3lame");
    assert_eq!(audio_codec("wav"), "pcm_s16le");
    assert_eq!(audio_codec("m4a"), "aac");
    assert_eq!(audio_codec("aac"), "aac");
    assert_eq!(audio_codec("flac"), "flac");
    assert_eq!(audio_codec("ogg"), "libvorbis");
    assert_eq!(audio_codec("opus"), "libopus");
}

#[test]
fn unknown_encoding_falls_back_to_aac() {
    assert_eq!(audio_codec("webm"), "aac");
    assert_eq!(audio_codec(""), "aac");
    assert_eq!(audio_codec("MP3"), "aac");
    assert_eq!(audio_codec("mp3 "), "aac");
}

#[test]
fn constructors_keep_their_inputs() {
    assert_eq!(
        remux("a", "b"),
        MediaJob::Remux { input: "a".to_string(), output: "b".to_string() }
    );
    assert_eq!(
        transcode("a", "b", "c"),
        MediaJob::Transcode {
            input: "a".to_string(),
            output: "b".to_string(),
            encoding: "c".to_string()
        }
    );
    assert_eq!(
        trim("a", "b", "c", "d"),
        MediaJob::Trim {
            input: "a".to_string(),
            output: "b".to_string(),
            start: "c".to_string(),
            end: "d".to_string()
        }
    );
}

#[test]
fn success_returns_the_output_path() {
    let job = trim("input.mov", "input_trimmed.mov", "00:00:05", "00:00:10");
    assert_eq!(
        job.conclude(&exited(true, "frame=  150", Some(0))),
        Ok("input_trimmed.mov".to_string())
    );
}

#[test]
fn failure_embeds_the_whole_diagnostic_text() {
    let job = trim("input.mov", "input_trimmed.mov", "00:00:10", "00:00:05");
    let error = job.conclude(&exited(false, "-to value smaller than -ss; aborting.\n", Some(1)));
    let error = error.unwrap_err();
    assert_eq!(error.kind, ErrorKind::ProcessExecution);
    assert_eq!(error.message, "FFmpeg failed: -to value smaller than -ss; aborting.\n");
    assert_eq!(error.exit_code, Some(1));
    assert!(!error.message.is_empty());
}

#[test]
fn failure_with_large_diagnostic_keeps_all_of_it() {
    let text = "x".repeat(300_000);
    let error = remux("a", "b").conclude(&exited(false, &text, None)).unwrap_err();
    assert_eq!(error.message.len(), "FFmpeg failed: ".len() + 300_000);
    assert!(error.message.ends_with(&text));
    assert_eq!(error.exit_code, None);
}

#[test]
fn spawn_failure_is_a_spawn_error() {
    let error = remux("a", "b")
        .conclude(&JobEvent::SpawnFailed("No such file or directory".to_string()))
        .unwrap_err();
    assert_eq!(error.kind, ErrorKind::Spawn);
    assert_eq!(error.message, "Failed to spawn FFmpeg process: No such file or directory");
    assert_eq!(error.exit_code, None);
}

#[test]
fn wait_failure_is_an_io_error() {
    let error = transcode("a", "b", "mp3")
        .conclude(&JobEvent::WaitFailed("interrupted".to_string()))
        .unwrap_err();
    assert_eq!(error.kind, ErrorKind::Io);
    assert_eq!(error.message, "Failed to wait for FFmpeg process: interrupted");
    assert_eq!(error.exit_code, None);
}

#[test]
fn trim_of_input_mov_from_start_to_end() {
    let output = generate_output_filename("input.mov", "trim", "");
    assert_eq!(output, "input_trimmed.mov");
    let job = trim("input.mov", &output, "00:00:05", "00:00:10");
    assert_eq!(job.arguments()[1], "00:00:05");
    assert_eq!(job.arguments()[5], "00:00:10");
    assert_eq!(job.arguments()[10], "input_trimmed.mov");
    assert_eq!(job.conclude(&exited(true, "", Some(0))), Ok("input_trimmed.mov".to_string()));

    let reversed = trim("input.mov", &output, "00:00:10", "00:00:05");
    let error = reversed.conclude(&exited(false, "", Some(1))).unwrap_err();
    assert!(!error.message.is_empty());
    assert_eq!(error.message, "FFmpeg failed: ");
}
