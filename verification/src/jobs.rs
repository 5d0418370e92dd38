//! Media jobs: the argument vector of each operation and what the end of the
//! external process means for the caller.

use crate::error::{ErrorKind, MediaError};
use crate::text::{
    after_last_dot, ends_with_folded, ends_with_ignoring_case, fold_case, folded, last_dot,
    lemma_last_dot, lemma_last_dot_at, same_text,
};
use vstd::prelude::*;
use vstd::string::*;

verus! {

/// One run of the external process: a remux, a transcode or a trim.
#[derive(Clone, Debug, PartialEq, Eq)]
pub enum MediaJob {
    /// Repackage the streams of `input` into `output` without re-encoding.
    Remux { input: String, output: String },
    /// Re-encode `input` into `output`, with the audio codec that `encoding` selects.
    Transcode { input: String, output: String, encoding: String },
    /// Copy the part of `input` between `start` and `end` into `output`.
    Trim { input: String, output: String, start: String, end: String },
}

/// The mathematical value of a [`MediaJob`].
pub enum JobView {
    Remux { input: Seq<char>, output: Seq<char> },
    Transcode { input: Seq<char>, output: Seq<char>, encoding: Seq<char> },
    Trim { input: Seq<char>, output: Seq<char>, start: Seq<char>, end: Seq<char> },
}

impl View for MediaJob {
    type V = JobView;

    open spec fn view(&self) -> JobView {
        match self {
            MediaJob::Remux { input, output } => JobView::Remux { input: input@, output: output@ },
            MediaJob::Transcode { input, output, encoding } => JobView::Transcode {
                input: input@,
                output: output@,
                encoding: encoding@,
            },
            MediaJob::Trim { input, output, start, end } => JobView::Trim {
                input: input@,
                output: output@,
                start: start@,
                end: end@,
            },
        }
    }
}

/// How the external process ended.
#[derive(Clone, Debug, PartialEq, Eq)]
pub struct ProcessResult {
    /// Whether the exit status reports success.
    pub success: bool,
    /// Everything the process wrote to its diagnostic stream.
    pub diagnostic: String,
    /// The exit code, where the process ended with one.
    pub exit_code: Option<i32>,
}

/// What became of the attempt to run a job's process.
#[derive(Clone, Debug, PartialEq, Eq)]
pub enum JobEvent {
    /// The process could not be started; the text says why.
    SpawnFailed(String),
    /// Waiting for the process failed; the text says why.
    WaitFailed(String),
    /// The process ran and ended.
    Exited(ProcessResult),
}

/// The texts of a vector of strings.
pub open spec fn texts(strings: Seq<String>) -> Seq<Seq<char>> {
    Seq::new(strings.len(), |i: int| strings[i]@)
}

/// Whether an extension, in small letters, is one of the audio-only containers.
pub open spec fn is_audio_extension(extension: Seq<char>) -> bool {
    ||| extension == "mp3"@
    ||| extension == "wav"@
    ||| extension == "m4a"@
    ||| extension == "aac"@
    ||| extension == "flac"@
    ||| extension == "ogg"@
    ||| extension == "opus"@
}

/// Whether an output path names an audio-only container, whatever the case of
/// its extension.
pub open spec fn is_audio_only_path(output: Seq<char>) -> bool {
    ||| ends_with_folded(output, ".mp3"@)
    ||| ends_with_folded(output, ".wav"@)
    ||| ends_with_folded(output, ".m4a"@)
    ||| ends_with_folded(output, ".aac"@)
    ||| ends_with_folded(output, ".flac"@)
    ||| ends_with_folded(output, ".ogg"@)
    ||| ends_with_folded(output, ".opus"@)
}

/// The audio codec for a target encoding; AAC where the encoding is not known.
pub open spec fn codec_for(encoding: Seq<char>) -> Seq<char> {
    if encoding == "mp3"@ {
        "libmp3lame"@
    } else if encoding == "wav"@ {
        "pcm_s16le"@
    } else if encoding == "m4a"@ {
        "aac"@
    } else if encoding == "aac"@ {
        "aac"@
    } else if encoding == "flac"@ {
        "flac"@
    } else if encoding == "ogg"@ {
        "libvorbis"@
    } else if encoding == "opus"@ {
        "libopus"@
    } else {
        "aac"@
    }
}

/// The arguments that encode the video stream: H.264, the fast preset, and a
/// constant rate factor of 22.
pub open spec fn video_arguments() -> Seq<Seq<char>> {
    seq!["-c:v"@, "libx264"@, "-preset"@, "fast"@, "-crf"@, "22"@]
}

/// The argument vector of a job.
pub open spec fn job_arguments(job: JobView) -> Seq<Seq<char>> {
    match job {
        JobView::Remux { input, output } => seq!["-i"@, input, "-c"@, "copy"@, output],
        JobView::Transcode { input, output, encoding } => if is_audio_only_path(output) {
            seq!["-i"@, input, "-c:a"@, codec_for(encoding), output]
        } else {
            seq!["-i"@, input] + video_arguments() + seq!["-c:a"@, codec_for(encoding), output]
        },
        JobView::Trim { input, output, start, end } => seq![
            "-ss"@,
            start,
            "-i"@,
            input,
            "-to"@,
            end,
            "-c:v"@,
            "copy"@,
            "-c:a"@,
            "copy"@,
            output,
        ],
    }
}

/// The path that a job writes to.
pub open spec fn job_output(job: JobView) -> Seq<char> {
    match job {
        JobView::Remux { output, .. } => output,
        JobView::Transcode { output, .. } => output,
        JobView::Trim { output, .. } => output,
    }
}

/// Whether an output path names an audio-only container, so that no video
/// stream is to be encoded into it.
pub fn is_audio_only(output: &str) -> (audio_only: bool)
    ensures
        audio_only == is_audio_only_path(output@),
{
    ends_with_ignoring_case(output, ".mp3") || ends_with_ignoring_case(output, ".wav")
        || ends_with_ignoring_case(output, ".m4a") || ends_with_ignoring_case(output, ".aac")
        || ends_with_ignoring_case(output, ".flac") || ends_with_ignoring_case(output, ".ogg")
        || ends_with_ignoring_case(output, ".opus")
}

/// The audio codec for a target encoding; AAC where the encoding is not known.
pub fn audio_codec(encoding: &str) -> (codec: &'static str)
    ensures
        codec@ == codec_for(encoding@),
{
    if same_text(encoding, "mp3") {
        "libmp3lame"
    } else if same_text(encoding, "wav") {
        "pcm_s16le"
    } else if same_text(encoding, "m4a") {
        "aac"
    } else if same_text(encoding, "aac") {
        "aac"
    } else if same_text(encoding, "flac") {
        "flac"
    } else if same_text(encoding, "ogg") {
        "libvorbis"
    } else if same_text(encoding, "opus") {
        "libopus"
    } else {
        "aac"
    }
}

/// A job that repackages `input` into `output` without re-encoding.
pub fn remux(input: &str, output: &str) -> (job: MediaJob)
    ensures
        job@ == (JobView::Remux { input: input@, output: output@ }),
{
    MediaJob::Remux { input: String::from_str(input), output: String::from_str(output) }
}

/// A job that re-encodes `input` into `output`.
pub fn transcode(input: &str, output: &str, out_encoding: &str) -> (job: MediaJob)
    ensures
        job@ == (JobView::Transcode { input: input@, output: output@, encoding: out_encoding@ }),
{
    MediaJob::Transcode {
        input: String::from_str(input),
        output: String::from_str(output),
        encoding: String::from_str(out_encoding),
    }
}

/// A job that cuts the part of `input` between `start` and `end` into `output`.
pub fn trim(input: &str, output: &str, start: &str, end: &str) -> (job: MediaJob)
    ensures
        job@ == (JobView::Trim { input: input@, output: output@, start: start@, end: end@ }),
{
    MediaJob::Trim {
        input: String::from_str(input),
        output: String::from_str(output),
        start: String::from_str(start),
        end: String::from_str(end),
    }
}

/// Adds one argument at the end of an argument vector.
fn push_text(arguments: &mut Vec<String>, text: &str)
    ensures
        texts(final(arguments)@) == texts(old(arguments)@).push(text@),
{
    arguments.push(String::from_str(text));
    proof {
        assert(texts(arguments@) =~= texts(old(arguments)@).push(text@));
    }
}

impl MediaJob {
    /// The path that the job writes to.
    pub fn output_path(&self) -> (path: &str)
        ensures
            path@ == job_output(self@),
    {
        match self {
            MediaJob::Remux { output, .. } => output.as_str(),
            MediaJob::Transcode { output, .. } => output.as_str(),
            MediaJob::Trim { output, .. } => output.as_str(),
        }
    }

    /// The arguments with which the external process is started for this job.
    pub fn arguments(&self) -> (arguments: Vec<String>)
        ensures
            texts(arguments@) == job_arguments(self@),
    {
        let mut arguments: Vec<String> = Vec::new();
        proof {
            assert(texts(arguments@) =~= Seq::<Seq<char>>::empty());
        }
        match self {
            MediaJob::Remux { input, output } => {
                push_text(&mut arguments, "-i");
                push_text(&mut arguments, input.as_str());
                push_text(&mut arguments, "-c");
                push_text(&mut arguments, "copy");
                push_text(&mut arguments, output.as_str());
                proof {
                    assert(texts(arguments@) =~= job_arguments(self@));
                }
            },
            MediaJob::Transcode { input, output, encoding } => {
                push_text(&mut arguments, "-i");
                push_text(&mut arguments, input.as_str());
                if !is_audio_only(output.as_str()) {
                    push_text(&mut arguments, "-c:v");
                    push_text(&mut arguments, "libx264");
                    push_text(&mut arguments, "-preset");
                    push_text(&mut arguments, "fast");
                    push_text(&mut arguments, "-crf");
                    push_text(&mut arguments, "22");
                }
                push_text(&mut arguments, "-c:a");
                push_text(&mut arguments, audio_codec(encoding.as_str()));
                push_text(&mut arguments, output.as_str());
                proof {
                    assert(texts(arguments@) =~= job_arguments(self@));
                }
            },
            MediaJob::Trim { input, output, start, end } => {
                push_text(&mut arguments, "-ss");
                push_text(&mut arguments, start.as_str());
                push_text(&mut arguments, "-i");
                push_text(&mut arguments, input.as_str());
                push_text(&mut arguments, "-to");
                push_text(&mut arguments, end.as_str());
                push_text(&mut arguments, "-c:v");
                push_text(&mut arguments, "copy");
                push_text(&mut arguments, "-c:a");
                push_text(&mut arguments, "copy");
                push_text(&mut arguments, output.as_str());
                proof {
                    assert(texts(arguments@) =~= job_arguments(self@));
                }
            },
        }
        arguments
    }

    /// What the caller gets once the attempt to run the job is over: the
    /// output path where the process ended with success, else an error. A
    /// process that ended without success gives an error that holds all of its
    /// diagnostic text and its exit code.
    pub fn conclude(&self, event: &JobEvent) -> (outcome: Result<String, MediaError>)
        ensures
            match event {
                JobEvent::SpawnFailed(reason) => outcome matches Err(e) && e.kind
                    == ErrorKind::Spawn && e.message@ == "Failed to spawn FFmpeg process: "@
                    + reason@ && e.exit_code.is_none(),
                JobEvent::WaitFailed(reason) => outcome matches Err(e) && e.kind == ErrorKind::Io
                    && e.message@ == "Failed to wait for FFmpeg process: "@ + reason@
                    && e.exit_code.is_none(),
                JobEvent::Exited(result) => if result.success {
                    outcome matches Ok(path) && path@ == job_output(self@)
                } else {
                    outcome matches Err(e) && e.kind == ErrorKind::ProcessExecution && e.message@
                        == "FFmpeg failed: "@ + result.diagnostic@ && e.exit_code
                        == result.exit_code
                },
            },
            outcome matches Err(e) ==> e.message@.len() > 0,
    {
        proof {
            reveal_strlit("Failed to spawn FFmpeg process: ");
            reveal_strlit("Failed to wait for FFmpeg process: ");
            reveal_strlit("FFmpeg failed: ");
        }
        match event {
            JobEvent::SpawnFailed(reason) => {
                let mut message: String = String::from_str("Failed to spawn FFmpeg process: ");
                message.append(reason.as_str());
                Err(MediaError { kind: ErrorKind::Spawn, message, exit_code: None })
            },
            JobEvent::WaitFailed(reason) => {
                let mut message: String = String::from_str("Failed to wait for FFmpeg process: ");
                message.append(reason.as_str());
                Err(MediaError { kind: ErrorKind::Io, message, exit_code: None })
            },
            JobEvent::Exited(result) => {
                if result.success {
                    Ok(String::from_str(self.output_path()))
                } else {
                    let mut message: String = String::from_str("FFmpeg failed: ");
                    message.append(result.diagnostic.as_str());
                    Err(
                        MediaError {
                            kind: ErrorKind::ProcessExecution,
                            message,
                            exit_code: result.exit_code,
                        },
                    )
                }
            },
        }
    }
}

/// A path ends, capitals made small, with a dot and an extension that holds
/// no dot exactly when what stands after its last dot is that extension,
/// capitals made small.
proof fn lemma_suffix_is_extension(path: Seq<char>, suffix: Seq<char>)
    requires
        suffix.len() >= 1,
        suffix[0] == '.',
        forall|i: int| 1 <= i < suffix.len() ==> suffix[i] != '.',
    ensures
        ends_with_folded(path, suffix) <==> (last_dot(path) >= 0 && folded(after_last_dot(path))
            == suffix.subrange(1, suffix.len() as int)),
{
    let n = path.len() as int;
    let m = suffix.len() as int;
    let extension = suffix.subrange(1, m);
    lemma_last_dot(path);
    if ends_with_folded(path, suffix) {
        assert(fold_case(path[n - m + 0]) == suffix[0]);
        assert(path[n - m] == '.');
        assert forall|j: int| n - m < j < n implies path[j] != '.' by {
            let i = j - (n - m);
            assert(fold_case(path[n - m + i]) == suffix[i]);
        }
        lemma_last_dot_at(path, n - m);
        assert forall|i: int| 0 <= i < m - 1 implies folded(after_last_dot(path))[i]
            == extension[i] by {
            assert(fold_case(path[n - m + (i + 1)]) == suffix[i + 1]);
        }
        assert(folded(after_last_dot(path)) =~= extension);
    }
    if last_dot(path) >= 0 && folded(after_last_dot(path)) == extension {
        let k = last_dot(path);
        assert(folded(after_last_dot(path)).len() == n - k - 1);
        assert(extension.len() == m - 1);
        assert(k == n - m);
        assert forall|i: int| 0 <= i < m implies fold_case(#[trigger] path[n - m + i])
            == suffix[i] by {
            if i > 0 {
                assert(folded(after_last_dot(path))[i - 1] == extension[i - 1]);
                assert(after_last_dot(path)[i - 1] == path[k + 1 + (i - 1)]);
            }
        }
    }
}

/// An output path is audio-only exactly when it has a dot and what stands after
/// its last dot is, capitals made small, one of the audio-only extensions.
pub proof fn lemma_audio_only_by_extension(output: Seq<char>)
    ensures
        is_audio_only_path(output) <==> (last_dot(output) >= 0 && is_audio_extension(
            folded(after_last_dot(output)),
        )),
{
    reveal_strlit(".mp3");
    reveal_strlit(".wav");
    reveal_strlit(".m4a");
    reveal_strlit(".aac");
    reveal_strlit(".flac");
    reveal_strlit(".ogg");
    reveal_strlit(".opus");
    reveal_strlit("mp3");
    reveal_strlit("wav");
    reveal_strlit("m4a");
    reveal_strlit("aac");
    reveal_strlit("flac");
    reveal_strlit("ogg");
    reveal_strlit("opus");
    assert(".mp3"@.subrange(1, 4) =~= "mp3"@);
    assert(".wav"@.subrange(1, 4) =~= "wav"@);
    assert(".m4a"@.subrange(1, 4) =~= "m4a"@);
    assert(".aac"@.subrange(1, 4) =~= "aac"@);
    assert(".flac"@.subrange(1, 5) =~= "flac"@);
    assert(".ogg"@.subrange(1, 4) =~= "ogg"@);
    assert(".opus"@.subrange(1, 5) =~= "opus"@);
    lemma_suffix_is_extension(output, ".mp3"@);
    lemma_suffix_is_extension(output, ".wav"@);
    lemma_suffix_is_extension(output, ".m4a"@);
    lemma_suffix_is_extension(output, ".aac"@);
    lemma_suffix_is_extension(output, ".flac"@);
    lemma_suffix_is_extension(output, ".ogg"@);
    lemma_suffix_is_extension(output, ".opus"@);
}

/// A transcode into a path with an audio-only extension, in capitals or small
/// letters, has no video arguments; into any other path it has them all,
/// between the input and the audio codec.
pub proof fn lemma_transcode_video_arguments(
    input: Seq<char>,
    output: Seq<char>,
    encoding: Seq<char>,
)
    ensures
        last_dot(output) >= 0 && is_audio_extension(folded(after_last_dot(output)))
            ==> job_arguments(JobView::Transcode { input, output, encoding }) == seq![
            "-i"@,
            input,
            "-c:a"@,
            codec_for(encoding),
            output,
        ],
        !(last_dot(output) >= 0 && is_audio_extension(folded(after_last_dot(output))))
            ==> job_arguments(JobView::Transcode { input, output, encoding }) == seq![
            "-i"@,
            input,
            "-c:v"@,
            "libx264"@,
            "-preset"@,
            "fast"@,
            "-crf"@,
            "22"@,
            "-c:a"@,
            codec_for(encoding),
            output,
        ],
{
    lemma_audio_only_by_extension(output);
    assert(seq!["-i"@, input] + video_arguments() + seq!["-c:a"@, codec_for(encoding), output]
        =~= seq![
        "-i"@,
        input,
        "-c:v"@,
        "libx264"@,
        "-preset"@,
        "fast"@,
        "-crf"@,
        "22"@,
        "-c:a"@,
        codec_for(encoding),
        output,
    ]);
}

/// Each known encoding selects its own codec, and every other text selects AAC.
pub proof fn lemma_codec_lookup(encoding: Seq<char>)
    ensures
        encoding == "mp3"@ ==> codec_for(encoding) == "libmp3lame"@,
        encoding == "wav"@ ==> codec_for(encoding) == "pcm_s16le"@,
        encoding == "m4a"@ ==> codec_for(encoding) == "aac"@,
        encoding == "aac"@ ==> codec_for(encoding) == "aac"@,
        encoding == "flac"@ ==> codec_for(encoding) == "flac"@,
        encoding == "ogg"@ ==> codec_for(encoding) == "libvorbis"@,
        encoding == "opus"@ ==> codec_for(encoding) == "libopus"@,
        !is_audio_extension(encoding) ==> codec_for(encoding) == "aac"@,
{
    reveal_strlit("mp3");
    reveal_strlit("wav");
    reveal_strlit("m4a");
    reveal_strlit("aac");
    reveal_strlit("flac");
    reveal_strlit("ogg");
    reveal_strlit("opus");
    assert("mp3"@[1] == 'p' && "m4a"@[1] == '4');
    assert("mp3"@[0] == 'm' && "wav"@[0] == 'w' && "aac"@[0] == 'a' && "flac"@[0] == 'f'
        && "ogg"@[0] == 'o');
    assert("ogg"@.len() == 3 && "opus"@.len() == 4);
}

} // verus!
