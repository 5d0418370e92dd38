//! The calls into `ffmpeg_sidecar` that the library makes itself.

use vstd::prelude::*;

verus! {

/// The error type of `anyhow`, in which `ffmpeg_sidecar` reports its failures.
/// Nothing is known of what a value of it holds.
#[verifier::external_type_specification]
#[verifier::external_body]
pub struct ExAnyhowError(anyhow::Error);

/// Calls `ffmpeg_sidecar::download::ffmpeg_download_url`, which picks the URL
/// of the release archive for the platform that the program was built for, or
/// fails on a platform that it knows no archive for. Nothing is claimed of the
/// answer: it differs from platform to platform.
#[verifier::external_body]
pub(crate) fn platform_download_url() -> (answer: Result<String, anyhow::Error>) {
    match ffmpeg_sidecar::download::ffmpeg_download_url() {
        Ok(url) => Ok(url.to_string()),
        Err(error) => Err(error),
    }
}

/// Calls `to_string` on an `anyhow::Error`, which renders the error's own
/// message. Nothing is claimed of the text.
#[verifier::external_body]
pub(crate) fn error_text(error: &anyhow::Error) -> (text: String) {
    error.to_string()
}

} // verus!
