//! Where the archive of the binary is fetched from.

use crate::acquisition::{failure_prefix, prefix_text, Stage};
use crate::error::{ErrorKind, MediaError};
use crate::platform::{error_text, platform_download_url};
use vstd::prelude::*;
use vstd::string::*;

verus! {

/// The download source that an answer about the platform's archive stands for:
/// the URL as it is, or a network error that holds the reason.
pub fn source_from(answer: Result<String, String>) -> (source: Result<String, MediaError>)
    ensures
        match answer {
            Ok(url) => source matches Ok(found) && found@ == url@,
            Err(reason) => source matches Err(e) && e.kind == ErrorKind::Network && e.message@
                == failure_prefix(Stage::ResolveSource, ErrorKind::Network) + reason@
                && e.exit_code.is_none(),
        },
{
    match answer {
        Ok(url) => Ok(url),
        Err(reason) => {
            let mut message: String = String::from_str(
                prefix_text(Stage::ResolveSource, ErrorKind::Network),
            );
            message.append(reason.as_str());
            Err(MediaError { kind: ErrorKind::Network, message, exit_code: None })
        },
    }
}

/// The URL of the archive for this platform. Which URL comes back, and whether
/// one does, is decided by the platform; a failure is always a network error
/// whose message is the words of the stage and then the reason.
pub fn resolve_source() -> (source: Result<String, MediaError>)
    ensures
        source matches Err(e) ==> e.kind == ErrorKind::Network && e.exit_code.is_none()
            && e.message@.len() > 0 && exists|reason: Seq<char>|
            e.message@ == #[trigger] (failure_prefix(Stage::ResolveSource, ErrorKind::Network)
                + reason),
{
    proof {
        reveal_strlit("Failed to get download URL: ");
    }
    match platform_download_url() {
        Ok(url) => source_from(Ok(url)),
        Err(error) => {
            let reason: String = error_text(&error);
            let source = source_from(Err(reason));
            proof {
                let message = source->Err_0.message@;
                assert(message == failure_prefix(Stage::ResolveSource, ErrorKind::Network)
                    + reason@);
            }
            source
        },
    }
}

} // verus!
