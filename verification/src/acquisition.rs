//! The acquisition pipeline: the steps that make sure the binary is on the
//! host, as a state machine. The caller performs the work of the pending stage
//! and reports what happened; the machine decides what comes next.

use crate::error::{ErrorKind, MediaError};
use vstd::prelude::*;
use vstd::string::*;

verus! {

/// A stage of the pipeline, named after the work that is due in it.
#[derive(Clone, Copy, Debug, PartialEq, Eq, Structural)]
pub enum Stage {
    /// Look for the binary on the search path.
    ProbeInstalled,
    /// Find the URL of the archive for this platform.
    ResolveSource,
    /// Find the directory to install into, and create it if it is absent.
    ResolveDestination,
    /// Create and remove a probe file in the destination.
    EnsureWritableDestination,
    /// Fetch the archive.
    Download,
    /// Measure the archive.
    VerifyArchiveNonEmpty,
    /// Unpack the archive into the destination.
    Extract,
    /// Find the binary among the unpacked files.
    LocateBinary,
    /// Ask the binary for its version.
    VerifyVersion,
}

/// How a pipeline that succeeded came to its end.
#[derive(Clone, Copy, Debug, PartialEq, Eq, Structural)]
pub enum Completion {
    /// The binary was on the search path already; nothing was fetched.
    AlreadyInstalled,
    /// The binary was installed and answered the version query.
    Verified,
    /// The binary was installed but did not answer the version query.
    Unverified,
}

/// What the caller reports of the work of the pending stage.
#[derive(Clone, Copy, Debug, PartialEq, Eq, Structural)]
pub enum Event {
    Installed,
    NotInstalled,
    SourceResolved,
    DestinationResolved,
    DestinationWritable,
    Downloaded,
    /// The size of the archive in bytes.
    ArchiveMeasured(u64),
    Extracted,
    BinaryLocated,
    BinaryMissing,
    VersionVerified,
    /// The work of the pending stage failed.
    StepFailed,
}

/// The state of the pipeline.
#[derive(Clone, Copy, Debug, PartialEq, Eq, Structural)]
pub enum Pipeline {
    /// The work of this stage is due.
    Running(Stage),
    /// The pipeline succeeded.
    Done(Completion),
    /// The pipeline was aborted in this stage, with an error of this kind.
    Failed(Stage, ErrorKind),
}

/// Where the binary was found among the unpacked files.
#[derive(Clone, Copy, Debug, PartialEq, Eq, Structural)]
pub enum BinaryLocation {
    /// Directly in the destination directory.
    Flat,
    /// In the subdirectory with this index.
    Nested(usize),
    /// Nowhere.
    Missing,
}

/// The state after an event. An event that does not answer the pending stage
/// changes nothing, and neither does any event once the pipeline has ended.
pub open spec fn step(state: Pipeline, event: Event) -> Pipeline {
    match state {
        Pipeline::Running(Stage::ProbeInstalled) => match event {
            Event::Installed => Pipeline::Done(Completion::AlreadyInstalled),
            Event::NotInstalled => Pipeline::Running(Stage::ResolveSource),
            _ => state,
        },
        Pipeline::Running(Stage::ResolveSource) => match event {
            Event::SourceResolved => Pipeline::Running(Stage::ResolveDestination),
            Event::StepFailed => Pipeline::Failed(Stage::ResolveSource, ErrorKind::Network),
            _ => state,
        },
        Pipeline::Running(Stage::ResolveDestination) => match event {
            Event::DestinationResolved => Pipeline::Running(Stage::EnsureWritableDestination),
            Event::StepFailed => Pipeline::Failed(Stage::ResolveDestination, ErrorKind::Io),
            _ => state,
        },
        Pipeline::Running(Stage::EnsureWritableDestination) => match event {
            Event::DestinationWritable => Pipeline::Running(Stage::Download),
            Event::StepFailed => Pipeline::Failed(
                Stage::EnsureWritableDestination,
                ErrorKind::Permission,
            ),
            _ => state,
        },
        Pipeline::Running(Stage::Download) => match event {
            Event::Downloaded => Pipeline::Running(Stage::VerifyArchiveNonEmpty),
            Event::StepFailed => Pipeline::Failed(Stage::Download, ErrorKind::Network),
            _ => state,
        },
        Pipeline::Running(Stage::VerifyArchiveNonEmpty) => match event {
            Event::ArchiveMeasured(byte_size) => if byte_size == 0 {
                Pipeline::Failed(Stage::VerifyArchiveNonEmpty, ErrorKind::CorruptArchive)
            } else {
                Pipeline::Running(Stage::Extract)
            },
            Event::StepFailed => Pipeline::Failed(Stage::VerifyArchiveNonEmpty, ErrorKind::Io),
            _ => state,
        },
        Pipeline::Running(Stage::Extract) => match event {
            Event::Extracted => Pipeline::Running(Stage::LocateBinary),
            Event::StepFailed => Pipeline::Failed(Stage::Extract, ErrorKind::CorruptArchive),
            _ => state,
        },
        Pipeline::Running(Stage::LocateBinary) => match event {
            Event::BinaryLocated => Pipeline::Running(Stage::VerifyVersion),
            Event::BinaryMissing => Pipeline::Failed(
                Stage::LocateBinary,
                ErrorKind::BinaryNotFound,
            ),
            Event::StepFailed => Pipeline::Failed(Stage::LocateBinary, ErrorKind::Io),
            _ => state,
        },
        Pipeline::Running(Stage::VerifyVersion) => match event {
            Event::VersionVerified => Pipeline::Done(Completion::Verified),
            Event::StepFailed => Pipeline::Done(Completion::Unverified),
            _ => state,
        },
        _ => state,
    }
}

/// The state after a sequence of events, taken in order.
pub open spec fn run(state: Pipeline, events: Seq<Event>) -> Pipeline
    decreases events.len(),
{
    if events.len() == 0 {
        state
    } else {
        run(step(state, events[0]), events.drop_first())
    }
}

/// The place of a state in the order of the pipeline: the stages in their
/// order, then the two ends.
pub open spec fn progress(state: Pipeline) -> nat {
    match state {
        Pipeline::Running(Stage::ProbeInstalled) => 0,
        Pipeline::Running(Stage::ResolveSource) => 1,
        Pipeline::Running(Stage::ResolveDestination) => 2,
        Pipeline::Running(Stage::EnsureWritableDestination) => 3,
        Pipeline::Running(Stage::Download) => 4,
        Pipeline::Running(Stage::VerifyArchiveNonEmpty) => 5,
        Pipeline::Running(Stage::Extract) => 6,
        Pipeline::Running(Stage::LocateBinary) => 7,
        Pipeline::Running(Stage::VerifyVersion) => 8,
        _ => 9,
    }
}

/// The words that open the message of a failure in a stage.
pub open spec fn failure_prefix(stage: Stage, kind: ErrorKind) -> Seq<char> {
    match stage {
        Stage::ProbeInstalled => "Failed to probe for FFmpeg: "@,
        Stage::ResolveSource => "Failed to get download URL: "@,
        Stage::ResolveDestination => "Failed to create destination directory: "@,
        Stage::EnsureWritableDestination => "No write permissions for destination: "@,
        Stage::Download => "Failed to download FFmpeg package: "@,
        Stage::VerifyArchiveNonEmpty => if kind == ErrorKind::CorruptArchive {
            "Downloaded archive is empty: "@
        } else {
            "Cannot access downloaded archive: "@
        },
        Stage::Extract => "Failed to extract FFmpeg package: "@,
        Stage::LocateBinary => "FFmpeg executable not found: "@,
        Stage::VerifyVersion => "Failed to get FFmpeg version: "@,
    }
}

/// The first position at which a flag is set, or the length where none is.
pub open spec fn first_set(flags: Seq<bool>) -> int
    decreases flags.len(),
{
    if flags.len() == 0 {
        0
    } else if flags[0] {
        0
    } else {
        1 + first_set(flags.drop_first())
    }
}

/// Where the binary is, given whether it lies directly in the destination and,
/// for each subdirectory of the destination, whether it lies in there: the
/// destination itself comes first, then the first subdirectory that holds it.
pub open spec fn location_of(flat_present: bool, nested_present: Seq<bool>) -> BinaryLocation {
    if flat_present {
        BinaryLocation::Flat
    } else if first_set(nested_present) < nested_present.len() {
        BinaryLocation::Nested(first_set(nested_present) as usize)
    } else {
        BinaryLocation::Missing
    }
}

/// The first set flag is set, and none before it is.
pub proof fn lemma_first_set(flags: Seq<bool>)
    ensures
        0 <= first_set(flags) <= flags.len(),
        first_set(flags) < flags.len() ==> flags[first_set(flags)],
        forall|j: int| 0 <= j < first_set(flags) ==> !flags[j],
    decreases flags.len(),
{
    if flags.len() > 0 && !flags[0] {
        let rest = flags.drop_first();
        lemma_first_set(rest);
        assert forall|j: int| 0 <= j < first_set(flags) implies !flags[j] by {
            if j > 0 {
                assert(rest[j - 1] == flags[j]);
            }
        }
    }
}

/// A position whose flag is set, with no flag set before it, is the first.
pub proof fn lemma_first_set_at(flags: Seq<bool>, k: int)
    requires
        0 <= k <= flags.len(),
        k < flags.len() ==> flags[k],
        forall|j: int| 0 <= j < k ==> !flags[j],
    ensures
        first_set(flags) == k,
{
    lemma_first_set(flags);
}

/// The pipeline before anything was done: the probe is due.
pub fn init() -> (state: Pipeline)
    ensures
        state == Pipeline::Running(Stage::ProbeInstalled),
{
    Pipeline::Running(Stage::ProbeInstalled)
}

/// Decides where the binary is among the unpacked files.
pub fn locate_binary(flat_present: bool, nested_present: &Vec<bool>) -> (location: BinaryLocation)
    ensures
        location == location_of(flat_present, nested_present@),
{
    if flat_present {
        return BinaryLocation::Flat;
    }
    let mut i: usize = 0;
    while i < nested_present.len()
        invariant
            !flat_present,
            i <= nested_present.len(),
            forall|j: int| 0 <= j < i ==> !nested_present@[j],
        decreases nested_present.len() - i,
    {
        if nested_present[i] {
            proof {
                lemma_first_set_at(nested_present@, i as int);
            }
            return BinaryLocation::Nested(i);
        }
        i += 1;
    }
    proof {
        lemma_first_set_at(nested_present@, i as int);
    }
    BinaryLocation::Missing
}

impl Pipeline {
    /// The stage whose work is due, where the pipeline has not ended.
    pub fn pending(&self) -> (stage: Option<Stage>)
        ensures
            stage == (match *self {
                Pipeline::Running(s) => Some(s),
                _ => None,
            }),
    {
        match self {
            Pipeline::Running(s) => Some(*s),
            _ => None,
        }
    }

    /// The state after the caller reported `event`.
    pub fn advance(self, event: Event) -> (next: Pipeline)
        ensures
            next == step(self, event),
    {
        let stage: Stage = match self {
            Pipeline::Running(s) => s,
            _ => {
                return self;
            },
        };
        match stage {
            Stage::ProbeInstalled => match event {
                Event::Installed => Pipeline::Done(Completion::AlreadyInstalled),
                Event::NotInstalled => Pipeline::Running(Stage::ResolveSource),
                _ => self,
            },
            Stage::ResolveSource => match event {
                Event::SourceResolved => Pipeline::Running(Stage::ResolveDestination),
                Event::StepFailed => Pipeline::Failed(stage, ErrorKind::Network),
                _ => self,
            },
            Stage::ResolveDestination => match event {
                Event::DestinationResolved => Pipeline::Running(Stage::EnsureWritableDestination),
                Event::StepFailed => Pipeline::Failed(stage, ErrorKind::Io),
                _ => self,
            },
            Stage::EnsureWritableDestination => match event {
                Event::DestinationWritable => Pipeline::Running(Stage::Download),
                Event::StepFailed => Pipeline::Failed(stage, ErrorKind::Permission),
                _ => self,
            },
            Stage::Download => match event {
                Event::Downloaded => Pipeline::Running(Stage::VerifyArchiveNonEmpty),
                Event::StepFailed => Pipeline::Failed(stage, ErrorKind::Network),
                _ => self,
            },
            Stage::VerifyArchiveNonEmpty => match event {
                Event::ArchiveMeasured(byte_size) => {
                    if byte_size == 0 {
                        Pipeline::Failed(stage, ErrorKind::CorruptArchive)
                    } else {
                        Pipeline::Running(Stage::Extract)
                    }
                },
                Event::StepFailed => Pipeline::Failed(stage, ErrorKind::Io),
                _ => self,
            },
            Stage::Extract => match event {
                Event::Extracted => Pipeline::Running(Stage::LocateBinary),
                Event::StepFailed => Pipeline::Failed(stage, ErrorKind::CorruptArchive),
                _ => self,
            },
            Stage::LocateBinary => match event {
                Event::BinaryLocated => Pipeline::Running(Stage::VerifyVersion),
                Event::BinaryMissing => Pipeline::Failed(stage, ErrorKind::BinaryNotFound),
                Event::StepFailed => Pipeline::Failed(stage, ErrorKind::Io),
                _ => self,
            },
            Stage::VerifyVersion => match event {
                Event::VersionVerified => Pipeline::Done(Completion::Verified),
                Event::StepFailed => Pipeline::Done(Completion::Unverified),
                _ => self,
            },
        }
    }

    /// The error that an aborted pipeline hands to its caller: the kind that
    /// the failed stage gave it, and a message made of the stage's words and
    /// the reason. A pipeline that was not aborted has none.
    pub fn failure(&self, reason: &str) -> (error: Option<MediaError>)
        ensures
            match *self {
                Pipeline::Failed(stage, kind) => error matches Some(e) && e.kind == kind
                    && e.message@ == failure_prefix(stage, kind) + reason@
                    && e.exit_code.is_none(),
                _ => error.is_none(),
            },
    {
        match self {
            Pipeline::Failed(stage, kind) => {
                let mut message: String = String::from_str(prefix_text(*stage, *kind));
                message.append(reason);
                Some(MediaError { kind: *kind, message, exit_code: None })
            },
            _ => None,
        }
    }

    /// The warning that goes with a binary that was installed but did not
    /// answer the version query. Any other state has none.
    pub fn warning(&self, reason: &str) -> (warning: Option<MediaError>)
        ensures
            match *self {
                Pipeline::Done(Completion::Unverified) => warning matches Some(e) && e.kind
                    == ErrorKind::VersionCheckFailed && e.message@ == failure_prefix(
                    Stage::VerifyVersion,
                    ErrorKind::VersionCheckFailed,
                ) + reason@ && e.exit_code.is_none(),
                _ => warning.is_none(),
            },
    {
        match self {
            Pipeline::Done(Completion::Unverified) => {
                let mut message: String = String::from_str(
                    prefix_text(Stage::VerifyVersion, ErrorKind::VersionCheckFailed),
                );
                message.append(reason);
                Some(MediaError { kind: ErrorKind::VersionCheckFailed, message, exit_code: None })
            },
            _ => None,
        }
    }
}

/// The words that open the message of a failure in a stage.
pub(crate) fn prefix_text(stage: Stage, kind: ErrorKind) -> (text: &'static str)
    ensures
        text@ == failure_prefix(stage, kind),
{
    match stage {
        Stage::ProbeInstalled => "Failed to probe for FFmpeg: ",
        Stage::ResolveSource => "Failed to get download URL: ",
        Stage::ResolveDestination => "Failed to create destination directory: ",
        Stage::EnsureWritableDestination => "No write permissions for destination: ",
        Stage::Download => "Failed to download FFmpeg package: ",
        Stage::VerifyArchiveNonEmpty => {
            if kind == ErrorKind::CorruptArchive {
                "Downloaded archive is empty: "
            } else {
                "Cannot access downloaded archive: "
            }
        },
        Stage::Extract => "Failed to extract FFmpeg package: ",
        Stage::LocateBinary => "FFmpeg executable not found: ",
        Stage::VerifyVersion => "Failed to get FFmpeg version: ",
    }
}

/// Once the pipeline has ended, no event changes its state.
pub proof fn lemma_end_is_final(state: Pipeline, events: Seq<Event>)
    requires
        !(state is Running),
    ensures
        run(state, events) == state,
    decreases events.len(),
{
    if events.len() > 0 {
        lemma_end_is_final(state, events.drop_first());
    }
}

/// A binary found by the probe ends the pipeline at once, whatever is
/// reported afterwards.
pub proof fn lemma_installed_ends_pipeline(events: Seq<Event>)
    ensures
        run(Pipeline::Running(Stage::ProbeInstalled), seq![Event::Installed] + events)
            == Pipeline::Done(Completion::AlreadyInstalled),
{
    let all = seq![Event::Installed] + events;
    assert(all.drop_first() =~= events);
    assert(all[0] == Event::Installed);
    lemma_end_is_final(Pipeline::Done(Completion::AlreadyInstalled), events);
}

/// Events reported one after the other act like the two runs in a row.
pub proof fn lemma_run_append(state: Pipeline, first: Seq<Event>, second: Seq<Event>)
    ensures
        run(state, first + second) == run(run(state, first), second),
    decreases first.len(),
{
    if first.len() == 0 {
        assert(first + second =~= second);
    } else {
        assert((first + second).drop_first() =~= first.drop_first() + second);
        assert((first + second)[0] == first[0]);
        lemma_run_append(step(state, first[0]), first.drop_first(), second);
    }
}

/// Whenever the archive is to be measured and turns out to hold zero bytes,
/// the pipeline is aborted as corrupt, whatever is reported afterwards: the
/// extraction never becomes due.
pub proof fn lemma_empty_archive_aborts(state: Pipeline, before: Seq<Event>, after: Seq<Event>)
    requires
        run(state, before) == Pipeline::Running(Stage::VerifyArchiveNonEmpty),
    ensures
        run(state, before + seq![Event::ArchiveMeasured(0)] + after) == Pipeline::Failed(
            Stage::VerifyArchiveNonEmpty,
            ErrorKind::CorruptArchive,
        ),
{
    let measured = seq![Event::ArchiveMeasured(0)];
    let aborted = Pipeline::Failed(Stage::VerifyArchiveNonEmpty, ErrorKind::CorruptArchive);
    lemma_run_append(state, before + measured, after);
    lemma_run_append(state, before, measured);
    assert(measured.drop_first() =~= Seq::<Event>::empty());
    assert(measured[0] == Event::ArchiveMeasured(0));
    assert(run(run(state, before), measured) == run(aborted, measured.drop_first()));
    lemma_end_is_final(aborted, after);
}

/// Extraction becomes due only when an archive was measured and is not empty.
pub proof fn lemma_extract_needs_content(state: Pipeline, event: Event)
    requires
        step(state, event) == Pipeline::Running(Stage::Extract),
        state != Pipeline::Running(Stage::Extract),
    ensures
        state == Pipeline::Running(Stage::VerifyArchiveNonEmpty),
        event matches Event::ArchiveMeasured(byte_size) && byte_size > 0,
{
}

/// An event moves the pipeline forward or leaves it where it is: never back.
pub proof fn lemma_step_never_back(state: Pipeline, event: Event)
    ensures
        progress(step(state, event)) >= progress(state),
        step(state, event) != state ==> progress(step(state, event)) > progress(state),
{
}

/// A failed version query does not fail the pipeline: from the last stage
/// every event leads to success or changes nothing.
pub proof fn lemma_version_check_not_fatal(event: Event)
    ensures
        !(step(Pipeline::Running(Stage::VerifyVersion), event) is Failed),
        step(Pipeline::Running(Stage::VerifyVersion), Event::StepFailed) == Pipeline::Done(
            Completion::Unverified,
        ),
{
}

} // verus!
