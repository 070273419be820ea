//! Events carried by the single channel from the worker and the
//! presentation layer to the controller.

use vstd::prelude::*;
use crate::stage::StageId;

verus! {

/// A link the user may ask to open in a browser.
#[derive(Clone, Copy, Debug, PartialEq, Eq, Structural)]
pub enum LinkKind {
    Credits,
    Changelog,
}

/// Why a pipeline stage failed. Cleanup failures are swallowed by the
/// pipeline and never surface through this type.
#[derive(Clone, Copy, Debug, PartialEq, Eq, Structural)]
pub enum InstallError {
    /// The destination path vanished or became unwritable before the run.
    Validation,
    /// Unreachable host, timeout, or truncated transfer during a download.
    Network,
    /// Corrupt archive, unsupported format, unsafe path entry, or a
    /// disk-write failure during extraction.
    Archive,
}

impl InstallError {
    /// A short description for user-visible reporting.
    pub fn describe(&self) -> (r: &'static str) {
        match self {
            InstallError::Validation => "destination folder is missing or not writable",
            InstallError::Network => "download failed: network unreachable, timed out, or truncated",
            InstallError::Archive => "archive is corrupt, unsafe, or could not be written to disk",
        }
    }
}

/// The single terminal result of one pipeline run.
#[derive(Clone, Copy, Debug, PartialEq, Eq, Structural)]
pub enum PipelineOutcome {
    Success,
    Aborted,
    Failed(InstallError),
}

/// One message on the event channel. Progress fractions are fixed-point:
/// `ProgressUpdate(u)` stands for the fraction `u / PROGRESS_SCALE`,
/// so `u` always lies in `[0, PROGRESS_SCALE]`.
#[derive(Clone, Copy, Debug, PartialEq, Eq, Structural)]
pub enum Event {
    // Engine-status events, sent by the worker.
    ProgressUpdate(u32),
    StageChanged(StageId),
    Failed,
    Aborted,
    Completed,
    // User-intent events, sent by the presentation layer.
    RequestNextPage,
    RequestPrevPage,
    RequestDirPick,
    ToggleVariant,
    ToggleOptionalAssets,
    ToggleVolume,
    RequestInstallStart,
    RequestClose,
    RequestOpenLink(LinkKind),
}

/// The three run-terminating events.
pub open spec fn is_terminal_event(e: Event) -> bool {
    e is Failed || e is Aborted || e is Completed
}

/// The terminal event that reports a given outcome.
pub open spec fn terminal_event_of(o: PipelineOutcome) -> Event {
    match o {
        PipelineOutcome::Success => Event::Completed,
        PipelineOutcome::Aborted => Event::Aborted,
        PipelineOutcome::Failed(_) => Event::Failed,
    }
}

} // verus!
