//! The worker lifecycle.
//!
//! At most one pipeline worker exists at a time. The slot here tracks
//! whether a handle is live; the embedding owns the real task handle and the
//! blocking join. Cleanup is split around that join: `begin_cleanup` clears
//! the slot and says whether there is a task to join; the embedding joins it
//! (or does nothing) and converts what came back with `cleanup_result`. With
//! no live worker, `begin_cleanup` asks for no join, so cleanup of a
//! never-started worker does not block and reports no error.

use vstd::prelude::*;
use crate::event::InstallError;
use crate::event::PipelineOutcome;
use crate::state::InstallState;

verus! {

/// What joining the worker task yielded: its reported outcome, or an
/// abnormal termination (a crash inside the task), which carries no
/// structured error.
#[derive(Clone, Copy, Debug, PartialEq, Eq, Structural)]
pub enum JoinOutcome {
    Finished(PipelineOutcome),
    Panicked,
}

/// The snapshot of the shared state a worker runs against.
pub struct WorkerConfig {
    /// Where the install unpacks.
    pub destination: String,
    /// Standard vs. deluxe variant.
    pub deluxe_variant: bool,
    /// Whether the optional-asset stages run.
    pub include_optional_assets: bool,
}

/// Tracks whether a worker handle is live.
pub struct WorkerSlot {
    /// True between start and cleanup of one worker.
    pub active: bool,
}

impl WorkerSlot {
    /// A fresh slot: no worker was ever started.
    pub fn new() -> (s: Self)
        ensures
            !s.active,
    {
        WorkerSlot { active: false }
    }

    /// First half of cleanup: clears the slot and says whether a live task
    /// remains to be joined. With no live worker this asks for no join, so
    /// nothing blocks.
    pub fn begin_cleanup(&mut self) -> (need_join: bool)
        ensures
            !final(self).active,
            need_join == old(self).active,
    {
        let need_join = self.active;
        self.active = false;
        need_join
    }

    /// Marks a worker started. The previous worker must already be cleaned
    /// up: two live workers are a programming error this precondition rules
    /// out.
    pub fn mark_started(&mut self)
        requires
            !old(self).active,
        ensures
            final(self).active,
    {
        self.active = true;
    }
}

/// Second half of cleanup: converts what the join (if any) yielded into the
/// single reportable error. Only a run that reported `Failed` yields an
/// error; success, abort, no join, and an abnormal termination (which has no
/// structured error to show) yield none.
pub fn cleanup_result(joined: Option<JoinOutcome>) -> (r: Option<InstallError>)
    ensures
        r == (match joined {
            Some(JoinOutcome::Finished(PipelineOutcome::Failed(e))) => Some(e),
            _ => None,
        }),
{
    match joined {
        Some(JoinOutcome::Finished(PipelineOutcome::Failed(e))) => Some(e),
        _ => None,
    }
}

/// The snapshot a new worker runs against: the shared state's choices at
/// start time.
pub fn snapshot_config(state: &InstallState) -> (cfg: WorkerConfig)
    ensures
        cfg.destination@ == state.destination@,
        cfg.deluxe_variant == state.deluxe_variant,
        cfg.include_optional_assets == state.include_optional_assets,
{
    WorkerConfig {
        destination: state.destination.clone(),
        deluxe_variant: state.deluxe_variant,
        include_optional_assets: state.include_optional_assets,
    }
}

} // verus!
