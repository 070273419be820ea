//! The controller's event loop logic.
//!
//! The controller consumes one event at a time from the channel and decides
//! what changes in the shared state, the screen position, and the worker
//! slot, and what one action the presentation and lifecycle collaborators
//! must perform next. `dispatch_spec` is the full dispatch table;
//! `handle_event` is proved against it. Actions that involve blocking work
//! (joining the worker) only clear the slot here and tell the embedding to
//! join; starting a worker afterwards goes through `launch_worker`, whose
//! precondition rules out a second live worker.

use vstd::prelude::*;
use crate::event::Event;
use crate::event::LinkKind;
use crate::stage::StageId;
use crate::state::InstallState;
use crate::worker::WorkerConfig;
use crate::worker::WorkerSlot;
use crate::worker::snapshot_config;

verus! {

/// How many screens the back/continue buttons walk through.
pub const SCREEN_COUNT: usize = 5;

/// What the collaborators must do after one dispatched event. At most one
/// action follows each event.
#[derive(Clone, Copy, Debug, PartialEq, Eq, Structural)]
pub enum Action {
    /// Nothing to perform.
    Idle,
    /// Move the progress display to this fraction of the scale.
    SetProgress(u32),
    /// Relabel the progress display for this stage.
    SetStageLabel(StageId),
    /// Hide the previous screen and show this one.
    ShowScreen(usize),
    /// Run the directory picker, then hand its result to
    /// `apply_dir_selection`.
    PickDirectory,
    /// Set playback to this volume and redraw the current screen.
    SetAudioVolume(u32),
    /// Start an install: warn (advisory) if the destination fails the domain
    /// validator, enqueue `RequestNextPage`, join the previous worker if
    /// `need_join`, then call `launch_worker` and spawn the pipeline against
    /// the returned snapshot.
    BeginInstall { need_join: bool },
    /// A run failed: join the worker if `need_join`, show the error that
    /// `cleanup_result` yields (if any), then enqueue `RequestClose`.
    FailureCleanup { need_join: bool },
    /// A run was aborted: join the worker if `need_join`, then show the
    /// abort screen. No alert: an abort is not an error.
    AbortCleanup { need_join: bool },
    /// A run completed: show the done screen.
    ShowDoneScreen,
    /// Open this link in the browser.
    OpenLink(LinkKind),
    /// Leave the event loop.
    Exit,
}

/// The controller's own state: screen position, shared install state, and
/// the worker slot.
pub struct Controller {
    /// The screen currently shown, an index below `SCREEN_COUNT`.
    pub screen: usize,
    /// The shared install state.
    pub state: InstallState,
    /// Whether a worker handle is live.
    pub worker: WorkerSlot,
}

/// `s` with the abort flag raised and everything else kept.
pub open spec fn with_abort(s: InstallState) -> InstallState {
    InstallState { abort_requested: true, ..s }
}

/// The dispatch table: how one event takes the controller from `pre` to
/// `post` with follow-up action `a`.
pub open spec fn dispatch_spec(pre: Controller, post: Controller, ev: Event, a: Action) -> bool {
    match ev {
        // Engine-status events.
        Event::ProgressUpdate(v) => post == pre && a == Action::SetProgress(v),
        Event::StageChanged(s) => post == pre && a == Action::SetStageLabel(s),
        Event::Failed => {
            &&& post.state == with_abort(pre.state)
            &&& post.screen == pre.screen
            &&& !post.worker.active
            &&& a == (Action::FailureCleanup { need_join: pre.worker.active })
        },
        Event::Aborted => {
            &&& post.state == with_abort(pre.state)
            &&& post.screen == pre.screen
            &&& !post.worker.active
            &&& a == (Action::AbortCleanup { need_join: pre.worker.active })
        },
        Event::Completed => {
            &&& post.state == with_abort(pre.state)
            &&& post.screen == pre.screen
            &&& post.worker == pre.worker
            &&& a == Action::ShowDoneScreen
        },
        // User-intent events.
        Event::RequestNextPage => {
            if pre.screen + 1 < SCREEN_COUNT {
                post == (Controller { screen: (pre.screen + 1) as usize, ..pre }) && a
                    == Action::ShowScreen((pre.screen + 1) as usize)
            } else {
                post == pre && a == Action::Idle
            }
        },
        Event::RequestPrevPage => {
            if pre.screen > 0 {
                post == (Controller { screen: (pre.screen - 1) as usize, ..pre }) && a
                    == Action::ShowScreen((pre.screen - 1) as usize)
            } else {
                post == pre && a == Action::Idle
            }
        },
        Event::RequestDirPick => post == pre && a == Action::PickDirectory,
        Event::ToggleVariant => {
            &&& post.state.deluxe_variant == !pre.state.deluxe_variant
            &&& post.state.destination == pre.state.destination
            &&& post.state.include_optional_assets == pre.state.include_optional_assets
            &&& post.state.volume == pre.state.volume
            &&& post.state.abort_requested == pre.state.abort_requested
            &&& post.screen == pre.screen
            &&& post.worker == pre.worker
            &&& a == Action::Idle
        },
        Event::ToggleOptionalAssets => {
            &&& post.state.include_optional_assets == !pre.state.include_optional_assets
            &&& post.state.destination == pre.state.destination
            &&& post.state.deluxe_variant == pre.state.deluxe_variant
            &&& post.state.volume == pre.state.volume
            &&& post.state.abort_requested == pre.state.abort_requested
            &&& post.screen == pre.screen
            &&& post.worker == pre.worker
            &&& a == Action::Idle
        },
        Event::ToggleVolume => {
            &&& post.state.volume == (if pre.state.volume == 0 {
                crate::state::FULL_VOLUME
            } else {
                0u32
            })
            &&& post.state.destination == pre.state.destination
            &&& post.state.deluxe_variant == pre.state.deluxe_variant
            &&& post.state.include_optional_assets == pre.state.include_optional_assets
            &&& post.state.abort_requested == pre.state.abort_requested
            &&& post.screen == pre.screen
            &&& post.worker == pre.worker
            &&& a == Action::SetAudioVolume(post.state.volume)
        },
        Event::RequestInstallStart => {
            &&& post.state == pre.state
            &&& post.screen == pre.screen
            &&& !post.worker.active
            &&& a == (Action::BeginInstall { need_join: pre.worker.active })
        },
        Event::RequestClose => post == pre && a == Action::Exit,
        Event::RequestOpenLink(k) => post == pre && a == Action::OpenLink(k),
    }
}

impl Controller {
    /// Screen index in range, state well-formed.
    pub open spec fn wf(self) -> bool {
        &&& self.screen < SCREEN_COUNT
        &&& self.state.wf()
    }

    /// A fresh session on the first screen, with default choices and no
    /// worker.
    pub fn new(initial_destination: String) -> (c: Self)
        ensures
            c.wf(),
            c.screen == 0,
            c.state.destination == initial_destination,
            !c.state.deluxe_variant,
            !c.state.include_optional_assets,
            c.state.volume == crate::state::FULL_VOLUME,
            !c.state.abort_requested,
            !c.worker.active,
    {
        Controller {
            screen: 0,
            state: InstallState::new(initial_destination),
            worker: WorkerSlot::new(),
        }
    }

    /// Dispatches one event: mutates the controller as the dispatch table
    /// says and returns the one action the collaborators must perform.
    pub fn handle_event(&mut self, ev: Event) -> (a: Action)
        requires
            old(self).wf(),
        ensures
            final(self).wf(),
            dispatch_spec(*old(self), *final(self), ev, a),
    {
        match ev {
            Event::ProgressUpdate(v) => Action::SetProgress(v),
            Event::StageChanged(s) => Action::SetStageLabel(s),
            Event::Failed => {
                self.state.request_abort();
                let need_join = self.worker.begin_cleanup();
                Action::FailureCleanup { need_join }
            },
            Event::Aborted => {
                self.state.request_abort();
                let need_join = self.worker.begin_cleanup();
                Action::AbortCleanup { need_join }
            },
            Event::Completed => {
                self.state.request_abort();
                Action::ShowDoneScreen
            },
            Event::RequestNextPage => {
                if self.screen + 1 < SCREEN_COUNT {
                    self.screen = self.screen + 1;
                    Action::ShowScreen(self.screen)
                } else {
                    Action::Idle
                }
            },
            Event::RequestPrevPage => {
                if self.screen > 0 {
                    self.screen = self.screen - 1;
                    Action::ShowScreen(self.screen)
                } else {
                    Action::Idle
                }
            },
            Event::RequestDirPick => Action::PickDirectory,
            Event::ToggleVariant => {
                self.state.toggle_deluxe_variant();
                Action::Idle
            },
            Event::ToggleOptionalAssets => {
                self.state.toggle_optional_assets();
                Action::Idle
            },
            Event::ToggleVolume => {
                let v = self.state.toggle_volume();
                Action::SetAudioVolume(v)
            },
            Event::RequestInstallStart => {
                let need_join = self.worker.begin_cleanup();
                Action::BeginInstall { need_join }
            },
            Event::RequestClose => Action::Exit,
            Event::RequestOpenLink(k) => Action::OpenLink(k),
        }
    }

    /// Jumps to a screen by index: out-of-range indices are ignored.
    pub fn change_screen(&mut self, new_id: usize) -> (changed: bool)
        requires
            old(self).wf(),
        ensures
            final(self).wf(),
            changed == (new_id < SCREEN_COUNT),
            changed ==> *final(self) == (Controller { screen: new_id, ..*old(self) }),
            !changed ==> *final(self) == *old(self),
    {
        if new_id < SCREEN_COUNT {
            self.screen = new_id;
            true
        } else {
            false
        }
    }

    /// Starts a worker against the current choices. The precondition is the
    /// lifecycle guarantee: the previous worker must already be cleaned up,
    /// which every dispatch path establishes before any start. The new run
    /// begins with no abort pending; within the run the flag is only ever
    /// raised.
    pub fn launch_worker(&mut self) -> (cfg: WorkerConfig)
        requires
            old(self).wf(),
            !old(self).worker.active,
        ensures
            final(self).wf(),
            final(self).worker.active,
            !final(self).state.abort_requested,
            final(self).state.destination == old(self).state.destination,
            final(self).state.deluxe_variant == old(self).state.deluxe_variant,
            final(self).state.include_optional_assets == old(self).state.include_optional_assets,
            final(self).state.volume == old(self).state.volume,
            final(self).screen == old(self).screen,
            cfg.destination@ == old(self).state.destination@,
            cfg.deluxe_variant == old(self).state.deluxe_variant,
            cfg.include_optional_assets == old(self).state.include_optional_assets,
    {
        let cfg = snapshot_config(&self.state);
        self.state.abort_requested = false;
        self.worker.mark_started();
        cfg
    }

    /// Hands in the directory picker's result together with what the
    /// filesystem collaborator observed about it; the destination changes
    /// exactly when the pick is an existing, non-root directory.
    pub fn apply_dir_selection(&mut self, dir: String, is_dir: bool, has_parent: bool) -> (updated:
        bool)
        requires
            old(self).wf(),
        ensures
            final(self).wf(),
            updated == (is_dir && has_parent),
            updated ==> final(self).state.destination == dir,
            !updated ==> final(self).state.destination == old(self).state.destination,
            final(self).state.deluxe_variant == old(self).state.deluxe_variant,
            final(self).state.include_optional_assets == old(self).state.include_optional_assets,
            final(self).state.volume == old(self).state.volume,
            final(self).state.abort_requested == old(self).state.abort_requested,
            final(self).screen == old(self).screen,
            final(self).worker == old(self).worker,
    {
        self.state.set_destination(dir, is_dir, has_parent)
    }
}

} // verus!
