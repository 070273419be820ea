//! The controller's dispatch table, screen navigation bounds, the shared
//! state's toggles, and the worker lifecycle.

use installer_core::controller::{Action, Controller, SCREEN_COUNT};
use installer_core::event::{Event, InstallError, LinkKind, PipelineOutcome};
use installer_core::stage::StageId;
use installer_core::state::FULL_VOLUME;
use installer_core::worker::{cleanup_result, JoinOutcome, WorkerSlot};

fn fresh() -> Controller {
    Controller::new(String::from("/tmp/install-target"))
}

#[test]
fn navigation_stops_at_both_bounds() {
    let mut c = fresh();
    // Backward from the first screen is ignored.
    assert_eq!(c.handle_event(Event::RequestPrevPage), Action::Idle);
    assert_eq!(c.screen, 0);
    // Forward walks every screen, then sticks at the last one.
    for want in 1..SCREEN_COUNT {
        assert_eq!(
            c.handle_event(Event::RequestNextPage),
            Action::ShowScreen(want)
        );
    }
    assert_eq!(c.handle_event(Event::RequestNextPage), Action::Idle);
    assert_eq!(c.screen, SCREEN_COUNT - 1);
    assert_eq!(
        c.handle_event(Event::RequestPrevPage),
        Action::ShowScreen(SCREEN_COUNT - 2)
    );
}

#[test]
fn change_screen_ignores_out_of_range() {
    let mut c = fresh();
    assert!(c.change_screen(3));
    assert_eq!(c.screen, 3);
    assert!(!c.change_screen(SCREEN_COUNT));
    assert_eq!(c.screen, 3);
}

#[test]
fn toggles_flip_the_choices() {
    let mut c = fresh();
    assert_eq!(c.handle_event(Event::ToggleVariant), Action::Idle);
    assert!(c.state.deluxe_variant);
    assert_eq!(c.handle_event(Event::ToggleVariant), Action::Idle);
    assert!(!c.state.deluxe_variant);

    assert_eq!(c.handle_event(Event::ToggleOptionalAssets), Action::Idle);
    assert!(c.state.include_optional_assets);
}

#[test]
fn volume_toggles_between_muted_and_full() {
    let mut c = fresh();
    assert_eq!(c.state.volume, FULL_VOLUME);
    assert_eq!(
        c.handle_event(Event::ToggleVolume),
        Action::SetAudioVolume(0)
    );
    assert_eq!(
        c.handle_event(Event::ToggleVolume),
        Action::SetAudioVolume(FULL_VOLUME)
    );
}

#[test]
fn status_events_drive_the_presentation() {
    let mut c = fresh();
    assert_eq!(
        c.handle_event(Event::ProgressUpdate(4200)),
        Action::SetProgress(4200)
    );
    assert_eq!(
        c.handle_event(Event::StageChanged(StageId::ExtractingPrimary)),
        Action::SetStageLabel(StageId::ExtractingPrimary)
    );
    assert_eq!(c.handle_event(Event::RequestDirPick), Action::PickDirectory);
    assert_eq!(
        c.handle_event(Event::RequestOpenLink(LinkKind::Credits)),
        Action::OpenLink(LinkKind::Credits)
    );
    assert_eq!(c.handle_event(Event::RequestClose), Action::Exit);
}

#[test]
fn dir_selection_requires_an_existing_non_root_directory() {
    let mut c = fresh();
    let before = c.state.destination.clone();
    assert!(!c.apply_dir_selection(String::from("/nowhere"), false, true));
    assert_eq!(c.state.destination, before);
    assert!(!c.apply_dir_selection(String::from("/"), true, false));
    assert_eq!(c.state.destination, before);
    assert!(c.apply_dir_selection(String::from("/srv/games"), true, true));
    assert_eq!(c.state.destination, "/srv/games");
}

#[test]
fn cleanup_without_any_worker_is_a_silent_no_op() {
    let mut slot = WorkerSlot::new();
    // No worker was ever started: nothing to join, so nothing can block.
    assert!(!slot.begin_cleanup());
    assert_eq!(cleanup_result(None), None);
    // Idempotent: a second cleanup is just as silent.
    assert!(!slot.begin_cleanup());
    assert_eq!(cleanup_result(None), None);
}

#[test]
fn cleanup_surfaces_only_reported_failures() {
    assert_eq!(
        cleanup_result(Some(JoinOutcome::Finished(PipelineOutcome::Failed(
            InstallError::Network
        )))),
        Some(InstallError::Network)
    );
    assert_eq!(
        cleanup_result(Some(JoinOutcome::Finished(PipelineOutcome::Success))),
        None
    );
    assert_eq!(
        cleanup_result(Some(JoinOutcome::Finished(PipelineOutcome::Aborted))),
        None
    );
    // A crash inside the task has no structured error to show.
    assert_eq!(cleanup_result(Some(JoinOutcome::Panicked)), None);
}

#[test]
fn rapid_double_install_always_cleans_up_before_starting() {
    let mut c = fresh();
    // First install request: no worker yet, nothing to join.
    assert_eq!(
        c.handle_event(Event::RequestInstallStart),
        Action::BeginInstall { need_join: false }
    );
    assert!(!c.worker.active);
    let cfg = c.launch_worker();
    assert!(c.worker.active);
    assert_eq!(cfg.destination, c.state.destination);

    // Second request while the first worker is live: the dispatch clears
    // the slot and demands a join before `launch_worker` may run again.
    assert_eq!(
        c.handle_event(Event::RequestInstallStart),
        Action::BeginInstall { need_join: true }
    );
    assert!(!c.worker.active);
    let _cfg = c.launch_worker();
    assert!(c.worker.active);
}

#[test]
fn terminal_events_raise_abort_and_clear_the_worker() {
    let mut c = fresh();
    c.handle_event(Event::RequestInstallStart);
    c.launch_worker();

    assert_eq!(
        c.handle_event(Event::Failed),
        Action::FailureCleanup { need_join: true }
    );
    assert!(c.state.abort_requested);
    assert!(!c.worker.active);

    // A failure with no live worker still asks for no join.
    assert_eq!(
        c.handle_event(Event::Failed),
        Action::FailureCleanup { need_join: false }
    );
}

#[test]
fn abort_event_heads_for_the_abort_screen() {
    let mut c = fresh();
    c.handle_event(Event::RequestInstallStart);
    c.launch_worker();
    assert_eq!(
        c.handle_event(Event::Aborted),
        Action::AbortCleanup { need_join: true }
    );
    assert!(c.state.abort_requested);
    assert!(!c.worker.active);
}

#[test]
fn completion_heads_for_the_done_screen() {
    let mut c = fresh();
    c.handle_event(Event::RequestInstallStart);
    c.launch_worker();
    assert_eq!(c.handle_event(Event::Completed), Action::ShowDoneScreen);
    // The handle is joined later, at shutdown; completion itself only
    // transitions the presentation.
    assert!(c.worker.active);
    assert!(c.state.abort_requested);
}

#[test]
fn worker_snapshot_carries_the_choices() {
    let mut c = fresh();
    c.handle_event(Event::ToggleVariant);
    c.handle_event(Event::ToggleOptionalAssets);
    c.handle_event(Event::RequestInstallStart);
    let cfg = c.launch_worker();
    assert!(cfg.deluxe_variant);
    assert!(cfg.include_optional_assets);
    assert_eq!(cfg.destination, "/tmp/install-target");
}

#[test]
fn error_descriptions_name_the_failure() {
    assert!(InstallError::Network.describe().contains("download"));
    assert!(InstallError::Validation.describe().contains("destination"));
    assert!(InstallError::Archive.describe().contains("archive"));
}
