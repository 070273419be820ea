//! End-to-end runs of the pipeline machine: the exact event streams of
//! successful, failing, and aborted installs.

use installer_core::event::{Event, InstallError, PipelineOutcome};
use installer_core::pipeline::PipelineMachine;
use installer_core::stage::StageId;

/// Runs one stage to a successful finish, collecting the boundary event and
/// the given progress samples.
fn run_stage_ok(m: &mut PipelineMachine, events: &mut Vec<Event>, samples: &[u32]) {
    events.push(m.poll_boundary(false));
    for &s in samples {
        events.push(m.report_progress(s));
    }
    if let Some(ev) = m.finish_stage(Ok(())) {
        events.push(ev);
    }
}

#[test]
fn scenario_standard_success() {
    let mut m = PipelineMachine::new(false);
    let mut events: Vec<Event> = Vec::new();

    run_stage_ok(&mut m, &mut events, &[]);
    run_stage_ok(&mut m, &mut events, &[0, 5000, 10000]);
    run_stage_ok(&mut m, &mut events, &[0, 2500, 10000]);
    run_stage_ok(&mut m, &mut events, &[]);

    assert!(m.is_finished());
    assert_eq!(m.outcome(), PipelineOutcome::Success);
    assert_eq!(
        events,
        vec![
            Event::StageChanged(StageId::Preparing),
            Event::StageChanged(StageId::DownloadingPrimary),
            Event::ProgressUpdate(0),
            Event::ProgressUpdate(5000),
            Event::ProgressUpdate(10000),
            Event::StageChanged(StageId::ExtractingPrimary),
            Event::ProgressUpdate(0),
            Event::ProgressUpdate(2500),
            Event::ProgressUpdate(10000),
            Event::StageChanged(StageId::CleaningUp),
            Event::Completed,
        ]
    );
}

#[test]
fn scenario_optional_assets_success() {
    let mut m = PipelineMachine::new(true);
    let mut events: Vec<Event> = Vec::new();

    run_stage_ok(&mut m, &mut events, &[]);
    run_stage_ok(&mut m, &mut events, &[10000]);
    run_stage_ok(&mut m, &mut events, &[10000]);
    run_stage_ok(&mut m, &mut events, &[10000]);
    run_stage_ok(&mut m, &mut events, &[10000]);
    run_stage_ok(&mut m, &mut events, &[]);

    assert!(m.is_finished());
    assert_eq!(m.outcome(), PipelineOutcome::Success);
    assert_eq!(
        events,
        vec![
            Event::StageChanged(StageId::Preparing),
            Event::StageChanged(StageId::DownloadingPrimary),
            Event::ProgressUpdate(10000),
            Event::StageChanged(StageId::ExtractingPrimary),
            Event::ProgressUpdate(10000),
            Event::StageChanged(StageId::DownloadingOptional),
            Event::ProgressUpdate(10000),
            Event::StageChanged(StageId::ExtractingOptional),
            Event::ProgressUpdate(10000),
            Event::StageChanged(StageId::CleaningUp),
            Event::Completed,
        ]
    );
}

#[test]
fn scenario_download_failure() {
    let mut m = PipelineMachine::new(false);
    let mut events: Vec<Event> = Vec::new();

    run_stage_ok(&mut m, &mut events, &[]);
    // The primary download makes partial progress, then times out.
    events.push(m.poll_boundary(false));
    events.push(m.report_progress(3000));
    if let Some(ev) = m.finish_stage(Err(InstallError::Network)) {
        events.push(ev);
    }

    assert!(m.is_finished());
    assert_eq!(m.outcome(), PipelineOutcome::Failed(InstallError::Network));
    assert_eq!(
        events,
        vec![
            Event::StageChanged(StageId::Preparing),
            Event::StageChanged(StageId::DownloadingPrimary),
            Event::ProgressUpdate(3000),
            Event::Failed,
        ]
    );
}

#[test]
fn scenario_abort_during_extraction() {
    let mut m = PipelineMachine::new(false);
    let mut events: Vec<Event> = Vec::new();

    run_stage_ok(&mut m, &mut events, &[]);
    run_stage_ok(&mut m, &mut events, &[10000]);
    // Extraction finishes its work, but the user aborted meanwhile: the
    // next boundary stops the run before the cleanup stage is announced.
    events.push(m.poll_boundary(false));
    events.push(m.report_progress(4000));
    assert!(m.finish_stage(Ok(())).is_none());
    events.push(m.poll_boundary(true));

    assert!(m.is_finished());
    assert_eq!(m.outcome(), PipelineOutcome::Aborted);
    assert_eq!(
        events,
        vec![
            Event::StageChanged(StageId::Preparing),
            Event::StageChanged(StageId::DownloadingPrimary),
            Event::ProgressUpdate(10000),
            Event::StageChanged(StageId::ExtractingPrimary),
            Event::ProgressUpdate(4000),
            Event::Aborted,
        ]
    );
}

#[test]
fn abort_before_first_stage() {
    let mut m = PipelineMachine::new(true);
    let ev = m.poll_boundary(true);
    assert_eq!(ev, Event::Aborted);
    assert!(m.is_finished());
    assert_eq!(m.outcome(), PipelineOutcome::Aborted);
}

#[test]
fn validation_failure_in_preparing() {
    let mut m = PipelineMachine::new(false);
    assert_eq!(
        m.poll_boundary(false),
        Event::StageChanged(StageId::Preparing)
    );
    assert_eq!(
        m.finish_stage(Err(InstallError::Validation)),
        Some(Event::Failed)
    );
    assert_eq!(
        m.outcome(),
        PipelineOutcome::Failed(InstallError::Validation)
    );
}

#[test]
fn archive_failure_in_extraction() {
    let mut m = PipelineMachine::new(false);
    let mut events: Vec<Event> = Vec::new();
    run_stage_ok(&mut m, &mut events, &[]);
    run_stage_ok(&mut m, &mut events, &[10000]);
    events.push(m.poll_boundary(false));
    assert_eq!(
        m.finish_stage(Err(InstallError::Archive)),
        Some(Event::Failed)
    );
    assert_eq!(m.outcome(), PipelineOutcome::Failed(InstallError::Archive));
}

#[test]
fn cleanup_failure_is_swallowed() {
    let mut m = PipelineMachine::new(false);
    let mut events: Vec<Event> = Vec::new();
    run_stage_ok(&mut m, &mut events, &[]);
    run_stage_ok(&mut m, &mut events, &[10000]);
    run_stage_ok(&mut m, &mut events, &[10000]);
    events.push(m.poll_boundary(false));
    // A cleanup failure does not fail the run: the install is already
    // usable.
    assert_eq!(
        m.finish_stage(Err(InstallError::Archive)),
        Some(Event::Completed)
    );
    assert!(m.is_finished());
    assert_eq!(m.outcome(), PipelineOutcome::Success);
}

#[test]
fn progress_never_falls_back_within_a_stage() {
    let mut m = PipelineMachine::new(false);
    m.poll_boundary(false);
    m.finish_stage(Ok(()));
    m.poll_boundary(false);
    assert_eq!(m.report_progress(3000), Event::ProgressUpdate(3000));
    // A smaller raw sample is held at the stage's high-water mark.
    assert_eq!(m.report_progress(1000), Event::ProgressUpdate(3000));
    assert_eq!(m.report_progress(3500), Event::ProgressUpdate(3500));
    // An overshooting sample is clamped to the scale.
    assert_eq!(m.report_progress(20000), Event::ProgressUpdate(10000));
}

#[test]
fn progress_resets_between_stages() {
    let mut m = PipelineMachine::new(false);
    m.poll_boundary(false);
    m.finish_stage(Ok(()));
    m.poll_boundary(false);
    assert_eq!(m.report_progress(9000), Event::ProgressUpdate(9000));
    m.finish_stage(Ok(()));
    m.poll_boundary(false);
    // A new stage starts from zero again.
    assert_eq!(m.report_progress(100), Event::ProgressUpdate(100));
}

#[test]
fn current_stage_tracks_the_plan() {
    let mut m = PipelineMachine::new(true);
    assert_eq!(m.current_stage(), StageId::Preparing);
    m.poll_boundary(false);
    m.finish_stage(Ok(()));
    assert_eq!(m.current_stage(), StageId::DownloadingPrimary);
    m.poll_boundary(false);
    m.finish_stage(Ok(()));
    m.poll_boundary(false);
    m.finish_stage(Ok(()));
    assert_eq!(m.current_stage(), StageId::DownloadingOptional);
}
