//! The install pipeline as a stepped state machine.
//!
//! A worker drives one `PipelineMachine` per run. At every stage boundary it
//! samples the shared abort flag and calls `poll_boundary`; while a stage's
//! blocking work (download, extraction) runs it forwards byte or entry counts
//! through `report_progress`; when the work returns it calls `finish_stage`
//! with the result. Each call hands back the event (if any) to send over the
//! channel, and the machine records the whole emitted trace in ghost state,
//! whose invariants pin down the run: stages are announced in the fixed
//! order, progress never falls back within a stage, and exactly one terminal
//! event ends the run.

use vstd::prelude::*;
use crate::event::Event;
use crate::event::InstallError;
use crate::event::PipelineOutcome;
use crate::event::is_terminal_event;
use crate::event::terminal_event_of;
use crate::progress::PROGRESS_SCALE;
use crate::stage::StageId;
use crate::stage::lemma_planned_stages_distinct;
use crate::stage::planned_stages;
use crate::stage::stage_at;
use crate::trace::is_prefix_of;
use crate::trace::lemma_progress_count_push;
use crate::trace::lemma_progress_in_range;
use crate::trace::lemma_progress_monotone_within_stage;
use crate::trace::lemma_progress_wf_push;
use crate::trace::lemma_stages_of_push;
use crate::trace::lemma_terminal_count_push;
use crate::trace::open_stage_progress_at_most;
use crate::trace::progress_count;
use crate::trace::progress_wf;
use crate::trace::stages_of;
use crate::trace::terminal_count;

verus! {

/// Where the machine stands: before a stage boundary, inside a stage, or
/// after the run's single terminal event.
#[derive(Clone, Copy, Debug, PartialEq, Eq, Structural)]
pub enum Phase {
    /// The next boundary poll either announces the stage at `pos` or aborts.
    Ready,
    /// The stage at `pos` was announced and its work is in flight.
    Running,
    /// The run ended with this outcome; no further event is emitted.
    Done(PipelineOutcome),
}

/// The progress fraction the machine reports for a raw sample: clamped to
/// the scale, and never below what this stage already reported.
pub open spec fn clamped_progress(last: u32, raw: u32) -> u32 {
    let capped = if raw > PROGRESS_SCALE {
        PROGRESS_SCALE
    } else {
        raw
    };
    if capped < last {
        last
    } else {
        capped
    }
}

/// One pipeline run. `trace` records every event the run emitted so far.
pub struct PipelineMachine {
    /// Whether the optional-asset stages are part of this run's plan.
    pub include_optional: bool,
    /// Index into the plan: the next stage to announce (`Ready`) or the
    /// announced stage whose work is in flight (`Running`).
    pub pos: usize,
    /// Where the run stands.
    pub phase: Phase,
    /// The largest fraction reported for the stage in flight.
    pub last_progress: u32,
    /// Every event emitted by this run, in emission order.
    pub trace: Ghost<Seq<Event>>,
}

impl PipelineMachine {
    /// The fixed stage order of this run.
    pub open spec fn plan(self) -> Seq<StageId> {
        planned_stages(self.include_optional)
    }

    /// The stage the position points at.
    pub open spec fn stage_now(self) -> StageId {
        self.plan()[self.pos as int]
    }

    /// The machine's invariant, tying the phase to the recorded trace.
    pub open spec fn wf(self) -> bool {
        &&& progress_wf(self.trace@)
        &&& match self.phase {
            Phase::Ready => {
                &&& self.pos < self.plan().len()
                &&& stages_of(self.trace@) == self.plan().take(self.pos as int)
                &&& terminal_count(self.trace@) == 0
            },
            Phase::Running => {
                &&& self.pos < self.plan().len()
                &&& stages_of(self.trace@) == self.plan().take(self.pos as int + 1)
                &&& terminal_count(self.trace@) == 0
                &&& self.last_progress <= PROGRESS_SCALE
                &&& open_stage_progress_at_most(self.trace@, self.last_progress as int)
            },
            Phase::Done(o) => {
                &&& is_prefix_of(stages_of(self.trace@), self.plan())
                &&& terminal_count(self.trace@) == 1
                &&& self.trace@.len() > 0
                &&& self.trace@.last() == terminal_event_of(o)
                &&& o is Success ==> stages_of(self.trace@) == self.plan()
            },
        }
    }

    /// A fresh run: nothing emitted, first boundary ahead.
    pub fn new(include_optional: bool) -> (m: Self)
        ensures
            m.wf(),
            m.include_optional == include_optional,
            m.phase == Phase::Ready,
            m.pos == 0,
            m.trace@ == Seq::<Event>::empty(),
    {
        let m = PipelineMachine {
            include_optional,
            pos: 0,
            phase: Phase::Ready,
            last_progress: 0,
            trace: Ghost(Seq::empty()),
        };
        proof {
            assert(stages_of(m.trace@) =~= m.plan().take(0));
        }
        m
    }

    /// Whether the run has emitted its terminal event.
    pub fn is_finished(&self) -> (b: bool)
        ensures
            b == (self.phase is Done),
    {
        matches!(self.phase, Phase::Done(_))
    }

    /// The outcome of a finished run.
    pub fn outcome(&self) -> (o: PipelineOutcome)
        requires
            self.phase is Done,
        ensures
            o == self.phase->Done_0,
    {
        match self.phase {
            Phase::Done(o) => o,
            _ => PipelineOutcome::Aborted,
        }
    }

    /// The stage to run next (`Ready`) or being run (`Running`).
    pub fn current_stage(&self) -> (s: StageId)
        requires
            self.wf(),
            !(self.phase is Done),
        ensures
            s == self.stage_now(),
    {
        stage_at(self.include_optional, self.pos)
    }

    /// A stage boundary: reads one sample of the shared abort flag. If the
    /// flag is set the run stops here — no further stage is announced, no
    /// further progress reported — and the terminal event is `Aborted`.
    /// Otherwise the next stage is announced.
    pub fn poll_boundary(&mut self, abort_requested: bool) -> (ev: Event)
        requires
            old(self).wf(),
            old(self).phase == Phase::Ready,
        ensures
            final(self).wf(),
            final(self).include_optional == old(self).include_optional,
            final(self).trace@ == old(self).trace@.push(ev),
            abort_requested ==> {
                &&& ev == Event::Aborted
                &&& final(self).phase == Phase::Done(PipelineOutcome::Aborted)
                &&& stages_of(final(self).trace@) == stages_of(old(self).trace@)
                &&& progress_count(final(self).trace@) == progress_count(old(self).trace@)
            },
            !abort_requested ==> {
                &&& ev == Event::StageChanged(old(self).stage_now())
                &&& final(self).phase == Phase::Running
                &&& final(self).pos == old(self).pos
                &&& final(self).last_progress == 0
            },
    {
        if abort_requested {
            let ev = Event::Aborted;
            proof {
                lemma_stages_of_push(self.trace@, ev);
                lemma_terminal_count_push(self.trace@, ev);
                lemma_progress_count_push(self.trace@, ev);
                lemma_progress_wf_push(self.trace@, ev, 0);
                assert(self.plan().take(self.pos as int).len() == self.pos as int);
            }
            self.phase = Phase::Done(PipelineOutcome::Aborted);
            self.trace = Ghost(self.trace@.push(ev));
            ev
        } else {
            let s = stage_at(self.include_optional, self.pos);
            let ev = Event::StageChanged(s);
            proof {
                lemma_stages_of_push(self.trace@, ev);
                lemma_terminal_count_push(self.trace@, ev);
                lemma_progress_wf_push(self.trace@, ev, 0);
                assert(self.plan().take(self.pos as int).push(self.plan()[self.pos as int])
                    =~= self.plan().take(self.pos as int + 1));
            }
            self.phase = Phase::Running;
            self.last_progress = 0;
            self.trace = Ghost(self.trace@.push(ev));
            ev
        }
    }

    /// One progress sample from the stage's work, as a raw fraction of the
    /// scale. The emitted fraction is the sample clamped to the scale and to
    /// at least everything this stage already reported, so the stream of
    /// fractions of one stage never falls back.
    pub fn report_progress(&mut self, raw: u32) -> (ev: Event)
        requires
            old(self).wf(),
            old(self).phase == Phase::Running,
        ensures
            final(self).wf(),
            final(self).include_optional == old(self).include_optional,
            final(self).phase == Phase::Running,
            final(self).pos == old(self).pos,
            ev == Event::ProgressUpdate(clamped_progress(old(self).last_progress, raw)),
            final(self).last_progress == clamped_progress(old(self).last_progress, raw),
            old(self).last_progress <= final(self).last_progress <= PROGRESS_SCALE,
            final(self).trace@ == old(self).trace@.push(ev),
    {
        let capped: u32 = if raw > PROGRESS_SCALE {
            PROGRESS_SCALE
        } else {
            raw
        };
        let v: u32 = if capped < self.last_progress {
            self.last_progress
        } else {
            capped
        };
        let ev = Event::ProgressUpdate(v);
        proof {
            lemma_stages_of_push(self.trace@, ev);
            lemma_terminal_count_push(self.trace@, ev);
            lemma_progress_wf_push(self.trace@, ev, self.last_progress as int);
        }
        self.last_progress = v;
        self.trace = Ghost(self.trace@.push(ev));
        ev
    }

    /// The stage's work returned. A failure in any stage but the final
    /// cleanup ends the run at once with `Failed`; a cleanup failure is
    /// swallowed (the install is already usable). A success after the last
    /// stage ends the run with `Completed`; otherwise the machine moves to
    /// the next boundary and emits nothing.
    pub fn finish_stage(&mut self, result: Result<(), InstallError>) -> (ev: Option<Event>)
        requires
            old(self).wf(),
            old(self).phase == Phase::Running,
        ensures
            final(self).wf(),
            final(self).include_optional == old(self).include_optional,
            ({
                let failed = result is Err && old(self).stage_now() != StageId::CleaningUp;
                let last = old(self).pos + 1 == old(self).plan().len();
                if failed {
                    &&& ev == Some(Event::Failed)
                    &&& final(self).phase == Phase::Done(PipelineOutcome::Failed(result->Err_0))
                    &&& final(self).trace@ == old(self).trace@.push(Event::Failed)
                } else if last {
                    &&& ev == Some(Event::Completed)
                    &&& final(self).phase == Phase::Done(PipelineOutcome::Success)
                    &&& final(self).trace@ == old(self).trace@.push(Event::Completed)
                } else {
                    &&& ev == None::<Event>
                    &&& final(self).phase == Phase::Ready
                    &&& final(self).pos == old(self).pos + 1
                    &&& final(self).trace@ == old(self).trace@
                }
            }),
    {
        let cleanup = matches!(
            stage_at(self.include_optional, self.pos),
            StageId::CleaningUp
        );
        let ghost pos_len = self.plan().take(self.pos as int + 1).len();
        match result {
            Err(e) if !cleanup => {
                let ev = Event::Failed;
                proof {
                    lemma_stages_of_push(self.trace@, ev);
                    lemma_terminal_count_push(self.trace@, ev);
                    lemma_progress_wf_push(self.trace@, ev, 0);
                    assert(pos_len == self.pos as int + 1);
                }
                self.phase = Phase::Done(PipelineOutcome::Failed(e));
                self.trace = Ghost(self.trace@.push(ev));
                Some(ev)
            },
            _ => {
                let next = self.pos + 1;
                if next == crate::stage::stage_count(self.include_optional) {
                    let ev = Event::Completed;
                    proof {
                        lemma_stages_of_push(self.trace@, ev);
                        lemma_terminal_count_push(self.trace@, ev);
                        lemma_progress_wf_push(self.trace@, ev, 0);
                        assert(self.plan().take(self.pos as int + 1) =~= self.plan());
                    }
                    self.phase = Phase::Done(PipelineOutcome::Success);
                    self.trace = Ghost(self.trace@.push(ev));
                    Some(ev)
                } else {
                    self.pos = next;
                    self.phase = Phase::Ready;
                    None
                }
            },
        }
    }
}

/// The stages any run announces are announced in the fixed planned order:
/// a prefix of the plan, each stage at most once.
pub proof fn lemma_stage_order(m: PipelineMachine)
    requires
        m.wf(),
    ensures
        is_prefix_of(stages_of(m.trace@), planned_stages(m.include_optional)),
        forall|i: int, j: int|
            0 <= i < j < stages_of(m.trace@).len()
                ==> stages_of(m.trace@)[i] != stages_of(m.trace@)[j],
{
    let st = stages_of(m.trace@);
    let plan = planned_stages(m.include_optional);
    match m.phase {
        Phase::Ready => {
            assert(st.len() == m.pos as int);
            assert(st =~= plan.take(st.len() as int));
        },
        Phase::Running => {
            assert(st.len() == m.pos as int + 1);
            assert(st =~= plan.take(st.len() as int));
        },
        Phase::Done(_) => {},
    }
    lemma_planned_stages_distinct(m.include_optional);
    assert forall|i: int, j: int| 0 <= i < j < st.len() implies st[i] != st[j] by {
        assert(st[i] == plan[i]);
        assert(st[j] == plan[j]);
    }
}

/// Exactly one of `Failed`, `Aborted`, `Completed` is emitted per run, and
/// only as the run's last event: none before the run is done, exactly one —
/// the one reporting the outcome, in last position — once it is.
pub proof fn lemma_one_terminal_per_run(m: PipelineMachine)
    requires
        m.wf(),
    ensures
        !(m.phase is Done) ==> terminal_count(m.trace@) == 0,
        m.phase is Done ==> {
            &&& terminal_count(m.trace@) == 1
            &&& m.trace@.len() > 0
            &&& m.trace@.last() == terminal_event_of(m.phase->Done_0)
            &&& is_terminal_event(m.trace@.last())
        },
{
}

/// An abort observed at a stage boundary ends the run with `Aborted` —
/// never with `Failed` or `Completed` — and the abort closed the trace: it
/// is the last event, so no stage announcement and no progress event of a
/// later stage follows it. (That nothing follows at all is the machine's
/// stepping discipline: every step demands a run that is not yet done.)
pub proof fn lemma_aborted_run_shape(m: PipelineMachine)
    requires
        m.wf(),
        m.phase == Phase::Done(PipelineOutcome::Aborted),
    ensures
        m.trace@.len() > 0,
        m.trace@.last() == Event::Aborted,
        terminal_count(m.trace@) == 1,
{
}

/// Progress fractions of one run lie in `[0, PROGRESS_SCALE]` and never
/// fall back within a single stage.
pub proof fn lemma_progress_monotone(m: PipelineMachine, i: int, j: int)
    requires
        m.wf(),
        0 <= i < j < m.trace@.len(),
        m.trace@[i] is ProgressUpdate,
        m.trace@[j] is ProgressUpdate,
        forall|k: int| i < k < j ==> !(m.trace@[k] is StageChanged),
    ensures
        m.trace@[i]->ProgressUpdate_0 <= m.trace@[j]->ProgressUpdate_0,
        m.trace@[j]->ProgressUpdate_0 <= PROGRESS_SCALE,
{
    lemma_progress_monotone_within_stage(m.trace@, i, j);
    lemma_progress_in_range(m.trace@, j);
}

} // verus!
