//! Specification of event traces emitted by one pipeline run.
//!
//! These spec functions describe the stream of engine-status events a worker
//! sends over the channel: which stages were announced, how many terminal
//! events appeared, and that progress fractions stay in range and never fall
//! back within one stage. The pipeline machine maintains them as invariants
//! of its recorded trace.

use vstd::prelude::*;
use crate::event::Event;
use crate::progress::PROGRESS_SCALE;
use crate::stage::StageId;

verus! {

/// The stages announced by a trace, in announcement order.
pub open spec fn stages_of(t: Seq<Event>) -> Seq<StageId>
    decreases t.len(),
{
    if t.len() == 0 {
        Seq::empty()
    } else {
        let rest = stages_of(t.drop_last());
        match t.last() {
            Event::StageChanged(s) => rest.push(s),
            _ => rest,
        }
    }
}

/// How many terminal events (`Failed`, `Aborted`, `Completed`) a trace holds.
pub open spec fn terminal_count(t: Seq<Event>) -> int
    decreases t.len(),
{
    if t.len() == 0 {
        0
    } else {
        terminal_count(t.drop_last()) + if crate::event::is_terminal_event(t.last()) {
            1int
        } else {
            0int
        }
    }
}

/// How many progress events a trace holds.
pub open spec fn progress_count(t: Seq<Event>) -> int
    decreases t.len(),
{
    if t.len() == 0 {
        0
    } else {
        progress_count(t.drop_last()) + if t.last() is ProgressUpdate {
            1int
        } else {
            0int
        }
    }
}

/// Every progress event after the last stage announcement reports at most
/// `bound`.
pub open spec fn open_stage_progress_at_most(t: Seq<Event>, bound: int) -> bool
    decreases t.len(),
{
    if t.len() == 0 {
        true
    } else {
        match t.last() {
            Event::StageChanged(_) => true,
            Event::ProgressUpdate(u) => u <= bound && open_stage_progress_at_most(
                t.drop_last(),
                bound,
            ),
            _ => open_stage_progress_at_most(t.drop_last(), bound),
        }
    }
}

/// Progress discipline of a whole trace: every reported fraction lies in
/// `[0, PROGRESS_SCALE]` and is at least every earlier fraction of the same
/// stage.
pub open spec fn progress_wf(t: Seq<Event>) -> bool
    decreases t.len(),
{
    if t.len() == 0 {
        true
    } else {
        progress_wf(t.drop_last()) && match t.last() {
            Event::ProgressUpdate(u) => u <= PROGRESS_SCALE && open_stage_progress_at_most(
                t.drop_last(),
                u as int,
            ),
            _ => true,
        }
    }
}

/// Appending an event leaves the earlier entries in place.
proof fn lemma_push_parts<A>(t: Seq<A>, e: A)
    ensures
        t.push(e).drop_last() == t,
        t.push(e).last() == e,
{
    assert(t.push(e).drop_last() =~= t);
}

/// How one appended event changes the announced stages.
pub proof fn lemma_stages_of_push(t: Seq<Event>, e: Event)
    ensures
        e is StageChanged ==> stages_of(t.push(e)) == stages_of(t).push(e->StageChanged_0),
        !(e is StageChanged) ==> stages_of(t.push(e)) == stages_of(t),
{
    lemma_push_parts(t, e);
}

/// How one appended event changes the terminal count.
pub proof fn lemma_terminal_count_push(t: Seq<Event>, e: Event)
    ensures
        terminal_count(t.push(e)) == terminal_count(t) + if crate::event::is_terminal_event(e) {
            1int
        } else {
            0int
        },
{
    lemma_push_parts(t, e);
}

/// How one appended event changes the progress count.
pub proof fn lemma_progress_count_push(t: Seq<Event>, e: Event)
    ensures
        progress_count(t.push(e)) == progress_count(t) + if e is ProgressUpdate {
            1int
        } else {
            0int
        },
{
    lemma_push_parts(t, e);
}

/// A bound on the open stage's progress weakens to any larger bound.
pub proof fn lemma_open_stage_progress_widen(t: Seq<Event>, b1: int, b2: int)
    requires
        open_stage_progress_at_most(t, b1),
        b1 <= b2,
    ensures
        open_stage_progress_at_most(t, b2),
    decreases t.len(),
{
    if t.len() > 0 {
        match t.last() {
            Event::StageChanged(_) => {},
            _ => {
                lemma_open_stage_progress_widen(t.drop_last(), b1, b2);
            },
        }
    }
}

/// Progress discipline is kept by every event the machine appends: a stage
/// announcement opens a fresh stage, a progress event that is in range and at
/// least the open stage's bound, and any non-progress event.
pub proof fn lemma_progress_wf_push(t: Seq<Event>, e: Event, bound: int)
    requires
        progress_wf(t),
        e is ProgressUpdate ==> {
            &&& e->ProgressUpdate_0 <= PROGRESS_SCALE
            &&& bound <= e->ProgressUpdate_0
            &&& open_stage_progress_at_most(t, bound)
        },
    ensures
        progress_wf(t.push(e)),
        e is ProgressUpdate ==> open_stage_progress_at_most(t.push(e), e->ProgressUpdate_0 as int),
        e is StageChanged ==> forall|b: int| open_stage_progress_at_most(t.push(e), b),
{
    lemma_push_parts(t, e);
    if e is ProgressUpdate {
        lemma_open_stage_progress_widen(t, bound, e->ProgressUpdate_0 as int);
    }
}

/// Every progress event covered by an open-stage bound reports at most that
/// bound, as long as no stage announcement follows it.
proof fn lemma_open_stage_bound_covers(t: Seq<Event>, b: int, i: int)
    requires
        open_stage_progress_at_most(t, b),
        0 <= i < t.len(),
        t[i] is ProgressUpdate,
        forall|k: int| i < k < t.len() ==> !(t[k] is StageChanged),
    ensures
        t[i]->ProgressUpdate_0 <= b,
    decreases t.len(),
{
    if i == t.len() - 1 {
    } else {
        assert(!(t.last() is StageChanged));
        assert(t.drop_last()[i] == t[i]);
        lemma_open_stage_bound_covers(t.drop_last(), b, i);
    }
}

/// Every fraction a well-formed trace reports is at most the whole.
pub proof fn lemma_progress_in_range(t: Seq<Event>, i: int)
    requires
        progress_wf(t),
        0 <= i < t.len(),
        t[i] is ProgressUpdate,
    ensures
        t[i]->ProgressUpdate_0 <= PROGRESS_SCALE,
    decreases t.len(),
{
    if i < t.len() - 1 {
        assert(t.drop_last()[i] == t[i]);
        lemma_progress_in_range(t.drop_last(), i);
    }
}

/// Within one stage of a well-formed trace, a later fraction is never
/// smaller than an earlier one.
pub proof fn lemma_progress_monotone_within_stage(t: Seq<Event>, i: int, j: int)
    requires
        progress_wf(t),
        0 <= i < j < t.len(),
        t[i] is ProgressUpdate,
        t[j] is ProgressUpdate,
        forall|k: int| i < k < j ==> !(t[k] is StageChanged),
    ensures
        t[i]->ProgressUpdate_0 <= t[j]->ProgressUpdate_0,
    decreases t.len(),
{
    if j == t.len() - 1 {
        assert(t.drop_last()[i] == t[i]);
        lemma_open_stage_bound_covers(t.drop_last(), t[j]->ProgressUpdate_0 as int, i);
    } else {
        assert(t.drop_last()[i] == t[i]);
        assert(t.drop_last()[j] == t[j]);
        lemma_progress_monotone_within_stage(t.drop_last(), i, j);
    }
}

/// A sequence is a prefix of another.
pub open spec fn is_prefix_of<A>(p: Seq<A>, w: Seq<A>) -> bool {
    p.len() <= w.len() && p == w.take(p.len() as int)
}

} // verus!
