//! The ordered stages of the install pipeline.

use vstd::prelude::*;

verus! {

/// One phase of the install pipeline. The declaration order is the execution
/// order; the two optional-asset stages run only when the user enabled
/// optional assets.
#[derive(Clone, Copy, Debug, PartialEq, Eq, Structural)]
pub enum StageId {
    Preparing,
    DownloadingPrimary,
    ExtractingPrimary,
    DownloadingOptional,
    ExtractingOptional,
    CleaningUp,
}

/// The fixed stage order of one pipeline run: the optional-asset stages are
/// present exactly when `include_optional` is set.
pub open spec fn planned_stages(include_optional: bool) -> Seq<StageId> {
    if include_optional {
        seq![
            StageId::Preparing,
            StageId::DownloadingPrimary,
            StageId::ExtractingPrimary,
            StageId::DownloadingOptional,
            StageId::ExtractingOptional,
            StageId::CleaningUp,
        ]
    } else {
        seq![
            StageId::Preparing,
            StageId::DownloadingPrimary,
            StageId::ExtractingPrimary,
            StageId::CleaningUp,
        ]
    }
}

/// How many stages one run executes.
pub fn stage_count(include_optional: bool) -> (n: usize)
    ensures
        n == planned_stages(include_optional).len(),
{
    if include_optional {
        6
    } else {
        4
    }
}

/// The stage at position `i` of the plan.
pub fn stage_at(include_optional: bool, i: usize) -> (s: StageId)
    requires
        i < planned_stages(include_optional).len(),
    ensures
        s == planned_stages(include_optional)[i as int],
{
    if include_optional {
        match i {
            0 => StageId::Preparing,
            1 => StageId::DownloadingPrimary,
            2 => StageId::ExtractingPrimary,
            3 => StageId::DownloadingOptional,
            4 => StageId::ExtractingOptional,
            _ => StageId::CleaningUp,
        }
    } else {
        match i {
            0 => StageId::Preparing,
            1 => StageId::DownloadingPrimary,
            2 => StageId::ExtractingPrimary,
            _ => StageId::CleaningUp,
        }
    }
}

/// No stage appears twice in a plan.
pub proof fn lemma_planned_stages_distinct(include_optional: bool)
    ensures
        forall|i: int, j: int|
            0 <= i < j < planned_stages(include_optional).len()
                ==> planned_stages(include_optional)[i] != planned_stages(include_optional)[j],
{
}

} // verus!
