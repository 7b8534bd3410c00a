//! Rewards for each step, in tenths of a point (`-2` stands for `-0.2`).
//!
//! Every reward here is a multiple of one tenth, so integer tenths give the
//! exact values.

use vstd::prelude::*;

use crate::steps::{StepAction, StepResult};

verus! {

/// The reward of an EXTRACT step: a base penalty of 0.5 plus 0.1 per fact.
pub open spec fn extract_reward(facts_count: nat) -> int {
    -5 + facts_count
}

/// The reward of an ALIGN step: a penalty of 0.1 when nothing was aligned,
/// otherwise 0.3 per alignment up to a maximum of 0.5.
pub open spec fn align_reward(conflict_alignments_count: nat) -> int {
    if conflict_alignments_count == 0 {
        -1
    } else if 3 * conflict_alignments_count <= 5 {
        (3 * conflict_alignments_count) as int
    } else {
        5
    }
}

/// The reward of a RESOLVE step: a fixed 1.0.
pub open spec fn resolve_reward() -> int {
    10
}

/// The reward of a step, by its action and its result.
pub open spec fn step_reward(action: StepAction, result: StepResult) -> int {
    match action {
        StepAction::EXTRACT => extract_reward(result.facts_count as nat),
        StepAction::ALIGN => align_reward(result.conflict_alignments_count as nat),
        StepAction::RESOLVE => resolve_reward(),
    }
}

/// Computes the reward for an EXTRACT step, in tenths.
pub fn compute_extract_reward(facts_count: u32) -> (reward: i64)
    ensures
        reward == extract_reward(facts_count as nat),
{
    -5 + facts_count as i64
}

/// Computes the reward for an ALIGN step, in tenths.
pub fn compute_align_reward(conflict_alignments_count: u32) -> (reward: i64)
    ensures
        reward == align_reward(conflict_alignments_count as nat),
{
    if conflict_alignments_count == 0 {
        -1
    } else if conflict_alignments_count == 1 {
        3
    } else {
        5
    }
}

/// Computes the reward for a RESOLVE step, in tenths.
pub fn compute_resolve_reward() -> (reward: i64)
    ensures
        reward == resolve_reward(),
{
    10
}

/// Dispatches reward computation on the action of the step and its result.
pub fn compute_reward(action: &StepAction, result: &StepResult) -> (reward: i64)
    ensures
        reward == step_reward(*action, *result),
{
    match action {
        StepAction::EXTRACT => compute_extract_reward(result.facts_count),
        StepAction::ALIGN => compute_align_reward(result.conflict_alignments_count),
        StepAction::RESOLVE => compute_resolve_reward(),
    }
}

/// An EXTRACT step is never penalised by more than 0.5 and earns 0.1 more for
/// each further fact; an ALIGN step earns between -0.1 and 0.5, earns
/// something exactly when something was aligned, and earns no less for more
/// alignments; RESOLVE earns more than any ALIGN step.
pub proof fn lemma_reward_bounds(facts_count: nat, alignments: nat, fewer: nat, more: nat)
    requires
        fewer <= more,
    ensures
        -5 <= extract_reward(facts_count),
        extract_reward(facts_count + 1) == extract_reward(facts_count) + 1,
        -1 <= align_reward(alignments) <= 5,
        (align_reward(alignments) > 0) == (alignments > 0),
        align_reward(fewer) <= align_reward(more),
        align_reward(alignments) < resolve_reward(),
{
}


/// The reward of a step, in tenths, over every result: it depends only on the
/// action and that action's own count, never on the done flag, the error or
/// the reward already recorded. EXTRACT earns `-5 + facts`; ALIGN earns -1
/// with nothing aligned, 3 for one alignment and 5 from two on; RESOLVE earns 10.
pub proof fn lemma_step_reward_values(result: StepResult, other: StepResult)
    ensures
        step_reward(StepAction::EXTRACT, result) == -5 + result.facts_count,
        result.conflict_alignments_count == 0 ==> step_reward(StepAction::ALIGN, result) == -1,
        result.conflict_alignments_count == 1 ==> step_reward(StepAction::ALIGN, result) == 3,
        result.conflict_alignments_count >= 2 ==> step_reward(StepAction::ALIGN, result) == 5,
        step_reward(StepAction::RESOLVE, result) == 10,
        result.facts_count == other.facts_count
            ==> step_reward(StepAction::EXTRACT, result) == step_reward(StepAction::EXTRACT, other),
        result.conflict_alignments_count == other.conflict_alignments_count
            ==> step_reward(StepAction::ALIGN, result) == step_reward(StepAction::ALIGN, other),
        step_reward(StepAction::RESOLVE, result) == step_reward(StepAction::RESOLVE, other),
{
}

} // verus!
