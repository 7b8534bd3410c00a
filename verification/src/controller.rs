//! Controller module responsible for sequencing episode steps.
//!
//! The [`Controller`] decides the next [`StepAction`] from the current
//! [`StepResult`]: it alternates EXTRACT and ALIGN until the result reports
//! the episode done, and then answers RESOLVE.

use vstd::prelude::*;

use crate::steps::{StepAction, StepResult};

verus! {

/// The action that follows the last dispatched one in the EXTRACT/ALIGN cycle;
/// the cycle starts with EXTRACT, and falls back to EXTRACT after RESOLVE.
pub open spec fn cycle_after(last: Option<StepAction>) -> StepAction {
    match last {
        Some(StepAction::EXTRACT) => StepAction::ALIGN,
        _ => StepAction::EXTRACT,
    }
}

/// Tracks the action sequence and decides the next step.
pub struct Controller {
    /// The last action that was dispatched, used to enforce the alternating schedule.
    last_action: Option<StepAction>,
}

impl Controller {
    /// The last action dispatched in the cycle, if any.
    pub closed spec fn last_action(self) -> Option<StepAction> {
        self.last_action
    }

    /// The cycle only ever records EXTRACT or ALIGN.
    #[verifier::type_invariant]
    spec fn records_cycle_only(self) -> bool {
        self.last_action != Some(StepAction::RESOLVE)
    }

    /// Creates a new controller with no prior action history.
    pub fn new() -> (c: Self)
        ensures
            c.last_action() is None,
    {
        Controller { last_action: None }
    }

    /// Determines the next `StepAction` based on the current `StepResult`.
    ///
    /// RESOLVE if the result reports the episode done (the cycle is left as it
    /// was); otherwise the next action of the EXTRACT → ALIGN cycle, which is
    /// recorded as the last action.
    pub fn next_action(&mut self, step_result: &StepResult) -> (next: StepAction)
        ensures
            step_result.done ==> next == StepAction::RESOLVE && final(self).last_action() == old(self).last_action(),
            !step_result.done ==> next == cycle_after(old(self).last_action()) && final(self).last_action() == Some(next),
            final(self).last_action() != Some(StepAction::RESOLVE),
    {
        proof {
            use_type_invariant(&*self);
        }
        if step_result.done {
            return StepAction::RESOLVE;
        }
        let next = self.determine_next();
        self.last_action = Some(next);
        next
    }

    /// Determines the next action based on the stored `last_action` state.
    fn determine_next(&self) -> (next: StepAction)
        ensures
            next == cycle_after(self.last_action()),
            next != StepAction::RESOLVE,
    {
        match self.last_action {
            None | Some(StepAction::ALIGN) => StepAction::EXTRACT,
            Some(StepAction::EXTRACT) => StepAction::ALIGN,
            Some(StepAction::RESOLVE) => StepAction::EXTRACT,
        }
    }
}

/// The cycle starts with EXTRACT, follows EXTRACT with ALIGN and ALIGN with
/// EXTRACT.
pub proof fn lemma_cycle_order()
    ensures
        cycle_after(None) == StepAction::EXTRACT,
        cycle_after(Some(StepAction::EXTRACT)) == StepAction::ALIGN,
        cycle_after(Some(StepAction::ALIGN)) == StepAction::EXTRACT,
{
}

/// Two successive dispatches of a running episode alternate between EXTRACT
/// and ALIGN, and RESOLVE is never dispatched by the cycle itself.
pub proof fn lemma_cycle_alternates(last: Option<StepAction>)
    requires
        last != Some(StepAction::RESOLVE),
    ensures
        cycle_after(last) != StepAction::RESOLVE,
        cycle_after(Some(cycle_after(last))) != cycle_after(last),
        cycle_after(Some(cycle_after(Some(cycle_after(last))))) == cycle_after(last),
{
}

} // verus!
