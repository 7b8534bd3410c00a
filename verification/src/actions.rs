//! The step function of the action pipeline.

use vstd::prelude::*;

use crate::control::Action;

verus! {

/// What `next_step` returns: on an error nothing follows; otherwise EXTRACT is
/// followed by ALIGN, ALIGN by RESOLVE once no conflict remains and by EXTRACT
/// while some remain, and nothing follows RESOLVE (whether or not conflicts
/// remain: RESOLVE with open conflicts is a caller's mistake that ends the run).
pub open spec fn spec_next_step(current: Action, conflicts_remaining: nat, has_error: bool) -> Option<Action> {
    if has_error {
        None
    } else {
        match current {
            Action::Extract => Some(Action::Align),
            Action::Align => if conflicts_remaining == 0 {
                Some(Action::Resolve)
            } else {
                Some(Action::Extract)
            },
            Action::Resolve => None,
        }
    }
}

/// Computes the action that follows `current`, given the number of conflicts
/// still unresolved and the error of the last step, if any.
///
/// `None` means the execution loop must stop.
#[must_use]
pub fn next_step(current: Action, conflicts_remaining: usize, error: Option<&str>) -> (next: Option<Action>)
    ensures
        next == spec_next_step(current, conflicts_remaining as nat, error.is_some()),
{
    if error.is_some() {
        return None;
    }
    if current == Action::Resolve && conflicts_remaining > 0 {
        return None;
    }
    match current {
        Action::Extract => Some(Action::Align),
        Action::Align => {
            if conflicts_remaining == 0 {
                Some(Action::Resolve)
            } else {
                Some(Action::Extract)
            }
        },
        Action::Resolve => None,
    }
}


/// The action reached after `n` further steps from `start`, with a fixed
/// number of conflicts and no error (`None` once the loop has stopped).
pub open spec fn steps_from(start: Option<Action>, conflicts_remaining: nat, n: nat) -> Option<Action>
    decreases n,
{
    if n == 0 {
        start
    } else {
        match start {
            None => None,
            Some(a) => steps_from(spec_next_step(a, conflicts_remaining, false), conflicts_remaining, (n - 1) as nat),
        }
    }
}

/// The step rule without an error, over every conflict count: EXTRACT is
/// always followed by ALIGN; ALIGN by RESOLVE once no conflict is left and by
/// EXTRACT while some remain; nothing follows RESOLVE.
pub proof fn lemma_step_rule(conflicts_remaining: nat)
    ensures
        spec_next_step(Action::Extract, conflicts_remaining, false) == Some(Action::Align),
        conflicts_remaining == 0 ==> spec_next_step(Action::Align, conflicts_remaining, false) == Some(Action::Resolve),
        conflicts_remaining > 0 ==> spec_next_step(Action::Align, conflicts_remaining, false) == Some(Action::Extract),
        spec_next_step(Action::Resolve, conflicts_remaining, false) is None,
{
}

/// An error ends the loop whatever the action and the conflicts.
pub proof fn lemma_error_always_terminates(current: Action, conflicts_remaining: nat)
    ensures
        spec_next_step(current, conflicts_remaining, true) is None,
{
}

/// RESOLVE is only ever chosen after ALIGN, and only once no conflict remains.
pub proof fn lemma_resolve_only_without_conflicts(current: Action, conflicts_remaining: nat, has_error: bool)
    requires
        spec_next_step(current, conflicts_remaining, has_error) == Some(Action::Resolve),
    ensures
        current == Action::Align,
        conflicts_remaining == 0,
        !has_error,
{
}

/// With every conflict resolved, the pipeline started at EXTRACT runs
/// EXTRACT, ALIGN, RESOLVE and then stops: it terminates after three steps.
pub proof fn lemma_terminates_without_conflicts()
    ensures
        steps_from(Some(Action::Extract), 0, 1) == Some(Action::Align),
        steps_from(Some(Action::Extract), 0, 2) == Some(Action::Resolve),
        steps_from(Some(Action::Extract), 0, 3) is None,
        forall|n: nat| n >= 3 ==> #[trigger] steps_from(Some(Action::Extract), 0, n) is None,
{
    reveal_with_fuel(steps_from, 4);
    assert forall|n: nat| n >= 3 implies #[trigger] steps_from(Some(Action::Extract), 0, n) is None by {
        lemma_none_stays_none(0, (n - 3) as nat);
        assert(steps_from(Some(Action::Extract), 0, n) == steps_from(None, 0, (n - 3) as nat)) by {
            reveal_with_fuel(steps_from, 4);
        }
    }
}

/// Once the loop has stopped it stays stopped.
pub proof fn lemma_none_stays_none(conflicts_remaining: nat, n: nat)
    ensures
        steps_from(None, conflicts_remaining, n) is None,
    decreases n,
{
    if n > 0 {
        lemma_none_stays_none(conflicts_remaining, (n - 1) as nat);
    }
}

/// While conflicts remain, the pipeline started at EXTRACT never reaches
/// RESOLVE and never stops on its own: it alternates EXTRACT and ALIGN, which
/// is why a caller must act on conflicts and on the returned value.
pub proof fn lemma_conflicts_keep_cycling(conflicts_remaining: nat, n: nat)
    requires
        conflicts_remaining > 0,
    ensures
        steps_from(Some(Action::Extract), conflicts_remaining, n)
            == (if n % 2 == 0 { Some(Action::Extract) } else { Some(Action::Align) }),
    decreases n,
{
    if n >= 2 {
        lemma_conflicts_keep_cycling(conflicts_remaining, (n - 2) as nat);
        lemma_steps_shift(Some(Action::Extract), conflicts_remaining, (n - 2) as nat);
    } else {
        reveal_with_fuel(steps_from, 2);
    }
}

/// Two steps from EXTRACT with conflicts left lead back to EXTRACT.
proof fn lemma_steps_shift(start: Option<Action>, conflicts_remaining: nat, n: nat)
    requires
        conflicts_remaining > 0,
        start == Some(Action::Extract),
    ensures
        steps_from(start, conflicts_remaining, n + 2) == steps_from(start, conflicts_remaining, n),
{
    reveal_with_fuel(steps_from, 3);
}

} // verus!
