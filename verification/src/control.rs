//! Episode state, the default simulator and the transition rule between actions.
//!
//! Rewards are kept in tenths of a point (`-2` stands for `-0.2`): every
//! reward the agent hands out is a multiple of one tenth, so the running total
//! is exact.

use vstd::prelude::*;

use crate::text::{append_decimal, decimal};

verus! {

/// Actions that the agent can perform.
#[derive(Debug, Clone, Copy, PartialEq, Eq, Hash, Structural)]
pub enum Action {
    /// Extract facts from the environment.
    Extract,
    /// Align (resolve) conflicts between extracted facts.
    Align,
    /// Resolve the episode after all conflicts are resolved.
    Resolve,
}

/// The label under which an action is displayed.
pub open spec fn action_label(a: Action) -> Seq<char> {
    match a {
        Action::Extract => "EXTRACT"@,
        Action::Align => "ALIGN"@,
        Action::Resolve => "RESOLVE"@,
    }
}

impl Action {
    /// The display label of the action: `EXTRACT`, `ALIGN` or `RESOLVE`.
    pub fn to_string(&self) -> (s: String)
        ensures
            s@ == action_label(*self),
    {
        match self {
            Action::Extract => String::from_str("EXTRACT"),
            Action::Align => String::from_str("ALIGN"),
            Action::Resolve => String::from_str("RESOLVE"),
        }
    }
}


/// Possible errors during agent execution.
#[derive(Debug, Clone)]
pub enum AgentError {
    /// Reached the maximum number of steps without success.
    MaxStepsReached(u32),
    /// Attempted to act on an already finished episode.
    EpisodeFinished,
    /// Invalid action transition (e.g., trying to transition from `Resolve`).
    InvalidTransition { from: Action },
    /// State inconsistency.
    InvalidState { detail: String },
    /// Errors originating from the simulator.
    SimulationError(String),
}

/// An [`AgentError`] with its texts taken as character sequences.
pub enum AgentErrorView {
    MaxStepsReached(u32),
    EpisodeFinished,
    InvalidTransition { from: Action },
    InvalidState { detail: Seq<char> },
    SimulationError(Seq<char>),
}

impl View for AgentError {
    type V = AgentErrorView;

    open spec fn view(&self) -> AgentErrorView {
        match self {
            AgentError::MaxStepsReached(n) => AgentErrorView::MaxStepsReached(*n),
            AgentError::EpisodeFinished => AgentErrorView::EpisodeFinished,
            AgentError::InvalidTransition { from } => AgentErrorView::InvalidTransition { from: *from },
            AgentError::InvalidState { detail } => AgentErrorView::InvalidState { detail: detail@ },
            AgentError::SimulationError(msg) => AgentErrorView::SimulationError(msg@),
        }
    }
}

/// The outcome of a step, its error taken by its view.
pub open spec fn outcome_view(r: Result<(), AgentError>) -> Result<(), AgentErrorView> {
    match r {
        Ok(()) => Ok(()),
        Err(e) => Err(e@),
    }
}

/// Represents the state of a single episode.
#[derive(Debug, Clone)]
pub struct EpisodeState {
    /// Task description.
    pub task: String,
    /// Environment identifier.
    pub environment: String,
    /// Model name.
    pub model: String,
    /// Current step number (1-indexed).
    pub step: u32,
    /// Maximum number of steps allowed.
    pub max_steps: u32,
    /// Number of facts extracted so far.
    pub facts_count: u32,
    /// Number of conflicts remaining to align.
    pub conflict_alignments_count: u32,
    /// Accumulated reward in tenths of a point (may go negative).
    pub reward_tenths: i64,
    /// Whether the episode is finished.
    pub done: bool,
    /// Optional error message from the last step.
    pub error: Option<String>,
}

/// The detail of the error for a step count beyond the limit.
pub open spec fn step_exceeds_detail(step: u32, max_steps: u32) -> Seq<char> {
    "step "@ + decimal(step as nat) + " exceeds max_steps "@ + decimal(max_steps as nat)
}

impl EpisodeState {
    /// What makes a state inconsistent, if anything: a step count beyond the
    /// limit, or an episode marked done before any step was taken.
    pub open spec fn validation_error(self) -> Option<AgentErrorView> {
        if self.step > self.max_steps {
            Some(AgentErrorView::InvalidState { detail: step_exceeds_detail(self.step, self.max_steps) })
        } else if self.done && self.step == 0 {
            Some(AgentErrorView::InvalidState { detail: "episode marked done before any step"@ })
        } else {
            None
        }
    }

    /// Whether the counters leave room for the effect of `action`: EXTRACT
    /// needs room for three more facts, one more conflict and a reward 0.2
    /// lower; ALIGN needs room for a reward 0.2 higher when it has conflicts to
    /// resolve; RESOLVE needs room for a reward 0.5 higher on a running episode.
    pub open spec fn has_room_for(self, action: Action) -> bool {
        match action {
            Action::Extract => {
                &&& self.facts_count + 3 <= u32::MAX
                &&& self.conflict_alignments_count + 1 <= u32::MAX
                &&& i64::MIN <= self.reward_tenths - 2
            },
            Action::Align => self.conflict_alignments_count > 0 ==> self.reward_tenths + 2 <= i64::MAX,
            Action::Resolve => !self.done ==> self.reward_tenths + 5 <= i64::MAX,
        }
    }

    /// Tells whether the counters leave room for the effect of `action`.
    pub fn can_simulate(&self, action: &Action) -> (b: bool)
        ensures
            b == self.has_room_for(*action),
    {
        match action {
            Action::Extract => {
                self.facts_count <= u32::MAX - 3
                    && self.conflict_alignments_count < u32::MAX
                    && self.reward_tenths >= i64::MIN + 2
            },
            Action::Align => self.conflict_alignments_count == 0 || self.reward_tenths <= i64::MAX - 2,
            Action::Resolve => self.done || self.reward_tenths <= i64::MAX - 5,
        }
    }

    /// Creates a new episode state with initial values: no step taken, no fact,
    /// two conflicts to align, no reward, not done, no error.
    pub fn new(task: String, environment: String, model: String, max_steps: u32) -> (s: Self)
        requires
            task@.len() > 0,
            environment@.len() > 0,
            model@.len() > 0,
            max_steps > 0,
        ensures
            s.task == task,
            s.environment == environment,
            s.model == model,
            s.step == 0,
            s.max_steps == max_steps,
            s.facts_count == 0,
            s.conflict_alignments_count == 2,
            s.reward_tenths == 0,
            !s.done,
            s.error is None,
    {
        EpisodeState {
            task,
            environment,
            model,
            step: 0,
            max_steps,
            facts_count: 0,
            conflict_alignments_count: 2,
            reward_tenths: 0,
            done: false,
            error: None,
        }
    }

    /// Validates that the state is consistent.
    fn validate(&self) -> (r: Result<(), AgentError>)
        ensures
            outcome_view(r) == match self.validation_error() {
                Some(e) => Err(e),
                None => Ok(()),
            },
    {
        if self.step > self.max_steps {
            let mut detail = String::from_str("step ");
            append_decimal(&mut detail, self.step);
            detail.append(" exceeds max_steps ");
            append_decimal(&mut detail, self.max_steps);
            return Err(AgentError::InvalidState { detail });
        }
        if self.done && self.step == 0 {
            return Err(AgentError::InvalidState {
                detail: String::from_str("episode marked done before any step"),
            });
        }
        Ok(())
    }
}


impl EpisodeState {
    /// The state after the effect of `action` on a state that it may act on:
    /// EXTRACT adds three facts and one conflict and costs 0.2; ALIGN resolves
    /// all conflicts and earns 0.2 when there were some, and changes nothing
    /// otherwise; RESOLVE marks the episode done and earns 0.5.
    pub open spec fn after_action(self, action: Action) -> EpisodeState {
        match action {
            Action::Extract => EpisodeState {
                facts_count: (self.facts_count + 3) as u32,
                conflict_alignments_count: (self.conflict_alignments_count + 1) as u32,
                reward_tenths: (self.reward_tenths - 2) as i64,
                ..self
            },
            Action::Align => if self.conflict_alignments_count > 0 {
                EpisodeState {
                    conflict_alignments_count: 0,
                    reward_tenths: (self.reward_tenths + 2) as i64,
                    ..self
                }
            } else {
                self
            },
            Action::Resolve => EpisodeState {
                done: true,
                reward_tenths: (self.reward_tenths + 5) as i64,
                ..self
            },
        }
    }
}

/// What the default simulator does to `state` when asked to perform `action`,
/// and what it answers. RESOLVE on a finished episode is refused and leaves the
/// state as it was; any other action takes effect, and the resulting state is
/// then checked for consistency.
pub open spec fn default_simulation(action: Action, state: EpisodeState) -> (EpisodeState, Result<(), AgentErrorView>) {
    if action == Action::Resolve && state.done {
        (state, Err(AgentErrorView::SimulationError("Resolve called on already done episode"@)))
    } else {
        let next = state.after_action(action);
        (next, match next.validation_error() {
            Some(e) => Err(e),
            None => Ok(()),
        })
    }
}

/// Simulates the effect of an action on the episode state.
pub trait Simulator: Send + Sync {
    /// Performs the action and updates the state accordingly.
    fn simulate(&self, action: &Action, state: &mut EpisodeState) -> (r: Result<(), AgentError>)
        requires
            old(state).has_room_for(*action),
    ;
}

/// Default simulator that implements a realistic conflict resolution process.
///
/// - `Extract`: adds 3 facts and increases conflicts by 1.
/// - `Align`: resolves **all** remaining conflicts (sets count to 0).
/// - `Resolve`: marks the episode as done.
pub struct DefaultSimulator;

impl DefaultSimulator {
    /// Creates a new `DefaultSimulator`.
    pub fn new() -> (s: Self)
        ensures
            s == DefaultSimulator,
    {
        DefaultSimulator
    }
}

impl Simulator for DefaultSimulator {
    fn simulate(&self, action: &Action, state: &mut EpisodeState) -> (r: Result<(), AgentError>)
        ensures
            (*final(state), outcome_view(r)) == default_simulation(*action, *old(state)),
    {
        match action {
            Action::Extract => {
                state.facts_count = state.facts_count + 3;
                state.conflict_alignments_count = state.conflict_alignments_count + 1;
                state.reward_tenths = state.reward_tenths - 2;
            },
            Action::Align => {
                if state.conflict_alignments_count > 0 {
                    state.conflict_alignments_count = 0;
                    state.reward_tenths = state.reward_tenths + 2;
                }
            },
            Action::Resolve => {
                if state.done {
                    return Err(AgentError::SimulationError(
                        String::from_str("Resolve called on already done episode"),
                    ));
                }
                state.done = true;
                state.reward_tenths = state.reward_tenths + 5;
            },
        }
        state.validate()
    }
}

/// The action that follows `current_action` in the episode `state`.
pub open spec fn spec_decide_next_action(current_action: Action, state: EpisodeState) -> Result<Action, AgentError> {
    if state.done {
        Err(AgentError::EpisodeFinished)
    } else {
        match current_action {
            Action::Extract => Ok(Action::Align),
            Action::Align => if state.conflict_alignments_count == 0 {
                Ok(Action::Resolve)
            } else {
                Ok(Action::Extract)
            },
            Action::Resolve => Err(AgentError::InvalidTransition { from: Action::Resolve }),
        }
    }
}

/// Determines the next action based on the current step and state.
///
/// A finished episode has no next action (`EpisodeFinished`); EXTRACT is
/// followed by ALIGN; ALIGN by RESOLVE once all conflicts are resolved and by
/// EXTRACT while some remain; nothing may follow RESOLVE (`InvalidTransition`).
pub fn decide_next_action(current_action: &Action, state: &EpisodeState) -> (r: Result<Action, AgentError>)
    ensures
        r == spec_decide_next_action(*current_action, *state),
{
    if state.done {
        return Err(AgentError::EpisodeFinished);
    }
    match current_action {
        Action::Extract => Ok(Action::Align),
        Action::Align => {
            if state.conflict_alignments_count == 0 {
                Ok(Action::Resolve)
            } else {
                Ok(Action::Extract)
            }
        },
        Action::Resolve => Err(AgentError::InvalidTransition { from: Action::Resolve }),
    }
}


/// Where an episode stands after one step.
#[derive(Debug, Clone, Copy, PartialEq, Eq, Structural)]
pub enum EpisodeProgress {
    /// The step went through; this action comes next.
    Next(Action),
    /// The step finished the episode.
    Finished,
    /// The step limit was already reached; nothing was done.
    OutOfSteps,
}

/// The outcome of an episode step, its error taken by its view.
pub open spec fn progress_view(r: Result<EpisodeProgress, AgentError>) -> Result<EpisodeProgress, AgentErrorView> {
    match r {
        Ok(p) => Ok(p),
        Err(e) => Err(e@),
    }
}

/// One step of an episode run by the default simulator: when the step limit
/// is reached nothing happens; otherwise the step is counted, `action` is
/// simulated, and the transition rule names the next action, a finished
/// episode being reported as such rather than as an error.
pub open spec fn spec_episode_step(action: Action, state: EpisodeState) -> (EpisodeState, Result<EpisodeProgress, AgentErrorView>) {
    if state.step >= state.max_steps {
        (state, Ok(EpisodeProgress::OutOfSteps))
    } else {
        let (next, r) = default_simulation(action, at_step(state, (state.step + 1) as u32));
        match r {
            Err(e) => (next, Err(e)),
            Ok(()) => (next, match spec_decide_next_action(action, next) {
                Ok(a) => Ok(EpisodeProgress::Next(a)),
                Err(AgentError::EpisodeFinished) => Ok(EpisodeProgress::Finished),
                Err(e) => Err(e@),
            }),
        }
    }
}

/// Takes one step of an episode with the default simulator: counts the step,
/// performs `action`, and decides what comes next.
pub fn episode_step(simulator: &DefaultSimulator, state: &mut EpisodeState, action: Action) -> (r: Result<EpisodeProgress, AgentError>)
    requires
        old(state).has_room_for(action),
    ensures
        (*final(state), progress_view(r)) == spec_episode_step(action, *old(state)),
{
    if state.step >= state.max_steps {
        return Ok(EpisodeProgress::OutOfSteps);
    }
    state.step = state.step + 1;
    simulator.simulate(&action, state)?;
    match decide_next_action(&action, state) {
        Ok(next) => Ok(EpisodeProgress::Next(next)),
        Err(AgentError::EpisodeFinished) => Ok(EpisodeProgress::Finished),
        Err(e) => Err(e),
    }
}

/// After a RESOLVE that the default simulator carried out without error, the
/// episode is finished and no action may follow, whichever is asked for.
pub proof fn lemma_resolve_finishes_episode(state: EpisodeState, any_action: Action)
    requires
        default_simulation(Action::Resolve, state).1 is Ok,
    ensures
        default_simulation(Action::Resolve, state).0.done,
        spec_decide_next_action(any_action, default_simulation(Action::Resolve, state).0)
            == Err::<Action, AgentError>(AgentError::EpisodeFinished),
{
}

/// The transition rule on a running episode, over every state: EXTRACT is
/// always followed by ALIGN, whatever the conflict count; ALIGN is followed by
/// RESOLVE when no conflict is left and by EXTRACT while some remain; nothing
/// may follow RESOLVE. On a finished episode no action follows at all.
pub proof fn lemma_transition_rule(state: EpisodeState, any_action: Action)
    ensures
        !state.done ==> spec_decide_next_action(Action::Extract, state) == Ok::<Action, AgentError>(Action::Align),
        !state.done && state.conflict_alignments_count == 0
            ==> spec_decide_next_action(Action::Align, state) == Ok::<Action, AgentError>(Action::Resolve),
        !state.done && state.conflict_alignments_count > 0
            ==> spec_decide_next_action(Action::Align, state) == Ok::<Action, AgentError>(Action::Extract),
        !state.done ==> spec_decide_next_action(Action::Resolve, state)
            == Err::<Action, AgentError>(AgentError::InvalidTransition { from: Action::Resolve }),
        state.done ==> spec_decide_next_action(any_action, state) == Err::<Action, AgentError>(AgentError::EpisodeFinished),
{
}

/// The effect of each action on the counters and on the running reward total,
/// relative to the state it acts on: EXTRACT adds three facts and one conflict
/// and lowers the total by 0.2; ALIGN clears the conflicts and raises the total
/// by 0.2 when there were some, and changes nothing when there were none;
/// RESOLVE on a running episode marks it done and raises the total by 0.5, and
/// on a finished one is refused with the state left as it was. No action
/// changes the step counter.
pub proof fn lemma_action_effects(state: EpisodeState, action: Action)
    requires
        state.has_room_for(action),
    ensures
        ({
            let (next, r) = default_simulation(action, state);
            &&& next.step == state.step
            &&& next.max_steps == state.max_steps
            &&& action == Action::Extract ==> {
                &&& next.facts_count == state.facts_count + 3
                &&& next.conflict_alignments_count == state.conflict_alignments_count + 1
                &&& next.reward_tenths == state.reward_tenths - 2
                &&& next.done == state.done
            }
            &&& action == Action::Align && state.conflict_alignments_count > 0 ==> {
                &&& next.facts_count == state.facts_count
                &&& next.conflict_alignments_count == 0
                &&& next.reward_tenths == state.reward_tenths + 2
                &&& next.done == state.done
            }
            &&& action == Action::Align && state.conflict_alignments_count == 0 ==> next == state
            &&& action == Action::Resolve && !state.done ==> {
                &&& next.facts_count == state.facts_count
                &&& next.conflict_alignments_count == state.conflict_alignments_count
                &&& next.reward_tenths == state.reward_tenths + 5
                &&& next.done
            }
            &&& action == Action::Resolve && state.done ==> {
                &&& next == state
                &&& r == Err::<(), AgentErrorView>(AgentErrorView::SimulationError("Resolve called on already done episode"@))
            }
            &&& !(action == Action::Resolve && state.done) ==> {
                &&& (r is Ok) == (next.step <= next.max_steps && !(next.done && next.step == 0))
            }
        }),
{
}

/// After an ALIGN that the default simulator carried out without error on a
/// running episode, the next action is RESOLVE: aligning resolves every
/// conflict, so the EXTRACT/ALIGN cycle cannot repeat forever.
pub proof fn lemma_align_leads_to_resolve(state: EpisodeState)
    requires
        !state.done,
        default_simulation(Action::Align, state).1 is Ok,
    ensures
        default_simulation(Action::Align, state).0.conflict_alignments_count == 0,
        spec_decide_next_action(Action::Align, default_simulation(Action::Align, state).0)
            == Ok::<Action, AgentError>(Action::Resolve),
{
}

/// RESOLVE is chosen only after ALIGN, and only once no conflict remains.
pub proof fn lemma_resolve_only_without_conflicts(current_action: Action, state: EpisodeState)
    requires
        spec_decide_next_action(current_action, state) == Ok::<Action, AgentError>(Action::Resolve),
    ensures
        current_action == Action::Align,
        state.conflict_alignments_count == 0,
        !state.done,
{
}

/// Simulating an action never touches the episode's task, environment, model,
/// step counter, step limit or error message: counting steps is the caller's
/// business, and facts never disappear.
pub proof fn lemma_simulation_keeps_identity(action: Action, state: EpisodeState)
    requires
        state.has_room_for(action),
    ensures
        ({
            let next = default_simulation(action, state).0;
            &&& next.task == state.task
            &&& next.environment == state.environment
            &&& next.model == state.model
            &&& next.step == state.step
            &&& next.max_steps == state.max_steps
            &&& next.error == state.error
            &&& next.facts_count >= state.facts_count
            &&& (state.done ==> next.done)
        }),
{
}

/// The state with its step counter set to `step`.
pub open spec fn at_step(state: EpisodeState, step: u32) -> EpisodeState {
    EpisodeState { step, ..state }
}

/// A fresh episode run with the default simulator, where the caller counts
/// each step before simulating it, finishes in three steps: EXTRACT is followed
/// by ALIGN, ALIGN (which resolves every conflict) by RESOLVE, and RESOLVE ends
/// the episode with three facts, no conflict left and a reward of 0.5; after
/// that, no action may follow.
pub proof fn lemma_fresh_episode_finishes_in_three_steps(state: EpisodeState)
    requires
        state.step == 0,
        state.max_steps >= 3,
        !state.done,
        state.facts_count == 0,
        state.reward_tenths == 0,
        state.conflict_alignments_count < u32::MAX,
    ensures
        ({
            let (s1, r1) = default_simulation(Action::Extract, at_step(state, 1));
            let (s2, r2) = default_simulation(Action::Align, at_step(s1, 2));
            let (s3, r3) = default_simulation(Action::Resolve, at_step(s2, 3));
            &&& r1 is Ok
            &&& spec_decide_next_action(Action::Extract, s1) == Ok::<Action, AgentError>(Action::Align)
            &&& r2 is Ok
            &&& spec_decide_next_action(Action::Align, s2) == Ok::<Action, AgentError>(Action::Resolve)
            &&& r3 is Ok
            &&& s3.done
            &&& s3.facts_count == 3
            &&& s3.conflict_alignments_count == 0
            &&& s3.reward_tenths == 5
            &&& spec_decide_next_action(Action::Resolve, s3) == Err::<Action, AgentError>(AgentError::EpisodeFinished)
        }),
{
}

} // verus!
