use aigon_agent::control::{
    decide_next_action, episode_step, Action, AgentError, DefaultSimulator, EpisodeProgress, EpisodeState, Simulator,
};
use aigon_agent::text::append_decimal;

fn fresh(max_steps: u32) -> EpisodeState {
    EpisodeState::new("task".to_string(), "env".to_string(), "model".to_string(), max_steps)
}

#[test]
fn new_state_has_initial_values() {
    let state = fresh(10);
    assert_eq!(state.task, "task");
    assert_eq!(state.environment, "env");
    assert_eq!(state.model, "model");
    assert_eq!(state.step, 0);
    assert_eq!(state.max_steps, 10);
    assert_eq!(state.facts_count, 0);
    assert_eq!(state.conflict_alignments_count, 2);
    assert_eq!(state.reward_tenths, 0);
    assert!(!state.done);
    assert!(state.error.is_none());
}

#[test]
fn action_labels() {
    assert_eq!(Action::Extract.to_string(), "EXTRACT");
    assert_eq!(Action::Align.to_string(), "ALIGN");
    assert_eq!(Action::Resolve.to_string(), "RESOLVE");
}

#[test]
fn extract_adds_facts_and_a_conflict() {
    let sim = DefaultSimulator::new();
    let mut state = fresh(5);
    state.step = 1;
    sim.simulate(&Action::Extract, &mut state).unwrap();
    assert_eq!(state.facts_count, 3);
    assert_eq!(state.conflict_alignments_count, 3);
    assert_eq!(state.reward_tenths, -2);
    assert!(!state.done);
}

#[test]
fn align_resolves_every_conflict() {
    let sim = DefaultSimulator::new();
    let mut state = fresh(5);
    state.step = 1;
    sim.simulate(&Action::Align, &mut state).unwrap();
    assert_eq!(state.conflict_alignments_count, 0);
    assert_eq!(state.reward_tenths, 2);
    // A second ALIGN finds nothing to resolve and earns nothing.
    sim.simulate(&Action::Align, &mut state).unwrap();
    assert_eq!(state.conflict_alignments_count, 0);
    assert_eq!(state.reward_tenths, 2);
}

#[test]
fn resolve_marks_done_once() {
    let sim = DefaultSimulator::new();
    let mut state = fresh(5);
    state.step = 1;
    sim.simulate(&Action::Resolve, &mut state).unwrap();
    assert!(state.done);
    assert_eq!(state.reward_tenths, 5);
    let err = sim.simulate(&Action::Resolve, &mut state).unwrap_err();
    match err {
        AgentError::SimulationError(msg) => assert_eq!(msg, "Resolve called on already done episode"),
        other => panic!("unexpected error {:?}", other),
    }
    assert_eq!(state.reward_tenths, 5);
}

#[test]
fn resolve_before_any_step_is_inconsistent() {
    let sim = DefaultSimulator::new();
    let mut state = fresh(5);
    let err = sim.simulate(&Action::Resolve, &mut state).unwrap_err();
    match err {
        AgentError::InvalidState { detail } => assert_eq!(detail, "episode marked done before any step"),
        other => panic!("unexpected error {:?}", other),
    }
    assert!(state.done);
}

#[test]
fn step_beyond_limit_is_inconsistent() {
    let sim = DefaultSimulator::new();
    let mut state = fresh(3);
    state.step = 17;
    let err = sim.simulate(&Action::Extract, &mut state).unwrap_err();
    match err {
        AgentError::InvalidState { detail } => assert_eq!(detail, "step 17 exceeds max_steps 3"),
        other => panic!("unexpected error {:?}", other),
    }
    assert_eq!(state.facts_count, 3);
}

#[test]
fn decide_follows_the_transition_rule() {
    let mut state = fresh(5);
    assert!(matches!(decide_next_action(&Action::Extract, &state), Ok(Action::Align)));
    assert!(matches!(decide_next_action(&Action::Align, &state), Ok(Action::Extract)));
    state.conflict_alignments_count = 0;
    assert!(matches!(decide_next_action(&Action::Align, &state), Ok(Action::Resolve)));
    assert!(matches!(
        decide_next_action(&Action::Resolve, &state),
        Err(AgentError::InvalidTransition { from: Action::Resolve })
    ));
    state.done = true;
    assert!(matches!(decide_next_action(&Action::Extract, &state), Err(AgentError::EpisodeFinished)));
}

#[test]
fn align_then_decide_gives_resolve() {
    let sim = DefaultSimulator::new();
    let mut state = fresh(5);
    state.step = 1;
    state.conflict_alignments_count = 40;
    sim.simulate(&Action::Align, &mut state).unwrap();
    assert!(matches!(decide_next_action(&Action::Align, &state), Ok(Action::Resolve)));
}

#[test]
fn fresh_episode_finishes_in_three_steps() {
    let sim = DefaultSimulator::new();
    let mut state = fresh(10);
    let mut action = Action::Extract;
    let mut taken = Vec::new();
    loop {
        state.step += 1;
        sim.simulate(&action, &mut state).unwrap();
        taken.push(action);
        match decide_next_action(&action, &state) {
            Ok(next) => action = next,
            Err(AgentError::EpisodeFinished) => break,
            Err(other) => panic!("unexpected error {:?}", other),
        }
    }
    assert_eq!(taken, vec![Action::Extract, Action::Align, Action::Resolve]);
    assert!(state.done);
    assert_eq!(state.facts_count, 3);
    assert_eq!(state.conflict_alignments_count, 0);
    assert_eq!(state.reward_tenths, 5);
}

#[test]
fn decimal_rendering() {
    let mut s = String::from("n=");
    append_decimal(&mut s, 0);
    assert_eq!(s, "n=0");
    let mut s = String::new();
    append_decimal(&mut s, 4_294_967_295);
    assert_eq!(s, "4294967295");
    let mut s = String::new();
    append_decimal(&mut s, 1009);
    assert_eq!(s, "1009");
}

#[test]
fn align_and_resolve_work_on_full_counters() {
    let sim = DefaultSimulator::new();
    let mut state = fresh(5);
    state.step = 1;
    state.facts_count = u32::MAX;
    state.conflict_alignments_count = u32::MAX;
    assert!(!state.can_simulate(&Action::Extract));
    assert!(state.can_simulate(&Action::Align));
    sim.simulate(&Action::Align, &mut state).unwrap();
    assert_eq!(state.conflict_alignments_count, 0);
    assert!(matches!(decide_next_action(&Action::Align, &state), Ok(Action::Resolve)));
    assert!(state.can_simulate(&Action::Resolve));
    sim.simulate(&Action::Resolve, &mut state).unwrap();
    assert!(matches!(decide_next_action(&Action::Extract, &state), Err(AgentError::EpisodeFinished)));
}

#[test]
fn room_checks_follow_the_reward_limits() {
    let mut state = fresh(5);
    state.reward_tenths = i64::MAX - 1;
    assert!(!state.can_simulate(&Action::Align));
    assert!(!state.can_simulate(&Action::Resolve));
    state.conflict_alignments_count = 0;
    assert!(state.can_simulate(&Action::Align));
    state.reward_tenths = i64::MIN + 1;
    assert!(!state.can_simulate(&Action::Extract));
}

#[test]
fn episode_steps_run_a_fresh_episode() {
    let sim = DefaultSimulator::new();
    let mut state = fresh(10);
    assert_eq!(episode_step(&sim, &mut state, Action::Extract).unwrap(), EpisodeProgress::Next(Action::Align));
    assert_eq!(state.step, 1);
    assert_eq!(episode_step(&sim, &mut state, Action::Align).unwrap(), EpisodeProgress::Next(Action::Resolve));
    assert_eq!(episode_step(&sim, &mut state, Action::Resolve).unwrap(), EpisodeProgress::Finished);
    assert_eq!(state.step, 3);
    assert_eq!(state.reward_tenths, 5);
    assert!(state.done);
}

#[test]
fn episode_step_stops_at_the_limit() {
    let sim = DefaultSimulator::new();
    let mut state = fresh(1);
    assert_eq!(episode_step(&sim, &mut state, Action::Extract).unwrap(), EpisodeProgress::Next(Action::Align));
    assert_eq!(episode_step(&sim, &mut state, Action::Align).unwrap(), EpisodeProgress::OutOfSteps);
    assert_eq!(state.step, 1);
    assert_eq!(state.conflict_alignments_count, 3);
}

#[test]
fn episode_step_reports_simulation_errors() {
    let sim = DefaultSimulator::new();
    let mut state = fresh(5);
    state.done = true;
    let err = episode_step(&sim, &mut state, Action::Resolve).unwrap_err();
    assert!(matches!(err, AgentError::SimulationError(_)));
    assert_eq!(state.step, 1);
}
