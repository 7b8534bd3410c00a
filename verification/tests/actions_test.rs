use aigon_agent::actions::next_step;
use aigon_agent::control::Action;

#[test]
fn test_extract_always_leads_to_align() {
    assert_eq!(next_step(Action::Extract, 0, None), Some(Action::Align));
    assert_eq!(next_step(Action::Extract, 100, None), Some(Action::Align));
    assert_eq!(next_step(Action::Extract, usize::MAX, None), Some(Action::Align));
}

#[test]
fn test_align_all_conflicts_resolved() {
    assert_eq!(next_step(Action::Align, 0, None), Some(Action::Resolve));
}

#[test]
fn test_align_conflicts_remaining() {
    assert_eq!(next_step(Action::Align, 1, None), Some(Action::Extract));
    assert_eq!(next_step(Action::Align, 42, None), Some(Action::Extract));
    assert_eq!(next_step(Action::Align, usize::MAX, None), Some(Action::Extract));
}

#[test]
fn test_resolve_terminates() {
    assert_eq!(next_step(Action::Resolve, 0, None), None);
}

#[test]
fn test_resolve_with_conflicts_terminates_with_error_log() {
    assert_eq!(next_step(Action::Resolve, 1, None), None);
    assert_eq!(next_step(Action::Resolve, 99, None), None);
}

#[test]
fn test_error_always_terminates() {
    assert_eq!(next_step(Action::Extract, 0, Some("timeout")), None);
    assert_eq!(next_step(Action::Align, 5, Some("deadlock")), None);
    assert_eq!(next_step(Action::Resolve, 0, Some("panic")), None);
    assert_eq!(next_step(Action::Resolve, 99, Some("oops")), None);
}

#[test]
fn test_zero_conflicts_after_extract_is_valid() {
    assert_eq!(next_step(Action::Extract, 0, None), Some(Action::Align));
}

#[test]
fn test_large_conflicts_does_not_panic() {
    assert_eq!(next_step(Action::Extract, usize::MAX, None), Some(Action::Align));
    assert_eq!(next_step(Action::Align, usize::MAX, None), Some(Action::Extract));
}

/// Every variant of `Action` is handled by the step function: none falls
/// through to a catch-all, and each gives the answer of its own rule.
#[test]
fn test_non_exhaustive_variant_logs_error() {
    for action in [Action::Extract, Action::Align, Action::Resolve] {
        assert_eq!(next_step(action, 0, Some("error")), None);
    }
    assert_eq!(next_step(Action::Resolve, 0, None), None);
}

#[test]
fn pipeline_without_conflicts_ends_after_three_steps() {
    let mut current = Some(Action::Extract);
    let mut visited = Vec::new();
    while let Some(action) = current {
        visited.push(action);
        current = next_step(action, 0, None);
    }
    assert_eq!(visited, vec![Action::Extract, Action::Align, Action::Resolve]);
}

#[test]
fn pipeline_with_conflicts_keeps_cycling() {
    let mut current = Action::Extract;
    for i in 0..10 {
        let expected = if i % 2 == 0 { Action::Extract } else { Action::Align };
        assert_eq!(current, expected);
        current = next_step(current, 3, None).unwrap();
    }
}
