# aigon_agent

An agent that runs an episode through the EXTRACT → ALIGN → RESOLVE cycle.
The library in `src/` is verified with Verus: the step function, the
simulator, the transition rule, the one-step episode driver, the controller
and the rewards. The program in `app/` that loops over the steps and prints
them is ordinary, unverified Rust.

- `src/actions.rs`: the step function `next_step` of the action pipeline and
  its laws (an error stops the loop, RESOLVE only follows ALIGN with no
  conflict left, the pipeline stops after three steps without conflicts and
  cycles forever with them).
- `src/control.rs`: the episode state, the `Simulator` trait, the default
  simulator, the transition rule `decide_next_action`, the one-step driver
  `episode_step`, and the laws that tie
  them (a successful ALIGN leads to RESOLVE; a fresh episode finishes in three
  steps).
- `src/controller.rs`: the EXTRACT/ALIGN alternating controller.
- `src/reward.rs`: step rewards.
- `src/steps.rs`, `src/types.rs`: step actions and step results.
- `src/text.rs`: decimal rendering used in error details.
- `app/`: the command-line program that runs one episode and prints it, and
  the displayable copies of the action and error types.

Rewards are integers in tenths of a point: every reward the agent gives is a
multiple of 0.1, so the totals are exact.
