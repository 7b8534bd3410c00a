//! A small agent that drives an episode through the EXTRACT → ALIGN → RESOLVE
//! cycle: it decides which step comes next, simulates the effect of each step
//! on the episode state, and scores the steps.

pub mod actions;
pub mod control;
pub mod controller;
pub mod reward;
pub mod steps;
pub mod text;
pub mod types;
