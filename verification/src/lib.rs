//! A single-camera monitoring agent: a fixed finite-state policy that maps
//! sensor observations to control actions, an agent that owns the current
//! state, and a scheduler that drives the agent at a fixed cadence while
//! tracking deadline compliance.

pub mod agent;
pub mod scheduler;
pub mod types;
