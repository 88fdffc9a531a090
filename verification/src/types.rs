//! Vocabulary of the control loop: system states, per-cycle actions,
//! degraded-mode reasons, and the per-cycle sensor observation.

use vstd::prelude::*;

verus! {

/// The operating state of the monitoring agent. Exactly one is current at
/// any time.
#[derive(Debug, Clone, Copy, PartialEq, Eq, Structural)]
pub enum SystemState {
    Idle,
    Monitoring,
    Recording,
    Alerting,
    Degraded,
}

/// The single control decision emitted by one observation-action cycle.
#[derive(Debug, Clone, Copy, PartialEq, Eq, Structural)]
pub enum Action {
    NoOp,
    StartRecording,
    StopRecording,
    SendAlert,
    EnterDegradedMode,
    ExitDegradedMode,
}

/// Why the system is in degraded mode. Present only while the state is
/// `Degraded`.
#[derive(Debug, Clone, Copy, PartialEq, Eq, Structural)]
pub enum DegradedReason {
    HighCpu,
    DetectorFailure,
}

/// One cycle's immutable sensor snapshot.
///
/// `motion_level` ranges over 0-255, `confidence` and `cpu_load` over 0-100;
/// the policy performs no clamping, so out-of-range values are the caller's
/// responsibility.
#[derive(Debug, Clone, Copy, PartialEq, Eq, Structural)]
pub struct Observation {
    pub motion_level: u8,
    pub object_detected: bool,
    pub confidence: u8,
    pub cpu_load: u8,
    pub detector_healthy: bool,
}

} // verus!
