//! The fixed finite-state policy and the agent that owns its state.
//!
//! The policy is a pure, total transition function: from the current state,
//! one observation and the degraded-mode bookkeeping it decides the next
//! state, the single action of the cycle, the next degraded reason and
//! whether the debounce counter resets. The agent applies one such decision
//! per cycle to the state it owns.

use vstd::prelude::*;

use crate::types::{Action, DegradedReason, Observation, SystemState};

verus! {

/// CPU load (percent) above which any state degrades.
pub const CPU_DEGRADE: u8 = 85;

/// CPU load (percent) below which a degraded system may recover.
pub const CPU_RECOVER: u8 = 60;

/// Motion level above which an idle system starts monitoring; at or below
/// it, monitoring falls back to idle and recording stops.
pub const MOTION_THRESHOLD: u8 = 30;

/// Motion level above which monitoring starts recording, given a detected
/// object.
pub const RECORD_THRESHOLD: u8 = 50;

/// Detection confidence above which recording raises an alert.
pub const ALERT_CONFIDENCE: u8 = 80;

/// Consecutive cycles that must be spent in Degraded before recovery is
/// considered (a debounce against flapping).
pub const RECOVERY_CYCLES: u32 = 3;

/// A fresh degrade trigger in the observation: CPU overload, or an unhealthy
/// detector. CPU overload takes priority when both hold.
pub open spec fn degrade_trigger(obs: Observation) -> bool {
    obs.cpu_load > CPU_DEGRADE || !obs.detector_healthy
}

/// The degraded system is due to recover on this cycle: the debounce count
/// is reached and the reading is low-load and healthy.
pub open spec fn recovery_due(obs: Observation, degraded_cycles: u32) -> bool {
    &&& degraded_cycles + 1 >= RECOVERY_CYCLES
    &&& obs.cpu_load < CPU_RECOVER
    &&& obs.detector_healthy
}

/// The decision ladder, first matching rule wins: a fresh degrade trigger
/// forces Degraded from any state; an already degraded system recovers to
/// Monitoring when `recovery_due` holds and otherwise stays put without
/// resetting the debounce counter; every other state follows its normal
/// transitions. The last component says whether the debounce counter resets.
pub open spec fn spec_transition(
    state: SystemState,
    obs: Observation,
    degraded_reason: Option<DegradedReason>,
    degraded_cycles: u32,
) -> (SystemState, Action, Option<DegradedReason>, bool) {
    if obs.cpu_load > CPU_DEGRADE {
        (SystemState::Degraded, Action::EnterDegradedMode, Some(DegradedReason::HighCpu), true)
    } else if !obs.detector_healthy {
        (
            SystemState::Degraded,
            Action::EnterDegradedMode,
            Some(DegradedReason::DetectorFailure),
            true,
        )
    } else if state is Degraded {
        if recovery_due(obs, degraded_cycles) {
            (SystemState::Monitoring, Action::ExitDegradedMode, None, true)
        } else {
            (SystemState::Degraded, Action::NoOp, degraded_reason, false)
        }
    } else {
        match state {
            SystemState::Idle => {
                if obs.motion_level > MOTION_THRESHOLD {
                    (SystemState::Monitoring, Action::NoOp, degraded_reason, true)
                } else {
                    (SystemState::Idle, Action::NoOp, degraded_reason, true)
                }
            },
            SystemState::Monitoring => {
                if obs.motion_level > RECORD_THRESHOLD && obs.object_detected {
                    (SystemState::Recording, Action::StartRecording, degraded_reason, true)
                } else if obs.motion_level <= MOTION_THRESHOLD {
                    (SystemState::Idle, Action::NoOp, degraded_reason, true)
                } else {
                    (SystemState::Monitoring, Action::NoOp, degraded_reason, true)
                }
            },
            SystemState::Recording => {
                if obs.confidence > ALERT_CONFIDENCE {
                    (SystemState::Alerting, Action::SendAlert, degraded_reason, true)
                } else if obs.motion_level <= MOTION_THRESHOLD {
                    (SystemState::Monitoring, Action::StopRecording, degraded_reason, true)
                } else {
                    (SystemState::Recording, Action::NoOp, degraded_reason, true)
                }
            },
            SystemState::Alerting => {
                (SystemState::Recording, Action::NoOp, degraded_reason, true)
            },
            SystemState::Degraded => {
                (SystemState::Degraded, Action::NoOp, degraded_reason, false)
            },
        }
    }
}

/// One decision of the policy. Pure and total: every input combination
/// yields the output that `spec_transition` gives it.
pub fn transition(
    state: SystemState,
    obs: Observation,
    degraded_reason: Option<DegradedReason>,
    degraded_cycles: u32,
) -> (r: (SystemState, Action, Option<DegradedReason>, bool))
    ensures
        r == spec_transition(state, obs, degraded_reason, degraded_cycles),
{
    if obs.cpu_load > CPU_DEGRADE {
        return (
            SystemState::Degraded,
            Action::EnterDegradedMode,
            Some(DegradedReason::HighCpu),
            true,
        );
    }
    if !obs.detector_healthy {
        return (
            SystemState::Degraded,
            Action::EnterDegradedMode,
            Some(DegradedReason::DetectorFailure),
            true,
        );
    }
    if state == SystemState::Degraded {
        if degraded_cycles >= RECOVERY_CYCLES - 1 && obs.cpu_load < CPU_RECOVER
            && obs.detector_healthy {
            return (SystemState::Monitoring, Action::ExitDegradedMode, None, true);
        } else {
            return (SystemState::Degraded, Action::NoOp, degraded_reason, false);
        }
    }
    match state {
        SystemState::Idle => {
            if obs.motion_level > MOTION_THRESHOLD {
                (SystemState::Monitoring, Action::NoOp, degraded_reason, true)
            } else {
                (SystemState::Idle, Action::NoOp, degraded_reason, true)
            }
        },
        SystemState::Monitoring => {
            if obs.motion_level > RECORD_THRESHOLD && obs.object_detected {
                (SystemState::Recording, Action::StartRecording, degraded_reason, true)
            } else if obs.motion_level <= MOTION_THRESHOLD {
                (SystemState::Idle, Action::NoOp, degraded_reason, true)
            } else {
                (SystemState::Monitoring, Action::NoOp, degraded_reason, true)
            }
        },
        SystemState::Recording => {
            if obs.confidence > ALERT_CONFIDENCE {
                (SystemState::Alerting, Action::SendAlert, degraded_reason, true)
            } else if obs.motion_level <= MOTION_THRESHOLD {
                (SystemState::Monitoring, Action::StopRecording, degraded_reason, true)
            } else {
                (SystemState::Recording, Action::NoOp, degraded_reason, true)
            }
        },
        SystemState::Alerting => (SystemState::Recording, Action::NoOp, degraded_reason, true),
        SystemState::Degraded => (SystemState::Degraded, Action::NoOp, degraded_reason, false),
    }
}

/// The mathematical model of a [`CameraAgent`]: its state, the current
/// degraded-mode reason, and the debounce counter.
pub ghost struct AgentView {
    pub state: SystemState,
    pub degraded_reason: Option<DegradedReason>,
    pub degraded_cycles: u32,
}

impl AgentView {
    /// Well-formedness: a degraded reason is present exactly while the state
    /// is Degraded, and the debounce counter is zero outside Degraded.
    pub open spec fn wf(self) -> bool {
        &&& self.degraded_reason is Some <==> self.state is Degraded
        &&& self.state !is Degraded ==> self.degraded_cycles == 0
    }
}

/// The agent after one decision on `obs`, with the action that the cycle
/// emits: the decision of `spec_transition` applied to the agent's state,
/// with the debounce counter reset to zero or incremented as the decision
/// says.
pub open spec fn spec_step(a: AgentView, obs: Observation) -> (AgentView, Action) {
    let (next_state, action, next_reason, reset) = spec_transition(
        a.state,
        obs,
        a.degraded_reason,
        a.degraded_cycles,
    );
    (
        AgentView {
            state: next_state,
            degraded_reason: next_reason,
            degraded_cycles: if reset {
                0u32
            } else {
                (a.degraded_cycles + 1) as u32
            },
        },
        action,
    )
}

/// The stateful wrapper around the policy: owns the current state and the
/// degraded-mode bookkeeping, and applies one decision per cycle.
pub struct CameraAgent {
    state: SystemState,
    degraded_reason: Option<DegradedReason>,
    degraded_cycles: u32,
}

impl View for CameraAgent {
    type V = AgentView;

    closed spec fn view(&self) -> AgentView {
        AgentView {
            state: self.state,
            degraded_reason: self.degraded_reason,
            degraded_cycles: self.degraded_cycles,
        }
    }
}

impl CameraAgent {
    /// A fresh agent: Idle, no degraded reason, debounce counter at zero.
    pub fn new() -> (agent: CameraAgent)
        ensures
            agent@.state is Idle,
            agent@.degraded_reason is None,
            agent@.degraded_cycles == 0,
            agent@.wf(),
    {
        CameraAgent { state: SystemState::Idle, degraded_reason: None, degraded_cycles: 0 }
    }

    /// The current state, read-only.
    pub fn current_state(&self) -> (state: SystemState)
        ensures
            state == self@.state,
    {
        self.state
    }

    /// The current debounce counter, read-only.
    pub fn degraded_cycles(&self) -> (cycles: u32)
        ensures
            cycles == self@.degraded_cycles,
    {
        self.degraded_cycles
    }

    /// One observation-action cycle: decides with the policy, replaces
    /// state and reason, and resets or increments the debounce counter as
    /// the decision says. Returns the cycle's action.
    pub fn step(&mut self, obs: Observation) -> (action: Action)
        requires
            old(self)@.degraded_cycles < u32::MAX,
        ensures
            final(self)@ == spec_step(old(self)@, obs).0,
            action == spec_step(old(self)@, obs).1,
    {
        let (next_state, action, degraded_reason, reset_cycles) = transition(
            self.state,
            obs,
            self.degraded_reason,
            self.degraded_cycles,
        );
        self.state = next_state;
        self.degraded_reason = degraded_reason;
        self.degraded_cycles = if reset_cycles {
            0
        } else {
            self.degraded_cycles + 1
        };
        action
    }
}

/// A CPU reading above the degrade threshold forces Degraded with reason
/// HighCpu and action EnterDegradedMode, whatever the state, the rest of the
/// observation and the bookkeeping; the debounce counter resets.
pub proof fn lemma_high_cpu_forces_degraded(
    state: SystemState,
    obs: Observation,
    degraded_reason: Option<DegradedReason>,
    degraded_cycles: u32,
)
    requires
        obs.cpu_load > CPU_DEGRADE,
    ensures
        spec_transition(state, obs, degraded_reason, degraded_cycles) == (
            SystemState::Degraded,
            Action::EnterDegradedMode,
            Some(DegradedReason::HighCpu),
            true,
        ),
{
}

/// An unhealthy detector, absent CPU overload, forces Degraded with reason
/// DetectorFailure and action EnterDegradedMode, whatever the state, the
/// rest of the observation and the bookkeeping; the debounce counter resets.
pub proof fn lemma_detector_failure_forces_degraded(
    state: SystemState,
    obs: Observation,
    degraded_reason: Option<DegradedReason>,
    degraded_cycles: u32,
)
    requires
        obs.cpu_load <= CPU_DEGRADE,
        !obs.detector_healthy,
    ensures
        spec_transition(state, obs, degraded_reason, degraded_cycles) == (
            SystemState::Degraded,
            Action::EnterDegradedMode,
            Some(DegradedReason::DetectorFailure),
            true,
        ),
{
}

/// From Degraded, recovery to Monitoring with action ExitDegradedMode
/// happens exactly when no fresh trigger fires and the recovery condition
/// is due; when neither a fresh trigger nor a due recovery holds, the
/// system stays Degraded with action None, an unchanged reason and no
/// counter reset.
pub proof fn lemma_degraded_recovery(
    obs: Observation,
    degraded_reason: Option<DegradedReason>,
    degraded_cycles: u32,
)
    ensures
        ({
            let (next, action, reason, reset) = spec_transition(
                SystemState::Degraded,
                obs,
                degraded_reason,
                degraded_cycles,
            );
            &&& (next is Monitoring && action == Action::ExitDegradedMode) <==> (!degrade_trigger(
                obs,
            ) && recovery_due(obs, degraded_cycles))
            &&& !degrade_trigger(obs) && !recovery_due(obs, degraded_cycles) ==> (next is Degraded
                && action == Action::NoOp && reason == degraded_reason && !reset)
        }),
{
}

/// Entering Degraded resets the debounce counter, so the first two cycles
/// spent in Degraded can never exit: with a debounce of three cycles, the
/// earliest possible ExitDegradedMode is on the third cycle after entry.
pub proof fn lemma_no_early_recovery(
    degraded_reason: Option<DegradedReason>,
    o1: Observation,
    o2: Observation,
)
    ensures
        ({
            let entered = AgentView {
                state: SystemState::Degraded,
                degraded_reason: degraded_reason,
                degraded_cycles: 0,
            };
            let (a1, act1) = spec_step(entered, o1);
            let (a2, act2) = spec_step(a1, o2);
            &&& act1 != Action::ExitDegradedMode
            &&& a1.state is Degraded
            &&& act2 != Action::ExitDegradedMode
            &&& a2.state is Degraded
        }),
{
}

/// With no degrade trigger in the observation, the normal transitions hold:
/// Idle moves to Monitoring exactly when motion exceeds the motion
/// threshold; Monitoring moves to Recording exactly when motion exceeds the
/// record threshold and an object is detected; Recording moves to Alerting
/// exactly when confidence exceeds the alert threshold; Alerting always
/// returns to Recording.
pub proof fn lemma_normal_transitions(
    state: SystemState,
    obs: Observation,
    degraded_reason: Option<DegradedReason>,
    degraded_cycles: u32,
)
    requires
        !degrade_trigger(obs),
    ensures
        ({
            let next = spec_transition(state, obs, degraded_reason, degraded_cycles).0;
            &&& state is Idle ==> (next is Monitoring <==> obs.motion_level > MOTION_THRESHOLD)
            &&& state is Monitoring ==> (next is Recording <==> (obs.motion_level
                > RECORD_THRESHOLD && obs.object_detected))
            &&& state is Recording ==> (next is Alerting <==> obs.confidence > ALERT_CONFIDENCE)
            &&& state is Alerting ==> next is Recording
        }),
{
}

/// The debounce counter resets on every transition except "remain in
/// Degraded without a fresh trigger or a due recovery": exactly there the
/// decision keeps the counter, and wherever it resets, the agent's counter
/// is zero after the step.
pub proof fn lemma_cycles_reset(a: AgentView, obs: Observation)
    ensures
        ({
            let reset = spec_transition(a.state, obs, a.degraded_reason, a.degraded_cycles).3;
            &&& !reset <==> (a.state is Degraded && !degrade_trigger(obs) && !recovery_due(
                obs,
                a.degraded_cycles,
            ))
            &&& reset ==> spec_step(a, obs).0.degraded_cycles == 0
        }),
{
}

/// One step keeps the agent well-formed: the degraded reason stays present
/// exactly while the state is Degraded, and the debounce counter stays zero
/// outside Degraded.
pub proof fn lemma_step_preserves_wf(a: AgentView, obs: Observation)
    requires
        a.wf(),
    ensures
        spec_step(a, obs).0.wf(),
{
}

} // verus!
