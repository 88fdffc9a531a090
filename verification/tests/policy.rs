use camera_agent::agent::{transition, CameraAgent};
use camera_agent::types::{Action, DegradedReason, Observation, SystemState};

fn obs(
    motion_level: u8,
    object_detected: bool,
    confidence: u8,
    cpu_load: u8,
    detector_healthy: bool,
) -> Observation {
    Observation { motion_level, object_detected, confidence, cpu_load, detector_healthy }
}

#[test]
fn idle_to_monitoring() {
    let obs = Observation {
        motion_level: 50,
        object_detected: false,
        confidence: 0,
        cpu_load: 10,
        detector_healthy: true,
    };

    let (next_state, action, _, _) = transition(SystemState::Idle, obs, None, 0);

    assert_eq!(next_state, SystemState::Monitoring);
    assert_eq!(action, Action::NoOp);
}

#[test]
fn monitoring_to_recording() {
    let obs = Observation {
        motion_level: 60,
        object_detected: true,
        confidence: 90,
        cpu_load: 10,
        detector_healthy: true,
    };

    let (next_state, action, _, _) = transition(SystemState::Monitoring, obs, None, 0);

    assert_eq!(next_state, SystemState::Recording);
    assert_eq!(action, Action::StartRecording);
}

#[test]
fn recording_to_alerting() {
    let obs = Observation {
        motion_level: 60,
        object_detected: true,
        confidence: 90,
        cpu_load: 10,
        detector_healthy: true,
    };

    let (next_state, action, _, _) = transition(SystemState::Recording, obs, None, 0);

    assert_eq!(next_state, SystemState::Alerting);
    assert_eq!(action, Action::SendAlert);
}

#[test]
fn degraded_on_high_cpu() {
    let obs = Observation {
        motion_level: 0,
        object_detected: false,
        confidence: 0,
        cpu_load: 90,
        detector_healthy: true,
    };

    let (next_state, action, _, _) = transition(SystemState::Monitoring, obs, None, 0);

    assert_eq!(next_state, SystemState::Degraded);
    assert_eq!(action, Action::EnterDegradedMode);
}

#[test]
fn degraded_on_detector_failure() {
    let obs = Observation {
        motion_level: 0,
        object_detected: false,
        confidence: 0,
        cpu_load: 10,
        detector_healthy: false,
    };

    let (next_state, action, _, _) = transition(SystemState::Recording, obs, None, 0);

    assert_eq!(next_state, SystemState::Degraded);
    assert_eq!(action, Action::EnterDegradedMode);
}

#[test]
fn idle_motion_forty_starts_monitoring() {
    let (next, action, reason, _) =
        transition(SystemState::Idle, obs(40, false, 0, 10, true), None, 0);
    assert_eq!(next, SystemState::Monitoring);
    assert_eq!(action, Action::NoOp);
    assert_eq!(reason, None);
}

#[test]
fn monitoring_motion_sixty_starts_recording() {
    let (next, action, _, _) =
        transition(SystemState::Monitoring, obs(60, true, 0, 10, true), None, 0);
    assert_eq!(next, SystemState::Recording);
    assert_eq!(action, Action::StartRecording);
}

#[test]
fn high_cpu_sets_high_cpu_reason() {
    let (next, action, reason, reset) =
        transition(SystemState::Monitoring, obs(0, false, 0, 90, true), None, 0);
    assert_eq!(next, SystemState::Degraded);
    assert_eq!(action, Action::EnterDegradedMode);
    assert_eq!(reason, Some(DegradedReason::HighCpu));
    assert!(reset);
}

#[test]
fn detector_failure_sets_detector_reason() {
    let (next, action, reason, reset) =
        transition(SystemState::Idle, obs(0, false, 0, 85, false), None, 0);
    assert_eq!(next, SystemState::Degraded);
    assert_eq!(action, Action::EnterDegradedMode);
    assert_eq!(reason, Some(DegradedReason::DetectorFailure));
    assert!(reset);
}

#[test]
fn high_cpu_outranks_detector_failure() {
    let (_, _, reason, _) =
        transition(SystemState::Recording, obs(0, false, 0, 86, false), None, 0);
    assert_eq!(reason, Some(DegradedReason::HighCpu));
}

#[test]
fn cpu_at_threshold_is_no_trigger() {
    let (next, action, _, _) = transition(SystemState::Idle, obs(0, false, 0, 85, true), None, 0);
    assert_eq!(next, SystemState::Idle);
    assert_eq!(action, Action::NoOp);
}

#[test]
fn idle_motion_at_threshold_stays_idle() {
    let (next, _, _, _) = transition(SystemState::Idle, obs(30, false, 0, 10, true), None, 0);
    assert_eq!(next, SystemState::Idle);
    let (next, _, _, _) = transition(SystemState::Idle, obs(31, false, 0, 10, true), None, 0);
    assert_eq!(next, SystemState::Monitoring);
}

#[test]
fn monitoring_needs_motion_and_detection() {
    // Motion at the record threshold, or no detected object, is not enough.
    let (next, _, _, _) =
        transition(SystemState::Monitoring, obs(50, true, 0, 10, true), None, 0);
    assert_eq!(next, SystemState::Monitoring);
    let (next, _, _, _) =
        transition(SystemState::Monitoring, obs(51, false, 0, 10, true), None, 0);
    assert_eq!(next, SystemState::Monitoring);
    let (next, action, _, _) =
        transition(SystemState::Monitoring, obs(51, true, 0, 10, true), None, 0);
    assert_eq!(next, SystemState::Recording);
    assert_eq!(action, Action::StartRecording);
}

#[test]
fn monitoring_low_motion_returns_to_idle() {
    let (next, action, _, _) =
        transition(SystemState::Monitoring, obs(30, false, 0, 10, true), None, 0);
    assert_eq!(next, SystemState::Idle);
    assert_eq!(action, Action::NoOp);
}

#[test]
fn recording_confidence_at_threshold_keeps_recording() {
    let (next, action, _, _) =
        transition(SystemState::Recording, obs(60, true, 80, 10, true), None, 0);
    assert_eq!(next, SystemState::Recording);
    assert_eq!(action, Action::NoOp);
    let (next, action, _, _) =
        transition(SystemState::Recording, obs(60, true, 81, 10, true), None, 0);
    assert_eq!(next, SystemState::Alerting);
    assert_eq!(action, Action::SendAlert);
}

#[test]
fn recording_low_motion_stops_recording() {
    let (next, action, _, _) =
        transition(SystemState::Recording, obs(30, false, 0, 10, true), None, 0);
    assert_eq!(next, SystemState::Monitoring);
    assert_eq!(action, Action::StopRecording);
}

#[test]
fn alerting_is_a_one_cycle_pulse() {
    let (next, action, _, _) =
        transition(SystemState::Alerting, obs(200, true, 100, 10, true), None, 0);
    assert_eq!(next, SystemState::Recording);
    assert_eq!(action, Action::NoOp);
}

#[test]
fn degraded_recovery_needs_debounce_count() {
    let good = obs(0, false, 0, 10, true);
    // Fewer than the required cycles keep the system Degraded with no action.
    let (next, action, reason, reset) =
        transition(SystemState::Degraded, good, Some(DegradedReason::HighCpu), 0);
    assert_eq!(next, SystemState::Degraded);
    assert_eq!(action, Action::NoOp);
    assert_eq!(reason, Some(DegradedReason::HighCpu));
    assert!(!reset);
    let (next, action, _, _) =
        transition(SystemState::Degraded, good, Some(DegradedReason::HighCpu), 1);
    assert_eq!(next, SystemState::Degraded);
    assert_eq!(action, Action::NoOp);
    // On the third consecutive cycle the system recovers and clears the reason.
    let (next, action, reason, reset) =
        transition(SystemState::Degraded, good, Some(DegradedReason::HighCpu), 2);
    assert_eq!(next, SystemState::Monitoring);
    assert_eq!(action, Action::ExitDegradedMode);
    assert_eq!(reason, None);
    assert!(reset);
}

#[test]
fn degraded_recovery_needs_low_cpu() {
    // The recovery bound on CPU load is strict: 60 blocks, 59 recovers.
    let (next, action, _, _) = transition(
        SystemState::Degraded,
        obs(0, false, 0, 60, true),
        Some(DegradedReason::HighCpu),
        2,
    );
    assert_eq!(next, SystemState::Degraded);
    assert_eq!(action, Action::NoOp);
    let (next, action, _, _) = transition(
        SystemState::Degraded,
        obs(0, false, 0, 59, true),
        Some(DegradedReason::HighCpu),
        2,
    );
    assert_eq!(next, SystemState::Monitoring);
    assert_eq!(action, Action::ExitDegradedMode);
}

#[test]
fn fresh_trigger_overwrites_degraded_reason() {
    let (next, action, reason, reset) = transition(
        SystemState::Degraded,
        obs(0, false, 0, 90, true),
        Some(DegradedReason::DetectorFailure),
        5,
    );
    assert_eq!(next, SystemState::Degraded);
    assert_eq!(action, Action::EnterDegradedMode);
    assert_eq!(reason, Some(DegradedReason::HighCpu));
    assert!(reset);
}

#[test]
fn agent_walks_the_normal_states() {
    let mut agent = CameraAgent::new();
    assert_eq!(agent.current_state(), SystemState::Idle);

    assert_eq!(agent.step(obs(40, false, 0, 10, true)), Action::NoOp);
    assert_eq!(agent.current_state(), SystemState::Monitoring);

    assert_eq!(agent.step(obs(60, true, 0, 10, true)), Action::StartRecording);
    assert_eq!(agent.current_state(), SystemState::Recording);

    assert_eq!(agent.step(obs(60, true, 90, 10, true)), Action::SendAlert);
    assert_eq!(agent.current_state(), SystemState::Alerting);

    assert_eq!(agent.step(obs(60, true, 90, 10, true)), Action::NoOp);
    assert_eq!(agent.current_state(), SystemState::Recording);
}

#[test]
fn agent_debounces_recovery_over_three_cycles() {
    let mut agent = CameraAgent::new();
    let good = obs(0, false, 0, 10, true);

    assert_eq!(agent.step(obs(0, false, 0, 90, true)), Action::EnterDegradedMode);
    assert_eq!(agent.current_state(), SystemState::Degraded);
    assert_eq!(agent.degraded_cycles(), 0);

    assert_eq!(agent.step(good), Action::NoOp);
    assert_eq!(agent.current_state(), SystemState::Degraded);
    assert_eq!(agent.degraded_cycles(), 1);

    assert_eq!(agent.step(good), Action::NoOp);
    assert_eq!(agent.current_state(), SystemState::Degraded);
    assert_eq!(agent.degraded_cycles(), 2);

    assert_eq!(agent.step(good), Action::ExitDegradedMode);
    assert_eq!(agent.current_state(), SystemState::Monitoring);
    assert_eq!(agent.degraded_cycles(), 0);
}

#[test]
fn unhealthy_reading_restarts_the_debounce() {
    let mut agent = CameraAgent::new();
    let good = obs(0, false, 0, 10, true);

    agent.step(obs(0, false, 0, 0, false));
    assert_eq!(agent.current_state(), SystemState::Degraded);
    agent.step(good);
    agent.step(good);
    assert_eq!(agent.degraded_cycles(), 2);

    // A fresh trigger resets the counter, so recovery needs three more cycles.
    assert_eq!(agent.step(obs(0, false, 0, 0, false)), Action::EnterDegradedMode);
    assert_eq!(agent.degraded_cycles(), 0);
    assert_eq!(agent.step(good), Action::NoOp);
    assert_eq!(agent.step(good), Action::NoOp);
    assert_eq!(agent.step(good), Action::ExitDegradedMode);
    assert_eq!(agent.current_state(), SystemState::Monitoring);
}
