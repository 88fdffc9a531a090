//! The periodic scheduler: drives the agent at a fixed cadence and tracks
//! deadline compliance.
//!
//! One `tick` steps the agent once, measures the cycle's latency on the
//! monotonic clock, and folds it into the cumulative statistics: total
//! frames, deadline misses, and the worst observed latency. The clock is
//! the one outside collaborator; everything decided from its reading is
//! verified for every possible value of it.

use vstd::prelude::*;

use crate::agent::{spec_step, AgentView, CameraAgent};
use crate::types::Observation;
use std::time::Instant;

verus! {

/// `std::time::Instant`, declared so that a clock reading can be carried
/// through verified code. Opaque: nothing is known of a value of it.
#[verifier::external_type_specification]
#[verifier::external_body]
pub struct ExInstant(Instant);

/// Relies on `std::time::Instant::now`: one reading of the monotonic clock.
/// The value depends on the clock, so nothing is promised of it.
#[verifier::external_body]
fn monotonic_now() -> Instant {
    Instant::now()
}

/// Relies on `std::time::Instant::elapsed`: the time since `start`,
/// converted to whole milliseconds. The value depends on the clock, so
/// nothing is promised of it.
#[verifier::external_body]
fn elapsed_millis(start: &Instant) -> u128 {
    start.elapsed().as_millis()
}

/// The mathematical model of a [`Scheduler`]: the wrapped agent's model,
/// the frame budget in milliseconds, and the cumulative statistics.
pub ghost struct SchedulerView {
    pub agent: AgentView,
    pub frame_budget_ms: u64,
    pub deadline_misses: u64,
    pub worst_case_ms: u128,
    pub total_frames: u64,
}

/// The statistics after folding one measured cycle latency of `elapsed_ms`
/// milliseconds into `pre`: the miss count grows exactly when the frame
/// budget was exceeded, the worst case is the maximum seen so far, and
/// everything else is untouched.
pub open spec fn latency_outcome(pre: SchedulerView, elapsed_ms: u128) -> SchedulerView {
    SchedulerView {
        agent: pre.agent,
        frame_budget_ms: pre.frame_budget_ms,
        deadline_misses: if elapsed_ms > pre.frame_budget_ms {
            (pre.deadline_misses + 1) as u64
        } else {
            pre.deadline_misses
        },
        worst_case_ms: if elapsed_ms > pre.worst_case_ms {
            elapsed_ms
        } else {
            pre.worst_case_ms
        },
        total_frames: pre.total_frames,
    }
}

/// The scheduler after one `tick` on `obs` whose measured latency was
/// `elapsed_ms`: the agent has stepped once, the frame is counted, and the
/// latency statistics are folded in.
pub open spec fn tick_outcome(
    pre: SchedulerView,
    obs: Observation,
    elapsed_ms: u128,
) -> SchedulerView {
    SchedulerView {
        agent: spec_step(pre.agent, obs).0,
        frame_budget_ms: pre.frame_budget_ms,
        deadline_misses: if elapsed_ms > pre.frame_budget_ms {
            (pre.deadline_misses + 1) as u64
        } else {
            pre.deadline_misses
        },
        worst_case_ms: if elapsed_ms > pre.worst_case_ms {
            elapsed_ms
        } else {
            pre.worst_case_ms
        },
        total_frames: (pre.total_frames + 1) as u64,
    }
}

/// Drives an agent at a fixed cadence and tracks real-time compliance.
pub struct Scheduler {
    agent: CameraAgent,
    frame_budget_ms: u64,
    deadline_misses: u64,
    worst_case_ms: u128,
    total_frames: u64,
}

impl View for Scheduler {
    type V = SchedulerView;

    closed spec fn view(&self) -> SchedulerView {
        SchedulerView {
            agent: self.agent@,
            frame_budget_ms: self.frame_budget_ms,
            deadline_misses: self.deadline_misses,
            worst_case_ms: self.worst_case_ms,
            total_frames: self.total_frames,
        }
    }
}

impl Scheduler {
    /// Wraps `agent` and derives the frame budget from the target frame
    /// rate: `1000 / fps` milliseconds. A non-divisor fps yields a budget
    /// rounded down — a known approximation, kept as designed.
    pub fn new(agent: CameraAgent, fps: u32) -> (s: Scheduler)
        requires
            fps >= 1,
        ensures
            s@.agent == agent@,
            s@.frame_budget_ms == 1000u64 / (fps as u64),
            s@.deadline_misses == 0,
            s@.worst_case_ms == 0,
            s@.total_frames == 0,
    {
        let frame_budget_ms: u64 = 1000 / fps as u64;
        Scheduler { agent, frame_budget_ms, deadline_misses: 0, worst_case_ms: 0, total_frames: 0 }
    }

    /// Folds one measured cycle latency into the statistics: a cycle longer
    /// than the frame budget is a deadline miss, and the worst observed
    /// latency is kept. Exact for every value of `elapsed_ms`.
    pub fn record_latency(&mut self, elapsed_ms: u128)
        requires
            old(self)@.deadline_misses < u64::MAX,
        ensures
            final(self)@ == latency_outcome(old(self)@, elapsed_ms),
    {
        if elapsed_ms > self.frame_budget_ms as u128 {
            self.deadline_misses = self.deadline_misses + 1;
        }
        if elapsed_ms > self.worst_case_ms {
            self.worst_case_ms = elapsed_ms;
        }
    }

    /// One observation-action cycle: steps the agent, measures the cycle's
    /// latency on the monotonic clock, folds it into the statistics and
    /// counts the frame. The latency depends on the clock, so the final
    /// statistics are pinned only up to some elapsed time; the agent's step
    /// and the frame count are exact.
    pub fn tick(&mut self, observation: Observation)
        requires
            old(self)@.agent.degraded_cycles < u32::MAX,
            old(self)@.deadline_misses < u64::MAX,
            old(self)@.total_frames < u64::MAX,
        ensures
            final(self)@.agent == spec_step(old(self)@.agent, observation).0,
            final(self)@.frame_budget_ms == old(self)@.frame_budget_ms,
            final(self)@.total_frames == old(self)@.total_frames + 1,
            exists|elapsed_ms: u128|
                final(self)@ == #[trigger] tick_outcome(old(self)@, observation, elapsed_ms),
            final(self)@.worst_case_ms >= old(self)@.worst_case_ms,
            old(self)@.deadline_misses <= final(self)@.deadline_misses,
            final(self)@.deadline_misses <= old(self)@.deadline_misses + 1,
            final(self)@.deadline_misses > old(self)@.deadline_misses
                ==> final(self)@.worst_case_ms > final(self)@.frame_budget_ms,
    {
        let start = monotonic_now();
        self.agent.step(observation);
        let elapsed_ms = elapsed_millis(&start);
        self.record_latency(elapsed_ms);
        self.total_frames = self.total_frames + 1;
        proof {
            assert(self@ == tick_outcome(old(self)@, observation, elapsed_ms));
        }
    }

    /// The wrapped agent, read-only.
    pub fn agent(&self) -> (agent: &CameraAgent)
        ensures
            agent@ == self@.agent,
    {
        &self.agent
    }

    /// The frame budget in milliseconds.
    pub fn frame_budget_ms(&self) -> (budget: u64)
        ensures
            budget == self@.frame_budget_ms,
    {
        self.frame_budget_ms
    }

    /// Cumulative count of cycles whose latency exceeded the frame budget.
    pub fn deadline_misses(&self) -> (misses: u64)
        ensures
            misses == self@.deadline_misses,
    {
        self.deadline_misses
    }

    /// The worst cycle latency observed so far, in milliseconds.
    pub fn worst_case_ms(&self) -> (worst: u128)
        ensures
            worst == self@.worst_case_ms,
    {
        self.worst_case_ms
    }

    /// Total frames processed since construction.
    pub fn total_frames(&self) -> (frames: u64)
        ensures
            frames == self@.total_frames,
    {
        self.total_frames
    }
}

} // verus!
