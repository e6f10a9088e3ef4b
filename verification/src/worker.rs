//! The emission worker: what to do with each timing instruction.
//!
//! A worker takes one instruction at a time. It keeps the bus busy, one
//! emission after the other, until the counter has passed the instruction's
//! deadline, stays quiet for the rest of the period, and then takes the next
//! instruction. How it stays quiet depends on its strategy: it sleeps for the
//! length of a period, or, where sleeping is too coarse, watches the counter
//! until half a period after the deadline.

use vstd::prelude::*;
use crate::clock::{nanos_in, ClockRate};
use crate::tone::TimingInstruction;

verus! {

/// How a worker puts traffic on the memory bus.
#[derive(Clone, Copy, Debug, PartialEq, Eq)]
pub enum EmissionStrategy {
    /// Sequentially consistent increments of an atomic counter.
    AtomicCounter,
    /// Volatile read and write of a memory cell.
    VolatileCell,
    /// Non-temporal vector stores that go past the caches.
    StreamingStore,
}

/// How a worker spends the quiet part of a period.
#[derive(Clone, Copy, Debug, PartialEq, Eq)]
pub enum IdlePlan {
    /// Sleep for this many nanoseconds.
    Sleep(u64),
    /// Watch the counter until it has passed this value.
    SpinUntil(u64),
}

/// Where a worker stands.
#[derive(Clone, Copy, Debug, PartialEq, Eq)]
pub enum WorkerPhase {
    /// No instruction is in hand.
    Awaiting,
    /// The busy half: emissions go on until a reading exceeds `mid_deadline`.
    Emitting { mid_deadline: u64, idle: IdlePlan },
    /// The quiet half of a worker that watches the counter.
    Resting { until: u64 },
    /// The instructions have come to an end.
    Stopped,
}

/// What the caller observed on the worker's behalf.
#[derive(Clone, Copy, Debug, PartialEq, Eq)]
pub enum WorkerEvent {
    /// The next instruction arrived.
    Instruction(TimingInstruction),
    /// The counter was read.
    Reading(u64),
    /// No instruction will ever arrive again.
    Disconnected,
}

/// What the caller does next, and the event it is to report afterwards.
#[derive(Clone, Copy, Debug, PartialEq, Eq)]
pub enum WorkerAction {
    /// Wait for the next instruction.
    Receive,
    /// The instruction cannot be timed and was dropped: wait for the next one.
    Skip,
    /// Read the counter.
    Spin,
    /// Perform one emission, then read the counter.
    Emit,
    /// Sleep for this many nanoseconds, then wait for the next instruction.
    Sleep(u64),
    /// Stop for good.
    Halt,
}

impl EmissionStrategy {
    /// Whether the quiet half is spent watching the counter instead of asleep.
    pub open spec fn rests_by_spinning(self) -> bool {
        self == EmissionStrategy::StreamingStore
    }
}

/// How a worker of the given strategy spends the quiet half that follows
/// `instruction`, at a counter speed of `rate` ticks per second; `None` when
/// the sleep or the counter value to wait for does not fit in 64 bits.
pub open spec fn idle_plan(strategy: EmissionStrategy, rate: nat, instruction: TimingInstruction)
    -> Option<IdlePlan> {
    if strategy.rests_by_spinning() {
        if instruction.mid_deadline + instruction.period_ticks / 2 <= u64::MAX {
            Some(
                IdlePlan::SpinUntil(
                    (instruction.mid_deadline + instruction.period_ticks / 2) as u64,
                ),
            )
        } else {
            None
        }
    } else {
        if nanos_in(rate, instruction.period_ticks as nat) <= u64::MAX {
            Some(IdlePlan::Sleep(nanos_in(rate, instruction.period_ticks as nat) as u64))
        } else {
            None
        }
    }
}

/// The state of a worker.
pub struct WorkerState {
    pub strategy: EmissionStrategy,
    /// Speed of the counter in ticks per second.
    pub rate: nat,
    pub phase: WorkerPhase,
}

impl WorkerState {
    /// The state after `event`, and what the caller is to do next.
    ///
    /// An event that the last action did not ask for changes nothing and has
    /// the action repeated.
    pub open spec fn step(self, event: WorkerEvent) -> (WorkerState, WorkerAction) {
        match (self.phase, event) {
            (WorkerPhase::Stopped, _) => (self, WorkerAction::Halt),
            (_, WorkerEvent::Disconnected) => (
                WorkerState { phase: WorkerPhase::Stopped, ..self },
                WorkerAction::Halt,
            ),
            (WorkerPhase::Awaiting, WorkerEvent::Instruction(instruction)) => {
                match idle_plan(self.strategy, self.rate, instruction) {
                    Some(idle) => (
                        WorkerState {
                            phase: WorkerPhase::Emitting {
                                mid_deadline: instruction.mid_deadline,
                                idle,
                            },
                            ..self
                        },
                        WorkerAction::Spin,
                    ),
                    None => (self, WorkerAction::Skip),
                }
            },
            (WorkerPhase::Awaiting, WorkerEvent::Reading(_)) => (self, WorkerAction::Receive),
            (WorkerPhase::Emitting { mid_deadline, idle }, WorkerEvent::Reading(now)) => {
                if now > mid_deadline {
                    match idle {
                        IdlePlan::Sleep(nanos) => (
                            WorkerState { phase: WorkerPhase::Awaiting, ..self },
                            WorkerAction::Sleep(nanos),
                        ),
                        IdlePlan::SpinUntil(until) => (
                            WorkerState { phase: WorkerPhase::Resting { until }, ..self },
                            WorkerAction::Spin,
                        ),
                    }
                } else {
                    (self, WorkerAction::Emit)
                }
            },
            (WorkerPhase::Emitting { .. }, WorkerEvent::Instruction(_)) => (
                self,
                WorkerAction::Spin,
            ),
            (WorkerPhase::Resting { until }, WorkerEvent::Reading(now)) => {
                if now > until {
                    (WorkerState { phase: WorkerPhase::Awaiting, ..self }, WorkerAction::Receive)
                } else {
                    (self, WorkerAction::Spin)
                }
            },
            (WorkerPhase::Resting { .. }, WorkerEvent::Instruction(_)) => (
                self,
                WorkerAction::Spin,
            ),
        }
    }
}

/// An emission worker. Its view is the [`WorkerState`] it is in.
#[derive(Clone, Copy, Debug)]
pub struct EmissionWorker {
    strategy: EmissionStrategy,
    rate: ClockRate,
    phase: WorkerPhase,
}

impl View for EmissionWorker {
    type V = WorkerState;

    closed spec fn view(&self) -> WorkerState {
        WorkerState { strategy: self.strategy, rate: self.rate@, phase: self.phase }
    }
}

impl EmissionWorker {
    /// A worker of the given strategy with no instruction in hand, for a
    /// counter of the given speed.
    pub fn new(strategy: EmissionStrategy, rate: ClockRate) -> (worker: EmissionWorker)
        ensures
            worker@ == (WorkerState { strategy, rate: rate@, phase: WorkerPhase::Awaiting }),
    {
        EmissionWorker { strategy, rate, phase: WorkerPhase::Awaiting }
    }

    /// The quiet half that follows `instruction` for this worker.
    fn plan(&self, instruction: TimingInstruction) -> (idle: Option<IdlePlan>)
        ensures
            idle == idle_plan(self@.strategy, self@.rate, instruction),
    {
        match self.strategy {
            EmissionStrategy::StreamingStore => {
                match instruction.mid_deadline.checked_add(instruction.period_ticks / 2) {
                    Some(until) => Some(IdlePlan::SpinUntil(until)),
                    None => None,
                }
            },
            _ => {
                match self.rate.nanos_from_ticks(instruction.period_ticks) {
                    Some(nanos) => Some(IdlePlan::Sleep(nanos)),
                    None => None,
                }
            },
        }
    }

    /// Takes `event` into account and says what to do next.
    pub fn step(&mut self, event: WorkerEvent) -> (action: WorkerAction)
        ensures
            (final(self)@, action) == old(self)@.step(event),
    {
        match (self.phase, event) {
            (WorkerPhase::Stopped, _) => WorkerAction::Halt,
            (_, WorkerEvent::Disconnected) => {
                self.phase = WorkerPhase::Stopped;
                WorkerAction::Halt
            },
            (WorkerPhase::Awaiting, WorkerEvent::Instruction(instruction)) => {
                match self.plan(instruction) {
                    Some(idle) => {
                        self.phase =
                        WorkerPhase::Emitting { mid_deadline: instruction.mid_deadline, idle };
                        WorkerAction::Spin
                    },
                    None => WorkerAction::Skip,
                }
            },
            (WorkerPhase::Awaiting, WorkerEvent::Reading(_)) => WorkerAction::Receive,
            (WorkerPhase::Emitting { mid_deadline, idle }, WorkerEvent::Reading(now)) => {
                if now > mid_deadline {
                    match idle {
                        IdlePlan::Sleep(nanos) => {
                            self.phase = WorkerPhase::Awaiting;
                            WorkerAction::Sleep(nanos)
                        },
                        IdlePlan::SpinUntil(until) => {
                            self.phase = WorkerPhase::Resting { until };
                            WorkerAction::Spin
                        },
                    }
                } else {
                    WorkerAction::Emit
                }
            },
            (WorkerPhase::Emitting { .. }, WorkerEvent::Instruction(_)) => WorkerAction::Spin,
            (WorkerPhase::Resting { until }, WorkerEvent::Reading(now)) => {
                if now > until {
                    self.phase = WorkerPhase::Awaiting;
                    WorkerAction::Receive
                } else {
                    WorkerAction::Spin
                }
            },
            (WorkerPhase::Resting { .. }, WorkerEvent::Instruction(_)) => WorkerAction::Spin,
        }
    }

    /// The worker's strategy.
    pub fn strategy(&self) -> (strategy: EmissionStrategy)
        ensures
            strategy == self@.strategy,
    {
        self.strategy
    }

    /// Where the worker stands.
    pub fn phase(&self) -> (phase: WorkerPhase)
        ensures
            phase == self@.phase,
    {
        self.phase
    }
}

} // verus!
