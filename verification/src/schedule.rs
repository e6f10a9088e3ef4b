//! The ideal schedule of one tone, as a mathematical state machine.
//!
//! A tone that begins at counter value `origin` is cut into periods of `period`
//! ticks. Period number `k` starts at `origin + k * period`, whatever the
//! counter showed when the scheduler got round to it: the busy half ends
//! `period / 2` ticks after that start. The counter readings decide only *when*
//! the next period is issued and when the tone is over, never *what* is issued.

use vstd::prelude::*;
use crate::clock::ticks_in;
use crate::tone::{TimingInstruction, ToneError, ToneView};

verus! {

/// Where the scheduler stands within a tone.
#[derive(Clone, Copy, Debug, PartialEq, Eq)]
pub enum SchedulerPhase {
    /// The next reading decides whether another period is issued.
    Polling,
    /// A period was issued; readings are awaited until it has run out.
    Holding,
    /// The tone has been played to its end.
    Finished,
    /// The tone was given up because the counter ran backwards.
    Aborted,
}

/// What the caller does after handing a reading to the scheduler.
#[derive(Clone, Copy, Debug, PartialEq, Eq)]
pub enum SchedulerAction {
    /// Pass the instruction to the worker, then read the counter again.
    Send(TimingInstruction),
    /// Read the counter again.
    Wait,
    /// Stop: the tone is over.
    Finished,
    /// Stop: the tone was given up as a timing anomaly.
    Abort,
}

/// The state of a tone in progress.
pub struct Schedule {
    /// Counter value at which the tone began.
    pub origin: int,
    /// Last counter value at which a period may still be issued.
    pub finish: int,
    /// Length of one period in ticks.
    pub period: int,
    /// Number of periods issued so far.
    pub issued: nat,
    /// The latest reading that was taken into account.
    pub last: int,
    pub phase: SchedulerPhase,
}

impl Schedule {
    /// Length of the busy half of a period.
    pub open spec fn half(self) -> int {
        self.period / 2
    }

    /// Length of the tone in ticks.
    pub open spec fn span(self) -> int {
        self.finish - self.origin
    }

    /// Ideal start of period number `k`.
    pub open spec fn start_of(self, k: nat) -> int {
        self.origin + k * self.period
    }

    /// Ideal start of the next period to be issued.
    pub open spec fn frontier(self) -> int {
        self.start_of(self.issued)
    }

    /// The reading that ends the current hold is the first one above this value:
    /// two half periods after the start of the period issued last.
    pub open spec fn hold_until(self) -> int {
        self.frontier() - self.period + 2 * self.half()
    }

    /// The instruction for period number `k`.
    pub open spec fn instruction(self, k: nat) -> TimingInstruction {
        TimingInstruction {
            mid_deadline: (self.start_of(k) + self.half()) as u64,
            period_ticks: self.period as u64,
        }
    }

    /// What every reachable state satisfies.
    pub open spec fn wf(self) -> bool {
        &&& 2 <= self.period
        &&& 0 <= self.origin <= self.finish
        &&& self.finish + self.period <= u64::MAX
        &&& self.origin <= self.last <= u64::MAX
        &&& self.issued >= 1 ==> self.frontier() - self.period <= self.finish
        &&& match self.phase {
            SchedulerPhase::Polling => self.issued == 0 || self.hold_until() < self.last,
            SchedulerPhase::Holding => self.issued >= 1,
            SchedulerPhase::Finished => self.finish < self.last && (self.issued == 0
                || self.hold_until() < self.last),
            SchedulerPhase::Aborted => true,
        }
    }

    /// The state in which a tone begins: nothing issued, nothing read but the
    /// origin.
    pub open spec fn fresh(self) -> bool {
        &&& self.wf()
        &&& self.issued == 0
        &&& self.phase == SchedulerPhase::Polling
        &&& self.last == self.origin
    }

    /// The state in which a tone begins when the counter shows `start`, at a
    /// counter speed of `rate` ticks per second.
    ///
    /// The tone is invalid when its duration or frequency is not positive or
    /// when, the frequency being too high for the counter, a period would be
    /// shorter than two ticks. It is a timing anomaly when its last period
    /// would end beyond the counter's range.
    pub open spec fn begin(tone: ToneView, rate: nat, start: u64) -> Result<Schedule, ToneError> {
        let period = rate / tone.frequency_hz;
        let span = ticks_in(rate, tone.duration_nanos);
        if !tone.wf() || period < 2 {
            Err(ToneError::InvalidTone)
        } else if start + span + period > u64::MAX {
            Err(ToneError::TimingAnomaly)
        } else {
            Ok(
                Schedule {
                    origin: start as int,
                    finish: start + span,
                    period: period as int,
                    issued: 0,
                    last: start as int,
                    phase: SchedulerPhase::Polling,
                },
            )
        }
    }

    /// The state after the reading `now`, and what the caller is to do next.
    pub open spec fn step(self, now: u64) -> (Schedule, SchedulerAction) {
        match self.phase {
            SchedulerPhase::Finished => (self, SchedulerAction::Finished),
            SchedulerPhase::Aborted => (self, SchedulerAction::Abort),
            SchedulerPhase::Polling => {
                if now < self.last {
                    (Schedule { phase: SchedulerPhase::Aborted, ..self }, SchedulerAction::Abort)
                } else if now > self.finish {
                    (
                        Schedule { phase: SchedulerPhase::Finished, last: now as int, ..self },
                        SchedulerAction::Finished,
                    )
                } else {
                    (
                        Schedule {
                            phase: SchedulerPhase::Holding,
                            issued: self.issued + 1,
                            last: now as int,
                            ..self
                        },
                        SchedulerAction::Send(self.instruction(self.issued)),
                    )
                }
            },
            SchedulerPhase::Holding => {
                if now < self.last {
                    (Schedule { phase: SchedulerPhase::Aborted, ..self }, SchedulerAction::Abort)
                } else if now > self.hold_until() {
                    (
                        Schedule { phase: SchedulerPhase::Polling, last: now as int, ..self },
                        SchedulerAction::Wait,
                    )
                } else {
                    (Schedule { last: now as int, ..self }, SchedulerAction::Wait)
                }
            },
        }
    }

    /// The state after a whole sequence of readings.
    pub open spec fn run(self, readings: Seq<u64>) -> Schedule
        decreases readings.len(),
    {
        if readings.len() == 0 {
            self
        } else {
            self.run(readings.drop_last()).step(readings.last()).0
        }
    }

    /// The instructions issued over a whole sequence of readings, in order.
    pub open spec fn sent(self, readings: Seq<u64>) -> Seq<TimingInstruction>
        decreases readings.len(),
    {
        if readings.len() == 0 {
            Seq::empty()
        } else {
            let earlier = self.sent(readings.drop_last());
            match self.run(readings.drop_last()).step(readings.last()).1 {
                SchedulerAction::Send(instruction) => earlier.push(instruction),
                _ => earlier,
            }
        }
    }
}

/// Period starts are one period apart, beginning at the origin.
pub proof fn lemma_start_of(s: Schedule, k: nat)
    ensures
        s.start_of(0) == s.origin,
        s.start_of(k + 1) == s.start_of(k) + s.period,
{
    assert(0 * s.period == 0) by (nonlinear_arith);
    assert((k + 1) * s.period == k * s.period + s.period) by (nonlinear_arith);
}

/// Later periods start later, by as many periods as lie between them.
pub proof fn lemma_starts_ordered(s: Schedule, j: nat, k: nat)
    requires
        0 <= s.period,
        j <= k,
    ensures
        s.start_of(j) <= s.start_of(k),
        s.start_of(k) - s.start_of(j) == (k - j) * s.period,
{
    assert(k * s.period - j * s.period == (k - j) * s.period) by (nonlinear_arith);
    assert(0 <= (k - j) * s.period) by (nonlinear_arith)
        requires
            0 <= s.period,
            j <= k,
    ;
}

/// A tone that could be begun begins fresh, at the counter value given.
pub proof fn lemma_begin_is_fresh(tone: ToneView, rate: nat, start: u64)
    ensures
        Schedule::begin(tone, rate, start) matches Ok(s) ==> s.fresh() && s.origin == start,
{
}

/// A reading leaves the schedule well formed and its origin, finish and period
/// as they were.
pub proof fn lemma_step_wf(s: Schedule, now: u64)
    requires
        s.wf(),
    ensures
        s.step(now).0.wf(),
        s.step(now).0.origin == s.origin,
        s.step(now).0.finish == s.finish,
        s.step(now).0.period == s.period,
        s.issued <= s.step(now).0.issued <= s.issued + 1,
{
    lemma_start_of(s, s.issued);
}

/// A run leaves the schedule well formed, keeps its origin, finish and period,
/// and never takes an issued period back.
pub proof fn lemma_run_wf(s: Schedule, readings: Seq<u64>)
    requires
        s.wf(),
    ensures
        s.run(readings).wf(),
        s.run(readings).origin == s.origin,
        s.run(readings).finish == s.finish,
        s.run(readings).period == s.period,
        s.issued <= s.run(readings).issued,
    decreases readings.len(),
{
    if readings.len() > 0 {
        lemma_run_wf(s, readings.drop_last());
        lemma_step_wf(s.run(readings.drop_last()), readings.last());
    }
}

} // verus!
