//! The tone scheduler: the ideal schedule, kept in machine integers.

use vstd::prelude::*;
use crate::clock::ClockRate;
use crate::schedule::{
    lemma_run_wf, lemma_start_of, lemma_starts_ordered, Schedule, SchedulerAction,
    SchedulerPhase,
};
use crate::tone::{TimingInstruction, Tone, ToneError};

verus! {

/// The scheduler of one tone.
///
/// It is fed every reading of the cycle counter that the caller takes, and
/// answers each with what to do before the next one. Its view is the
/// [`Schedule`] it has reached.
#[derive(Clone, Copy, Debug)]
pub struct ToneScheduler {
    origin: u64,
    finish: u64,
    period: u64,
    frontier: u64,
    issued: u64,
    last: u64,
    phase: SchedulerPhase,
}

impl View for ToneScheduler {
    type V = Schedule;

    closed spec fn view(&self) -> Schedule {
        Schedule {
            origin: self.origin as int,
            finish: self.finish as int,
            period: self.period as int,
            issued: self.issued as nat,
            last: self.last as int,
            phase: self.phase,
        }
    }
}

/// A count of periods that all start within the counter's range is far from
/// the largest 64-bit number.
proof fn lemma_count_has_room(issued: nat, period: int)
    by (nonlinear_arith)
    requires
        2 <= period,
        issued * period <= u64::MAX,
    ensures
        issued < u64::MAX,
{
}

impl ToneScheduler {
    #[verifier::type_invariant]
    spec fn inv(self) -> bool {
        &&& self@.wf()
        &&& self.frontier == self@.frontier()
    }

    /// Begins `tone` at the counter value `start`.
    ///
    /// The result is exactly what [`Schedule::begin`] describes: the tone is
    /// refused as invalid when one period lasts less than two ticks at this
    /// rate, and as a timing anomaly when `start`, the length of the tone and
    /// one more period do not fit on the counter together.
    pub fn new(tone: Tone, rate: ClockRate, start: u64) -> (scheduler: Result<
        ToneScheduler,
        ToneError,
    >)
        ensures
            (match scheduler {
                Ok(s) => Schedule::begin(tone@, rate@, start) == Ok::<Schedule, ToneError>(s@),
                Err(e) => Schedule::begin(tone@, rate@, start) == Err::<Schedule, ToneError>(e),
            }),
            scheduler matches Ok(s) ==> s@.fresh(),
    {
        let period: u64 = rate.ticks_per_second() / (tone.frequency_hz() as u64);
        if period < 2 {
            return Err(ToneError::InvalidTone);
        }
        let span: u64 = match rate.ticks_from_nanos(tone.duration_nanos()) {
            Some(ticks) => ticks,
            None => {
                return Err(ToneError::TimingAnomaly);
            },
        };
        let finish: u64 = match start.checked_add(span) {
            Some(tick) => tick,
            None => {
                return Err(ToneError::TimingAnomaly);
            },
        };
        if finish > u64::MAX - period {
            return Err(ToneError::TimingAnomaly);
        }
        Ok(
            ToneScheduler {
                origin: start,
                finish,
                period,
                frontier: start,
                issued: 0,
                last: start,
                phase: SchedulerPhase::Polling,
            },
        )
    }

    /// Takes the reading `now` into account and says what to do next.
    ///
    /// While polling, a reading up to the finish issues the next period of the
    /// ideal schedule and one beyond it ends the tone. While holding, the first
    /// reading above the end of the issued period returns to polling. A reading
    /// below the one before gives the tone up.
    pub fn step(&mut self, now: u64) -> (action: SchedulerAction)
        ensures
            (final(self)@, action) == old(self)@.step(now),
            old(self)@.wf(),
            final(self)@.wf(),
    {
        proof {
            use_type_invariant(&*self);
            lemma_start_of(self@, self.issued as nat);
        }
        match self.phase {
            SchedulerPhase::Finished => SchedulerAction::Finished,
            SchedulerPhase::Aborted => SchedulerAction::Abort,
            SchedulerPhase::Polling => {
                if now < self.last {
                    self.phase = SchedulerPhase::Aborted;
                    SchedulerAction::Abort
                } else if now > self.finish {
                    *self = ToneScheduler {
                        origin: self.origin,
                        finish: self.finish,
                        period: self.period,
                        frontier: self.frontier,
                        issued: self.issued,
                        last: now,
                        phase: SchedulerPhase::Finished,
                    };
                    SchedulerAction::Finished
                } else {
                    proof {
                        lemma_count_has_room(self.issued as nat, self.period as int);
                    }
                    let instruction = TimingInstruction {
                        mid_deadline: self.frontier + self.period / 2,
                        period_ticks: self.period,
                    };
                    *self = ToneScheduler {
                        origin: self.origin,
                        finish: self.finish,
                        period: self.period,
                        frontier: self.frontier + self.period,
                        issued: self.issued + 1,
                        last: now,
                        phase: SchedulerPhase::Holding,
                    };
                    SchedulerAction::Send(instruction)
                }
            },
            SchedulerPhase::Holding => {
                if now < self.last {
                    self.phase = SchedulerPhase::Aborted;
                    SchedulerAction::Abort
                } else {
                    proof {
                        lemma_starts_ordered(self@, 1, self.issued as nat);
                    }
                    let hold_until: u64 = self.frontier - self.period + 2 * (self.period / 2);
                    let phase = if now > hold_until {
                        SchedulerPhase::Polling
                    } else {
                        SchedulerPhase::Holding
                    };
                    *self = ToneScheduler {
                        origin: self.origin,
                        finish: self.finish,
                        period: self.period,
                        frontier: self.frontier,
                        issued: self.issued,
                        last: now,
                        phase,
                    };
                    SchedulerAction::Wait
                }
            },
        }
    }

    /// Feeds a recorded sequence of readings to the scheduler, oldest first,
    /// and returns the instructions it issued on the way, in order.
    ///
    /// This is how a tone is played against a clock that is known in advance.
    pub fn replay(&mut self, readings: &[u64]) -> (sent: Vec<TimingInstruction>)
        ensures
            final(self)@ == old(self)@.run(readings@),
            sent@ == old(self)@.sent(readings@),
            old(self)@.wf(),
            final(self)@.wf(),
    {
        let ghost initial = self@;
        proof {
            use_type_invariant(&*self);
            lemma_run_wf(initial, readings@);
        }
        let mut sent: Vec<TimingInstruction> = Vec::new();
        let mut i: usize = 0;
        while i < readings.len()
            invariant
                i <= readings.len(),
                self@ == initial.run(readings@.take(i as int)),
                sent@ == initial.sent(readings@.take(i as int)),
            decreases readings.len() - i,
        {
            proof {
                assert(readings@.take(i + 1).drop_last() == readings@.take(i as int));
            }
            match self.step(readings[i]) {
                SchedulerAction::Send(instruction) => {
                    sent.push(instruction);
                },
                _ => {},
            }
            i += 1;
        }
        proof {
            assert(readings@.take(i as int) == readings@);
        }
        sent
    }

    /// Where the scheduler stands within the tone.
    pub fn phase(&self) -> (phase: SchedulerPhase)
        ensures
            phase == self@.phase,
            self@.wf(),
    {
        proof {
            use_type_invariant(self);
        }
        self.phase
    }

    /// Number of instructions issued so far.
    pub fn issued(&self) -> (count: u64)
        ensures
            count == self@.issued,
    {
        self.issued
    }

    /// Length of one period in ticks.
    pub fn period_ticks(&self) -> (ticks: u64)
        ensures
            ticks == self@.period,
    {
        self.period
    }

    /// Counter value at which the tone began.
    pub fn origin(&self) -> (tick: u64)
        ensures
            tick == self@.origin,
    {
        self.origin
    }

    /// Last counter value at which a period may still be issued.
    pub fn finish(&self) -> (tick: u64)
        ensures
            tick == self@.finish,
    {
        self.finish
    }
}

} // verus!
