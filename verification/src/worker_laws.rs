//! What holds between the scheduler and the workers it feeds.

use vstd::prelude::*;
use crate::clock::{nanos_in, NANOS_PER_SECOND};
use crate::schedule::{lemma_run_wf, lemma_start_of, lemma_starts_ordered, Schedule};
use crate::schedule_laws::lemma_sent_is_ideal;
use crate::tone::{TimingInstruction, ToneView};
use crate::worker::{
    idle_plan, EmissionStrategy, IdlePlan, WorkerAction, WorkerEvent, WorkerPhase, WorkerState,
};

verus! {

/// A period is never longer than a second, so its sleep fits.
proof fn lemma_period_within_a_second(rate: nat, frequency_hz: nat)
    by (nonlinear_arith)
    requires
        0 < rate,
        0 < frequency_hz,
    ensures
        rate / frequency_hz <= rate,
        nanos_in(rate, rate / frequency_hz) <= NANOS_PER_SECOND,
{
}

/// Every instruction that a scheduler issues can be timed by a worker of any
/// strategy that runs on the same counter: the sleep is no longer than a
/// second, and the counter value to wait for is the end of the period on the
/// ideal schedule.
pub proof fn lemma_issued_instructions_can_be_timed(
    tone: ToneView,
    rate: nat,
    start: u64,
    readings: Seq<u64>,
    k: int,
    strategy: EmissionStrategy,
)
    requires
        tone.wf(),
        0 < rate,
        Schedule::begin(tone, rate, start) is Ok,
        0 <= k < Schedule::begin(tone, rate, start)->Ok_0.sent(readings).len(),
    ensures
        ({
            let s = Schedule::begin(tone, rate, start)->Ok_0;
            let instruction = s.sent(readings)[k];
            match idle_plan(strategy, rate, instruction) {
                Some(IdlePlan::Sleep(nanos)) => !strategy.rests_by_spinning() && nanos == nanos_in(
                    rate,
                    s.period as nat,
                ) && nanos <= NANOS_PER_SECOND,
                Some(IdlePlan::SpinUntil(until)) => strategy.rests_by_spinning() && until
                    == s.start_of(k as nat) + 2 * s.half(),
                None => false,
            }
        }),
{
    let s = Schedule::begin(tone, rate, start)->Ok_0;
    lemma_period_within_a_second(rate, tone.frequency_hz);
    lemma_sent_is_ideal(s, readings);
    lemma_run_wf(s, readings);
    let after = s.run(readings);
    lemma_starts_ordered(after, k as nat, (after.issued - 1) as nat);
    lemma_start_of(after, (after.issued - 1) as nat);
}

/// A worker emits only on a reading that has not passed the deadline of the
/// instruction in hand; on any later reading it leaves the busy half at once.
pub proof fn lemma_emits_only_before_deadline(worker: WorkerState, event: WorkerEvent)
    ensures
        worker.step(event).1 == WorkerAction::Emit <==> (worker.phase matches WorkerPhase::Emitting {
            mid_deadline,
            ..
        } && event matches WorkerEvent::Reading(now) && now <= mid_deadline),
        (worker.phase matches WorkerPhase::Emitting { mid_deadline, .. }
            && event matches WorkerEvent::Reading(now) && now > mid_deadline) ==> !(worker.step(
            event,
        ).0.phase is Emitting),
{
}

/// The busy half does not depend on the strategy: two workers that take the
/// same instruction emit on exactly the same readings, and an emission leaves
/// both as they were.
pub proof fn lemma_busy_half_ignores_strategy(
    first: WorkerState,
    second: WorkerState,
    instruction: TimingInstruction,
    now: u64,
)
    requires
        first.phase == WorkerPhase::Awaiting,
        second.phase == WorkerPhase::Awaiting,
        idle_plan(first.strategy, first.rate, instruction) is Some,
        idle_plan(second.strategy, second.rate, instruction) is Some,
    ensures
        ({
            let a = first.step(WorkerEvent::Instruction(instruction)).0;
            let b = second.step(WorkerEvent::Instruction(instruction)).0;
            &&& a.step(WorkerEvent::Reading(now)).1 == WorkerAction::Emit <==> now
                <= instruction.mid_deadline
            &&& b.step(WorkerEvent::Reading(now)).1 == WorkerAction::Emit <==> now
                <= instruction.mid_deadline
            &&& now <= instruction.mid_deadline ==> a.step(WorkerEvent::Reading(now)).0 == a
                && b.step(WorkerEvent::Reading(now)).0 == b
        }),
{
}

} // verus!
