//! What holds of every run of the ideal schedule.
//!
//! The instructions of a tone are fixed by where it began and by its period;
//! the counter decides only how many of them are issued and when. Given a
//! counter that never jumps by more than a known step between two readings,
//! both are pinned down to within that step, and the error does not
//! accumulate from one period to the next.

use vstd::prelude::*;
use crate::clock::ticks_in;
use crate::schedule::{
    lemma_begin_is_fresh, lemma_run_wf, lemma_start_of, lemma_starts_ordered, lemma_step_wf,
    Schedule, SchedulerPhase,
};
use crate::tone::ToneView;

verus! {

/// The reading that came before position `i` of `readings`, where `from` came
/// before the first.
pub open spec fn reading_before(from: int, readings: Seq<u64>, i: int) -> int {
    if i <= 0 {
        from
    } else {
        readings[i - 1] as int
    }
}

/// A counter that never runs backwards and never advances by more than `step`
/// ticks from one reading to the next, read repeatedly after it showed `from`.
pub open spec fn steady(from: int, readings: Seq<u64>, step: int) -> bool {
    forall|i: int|
        0 <= i < readings.len() ==> reading_before(from, readings, i) <= #[trigger] readings[i]
            <= reading_before(from, readings, i) + step
}

/// A counter that never runs backwards, read repeatedly after it showed
/// `from`.
pub open spec fn rising(from: int, readings: Seq<u64>) -> bool {
    forall|i: int|
        0 <= i < readings.len() ==> reading_before(from, readings, i) <= #[trigger] readings[i]
}

impl Schedule {
    /// The scheduler is at most `step` ticks behind the ideal schedule when it
    /// polls, not behind it while it holds, and ended the tone no later than two
    /// steps after the period that would have come next.
    pub open spec fn paced(self, step: int) -> bool {
        match self.phase {
            SchedulerPhase::Polling => self.last <= self.frontier() + step,
            SchedulerPhase::Holding => self.last <= self.frontier(),
            SchedulerPhase::Finished => self.finish < self.frontier() + 2 * step,
            SchedulerPhase::Aborted => false,
        }
    }

    /// Whether readings are still taken into account.
    pub open spec fn active(self) -> bool {
        self.phase == SchedulerPhase::Polling || self.phase == SchedulerPhase::Holding
    }
}

/// The instructions of a run are the periods of the ideal schedule from the
/// first one not yet issued, one after the other without a gap.
pub proof fn lemma_sent_is_ideal(s: Schedule, readings: Seq<u64>)
    requires
        s.wf(),
    ensures
        s.sent(readings).len() == s.run(readings).issued - s.issued,
        forall|k: int|
            0 <= k < s.sent(readings).len() ==> #[trigger] s.sent(readings)[k] == s.instruction(
                (s.issued + k) as nat,
            ),
    decreases readings.len(),
{
    if readings.len() > 0 {
        let earlier = readings.drop_last();
        lemma_sent_is_ideal(s, earlier);
        lemma_run_wf(s, earlier);
    }
}

/// Every period that was issued started no later than the finish, so its
/// deadlines fit on the counter.
pub proof fn lemma_issued_periods_fit(s: Schedule, k: nat)
    requires
        s.wf(),
        k < s.issued,
    ensures
        s.origin <= s.start_of(k) <= s.finish,
        s.instruction(k).mid_deadline == s.start_of(k) + s.half(),
        s.instruction(k).period_ticks == s.period,
        s.start_of(k) + 2 * s.half() <= u64::MAX,
{
    lemma_starts_ordered(s, k, (s.issued - 1) as nat);
    lemma_start_of(s, (s.issued - 1) as nat);
}

/// Deadlines follow the ideal schedule: whatever the counter did, instruction
/// number `k` of a run ends its busy half exactly half a period after the ideal
/// start of its period, and every instruction carries the same period.
pub proof fn lemma_sent_follows_ideal_schedule(s: Schedule, readings: Seq<u64>, k: int)
    requires
        s.wf(),
        0 <= k < s.sent(readings).len(),
    ensures
        s.sent(readings)[k].mid_deadline == s.origin + (s.issued + k) * s.period + s.period / 2,
        s.sent(readings)[k].period_ticks == s.period,
{
    lemma_sent_is_ideal(s, readings);
    lemma_run_wf(s, readings);
    let after = s.run(readings);
    lemma_issued_periods_fit(after, (s.issued + k) as nat);
}

/// Deadlines are handed out in strictly increasing order, as many periods
/// apart as the instructions are.
pub proof fn lemma_deadlines_strictly_increase(s: Schedule, readings: Seq<u64>, i: int, j: int)
    requires
        s.wf(),
        0 <= i < j < s.sent(readings).len(),
    ensures
        s.sent(readings)[i].mid_deadline < s.sent(readings)[j].mid_deadline,
        s.sent(readings)[j].mid_deadline - s.sent(readings)[i].mid_deadline == (j - i) * s.period,
{
    lemma_sent_follows_ideal_schedule(s, readings, i);
    lemma_sent_follows_ideal_schedule(s, readings, j);
    lemma_starts_ordered(s, (s.issued + i) as nat, (s.issued + j) as nat);
    assert(0 < (j - i) * s.period) by (nonlinear_arith)
        requires
            i < j,
            2 <= s.period,
    ;
}

/// A tone that was played to its end lies in the past: the reading that
/// ended it is above every deadline it issued, so that a tone begun at that
/// reading or later has later deadlines throughout.
pub proof fn lemma_next_tone_has_later_deadlines(
    ended: Schedule,
    next: Schedule,
    i: nat,
    j: nat,
)
    requires
        ended.wf(),
        ended.phase == SchedulerPhase::Finished,
        next.wf(),
        ended.last <= next.origin,
        i < ended.issued,
        j < next.issued,
    ensures
        ended.instruction(i).mid_deadline < ended.last,
        ended.instruction(i).mid_deadline < next.instruction(j).mid_deadline,
{
    lemma_issued_periods_fit(next, j);
    lemma_starts_ordered(ended, i, (ended.issued - 1) as nat);
    lemma_start_of(ended, (ended.issued - 1) as nat);
}

/// Playing a tone of the same duration and frequency twice, from the same
/// counter value and against the same readings, gives the same instructions
/// and ends in the same state.
pub proof fn lemma_replay_is_reproducible(
    first: ToneView,
    second: ToneView,
    rate: nat,
    start: u64,
    readings: Seq<u64>,
)
    requires
        first.duration_nanos == second.duration_nanos,
        first.frequency_hz == second.frequency_hz,
    ensures
        Schedule::begin(first, rate, start) == Schedule::begin(second, rate, start),
        Schedule::begin(first, rate, start) matches Ok(s) ==> (Schedule::begin(
            second,
            rate,
            start,
        )->Ok_0.sent(readings) == s.sent(readings) && Schedule::begin(
            second,
            rate,
            start,
        )->Ok_0.run(readings) == s.run(readings)),
{
}

/// What is issued does not depend on the counter: two runs of one tone against
/// different readings agree on every instruction that both of them issue.
pub proof fn lemma_instructions_ignore_the_clock(
    s: Schedule,
    first_readings: Seq<u64>,
    second_readings: Seq<u64>,
    k: int,
)
    requires
        s.wf(),
        0 <= k < s.sent(first_readings).len(),
        0 <= k < s.sent(second_readings).len(),
    ensures
        s.sent(first_readings)[k] == s.sent(second_readings)[k],
{
    lemma_sent_is_ideal(s, first_readings);
    lemma_sent_is_ideal(s, second_readings);
}

/// No more periods are issued than start within the tone: the instructions of
/// a tone cover at most its length and one period more.
pub proof fn lemma_instruction_count_upper_bound(s: Schedule, readings: Seq<u64>)
    requires
        s.wf(),
        s.issued == 0,
    ensures
        s.sent(readings).len() * s.period <= s.span() + s.period,
{
    lemma_sent_is_ideal(s, readings);
    lemma_run_wf(s, readings);
    if s.run(readings).issued == 0 {
        assert(0 * s.period == 0) by (nonlinear_arith);
    }
}

/// One reading of a steady counter keeps the scheduler on pace.
pub proof fn lemma_step_paced(s: Schedule, now: u64, step: int)
    requires
        s.wf(),
        s.paced(step),
        0 <= step,
        2 * step <= s.period,
        s.active() ==> s.last <= now <= s.last + step,
    ensures
        s.step(now).0.paced(step),
        s.step(now).0.active() ==> s.step(now).0.last == now,
{
    lemma_start_of(s, s.issued);
}

/// A steady counter keeps the scheduler on pace for a whole run.
pub proof fn lemma_run_paced(s: Schedule, readings: Seq<u64>, step: int)
    requires
        s.wf(),
        s.paced(step),
        0 <= step,
        2 * step <= s.period,
        steady(s.last, readings, step),
    ensures
        s.run(readings).wf(),
        s.run(readings).paced(step),
        s.run(readings).active() ==> s.run(readings).last == reading_before(
            s.last,
            readings,
            readings.len() as int,
        ),
    decreases readings.len(),
{
    if readings.len() > 0 {
        let earlier = readings.drop_last();
        let before = s.run(earlier);
        lemma_run_paced(s, earlier, step);
        lemma_run_wf(s, earlier);
        lemma_step_paced(before, readings.last(), step);
        lemma_step_wf(before, readings.last());
    }
}

/// How many instructions a tone takes. Against a counter that advances by at
/// most `step` ticks between readings, with two steps fitting in a period, a
/// tone that was played to its end issued so many instructions that their
/// periods cover its length to within two steps below and one period above.
pub proof fn lemma_instruction_count(s: Schedule, readings: Seq<u64>, step: int)
    requires
        s.fresh(),
        0 <= step,
        2 * step <= s.period,
        steady(s.origin, readings, step),
        s.run(readings).phase == SchedulerPhase::Finished,
    ensures
        s.span() - 2 * step < s.sent(readings).len() * s.period <= s.span() + s.period,
{
    lemma_start_of(s, 0);
    lemma_run_paced(s, readings, step);
    lemma_sent_is_ideal(s, readings);
    lemma_run_wf(s, readings);
}

/// From periods to hertz: a count of periods of `rate / frequency` ticks each
/// that covers `span` ticks to within `slack` below and one period above is
/// the frequency times the length of the span in seconds, to within the slack
/// below and one period and the rounding of the period above.
proof fn lemma_periods_to_hertz(count: int, rate: int, frequency: int, span: int, slack: int)
    by (nonlinear_arith)
    requires
        0 <= count,
        0 < frequency,
        0 <= rate,
        0 <= span,
        2 <= rate / frequency,
        span - slack < count * (rate / frequency) <= span + rate / frequency,
    ensures
        (span - slack) * frequency < count * rate,
        (count - 1) * (rate - frequency) <= span * frequency,
{
}

/// How many instructions a tone of a given frequency and duration takes.
///
/// Let the tone last `span` ticks of a counter that makes `rate` ticks per
/// second and advances by at most `step` ticks between readings, two steps
/// fitting in a period. Played to its end, the tone issued one instruction for
/// each period: as many as the frequency times the length of the tone in
/// seconds, less at most what fits in two steps, plus at most one and what
/// the rounding of the period to whole ticks adds.
pub proof fn lemma_instruction_count_in_hertz(
    tone: ToneView,
    rate: nat,
    start: u64,
    readings: Seq<u64>,
    step: int,
)
    requires
        tone.wf(),
        Schedule::begin(tone, rate, start) is Ok,
        0 <= step,
        2 * step <= rate / tone.frequency_hz,
        steady(start as int, readings, step),
        Schedule::begin(tone, rate, start)->Ok_0.run(readings).phase == SchedulerPhase::Finished,
    ensures
        ({
            let count = Schedule::begin(tone, rate, start)->Ok_0.sent(readings).len();
            let span = ticks_in(rate, tone.duration_nanos);
            &&& (span - 2 * step) * tone.frequency_hz < count * rate
            &&& (count - 1) * (rate - tone.frequency_hz) <= span * tone.frequency_hz
        }),
{
    let s = Schedule::begin(tone, rate, start)->Ok_0;
    lemma_instruction_count(s, readings, step);
    lemma_periods_to_hertz(
        s.sent(readings).len() as int,
        rate as int,
        tone.frequency_hz as int,
        s.span(),
        2 * step,
    );
}

/// No drift: against a steady counter, every instruction is issued at a
/// reading that lies between the ideal start of its period and two steps
/// after it, however many periods went before.
pub proof fn lemma_dispatch_is_punctual(s: Schedule, readings: Seq<u64>, step: int, i: int)
    requires
        s.fresh(),
        0 <= step,
        2 * step <= s.period,
        steady(s.origin, readings, step),
        0 <= i < readings.len(),
        s.run(readings.take(i)).step(readings[i]).1 is Send,
    ensures
        ({
            let before = s.run(readings.take(i));
            let instruction = s.run(readings.take(i)).step(readings[i]).1->Send_0;
            &&& instruction == s.instruction(before.issued)
            &&& instruction.mid_deadline == s.start_of(before.issued) + s.half()
            &&& s.start_of(before.issued) <= readings[i] <= s.start_of(before.issued) + 2 * step
        }),
{
    let earlier = readings.take(i);
    let before = s.run(earlier);
    lemma_run_paced(s, earlier, step);
    lemma_run_wf(s, earlier);
    lemma_step_wf(before, readings[i]);
    lemma_issued_periods_fit(before.step(readings[i]).0, before.issued);
}

/// Replaying readings in two parts is replaying them in one.
pub proof fn lemma_run_in_parts(s: Schedule, first: Seq<u64>, second: Seq<u64>)
    ensures
        s.run(first + second) == s.run(first).run(second),
        s.sent(first + second) == s.sent(first) + s.run(first).sent(second),
    decreases second.len(),
{
    if second.len() > 0 {
        assert((first + second).drop_last() == first + second.drop_last());
        lemma_run_in_parts(s, first, second.drop_last());
    }
}

/// While the counter does not run backwards, a tone is not given up, and the
/// scheduler has taken the latest reading into account until the tone is over.
pub proof fn lemma_rising_never_aborts(s: Schedule, readings: Seq<u64>)
    requires
        s.wf(),
        s.phase != SchedulerPhase::Aborted,
        rising(s.last, readings),
    ensures
        s.run(readings).phase != SchedulerPhase::Aborted,
        s.run(readings).active() ==> s.active() && s.run(readings).last == reading_before(
            s.last,
            readings,
            readings.len() as int,
        ),
    decreases readings.len(),
{
    if readings.len() > 0 {
        let earlier = readings.drop_last();
        lemma_rising_never_aborts(s, earlier);
    }
}

/// Every tone ends. Once a counter that does not run backwards has passed the
/// finish by more than a period, the second reading at the latest finds the
/// tone over: no deadline is waited for in vain.
pub proof fn lemma_tone_ends(s: Schedule, readings: Seq<u64>)
    requires
        s.wf(),
        s.phase != SchedulerPhase::Aborted,
        rising(s.last, readings),
        readings.len() >= 2,
        readings[readings.len() - 2] > s.finish + s.period,
    ensures
        s.run(readings).phase == SchedulerPhase::Finished,
{
    let count = readings.len() as int;
    let earlier = readings.take(count - 2);
    let tail = seq![readings[count - 2], readings[count - 1]];
    assert(readings == earlier + tail);
    lemma_rising_never_aborts(s, earlier);
    lemma_run_wf(s, earlier);
    lemma_run_in_parts(s, earlier, tail);
    let before = s.run(earlier);
    let middle = before.step(tail[0]).0;
    assert(tail.drop_last() == seq![tail[0]]);
    assert(seq![tail[0]].drop_last() == Seq::<u64>::empty());
    assert(before.run(seq![tail[0]]) == middle) by {
        assert(before.run(Seq::<u64>::empty()) == before);
    }
}

} // verus!
