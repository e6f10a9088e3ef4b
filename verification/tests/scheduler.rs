use bus_radio::clock::ClockRate;
use bus_radio::schedule::{SchedulerAction, SchedulerPhase};
use bus_radio::scheduler::ToneScheduler;
use bus_radio::tone::{TimingInstruction, Tone, ToneError};

/// `count` readings of a counter that showed `from` and advances by `step`.
fn ticking(from: u64, step: u64, count: usize) -> Vec<u64> {
    let mut readings = Vec::with_capacity(count);
    let mut now = from;
    for _ in 0..count {
        now += step;
        readings.push(now);
    }
    readings
}

/// `count` readings of a counter that showed `from` and advances by one to
/// `most` ticks at a time, in a fixed irregular pattern.
fn jittering(from: u64, most: u64, count: usize, seed: u64) -> Vec<u64> {
    let mut readings = Vec::with_capacity(count);
    let mut now = from;
    let mut state = seed;
    for _ in 0..count {
        state = state
            .wrapping_mul(6364136223846793005)
            .wrapping_add(1442695040888963407);
        now += 1 + (state >> 33) % most;
        readings.push(now);
    }
    readings
}

fn scheduler(duration_nanos: u64, frequency_hz: i64, rate: ClockRate, start: u64) -> ToneScheduler {
    let tone = Tone::new(duration_nanos, frequency_hz).unwrap();
    ToneScheduler::new(tone, rate, start).unwrap()
}

fn instruction(mid_deadline: u64, period_ticks: u64) -> TimingInstruction {
    TimingInstruction { mid_deadline, period_ticks }
}

#[test]
fn a_tone_of_2673_hz_has_a_period_of_374111_nanoseconds() {
    let s = scheduler(400_000_000, 2673, ClockRate::nanosecond(), 0);
    assert_eq!(s.period_ticks(), 374_111);
    assert_eq!(s.origin(), 0);
    assert_eq!(s.finish(), 400_000_000);
    assert_eq!(s.issued(), 0);
    assert_eq!(s.phase(), SchedulerPhase::Polling);
}

#[test]
fn period_and_finish_follow_the_counter_speed() {
    let rate = ClockRate::new(3_000_000_000).unwrap();
    let s = scheduler(400_000_000, 2673, rate, 1_000_000);
    assert_eq!(s.period_ticks(), 1_122_334);
    assert_eq!(s.finish(), 1_201_000_000);
}

#[test]
fn playing_2673_hz_for_400_ms_issues_one_instruction_per_period() {
    let mut s = scheduler(400_000_000, 2673, ClockRate::nanosecond(), 0);
    let sent = s.replay(&ticking(0, 1000, 402_000));
    assert_eq!(s.phase(), SchedulerPhase::Finished);
    assert_eq!(sent.len(), 1070);
    assert_eq!(s.issued(), 1070);
    assert!(sent.iter().all(|i| i.period_ticks == 374_111));
    assert_eq!(sent[0], instruction(187_055, 374_111));
    assert_eq!(sent[1069], instruction(400_111_714, 374_111));
}

#[test]
fn instruction_count_matches_duration_over_period() {
    let cases: [(i64, u64, usize); 4] =
        [(2673, 374_111, 1070), (2349, 425_713, 940), (2093, 477_783, 838), (3136, 318_877, 1255)];
    for (frequency, period, count) in cases {
        let mut s = scheduler(400_000_000, frequency, ClockRate::nanosecond(), 0);
        let sent = s.replay(&ticking(0, 1000, 402_000));
        assert_eq!(s.phase(), SchedulerPhase::Finished);
        assert_eq!(s.period_ticks(), period);
        assert_eq!(sent.len(), count);
        let covered = sent.len() as u64 * period;
        assert!(400_000_000 - 2 * 1000 < covered);
        assert!(covered <= 400_000_000 + period);
        // The same in hertz: about the frequency times 0.4 seconds.
        let hertz = frequency as u64;
        assert!((400_000_000 - 2 * 1000) * hertz < sent.len() as u64 * 1_000_000_000);
        assert!((sent.len() as u64 - 1) * (1_000_000_000 - hertz) <= 400_000_000 * hertz);
        assert_eq!(sent.len() as u64, 400_000_000 * hertz / 1_000_000_000 + 1);
    }
}

#[test]
fn a_longer_tone_on_a_coarser_counter() {
    let mut s = scheduler(790_000_000, 2673, ClockRate::nanosecond(), 5000);
    let sent = s.replay(&ticking(5000, 777, 1_020_000));
    assert_eq!(s.phase(), SchedulerPhase::Finished);
    assert_eq!(sent.len(), 2112);
    assert_eq!(sent[2111], instruction(789_940_376, 374_111));
}

#[test]
fn a_faster_counter_gives_the_same_number_of_instructions() {
    let rate = ClockRate::new(3_000_000_000).unwrap();
    let mut s = scheduler(400_000_000, 2673, rate, 1_000_000);
    let sent = s.replay(&ticking(1_000_000, 2500, 482_000));
    assert_eq!(s.phase(), SchedulerPhase::Finished);
    assert_eq!(sent.len(), 1070);
    assert_eq!(sent[0], instruction(1_561_167, 1_122_334));
    assert_eq!(sent[1], instruction(2_683_501, 1_122_334));
    assert_eq!(sent[1069], instruction(1_201_336_213, 1_122_334));
}

#[test]
fn deadlines_follow_the_ideal_schedule_on_an_irregular_counter() {
    let mut s = scheduler(400_000_000, 2673, ClockRate::nanosecond(), 1000);
    let sent = s.replay(&jittering(1000, 5000, 200_000, 12345));
    assert_eq!(s.phase(), SchedulerPhase::Finished);
    assert_eq!(sent.len(), 1070);
    for (k, instruction) in sent.iter().enumerate() {
        assert_eq!(instruction.mid_deadline, 1000 + k as u64 * 374_111 + 187_055);
        assert_eq!(instruction.period_ticks, 374_111);
    }
    for pair in sent.windows(2) {
        assert!(pair[0].mid_deadline < pair[1].mid_deadline);
        assert_eq!(pair[1].mid_deadline - pair[0].mid_deadline, 374_111);
    }
}

#[test]
fn instructions_are_issued_within_two_steps_of_the_ideal_start() {
    let most = 5000;
    let readings = jittering(1000, most, 200_000, 12345);
    let mut s = scheduler(400_000_000, 2673, ClockRate::nanosecond(), 1000);
    let mut issued = 0u64;
    for now in readings {
        if let SchedulerAction::Send(instruction) = s.step(now) {
            let ideal_start = 1000 + issued * 374_111;
            assert_eq!(instruction.mid_deadline, ideal_start + 187_055);
            assert!(ideal_start <= now);
            assert!(now <= ideal_start + 2 * most);
            issued += 1;
        }
    }
    assert_eq!(issued, 1070);
    assert_eq!(s.phase(), SchedulerPhase::Finished);
}

#[test]
fn two_schedulers_with_the_same_inputs_issue_the_same_instructions() {
    let readings = jittering(77, 3000, 300_000, 99);
    let mut first = scheduler(400_000_000, 2349, ClockRate::nanosecond(), 77);
    let mut second = scheduler(400_000_000, 2349, ClockRate::nanosecond(), 77);
    let sent_first = first.replay(&readings);
    let sent_second = second.replay(&readings);
    assert_eq!(sent_first.len(), 940);
    assert_eq!(sent_first, sent_second);
    assert_eq!(first.phase(), second.phase());
    assert_eq!(first.issued(), second.issued());
}

#[test]
fn different_counters_agree_on_the_instructions_they_both_issue() {
    let mut first = scheduler(400_000_000, 2673, ClockRate::nanosecond(), 1000);
    let mut second = scheduler(400_000_000, 2673, ClockRate::nanosecond(), 1000);
    let sent_first = first.replay(&ticking(1000, 1000, 100_000));
    let sent_second = second.replay(&jittering(1000, 5000, 200_000, 7));
    assert!(sent_first.len() < sent_second.len());
    assert_eq!(sent_first[..], sent_second[..sent_first.len()]);
}

#[test]
fn the_next_tone_has_later_deadlines_than_the_one_before() {
    let rate = ClockRate::new(1000).unwrap();
    let mut first = scheduler(35_000_000, 100, rate, 100);
    let sent_first = first.replay(&ticking(99, 1, 41));
    assert_eq!(first.phase(), SchedulerPhase::Holding);
    assert_eq!(first.issued(), 4);
    // The last period is held to its end even though the tone is over.
    assert_eq!(first.step(141), SchedulerAction::Wait);
    assert_eq!(first.step(141), SchedulerAction::Finished);
    let last_deadline = sent_first.last().unwrap().mid_deadline;
    assert_eq!(last_deadline, 135);
    assert!(last_deadline < 141);

    let mut second = scheduler(35_000_000, 200, rate, 141);
    let sent_second = second.replay(&ticking(140, 1, 60));
    assert_eq!(second.phase(), SchedulerPhase::Finished);
    assert_eq!(sent_second.first().unwrap().mid_deadline, 143);
    for later in &sent_second {
        assert!(last_deadline < later.mid_deadline);
    }
}

#[test]
fn replay_in_two_parts_is_replay_in_one() {
    let readings = ticking(0, 1000, 402_000);
    let mut whole = scheduler(400_000_000, 2673, ClockRate::nanosecond(), 0);
    let mut parts = scheduler(400_000_000, 2673, ClockRate::nanosecond(), 0);
    let sent_whole = whole.replay(&readings);
    let mut sent_parts = parts.replay(&readings[..150_000]);
    sent_parts.extend(parts.replay(&readings[150_000..]));
    assert_eq!(sent_whole, sent_parts);
    assert_eq!(whole.phase(), parts.phase());
}

#[test]
fn a_short_tone_step_by_step() {
    // 100 Hz on a counter of 1000 ticks per second: periods of 10 ticks.
    // 35 ms are 35 ticks, so periods may start up to tick 135.
    let rate = ClockRate::new(1000).unwrap();
    let mut s = scheduler(35_000_000, 100, rate, 100);
    assert_eq!(s.period_ticks(), 10);
    assert_eq!(s.finish(), 135);

    assert_eq!(s.step(100), SchedulerAction::Send(instruction(105, 10)));
    assert_eq!(s.phase(), SchedulerPhase::Holding);
    assert_eq!(s.step(101), SchedulerAction::Wait);
    assert_eq!(s.step(109), SchedulerAction::Wait);
    assert_eq!(s.step(110), SchedulerAction::Wait);
    assert_eq!(s.phase(), SchedulerPhase::Holding);
    assert_eq!(s.step(111), SchedulerAction::Wait);
    assert_eq!(s.phase(), SchedulerPhase::Polling);

    // The counter jumped past the next deadline: the instruction is that of
    // the ideal schedule all the same.
    assert_eq!(s.step(119), SchedulerAction::Send(instruction(115, 10)));
    assert_eq!(s.step(120), SchedulerAction::Wait);
    assert_eq!(s.phase(), SchedulerPhase::Holding);
    assert_eq!(s.step(121), SchedulerAction::Wait);
    assert_eq!(s.phase(), SchedulerPhase::Polling);

    assert_eq!(s.step(125), SchedulerAction::Send(instruction(125, 10)));
    assert_eq!(s.step(131), SchedulerAction::Wait);
    assert_eq!(s.step(135), SchedulerAction::Send(instruction(135, 10)));
    assert_eq!(s.issued(), 4);
    assert_eq!(s.step(141), SchedulerAction::Wait);
    assert_eq!(s.phase(), SchedulerPhase::Polling);
    assert_eq!(s.step(150), SchedulerAction::Finished);
    assert_eq!(s.phase(), SchedulerPhase::Finished);
    assert_eq!(s.issued(), 4);
}

#[test]
fn an_odd_period_is_held_for_two_half_periods() {
    // Periods of 11 ticks: the busy half lasts 5 ticks, the hold 10.
    let rate = ClockRate::new(1100).unwrap();
    let mut s = scheduler(1_000_000_000, 100, rate, 0);
    assert_eq!(s.period_ticks(), 11);
    assert_eq!(s.step(0), SchedulerAction::Send(instruction(5, 11)));
    assert_eq!(s.step(10), SchedulerAction::Wait);
    assert_eq!(s.phase(), SchedulerPhase::Holding);
    assert_eq!(s.step(11), SchedulerAction::Wait);
    assert_eq!(s.phase(), SchedulerPhase::Polling);
    assert_eq!(s.step(11), SchedulerAction::Send(instruction(16, 11)));
    assert_eq!(s.step(22), SchedulerAction::Wait);
    assert_eq!(s.phase(), SchedulerPhase::Polling);
    assert_eq!(s.step(22), SchedulerAction::Send(instruction(27, 11)));
}

#[test]
fn a_finished_tone_stays_finished() {
    let rate = ClockRate::new(1000).unwrap();
    let mut s = scheduler(35_000_000, 100, rate, 100);
    assert_eq!(s.step(136), SchedulerAction::Finished);
    assert_eq!(s.issued(), 0);
    assert_eq!(s.step(100), SchedulerAction::Finished);
    assert_eq!(s.step(500), SchedulerAction::Finished);
    assert_eq!(s.phase(), SchedulerPhase::Finished);
    assert!(s.replay(&[1, 2, 3]).is_empty());
}

#[test]
fn a_counter_that_runs_backwards_aborts_the_tone() {
    let rate = ClockRate::new(1000).unwrap();
    let mut s = scheduler(35_000_000, 100, rate, 100);
    assert_eq!(s.step(104), SchedulerAction::Send(instruction(105, 10)));
    assert_eq!(s.step(103), SchedulerAction::Abort);
    assert_eq!(s.phase(), SchedulerPhase::Aborted);
    assert_eq!(s.step(200), SchedulerAction::Abort);
    assert_eq!(s.issued(), 1);

    let mut polling = scheduler(35_000_000, 100, rate, 100);
    assert_eq!(polling.step(99), SchedulerAction::Abort);
    assert_eq!(polling.phase(), SchedulerPhase::Aborted);
    assert!(polling.replay(&[100, 101, 120]).is_empty());
}

#[test]
fn a_reading_equal_to_the_last_is_no_anomaly() {
    let rate = ClockRate::new(1000).unwrap();
    let mut s = scheduler(35_000_000, 100, rate, 100);
    assert_eq!(s.step(100), SchedulerAction::Send(instruction(105, 10)));
    assert_eq!(s.step(100), SchedulerAction::Wait);
    assert_eq!(s.phase(), SchedulerPhase::Holding);
}

#[test]
fn a_frequency_too_high_for_the_counter_is_an_invalid_tone() {
    let rate = ClockRate::nanosecond();
    let tone = Tone::new(400_000_000, 500_000_001).unwrap();
    assert_eq!(ToneScheduler::new(tone, rate, 0).err(), Some(ToneError::InvalidTone));
    let tone = Tone::new(400_000_000, 4_000_000_000).unwrap();
    assert_eq!(ToneScheduler::new(tone, rate, 0).err(), Some(ToneError::InvalidTone));
    let tone = Tone::new(400_000_000, u32::MAX as i64).unwrap();
    assert_eq!(ToneScheduler::new(tone, rate, 0).err(), Some(ToneError::InvalidTone));
}

#[test]
fn the_highest_playable_frequency_has_a_period_of_two_ticks() {
    let rate = ClockRate::nanosecond();
    let tone = Tone::new(10, 500_000_000).unwrap();
    let mut s = ToneScheduler::new(tone, rate, 0).unwrap();
    assert_eq!(s.period_ticks(), 2);
    let sent = s.replay(&ticking(0, 1, 20));
    assert_eq!(s.phase(), SchedulerPhase::Finished);
    assert_eq!(
        sent,
        vec![
            instruction(1, 2),
            instruction(3, 2),
            instruction(5, 2),
            instruction(7, 2),
            instruction(9, 2),
        ]
    );
}

#[test]
fn a_tone_that_does_not_fit_on_the_counter_is_a_timing_anomaly() {
    let rate = ClockRate::nanosecond();
    let tone = Tone::new(400_000_000, 2673).unwrap();
    assert_eq!(
        ToneScheduler::new(tone, rate, u64::MAX).err(),
        Some(ToneError::TimingAnomaly)
    );
    // Start, length and one period fit exactly ...
    let start = u64::MAX - 400_000_000 - 374_111;
    assert!(ToneScheduler::new(tone, rate, start).is_ok());
    // ... and one tick later they do not.
    assert_eq!(
        ToneScheduler::new(tone, rate, start + 1).err(),
        Some(ToneError::TimingAnomaly)
    );
}

#[test]
fn a_tone_longer_than_the_counter_range_is_a_timing_anomaly() {
    let rate = ClockRate::new(4_000_000_000).unwrap();
    let tone = Tone::new(u64::MAX, 440).unwrap();
    assert_eq!(ToneScheduler::new(tone, rate, 0).err(), Some(ToneError::TimingAnomaly));
}

#[test]
fn a_tone_at_the_end_of_the_counter_range_plays_without_overflow() {
    let rate = ClockRate::new(1000).unwrap();
    let tone = Tone::new(35_000_000, 100).unwrap();
    let start = u64::MAX - 45;
    let mut s = ToneScheduler::new(tone, rate, start).unwrap();
    assert_eq!(s.finish(), u64::MAX - 10);
    let sent = s.replay(&ticking(start - 1, 1, 41));
    assert_eq!(sent.len(), 4);
    assert_eq!(sent[3], instruction(u64::MAX - 10, 10));
    assert_eq!(s.phase(), SchedulerPhase::Holding);
    assert_eq!(s.step(u64::MAX), SchedulerAction::Wait);
    assert_eq!(s.phase(), SchedulerPhase::Polling);
    assert_eq!(s.step(u64::MAX), SchedulerAction::Finished);
}

#[test]
fn a_tone_shorter_than_a_tick_issues_at_most_one_instruction() {
    let rate = ClockRate::new(1000).unwrap();
    let tone = Tone::new(999_999, 100).unwrap();
    let mut s = ToneScheduler::new(tone, rate, 50).unwrap();
    assert_eq!(s.finish(), 50);
    assert_eq!(s.step(50), SchedulerAction::Send(instruction(55, 10)));
    let mut late = ToneScheduler::new(tone, rate, 50).unwrap();
    assert_eq!(late.step(51), SchedulerAction::Finished);
    assert_eq!(late.issued(), 0);
}

#[test]
fn a_tone_is_over_two_readings_after_its_last_period() {
    let rate = ClockRate::new(1000).unwrap();
    // Finish at 135, period 10: anything above 145 ends the tone in two readings.
    let mut polling = scheduler(35_000_000, 100, rate, 100);
    assert_eq!(polling.replay(&[146, 146]), vec![]);
    assert_eq!(polling.phase(), SchedulerPhase::Finished);

    let mut holding = scheduler(35_000_000, 100, rate, 100);
    assert_eq!(holding.replay(&[135, 146, 146]), vec![instruction(105, 10)]);
    assert_eq!(holding.phase(), SchedulerPhase::Finished);

    // One reading is not enough while a period is held.
    let mut held = scheduler(35_000_000, 100, rate, 100);
    assert_eq!(held.replay(&[135, 146]), vec![instruction(105, 10)]);
    assert_eq!(held.phase(), SchedulerPhase::Polling);
}
