use bus_radio::clock::ClockRate;
use bus_radio::configuration::{Configuration, ConfigurationError};
use bus_radio::worker::{EmissionStrategy, WorkerAction, WorkerEvent, WorkerPhase};
use bus_radio::tone::TimingInstruction;

use EmissionStrategy::{AtomicCounter, StreamingStore, VolatileCell};

#[test]
fn a_configuration_without_workers_is_refused() {
    let rate = ClockRate::nanosecond();
    assert_eq!(Configuration::new(rate, vec![], true).err(), Some(ConfigurationError::NoWorkers));
    assert_eq!(Configuration::new(rate, vec![], false).err(), Some(ConfigurationError::NoWorkers));
}

#[test]
fn streaming_stores_need_a_machine_that_has_them() {
    let rate = ClockRate::nanosecond();
    assert_eq!(
        Configuration::new(rate, vec![StreamingStore], false).err(),
        Some(ConfigurationError::UnsupportedStrategy(0))
    );
    assert!(Configuration::new(rate, vec![StreamingStore], true).is_ok());
}

#[test]
fn the_first_unsupported_worker_is_reported() {
    let rate = ClockRate::nanosecond();
    let strategies = vec![AtomicCounter, VolatileCell, StreamingStore, AtomicCounter, StreamingStore];
    assert_eq!(
        Configuration::new(rate, strategies.clone(), false).err(),
        Some(ConfigurationError::UnsupportedStrategy(2))
    );
    let configuration = Configuration::new(rate, strategies, true).unwrap();
    assert_eq!(configuration.worker_count(), 5);
}

#[test]
fn counters_and_cells_run_on_any_machine() {
    let rate = ClockRate::nanosecond();
    let configuration = Configuration::new(rate, vec![VolatileCell, AtomicCounter], false).unwrap();
    assert_eq!(configuration.worker_count(), 2);
}

#[test]
fn a_configuration_hands_out_one_worker_per_position() {
    let rate = ClockRate::new(2_000_000_000).unwrap();
    let strategies = vec![StreamingStore, AtomicCounter, VolatileCell];
    let configuration = Configuration::new(rate, strategies.clone(), true).unwrap();
    for (index, strategy) in strategies.iter().enumerate() {
        let worker = configuration.worker(index).unwrap();
        assert_eq!(worker.strategy(), *strategy);
        assert_eq!(worker.phase(), WorkerPhase::Awaiting);
    }
    assert!(configuration.worker(3).is_none());
    assert!(configuration.worker(usize::MAX).is_none());

    // The workers run on the configured counter: 2000 ticks are 1000 ns.
    let mut sleeper = configuration.worker(1).unwrap();
    let instruction = TimingInstruction { mid_deadline: 10, period_ticks: 2000 };
    assert_eq!(sleeper.step(WorkerEvent::Instruction(instruction)), WorkerAction::Spin);
    assert_eq!(sleeper.step(WorkerEvent::Reading(11)), WorkerAction::Sleep(1000));
}
