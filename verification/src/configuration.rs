//! What a transmitter is started with: the speed of the counter and one
//! emission strategy for each worker.

use vstd::prelude::*;
use crate::clock::ClockRate;
use crate::worker::{EmissionStrategy, EmissionWorker, WorkerPhase, WorkerState};

verus! {

/// Why a configuration was refused.
#[derive(Clone, Copy, Debug, PartialEq, Eq)]
pub enum ConfigurationError {
    /// No worker was asked for.
    NoWorkers,
    /// The worker at this position uses a strategy that the machine lacks the
    /// instructions for.
    UnsupportedStrategy(usize),
}

/// Whether the machine can run `strategy`, given whether it has non-temporal
/// vector stores.
pub open spec fn is_supported(strategy: EmissionStrategy, streaming_stores: bool) -> bool {
    strategy == EmissionStrategy::StreamingStore ==> streaming_stores
}

/// Whether the machine can run all of the first `count` strategies.
pub open spec fn all_supported(
    strategies: Seq<EmissionStrategy>,
    streaming_stores: bool,
    count: int,
) -> bool {
    forall|i: int| 0 <= i < count ==> is_supported(#[trigger] strategies[i], streaming_stores)
}

/// A checked configuration. Its view is the list of strategies, one for each
/// worker, in the order of the workers.
#[derive(Debug)]
pub struct Configuration {
    rate: ClockRate,
    strategies: Vec<EmissionStrategy>,
}

impl View for Configuration {
    type V = Seq<EmissionStrategy>;

    closed spec fn view(&self) -> Seq<EmissionStrategy> {
        self.strategies@
    }
}

impl Configuration {
    /// Speed of the counter that the configuration is for, in ticks per second.
    pub closed spec fn rate(&self) -> nat {
        self.rate@
    }

    /// Checks a list of strategies against what the machine offers.
    ///
    /// Fails with `NoWorkers` on an empty list, and with `UnsupportedStrategy`
    /// and the first position concerned when a worker is to use streaming
    /// stores on a machine without them. Every other list is accepted as it is.
    pub fn new(rate: ClockRate, strategies: Vec<EmissionStrategy>, streaming_stores: bool) -> (configuration:
        Result<Configuration, ConfigurationError>)
        ensures
            (match configuration {
                Ok(c) => {
                    &&& strategies@.len() > 0
                    &&& all_supported(strategies@, streaming_stores, strategies@.len() as int)
                    &&& c@ == strategies@
                    &&& c.rate() == rate@
                },
                Err(ConfigurationError::NoWorkers) => strategies@.len() == 0,
                Err(ConfigurationError::UnsupportedStrategy(at)) => {
                    &&& at < strategies@.len()
                    &&& !is_supported(strategies@[at as int], streaming_stores)
                    &&& all_supported(strategies@, streaming_stores, at as int)
                },
            }),
    {
        if strategies.len() == 0 {
            return Err(ConfigurationError::NoWorkers);
        }
        let mut i: usize = 0;
        while i < strategies.len()
            invariant
                i <= strategies.len(),
                all_supported(strategies@, streaming_stores, i as int),
            decreases strategies.len() - i,
        {
            let unsupported = match strategies[i] {
                EmissionStrategy::StreamingStore => !streaming_stores,
                _ => false,
            };
            if unsupported {
                return Err(ConfigurationError::UnsupportedStrategy(i));
            }
            i += 1;
        }
        Ok(Configuration { rate, strategies })
    }

    /// Number of workers.
    pub fn worker_count(&self) -> (count: usize)
        ensures
            count == self@.len(),
    {
        self.strategies.len()
    }

    /// A worker for position `index` with no instruction in hand, or `None`
    /// when there are not that many workers.
    pub fn worker(&self, index: usize) -> (worker: Option<EmissionWorker>)
        ensures
            index < self@.len() <==> worker is Some,
            worker matches Some(w) ==> w@ == (WorkerState {
                strategy: self@[index as int],
                rate: self.rate(),
                phase: WorkerPhase::Awaiting,
            }),
    {
        if index < self.strategies.len() {
            Some(EmissionWorker::new(self.strategies[index], self.rate))
        } else {
            None
        }
    }
}

} // verus!
