//! Tones, the instructions they are turned into, and what can go wrong.

use vstd::prelude::*;

verus! {

/// Why a tone was refused or given up.
#[derive(Clone, Copy, Debug, PartialEq, Eq)]
pub enum ToneError {
    /// The duration or the frequency is not positive, or the frequency is too
    /// high for the counter: a period would last less than two ticks.
    InvalidTone,
    /// A deadline cannot be represented on the counter, or the counter was
    /// seen running backwards.
    TimingAnomaly,
}

/// One unit of work for an emission worker: keep the bus busy until the counter
/// passes `mid_deadline`, then stay quiet for the rest of the period.
#[derive(Clone, Copy, Debug, PartialEq, Eq)]
pub struct TimingInstruction {
    /// End of the busy half of the period, as a counter value.
    pub mid_deadline: u64,
    /// Length of the whole period in ticks.
    pub period_ticks: u64,
}

/// What a tone is, as numbers: how long it sounds and how often it swings.
pub struct ToneView {
    pub duration_nanos: nat,
    pub frequency_hz: nat,
}

impl ToneView {
    /// Both quantities are positive and within their machine ranges.
    pub open spec fn wf(self) -> bool {
        &&& 0 < self.duration_nanos <= u64::MAX
        &&& 0 < self.frequency_hz <= u32::MAX
    }
}

/// Whether a duration and a frequency describe a tone that can be played.
pub open spec fn is_playable(duration_nanos: u64, frequency_hz: i64) -> bool {
    duration_nanos > 0 && 0 < frequency_hz <= u32::MAX
}

/// A square-wave tone: a positive duration in nanoseconds and a positive
/// frequency in hertz.
#[derive(Clone, Copy, Debug, PartialEq, Eq)]
pub struct Tone {
    duration_nanos: u64,
    frequency_hz: u32,
}

impl View for Tone {
    type V = ToneView;

    closed spec fn view(&self) -> ToneView {
        ToneView {
            duration_nanos: self.duration_nanos as nat,
            frequency_hz: self.frequency_hz as nat,
        }
    }
}

impl Tone {
    #[verifier::type_invariant]
    spec fn inv(self) -> bool {
        self@.wf()
    }

    /// A tone of `duration_nanos` nanoseconds at `frequency_hz` hertz.
    ///
    /// Fails with `InvalidTone` exactly when the duration is zero or the
    /// frequency is zero, negative or beyond 32 bits.
    pub fn new(duration_nanos: u64, frequency_hz: i64) -> (tone: Result<Tone, ToneError>)
        ensures
            is_playable(duration_nanos, frequency_hz) <==> tone is Ok,
            tone matches Ok(t) ==> t@ == (ToneView {
                duration_nanos: duration_nanos as nat,
                frequency_hz: frequency_hz as nat,
            }),
            tone matches Err(e) ==> e == ToneError::InvalidTone,
    {
        if duration_nanos == 0 || frequency_hz <= 0 || frequency_hz > u32::MAX as i64 {
            Err(ToneError::InvalidTone)
        } else {
            Ok(Tone { duration_nanos, frequency_hz: frequency_hz as u32 })
        }
    }

    /// The duration in nanoseconds.
    pub fn duration_nanos(&self) -> (nanos: u64)
        ensures
            nanos == self@.duration_nanos,
            self@.wf(),
    {
        proof {
            use_type_invariant(self);
        }
        self.duration_nanos
    }

    /// The frequency in hertz.
    pub fn frequency_hz(&self) -> (hertz: u32)
        ensures
            hertz == self@.frequency_hz,
            self@.wf(),
    {
        proof {
            use_type_invariant(self);
        }
        self.frequency_hz
    }
}

} // verus!
