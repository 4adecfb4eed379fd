//! Pulse-width parameters of one electronic speed controller.

use vstd::prelude::*;

verus! {

/// Frame period of the default configuration, in nanoseconds.
pub const DEFAULT_PERIOD_NS: u32 = 20_000_000;

/// Shortest valid pulse of the default configuration, in nanoseconds.
pub const DEFAULT_PULSE_MIN_NS: u32 = 1_200_000;

/// Zero-throttle pulse of the default configuration, in nanoseconds.
pub const DEFAULT_PULSE_NEUTRAL_NS: u32 = 1_500_000;

/// Longest valid pulse of the default configuration, in nanoseconds.
pub const DEFAULT_PULSE_MAX_NS: u32 = 1_800_000;

/// What a speed controller's parameters are, as numbers: every field is a
/// duration in nanoseconds.
pub struct EscModel {
    pub period_ns: u32,
    pub pulse_min_ns: u32,
    pub pulse_neutral_ns: u32,
    pub pulse_max_ns: u32,
    pub pulse_flight_ns: u32,
    pub pulse_actual_ns: u32,
}

impl EscModel {
    /// The valid range is ordered: minimum, then neutral, then maximum.
    pub open spec fn wf(self) -> bool {
        self.pulse_min_ns <= self.pulse_neutral_ns <= self.pulse_max_ns
    }

    /// The neutral-centred configuration that construction yields.
    pub open spec fn initial() -> EscModel {
        EscModel {
            period_ns: DEFAULT_PERIOD_NS,
            pulse_min_ns: DEFAULT_PULSE_MIN_NS,
            pulse_neutral_ns: DEFAULT_PULSE_NEUTRAL_NS,
            pulse_max_ns: DEFAULT_PULSE_MAX_NS,
            pulse_flight_ns: DEFAULT_PULSE_NEUTRAL_NS,
            pulse_actual_ns: DEFAULT_PULSE_NEUTRAL_NS,
        }
    }
}

/// The pulse width that answers a control signal around a flight pulse:
/// the flight pulse less the signal, reduced into the 32-bit range of a
/// pulse width. Nothing holds the result inside the controller's valid range.
pub open spec fn control_pulse_ns(pulse_flight_ns: int, signal: int) -> int {
    (pulse_flight_ns - signal) % 0x1_0000_0000
}

/// Electronic speed controller parameters, in nanoseconds.
#[derive(Debug)]
pub struct ESCParamsNs {
    period: u32,
    pulse_min: u32,
    pulse_neutral: u32,
    pulse_max: u32,
    pulse_flight: u32,
    /// The last pulse width that a control update asked for.
    pub pulse_actual: u32,
}

impl Clone for ESCParamsNs {
    fn clone(&self) -> (esc: Self)
        ensures
            esc == *self,
    {
        ESCParamsNs {
            period: self.period,
            pulse_min: self.pulse_min,
            pulse_neutral: self.pulse_neutral,
            pulse_max: self.pulse_max,
            pulse_flight: self.pulse_flight,
            pulse_actual: self.pulse_actual,
        }
    }
}

impl View for ESCParamsNs {
    type V = EscModel;

    open spec fn view(&self) -> EscModel {
        EscModel {
            period_ns: self.period(),
            pulse_min_ns: self.pulse_min(),
            pulse_neutral_ns: self.pulse_neutral(),
            pulse_max_ns: self.pulse_max(),
            pulse_flight_ns: self.pulse_flight(),
            pulse_actual_ns: self.pulse_actual(),
        }
    }
}

impl ESCParamsNs {
    pub closed spec fn spec_period(&self) -> u32 {
        self.period
    }

    pub closed spec fn spec_pulse_min(&self) -> u32 {
        self.pulse_min
    }

    pub closed spec fn spec_pulse_neutral(&self) -> u32 {
        self.pulse_neutral
    }

    pub closed spec fn spec_pulse_max(&self) -> u32 {
        self.pulse_max
    }

    pub closed spec fn spec_pulse_flight(&self) -> u32 {
        self.pulse_flight
    }

    pub closed spec fn spec_pulse_actual(&self) -> u32 {
        self.pulse_actual
    }

    /// The invariant of the type: the valid range is ordered.
    pub open spec fn wf(&self) -> bool {
        self@.wf()
    }

    /// The default configuration, centred on neutral: the flight pulse and
    /// the last commanded pulse both start at neutral.
    pub fn default() -> (esc: Self)
        ensures
            esc@ == EscModel::initial(),
            esc.pulse_flight() == esc.pulse_neutral(),
            esc.wf(),
    {
        let pulse_neutral: u32 = DEFAULT_PULSE_NEUTRAL_NS;
        ESCParamsNs {
            period: DEFAULT_PERIOD_NS,
            pulse_min: DEFAULT_PULSE_MIN_NS,
            pulse_neutral,
            pulse_max: DEFAULT_PULSE_MAX_NS,
            pulse_flight: pulse_neutral,
            pulse_actual: pulse_neutral,
        }
    }

    /// Stores the pulse width that gives this vehicle its lift. The value is
    /// taken as it is: it is not held against the valid range.
    pub fn set_pulse_flight(&mut self, pulse_flight: u32)
        ensures
            final(self).pulse_flight() == pulse_flight,
            final(self)@ == (EscModel { pulse_flight_ns: pulse_flight, ..old(self)@ }),
            final(self).wf() == old(self).wf(),
    {
        self.pulse_flight = pulse_flight;
    }

    /// The frame period.
    #[verifier::when_used_as_spec(spec_period)]
    pub fn period(&self) -> (ns: u32)
        ensures
            ns == self.spec_period(),
    {
        self.period
    }

    /// The shortest valid pulse.
    #[verifier::when_used_as_spec(spec_pulse_min)]
    pub fn pulse_min(&self) -> (ns: u32)
        ensures
            ns == self.spec_pulse_min(),
    {
        self.pulse_min
    }

    /// The zero-throttle pulse.
    #[verifier::when_used_as_spec(spec_pulse_neutral)]
    pub fn pulse_neutral(&self) -> (ns: u32)
        ensures
            ns == self.spec_pulse_neutral(),
    {
        self.pulse_neutral
    }

    /// The longest valid pulse.
    #[verifier::when_used_as_spec(spec_pulse_max)]
    pub fn pulse_max(&self) -> (ns: u32)
        ensures
            ns == self.spec_pulse_max(),
    {
        self.pulse_max
    }

    /// The pulse width for sustained lift.
    #[verifier::when_used_as_spec(spec_pulse_flight)]
    pub fn pulse_flight(&self) -> (ns: u32)
        ensures
            ns == self.spec_pulse_flight(),
    {
        self.pulse_flight
    }

    /// The last pulse width that a control update asked for.
    #[verifier::when_used_as_spec(spec_pulse_actual)]
    pub fn pulse_actual(&self) -> (ns: u32)
        ensures
            ns == self.spec_pulse_actual(),
    {
        self.pulse_actual
    }

    /// Records `pulse` as the last pulse width that a control update asked
    /// for.
    pub fn record_pulse(&mut self, pulse: u32)
        ensures
            final(self).pulse_actual() == pulse,
            final(self)@ == (EscModel { pulse_actual_ns: pulse, ..old(self)@ }),
            final(self).wf() == old(self).wf(),
    {
        self.pulse_actual = pulse;
    }

    /// Maps a control signal onto a pulse width: the flight pulse less the
    /// signal. The result is not clamped to the valid range; where the
    /// difference leaves the 32-bit range of a pulse width it wraps around.
    pub fn control_pulse(&self, signal: i32) -> (pulse: u32)
        ensures
            pulse == control_pulse_ns(self@.pulse_flight_ns as int, signal as int),
            0 <= self@.pulse_flight_ns - signal <= u32::MAX ==> pulse == self@.pulse_flight_ns
                - signal,
    {
        let wide: i64 = self.pulse_flight as i64 - signal as i64;
        if wide < 0 {
            (wide + 0x1_0000_0000) as u32
        } else if wide >= 0x1_0000_0000 {
            (wide - 0x1_0000_0000) as u32
        } else {
            wide as u32
        }
    }
}

} // verus!
