//! The command sequences of one rotor: arming, the ramp to flight speed,
//! the per-cycle control update and shutdown.
//!
//! A [`Motor`] never touches the pulse output itself. Each operation returns
//! the [`Action`]s that the caller performs on the device, in order, stopping
//! at the first one that the device rejects.

use vstd::prelude::*;
use crate::esc::{control_pulse_ns, ESCParamsNs, EscModel};

verus! {

/// Factor by which a controller's output is scaled to nanoseconds of pulse
/// width, before it is cut to the whole number that a control update takes.
pub const SIGNAL_SCALE: i32 = 10;

/// Change of pulse width between two commands of a ramp, in nanoseconds.
pub const RAMP_STEP_NS: u32 = 100;

/// Pause after the output is enabled during arming, in milliseconds.
pub const ARM_ENABLE_SETTLE_MS: u64 = 100;

/// Time for which arming holds the minimum pulse, in milliseconds.
pub const ARM_LOW_HOLD_MS: u64 = 500;

/// Pause after arming commands neutral, in milliseconds.
pub const ARM_NEUTRAL_SETTLE_MS: u64 = 250;

/// One thing for the caller to do with a rotor's pulse output.
#[derive(Clone, Copy, Debug, PartialEq, Eq, Structural)]
pub enum Action {
    /// Make the output available for use.
    Export,
    /// Set the frame period, in nanoseconds.
    SetPeriod(u32),
    /// Command a pulse width, in nanoseconds.
    SetDutyCycle(u32),
    /// Switch the signal on or off.
    Enable(bool),
    /// Let this many milliseconds pass.
    Wait(u64),
}

/// The sense in which a rotor turns, read off its flight pulse.
#[derive(Clone, Copy, Debug, PartialEq, Eq, Structural)]
pub enum Rotation {
    /// The flight pulse lies below neutral.
    CounterClockwise,
    /// The flight pulse lies above neutral.
    Clockwise,
}

/// Why a motor operation was refused.
#[derive(Clone, Copy, Debug, PartialEq, Eq, Structural)]
pub enum MotorError {
    /// The flight pulse still equals neutral, so a ramp has no direction.
    /// Holds the flight pulse, in nanoseconds.
    FlightPulseNotSet(u32),
}

/// The arming handshake: export, set the period, command the minimum pulse,
/// enable, hold the minimum pulse, then settle at neutral.
pub open spec fn arming_sequence(esc: EscModel) -> Seq<Action> {
    seq![
        Action::Export,
        Action::SetPeriod(esc.period_ns),
        Action::SetDutyCycle(esc.pulse_min_ns),
        Action::Enable(true),
        Action::Wait(ARM_ENABLE_SETTLE_MS),
        Action::SetDutyCycle(esc.pulse_min_ns),
        Action::Wait(ARM_LOW_HOLD_MS),
        Action::SetDutyCycle(esc.pulse_neutral_ns),
        Action::Wait(ARM_NEUTRAL_SETTLE_MS),
    ]
}

/// Shutdown: back to neutral, then the signal off.
pub open spec fn shutdown_sequence(esc: EscModel) -> Seq<Action> {
    seq![Action::SetDutyCycle(esc.pulse_neutral_ns), Action::Enable(false)]
}

/// The sense of rotation that a flight pulse stands for, if it differs from
/// neutral.
pub open spec fn rotation_of(esc: EscModel) -> Option<Rotation> {
    if esc.pulse_flight_ns < esc.pulse_neutral_ns {
        Some(Rotation::CounterClockwise)
    } else if esc.pulse_flight_ns > esc.pulse_neutral_ns {
        Some(Rotation::Clockwise)
    } else {
        None
    }
}

/// How many pulse widths a ramp across `gap` nanoseconds commands: one for
/// every step that the gap holds, a last shorter one included.
pub open spec fn ramp_len(gap: int) -> nat {
    if gap <= 0 {
        0
    } else {
        ((gap + RAMP_STEP_NS - 1) / (RAMP_STEP_NS as int)) as nat
    }
}

/// The pulse widths of the ramp between neutral and flight, in the order in
/// which they are commanded.
///
/// Both ramps walk the points that lie a whole number of steps above the
/// lower end and below the upper end. A rotor whose flight pulse is above
/// neutral walks them upwards, from neutral; one whose flight pulse is below
/// neutral walks them downwards, to the flight pulse.
pub open spec fn ramp_pulses(neutral: int, flight: int) -> Seq<int> {
    if flight < neutral {
        let n = ramp_len(neutral - flight);
        Seq::new(n, |i: int| flight + RAMP_STEP_NS * (n - 1 - i))
    } else {
        Seq::new(ramp_len(flight - neutral), |i: int| neutral + RAMP_STEP_NS * i)
    }
}

/// The commands of the ramp to flight speed: each pulse width of
/// [`ramp_pulses`], followed by a wait of `step_time_ms`.
pub open spec fn ramp_sequence(esc: EscModel, step_time_ms: u64) -> Seq<Action> {
    let pulses = ramp_pulses(esc.pulse_neutral_ns as int, esc.pulse_flight_ns as int);
    Seq::new(
        2 * pulses.len(),
        |k: int|
            if k % 2 == 0 {
                Action::SetDutyCycle(pulses[k / 2] as u32)
            } else {
                Action::Wait(step_time_ms)
            },
    )
}

/// The pulse widths that a run of actions commands, in order.
pub open spec fn commanded_pulses(actions: Seq<Action>) -> Seq<int>
    decreases actions.len(),
{
    if actions.len() == 0 {
        Seq::empty()
    } else {
        let before = commanded_pulses(actions.drop_last());
        match actions.last() {
            Action::SetDutyCycle(pulse) => before.push(pulse as int),
            _ => before,
        }
    }
}

/// No pulse of a ramp leaves the span between neutral and flight, so each
/// fits the 32 bits of a pulse width whenever the two ends do.
pub proof fn lemma_ramp_within_span(neutral: int, flight: int)
    ensures
        flight < neutral ==> forall|i: int|
            0 <= i < ramp_pulses(neutral, flight).len() ==> flight <= #[trigger] ramp_pulses(
                neutral,
                flight,
            )[i] < neutral,
        neutral < flight ==> forall|i: int|
            0 <= i < ramp_pulses(neutral, flight).len() ==> neutral <= #[trigger] ramp_pulses(
                neutral,
                flight,
            )[i] < flight,
        neutral == flight ==> ramp_pulses(neutral, flight).len() == 0,
{
}

/// The commands of a ramp alternate: each pulse width of [`ramp_pulses`], as
/// it is, then the wait.
pub proof fn lemma_ramp_sequence_alternates(esc: EscModel, step_time_ms: u64)
    ensures
        ramp_sequence(esc, step_time_ms).len() == 2 * ramp_pulses(
            esc.pulse_neutral_ns as int,
            esc.pulse_flight_ns as int,
        ).len(),
        forall|i: int|
            0 <= i < ramp_pulses(
                esc.pulse_neutral_ns as int,
                esc.pulse_flight_ns as int,
            ).len() ==> {
                let pulse = #[trigger] ramp_pulses(
                    esc.pulse_neutral_ns as int,
                    esc.pulse_flight_ns as int,
                )[i];
                &&& 0 <= pulse <= u32::MAX
                &&& ramp_sequence(esc, step_time_ms)[2 * i] == Action::SetDutyCycle(pulse as u32)
                &&& ramp_sequence(esc, step_time_ms)[2 * i + 1] == Action::Wait(step_time_ms)
            },
{
    lemma_ramp_within_span(esc.pulse_neutral_ns as int, esc.pulse_flight_ns as int);
}

/// The first `2 * count` commands of a ramp command its first `count` pulse
/// widths.
proof fn lemma_commanded_pulses_of_prefix(esc: EscModel, step_time_ms: u64, count: nat)
    requires
        count <= ramp_pulses(esc.pulse_neutral_ns as int, esc.pulse_flight_ns as int).len(),
    ensures
        commanded_pulses(ramp_sequence(esc, step_time_ms).take(2 * count as int)) == ramp_pulses(
            esc.pulse_neutral_ns as int,
            esc.pulse_flight_ns as int,
        ).take(count as int),
    decreases count,
{
    let plan = ramp_sequence(esc, step_time_ms);
    let pulses = ramp_pulses(esc.pulse_neutral_ns as int, esc.pulse_flight_ns as int);
    if count > 0 {
        let shorter = (count - 1) as nat;
        lemma_commanded_pulses_of_prefix(esc, step_time_ms, shorter);
        lemma_ramp_sequence_alternates(esc, step_time_ms);
        // the last two commands are a pulse width and its wait
        let with_wait = plan.take(2 * count as int);
        let with_pulse = plan.take(2 * count - 1);
        assert(with_wait.drop_last() =~= with_pulse);
        assert(with_pulse.drop_last() =~= plan.take(2 * shorter as int));
        assert(commanded_pulses(with_pulse) == pulses.take(shorter as int).push(
            pulses[count - 1],
        ));
    }
}

/// The pulse widths that the ramp to flight speed commands are exactly
/// those of [`ramp_pulses`].
pub proof fn lemma_commanded_pulses_of_ramp(esc: EscModel, step_time_ms: u64)
    ensures
        commanded_pulses(ramp_sequence(esc, step_time_ms)) == ramp_pulses(
            esc.pulse_neutral_ns as int,
            esc.pulse_flight_ns as int,
        ),
{
    let plan = ramp_sequence(esc, step_time_ms);
    let pulses = ramp_pulses(esc.pulse_neutral_ns as int, esc.pulse_flight_ns as int);
    lemma_commanded_pulses_of_prefix(esc, step_time_ms, pulses.len());
    assert(plan.take(2 * pulses.len() as int) =~= plan);
}

/// With the flight pulse below neutral, the pulse widths that the ramp
/// commands begin within one step below neutral, fall by exactly one step
/// from each command to the next, and end on the flight pulse.
pub proof fn lemma_ramp_descends(esc: EscModel, step_time_ms: u64)
    requires
        esc.pulse_flight_ns < esc.pulse_neutral_ns,
    ensures
        ({
            let commanded = commanded_pulses(ramp_sequence(esc, step_time_ms));
            &&& commanded.len() >= 1
            &&& esc.pulse_neutral_ns - RAMP_STEP_NS <= commanded.first() < esc.pulse_neutral_ns
            &&& commanded.last() == esc.pulse_flight_ns
            &&& forall|i: int|
                0 <= i < commanded.len() - 1 ==> commanded[i + 1] == #[trigger] commanded[i]
                    - RAMP_STEP_NS
        }),
{
    lemma_commanded_pulses_of_ramp(esc, step_time_ms);
}

/// With the flight pulse above neutral, the pulse widths that the ramp
/// commands begin on neutral, rise by exactly one step from each command to
/// the next, and end within one step below the flight pulse.
pub proof fn lemma_ramp_ascends(esc: EscModel, step_time_ms: u64)
    requires
        esc.pulse_neutral_ns < esc.pulse_flight_ns,
    ensures
        ({
            let commanded = commanded_pulses(ramp_sequence(esc, step_time_ms));
            &&& commanded.len() >= 1
            &&& commanded.first() == esc.pulse_neutral_ns
            &&& esc.pulse_flight_ns - RAMP_STEP_NS <= commanded.last() < esc.pulse_flight_ns
            &&& forall|i: int|
                0 <= i < commanded.len() - 1 ==> commanded[i + 1] == #[trigger] commanded[i]
                    + RAMP_STEP_NS
        }),
{
    lemma_commanded_pulses_of_ramp(esc, step_time_ms);
}

/// A ramp towards a flight pulse inside the valid range never commands a
/// pulse width outside it.
pub proof fn lemma_ramp_stays_in_valid_range(esc: EscModel, step_time_ms: u64)
    requires
        esc.wf(),
        esc.pulse_min_ns <= esc.pulse_flight_ns <= esc.pulse_max_ns,
    ensures
        forall|i: int|
            0 <= i < commanded_pulses(ramp_sequence(esc, step_time_ms)).len()
                ==> esc.pulse_min_ns <= #[trigger] commanded_pulses(
                ramp_sequence(esc, step_time_ms),
            )[i] <= esc.pulse_max_ns,
{
    lemma_commanded_pulses_of_ramp(esc, step_time_ms);
    lemma_ramp_within_span(esc.pulse_neutral_ns as int, esc.pulse_flight_ns as int);
}

/// Arming commands the minimum pulse twice and then neutral, and shutdown
/// commands neutral: neither depends on the flight pulse.
pub proof fn lemma_commanded_pulses_of_arming_and_shutdown(esc: EscModel)
    ensures
        commanded_pulses(arming_sequence(esc)) == seq![
            esc.pulse_min_ns as int,
            esc.pulse_min_ns as int,
            esc.pulse_neutral_ns as int,
        ],
        commanded_pulses(shutdown_sequence(esc)) == seq![esc.pulse_neutral_ns as int],
{
    reveal_with_fuel(commanded_pulses, 10);
}

/// One rotor: its speed controller's parameters and the operations that
/// decide what its pulse output is told.
#[derive(Debug)]
pub struct Motor {
    pub esc: ESCParamsNs,
}

impl Motor {
    /// A motor over the given speed controller parameters.
    pub fn new(esc: ESCParamsNs) -> (motor: Self)
        ensures
            motor.esc == esc,
    {
        Motor { esc }
    }

    /// The sense in which the rotor turns, or `None` while the flight pulse
    /// equals neutral.
    pub fn rotation(&self) -> (sense: Option<Rotation>)
        ensures
            sense == rotation_of(self.esc@),
    {
        let flight: u32 = self.esc.pulse_flight();
        let neutral: u32 = self.esc.pulse_neutral();
        if flight < neutral {
            Some(Rotation::CounterClockwise)
        } else if flight > neutral {
            Some(Rotation::Clockwise)
        } else {
            None
        }
    }

    /// The arming handshake that brings the rotor to idle at neutral.
    pub fn init(&self) -> (actions: Vec<Action>)
        ensures
            actions@ == arming_sequence(self.esc@),
    {
        let mut actions: Vec<Action> = Vec::new();
        actions.push(Action::Export);
        actions.push(Action::SetPeriod(self.esc.period()));
        actions.push(Action::SetDutyCycle(self.esc.pulse_min()));
        actions.push(Action::Enable(true));
        actions.push(Action::Wait(ARM_ENABLE_SETTLE_MS));
        actions.push(Action::SetDutyCycle(self.esc.pulse_min()));
        actions.push(Action::Wait(ARM_LOW_HOLD_MS));
        actions.push(Action::SetDutyCycle(self.esc.pulse_neutral()));
        actions.push(Action::Wait(ARM_NEUTRAL_SETTLE_MS));
        actions
    }

    /// The ramp from neutral to flight speed, in steps of [`RAMP_STEP_NS`]
    /// with a wait of `step_time_ms` after each.
    ///
    /// Fails, with nothing to command, while the flight pulse equals neutral:
    /// such a ramp has no direction.
    pub fn get_to_flight(&self, step_time_ms: u64) -> (plan: Result<Vec<Action>, MotorError>)
        ensures
            plan is Err <==> self.esc@.pulse_flight_ns == self.esc@.pulse_neutral_ns,
            plan matches Ok(actions) ==> actions@ == ramp_sequence(self.esc@, step_time_ms),
            plan matches Err(e) ==> e == MotorError::FlightPulseNotSet(self.esc@.pulse_flight_ns),
    {
        let flight: u32 = self.esc.pulse_flight();
        let neutral: u32 = self.esc.pulse_neutral();
        if flight == neutral {
            return Err(MotorError::FlightPulseNotSet(flight));
        }
        let descending: bool = flight < neutral;
        let low: u32 = if descending { flight } else { neutral };
        let high: u32 = if descending { neutral } else { flight };
        let count: u32 = (high - low - 1) / RAMP_STEP_NS + 1;
        let mut actions: Vec<Action> = Vec::new();
        let mut done: u32 = 0;
        while done < count
            invariant
                low < high,
                descending ==> low == flight && high == neutral,
                !descending ==> low == neutral && high == flight,
                count == ramp_len(high - low),
                done <= count,
                actions@.len() == 2 * done,
                forall|k: int|
                    0 <= k < 2 * done ==> actions@[k] == #[trigger] ramp_sequence(
                        self.esc@,
                        step_time_ms,
                    )[k],
                self.esc@.pulse_flight_ns == flight,
                self.esc@.pulse_neutral_ns == neutral,
            decreases count - done,
        {
            let offset: u32 = if descending { count - 1 - done } else { done };
            let pulse: u32 = low + RAMP_STEP_NS * offset;
            actions.push(Action::SetDutyCycle(pulse));
            actions.push(Action::Wait(step_time_ms));
            done = done + 1;
        }
        Ok(actions)
    }

    /// The commands that stop the rotor: neutral, then the signal off.
    pub fn shutdown(&self) -> (actions: Vec<Action>)
        ensures
            actions@ == shutdown_sequence(self.esc@),
    {
        let mut actions: Vec<Action> = Vec::new();
        actions.push(Action::SetDutyCycle(self.esc.pulse_neutral()));
        actions.push(Action::Enable(false));
        actions
    }

    /// One control update: maps the scaled control signal onto a pulse
    /// width, records it as the last commanded pulse and returns the command
    /// for the device. The pulse is the flight pulse less the signal, with no
    /// clamping to the valid range.
    pub fn update_control_signal(&mut self, signal: i32) -> (action: Action)
        ensures
            action == Action::SetDutyCycle(final(self).esc@.pulse_actual_ns),
            final(self).esc@.pulse_actual_ns == control_pulse_ns(
                old(self).esc@.pulse_flight_ns as int,
                signal as int,
            ),
            final(self).esc@ == (EscModel {
                pulse_actual_ns: final(self).esc@.pulse_actual_ns,
                ..old(self).esc@
            }),
    {
        let pulse: u32 = self.esc.control_pulse(signal);
        self.esc.record_pulse(pulse);
        Action::SetDutyCycle(pulse)
    }
}

} // verus!
