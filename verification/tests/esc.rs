use quadcopter::esc::{
    DEFAULT_PERIOD_NS, DEFAULT_PULSE_MAX_NS, DEFAULT_PULSE_MIN_NS, DEFAULT_PULSE_NEUTRAL_NS,
};
use quadcopter::ESCParamsNs;

#[test]
fn default_is_centred_on_neutral() {
    let esc = ESCParamsNs::default();
    assert_eq!(esc.period(), 20_000_000);
    assert_eq!(esc.pulse_min(), 1_200_000);
    assert_eq!(esc.pulse_neutral(), 1_500_000);
    assert_eq!(esc.pulse_max(), 1_800_000);
    assert_eq!(esc.pulse_flight(), esc.pulse_neutral());
    assert_eq!(esc.pulse_actual, esc.pulse_neutral());
    assert_eq!(esc.pulse_actual(), 1_500_000);
}

#[test]
fn default_constants_are_ordered() {
    assert_eq!(DEFAULT_PERIOD_NS, 20_000_000);
    assert!(DEFAULT_PULSE_MIN_NS <= DEFAULT_PULSE_NEUTRAL_NS);
    assert!(DEFAULT_PULSE_NEUTRAL_NS <= DEFAULT_PULSE_MAX_NS);
    assert!(DEFAULT_PULSE_MAX_NS < DEFAULT_PERIOD_NS);
}

#[test]
fn set_pulse_flight_is_read_back() {
    for value in [0u32, 1, 1_360_000, 1_500_000, 1_590_000, u32::MAX] {
        let mut esc = ESCParamsNs::default();
        esc.set_pulse_flight(value);
        assert_eq!(esc.pulse_flight(), value);
    }
}

#[test]
fn set_pulse_flight_leaves_the_rest() {
    let mut esc = ESCParamsNs::default();
    esc.set_pulse_flight(1_690_000);
    assert_eq!(esc.pulse_flight(), 1_690_000);
    assert_eq!(esc.pulse_neutral(), 1_500_000);
    assert_eq!(esc.period(), 20_000_000);
    assert_eq!(esc.pulse_min(), 1_200_000);
    assert_eq!(esc.pulse_max(), 1_800_000);
    assert_eq!(esc.pulse_actual, 1_500_000);
}

#[test]
fn set_pulse_flight_does_not_validate() {
    let mut esc = ESCParamsNs::default();
    esc.set_pulse_flight(5_000_000);
    assert_eq!(esc.pulse_flight(), 5_000_000);
    esc.set_pulse_flight(10);
    assert_eq!(esc.pulse_flight(), 10);
}

#[test]
fn set_pulse_flight_last_value_wins() {
    let mut esc = ESCParamsNs::default();
    esc.set_pulse_flight(1_590_000);
    esc.set_pulse_flight(1_360_000);
    assert_eq!(esc.pulse_flight(), 1_360_000);
}

#[test]
fn clone_keeps_every_field() {
    let mut esc = ESCParamsNs::default();
    esc.set_pulse_flight(1_340_000);
    esc.record_pulse(1_341_000);
    let copy = esc.clone();
    assert_eq!(copy.period(), esc.period());
    assert_eq!(copy.pulse_min(), esc.pulse_min());
    assert_eq!(copy.pulse_neutral(), esc.pulse_neutral());
    assert_eq!(copy.pulse_max(), esc.pulse_max());
    assert_eq!(copy.pulse_flight(), 1_340_000);
    assert_eq!(copy.pulse_actual, 1_341_000);
}

#[test]
fn record_pulse_changes_only_the_actual_pulse() {
    let mut esc = ESCParamsNs::default();
    esc.set_pulse_flight(1_600_000);
    esc.record_pulse(1_612_345);
    assert_eq!(esc.pulse_actual, 1_612_345);
    assert_eq!(esc.pulse_actual(), 1_612_345);
    assert_eq!(esc.pulse_flight(), 1_600_000);
    assert_eq!(esc.pulse_neutral(), 1_500_000);
}

#[test]
fn control_pulse_subtracts_the_signal() {
    let mut esc = ESCParamsNs::default();
    esc.set_pulse_flight(1_590_000);
    assert_eq!(esc.control_pulse(0), 1_590_000);
    assert_eq!(esc.control_pulse(2_500), 1_587_500);
    assert_eq!(esc.control_pulse(-6_600), 1_596_600);
    assert_eq!(esc.control_pulse(1_590_000), 0);
}

#[test]
fn control_pulse_is_not_clamped() {
    let mut esc = ESCParamsNs::default();
    esc.set_pulse_flight(1_590_000);
    // above the longest valid pulse
    assert_eq!(esc.control_pulse(-1_000_000), 2_590_000);
    // below the shortest valid pulse
    assert_eq!(esc.control_pulse(1_000_000), 590_000);
    // beyond the frame period
    assert_eq!(esc.control_pulse(-30_000_000), 31_590_000);
}

#[test]
fn control_pulse_wraps_at_the_ends_of_the_range() {
    let mut esc = ESCParamsNs::default();
    esc.set_pulse_flight(1_690_000);
    assert_eq!(esc.control_pulse(2_000_000), 4_294_657_296);
    assert_eq!(esc.control_pulse(1_690_001), u32::MAX);
    assert_eq!(esc.control_pulse(i32::MAX), 1_690_000u32.wrapping_sub(i32::MAX as u32));
    assert_eq!(esc.control_pulse(i32::MIN), 1_690_000 + 2_147_483_648);
    esc.set_pulse_flight(u32::MAX);
    assert_eq!(esc.control_pulse(-1), 0);
    assert_eq!(esc.control_pulse(i32::MIN), 2_147_483_647);
    assert_eq!(esc.control_pulse(1), u32::MAX - 1);
    esc.set_pulse_flight(0);
    assert_eq!(esc.control_pulse(1), u32::MAX);
    assert_eq!(esc.control_pulse(i32::MIN), 2_147_483_648);
}

#[test]
fn control_pulse_agrees_with_two_complement_arithmetic() {
    let flights =
        [0u32, 1, 99, 1_360_000, 1_500_000, 1_690_000, 0x7fff_ffff, 0x8000_0000, u32::MAX];
    let signals =
        [i32::MIN, -2_000_000_000, -6_600, -1, 0, 1, 100, 1_690_000, 2_000_000_000, i32::MAX];
    for flight in flights {
        let mut esc = ESCParamsNs::default();
        esc.set_pulse_flight(flight);
        for signal in signals {
            let expected = (flight as i32).wrapping_sub(signal) as u32;
            assert_eq!(esc.control_pulse(signal), expected);
        }
    }
}

#[test]
fn control_pulse_leaves_the_parameters_alone() {
    let mut esc = ESCParamsNs::default();
    esc.set_pulse_flight(1_590_000);
    let _ = esc.control_pulse(-500);
    assert_eq!(esc.pulse_flight(), 1_590_000);
    assert_eq!(esc.pulse_actual, 1_500_000);
}
