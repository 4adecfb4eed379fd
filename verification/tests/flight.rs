use quadcopter::flight::{
    Axis, AxisBinding, Directive, FlightPlan, MotorId, Orchestrator, Stage, CYCLE_LEN,
    SHUTDOWN_LEN, STARTUP_LEN,
};

fn plan() -> FlightPlan {
    let pitch_down = AxisBinding { axis: Axis::Pitch, inverted: true };
    let roll = AxisBinding { axis: Axis::Roll, inverted: false };
    FlightPlan { a: pitch_down, b: pitch_down, c: roll, d: roll, settle_ms: 100, ramp_step_ms: 10 }
}

fn startup() -> Vec<Directive> {
    vec![
        Directive::Init(MotorId::A),
        Directive::Pause(100),
        Directive::Init(MotorId::B),
        Directive::Pause(100),
        Directive::Init(MotorId::C),
        Directive::Pause(100),
        Directive::Init(MotorId::D),
        Directive::GetToFlight(MotorId::A, 10),
        Directive::Pause(100),
        Directive::GetToFlight(MotorId::B, 10),
        Directive::Pause(100),
        Directive::GetToFlight(MotorId::C, 10),
        Directive::Pause(100),
        Directive::GetToFlight(MotorId::D, 10),
    ]
}

fn cycle() -> Vec<Directive> {
    let plan = plan();
    vec![
        Directive::PollAttitude,
        Directive::Update(MotorId::A, plan.a),
        Directive::Update(MotorId::B, plan.b),
        Directive::Update(MotorId::C, plan.c),
        Directive::Update(MotorId::D, plan.d),
    ]
}

fn shutdown() -> Vec<Directive> {
    vec![
        Directive::Shutdown(MotorId::A),
        Directive::Shutdown(MotorId::B),
        Directive::Shutdown(MotorId::C),
        Directive::Shutdown(MotorId::D),
        Directive::StopSensors,
    ]
}

fn take(orchestrator: &mut Orchestrator, flags: &[bool]) -> Vec<Directive> {
    flags.iter().map(|running| orchestrator.next(*running)).collect()
}

#[test]
fn motor_ids_are_in_order() {
    assert_eq!(MotorId::A.index(), 0);
    assert_eq!(MotorId::B.index(), 1);
    assert_eq!(MotorId::C.index(), 2);
    assert_eq!(MotorId::D.index(), 3);
}

#[test]
fn plan_gives_each_motor_its_binding() {
    let plan = FlightPlan {
        a: AxisBinding { axis: Axis::Roll, inverted: true },
        b: AxisBinding { axis: Axis::Pitch, inverted: true },
        c: AxisBinding { axis: Axis::Roll, inverted: false },
        d: AxisBinding { axis: Axis::Yaw, inverted: false },
        settle_ms: 1,
        ramp_step_ms: 2,
    };
    assert_eq!(plan.binding(MotorId::A), AxisBinding { axis: Axis::Roll, inverted: true });
    assert_eq!(plan.binding(MotorId::B), AxisBinding { axis: Axis::Pitch, inverted: true });
    assert_eq!(plan.binding(MotorId::C), AxisBinding { axis: Axis::Roll, inverted: false });
    assert_eq!(plan.binding(MotorId::D), AxisBinding { axis: Axis::Yaw, inverted: false });
}

#[test]
fn stages_follow_one_another() {
    assert_eq!(Stage::Startup.following(), Stage::Flying);
    assert_eq!(Stage::Flying.following(), Stage::Flying);
    assert_eq!(Stage::ShuttingDown.following(), Stage::Stopped);
    assert_eq!(Stage::Stopped.following(), Stage::Stopped);
}

#[test]
fn schedule_lengths() {
    assert_eq!(STARTUP_LEN, startup().len());
    assert_eq!(CYCLE_LEN, cycle().len());
    assert_eq!(SHUTDOWN_LEN, shutdown().len());
}

#[test]
fn a_new_orchestrator_is_in_startup() {
    let orchestrator = Orchestrator::new(plan());
    assert_eq!(orchestrator.stage(), Stage::Startup);
    assert_eq!(orchestrator.plan(), plan());
}

#[test]
fn startup_arms_all_then_ramps_all() {
    let mut orchestrator = Orchestrator::new(plan());
    let directives = take(&mut orchestrator, &[true; 14]);
    assert_eq!(directives, startup());
    assert_eq!(orchestrator.stage(), Stage::Flying);
}

#[test]
fn startup_uses_the_delays_of_the_plan() {
    let mut custom = plan();
    custom.settle_ms = 1_000;
    custom.ramp_step_ms = 3;
    let mut orchestrator = Orchestrator::new(custom);
    let directives = take(&mut orchestrator, &[true; 14]);
    assert_eq!(directives[1], Directive::Pause(1_000));
    assert_eq!(directives[7], Directive::GetToFlight(MotorId::A, 3));
    assert_eq!(directives[8], Directive::Pause(1_000));
    assert_eq!(directives[13], Directive::GetToFlight(MotorId::D, 3));
}

#[test]
fn startup_is_not_cut_short_by_cancellation() {
    let mut orchestrator = Orchestrator::new(plan());
    let directives = take(&mut orchestrator, &[false; 14]);
    assert_eq!(directives, startup());
    assert_eq!(orchestrator.stage(), Stage::Flying);
    // the flag is read at the first cycle start: no motor is ever updated
    let directives = take(&mut orchestrator, &[false; 5]);
    assert_eq!(directives, shutdown());
    assert_eq!(orchestrator.stage(), Stage::Stopped);
}

#[test]
fn cycles_repeat_while_running() {
    let mut orchestrator = Orchestrator::new(plan());
    let _ = take(&mut orchestrator, &[true; 14]);
    for _ in 0..50 {
        let directives = take(&mut orchestrator, &[true; 5]);
        assert_eq!(directives, cycle());
        assert_eq!(orchestrator.stage(), Stage::Flying);
    }
}

#[test]
fn cycle_updates_carry_the_bindings_of_the_plan() {
    let custom = FlightPlan {
        a: AxisBinding { axis: Axis::Roll, inverted: true },
        b: AxisBinding { axis: Axis::Yaw, inverted: false },
        c: AxisBinding { axis: Axis::Roll, inverted: false },
        d: AxisBinding { axis: Axis::Pitch, inverted: true },
        settle_ms: 0,
        ramp_step_ms: 3,
    };
    let mut orchestrator = Orchestrator::new(custom);
    let _ = take(&mut orchestrator, &[true; 14]);
    let directives = take(&mut orchestrator, &[true; 5]);
    assert_eq!(
        directives,
        vec![
            Directive::PollAttitude,
            Directive::Update(MotorId::A, AxisBinding { axis: Axis::Roll, inverted: true }),
            Directive::Update(MotorId::B, AxisBinding { axis: Axis::Yaw, inverted: false }),
            Directive::Update(MotorId::C, AxisBinding { axis: Axis::Roll, inverted: false }),
            Directive::Update(MotorId::D, AxisBinding { axis: Axis::Pitch, inverted: true }),
        ]
    );
}

#[test]
fn cancellation_mid_cycle_finishes_the_cycle_then_shuts_down_each_motor_once() {
    let mut orchestrator = Orchestrator::new(plan());
    let _ = take(&mut orchestrator, &[true; 14]);
    let _ = take(&mut orchestrator, &[true; 5]);
    // the flag falls after the second update of this cycle
    let in_flight = take(&mut orchestrator, &[true, true, true, false, false]);
    assert_eq!(in_flight, cycle());
    assert_eq!(orchestrator.stage(), Stage::Flying);
    let rest = take(&mut orchestrator, &[false; 5]);
    assert_eq!(rest, shutdown());
    assert_eq!(orchestrator.stage(), Stage::Stopped);
    for motor in [MotorId::A, MotorId::B, MotorId::C, MotorId::D] {
        let times = rest.iter().filter(|d| **d == Directive::Shutdown(motor)).count();
        assert_eq!(times, 1);
    }
}

#[test]
fn cancellation_is_reproducible() {
    let flags: Vec<bool> = (0..40).map(|call| call < 21).collect();
    let mut first = Orchestrator::new(plan());
    let mut second = Orchestrator::new(plan());
    let one = take(&mut first, &flags);
    let two = take(&mut second, &flags);
    assert_eq!(one, two);
    let mut expected = startup();
    expected.extend(cycle());
    expected.extend(cycle());
    expected.extend(shutdown());
    expected.extend(vec![Directive::Done; 40 - 14 - 10 - 5]);
    assert_eq!(one, expected);
}

#[test]
fn a_flag_that_recovers_mid_cycle_is_not_noticed() {
    let mut orchestrator = Orchestrator::new(plan());
    let _ = take(&mut orchestrator, &[true; 14]);
    let directives = take(&mut orchestrator, &[true, false, false, false, false, true]);
    let mut expected = cycle();
    expected.push(Directive::PollAttitude);
    assert_eq!(directives, expected);
    assert_eq!(orchestrator.stage(), Stage::Flying);
}

#[test]
fn shutdown_is_not_undone_by_the_flag() {
    let mut orchestrator = Orchestrator::new(plan());
    let _ = take(&mut orchestrator, &[true; 14]);
    let directives = take(&mut orchestrator, &[false, true, true, true, true]);
    assert_eq!(directives, shutdown());
    assert_eq!(orchestrator.stage(), Stage::Stopped);
}

#[test]
fn shutting_down_is_a_stage_of_its_own() {
    let mut orchestrator = Orchestrator::new(plan());
    let _ = take(&mut orchestrator, &[true; 14]);
    assert_eq!(orchestrator.next(false), Directive::Shutdown(MotorId::A));
    assert_eq!(orchestrator.stage(), Stage::ShuttingDown);
    assert_eq!(orchestrator.next(false), Directive::Shutdown(MotorId::B));
    assert_eq!(orchestrator.stage(), Stage::ShuttingDown);
}

#[test]
fn once_stopped_only_done_is_handed_out() {
    let mut orchestrator = Orchestrator::new(plan());
    let _ = take(&mut orchestrator, &[true; 14]);
    let _ = take(&mut orchestrator, &[false; 5]);
    for running in [true, false, true, true, false] {
        assert_eq!(orchestrator.next(running), Directive::Done);
        assert_eq!(orchestrator.stage(), Stage::Stopped);
    }
}

fn about(directive: &Directive) -> Option<MotorId> {
    match directive {
        Directive::Init(motor) => Some(*motor),
        Directive::GetToFlight(motor, _) => Some(*motor),
        Directive::Update(motor, _) => Some(*motor),
        Directive::Shutdown(motor) => Some(*motor),
        _ => None,
    }
}

#[test]
fn each_motor_is_armed_ramped_updated_and_stopped_in_that_order() {
    let cycles = 3;
    let mut flags = vec![true; 14 + 5 * cycles];
    flags.extend([false; 5]);
    let mut orchestrator = Orchestrator::new(plan());
    let run = take(&mut orchestrator, &flags);
    assert_eq!(orchestrator.stage(), Stage::Stopped);
    for motor in [MotorId::A, MotorId::B, MotorId::C, MotorId::D] {
        let own: Vec<Directive> =
            run.iter().filter(|d| about(d) == Some(motor)).copied().collect();
        let mut expected = vec![Directive::Init(motor), Directive::GetToFlight(motor, 10)];
        for _ in 0..cycles {
            expected.push(Directive::Update(motor, plan().binding(motor)));
        }
        expected.push(Directive::Shutdown(motor));
        assert_eq!(own, expected);
    }
}

#[test]
fn a_whole_run_is_startup_cycles_shutdown() {
    for cycles in [0usize, 1, 2, 7] {
        let mut flags = vec![true; 14 + 5 * cycles];
        flags.extend([false; 5]);
        let mut orchestrator = Orchestrator::new(plan());
        let run = take(&mut orchestrator, &flags);
        let mut expected = startup();
        for _ in 0..cycles {
            expected.extend(cycle());
        }
        expected.extend(shutdown());
        assert_eq!(run, expected);
        assert_eq!(orchestrator.stage(), Stage::Stopped);
    }
}
