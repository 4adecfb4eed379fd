//! The schedule of the flight loop over four rotors.
//!
//! The [`Orchestrator`] decides what happens next: which motor is armed,
//! ramped, updated or stopped, and when the loop ends. It performs nothing
//! itself. The caller carries out each [`Directive`] and comes back for the
//! next one, handing in the cancellation flag as it stands at that moment.

use vstd::prelude::*;

verus! {

/// One of the four rotors.
#[derive(Clone, Copy, Debug, PartialEq, Eq, Structural)]
pub enum MotorId {
    A,
    B,
    C,
    D,
}

/// One axis of an attitude sample.
#[derive(Clone, Copy, Debug, PartialEq, Eq, Structural)]
pub enum Axis {
    Roll,
    Pitch,
    Yaw,
}

/// Which axis of the attitude feeds a motor's controller, and whether its
/// sign is turned first.
#[derive(Clone, Copy, Debug, PartialEq, Eq, Structural)]
pub struct AxisBinding {
    pub axis: Axis,
    pub inverted: bool,
}

/// What the flight loop is configured with.
#[derive(Clone, Copy, Debug, PartialEq, Eq, Structural)]
pub struct FlightPlan {
    /// The binding of motor A.
    pub a: AxisBinding,
    /// The binding of motor B.
    pub b: AxisBinding,
    /// The binding of motor C.
    pub c: AxisBinding,
    /// The binding of motor D.
    pub d: AxisBinding,
    /// Pause between two motors while they are armed or ramped, in
    /// milliseconds.
    pub settle_ms: u64,
    /// Wait after each step of a ramp, in milliseconds.
    pub ramp_step_ms: u64,
}

/// What the caller is to do next.
#[derive(Clone, Copy, Debug, PartialEq, Eq, Structural)]
pub enum Directive {
    /// Arm this motor.
    Init(MotorId),
    /// Let this many milliseconds pass.
    Pause(u64),
    /// Ramp this motor to flight speed, waiting this many milliseconds after
    /// each step.
    GetToFlight(MotorId, u64),
    /// Take the latest attitude sample if one has arrived, without waiting.
    PollAttitude,
    /// Feed this motor's controller the bound axis of the current sample and
    /// apply its control signal.
    Update(MotorId, AxisBinding),
    /// Stop this motor.
    Shutdown(MotorId),
    /// Tell the sensor readers to stop and wait for them.
    StopSensors,
    /// Nothing is left to do.
    Done,
}

/// Where the flight loop stands.
#[derive(Clone, Copy, Debug, PartialEq, Eq, Structural)]
pub enum Stage {
    /// The motors are armed and then ramped, one at a time.
    Startup,
    /// Closed-loop control.
    Flying,
    /// The motors are stopped, one at a time.
    ShuttingDown,
    /// Everything is stopped.
    Stopped,
}

/// Number of directives in the startup schedule.
pub const STARTUP_LEN: usize = 14;

/// Number of directives in one control cycle.
pub const CYCLE_LEN: usize = 5;

/// Number of directives in the shutdown schedule.
pub const SHUTDOWN_LEN: usize = 5;

/// Arming: each motor in the order A, B, C, D, with a pause between two
/// motors.
pub open spec fn arming_schedule(plan: FlightPlan) -> Seq<Directive> {
    seq![
        Directive::Init(MotorId::A),
        Directive::Pause(plan.settle_ms),
        Directive::Init(MotorId::B),
        Directive::Pause(plan.settle_ms),
        Directive::Init(MotorId::C),
        Directive::Pause(plan.settle_ms),
        Directive::Init(MotorId::D),
    ]
}

/// The ramps to flight speed: each motor in the order A, B, C, D, with a
/// pause between two motors.
pub open spec fn ramping_schedule(plan: FlightPlan) -> Seq<Directive> {
    seq![
        Directive::GetToFlight(MotorId::A, plan.ramp_step_ms),
        Directive::Pause(plan.settle_ms),
        Directive::GetToFlight(MotorId::B, plan.ramp_step_ms),
        Directive::Pause(plan.settle_ms),
        Directive::GetToFlight(MotorId::C, plan.ramp_step_ms),
        Directive::Pause(plan.settle_ms),
        Directive::GetToFlight(MotorId::D, plan.ramp_step_ms),
    ]
}

/// Startup: every motor is armed, then every motor is ramped.
pub open spec fn startup_schedule(plan: FlightPlan) -> Seq<Directive> {
    arming_schedule(plan) + ramping_schedule(plan)
}

/// One control cycle: poll the attitude, then update the motors in the
/// order A, B, C, D.
pub open spec fn cycle_schedule(plan: FlightPlan) -> Seq<Directive> {
    seq![
        Directive::PollAttitude,
        Directive::Update(MotorId::A, plan.a),
        Directive::Update(MotorId::B, plan.b),
        Directive::Update(MotorId::C, plan.c),
        Directive::Update(MotorId::D, plan.d),
    ]
}

/// Shutdown: each motor once, in the order A, B, C, D, then the sensors.
pub open spec fn shutdown_schedule() -> Seq<Directive> {
    seq![
        Directive::Shutdown(MotorId::A),
        Directive::Shutdown(MotorId::B),
        Directive::Shutdown(MotorId::C),
        Directive::Shutdown(MotorId::D),
        Directive::StopSensors,
    ]
}

impl Stage {
    /// The stage that comes when this one's schedule has run out. Flying
    /// goes round; it is left only by cancellation.
    pub open spec fn spec_following(self) -> Stage {
        match self {
            Stage::Startup => Stage::Flying,
            Stage::Flying => Stage::Flying,
            Stage::ShuttingDown => Stage::Stopped,
            Stage::Stopped => Stage::Stopped,
        }
    }

    /// The stage that comes when this one's schedule has run out.
    #[verifier::when_used_as_spec(spec_following)]
    pub fn following(self) -> (stage: Stage)
        ensures
            stage == self.spec_following(),
    {
        match self {
            Stage::Startup => Stage::Flying,
            Stage::Flying => Stage::Flying,
            Stage::ShuttingDown => Stage::Stopped,
            Stage::Stopped => Stage::Stopped,
        }
    }
}

/// The schedule that a stage walks through. Once stopped, all that is left
/// is `Done`.
pub open spec fn stage_schedule(plan: FlightPlan, stage: Stage) -> Seq<Directive> {
    match stage {
        Stage::Startup => startup_schedule(plan),
        Stage::Flying => cycle_schedule(plan),
        Stage::ShuttingDown => shutdown_schedule(),
        Stage::Stopped => seq![Directive::Done],
    }
}

/// The state of the flight loop: its plan, its stage, and how many
/// directives of the stage's schedule have been handed out.
pub struct LoopState {
    pub plan: FlightPlan,
    pub stage: Stage,
    pub step: nat,
}

impl LoopState {
    /// The step lies inside the schedule of the stage.
    pub open spec fn wf(self) -> bool {
        self.step < stage_schedule(self.plan, self.stage).len()
    }

    /// The state before anything has been handed out.
    pub open spec fn initial(plan: FlightPlan) -> LoopState {
        LoopState { plan, stage: Stage::Startup, step: 0 }
    }

    /// The start of a control cycle, where the cancellation flag is read.
    pub open spec fn cycle_start(plan: FlightPlan) -> LoopState {
        LoopState { plan, stage: Stage::Flying, step: 0 }
    }

    /// The end of the run.
    pub open spec fn stopped(plan: FlightPlan) -> LoopState {
        LoopState { plan, stage: Stage::Stopped, step: 0 }
    }

    /// The state at a given step of a stage, under the same plan.
    pub open spec fn at(self, stage: Stage, step: nat) -> LoopState {
        LoopState { plan: self.plan, stage, step }
    }

    /// Whether a call in this state ends the flying: the flag is read at the
    /// start of a control cycle and nowhere else.
    pub open spec fn cancels(self, running: bool) -> bool {
        self.stage == Stage::Flying && self.step == 0 && !running
    }

    /// The directive that is handed out in this state when the flag reads
    /// `running`: the first of shutdown where the call cancels, else the one
    /// that the stage's schedule holds at this step.
    pub open spec fn directive(self, running: bool) -> Directive {
        if self.cancels(running) {
            shutdown_schedule()[0]
        } else {
            stage_schedule(self.plan, self.stage)[self.step as int]
        }
    }

    /// The state that follows this one when the flag reads `running`.
    pub open spec fn successor(self, running: bool) -> LoopState {
        if self.cancels(running) {
            self.at(Stage::ShuttingDown, 1)
        } else if self.step + 1 < stage_schedule(self.plan, self.stage).len() {
            self.at(self.stage, self.step + 1)
        } else {
            self.at(self.stage.following(), 0)
        }
    }
}

impl MotorId {
    /// The place of the motor in the order A, B, C, D.
    pub open spec fn spec_index(self) -> usize {
        match self {
            MotorId::A => 0,
            MotorId::B => 1,
            MotorId::C => 2,
            MotorId::D => 3,
        }
    }

    /// The place of the motor in the order A, B, C, D, from 0.
    #[verifier::when_used_as_spec(spec_index)]
    pub fn index(self) -> (i: usize)
        ensures
            i == self.spec_index(),
            i < 4,
    {
        match self {
            MotorId::A => 0,
            MotorId::B => 1,
            MotorId::C => 2,
            MotorId::D => 3,
        }
    }
}

impl FlightPlan {
    /// The binding of a motor.
    pub open spec fn spec_binding(self, motor: MotorId) -> AxisBinding {
        match motor {
            MotorId::A => self.a,
            MotorId::B => self.b,
            MotorId::C => self.c,
            MotorId::D => self.d,
        }
    }

    /// The binding of a motor.
    #[verifier::when_used_as_spec(spec_binding)]
    pub fn binding(self, motor: MotorId) -> (binding: AxisBinding)
        ensures
            binding == self.spec_binding(motor),
    {
        match motor {
            MotorId::A => self.a,
            MotorId::B => self.b,
            MotorId::C => self.c,
            MotorId::D => self.d,
        }
    }
}

/// The flight loop's scheduler.
#[derive(Debug)]
pub struct Orchestrator {
    plan: FlightPlan,
    stage: Stage,
    step: usize,
}

impl View for Orchestrator {
    type V = LoopState;

    closed spec fn view(&self) -> LoopState {
        LoopState { plan: self.plan, stage: self.stage, step: self.step as nat }
    }
}

impl Orchestrator {
    #[verifier::type_invariant]
    spec fn inv(self) -> bool {
        self@.wf()
    }

    /// A scheduler at the very beginning: nothing is armed yet.
    pub fn new(plan: FlightPlan) -> (orchestrator: Self)
        ensures
            orchestrator@ == LoopState::initial(plan),
            orchestrator@.wf(),
    {
        Orchestrator { plan, stage: Stage::Startup, step: 0 }
    }

    /// The plan that the scheduler was made with.
    pub fn plan(&self) -> (plan: FlightPlan)
        ensures
            plan == self@.plan,
    {
        self.plan
    }

    /// The stage that the loop is in.
    pub fn stage(&self) -> (stage: Stage)
        ensures
            stage == self@.stage,
    {
        self.stage
    }

    /// Hands out the next directive and moves on.
    ///
    /// `running` is the cancellation flag as the caller reads it now: `false`
    /// once shutdown has been asked for. It is looked at only at the start of
    /// a control cycle, so a cycle that has begun is finished, and startup is
    /// never cut short.
    pub fn next(&mut self, running: bool) -> (directive: Directive)
        ensures
            directive == old(self)@.directive(running),
            final(self)@ == old(self)@.successor(running),
            old(self)@.wf(),
            final(self)@.wf(),
    {
        proof {
            use_type_invariant(&*self);
        }
        let plan: FlightPlan = self.plan;
        let stage: Stage = self.stage;
        let step: usize = self.step;
        if stage == Stage::Flying && step == 0 && !running {
            *self = Orchestrator { plan, stage: Stage::ShuttingDown, step: 1 };
            Directive::Shutdown(MotorId::A)
        } else {
            let directive = scheduled(plan, stage, step);
            if step + 1 < schedule_len(stage) {
                *self = Orchestrator { plan, stage, step: step + 1 };
            } else {
                *self = Orchestrator { plan, stage: stage.following(), step: 0 };
            }
            directive
        }
    }
}

/// Length of a stage's schedule.
fn schedule_len(stage: Stage) -> (len: usize)
    ensures
        forall|plan: FlightPlan| len == #[trigger] stage_schedule(plan, stage).len(),
        1 <= len <= STARTUP_LEN,
{
    match stage {
        Stage::Startup => STARTUP_LEN,
        Stage::Flying => CYCLE_LEN,
        Stage::ShuttingDown => SHUTDOWN_LEN,
        Stage::Stopped => 1,
    }
}

/// The directive at a step of a stage's schedule.
fn scheduled(plan: FlightPlan, stage: Stage, step: usize) -> (directive: Directive)
    requires
        step < stage_schedule(plan, stage).len(),
    ensures
        directive == stage_schedule(plan, stage)[step as int],
{
    match stage {
        Stage::Startup => startup_directive(plan, step),
        Stage::Flying => cycle_directive(plan, step),
        Stage::ShuttingDown => shutdown_directive(step),
        Stage::Stopped => Directive::Done,
    }
}

/// The motor at a place in the order A, B, C, D.
fn motor_in_turn(place: usize) -> (motor: MotorId)
    requires
        place < 4,
    ensures
        motor.spec_index() == place,
{
    if place == 0 {
        MotorId::A
    } else if place == 1 {
        MotorId::B
    } else if place == 2 {
        MotorId::C
    } else {
        MotorId::D
    }
}

/// The directive at a step of startup: the first half arms, the second
/// ramps, and in each half motors and pauses alternate.
fn startup_directive(plan: FlightPlan, step: usize) -> (directive: Directive)
    requires
        step < STARTUP_LEN,
    ensures
        directive == startup_schedule(plan)[step as int],
{
    let half: usize = STARTUP_LEN / 2;
    let place: usize = if step < half { step } else { step - half };
    if place % 2 == 1 {
        Directive::Pause(plan.settle_ms)
    } else if step < half {
        Directive::Init(motor_in_turn(place / 2))
    } else {
        Directive::GetToFlight(motor_in_turn(place / 2), plan.ramp_step_ms)
    }
}

/// The directive at a step of a control cycle.
fn cycle_directive(plan: FlightPlan, step: usize) -> (directive: Directive)
    requires
        step < CYCLE_LEN,
    ensures
        directive == cycle_schedule(plan)[step as int],
{
    if step == 0 {
        Directive::PollAttitude
    } else {
        let motor = motor_in_turn(step - 1);
        Directive::Update(motor, plan.binding(motor))
    }
}

/// The directive at a step of shutdown.
fn shutdown_directive(step: usize) -> (directive: Directive)
    requires
        step < SHUTDOWN_LEN,
    ensures
        directive == shutdown_schedule()[step as int],
{
    if step < 4 {
        Directive::Shutdown(motor_in_turn(step))
    } else {
        Directive::StopSensors
    }
}

} // verus!
