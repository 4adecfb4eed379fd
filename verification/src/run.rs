//! Runs of the flight loop: what a sequence of calls hands out, and what
//! holds of every such run.
//!
//! A run is told by the readings of the cancellation flag, one for each call
//! of [`Orchestrator::next`](crate::flight::Orchestrator::next). The laws
//! here say that startup is never cut short, that a control cycle which has
//! begun is finished, that cancellation leads to exactly one shutdown of
//! each motor, and what the life of a single motor looks like.

use vstd::prelude::*;
use crate::flight::{
    arming_schedule, cycle_schedule, ramping_schedule, shutdown_schedule, stage_schedule,
    startup_schedule, Directive, FlightPlan, LoopState, MotorId, Stage, CYCLE_LEN, SHUTDOWN_LEN,
    STARTUP_LEN,
};

verus! {

/// The directives that a run of calls hands out from `state`, one call for
/// each reading of the flag in `flags`.
pub open spec fn trace(state: LoopState, flags: Seq<bool>) -> Seq<Directive>
    decreases flags.len(),
{
    if flags.len() == 0 {
        Seq::empty()
    } else {
        seq![state.directive(flags[0])] + trace(state.successor(flags[0]), flags.drop_first())
    }
}

/// The state that a run of calls leaves behind.
pub open spec fn after(state: LoopState, flags: Seq<bool>) -> LoopState
    decreases flags.len(),
{
    if flags.len() == 0 {
        state
    } else {
        after(state.successor(flags[0]), flags.drop_first())
    }
}

/// `count` control cycles, one after the other.
pub open spec fn cycles(plan: FlightPlan, count: nat) -> Seq<Directive>
    decreases count,
{
    if count == 0 {
        Seq::empty()
    } else {
        cycle_schedule(plan) + cycles(plan, (count - 1) as nat)
    }
}

/// Every step keeps the state inside its stage's schedule.
pub proof fn lemma_successor_wf(state: LoopState, running: bool)
    requires
        state.wf(),
    ensures
        state.successor(running).wf(),
        state.successor(running).plan == state.plan,
{
}

/// A run in two parts hands out what the first part hands out, then what the
/// second hands out from where the first left off.
pub proof fn lemma_trace_split(state: LoopState, first: Seq<bool>, second: Seq<bool>)
    ensures
        trace(state, first + second) == trace(state, first) + trace(after(state, first), second),
        after(state, first + second) == after(after(state, first), second),
    decreases first.len(),
{
    if first.len() > 0 {
        assert((first + second).drop_first() =~= first.drop_first() + second);
        lemma_trace_split(state.successor(first[0]), first.drop_first(), second);
    }
}

/// Inside a stage the schedule goes on in order. The flag counts only for a
/// call at the start of a control cycle, where it has to read `true` here.
proof fn lemma_segment(state: LoopState, flags: Seq<bool>)
    requires
        state.wf(),
        state.step + flags.len() <= stage_schedule(state.plan, state.stage).len(),
        flags.len() > 0 ==> !state.cancels(flags[0]),
    ensures
        trace(state, flags) == stage_schedule(state.plan, state.stage).subrange(
            state.step as int,
            (state.step + flags.len()) as int,
        ),
        after(state, flags) == if state.step + flags.len() < stage_schedule(
            state.plan,
            state.stage,
        ).len() {
            state.at(state.stage, state.step + flags.len())
        } else {
            state.at(state.stage.following(), 0)
        },
    decreases flags.len(),
{
    let schedule = stage_schedule(state.plan, state.stage);
    let step = state.step as int;
    if flags.len() == 0 {
        assert(trace(state, flags) =~= schedule.subrange(step, step));
    } else {
        let next = state.successor(flags[0]);
        let rest = flags.drop_first();
        if step + 1 < schedule.len() {
            lemma_segment(next, rest);
        } else {
            // the call was the last of the stage, so nothing is left of the run
            assert(trace(next, rest) =~= Seq::<Directive>::empty());
            assert(after(next, rest) == next);
        }
        assert(trace(state, flags) =~= schedule.subrange(step, step + flags.len()));
    }
}

/// Startup is never cut short: whatever the flag reads meanwhile, the first
/// calls hand out the whole startup schedule in order, and the loop then
/// stands at the start of its first control cycle.
pub proof fn lemma_startup_runs_in_full(plan: FlightPlan, flags: Seq<bool>)
    requires
        flags.len() == STARTUP_LEN,
    ensures
        trace(LoopState::initial(plan), flags) == startup_schedule(plan),
        after(LoopState::initial(plan), flags) == LoopState::cycle_start(plan),
{
    lemma_segment(LoopState::initial(plan), flags);
}

/// A control cycle that begins is finished: if the flag reads `true` at the
/// start of the cycle, the whole cycle is handed out in order, whatever the
/// flag reads during it, and the loop stands at the start of the next cycle.
pub proof fn lemma_cycle_runs_in_full(plan: FlightPlan, flags: Seq<bool>)
    requires
        flags.len() == CYCLE_LEN,
        flags[0],
    ensures
        trace(LoopState::cycle_start(plan), flags) == cycle_schedule(plan),
        after(LoopState::cycle_start(plan), flags) == LoopState::cycle_start(plan),
{
    lemma_segment(LoopState::cycle_start(plan), flags);
}

/// Cancellation is honoured at the start of a cycle: if the flag reads
/// `false` there, no motor is updated again. Each of the four motors is shut
/// down exactly once, in the order A, B, C, D, then the sensors are stopped,
/// whatever the flag reads meanwhile.
pub proof fn lemma_cancel_shuts_down(plan: FlightPlan, flags: Seq<bool>)
    requires
        flags.len() == SHUTDOWN_LEN,
        !flags[0],
    ensures
        trace(LoopState::cycle_start(plan), flags) == shutdown_schedule(),
        after(LoopState::cycle_start(plan), flags) == LoopState::stopped(plan),
{
    lemma_segment(LoopState { plan, stage: Stage::ShuttingDown, step: 1 }, flags.drop_first());
}

/// Cancellation that arrives in the middle of a cycle does not break the
/// cycle off: the rest of the cycle is handed out, and the flag is read
/// again only at the start of the next cycle. If it reads `false` there, the
/// shutdown schedule follows in full.
pub proof fn lemma_cancel_mid_cycle(plan: FlightPlan, step: nat, flags: Seq<bool>)
    requires
        0 < step < CYCLE_LEN,
        flags.len() == CYCLE_LEN - step + SHUTDOWN_LEN,
        !flags[CYCLE_LEN - step],
    ensures
        trace(LoopState { plan, stage: Stage::Flying, step }, flags) == cycle_schedule(plan).skip(
            step as int,
        ) + shutdown_schedule(),
        after(LoopState { plan, stage: Stage::Flying, step }, flags) == LoopState::stopped(plan),
{
    let state = LoopState { plan, stage: Stage::Flying, step };
    let rest_of_cycle = flags.take(CYCLE_LEN - step);
    let shutdown = flags.skip(CYCLE_LEN - step);
    assert(flags =~= rest_of_cycle + shutdown);
    lemma_trace_split(state, rest_of_cycle, shutdown);
    lemma_segment(state, rest_of_cycle);
    lemma_cancel_shuts_down(plan, shutdown);
}

/// Once everything is stopped, nothing is handed out but `Done`, and the
/// state stays as it is.
pub proof fn lemma_stopped_is_final(plan: FlightPlan, flags: Seq<bool>)
    ensures
        trace(LoopState::stopped(plan), flags) == Seq::new(flags.len(), |i: int| Directive::Done),
        after(LoopState::stopped(plan), flags) == LoopState::stopped(plan),
    decreases flags.len(),
{
    if flags.len() > 0 {
        lemma_stopped_is_final(plan, flags.drop_first());
    }
}

/// `count` cycles in a row: if the flag reads `true` at the start of each of
/// them, they are all handed out in full.
pub proof fn lemma_cycles_run(plan: FlightPlan, count: nat, flags: Seq<bool>)
    requires
        flags.len() == count * CYCLE_LEN,
        forall|j: int| 0 <= j < count ==> #[trigger] flags[j * CYCLE_LEN],
    ensures
        trace(LoopState::cycle_start(plan), flags) == cycles(plan, count),
        after(LoopState::cycle_start(plan), flags) == LoopState::cycle_start(plan),
    decreases count,
{
    if count > 0 {
        let first = flags.take(CYCLE_LEN as int);
        let rest = flags.skip(CYCLE_LEN as int);
        assert(flags =~= first + rest);
        assert(flags[0 * CYCLE_LEN]);
        lemma_cycle_runs_in_full(plan, first);
        assert forall|j: int| 0 <= j < count - 1 implies #[trigger] rest[j * CYCLE_LEN] by {
            assert(rest[j * CYCLE_LEN] == flags[(j + 1) * CYCLE_LEN]);
        }
        lemma_cycles_run(plan, (count - 1) as nat, rest);
        lemma_trace_split(LoopState::cycle_start(plan), first, rest);
    }
}

/// A whole run. If the flag reads `true` at the start of each of the first
/// `count` cycles and `false` at the start of the next, then, whatever it
/// reads in between, the run is: startup, `count` full cycles, shutdown. No
/// cycle is broken off and every motor is shut down exactly once.
pub proof fn lemma_whole_run(plan: FlightPlan, count: nat, flags: Seq<bool>)
    requires
        flags.len() == STARTUP_LEN + count * CYCLE_LEN + SHUTDOWN_LEN,
        forall|j: int| 0 <= j < count ==> #[trigger] flags[STARTUP_LEN + j * CYCLE_LEN],
        !flags[STARTUP_LEN + count * CYCLE_LEN],
    ensures
        trace(LoopState::initial(plan), flags) == startup_schedule(plan) + cycles(plan, count)
            + shutdown_schedule(),
        after(LoopState::initial(plan), flags) == LoopState::stopped(plan),
{
    let startup = flags.take(STARTUP_LEN as int);
    let flying = flags.subrange(STARTUP_LEN as int, STARTUP_LEN + count * CYCLE_LEN);
    let shutdown = flags.skip(STARTUP_LEN + count * CYCLE_LEN);
    assert(flags =~= startup + (flying + shutdown));
    lemma_startup_runs_in_full(plan, startup);
    assert forall|j: int| 0 <= j < count implies #[trigger] flying[j * CYCLE_LEN] by {
        assert(flying[j * CYCLE_LEN] == flags[STARTUP_LEN + j * CYCLE_LEN]);
    }
    lemma_cycles_run(plan, count, flying);
    lemma_cancel_shuts_down(plan, shutdown);
    lemma_trace_split(LoopState::cycle_start(plan), flying, shutdown);
    lemma_trace_split(LoopState::initial(plan), startup, flying + shutdown);
}

impl Directive {
    /// The motor that a directive is about, if it is about one.
    pub open spec fn motor(self) -> Option<MotorId> {
        match self {
            Directive::Init(motor) => Some(motor),
            Directive::GetToFlight(motor, _) => Some(motor),
            Directive::Update(motor, _) => Some(motor),
            Directive::Shutdown(motor) => Some(motor),
            _ => None,
        }
    }
}

/// The directives of a run that are about one motor, in order.
pub open spec fn directives_for(run: Seq<Directive>, motor: MotorId) -> Seq<Directive>
    decreases run.len(),
{
    if run.len() == 0 {
        Seq::empty()
    } else if run.last().motor() == Some(motor) {
        directives_for(run.drop_last(), motor).push(run.last())
    } else {
        directives_for(run.drop_last(), motor)
    }
}

/// `count` updates of one motor under a plan.
pub open spec fn updates(plan: FlightPlan, motor: MotorId, count: nat) -> Seq<Directive> {
    Seq::new(count, |i: int| Directive::Update(motor, plan.binding(motor)))
}

/// What is about a motor in a run of two parts is what is about it in the
/// first part, then what is about it in the second.
pub proof fn lemma_directives_for_split(
    first: Seq<Directive>,
    second: Seq<Directive>,
    motor: MotorId,
)
    ensures
        directives_for(first + second, motor) == directives_for(first, motor) + directives_for(
            second,
            motor,
        ),
    decreases second.len(),
{
    if second.len() > 0 {
        assert((first + second).drop_last() =~= first + second.drop_last());
        lemma_directives_for_split(first, second.drop_last(), motor);
    }
}

/// Of any number of control cycles, one update per cycle is about a given
/// motor.
proof fn lemma_directives_for_cycles(plan: FlightPlan, count: nat, motor: MotorId)
    ensures
        directives_for(cycles(plan, count), motor) == updates(plan, motor, count),
    decreases count,
{
    if count > 0 {
        let fewer = (count - 1) as nat;
        lemma_directives_for_cycles(plan, fewer, motor);
        lemma_directives_for_split(cycle_schedule(plan), cycles(plan, fewer), motor);
        assert(directives_for(cycle_schedule(plan), motor) =~= updates(plan, motor, 1)) by {
            reveal_with_fuel(directives_for, 6);
        }
    }
}

/// Of each schedule, this much is about a given motor: its arming, its
/// ramp, and its shutdown.
proof fn lemma_directives_for_schedules(plan: FlightPlan, motor: MotorId)
    ensures
        directives_for(arming_schedule(plan), motor) == seq![Directive::Init(motor)],
        directives_for(ramping_schedule(plan), motor) == seq![
            Directive::GetToFlight(motor, plan.ramp_step_ms),
        ],
        directives_for(shutdown_schedule(), motor) == seq![Directive::Shutdown(motor)],
{
    assert(directives_for(arming_schedule(plan), motor) =~= seq![Directive::Init(motor)]) by {
        reveal_with_fuel(directives_for, 8);
    }
    assert(directives_for(ramping_schedule(plan), motor) =~= seq![
        Directive::GetToFlight(motor, plan.ramp_step_ms),
    ]) by {
        reveal_with_fuel(directives_for, 8);
    }
    assert(directives_for(shutdown_schedule(), motor) =~= seq![Directive::Shutdown(motor)]) by {
        reveal_with_fuel(directives_for, 6);
    }
}

/// The life of each motor over a whole run of `count` cycles: it is armed
/// once, then ramped once, then updated once in every cycle, then shut down
/// once. Nothing else is ever asked of it, and nothing comes in another
/// order.
pub proof fn lemma_motor_lifecycle(plan: FlightPlan, count: nat, motor: MotorId)
    ensures
        directives_for(
            startup_schedule(plan) + cycles(plan, count) + shutdown_schedule(),
            motor,
        ) == seq![Directive::Init(motor), Directive::GetToFlight(motor, plan.ramp_step_ms)]
            + updates(plan, motor, count) + seq![Directive::Shutdown(motor)],
{
    let startup = startup_schedule(plan);
    let flying = cycles(plan, count);
    let shutdown = shutdown_schedule();
    lemma_directives_for_split(startup + flying, shutdown, motor);
    lemma_directives_for_split(startup, flying, motor);
    lemma_directives_for_split(arming_schedule(plan), ramping_schedule(plan), motor);
    lemma_directives_for_cycles(plan, count, motor);
    lemma_directives_for_schedules(plan, motor);
}

} // verus!
