//! The obstacle-avoiding autopilot: a sense-decide-act loop whose decisions
//! are made here, one event at a time, and whose sensing, acting and
//! sleeping the caller performs.
//!
//! The caller starts a run with [`AutoDrive::start`], then feeds events:
//! after each step that leaves the run `Evading` it takes a fresh sample;
//! after one that leaves it `Cruising` it waits for the poll interval, checks
//! for a stop request and reports it, then samples again; a run that is
//! `Stopped` is over. Any failed sensor or actuator call is reported as a
//! fault, which ends the run with a braking stop.

use vstd::prelude::*;
use rand::Rng;
use crate::motor::{pivot, push_pivot, push_safe_stop, safe_stop, Cue, MotorCommand, StopAction};

verus! {

/// Below this distance, in micrometres, the robot evades.
pub const STOP_THRESHOLD_UM: u32 = 150000;

/// At or beyond this distance, in micrometres, the robot cruises at full speed.
pub const SLOW_THRESHOLD_UM: u32 = 400000;

/// Time between two cruise decisions, in milliseconds.
pub const POLL_INTERVAL_MS: u64 = 1000;

/// Speed of both wheels while backing up, in native units.
pub const BACKUP_SPEED_SP: i32 = 500;

/// Duration of the backup, in milliseconds.
pub const BACKUP_TIME_MS: u64 = 1500;

/// Shortest turn after a backup, in milliseconds.
pub const TURN_MIN_MS: u64 = 250;

/// Longest turn after a backup, in milliseconds.
pub const TURN_MAX_MS: u64 = 750;

/// One sample of the proximity sensors.
#[derive(Clone, Copy, Debug, PartialEq, Eq, Structural)]
pub struct ProximityReading {
    /// Distance to the nearest obstacle ahead, in micrometres.
    pub distance_um: u32,
    /// Whether the bumper is pressed.
    pub touching: bool,
}

/// Where an autopilot run stands.
#[derive(Clone, Copy, Debug, PartialEq, Eq, Structural)]
pub enum AvoidanceState {
    Cruising,
    Evading,
    Stopped,
}

/// What the caller observed since the last step.
#[derive(Clone, Copy, Debug, PartialEq, Eq, Structural)]
pub enum LoopEvent {
    /// A fresh proximity sample.
    Sample(ProximityReading),
    /// The poll interval has passed; whether a stop was requested meanwhile.
    PollElapsed { stop_requested: bool },
    /// A sensor or actuator call failed.
    Fault,
}

/// The turn that follows a backup: its direction and duration.
#[derive(Clone, Copy, Debug, PartialEq, Eq, Structural)]
pub struct EvadeTurn {
    pub pivot_left: bool,
    pub duration_ms: u64,
}

impl EvadeTurn {
    /// The duration lies in the range that turns are drawn from.
    pub open spec fn valid(&self) -> bool {
        TURN_MIN_MS <= self.duration_ms <= TURN_MAX_MS
    }
}

/// An autopilot run.
#[derive(Clone, Copy, Debug, PartialEq, Eq, Structural)]
pub struct AutoDrive {
    pub state: AvoidanceState,
}

/// Whether a sample calls for an evade manoeuvre.
pub open spec fn triggers_evade(reading: ProximityReading) -> bool {
    reading.touching || reading.distance_um < STOP_THRESHOLD_UM
}

/// Duty cycle, in percent, for cruising at a distance in micrometres: zero up
/// to the stop threshold, full at and beyond the slow threshold, linear in
/// between and rounded down.
pub open spec fn duty_cycle(distance_um: int) -> int {
    if distance_um <= STOP_THRESHOLD_UM {
        0
    } else if distance_um >= SLOW_THRESHOLD_UM {
        100
    } else {
        (distance_um - STOP_THRESHOLD_UM) * 100 / (SLOW_THRESHOLD_UM - STOP_THRESHOLD_UM)
    }
}

/// Full forward power.
pub open spec fn start_straight() -> Seq<MotorCommand> {
    seq![MotorCommand::SetDutyCycle(100), MotorCommand::RunDirect]
}

/// The evade manoeuvre: brake to rest, signal, back up, turn, clear the
/// signal, drive on straight ahead.
pub open spec fn evade_plan(turn: EvadeTurn) -> Seq<MotorCommand> {
    safe_stop() + seq![
        MotorCommand::Feedback(Cue::EvadeStart),
        MotorCommand::SetSpeed {
            left: (-BACKUP_SPEED_SP) as i32,
            right: (-BACKUP_SPEED_SP) as i32,
        },
        MotorCommand::RunTimed(BACKUP_TIME_MS),
        MotorCommand::WaitUntilRunning,
        MotorCommand::WaitUntilNotMoving,
    ] + pivot(turn.pivot_left, turn.duration_ms) + seq![MotorCommand::Feedback(Cue::EvadeEnd)]
        + start_straight()
}

/// Cruise at the speed the distance calls for, then let the poll interval pass.
pub open spec fn cruise_plan(distance_um: int) -> Seq<MotorCommand> {
    seq![
        MotorCommand::SetDutyCycle(duty_cycle(distance_um) as i32),
        MotorCommand::Pause(POLL_INTERVAL_MS),
    ]
}

/// The state after an event, and the commands to issue for it.
pub open spec fn transition(state: AvoidanceState, event: LoopEvent, turn: EvadeTurn) -> (
    AvoidanceState,
    Seq<MotorCommand>,
) {
    if state == AvoidanceState::Stopped {
        (AvoidanceState::Stopped, Seq::empty())
    } else {
        match event {
            LoopEvent::Sample(reading) => if triggers_evade(reading) {
                (AvoidanceState::Evading, evade_plan(turn))
            } else {
                (AvoidanceState::Cruising, cruise_plan(reading.distance_um as int))
            },
            LoopEvent::PollElapsed { stop_requested } => if stop_requested {
                (AvoidanceState::Stopped, safe_stop())
            } else {
                (state, Seq::empty())
            },
            LoopEvent::Fault => (AvoidanceState::Stopped, safe_stop()),
        }
    }
}

/// Whether a sample calls for an evade manoeuvre: the bumper is pressed or
/// an obstacle is nearer than the stop threshold.
pub fn evade_triggered(reading: ProximityReading) -> (r: bool)
    ensures
        r == triggers_evade(reading),
{
    reading.touching || reading.distance_um < STOP_THRESHOLD_UM
}

/// Duty cycle, in percent, for cruising at `distance_um` micrometres.
pub fn cruise_duty_cycle(distance_um: u32) -> (r: i32)
    ensures
        r == duty_cycle(distance_um as int),
{
    if distance_um <= STOP_THRESHOLD_UM {
        0
    } else if distance_um >= SLOW_THRESHOLD_UM {
        100
    } else {
        let span: u32 = SLOW_THRESHOLD_UM - STOP_THRESHOLD_UM;
        let duty: u32 = (distance_um - STOP_THRESHOLD_UM) * 100 / span;
        assert(duty <= 100) by (nonlinear_arith)
            requires
                duty as int == ((distance_um - STOP_THRESHOLD_UM) * 100) as int / span as int,
                0 < distance_um - STOP_THRESHOLD_UM < span,
        ;
        duty as i32
    }
}

fn push_start_straight(cmds: &mut Vec<MotorCommand>)
    ensures
        final(cmds)@ == old(cmds)@ + start_straight(),
{
    cmds.push(MotorCommand::SetDutyCycle(100));
    cmds.push(MotorCommand::RunDirect);
    assert(final(cmds)@ =~= old(cmds)@ + start_straight());
}

fn push_evade(cmds: &mut Vec<MotorCommand>, turn: EvadeTurn)
    ensures
        final(cmds)@ == old(cmds)@ + evade_plan(turn),
{
    let ghost start = cmds@;
    push_safe_stop(cmds);
    cmds.push(MotorCommand::Feedback(Cue::EvadeStart));
    cmds.push(MotorCommand::SetSpeed { left: -BACKUP_SPEED_SP, right: -BACKUP_SPEED_SP });
    cmds.push(MotorCommand::RunTimed(BACKUP_TIME_MS));
    cmds.push(MotorCommand::WaitUntilRunning);
    cmds.push(MotorCommand::WaitUntilNotMoving);
    push_pivot(cmds, turn.pivot_left, turn.duration_ms);
    cmds.push(MotorCommand::Feedback(Cue::EvadeEnd));
    push_start_straight(cmds);
    assert(cmds@ =~= start + evade_plan(turn));
}

impl AutoDrive {
    /// Starts a run: cruising, at full forward power.
    pub fn start() -> (r: (AutoDrive, Vec<MotorCommand>))
        ensures
            r.0.state == AvoidanceState::Cruising,
            r.1@ == start_straight(),
    {
        let mut cmds: Vec<MotorCommand> = Vec::new();
        push_start_straight(&mut cmds);
        assert(cmds@ =~= start_straight());
        (AutoDrive { state: AvoidanceState::Cruising }, cmds)
    }

    /// Takes one event and returns the commands to issue for it; `turn` is
    /// the turn that an evade manoeuvre, if one is due, makes.
    pub fn step(&mut self, event: LoopEvent, turn: EvadeTurn) -> (r: Vec<MotorCommand>)
        ensures
            (final(self).state, r@) == transition(old(self).state, event, turn),
    {
        let mut cmds: Vec<MotorCommand> = Vec::new();
        if self.state == AvoidanceState::Stopped {
            assert(cmds@ =~= Seq::empty());
            return cmds;
        }
        match event {
            LoopEvent::Sample(reading) => {
                if evade_triggered(reading) {
                    push_evade(&mut cmds, turn);
                    assert(cmds@ =~= evade_plan(turn));
                    self.state = AvoidanceState::Evading;
                } else {
                    cmds.push(MotorCommand::SetDutyCycle(cruise_duty_cycle(reading.distance_um)));
                    cmds.push(MotorCommand::Pause(POLL_INTERVAL_MS));
                    assert(cmds@ =~= cruise_plan(reading.distance_um as int));
                    self.state = AvoidanceState::Cruising;
                }
            },
            LoopEvent::PollElapsed { stop_requested } => {
                if stop_requested {
                    push_safe_stop(&mut cmds);
                    assert(cmds@ =~= safe_stop());
                    self.state = AvoidanceState::Stopped;
                } else {
                    assert(cmds@ =~= Seq::empty());
                }
            },
            LoopEvent::Fault => {
                push_safe_stop(&mut cmds);
                assert(cmds@ =~= safe_stop());
                self.state = AvoidanceState::Stopped;
            },
        }
        cmds
    }

    /// Takes one event as [`AutoDrive::step`] does, with a turn drawn at
    /// random: either direction, for a duration in the turn range.
    pub fn step_with_random_turn(&mut self, event: LoopEvent) -> (r: Vec<MotorCommand>)
        ensures
            exists|turn: EvadeTurn|
                turn.valid() && #[trigger] transition(old(self).state, event, turn) == (
                    final(self).state,
                    r@,
                ),
    {
        let turn = random_evade_turn();
        let r = self.step(event, turn);
        assert(turn.valid() && transition(old(self).state, event, turn) == (self.state, r@));
        r
    }

    /// Whether the run is over.
    pub fn is_finished(&self) -> (r: bool)
        ensures
            r == (self.state == AvoidanceState::Stopped),
    {
        self.state == AvoidanceState::Stopped
    }
}

/// Draws a turn: a fair choice of direction, and a duration in the turn range.
pub fn random_evade_turn() -> (r: EvadeTurn)
    ensures
        r.valid(),
{
    let pivot_left = flip_coin();
    let duration_ms = uniform_in(TURN_MIN_MS, TURN_MAX_MS);
    EvadeTurn { pivot_left, duration_ms }
}

/// Relies on rand::random::<bool>: draws a boolean from the thread-local
/// generator; nothing is known of which.
#[verifier::external_body]
fn flip_coin() -> (r: bool) {
    rand::random::<bool>()
}

/// Relies on rand::Rng::gen_range on rand::thread_rng: a value drawn from the
/// inclusive range `low..=high`, which must not be empty (it panics then).
#[verifier::external_body]
fn uniform_in(low: u64, high: u64) -> (r: u64)
    requires
        low <= high,
    ensures
        low <= r <= high,
{
    rand::thread_rng().gen_range(low..=high)
}

/// The cruise duty cycle is zero up to the stop threshold, full at and beyond
/// the slow threshold, half-way at the midpoint between them, and always
/// within `0..=100`.
pub proof fn lemma_cruise_speed_law(distance_um: int)
    ensures
        0 <= duty_cycle(distance_um) <= 100,
        distance_um <= STOP_THRESHOLD_UM ==> duty_cycle(distance_um) == 0,
        distance_um >= SLOW_THRESHOLD_UM ==> duty_cycle(distance_um) == 100,
        distance_um == (STOP_THRESHOLD_UM + SLOW_THRESHOLD_UM) / 2 ==> duty_cycle(distance_um)
            == 50,
{
    if STOP_THRESHOLD_UM < distance_um < SLOW_THRESHOLD_UM {
        assert(0 <= (distance_um - STOP_THRESHOLD_UM) * 100 / 250000 <= 100) by (nonlinear_arith)
            requires
                0 < distance_um - STOP_THRESHOLD_UM < 250000,
        ;
    }
}

/// A run ends only with a braking stop that waits until the wheels rest,
/// whether it ends on a stop request or on a fault; a stop request between
/// iterations always ends it; and once ended it issues nothing more.
pub proof fn lemma_every_exit_brakes_to_rest(
    state: AvoidanceState,
    event: LoopEvent,
    turn: EvadeTurn,
)
    ensures
        state != AvoidanceState::Stopped && transition(state, event, turn).0
            == AvoidanceState::Stopped ==> {
            &&& transition(state, event, turn).1 == safe_stop()
            &&& transition(state, event, turn).1.first() == MotorCommand::SetStopAction(
                StopAction::Brake,
            )
            &&& transition(state, event, turn).1.last() == MotorCommand::WaitUntilNotMoving
        },
        event == (LoopEvent::PollElapsed { stop_requested: true }) ==> transition(
            state,
            event,
            turn,
        ).0 == AvoidanceState::Stopped,
        state == AvoidanceState::Stopped ==> transition(state, event, turn) == (
            AvoidanceState::Stopped,
            Seq::<MotorCommand>::empty(),
        ),
{
}

} // verus!
