//! The commands that the planners hand to the motor pair, and the command
//! sequences they share.

use vstd::prelude::*;

verus! {

/// How the motors come to rest on a stop command.
#[derive(Clone, Copy, Debug, PartialEq, Eq, Structural)]
pub enum StopAction {
    /// Active braking.
    Brake,
    /// Power removed; the wheels roll out.
    Coast,
}

/// Audible and visual cues around an evade manoeuvre.
#[derive(Clone, Copy, Debug, PartialEq, Eq, Structural)]
pub enum Cue {
    EvadeStart,
    EvadeEnd,
}

/// One command to the pair of drive motors. Commands without a wheel name
/// apply to both wheels.
#[derive(Clone, Copy, Debug, PartialEq, Eq, Structural)]
pub enum MotorCommand {
    SetStopAction(StopAction),
    Stop,
    /// Speed set point of each wheel, in the actuator's native units.
    SetSpeed { left: i32, right: i32 },
    /// Duty cycle set point, in percent.
    SetDutyCycle(i32),
    RunForever,
    RunDirect,
    /// Run at the speed set point for this many milliseconds.
    RunTimed(u64),
    /// Block until the motors report that they run.
    WaitUntilRunning,
    /// Block until the motors report that they no longer move.
    WaitUntilNotMoving,
    /// Let this many milliseconds pass.
    Pause(u64),
    Feedback(Cue),
}

/// Full speed of a wheel in the actuator's native units.
pub const MAX_SPEED_SP: i32 = 900;

/// Wheel speed, in native units, of a pivot turn.
pub const PIVOT_SPEED_SP: i32 = 750;

/// Braking stop, not waiting for the wheels to come to rest.
pub open spec fn brake_and_stop() -> Seq<MotorCommand> {
    seq![MotorCommand::SetStopAction(StopAction::Brake), MotorCommand::Stop]
}

/// Braking stop, then a wait until the wheels no longer move.
pub open spec fn safe_stop() -> Seq<MotorCommand> {
    brake_and_stop().push(MotorCommand::WaitUntilNotMoving)
}

/// A timed turn on the spot: the wheels run in opposite directions, the
/// left one backward when turning left.
pub open spec fn pivot(turn_left: bool, duration_ms: u64) -> Seq<MotorCommand> {
    let left: i32 = if turn_left {
        (-PIVOT_SPEED_SP) as i32
    } else {
        PIVOT_SPEED_SP
    };
    seq![
        MotorCommand::SetSpeed { left, right: (-left) as i32 },
        MotorCommand::RunTimed(duration_ms),
        MotorCommand::WaitUntilRunning,
        MotorCommand::WaitUntilNotMoving,
    ]
}

/// Appends a braking stop that does not wait.
pub fn push_brake_and_stop(cmds: &mut Vec<MotorCommand>)
    ensures
        final(cmds)@ == old(cmds)@ + brake_and_stop(),
{
    cmds.push(MotorCommand::SetStopAction(StopAction::Brake));
    cmds.push(MotorCommand::Stop);
    assert(final(cmds)@ =~= old(cmds)@ + brake_and_stop());
}

/// Appends a braking stop followed by a wait for the wheels to rest.
pub fn push_safe_stop(cmds: &mut Vec<MotorCommand>)
    ensures
        final(cmds)@ == old(cmds)@ + safe_stop(),
{
    push_brake_and_stop(cmds);
    cmds.push(MotorCommand::WaitUntilNotMoving);
    assert(final(cmds)@ =~= old(cmds)@ + safe_stop());
}

/// Appends a timed turn on the spot.
pub fn push_pivot(cmds: &mut Vec<MotorCommand>, turn_left: bool, duration_ms: u64)
    ensures
        final(cmds)@ == old(cmds)@ + pivot(turn_left, duration_ms),
{
    let left: i32 = if turn_left {
        -PIVOT_SPEED_SP
    } else {
        PIVOT_SPEED_SP
    };
    cmds.push(MotorCommand::SetSpeed { left, right: -left });
    cmds.push(MotorCommand::RunTimed(duration_ms));
    cmds.push(MotorCommand::WaitUntilRunning);
    cmds.push(MotorCommand::WaitUntilNotMoving);
    assert(final(cmds)@ =~= old(cmds)@ + pivot(turn_left, duration_ms));
}

} // verus!
