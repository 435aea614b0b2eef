//! Fixed moves of a simple remote control: a short drive forward or
//! backward, or a short turn on the spot.

use vstd::prelude::*;
use crate::motor::{pivot, push_pivot, MotorCommand, StopAction};

verus! {

/// How long a short drive lasts, in milliseconds.
pub const NUDGE_DRIVE_MS: u64 = 1000;

/// How long a short turn lasts, in milliseconds.
pub const NUDGE_TURN_MS: u64 = 150;

/// A short drive at `duty` percent: run, wait until running, let the drive
/// time pass, then stop and let the wheels roll out.
pub open spec fn drive_plan(duty: i32) -> Seq<MotorCommand> {
    seq![
        MotorCommand::SetDutyCycle(duty),
        MotorCommand::RunDirect,
        MotorCommand::WaitUntilRunning,
        MotorCommand::Pause(NUDGE_DRIVE_MS),
        MotorCommand::SetStopAction(StopAction::Coast),
        MotorCommand::Stop,
    ]
}

fn drive_briefly(duty: i32) -> (r: Vec<MotorCommand>)
    ensures
        r@ == drive_plan(duty),
{
    let mut cmds: Vec<MotorCommand> = Vec::new();
    cmds.push(MotorCommand::SetDutyCycle(duty));
    cmds.push(MotorCommand::RunDirect);
    cmds.push(MotorCommand::WaitUntilRunning);
    cmds.push(MotorCommand::Pause(NUDGE_DRIVE_MS));
    cmds.push(MotorCommand::SetStopAction(StopAction::Coast));
    cmds.push(MotorCommand::Stop);
    assert(cmds@ =~= drive_plan(duty));
    cmds
}

fn turn_briefly(turn_left: bool) -> (r: Vec<MotorCommand>)
    ensures
        r@ == pivot(turn_left, NUDGE_TURN_MS),
{
    let mut cmds: Vec<MotorCommand> = Vec::new();
    push_pivot(&mut cmds, turn_left, NUDGE_TURN_MS);
    assert(cmds@ =~= pivot(turn_left, NUDGE_TURN_MS));
    cmds
}

/// Drives straight ahead at full power for a moment.
pub fn move_forward() -> (r: Vec<MotorCommand>)
    ensures
        r@ == drive_plan(100),
{
    drive_briefly(100)
}

/// Drives straight back at full power for a moment.
pub fn move_backward() -> (r: Vec<MotorCommand>)
    ensures
        r@ == drive_plan(-100i32),
{
    drive_briefly(-100)
}

/// Turns left on the spot for a moment.
pub fn turn_left() -> (r: Vec<MotorCommand>)
    ensures
        r@ == pivot(true, NUDGE_TURN_MS),
{
    turn_briefly(true)
}

/// Turns right on the spot for a moment.
pub fn turn_right() -> (r: Vec<MotorCommand>)
    ensures
        r@ == pivot(false, NUDGE_TURN_MS),
{
    turn_briefly(false)
}

} // verus!
