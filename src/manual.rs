//! Manual driving: the live driving state of a remote operator's session,
//! and the motor commands that each change of it calls for.

use vstd::prelude::*;
use crate::drive::{
    clamp, clamp_i32, compute_wheel_powers, left_power, native_units, right_power,
    to_native_units, DriveCommand, DriveMode, MAX_SPEED, MAX_TURN_BIAS,
};
use crate::motor::{
    brake_and_stop, push_brake_and_stop, push_safe_stop, safe_stop, MotorCommand, MAX_SPEED_SP,
};

verus! {

/// The driving controls as the operator last set them: a gear, a speed in
/// percent and a turn bias in percent.
#[derive(Clone, Copy, Debug, PartialEq, Eq, Structural)]
pub struct ControlState {
    pub mode: DriveMode,
    pub speed: u8,
    pub direction: i8,
}

/// Whether going from one gear to the other reverses the direction of travel.
pub open spec fn reverses(from: DriveMode, to: DriveMode) -> bool {
    (from == DriveMode::Forward && to == DriveMode::Backward) || (from == DriveMode::Backward
        && to == DriveMode::Forward)
}

/// The wheel speed set points, in native units, for a driving command.
pub open spec fn wheel_speeds(cmd: DriveCommand) -> MotorCommand {
    MotorCommand::SetSpeed {
        left: native_units(left_power(cmd), MAX_SPEED_SP as int) as i32,
        right: native_units(right_power(cmd), MAX_SPEED_SP as int) as i32,
    }
}

/// The commands that bring the motors in line with a control state: new
/// wheel speeds, then either a braking stop that waits for rest or running.
pub open spec fn apply_plan(state: ControlState) -> Seq<MotorCommand> {
    seq![wheel_speeds(state.command_spec())] + if state.mode == DriveMode::Stopped {
        safe_stop()
    } else {
        seq![MotorCommand::RunForever]
    }
}

/// A braking stop that waits for rest, where the gear change reverses.
pub open spec fn interlock(from: DriveMode, to: DriveMode) -> Seq<MotorCommand> {
    if reverses(from, to) {
        safe_stop()
    } else {
        Seq::empty()
    }
}

/// The commands for shifting into `mode`: into neutral a braking stop;
/// otherwise the interlock, then the new state applied.
pub open spec fn set_mode_plan(state: ControlState, mode: DriveMode) -> Seq<MotorCommand> {
    if mode == DriveMode::Stopped {
        brake_and_stop()
    } else {
        interlock(state.mode, mode) + apply_plan(ControlState { mode, ..state })
    }
}

/// The control state that a driving command leaves, its values clamped.
pub open spec fn state_of(cmd: DriveCommand) -> ControlState {
    ControlState {
        mode: cmd.mode,
        speed: clamp(cmd.speed as int, 0, MAX_SPEED as int) as u8,
        direction: clamp(cmd.turn_bias as int, -MAX_TURN_BIAS, MAX_TURN_BIAS as int) as i8,
    }
}

impl ControlState {
    /// The speed and turn bias are within range.
    pub open spec fn wf(&self) -> bool {
        &&& self.speed <= MAX_SPEED
        &&& -MAX_TURN_BIAS <= self.direction <= MAX_TURN_BIAS
    }

    pub open spec fn command_spec(&self) -> DriveCommand {
        DriveCommand {
            mode: self.mode,
            speed: self.speed as i32,
            turn_bias: self.direction as i32,
        }
    }

    /// Stopped, at zero speed, straight ahead.
    pub fn new() -> (r: ControlState)
        ensures
            r.mode == DriveMode::Stopped,
            r.speed == 0,
            r.direction == 0,
            r.wf(),
    {
        ControlState { mode: DriveMode::Stopped, speed: 0, direction: 0 }
    }

    /// The driving command that this state stands for.
    pub fn command(&self) -> (r: DriveCommand)
        ensures
            r == self.command_spec(),
    {
        DriveCommand { mode: self.mode, speed: self.speed as i32, turn_bias: self.direction as i32 }
    }

    /// Shifts into `mode`. Shifting straight between forward and backward
    /// first brakes and waits for the wheels to rest.
    pub fn set_mode(&mut self, mode: DriveMode) -> (r: Vec<MotorCommand>)
        ensures
            *final(self) == (ControlState { mode, ..*old(self) }),
            old(self).wf() ==> final(self).wf(),
            r@ == set_mode_plan(*old(self), mode),
    {
        let mut cmds: Vec<MotorCommand> = Vec::new();
        if mode == DriveMode::Stopped {
            push_brake_and_stop(&mut cmds);
            self.mode = mode;
        } else {
            if is_reversal(self.mode, mode) {
                push_safe_stop(&mut cmds);
            }
            self.mode = mode;
            let mut applied = apply_control_state(self);
            cmds.append(&mut applied);
        }
        assert(cmds@ =~= set_mode_plan(*old(self), mode));
        cmds
    }

    /// Sets the speed, clamped to at most `100` percent, and applies it.
    pub fn set_speed(&mut self, speed: u8) -> (r: Vec<MotorCommand>)
        ensures
            *final(self) == (ControlState {
                speed: clamp(speed as int, 0, MAX_SPEED as int) as u8,
                ..*old(self)
            }),
            old(self).wf() ==> final(self).wf(),
            r@ == apply_plan(*final(self)),
    {
        self.speed = if speed > 100 {
            100
        } else {
            speed
        };
        apply_control_state(self)
    }

    /// Sets the turn bias, clamped to `-100..=100`, and applies it.
    pub fn set_direction(&mut self, direction: i8) -> (r: Vec<MotorCommand>)
        ensures
            *final(self) == (ControlState {
                direction: clamp(direction as int, -MAX_TURN_BIAS, MAX_TURN_BIAS as int) as i8,
                ..*old(self)
            }),
            old(self).wf() ==> final(self).wf(),
            r@ == apply_plan(*final(self)),
    {
        self.direction = if direction > 100 {
            100
        } else if direction < -100 {
            -100
        } else {
            direction
        };
        apply_control_state(self)
    }

    /// Takes a whole driving command at once: clamps it, stores it and
    /// applies it, braking to rest first where the gear reverses.
    pub fn apply_command(&mut self, cmd: DriveCommand) -> (r: Vec<MotorCommand>)
        ensures
            *final(self) == state_of(cmd),
            final(self).wf(),
            r@ == interlock(old(self).mode, cmd.mode) + apply_plan(state_of(cmd)),
    {
        let mut cmds: Vec<MotorCommand> = Vec::new();
        if is_reversal(self.mode, cmd.mode) {
            push_safe_stop(&mut cmds);
        }
        let speed = clamp_i32(cmd.speed, 0, MAX_SPEED);
        let direction = clamp_i32(cmd.turn_bias, -MAX_TURN_BIAS, MAX_TURN_BIAS);
        *self = ControlState { mode: cmd.mode, speed: speed as u8, direction: direction as i8 };
        let mut applied = apply_control_state(self);
        cmds.append(&mut applied);
        assert(cmds@ =~= interlock(old(self).mode, cmd.mode) + apply_plan(state_of(cmd)));
        cmds
    }
}

/// Whether going from one gear to the other reverses the direction of travel.
pub fn is_reversal(from: DriveMode, to: DriveMode) -> (r: bool)
    ensures
        r == reverses(from, to),
{
    match (from, to) {
        (DriveMode::Forward, DriveMode::Backward) => true,
        (DriveMode::Backward, DriveMode::Forward) => true,
        _ => false,
    }
}

/// The motor commands that bring the wheels in line with `state`.
pub fn apply_control_state(state: &ControlState) -> (r: Vec<MotorCommand>)
    ensures
        r@ == apply_plan(*state),
{
    let powers = compute_wheel_powers(state.command());
    proof {
        crate::drive::lemma_powers_within_full_scale(state.command_spec());
    }
    let left = to_native_units(powers.left, MAX_SPEED_SP);
    let right = to_native_units(powers.right, MAX_SPEED_SP);
    let mut cmds: Vec<MotorCommand> = Vec::new();
    cmds.push(MotorCommand::SetSpeed { left, right });
    match state.mode {
        DriveMode::Stopped => push_safe_stop(&mut cmds),
        _ => cmds.push(MotorCommand::RunForever),
    }
    assert(cmds@ =~= apply_plan(*state));
    cmds
}

/// Shifting straight between forward and backward brakes and waits for the
/// wheels to rest before any new wheel speed is set, whether the gear alone
/// changes or a whole driving command arrives.
pub proof fn lemma_reversal_brakes_first(state: ControlState, cmd: DriveCommand)
    requires
        reverses(state.mode, cmd.mode),
    ensures
        set_mode_plan(state, cmd.mode).take(3) == safe_stop(),
        set_mode_plan(state, cmd.mode)[3] == wheel_speeds(
            ControlState { mode: cmd.mode, ..state }.command_spec(),
        ),
        (interlock(state.mode, cmd.mode) + apply_plan(state_of(cmd))).take(3) == safe_stop(),
        (interlock(state.mode, cmd.mode) + apply_plan(state_of(cmd)))[3] == wheel_speeds(
            state_of(cmd).command_spec(),
        ),
{
    assert(set_mode_plan(state, cmd.mode).take(3) =~= safe_stop());
    assert((interlock(state.mode, cmd.mode) + apply_plan(state_of(cmd))).take(3) =~= safe_stop());
}

} // verus!
