//! The driving command model and the differential drive mixer.

use vstd::prelude::*;

verus! {

/// Wheel power is expressed in parts of this scale: `POWER_SCALE` is the
/// wheel's full rated speed, and the fraction of a power `p` is
/// `p / POWER_SCALE`.
pub const POWER_SCALE: i32 = 10000;

/// The largest accepted speed, in percent.
pub const MAX_SPEED: i32 = 100;

/// The largest magnitude of a turn bias, in percent.
pub const MAX_TURN_BIAS: i32 = 100;

/// The gear the robot is driving in.
#[derive(Clone, Copy, Debug, PartialEq, Eq, Structural)]
pub enum DriveMode {
    Stopped,
    Forward,
    Backward,
}

/// A driving intent: a gear, a speed in percent (`0..=100`) and a turn bias
/// in percent (`-100..=100`). A positive bias slows the right wheel (the
/// robot bears right), a negative one slows the left wheel. Values out of
/// range are clamped before use.
#[derive(Clone, Copy, Debug, PartialEq, Eq, Structural)]
pub struct DriveCommand {
    pub mode: DriveMode,
    pub speed: i32,
    pub turn_bias: i32,
}

/// Signed power of each wheel, in parts of `POWER_SCALE`.
#[derive(Clone, Copy, Debug, PartialEq, Eq, Structural)]
pub struct WheelPowerPair {
    pub left: i32,
    pub right: i32,
}

pub open spec fn clamp(x: int, lo: int, hi: int) -> int {
    if x < lo {
        lo
    } else if x > hi {
        hi
    } else {
        x
    }
}

/// `+1` forward, `-1` backward, `0` when stopped.
pub open spec fn mode_sign(mode: DriveMode) -> int {
    match mode {
        DriveMode::Stopped => 0,
        DriveMode::Forward => 1,
        DriveMode::Backward => -1,
    }
}

/// The command's speed, clamped to `0..=100`.
pub open spec fn clamped_speed(cmd: DriveCommand) -> int {
    clamp(cmd.speed as int, 0, MAX_SPEED as int)
}

/// The command's turn bias, clamped to `-100..=100`.
pub open spec fn clamped_bias(cmd: DriveCommand) -> int {
    clamp(cmd.turn_bias as int, -MAX_TURN_BIAS, MAX_TURN_BIAS as int)
}

/// Percentage of the signed speed that the left wheel receives.
pub open spec fn left_factor(bias: int) -> int {
    if bias < 0 {
        100 + bias
    } else {
        100
    }
}

/// Percentage of the signed speed that the right wheel receives.
pub open spec fn right_factor(bias: int) -> int {
    if bias > 0 {
        100 - bias
    } else {
        100
    }
}

/// Left wheel power of a command, in parts of `POWER_SCALE`.
pub open spec fn left_power(cmd: DriveCommand) -> int {
    mode_sign(cmd.mode) * clamped_speed(cmd) * left_factor(clamped_bias(cmd))
}

/// Right wheel power of a command, in parts of `POWER_SCALE`.
pub open spec fn right_power(cmd: DriveCommand) -> int {
    mode_sign(cmd.mode) * clamped_speed(cmd) * right_factor(clamped_bias(cmd))
}

/// Division that rounds toward zero, for a positive divisor.
pub open spec fn div_toward_zero(a: int, d: int) -> int {
    if a >= 0 {
        a / d
    } else {
        -((-a) / d)
    }
}

/// A power in parts of `POWER_SCALE` expressed in an actuator's native units,
/// where `max_units` is the actuator's full speed; rounded toward zero.
pub open spec fn native_units(power: int, max_units: int) -> int {
    div_toward_zero(power * max_units, POWER_SCALE as int)
}

/// Clamps `x` into `lo..=hi`.
pub fn clamp_i32(x: i32, lo: i32, hi: i32) -> (r: i32)
    requires
        lo <= hi,
    ensures
        r == clamp(x as int, lo as int, hi as int),
{
    if x < lo {
        lo
    } else if x > hi {
        hi
    } else {
        x
    }
}

/// Mixes a driving command into the power of each wheel.
pub fn compute_wheel_powers(cmd: DriveCommand) -> (r: WheelPowerPair)
    ensures
        r.left == left_power(cmd),
        r.right == right_power(cmd),
{
    let speed = clamp_i32(cmd.speed, 0, MAX_SPEED);
    let bias = clamp_i32(cmd.turn_bias, -MAX_TURN_BIAS, MAX_TURN_BIAS);
    let signed: i32 = match cmd.mode {
        DriveMode::Stopped => 0,
        DriveMode::Forward => speed,
        DriveMode::Backward => -speed,
    };
    let left_pct: i32 = if bias < 0 {
        100 + bias
    } else {
        100
    };
    let right_pct: i32 = if bias > 0 {
        100 - bias
    } else {
        100
    };
    assert(signed == mode_sign(cmd.mode) * clamped_speed(cmd));
    assert(-10000 <= signed * left_pct <= 10000) by (nonlinear_arith)
        requires
            -100 <= signed <= 100,
            0 <= left_pct <= 100,
    ;
    assert(-10000 <= signed * right_pct <= 10000) by (nonlinear_arith)
        requires
            -100 <= signed <= 100,
            0 <= right_pct <= 100,
    ;
    WheelPowerPair { left: signed * left_pct, right: signed * right_pct }
}

/// Converts a power in parts of `POWER_SCALE` to an actuator's native units,
/// where `max_units` is the actuator's full speed, rounding toward zero.
pub fn to_native_units(power: i32, max_units: i32) -> (r: i32)
    requires
        -POWER_SCALE <= power <= POWER_SCALE,
        0 <= max_units,
    ensures
        r == native_units(power as int, max_units as int),
{
    let magnitude: i64 = if power >= 0 {
        power as i64
    } else {
        -(power as i64)
    };
    assert(0 <= magnitude * max_units <= 10000 * max_units) by (nonlinear_arith)
        requires
            0 <= magnitude <= 10000,
            0 <= max_units,
    ;
    let product: i64 = magnitude * max_units as i64;
    let q: i64 = product / 10000;
    assert(q <= max_units) by (nonlinear_arith)
        requires
            q == product / 10000,
            0 <= product <= 10000 * max_units,
    ;
    if power >= 0 {
        assert(product == power * max_units);
        q as i32
    } else {
        assert(product == (-power) * max_units) by (nonlinear_arith)
            requires
                magnitude == -power,
                product == magnitude * max_units,
        ;
        assert(power * max_units == -((-power) * max_units)) by (nonlinear_arith);
        -(q as i32)
    }
}

/// Whatever the command, each wheel's power lies within full scale in
/// either direction, and a stopped command gives both wheels no power.
pub proof fn lemma_powers_within_full_scale(cmd: DriveCommand)
    ensures
        -POWER_SCALE <= left_power(cmd) <= POWER_SCALE,
        -POWER_SCALE <= right_power(cmd) <= POWER_SCALE,
        cmd.mode == DriveMode::Stopped ==> left_power(cmd) == 0 && right_power(cmd) == 0,
{
    let signed = mode_sign(cmd.mode) * clamped_speed(cmd);
    let lf = left_factor(clamped_bias(cmd));
    let rf = right_factor(clamped_bias(cmd));
    if cmd.mode == DriveMode::Stopped {
        assert(signed == 0);
        assert(signed * lf == 0 && signed * rf == 0);
    }
    assert(-10000 <= signed * lf <= 10000) by (nonlinear_arith)
        requires
            -100 <= signed <= 100,
            0 <= lf <= 100,
    ;
    assert(-10000 <= signed * rf <= 10000) by (nonlinear_arith)
        requires
            -100 <= signed <= 100,
            0 <= rf <= 100,
    ;
}

/// With no turn bias both wheels get the same power, in magnitude and sign.
pub proof fn lemma_no_bias_drives_straight(cmd: DriveCommand)
    requires
        cmd.turn_bias == 0,
    ensures
        left_power(cmd) == right_power(cmd),
{
}

/// A full turn bias stops the wheel on the side it names, and leaves the
/// other wheel with the power it would have with no bias at all.
pub proof fn lemma_full_bias_halts_inner_wheel(cmd: DriveCommand)
    ensures
        cmd.turn_bias == MAX_TURN_BIAS ==> right_power(cmd) == 0 && left_power(cmd)
            == left_power(DriveCommand { turn_bias: 0, ..cmd }),
        cmd.turn_bias == -MAX_TURN_BIAS ==> left_power(cmd) == 0 && right_power(cmd)
            == right_power(DriveCommand { turn_bias: 0, ..cmd }),
{
}

} // verus!
