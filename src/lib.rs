//! Control logic for a two-wheeled differential-drive robot: a mixer from a
//! driving command to per-wheel power, a manual driving session with a
//! direction-reversal interlock, and an obstacle-avoiding autopilot.
//!
//! Every planner here is pure: it returns the motor commands to issue, in
//! order, and the caller performs them against the hardware.

pub mod drive;
pub mod motor;
pub mod manual;
pub mod autopilot;
pub mod remote;
