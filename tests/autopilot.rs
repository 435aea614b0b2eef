use ev3_drive::autopilot::{
    cruise_duty_cycle, evade_triggered, random_evade_turn, AutoDrive, AvoidanceState, EvadeTurn,
    LoopEvent, ProximityReading,
};
use ev3_drive::motor::{Cue, MotorCommand, StopAction};

const SAFE_STOP: [MotorCommand; 3] = [
    MotorCommand::SetStopAction(StopAction::Brake),
    MotorCommand::Stop,
    MotorCommand::WaitUntilNotMoving,
];

fn cm(distance_cm: f64) -> ProximityReading {
    ProximityReading { distance_um: (distance_cm * 10000.0).round() as u32, touching: false }
}

fn sample(distance_cm: f64) -> LoopEvent {
    LoopEvent::Sample(cm(distance_cm))
}

const LEFT_TURN: EvadeTurn = EvadeTurn { pivot_left: true, duration_ms: 400 };

fn evade_commands(turn: EvadeTurn) -> Vec<MotorCommand> {
    let left = if turn.pivot_left { -750 } else { 750 };
    let mut v = SAFE_STOP.to_vec();
    v.extend([
        MotorCommand::Feedback(Cue::EvadeStart),
        MotorCommand::SetSpeed { left: -500, right: -500 },
        MotorCommand::RunTimed(1500),
        MotorCommand::WaitUntilRunning,
        MotorCommand::WaitUntilNotMoving,
        MotorCommand::SetSpeed { left, right: -left },
        MotorCommand::RunTimed(turn.duration_ms),
        MotorCommand::WaitUntilRunning,
        MotorCommand::WaitUntilNotMoving,
        MotorCommand::Feedback(Cue::EvadeEnd),
        MotorCommand::SetDutyCycle(100),
        MotorCommand::RunDirect,
    ]);
    v
}

#[test]
fn cruise_speed_law() {
    assert_eq!(cruise_duty_cycle(cm(15.0).distance_um), 0);
    assert_eq!(cruise_duty_cycle(cm(5.0).distance_um), 0);
    assert_eq!(cruise_duty_cycle(0), 0);
    assert_eq!(cruise_duty_cycle(cm(40.0).distance_um), 100);
    assert_eq!(cruise_duty_cycle(cm(255.0).distance_um), 100);
    assert_eq!(cruise_duty_cycle(u32::MAX), 100);
    assert_eq!(cruise_duty_cycle(cm(27.5).distance_um), 50);
    assert_eq!(cruise_duty_cycle(cm(30.0).distance_um), 60);
    assert_eq!(cruise_duty_cycle(cm(16.0).distance_um), 4);
}

#[test]
fn evade_trigger_boundary() {
    assert!(!evade_triggered(cm(15.0)));
    assert!(evade_triggered(cm(14.999)));
    assert!(evade_triggered(ProximityReading { distance_um: 2_000_000, touching: true }));
    assert!(!evade_triggered(cm(80.0)));
}

#[test]
fn start_drives_straight_at_full_power() {
    let (d, cmds) = AutoDrive::start();
    assert_eq!(d.state, AvoidanceState::Cruising);
    assert_eq!(cmds, vec![MotorCommand::SetDutyCycle(100), MotorCommand::RunDirect]);
}

#[test]
fn scripted_distances_cruise_then_evade() {
    let (mut d, _) = AutoDrive::start();
    let c1 = d.step(sample(50.0), LEFT_TURN);
    assert_eq!(d.state, AvoidanceState::Cruising);
    assert_eq!(c1, vec![MotorCommand::SetDutyCycle(100), MotorCommand::Pause(1000)]);
    assert!(d.step(LoopEvent::PollElapsed { stop_requested: false }, LEFT_TURN).is_empty());

    let c2 = d.step(sample(30.0), LEFT_TURN);
    assert_eq!(d.state, AvoidanceState::Cruising);
    assert_eq!(c2, vec![MotorCommand::SetDutyCycle(60), MotorCommand::Pause(1000)]);
    assert!(d.step(LoopEvent::PollElapsed { stop_requested: false }, LEFT_TURN).is_empty());

    let c3 = d.step(sample(10.0), LEFT_TURN);
    assert_eq!(d.state, AvoidanceState::Evading);
    assert_eq!(c3, evade_commands(LEFT_TURN));
    assert!(!c3.iter().any(|c| matches!(c, MotorCommand::Pause(_))));

    // Still too near: evade again before any cruise decision.
    let right = EvadeTurn { pivot_left: false, duration_ms: 700 };
    let c4 = d.step(sample(5.0), right);
    assert_eq!(d.state, AvoidanceState::Evading);
    assert_eq!(c4, evade_commands(right));
}

#[test]
fn touch_triggers_evade_even_when_far() {
    let (mut d, _) = AutoDrive::start();
    let c = d.step(LoopEvent::Sample(ProximityReading { distance_um: 1_000_000, touching: true }), LEFT_TURN);
    assert_eq!(d.state, AvoidanceState::Evading);
    assert_eq!(c, evade_commands(LEFT_TURN));
}

#[test]
fn stop_request_after_manoeuvre_ends_with_brake_and_rest() {
    let (mut d, _) = AutoDrive::start();
    d.step(sample(10.0), LEFT_TURN);
    d.step(sample(35.0), LEFT_TURN);
    assert_eq!(d.state, AvoidanceState::Cruising);
    let c = d.step(LoopEvent::PollElapsed { stop_requested: true }, LEFT_TURN);
    assert_eq!(d.state, AvoidanceState::Stopped);
    assert!(d.is_finished());
    assert_eq!(c, SAFE_STOP.to_vec());
    assert_eq!(c.last(), Some(&MotorCommand::WaitUntilNotMoving));
    // A finished run issues nothing more.
    assert!(d.step(sample(50.0), LEFT_TURN).is_empty());
    assert!(d.step(LoopEvent::Fault, LEFT_TURN).is_empty());
    assert_eq!(d.state, AvoidanceState::Stopped);
}

#[test]
fn fault_ends_run_with_brake_and_rest() {
    let (mut d, _) = AutoDrive::start();
    d.step(sample(12.0), LEFT_TURN);
    let c = d.step(LoopEvent::Fault, LEFT_TURN);
    assert_eq!(d.state, AvoidanceState::Stopped);
    assert_eq!(c, SAFE_STOP.to_vec());
}

#[test]
fn random_turns_stay_in_range_and_vary() {
    let mut lefts = 0;
    let mut durations = std::collections::BTreeSet::new();
    for _ in 0..400 {
        let t = random_evade_turn();
        assert!((250..=750).contains(&t.duration_ms));
        if t.pivot_left {
            lefts += 1;
        }
        durations.insert(t.duration_ms);
    }
    assert!(lefts > 0 && lefts < 400);
    assert!(durations.len() > 1);
    assert!(durations.iter().any(|&ms| ms != 250));
}

#[test]
fn random_step_evades_within_turn_range() {
    let (mut d, _) = AutoDrive::start();
    let c = d.step_with_random_turn(sample(3.0));
    assert_eq!(d.state, AvoidanceState::Evading);
    assert_eq!(c.len(), 15);
    match c[9] {
        MotorCommand::RunTimed(ms) => assert!((250..=750).contains(&ms)),
        other => panic!("unexpected command {:?}", other),
    }
    let c2 = d.step_with_random_turn(sample(40.0));
    assert_eq!(c2, vec![MotorCommand::SetDutyCycle(100), MotorCommand::Pause(1000)]);
}
