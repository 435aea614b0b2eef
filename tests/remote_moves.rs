use ev3_drive::motor::{MotorCommand, StopAction};
use ev3_drive::remote::{move_backward, move_forward, turn_left, turn_right};

fn drive(duty: i32) -> Vec<MotorCommand> {
    vec![
        MotorCommand::SetDutyCycle(duty),
        MotorCommand::RunDirect,
        MotorCommand::WaitUntilRunning,
        MotorCommand::Pause(1000),
        MotorCommand::SetStopAction(StopAction::Coast),
        MotorCommand::Stop,
    ]
}

fn turn(left: i32) -> Vec<MotorCommand> {
    vec![
        MotorCommand::SetSpeed { left, right: -left },
        MotorCommand::RunTimed(150),
        MotorCommand::WaitUntilRunning,
        MotorCommand::WaitUntilNotMoving,
    ]
}

#[test]
fn nudges_forward_and_backward() {
    assert_eq!(move_forward(), drive(100));
    assert_eq!(move_backward(), drive(-100));
}

#[test]
fn turns_on_the_spot() {
    assert_eq!(turn_left(), turn(-750));
    assert_eq!(turn_right(), turn(750));
}
