use bve_autopilot::control_command::{BrakeNotch, ControlCommand, PowerNotch, Reverser};

#[test]
fn test_brake_notch_conversion() {
    assert_eq!(BrakeNotch::from_int(0), BrakeNotch::Released);
    assert_eq!(BrakeNotch::from_int(5), BrakeNotch::B5);
    assert_eq!(BrakeNotch::from_int(9), BrakeNotch::Emergency);
    assert_eq!(BrakeNotch::from_int(20), BrakeNotch::Extended(20));
}

#[test]
fn test_brake_notch_to_int() {
    assert_eq!(BrakeNotch::Released.to_int(), 0);
    assert_eq!(BrakeNotch::B8.to_int(), 8);
    assert_eq!(BrakeNotch::Emergency.to_int(), 9);
    assert_eq!(BrakeNotch::Extended(25).to_int(), 25);
}

#[test]
fn test_power_notch_conversion() {
    assert_eq!(PowerNotch::from_int(0), PowerNotch::N);
    assert_eq!(PowerNotch::from_int(3), PowerNotch::P3);
    assert_eq!(PowerNotch::from_int(5), PowerNotch::P5);
}

#[test]
fn test_reverser_conversion() {
    assert_eq!(Reverser::from_int(-1), Reverser::Backward);
    assert_eq!(Reverser::from_int(0), Reverser::Neutral);
    assert_eq!(Reverser::from_int(1), Reverser::Forward);
}

#[test]
fn test_control_command() {
    let cmd = ControlCommand::neutral();
    assert_eq!(cmd.power, PowerNotch::N);
    assert_eq!(cmd.brake, BrakeNotch::Released);

    let emergency = ControlCommand::emergency();
    assert_eq!(emergency.brake, BrakeNotch::Emergency);
}

#[test]
fn brake_round_trip_on_every_valid_code() {
    for v in (0..=9).chain(15..=31) {
        let b = BrakeNotch::from_int(v);
        assert_eq!(b.to_int(), v);
        assert_eq!(BrakeNotch::from_int(b.to_int()), b);
    }
}

#[test]
fn brake_unknown_codes_mean_emergency() {
    for v in [10, 11, 12, 13, 14, 32, 100, -1, i32::MIN, i32::MAX] {
        assert_eq!(BrakeNotch::from_int(v), BrakeNotch::Emergency);
    }
}

#[test]
fn brake_extended_bounds() {
    assert_eq!(BrakeNotch::from_int(15), BrakeNotch::Extended(15));
    assert_eq!(BrakeNotch::from_int(31), BrakeNotch::Extended(31));
}

#[test]
fn brake_named_notches_are_ordered() {
    assert!(BrakeNotch::Released < BrakeNotch::B1);
    assert!(BrakeNotch::B8 < BrakeNotch::Emergency);
}

#[test]
fn power_unknown_codes_mean_no_power() {
    for v in [6, 7, 100, -1, i32::MIN, i32::MAX] {
        assert_eq!(PowerNotch::from_int(v), PowerNotch::N);
    }
    assert_eq!(PowerNotch::P4.to_int(), 4);
    assert!(PowerNotch::N < PowerNotch::P5);
}

#[test]
fn reverser_unknown_codes_mean_neutral() {
    assert_eq!(Reverser::from_int(2), Reverser::Neutral);
    assert_eq!(Reverser::from_int(-2), Reverser::Neutral);
    assert_eq!(Reverser::Backward.to_int(), -1);
    assert_eq!(Reverser::Forward.to_int(), 1);
}

#[test]
fn control_command_new_and_default() {
    let cmd = ControlCommand::new(PowerNotch::P2, BrakeNotch::B3, Reverser::Backward);
    assert_eq!(cmd.power, PowerNotch::P2);
    assert_eq!(cmd.brake, BrakeNotch::B3);
    assert_eq!(cmd.reverser, Reverser::Backward);
    assert_eq!(ControlCommand::default(), ControlCommand::neutral());
    let e = ControlCommand::emergency();
    assert_eq!(e.power, PowerNotch::N);
    assert_eq!(e.reverser, Reverser::Forward);
    assert_eq!(ControlCommand::neutral().reverser, Reverser::Neutral);
}
