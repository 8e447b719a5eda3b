use bve_autopilot::control_command::{BrakeNotch, ControlCommand, PowerNotch};
use bve_autopilot::observable::Observable;
use bve_autopilot::quantity::Distance;
use bve_autopilot::section::Section;

#[test]
fn test_control_command_creation() {
    let cmd = ControlCommand::neutral();
    assert_eq!(cmd.power, PowerNotch::N);
    assert_eq!(cmd.brake, BrakeNotch::Released);
}

#[test]
fn test_section_basic_operations() {
    let section = Section::from_meters(0, 100);

    assert!(section.contains(Distance::from_meters(50)));
    assert!(!section.contains(Distance::from_meters(150)));
}

#[test]
fn test_observable_tracking() {
    let mut value = Observable::new(0);

    assert!(!value.has_changed());

    value.set(10);
    assert!(value.has_changed());
    assert_eq!(*value.get(), 10);

    value.clear_change();
    assert!(!value.has_changed());
}
