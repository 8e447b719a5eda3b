//! Session state behind the host-facing entry points.
//!
//! A `Session` exists between load and dispose. Each entry point is one
//! method here, so the host-facing layer only decodes its arguments, calls
//! the method, and encodes the result.

use vstd::prelude::*;
use crate::beacon::BeaconData;
use crate::control_command::{BrakeNotch, ControlCommand, PowerNotch, Reverser};

verus! {

/// The packed version `0xMMmmpppp`: major 2, minor 0, patch 0.
pub const PLUGIN_VERSION: i32 = 0x00020000;

/// The version reported to the host.
pub fn plugin_version() -> (r: i32)
    ensures
        r == 0x00020000,
{
    PLUGIN_VERSION
}

/// Static characteristics of the vehicle, set once per session.
#[derive(Debug, Clone, Copy, PartialEq, Eq, Structural)]
pub struct VehicleSpec {
    /// Number of brake notches
    pub brake_notches: i32,
    /// Number of power notches
    pub power_notches: i32,
    /// Brake notch used for the ATS check
    pub ats_notch: i32,
    /// The B67 notch
    pub b67_notch: i32,
    /// Number of cars in the train
    pub cars: i32,
}

/// Handle positions handed back to the host after a step, as integer codes.
#[derive(Debug, Clone, Copy, PartialEq, Eq, Structural)]
pub struct Handles {
    /// Brake notch code
    pub brake: i32,
    /// Power notch code
    pub power: i32,
    /// Reverser code
    pub reverser: i32,
    /// Constant-speed mode code
    pub constant_speed: i32,
}

impl Handles {
    /// The encoding of a command, with constant-speed mode off.
    pub open spec fn from_command_spec(cmd: ControlCommand) -> Handles {
        Handles {
            brake: cmd.brake.code() as i32,
            power: cmd.power.code() as i32,
            reverser: cmd.reverser.code() as i32,
            constant_speed: 0,
        }
    }

    /// Every handle at code zero.
    pub open spec fn is_zero(self) -> bool {
        self.brake == 0 && self.power == 0 && self.reverser == 0 && self.constant_speed == 0
    }

    /// Encodes a command, with constant-speed mode off.
    pub fn from_command(cmd: ControlCommand) -> (r: Handles)
        ensures
            r == Handles::from_command_spec(cmd),
            r.brake == cmd.brake.code(),
            r.power == cmd.power.code(),
            r.reverser == cmd.reverser.code(),
    {
        Handles {
            brake: cmd.brake.to_int(),
            power: cmd.power.to_int(),
            reverser: cmd.reverser.to_int(),
            constant_speed: 0,
        }
    }
}

impl Default for Handles {
    /// Every handle at code zero, which is the neutral command.
    fn default() -> (r: Handles)
        ensures
            r.is_zero(),
    {
        Handles { brake: 0, power: 0, reverser: 0, constant_speed: 0 }
    }
}

/// What the plugin knows between load and dispose.
#[derive(Debug, Clone, Copy)]
pub struct Session {
    /// The vehicle's characteristics, once the host has sent them
    pub vehicle_spec: Option<VehicleSpec>,
    /// The positions that the driver has set on the handles
    pub driver: ControlCommand,
    /// The current signal aspect index
    pub signal: i32,
    /// Whether the doors are open
    pub doors_open: bool,
    /// The last beacon passed in this run
    pub last_beacon: Option<BeaconData>,
}

impl Session {
    /// A fresh session, as created on load: nothing configured, handles
    /// neutral, doors closed, no beacon seen.
    pub fn new() -> (r: Session)
        ensures
            r.vehicle_spec.is_none(),
            r.driver == ControlCommand::spec_neutral(),
            r.signal == 0,
            !r.doors_open,
            r.last_beacon.is_none(),
    {
        Session {
            vehicle_spec: None,
            driver: ControlCommand::neutral(),
            signal: 0,
            doors_open: false,
            last_beacon: None,
        }
    }

    /// Stores the vehicle's characteristics.
    pub fn set_vehicle_spec(&mut self, spec: VehicleSpec)
        ensures
            *final(self) == (Session { vehicle_spec: Some(spec), ..*old(self) }),
    {
        self.vehicle_spec = Some(spec);
    }

    /// Starts a new run with the driver's brake at the decoded `brake` code
    /// and no power; forgets the beacons of the previous run.
    pub fn initialize(&mut self, brake: i32)
        ensures
            final(self).driver.brake == BrakeNotch::from_code(brake as int),
            final(self).driver.power == PowerNotch::N,
            final(self).driver.reverser == old(self).driver.reverser,
            final(self).last_beacon.is_none(),
            final(self).vehicle_spec == old(self).vehicle_spec,
            final(self).signal == old(self).signal,
            final(self).doors_open == old(self).doors_open,
    {
        self.driver = ControlCommand::new(PowerNotch::N, BrakeNotch::from_int(brake), self.driver.reverser);
        self.last_beacon = None;
    }

    /// One simulation step: the command to apply. No control law is active,
    /// so the command is the neutral one, encoded as all zeros; in
    /// particular before the vehicle is configured.
    pub fn elapse(&self) -> (r: Handles)
        ensures
            r.is_zero(),
            r == Handles::from_command_spec(ControlCommand::spec_neutral()),
    {
        Handles::from_command(ControlCommand::neutral())
    }

    /// The driver moved the power handle to the decoded `notch` code.
    pub fn set_power(&mut self, notch: i32)
        ensures
            *final(self) == (Session {
                driver: ControlCommand { power: PowerNotch::from_code(notch as int), ..old(self).driver },
                ..*old(self)
            }),
    {
        self.driver.power = PowerNotch::from_int(notch);
    }

    /// The driver moved the brake handle to the decoded `notch` code.
    pub fn set_brake(&mut self, notch: i32)
        ensures
            *final(self) == (Session {
                driver: ControlCommand { brake: BrakeNotch::from_code(notch as int), ..old(self).driver },
                ..*old(self)
            }),
    {
        self.driver.brake = BrakeNotch::from_int(notch);
    }

    /// The driver moved the reverser to the decoded `position` code.
    pub fn set_reverser(&mut self, position: i32)
        ensures
            *final(self) == (Session {
                driver: ControlCommand {
                    reverser: Reverser::from_code(position as int),
                    ..old(self).driver
                },
                ..*old(self)
            }),
    {
        self.driver.reverser = Reverser::from_int(position);
    }

    /// The doors opened.
    pub fn door_open(&mut self)
        ensures
            *final(self) == (Session { doors_open: true, ..*old(self) }),
    {
        self.doors_open = true;
    }

    /// The doors closed.
    pub fn door_close(&mut self)
        ensures
            *final(self) == (Session { doors_open: false, ..*old(self) }),
    {
        self.doors_open = false;
    }

    /// The signal aspect changed.
    pub fn set_signal(&mut self, signal: i32)
        ensures
            *final(self) == (Session { signal, ..*old(self) }),
    {
        self.signal = signal;
    }

    /// The train passed a beacon.
    pub fn set_beacon_data(&mut self, beacon: BeaconData)
        ensures
            *final(self) == (Session { last_beacon: Some(beacon), ..*old(self) }),
    {
        self.last_beacon = Some(beacon);
    }
}

} // verus!
