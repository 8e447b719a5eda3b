//! Trackside beacon events and their type tags.

use vstd::prelude::*;
use crate::quantity::Distance;

verus! {

/// The category of a beacon; codes with no named category are kept as
/// `Unknown` with the raw code.
#[derive(Debug, Clone, Copy, PartialEq, Eq, Structural)]
pub enum BeaconType {
    /// Stop-target beacon for automatic stopping
    TascStop,
    /// Speed limit beacon
    SpeedLimit,
    /// Gradient information beacon
    Gradient,
    /// Signal beacon
    Signal,
    /// Automatic-operation timing beacon
    AtoTiming,
    /// Speed pattern beacon
    OrpPattern,
    /// Any other code, preserved verbatim
    Unknown(i32),
}

impl BeaconType {
    /// The beacon type that a code stands for.
    pub open spec fn from_code(v: int) -> BeaconType {
        if v == 0 {
            BeaconType::TascStop
        } else if v == 1 {
            BeaconType::SpeedLimit
        } else if v == 2 {
            BeaconType::Gradient
        } else if v == 3 {
            BeaconType::Signal
        } else if v == 4 {
            BeaconType::AtoTiming
        } else if v == 5 {
            BeaconType::OrpPattern
        } else {
            BeaconType::Unknown(v as i32)
        }
    }

    /// The integer code of a beacon type.
    pub open spec fn code(self) -> int {
        match self {
            BeaconType::TascStop => 0,
            BeaconType::SpeedLimit => 1,
            BeaconType::Gradient => 2,
            BeaconType::Signal => 3,
            BeaconType::AtoTiming => 4,
            BeaconType::OrpPattern => 5,
            BeaconType::Unknown(value) => value as int,
        }
    }

    /// Decodes a beacon type code; never fails.
    pub fn from_int(value: i32) -> (r: BeaconType)
        ensures
            r == BeaconType::from_code(value as int),
            r.code() == value,
    {
        match value {
            0 => BeaconType::TascStop,
            1 => BeaconType::SpeedLimit,
            2 => BeaconType::Gradient,
            3 => BeaconType::Signal,
            4 => BeaconType::AtoTiming,
            5 => BeaconType::OrpPattern,
            _ => BeaconType::Unknown(value),
        }
    }

    /// Converts the beacon type to its integer code.
    pub fn to_int(self) -> (r: i32)
        ensures
            r == self.code(),
    {
        match self {
            BeaconType::TascStop => 0,
            BeaconType::SpeedLimit => 1,
            BeaconType::Gradient => 2,
            BeaconType::Signal => 3,
            BeaconType::AtoTiming => 4,
            BeaconType::OrpPattern => 5,
            BeaconType::Unknown(value) => value,
        }
    }
}

/// What the train receives when it passes a beacon.
#[derive(Debug, Clone, Copy, PartialEq, Eq, Structural)]
pub struct BeaconData {
    /// Beacon type code
    pub beacon_type: i32,
    /// Signal index
    pub signal: i32,
    /// Signed distance to the beacon's target
    pub distance: Distance,
    /// Opaque extra data
    pub optional: i32,
}

impl BeaconData {
    /// Bundles the four fields of a beacon event.
    pub fn new(beacon_type: i32, signal: i32, distance: Distance, optional: i32) -> (r: BeaconData)
        ensures
            r.beacon_type == beacon_type,
            r.signal == signal,
            r.distance == distance,
            r.optional == optional,
    {
        BeaconData { beacon_type, signal, distance, optional }
    }

    /// The beacon's type code, decoded.
    pub fn get_type(&self) -> (r: BeaconType)
        ensures
            r == BeaconType::from_code(self.beacon_type as int),
    {
        BeaconType::from_int(self.beacon_type)
    }
}

impl Default for BeaconData {
    /// All fields zero.
    fn default() -> (r: BeaconData)
        ensures
            r.beacon_type == 0,
            r.signal == 0,
            r.distance@ == 0,
            r.optional == 0,
    {
        BeaconData { beacon_type: 0, signal: 0, distance: Distance { millimeters: 0 }, optional: 0 }
    }
}

} // verus!
