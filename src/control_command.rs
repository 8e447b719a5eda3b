//! Control commands: brake notch, power notch, reverser, and their bundle.
//!
//! Every integer decoder here is total: a code that names no position falls
//! back to the position that is safe for that control.

use vstd::prelude::*;

verus! {

/// Whether `v` is a brake code that names a position of its own: the nine
/// named notches `0..=9` and the extended levels `15..=31`.
pub open spec fn is_brake_code(v: int) -> bool {
    (0 <= v <= 9) || (15 <= v <= 31)
}

/// Brake notch, ordered by braking strength from released to emergency.
///
/// `Extended(n)` is a finer brake level, meaningful for `n` in `15..=31`.
#[derive(Debug, Clone, Copy, PartialEq, Eq, Structural, PartialOrd, Ord)]
pub enum BrakeNotch {
    /// Brake released
    Released,
    /// Brake notch 1
    B1,
    /// Brake notch 2
    B2,
    /// Brake notch 3
    B3,
    /// Brake notch 4
    B4,
    /// Brake notch 5
    B5,
    /// Brake notch 6
    B6,
    /// Brake notch 7
    B7,
    /// Brake notch 8
    B8,
    /// Emergency brake
    Emergency,
    /// Extended brake level
    Extended(u8),
}

impl BrakeNotch {
    /// The integer code of a brake notch.
    pub open spec fn code(self) -> int {
        match self {
            BrakeNotch::Released => 0,
            BrakeNotch::B1 => 1,
            BrakeNotch::B2 => 2,
            BrakeNotch::B3 => 3,
            BrakeNotch::B4 => 4,
            BrakeNotch::B5 => 5,
            BrakeNotch::B6 => 6,
            BrakeNotch::B7 => 7,
            BrakeNotch::B8 => 8,
            BrakeNotch::Emergency => 9,
            BrakeNotch::Extended(level) => level as int,
        }
    }

    /// The brake notch that a code stands for; any code that names no
    /// position means emergency braking.
    pub open spec fn from_code(v: int) -> BrakeNotch {
        if v == 0 {
            BrakeNotch::Released
        } else if v == 1 {
            BrakeNotch::B1
        } else if v == 2 {
            BrakeNotch::B2
        } else if v == 3 {
            BrakeNotch::B3
        } else if v == 4 {
            BrakeNotch::B4
        } else if v == 5 {
            BrakeNotch::B5
        } else if v == 6 {
            BrakeNotch::B6
        } else if v == 7 {
            BrakeNotch::B7
        } else if v == 8 {
            BrakeNotch::B8
        } else if 15 <= v <= 31 {
            BrakeNotch::Extended(v as u8)
        } else {
            BrakeNotch::Emergency
        }
    }

    /// Converts the brake notch to its integer code.
    pub fn to_int(self) -> (r: i32)
        ensures
            r == self.code(),
    {
        match self {
            BrakeNotch::Released => 0,
            BrakeNotch::B1 => 1,
            BrakeNotch::B2 => 2,
            BrakeNotch::B3 => 3,
            BrakeNotch::B4 => 4,
            BrakeNotch::B5 => 5,
            BrakeNotch::B6 => 6,
            BrakeNotch::B7 => 7,
            BrakeNotch::B8 => 8,
            BrakeNotch::Emergency => 9,
            BrakeNotch::Extended(level) => level as i32,
        }
    }

    /// Decodes an integer code; never fails, and falls back to `Emergency`.
    pub fn from_int(value: i32) -> (r: BrakeNotch)
        ensures
            r == BrakeNotch::from_code(value as int),
            is_brake_code(value as int) ==> r.code() == value,
            !is_brake_code(value as int) ==> r == BrakeNotch::Emergency,
    {
        match value {
            0 => BrakeNotch::Released,
            1 => BrakeNotch::B1,
            2 => BrakeNotch::B2,
            3 => BrakeNotch::B3,
            4 => BrakeNotch::B4,
            5 => BrakeNotch::B5,
            6 => BrakeNotch::B6,
            7 => BrakeNotch::B7,
            8 => BrakeNotch::B8,
            9 => BrakeNotch::Emergency,
            15..=31 => BrakeNotch::Extended(value as u8),
            _ => BrakeNotch::Emergency,
        }
    }
}

/// Decoding the code of a decoded brake notch gives that notch back, for
/// every code that names a position of its own.
pub proof fn lemma_brake_code_round_trip(v: i32)
    requires
        is_brake_code(v as int),
    ensures
        BrakeNotch::from_code(BrakeNotch::from_code(v as int).code()) == BrakeNotch::from_code(
            v as int,
        ),
        BrakeNotch::from_code(v as int).code() == v,
{
}

/// Power notch, ordered by traction strength from neutral to `P5`.
#[derive(Debug, Clone, Copy, PartialEq, Eq, Structural, PartialOrd, Ord)]
pub enum PowerNotch {
    /// Neutral (no power)
    N,
    /// Power notch 1
    P1,
    /// Power notch 2
    P2,
    /// Power notch 3
    P3,
    /// Power notch 4
    P4,
    /// Power notch 5
    P5,
}

impl PowerNotch {
    /// The integer code of a power notch.
    pub open spec fn code(self) -> int {
        match self {
            PowerNotch::N => 0,
            PowerNotch::P1 => 1,
            PowerNotch::P2 => 2,
            PowerNotch::P3 => 3,
            PowerNotch::P4 => 4,
            PowerNotch::P5 => 5,
        }
    }

    /// The power notch that a code stands for; any code outside `0..=5`
    /// means no power.
    pub open spec fn from_code(v: int) -> PowerNotch {
        if v == 1 {
            PowerNotch::P1
        } else if v == 2 {
            PowerNotch::P2
        } else if v == 3 {
            PowerNotch::P3
        } else if v == 4 {
            PowerNotch::P4
        } else if v == 5 {
            PowerNotch::P5
        } else {
            PowerNotch::N
        }
    }

    /// Converts the power notch to its integer code.
    pub fn to_int(self) -> (r: i32)
        ensures
            r == self.code(),
            0 <= r <= 5,
    {
        match self {
            PowerNotch::N => 0,
            PowerNotch::P1 => 1,
            PowerNotch::P2 => 2,
            PowerNotch::P3 => 3,
            PowerNotch::P4 => 4,
            PowerNotch::P5 => 5,
        }
    }

    /// Decodes an integer code; never fails, and falls back to `N`.
    pub fn from_int(value: i32) -> (r: PowerNotch)
        ensures
            r == PowerNotch::from_code(value as int),
            0 <= value <= 5 ==> r.code() == value,
            !(0 <= value <= 5) ==> r == PowerNotch::N,
    {
        match value {
            0 => PowerNotch::N,
            1 => PowerNotch::P1,
            2 => PowerNotch::P2,
            3 => PowerNotch::P3,
            4 => PowerNotch::P4,
            5 => PowerNotch::P5,
            _ => PowerNotch::N,
        }
    }
}

/// Direction selector; it carries no order.
#[derive(Debug, Clone, Copy, PartialEq, Eq, Structural)]
pub enum Reverser {
    /// Forward direction
    Forward,
    /// Neutral (no direction)
    Neutral,
    /// Backward direction
    Backward,
}

impl Reverser {
    /// The integer code of a reverser position.
    pub open spec fn code(self) -> int {
        match self {
            Reverser::Backward => -1,
            Reverser::Neutral => 0,
            Reverser::Forward => 1,
        }
    }

    /// The reverser position that a code stands for; any code but `-1`, `0`
    /// and `1` means neutral.
    pub open spec fn from_code(v: int) -> Reverser {
        if v == -1 {
            Reverser::Backward
        } else if v == 1 {
            Reverser::Forward
        } else {
            Reverser::Neutral
        }
    }

    /// Converts the reverser position to its integer code.
    pub fn to_int(self) -> (r: i32)
        ensures
            r == self.code(),
    {
        match self {
            Reverser::Backward => -1,
            Reverser::Neutral => 0,
            Reverser::Forward => 1,
        }
    }

    /// Decodes an integer code; never fails, and falls back to `Neutral`.
    pub fn from_int(value: i32) -> (r: Reverser)
        ensures
            r == Reverser::from_code(value as int),
            -1 <= value <= 1 ==> r.code() == value,
            !(-1 <= value <= 1) ==> r == Reverser::Neutral,
    {
        match value {
            -1 => Reverser::Backward,
            0 => Reverser::Neutral,
            1 => Reverser::Forward,
            _ => Reverser::Neutral,
        }
    }
}

/// A complete command: power notch, brake notch and reverser together.
#[derive(Debug, Clone, Copy, PartialEq, Eq, Structural)]
pub struct ControlCommand {
    /// Power notch position
    pub power: PowerNotch,
    /// Brake notch position
    pub brake: BrakeNotch,
    /// Reverser position
    pub reverser: Reverser,
}

impl ControlCommand {
    /// The command with no power, brake released and reverser neutral.
    pub open spec fn spec_neutral() -> ControlCommand {
        ControlCommand { power: PowerNotch::N, brake: BrakeNotch::Released, reverser: Reverser::Neutral }
    }

    /// The command with no power, emergency brake and reverser forward.
    pub open spec fn spec_emergency() -> ControlCommand {
        ControlCommand {
            power: PowerNotch::N,
            brake: BrakeNotch::Emergency,
            reverser: Reverser::Forward,
        }
    }

    /// Bundles the three positions into one command.
    pub fn new(power: PowerNotch, brake: BrakeNotch, reverser: Reverser) -> (r: ControlCommand)
        ensures
            r.power == power,
            r.brake == brake,
            r.reverser == reverser,
    {
        ControlCommand { power, brake, reverser }
    }

    /// The safe neutral command: no power, brake released, reverser neutral.
    pub fn neutral() -> (r: ControlCommand)
        ensures
            r == ControlCommand::spec_neutral(),
    {
        ControlCommand { power: PowerNotch::N, brake: BrakeNotch::Released, reverser: Reverser::Neutral }
    }

    /// The safe stopping command: no power, emergency brake, reverser forward.
    pub fn emergency() -> (r: ControlCommand)
        ensures
            r == ControlCommand::spec_emergency(),
    {
        ControlCommand {
            power: PowerNotch::N,
            brake: BrakeNotch::Emergency,
            reverser: Reverser::Forward,
        }
    }
}

impl Default for ControlCommand {
    /// The default command is the neutral one.
    fn default() -> (r: ControlCommand)
        ensures
            r == ControlCommand::spec_neutral(),
    {
        ControlCommand::neutral()
    }
}

} // verus!
