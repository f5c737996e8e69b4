//! Input events: the commands a client can send to the simulated aircraft.

use crate::errors::DecodeError;
use crate::internals::names_of;
use crate::internals::name_position;
use crate::internals::parse_name;
use crate::internals::IterEnum;
use crate::internals::lemma_plain_name;
use crate::internals::ToSimConnect;
use crate::internals::UnknownName;
use vstd::prelude::*;
use vstd::std_specs::convert::FromSpecImpl;

verus! {

/// A command with a name for the host and a number for the client.
pub trait InputEvent: ToSimConnect + Into<u32> {
}

/// Landing gear and brakes.
#[derive(Debug, Clone, Copy, Hash, PartialEq, Eq, Structural)]
pub enum GearAndBrakes {
    AntiskidBrakeToggled,
    Brakes,
    BrakesLeft,
    BrakesRight,
    GearDown,
    GearEmergencyHandleToggled,
    GearPump,
    GearUp,
    ParkingBrakes,
}

impl GearAndBrakes {
    /// The number the host knows the variant by.
    pub open spec fn code(self) -> int {
        match self {
            GearAndBrakes::AntiskidBrakeToggled => 0,
            GearAndBrakes::Brakes => 1,
            GearAndBrakes::BrakesLeft => 2,
            GearAndBrakes::BrakesRight => 3,
            GearAndBrakes::GearDown => 4,
            GearAndBrakes::GearEmergencyHandleToggled => 5,
            GearAndBrakes::GearPump => 6,
            GearAndBrakes::GearUp => 7,
            GearAndBrakes::ParkingBrakes => 8,
        }
    }

    /// The variant with the given number, if there is one.
    pub open spec fn from_code(number: int) -> Option<GearAndBrakes> {
        if 0 <= number < Self::variants().len() {
            Some(Self::variants()[number])
        } else {
            None
        }
    }

    /// The host's spelling of the variant.
    pub open spec fn name(self) -> Seq<char> {
        match self {
            GearAndBrakes::AntiskidBrakeToggled => "ANTISKID_BRAKES_TOGGLE"@,
            GearAndBrakes::Brakes => "BRAKES"@,
            GearAndBrakes::BrakesLeft => "BRAKES_LEFT"@,
            GearAndBrakes::BrakesRight => "BRAKES_RIGHT"@,
            GearAndBrakes::GearDown => "GEAR_DOWN"@,
            GearAndBrakes::GearEmergencyHandleToggled => "GEAR_EMERGENCY_HANDLE_TOGGLE"@,
            GearAndBrakes::GearPump => "GEAR_PUMP"@,
            GearAndBrakes::GearUp => "GEAR_UP"@,
            GearAndBrakes::ParkingBrakes => "PARKING_BRAKES"@,
        }
    }

    pub fn as_str(&self) -> (s: &'static str)
        ensures
            s@ == self.name(),
    {
        match self {
            GearAndBrakes::AntiskidBrakeToggled => "ANTISKID_BRAKES_TOGGLE",
            GearAndBrakes::Brakes => "BRAKES",
            GearAndBrakes::BrakesLeft => "BRAKES_LEFT",
            GearAndBrakes::BrakesRight => "BRAKES_RIGHT",
            GearAndBrakes::GearDown => "GEAR_DOWN",
            GearAndBrakes::GearEmergencyHandleToggled => "GEAR_EMERGENCY_HANDLE_TOGGLE",
            GearAndBrakes::GearPump => "GEAR_PUMP",
            GearAndBrakes::GearUp => "GEAR_UP",
            GearAndBrakes::ParkingBrakes => "PARKING_BRAKES",
        }
    }

    /// Resolves a number against the enumeration.
    pub fn try_from_primitive(number: u32) -> (r: Result<GearAndBrakes, DecodeError>)
        ensures
            r == match Self::from_code(number as int) {
                Some(v) => Ok::<GearAndBrakes, DecodeError>(v),
                None => Err(DecodeError::UnknownDiscriminant),
            },
            r matches Ok(v) ==> v.code() == number,
    {
        match number {
            0 => Ok(GearAndBrakes::AntiskidBrakeToggled),
            1 => Ok(GearAndBrakes::Brakes),
            2 => Ok(GearAndBrakes::BrakesLeft),
            3 => Ok(GearAndBrakes::BrakesRight),
            4 => Ok(GearAndBrakes::GearDown),
            5 => Ok(GearAndBrakes::GearEmergencyHandleToggled),
            6 => Ok(GearAndBrakes::GearPump),
            7 => Ok(GearAndBrakes::GearUp),
            8 => Ok(GearAndBrakes::ParkingBrakes),
            _ => Err(DecodeError::UnknownDiscriminant),
        }
    }

    /// Parses a name without regard to case; of two variants that the text
    /// matches, the one declared first wins.
    pub fn from_str(text: &str) -> (r: Result<GearAndBrakes, UnknownName>)
        ensures
            r == match name_position(names_of(Self::variants()), text@) {
                Some(i) => Ok::<GearAndBrakes, UnknownName>(Self::variants()[i]),
                None => Err(UnknownName),
            },
    {
        parse_name::<GearAndBrakes>(text)
    }
}

impl IterEnum for GearAndBrakes {
    type Item = GearAndBrakes;

    open spec fn variants() -> Seq<GearAndBrakes> {
        seq![
            GearAndBrakes::AntiskidBrakeToggled,
            GearAndBrakes::Brakes,
            GearAndBrakes::BrakesLeft,
            GearAndBrakes::BrakesRight,
            GearAndBrakes::GearDown,
            GearAndBrakes::GearEmergencyHandleToggled,
            GearAndBrakes::GearPump,
            GearAndBrakes::GearUp,
            GearAndBrakes::ParkingBrakes,
        ]
    }

    fn iter_enum() -> (all: Vec<GearAndBrakes>) {
        vec![
            GearAndBrakes::AntiskidBrakeToggled,
            GearAndBrakes::Brakes,
            GearAndBrakes::BrakesLeft,
            GearAndBrakes::BrakesRight,
            GearAndBrakes::GearDown,
            GearAndBrakes::GearEmergencyHandleToggled,
            GearAndBrakes::GearPump,
            GearAndBrakes::GearUp,
            GearAndBrakes::ParkingBrakes,
        ]
    }
}

impl ToSimConnect for GearAndBrakes {
    open spec fn sim_name(&self) -> Seq<char> {
        self.name()
    }

    proof fn lemma_sim_name(&self) {
        match self {
            GearAndBrakes::AntiskidBrakeToggled => reveal_strlit("ANTISKID_BRAKES_TOGGLE"),
            GearAndBrakes::Brakes => reveal_strlit("BRAKES"),
            GearAndBrakes::BrakesLeft => reveal_strlit("BRAKES_LEFT"),
            GearAndBrakes::BrakesRight => reveal_strlit("BRAKES_RIGHT"),
            GearAndBrakes::GearDown => reveal_strlit("GEAR_DOWN"),
            GearAndBrakes::GearEmergencyHandleToggled => reveal_strlit("GEAR_EMERGENCY_HANDLE_TOGGLE"),
            GearAndBrakes::GearPump => reveal_strlit("GEAR_PUMP"),
            GearAndBrakes::GearUp => reveal_strlit("GEAR_UP"),
            GearAndBrakes::ParkingBrakes => reveal_strlit("PARKING_BRAKES"),
        }
        lemma_plain_name(self.name());
    }

    fn to_string(&self) -> (s: String) {
        self.as_str().to_owned()
    }
}

impl InputEvent for GearAndBrakes {
}

impl From<GearAndBrakes> for u32 {
    fn from(v: GearAndBrakes) -> (n: u32) {
        match v {
            GearAndBrakes::AntiskidBrakeToggled => 0,
            GearAndBrakes::Brakes => 1,
            GearAndBrakes::BrakesLeft => 2,
            GearAndBrakes::BrakesRight => 3,
            GearAndBrakes::GearDown => 4,
            GearAndBrakes::GearEmergencyHandleToggled => 5,
            GearAndBrakes::GearPump => 6,
            GearAndBrakes::GearUp => 7,
            GearAndBrakes::ParkingBrakes => 8,
        }
    }
}

impl FromSpecImpl<GearAndBrakes> for u32 {
    open spec fn obeys_from_spec() -> bool {
        true
    }

    open spec fn from_spec(v: GearAndBrakes) -> u32 {
        v.code() as u32
    }
}

/// Master caution and master warning.
#[derive(Debug, Clone, Copy, Hash, PartialEq, Eq, Structural)]
pub enum Failures {
    MasterCautionAck,
    MasterCautionOff,
    MasterCautionOn,
    MasterCautionSet,
    MasterCautionToggle,
    MasterWarningAck,
    MasterWarningOff,
    MasterWarningOn,
    MasterWarningSet,
    MasterWarningToggle,
}

impl Failures {
    /// The number the host knows the variant by.
    pub open spec fn code(self) -> int {
        match self {
            Failures::MasterCautionAck => 9,
            Failures::MasterCautionOff => 10,
            Failures::MasterCautionOn => 11,
            Failures::MasterCautionSet => 12,
            Failures::MasterCautionToggle => 13,
            Failures::MasterWarningAck => 14,
            Failures::MasterWarningOff => 15,
            Failures::MasterWarningOn => 16,
            Failures::MasterWarningSet => 17,
            Failures::MasterWarningToggle => 18,
        }
    }

    /// The variant with the given number, if there is one.
    pub open spec fn from_code(number: int) -> Option<Failures> {
        if 9 <= number < 9 + Self::variants().len() {
            Some(Self::variants()[number - 9])
        } else {
            None
        }
    }

    /// The host's spelling of the variant.
    pub open spec fn name(self) -> Seq<char> {
        match self {
            Failures::MasterCautionAck => "MASTER_CAUTION_ACKNOWLEDGE"@,
            Failures::MasterCautionOff => "MASTER_CAUTION_OFF"@,
            Failures::MasterCautionOn => "MASTER_CAUTION_ON"@,
            Failures::MasterCautionSet => "MASTER_CAUTION_SET"@,
            Failures::MasterCautionToggle => "MASTER_CAUTION_TOGGLE"@,
            Failures::MasterWarningAck => "MASTER_WARNING_ACKNOWLEDGE"@,
            Failures::MasterWarningOff => "MASTER_WARNING_OFF"@,
            Failures::MasterWarningOn => "MASTER_WARNING_ON"@,
            Failures::MasterWarningSet => "MASTER_WARNING_SET"@,
            Failures::MasterWarningToggle => "MASTER_WARNING_TOGGLE"@,
        }
    }

    pub fn as_str(&self) -> (s: &'static str)
        ensures
            s@ == self.name(),
    {
        match self {
            Failures::MasterCautionAck => "MASTER_CAUTION_ACKNOWLEDGE",
            Failures::MasterCautionOff => "MASTER_CAUTION_OFF",
            Failures::MasterCautionOn => "MASTER_CAUTION_ON",
            Failures::MasterCautionSet => "MASTER_CAUTION_SET",
            Failures::MasterCautionToggle => "MASTER_CAUTION_TOGGLE",
            Failures::MasterWarningAck => "MASTER_WARNING_ACKNOWLEDGE",
            Failures::MasterWarningOff => "MASTER_WARNING_OFF",
            Failures::MasterWarningOn => "MASTER_WARNING_ON",
            Failures::MasterWarningSet => "MASTER_WARNING_SET",
            Failures::MasterWarningToggle => "MASTER_WARNING_TOGGLE",
        }
    }

    /// Resolves a number against the enumeration.
    pub fn try_from_primitive(number: u32) -> (r: Result<Failures, DecodeError>)
        ensures
            r == match Self::from_code(number as int) {
                Some(v) => Ok::<Failures, DecodeError>(v),
                None => Err(DecodeError::UnknownDiscriminant),
            },
            r matches Ok(v) ==> v.code() == number,
    {
        match number {
            9 => Ok(Failures::MasterCautionAck),
            10 => Ok(Failures::MasterCautionOff),
            11 => Ok(Failures::MasterCautionOn),
            12 => Ok(Failures::MasterCautionSet),
            13 => Ok(Failures::MasterCautionToggle),
            14 => Ok(Failures::MasterWarningAck),
            15 => Ok(Failures::MasterWarningOff),
            16 => Ok(Failures::MasterWarningOn),
            17 => Ok(Failures::MasterWarningSet),
            18 => Ok(Failures::MasterWarningToggle),
            _ => Err(DecodeError::UnknownDiscriminant),
        }
    }

    /// Parses a name without regard to case; of two variants that the text
    /// matches, the one declared first wins.
    pub fn from_str(text: &str) -> (r: Result<Failures, UnknownName>)
        ensures
            r == match name_position(names_of(Self::variants()), text@) {
                Some(i) => Ok::<Failures, UnknownName>(Self::variants()[i]),
                None => Err(UnknownName),
            },
    {
        parse_name::<Failures>(text)
    }
}

impl IterEnum for Failures {
    type Item = Failures;

    open spec fn variants() -> Seq<Failures> {
        seq![
            Failures::MasterCautionAck,
            Failures::MasterCautionOff,
            Failures::MasterCautionOn,
            Failures::MasterCautionSet,
            Failures::MasterCautionToggle,
            Failures::MasterWarningAck,
            Failures::MasterWarningOff,
            Failures::MasterWarningOn,
            Failures::MasterWarningSet,
            Failures::MasterWarningToggle,
        ]
    }

    fn iter_enum() -> (all: Vec<Failures>) {
        vec![
            Failures::MasterCautionAck,
            Failures::MasterCautionOff,
            Failures::MasterCautionOn,
            Failures::MasterCautionSet,
            Failures::MasterCautionToggle,
            Failures::MasterWarningAck,
            Failures::MasterWarningOff,
            Failures::MasterWarningOn,
            Failures::MasterWarningSet,
            Failures::MasterWarningToggle,
        ]
    }
}

impl ToSimConnect for Failures {
    open spec fn sim_name(&self) -> Seq<char> {
        self.name()
    }

    proof fn lemma_sim_name(&self) {
        match self {
            Failures::MasterCautionAck => reveal_strlit("MASTER_CAUTION_ACKNOWLEDGE"),
            Failures::MasterCautionOff => reveal_strlit("MASTER_CAUTION_OFF"),
            Failures::MasterCautionOn => reveal_strlit("MASTER_CAUTION_ON"),
            Failures::MasterCautionSet => reveal_strlit("MASTER_CAUTION_SET"),
            Failures::MasterCautionToggle => reveal_strlit("MASTER_CAUTION_TOGGLE"),
            Failures::MasterWarningAck => reveal_strlit("MASTER_WARNING_ACKNOWLEDGE"),
            Failures::MasterWarningOff => reveal_strlit("MASTER_WARNING_OFF"),
            Failures::MasterWarningOn => reveal_strlit("MASTER_WARNING_ON"),
            Failures::MasterWarningSet => reveal_strlit("MASTER_WARNING_SET"),
            Failures::MasterWarningToggle => reveal_strlit("MASTER_WARNING_TOGGLE"),
        }
        lemma_plain_name(self.name());
    }

    fn to_string(&self) -> (s: String) {
        self.as_str().to_owned()
    }
}

impl InputEvent for Failures {
}

impl From<Failures> for u32 {
    fn from(v: Failures) -> (n: u32) {
        match v {
            Failures::MasterCautionAck => 9,
            Failures::MasterCautionOff => 10,
            Failures::MasterCautionOn => 11,
            Failures::MasterCautionSet => 12,
            Failures::MasterCautionToggle => 13,
            Failures::MasterWarningAck => 14,
            Failures::MasterWarningOff => 15,
            Failures::MasterWarningOn => 16,
            Failures::MasterWarningSet => 17,
            Failures::MasterWarningToggle => 18,
        }
    }
}

impl FromSpecImpl<Failures> for u32 {
    open spec fn obeys_from_spec() -> bool {
        true
    }

    open spec fn from_spec(v: Failures) -> u32 {
        v.code() as u32
    }
}

} // verus!
