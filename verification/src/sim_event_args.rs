//! The enumerations that events and state requests carry.

use crate::errors::DecodeError;
use crate::internals::names_of;
use crate::internals::name_position;
use crate::internals::parse_name;
use crate::internals::IterEnum;
use crate::internals::lemma_plain_name;
use crate::internals::ToSimConnect;
use crate::internals::UnknownName;
use crate::recv_data::FromPtr;
use crate::recv_data::OBJECT_TYPE_AT;
use crate::wire::i32_at;
use crate::wire::in_bounds;
use crate::wire::read_i32;
use vstd::prelude::*;
use vstd::std_specs::convert::FromSpecImpl;

verus! {

/// The kind of object an add or remove event speaks of.
#[derive(Debug, Clone, Copy, Hash, PartialEq, Eq, Structural)]
pub enum SimObjectType {
    User,
    All,
    Aircraft,
    Helicopter,
    Boat,
    Ground,
}

impl SimObjectType {
    /// The number the host knows the variant by.
    pub open spec fn code(self) -> int {
        match self {
            SimObjectType::User => 0,
            SimObjectType::All => 1,
            SimObjectType::Aircraft => 2,
            SimObjectType::Helicopter => 3,
            SimObjectType::Boat => 4,
            SimObjectType::Ground => 5,
        }
    }

    /// The variant with the given number, if there is one.
    pub open spec fn from_code(number: int) -> Option<SimObjectType> {
        if number == 0 {
            Some(SimObjectType::User)
        } else if number == 1 {
            Some(SimObjectType::All)
        } else if number == 2 {
            Some(SimObjectType::Aircraft)
        } else if number == 3 {
            Some(SimObjectType::Helicopter)
        } else if number == 4 {
            Some(SimObjectType::Boat)
        } else if number == 5 {
            Some(SimObjectType::Ground)
        } else {
            None
        }
    }

    /// Resolves a number against the enumeration.
    pub fn try_from_primitive(number: i32) -> (r: Result<SimObjectType, DecodeError>)
        ensures
            r == match Self::from_code(number as int) {
                Some(v) => Ok::<SimObjectType, DecodeError>(v),
                None => Err(DecodeError::UnknownDiscriminant),
            },
            r matches Ok(v) ==> v.code() == number,
    {
        match number {
            0 => Ok(SimObjectType::User),
            1 => Ok(SimObjectType::All),
            2 => Ok(SimObjectType::Aircraft),
            3 => Ok(SimObjectType::Helicopter),
            4 => Ok(SimObjectType::Boat),
            5 => Ok(SimObjectType::Ground),
            _ => Err(DecodeError::UnknownDiscriminant),
        }
    }
}

impl From<SimObjectType> for i32 {
    fn from(v: SimObjectType) -> (n: i32) {
        match v {
            SimObjectType::User => 0,
            SimObjectType::All => 1,
            SimObjectType::Aircraft => 2,
            SimObjectType::Helicopter => 3,
            SimObjectType::Boat => 4,
            SimObjectType::Ground => 5,
        }
    }
}

impl FromSpecImpl<SimObjectType> for i32 {
    open spec fn obeys_from_spec() -> bool {
        true
    }

    open spec fn from_spec(v: SimObjectType) -> i32 {
        v.code() as i32
    }
}

impl View for SimObjectType {
    type V = SimObjectType;

    open spec fn view(&self) -> SimObjectType {
        *self
    }
}

/// The object type of an add or remove event: the number behind the event's
/// own fields, resolved against the enumeration.
pub open spec fn object_type_of(data: Seq<u8>) -> Result<SimObjectType, DecodeError> {
    if !in_bounds(data, OBJECT_TYPE_AT as int, 4) {
        Err(DecodeError::Truncated)
    } else {
        match SimObjectType::from_code(i32_at(data, OBJECT_TYPE_AT as int)) {
            Some(kind) => Ok(kind),
            None => Err(DecodeError::UnknownDiscriminant),
        }
    }
}

impl FromPtr for SimObjectType {
    open spec fn decoded(data: Seq<u8>) -> Result<SimObjectType, DecodeError> {
        object_type_of(data)
    }

    fn from_pointer(data: &[u8]) -> (r: Result<SimObjectType, DecodeError>) {
        match read_i32(data, OBJECT_TYPE_AT) {
            Err(e) => Err(e),
            Ok(number) => SimObjectType::try_from_primitive(number),
        }
    }
}

/// The view the user switched to.
#[derive(Debug, Clone, Copy, Hash, PartialEq, Eq, Structural)]
pub enum SimViewType {
    Cockpit2D,
    CockpitVirtual,
    Ortho,
}

impl SimViewType {
    /// The number the host knows the variant by.
    pub open spec fn code(self) -> int {
        match self {
            SimViewType::Cockpit2D => 1,
            SimViewType::CockpitVirtual => 2,
            SimViewType::Ortho => 4,
        }
    }

    /// The variant with the given number, if there is one.
    pub open spec fn from_code(number: int) -> Option<SimViewType> {
        if number == 1 {
            Some(SimViewType::Cockpit2D)
        } else if number == 2 {
            Some(SimViewType::CockpitVirtual)
        } else if number == 4 {
            Some(SimViewType::Ortho)
        } else {
            None
        }
    }

    /// Resolves a number against the enumeration.
    pub fn try_from_primitive(number: u32) -> (r: Result<SimViewType, DecodeError>)
        ensures
            r == match Self::from_code(number as int) {
                Some(v) => Ok::<SimViewType, DecodeError>(v),
                None => Err(DecodeError::UnknownDiscriminant),
            },
            r matches Ok(v) ==> v.code() == number,
    {
        match number {
            1 => Ok(SimViewType::Cockpit2D),
            2 => Ok(SimViewType::CockpitVirtual),
            4 => Ok(SimViewType::Ortho),
            _ => Err(DecodeError::UnknownDiscriminant),
        }
    }
}

/// The states of the host a client can ask for.
#[derive(Debug, Clone, Copy, Hash, PartialEq, Eq, Structural)]
pub enum SimStateArgs {
    AircraftLoaded,
    DialogMode,
    FlightLoaded,
    FlightPlan,
    Sim,
}

impl SimStateArgs {
    /// The number the host knows the variant by.
    pub open spec fn code(self) -> int {
        match self {
            SimStateArgs::AircraftLoaded => 0,
            SimStateArgs::DialogMode => 1,
            SimStateArgs::FlightLoaded => 2,
            SimStateArgs::FlightPlan => 3,
            SimStateArgs::Sim => 4,
        }
    }

    /// The variant with the given number, if there is one.
    pub open spec fn from_code(number: int) -> Option<SimStateArgs> {
        if 0 <= number < Self::variants().len() {
            Some(Self::variants()[number])
        } else {
            None
        }
    }

    /// The host's spelling of the variant.
    pub open spec fn name(self) -> Seq<char> {
        match self {
            SimStateArgs::AircraftLoaded => "AircraftLoaded"@,
            SimStateArgs::DialogMode => "DialogMode"@,
            SimStateArgs::FlightLoaded => "FlightLoaded"@,
            SimStateArgs::FlightPlan => "FlightPlan"@,
            SimStateArgs::Sim => "Sim"@,
        }
    }

    pub fn as_str(&self) -> (s: &'static str)
        ensures
            s@ == self.name(),
    {
        match self {
            SimStateArgs::AircraftLoaded => "AircraftLoaded",
            SimStateArgs::DialogMode => "DialogMode",
            SimStateArgs::FlightLoaded => "FlightLoaded",
            SimStateArgs::FlightPlan => "FlightPlan",
            SimStateArgs::Sim => "Sim",
        }
    }

    /// Resolves a number against the enumeration.
    pub fn try_from_primitive(number: u32) -> (r: Result<SimStateArgs, DecodeError>)
        ensures
            r == match Self::from_code(number as int) {
                Some(v) => Ok::<SimStateArgs, DecodeError>(v),
                None => Err(DecodeError::UnknownDiscriminant),
            },
            r matches Ok(v) ==> v.code() == number,
    {
        match number {
            0 => Ok(SimStateArgs::AircraftLoaded),
            1 => Ok(SimStateArgs::DialogMode),
            2 => Ok(SimStateArgs::FlightLoaded),
            3 => Ok(SimStateArgs::FlightPlan),
            4 => Ok(SimStateArgs::Sim),
            _ => Err(DecodeError::UnknownDiscriminant),
        }
    }

    /// Parses a name without regard to case; of two variants that the text
    /// matches, the one declared first wins.
    pub fn from_str(text: &str) -> (r: Result<SimStateArgs, UnknownName>)
        ensures
            r == match name_position(names_of(Self::variants()), text@) {
                Some(i) => Ok::<SimStateArgs, UnknownName>(Self::variants()[i]),
                None => Err(UnknownName),
            },
    {
        parse_name::<SimStateArgs>(text)
    }
}

impl IterEnum for SimStateArgs {
    type Item = SimStateArgs;

    open spec fn variants() -> Seq<SimStateArgs> {
        seq![
            SimStateArgs::AircraftLoaded,
            SimStateArgs::DialogMode,
            SimStateArgs::FlightLoaded,
            SimStateArgs::FlightPlan,
            SimStateArgs::Sim,
        ]
    }

    fn iter_enum() -> (all: Vec<SimStateArgs>) {
        vec![
            SimStateArgs::AircraftLoaded,
            SimStateArgs::DialogMode,
            SimStateArgs::FlightLoaded,
            SimStateArgs::FlightPlan,
            SimStateArgs::Sim,
        ]
    }
}

impl ToSimConnect for SimStateArgs {
    open spec fn sim_name(&self) -> Seq<char> {
        self.name()
    }

    proof fn lemma_sim_name(&self) {
        match self {
            SimStateArgs::AircraftLoaded => reveal_strlit("AircraftLoaded"),
            SimStateArgs::DialogMode => reveal_strlit("DialogMode"),
            SimStateArgs::FlightLoaded => reveal_strlit("FlightLoaded"),
            SimStateArgs::FlightPlan => reveal_strlit("FlightPlan"),
            SimStateArgs::Sim => reveal_strlit("Sim"),
        }
        lemma_plain_name(self.name());
    }

    fn to_string(&self) -> (s: String) {
        self.as_str().to_owned()
    }
}

impl From<SimStateArgs> for u32 {
    fn from(v: SimStateArgs) -> (n: u32) {
        match v {
            SimStateArgs::AircraftLoaded => 0,
            SimStateArgs::DialogMode => 1,
            SimStateArgs::FlightLoaded => 2,
            SimStateArgs::FlightPlan => 3,
            SimStateArgs::Sim => 4,
        }
    }
}

impl FromSpecImpl<SimStateArgs> for u32 {
    open spec fn obeys_from_spec() -> bool {
        true
    }

    open spec fn from_spec(v: SimStateArgs) -> u32 {
        v.code() as u32
    }
}

} // verus!
