//! The primitive representations a field can have on the wire.

use vstd::prelude::*;
use vstd::std_specs::convert::FromSpecImpl;

verus! {

/// How the host lays a value out: integers, floating point numbers, strings in
/// buckets of fixed or variable length, and a few composite geometry types.
#[derive(Debug, Clone, Copy, Hash, PartialEq, Eq, Structural)]
pub enum SimVarType {
    Invalid,
    I32,
    I64,
    F32,
    F64,
    String8,
    String32,
    String64,
    String128,
    String256,
    String260,
    StringV,
    InitPos,
    MarkerState,
    Waypoint,
    LatLongAlt,
    XYZ,
}

impl SimVarType {
    /// The number the host knows the variant by.
    pub open spec fn code(self) -> int {
        match self {
            SimVarType::Invalid => 0,
            SimVarType::I32 => 1,
            SimVarType::I64 => 2,
            SimVarType::F32 => 3,
            SimVarType::F64 => 4,
            SimVarType::String8 => 5,
            SimVarType::String32 => 6,
            SimVarType::String64 => 7,
            SimVarType::String128 => 8,
            SimVarType::String256 => 9,
            SimVarType::String260 => 10,
            SimVarType::StringV => 11,
            SimVarType::InitPos => 12,
            SimVarType::MarkerState => 13,
            SimVarType::Waypoint => 14,
            SimVarType::LatLongAlt => 15,
            SimVarType::XYZ => 16,
        }
    }

    /// The variant with the given number, if there is one.
    pub open spec fn from_code(number: int) -> Option<SimVarType> {
        if number == 0 {
            Some(SimVarType::Invalid)
        } else if number == 1 {
            Some(SimVarType::I32)
        } else if number == 2 {
            Some(SimVarType::I64)
        } else if number == 3 {
            Some(SimVarType::F32)
        } else if number == 4 {
            Some(SimVarType::F64)
        } else if number == 5 {
            Some(SimVarType::String8)
        } else if number == 6 {
            Some(SimVarType::String32)
        } else if number == 7 {
            Some(SimVarType::String64)
        } else if number == 8 {
            Some(SimVarType::String128)
        } else if number == 9 {
            Some(SimVarType::String256)
        } else if number == 10 {
            Some(SimVarType::String260)
        } else if number == 11 {
            Some(SimVarType::StringV)
        } else if number == 12 {
            Some(SimVarType::InitPos)
        } else if number == 13 {
            Some(SimVarType::MarkerState)
        } else if number == 14 {
            Some(SimVarType::Waypoint)
        } else if number == 15 {
            Some(SimVarType::LatLongAlt)
        } else if number == 16 {
            Some(SimVarType::XYZ)
        } else {
            None
        }
    }

    /// Resolves a number against the enumeration; a number that names no
    /// variant gives `Invalid`.
    pub fn from_primitive(number: i32) -> (v: SimVarType)
        ensures
            v == match Self::from_code(number as int) {
                Some(v) => v,
                None => SimVarType::Invalid,
            },
            Self::from_code(number as int) is Some ==> v.code() == number,
    {
        match number {
            0 => SimVarType::Invalid,
            1 => SimVarType::I32,
            2 => SimVarType::I64,
            3 => SimVarType::F32,
            4 => SimVarType::F64,
            5 => SimVarType::String8,
            6 => SimVarType::String32,
            7 => SimVarType::String64,
            8 => SimVarType::String128,
            9 => SimVarType::String256,
            10 => SimVarType::String260,
            11 => SimVarType::StringV,
            12 => SimVarType::InitPos,
            13 => SimVarType::MarkerState,
            14 => SimVarType::Waypoint,
            15 => SimVarType::LatLongAlt,
            16 => SimVarType::XYZ,
            _ => SimVarType::Invalid,
        }
    }
}

impl From<SimVarType> for i32 {
    fn from(v: SimVarType) -> (n: i32) {
        match v {
            SimVarType::Invalid => 0,
            SimVarType::I32 => 1,
            SimVarType::I64 => 2,
            SimVarType::F32 => 3,
            SimVarType::F64 => 4,
            SimVarType::String8 => 5,
            SimVarType::String32 => 6,
            SimVarType::String64 => 7,
            SimVarType::String128 => 8,
            SimVarType::String256 => 9,
            SimVarType::String260 => 10,
            SimVarType::StringV => 11,
            SimVarType::InitPos => 12,
            SimVarType::MarkerState => 13,
            SimVarType::Waypoint => 14,
            SimVarType::LatLongAlt => 15,
            SimVarType::XYZ => 16,
        }
    }
}

impl FromSpecImpl<SimVarType> for i32 {
    open spec fn obeys_from_spec() -> bool {
        true
    }

    open spec fn from_spec(v: SimVarType) -> i32 {
        v.code() as i32
    }
}

/// The scalar types a field of an application structure can have.
#[derive(Debug, Clone, Copy, Hash, PartialEq, Eq, Structural)]
pub enum ScalarType {
    /// A signed integer of 32 bits.
    I32,
    /// A signed integer of 64 bits.
    I64,
    /// A floating point number of 32 bits.
    F32,
    /// A floating point number of 64 bits.
    F64,
    /// A string.
    Text,
}

impl ScalarType {
    /// The one representation on the wire that values of the type have.
    pub open spec fn wire_type(self) -> SimVarType {
        match self {
            ScalarType::I32 => SimVarType::I32,
            ScalarType::I64 => SimVarType::I64,
            ScalarType::F32 => SimVarType::F32,
            ScalarType::F64 => SimVarType::F64,
            ScalarType::Text => SimVarType::StringV,
        }
    }

    pub fn into_sim_var(self) -> (t: SimVarType)
        ensures
            t == self.wire_type(),
    {
        match self {
            ScalarType::I32 => SimVarType::I32,
            ScalarType::I64 => SimVarType::I64,
            ScalarType::F32 => SimVarType::F32,
            ScalarType::F64 => SimVarType::F64,
            ScalarType::Text => SimVarType::StringV,
        }
    }
}

/// A type of Rust whose values have a representation on the wire.
pub trait IntoSimVarType {
    /// The scalar type the host sees.
    spec fn scalar_type() -> ScalarType;

    fn into_sim_var() -> (t: SimVarType)
        ensures
            t == Self::scalar_type().wire_type(),
    ;
}

impl IntoSimVarType for i32 {
    open spec fn scalar_type() -> ScalarType {
        ScalarType::I32
    }

    fn into_sim_var() -> (t: SimVarType) {
        SimVarType::I32
    }
}

impl IntoSimVarType for i64 {
    open spec fn scalar_type() -> ScalarType {
        ScalarType::I64
    }

    fn into_sim_var() -> (t: SimVarType) {
        SimVarType::I64
    }
}

impl IntoSimVarType for String {
    open spec fn scalar_type() -> ScalarType {
        ScalarType::Text
    }

    fn into_sim_var() -> (t: SimVarType) {
        SimVarType::StringV
    }
}

} // verus!
