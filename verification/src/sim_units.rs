//! The units of measurement a simulation variable can be asked for in.

use crate::internals::is_c_string;
use crate::internals::wire_name;
use crate::internals::lemma_plain_name;
use crate::internals::ToSimConnect;
use vstd::prelude::*;

verus! {

/// A unit of measurement, known to the host by name. A field holds its unit
/// behind this trait, so that units of different families can stand in one
/// list of fields.
pub trait SimUnit {
    /// The unit's name, exactly as the host spells it.
    spec fn unit_name(&self) -> Seq<char>;

    /// The unit's name as a terminated wire string.
    fn unit_string(&self) -> (bytes: Vec<u8>)
        ensures
            bytes@ == wire_name(self.unit_name()),
            is_c_string(bytes@),
    ;
}

/// Units of length.
#[derive(Debug, Clone, Copy, Hash, PartialEq, Eq, Structural)]
pub enum Length {
    Meter,
    Millimeter,
    Centimeter,
    Kilometer,
    NauticalMile,
    Decinmile,
    Inch,
    Foot,
    Yard,
    Decimile,
    Mile,
}

impl Length {
    /// The host's spelling of the variant.
    pub open spec fn name(self) -> Seq<char> {
        match self {
            Length::Meter => "Meter"@,
            Length::Millimeter => "Millimeter"@,
            Length::Centimeter => "Centimeter"@,
            Length::Kilometer => "Kilometer"@,
            Length::NauticalMile => "NauticalMile"@,
            Length::Decinmile => "Decinmile"@,
            Length::Inch => "Inch"@,
            Length::Foot => "Foot"@,
            Length::Yard => "Yard"@,
            Length::Decimile => "Decimile"@,
            Length::Mile => "Mile"@,
        }
    }

    pub fn as_str(&self) -> (s: &'static str)
        ensures
            s@ == self.name(),
    {
        match self {
            Length::Meter => "Meter",
            Length::Millimeter => "Millimeter",
            Length::Centimeter => "Centimeter",
            Length::Kilometer => "Kilometer",
            Length::NauticalMile => "NauticalMile",
            Length::Decinmile => "Decinmile",
            Length::Inch => "Inch",
            Length::Foot => "Foot",
            Length::Yard => "Yard",
            Length::Decimile => "Decimile",
            Length::Mile => "Mile",
        }
    }
}

impl ToSimConnect for Length {
    open spec fn sim_name(&self) -> Seq<char> {
        self.name()
    }

    proof fn lemma_sim_name(&self) {
        match self {
            Length::Meter => reveal_strlit("Meter"),
            Length::Millimeter => reveal_strlit("Millimeter"),
            Length::Centimeter => reveal_strlit("Centimeter"),
            Length::Kilometer => reveal_strlit("Kilometer"),
            Length::NauticalMile => reveal_strlit("NauticalMile"),
            Length::Decinmile => reveal_strlit("Decinmile"),
            Length::Inch => reveal_strlit("Inch"),
            Length::Foot => reveal_strlit("Foot"),
            Length::Yard => reveal_strlit("Yard"),
            Length::Decimile => reveal_strlit("Decimile"),
            Length::Mile => reveal_strlit("Mile"),
        }
        lemma_plain_name(self.name());
    }

    fn to_string(&self) -> (s: String) {
        self.as_str().to_owned()
    }
}

impl SimUnit for Length {
    open spec fn unit_name(&self) -> Seq<char> {
        self.name()
    }

    fn unit_string(&self) -> (bytes: Vec<u8>) {
        self.sc_string()
    }
}

/// Units of area.
#[derive(Debug, Clone, Copy, Hash, PartialEq, Eq, Structural)]
pub enum Area {
    SqIn,
    SqFt,
    SqYd,
    SqMi,
    SqMm,
    SqCm,
    SqM,
    SqKm,
}

impl Area {
    /// The host's spelling of the variant.
    pub open spec fn name(self) -> Seq<char> {
        match self {
            Area::SqIn => "square inch"@,
            Area::SqFt => "square feet"@,
            Area::SqYd => "square yard"@,
            Area::SqMi => "square mile"@,
            Area::SqMm => "square millimeter"@,
            Area::SqCm => "square centimeter"@,
            Area::SqM => "square meter"@,
            Area::SqKm => "square kilometer"@,
        }
    }

    pub fn as_str(&self) -> (s: &'static str)
        ensures
            s@ == self.name(),
    {
        match self {
            Area::SqIn => "square inch",
            Area::SqFt => "square feet",
            Area::SqYd => "square yard",
            Area::SqMi => "square mile",
            Area::SqMm => "square millimeter",
            Area::SqCm => "square centimeter",
            Area::SqM => "square meter",
            Area::SqKm => "square kilometer",
        }
    }
}

impl ToSimConnect for Area {
    open spec fn sim_name(&self) -> Seq<char> {
        self.name()
    }

    proof fn lemma_sim_name(&self) {
        match self {
            Area::SqIn => reveal_strlit("square inch"),
            Area::SqFt => reveal_strlit("square feet"),
            Area::SqYd => reveal_strlit("square yard"),
            Area::SqMi => reveal_strlit("square mile"),
            Area::SqMm => reveal_strlit("square millimeter"),
            Area::SqCm => reveal_strlit("square centimeter"),
            Area::SqM => reveal_strlit("square meter"),
            Area::SqKm => reveal_strlit("square kilometer"),
        }
        lemma_plain_name(self.name());
    }

    fn to_string(&self) -> (s: String) {
        self.as_str().to_owned()
    }
}

impl SimUnit for Area {
    open spec fn unit_name(&self) -> Seq<char> {
        self.name()
    }

    fn unit_string(&self) -> (bytes: Vec<u8>) {
        self.sc_string()
    }
}

/// Units of volume.
#[derive(Debug, Clone, Copy, Hash, PartialEq, Eq, Structural)]
pub enum Volume {
    Cin,
    Cft,
    Cyd,
    Cmi,
    Cmm,
    Cm,
    Ckm,
    L,
    Gal,
    Qt,
}

impl Volume {
    /// The host's spelling of the variant.
    pub open spec fn name(self) -> Seq<char> {
        match self {
            Volume::Cin => "cubic inch"@,
            Volume::Cft => "cubit foot"@,
            Volume::Cyd => "cubic yard"@,
            Volume::Cmi => "cubic mile"@,
            Volume::Cmm => "cubic millimeter"@,
            Volume::Cm => "cubic meter"@,
            Volume::Ckm => "cubic kilometer"@,
            Volume::L => "liter"@,
            Volume::Gal => "gallon"@,
            Volume::Qt => "quart"@,
        }
    }

    pub fn as_str(&self) -> (s: &'static str)
        ensures
            s@ == self.name(),
    {
        match self {
            Volume::Cin => "cubic inch",
            Volume::Cft => "cubit foot",
            Volume::Cyd => "cubic yard",
            Volume::Cmi => "cubic mile",
            Volume::Cmm => "cubic millimeter",
            Volume::Cm => "cubic meter",
            Volume::Ckm => "cubic kilometer",
            Volume::L => "liter",
            Volume::Gal => "gallon",
            Volume::Qt => "quart",
        }
    }
}

impl ToSimConnect for Volume {
    open spec fn sim_name(&self) -> Seq<char> {
        self.name()
    }

    proof fn lemma_sim_name(&self) {
        match self {
            Volume::Cin => reveal_strlit("cubic inch"),
            Volume::Cft => reveal_strlit("cubit foot"),
            Volume::Cyd => reveal_strlit("cubic yard"),
            Volume::Cmi => reveal_strlit("cubic mile"),
            Volume::Cmm => reveal_strlit("cubic millimeter"),
            Volume::Cm => reveal_strlit("cubic meter"),
            Volume::Ckm => reveal_strlit("cubic kilometer"),
            Volume::L => reveal_strlit("liter"),
            Volume::Gal => reveal_strlit("gallon"),
            Volume::Qt => reveal_strlit("quart"),
        }
        lemma_plain_name(self.name());
    }

    fn to_string(&self) -> (s: String) {
        self.as_str().to_owned()
    }
}

impl SimUnit for Volume {
    open spec fn unit_name(&self) -> Seq<char> {
        self.name()
    }

    fn unit_string(&self) -> (bytes: Vec<u8>) {
        self.sc_string()
    }
}

/// Units of temperature.
#[derive(Debug, Clone, Copy, Hash, PartialEq, Eq, Structural)]
pub enum Temp {
    Kel,
    Rank,
    F,
    C,
}

impl Temp {
    /// The host's spelling of the variant.
    pub open spec fn name(self) -> Seq<char> {
        match self {
            Temp::Kel => "kelvin"@,
            Temp::Rank => "rankine"@,
            Temp::F => "farenheit"@,
            Temp::C => "celsius"@,
        }
    }

    pub fn as_str(&self) -> (s: &'static str)
        ensures
            s@ == self.name(),
    {
        match self {
            Temp::Kel => "kelvin",
            Temp::Rank => "rankine",
            Temp::F => "farenheit",
            Temp::C => "celsius",
        }
    }
}

impl ToSimConnect for Temp {
    open spec fn sim_name(&self) -> Seq<char> {
        self.name()
    }

    proof fn lemma_sim_name(&self) {
        match self {
            Temp::Kel => reveal_strlit("kelvin"),
            Temp::Rank => reveal_strlit("rankine"),
            Temp::F => reveal_strlit("farenheit"),
            Temp::C => reveal_strlit("celsius"),
        }
        lemma_plain_name(self.name());
    }

    fn to_string(&self) -> (s: String) {
        self.as_str().to_owned()
    }
}

impl SimUnit for Temp {
    open spec fn unit_name(&self) -> Seq<char> {
        self.name()
    }

    fn unit_string(&self) -> (bytes: Vec<u8>) {
        self.sc_string()
    }
}

/// Units of angle.
#[derive(Debug, Clone, Copy, Hash, PartialEq, Eq, Structural)]
pub enum Angle {
    Rad,
    Round,
    Deg,
    Grad,
}

impl Angle {
    /// The host's spelling of the variant.
    pub open spec fn name(self) -> Seq<char> {
        match self {
            Angle::Rad => "radian"@,
            Angle::Round => "round"@,
            Angle::Deg => "degree"@,
            Angle::Grad => "grad"@,
        }
    }

    pub fn as_str(&self) -> (s: &'static str)
        ensures
            s@ == self.name(),
    {
        match self {
            Angle::Rad => "radian",
            Angle::Round => "round",
            Angle::Deg => "degree",
            Angle::Grad => "grad",
        }
    }
}

impl ToSimConnect for Angle {
    open spec fn sim_name(&self) -> Seq<char> {
        self.name()
    }

    proof fn lemma_sim_name(&self) {
        match self {
            Angle::Rad => reveal_strlit("radian"),
            Angle::Round => reveal_strlit("round"),
            Angle::Deg => reveal_strlit("degree"),
            Angle::Grad => reveal_strlit("grad"),
        }
        lemma_plain_name(self.name());
    }

    fn to_string(&self) -> (s: String) {
        self.as_str().to_owned()
    }
}

impl SimUnit for Angle {
    open spec fn unit_name(&self) -> Seq<char> {
        self.name()
    }

    fn unit_string(&self) -> (bytes: Vec<u8>) {
        self.sc_string()
    }
}

/// Units of position on the globe.
#[derive(Debug, Clone, Copy, Hash, PartialEq, Eq, Structural)]
pub enum GPS {
    DegLat,
    DegLon,
    MetLat,
}

impl GPS {
    /// The host's spelling of the variant.
    pub open spec fn name(self) -> Seq<char> {
        match self {
            GPS::DegLat => "degree latitude"@,
            GPS::DegLon => "degree longitude"@,
            GPS::MetLat => "meter latitude"@,
        }
    }

    pub fn as_str(&self) -> (s: &'static str)
        ensures
            s@ == self.name(),
    {
        match self {
            GPS::DegLat => "degree latitude",
            GPS::DegLon => "degree longitude",
            GPS::MetLat => "meter latitude",
        }
    }
}

impl ToSimConnect for GPS {
    open spec fn sim_name(&self) -> Seq<char> {
        self.name()
    }

    proof fn lemma_sim_name(&self) {
        match self {
            GPS::DegLat => reveal_strlit("degree latitude"),
            GPS::DegLon => reveal_strlit("degree longitude"),
            GPS::MetLat => reveal_strlit("meter latitude"),
        }
        lemma_plain_name(self.name());
    }

    fn to_string(&self) -> (s: String) {
        self.as_str().to_owned()
    }
}

impl SimUnit for GPS {
    open spec fn unit_name(&self) -> Seq<char> {
        self.name()
    }

    fn unit_string(&self) -> (bytes: Vec<u8>) {
        self.sc_string()
    }
}

/// Units of angular velocity.
#[derive(Debug, Clone, Copy, Hash, PartialEq, Eq, Structural)]
pub enum AngularVelocity {
    RPS,
    RPM,
    DPS,
}

impl AngularVelocity {
    /// The host's spelling of the variant.
    pub open spec fn name(self) -> Seq<char> {
        match self {
            AngularVelocity::RPS => "radian per second"@,
            AngularVelocity::RPM => "revolution per minute"@,
            AngularVelocity::DPS => "degree per second"@,
        }
    }

    pub fn as_str(&self) -> (s: &'static str)
        ensures
            s@ == self.name(),
    {
        match self {
            AngularVelocity::RPS => "radian per second",
            AngularVelocity::RPM => "revolution per minute",
            AngularVelocity::DPS => "degree per second",
        }
    }
}

impl ToSimConnect for AngularVelocity {
    open spec fn sim_name(&self) -> Seq<char> {
        self.name()
    }

    proof fn lemma_sim_name(&self) {
        match self {
            AngularVelocity::RPS => reveal_strlit("radian per second"),
            AngularVelocity::RPM => reveal_strlit("revolution per minute"),
            AngularVelocity::DPS => reveal_strlit("degree per second"),
        }
        lemma_plain_name(self.name());
    }

    fn to_string(&self) -> (s: String) {
        self.as_str().to_owned()
    }
}

impl SimUnit for AngularVelocity {
    open spec fn unit_name(&self) -> Seq<char> {
        self.name()
    }

    fn unit_string(&self) -> (bytes: Vec<u8>) {
        self.sc_string()
    }
}

/// Units of speed.
#[derive(Debug, Clone, Copy, Hash, PartialEq, Eq, Structural)]
pub enum Speed {
    MPS,
    MPM,
    KPH,
    FPS,
    FPM,
    MPH,
    KNT,
    MAC,
}

impl Speed {
    /// The host's spelling of the variant.
    pub open spec fn name(self) -> Seq<char> {
        match self {
            Speed::MPS => "meter per second"@,
            Speed::MPM => "meter per minute"@,
            Speed::KPH => "kilometers per hour"@,
            Speed::FPS => "feet/second"@,
            Speed::FPM => "feet/minute"@,
            Speed::MPH => "mile per hour"@,
            Speed::KNT => "knot"@,
            Speed::MAC => "mach"@,
        }
    }

    pub fn as_str(&self) -> (s: &'static str)
        ensures
            s@ == self.name(),
    {
        match self {
            Speed::MPS => "meter per second",
            Speed::MPM => "meter per minute",
            Speed::KPH => "kilometers per hour",
            Speed::FPS => "feet/second",
            Speed::FPM => "feet/minute",
            Speed::MPH => "mile per hour",
            Speed::KNT => "knot",
            Speed::MAC => "mach",
        }
    }
}

impl ToSimConnect for Speed {
    open spec fn sim_name(&self) -> Seq<char> {
        self.name()
    }

    proof fn lemma_sim_name(&self) {
        match self {
            Speed::MPS => reveal_strlit("meter per second"),
            Speed::MPM => reveal_strlit("meter per minute"),
            Speed::KPH => reveal_strlit("kilometers per hour"),
            Speed::FPS => reveal_strlit("feet/second"),
            Speed::FPM => reveal_strlit("feet/minute"),
            Speed::MPH => reveal_strlit("mile per hour"),
            Speed::KNT => reveal_strlit("knot"),
            Speed::MAC => reveal_strlit("mach"),
        }
        lemma_plain_name(self.name());
    }

    fn to_string(&self) -> (s: String) {
        self.as_str().to_owned()
    }
}

impl SimUnit for Speed {
    open spec fn unit_name(&self) -> Seq<char> {
        self.name()
    }

    fn unit_string(&self) -> (bytes: Vec<u8>) {
        self.sc_string()
    }
}

/// Units of pressure.
#[derive(Debug, Clone, Copy, Hash, PartialEq, Eq, Structural)]
pub enum Pressure {
    Pa,
    Kpa,
    MmHg,
    CmHg,
    InHg,
    Bar,
    Atm,
    Psi,
    BoostPsi,
    BoostInHg,
    BoostCmHg,
}

impl Pressure {
    /// The host's spelling of the variant.
    pub open spec fn name(self) -> Seq<char> {
        match self {
            Pressure::Pa => "pascal"@,
            Pressure::Kpa => "kilopascal"@,
            Pressure::MmHg => "millimeter of mercury"@,
            Pressure::CmHg => "centimeter of mercury"@,
            Pressure::InHg => "inch of mercury"@,
            Pressure::Bar => "bar"@,
            Pressure::Atm => "atmosphere"@,
            Pressure::Psi => "psi"@,
            Pressure::BoostPsi => "boost psi"@,
            Pressure::BoostInHg => "boost inHg"@,
            Pressure::BoostCmHg => "boost cmHg"@,
        }
    }

    pub fn as_str(&self) -> (s: &'static str)
        ensures
            s@ == self.name(),
    {
        match self {
            Pressure::Pa => "pascal",
            Pressure::Kpa => "kilopascal",
            Pressure::MmHg => "millimeter of mercury",
            Pressure::CmHg => "centimeter of mercury",
            Pressure::InHg => "inch of mercury",
            Pressure::Bar => "bar",
            Pressure::Atm => "atmosphere",
            Pressure::Psi => "psi",
            Pressure::BoostPsi => "boost psi",
            Pressure::BoostInHg => "boost inHg",
            Pressure::BoostCmHg => "boost cmHg",
        }
    }
}

impl ToSimConnect for Pressure {
    open spec fn sim_name(&self) -> Seq<char> {
        self.name()
    }

    proof fn lemma_sim_name(&self) {
        match self {
            Pressure::Pa => reveal_strlit("pascal"),
            Pressure::Kpa => reveal_strlit("kilopascal"),
            Pressure::MmHg => reveal_strlit("millimeter of mercury"),
            Pressure::CmHg => reveal_strlit("centimeter of mercury"),
            Pressure::InHg => reveal_strlit("inch of mercury"),
            Pressure::Bar => reveal_strlit("bar"),
            Pressure::Atm => reveal_strlit("atmosphere"),
            Pressure::Psi => reveal_strlit("psi"),
            Pressure::BoostPsi => reveal_strlit("boost psi"),
            Pressure::BoostInHg => reveal_strlit("boost inHg"),
            Pressure::BoostCmHg => reveal_strlit("boost cmHg"),
        }
        lemma_plain_name(self.name());
    }

    fn to_string(&self) -> (s: String) {
        self.as_str().to_owned()
    }
}

impl SimUnit for Pressure {
    open spec fn unit_name(&self) -> Seq<char> {
        self.name()
    }

    fn unit_string(&self) -> (bytes: Vec<u8>) {
        self.sc_string()
    }
}

} // verus!
