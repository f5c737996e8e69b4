//! The simulation variables a structure's fields can be bound to.

use crate::internals::lemma_plain_name;
use crate::internals::ToSimConnect;
use vstd::prelude::*;

verus! {

/// A simulation variable, known to the host by name.
#[derive(Debug, Clone, Copy, Hash, PartialEq, Eq, Structural)]
pub enum SimVar {
    KohlsmanHG,
    IndicatedAlt,
    PlaneLat,
    PlaneLong,
    AirspeedIndicated,
    AirspeedMach,
    AirspeedTrue,
    AirplaneCategory,
    Realism,
    SimDisabled,
    SimOnGround,
    BarometerPressure,
    FuelDumpActive,
    FuelTankCenterLevel,
    FuelTankCenter2Level,
    FuelTankCenter3Level,
    FuelTankExternal1Level,
    FuelTankExternal2Level,
    FuelTankLeftAuxLevel,
    FuelTankLeftMainLevel,
    FuelTankLeftTipLevel,
    FuelTankRightAuxLevel,
    FuelTankRightMainLevel,
    FuelTankRightTipLevel,
    FuelTotalQuantity,
    FuelTotalCapacity,
    FuelTotalQuantityWeight,
    IsUnlimitedFuelSet,
    AutobrakesActive,
    AntiskidBrakesActive,
    ParkingBrakeEnabled,
    LightStobeEnabled,
    LightLandingEnabled,
    LightTaxiEnabled,
    LightBeaconEnabled,
    LightNavEnabled,
    LightLogoEnabled,
    LightWingEnabled,
    Title,
    VerticalSpeed,
    ZuluTime,
}

impl SimVar {
    /// The host's spelling of the variant.
    pub open spec fn name(self) -> Seq<char> {
        match self {
            SimVar::KohlsmanHG => "Kohlsman Setting hg"@,
            SimVar::IndicatedAlt => "Indicated Altitude"@,
            SimVar::PlaneLat => "Plane Latitude"@,
            SimVar::PlaneLong => "Plane Longitude"@,
            SimVar::AirspeedIndicated => "Airspeed Indicated"@,
            SimVar::AirspeedMach => "Airspeed Mach"@,
            SimVar::AirspeedTrue => "Airspeed True"@,
            SimVar::AirplaneCategory => "Category"@,
            SimVar::Realism => "Realism"@,
            SimVar::SimDisabled => "Sim Disabled"@,
            SimVar::SimOnGround => "Sim On Ground"@,
            SimVar::BarometerPressure => "Barometer Pressure"@,
            SimVar::FuelDumpActive => "Fuel Dump Active"@,
            SimVar::FuelTankCenterLevel => "FUEL TANK CENTER LEVEL"@,
            SimVar::FuelTankCenter2Level => "FUEL TANK CENTER2 LEVEL"@,
            SimVar::FuelTankCenter3Level => "FUEL TANK CENTER3 LEVEL"@,
            SimVar::FuelTankExternal1Level => "FUEL TANK EXTERNAL1 LEVEL"@,
            SimVar::FuelTankExternal2Level => "FUEL TANK EXTERNAL2 LEVEL"@,
            SimVar::FuelTankLeftAuxLevel => "FUEL TANK LEFT AUX LEVEL"@,
            SimVar::FuelTankLeftMainLevel => "FUEL TANK LEFT MAIN LEVEL"@,
            SimVar::FuelTankLeftTipLevel => "FUEL TANK LEFT TIP LEVEL"@,
            SimVar::FuelTankRightAuxLevel => "FUEL TANK RIGHT AUX LEVEL"@,
            SimVar::FuelTankRightMainLevel => "FUEL TANK RIGHT MAIN LEVEL"@,
            SimVar::FuelTankRightTipLevel => "FUEL TANK RIGHT TIP LEVEL"@,
            SimVar::FuelTotalQuantity => "Fuel Total Quantity"@,
            SimVar::FuelTotalCapacity => "Fuel Total Capacity"@,
            SimVar::FuelTotalQuantityWeight => "Fuel Total Quantity Weight"@,
            SimVar::IsUnlimitedFuelSet => "Unlimited Fuel"@,
            SimVar::AutobrakesActive => "Autobrakes Active"@,
            SimVar::AntiskidBrakesActive => "Antiskid Brakes Active"@,
            SimVar::ParkingBrakeEnabled => "Brake Parking Position"@,
            SimVar::LightStobeEnabled => "Light Strobe"@,
            SimVar::LightLandingEnabled => "Light Landing"@,
            SimVar::LightTaxiEnabled => "Light Taxi"@,
            SimVar::LightBeaconEnabled => "Light Beacon"@,
            SimVar::LightNavEnabled => "Light Nav"@,
            SimVar::LightLogoEnabled => "Light Logo"@,
            SimVar::LightWingEnabled => "Light Wing"@,
            SimVar::Title => "Title"@,
            SimVar::VerticalSpeed => "Vertical Speed"@,
            SimVar::ZuluTime => "ZULU TIME"@,
        }
    }

    pub fn as_str(&self) -> (s: &'static str)
        ensures
            s@ == self.name(),
    {
        match self {
            SimVar::KohlsmanHG => "Kohlsman Setting hg",
            SimVar::IndicatedAlt => "Indicated Altitude",
            SimVar::PlaneLat => "Plane Latitude",
            SimVar::PlaneLong => "Plane Longitude",
            SimVar::AirspeedIndicated => "Airspeed Indicated",
            SimVar::AirspeedMach => "Airspeed Mach",
            SimVar::AirspeedTrue => "Airspeed True",
            SimVar::AirplaneCategory => "Category",
            SimVar::Realism => "Realism",
            SimVar::SimDisabled => "Sim Disabled",
            SimVar::SimOnGround => "Sim On Ground",
            SimVar::BarometerPressure => "Barometer Pressure",
            SimVar::FuelDumpActive => "Fuel Dump Active",
            SimVar::FuelTankCenterLevel => "FUEL TANK CENTER LEVEL",
            SimVar::FuelTankCenter2Level => "FUEL TANK CENTER2 LEVEL",
            SimVar::FuelTankCenter3Level => "FUEL TANK CENTER3 LEVEL",
            SimVar::FuelTankExternal1Level => "FUEL TANK EXTERNAL1 LEVEL",
            SimVar::FuelTankExternal2Level => "FUEL TANK EXTERNAL2 LEVEL",
            SimVar::FuelTankLeftAuxLevel => "FUEL TANK LEFT AUX LEVEL",
            SimVar::FuelTankLeftMainLevel => "FUEL TANK LEFT MAIN LEVEL",
            SimVar::FuelTankLeftTipLevel => "FUEL TANK LEFT TIP LEVEL",
            SimVar::FuelTankRightAuxLevel => "FUEL TANK RIGHT AUX LEVEL",
            SimVar::FuelTankRightMainLevel => "FUEL TANK RIGHT MAIN LEVEL",
            SimVar::FuelTankRightTipLevel => "FUEL TANK RIGHT TIP LEVEL",
            SimVar::FuelTotalQuantity => "Fuel Total Quantity",
            SimVar::FuelTotalCapacity => "Fuel Total Capacity",
            SimVar::FuelTotalQuantityWeight => "Fuel Total Quantity Weight",
            SimVar::IsUnlimitedFuelSet => "Unlimited Fuel",
            SimVar::AutobrakesActive => "Autobrakes Active",
            SimVar::AntiskidBrakesActive => "Antiskid Brakes Active",
            SimVar::ParkingBrakeEnabled => "Brake Parking Position",
            SimVar::LightStobeEnabled => "Light Strobe",
            SimVar::LightLandingEnabled => "Light Landing",
            SimVar::LightTaxiEnabled => "Light Taxi",
            SimVar::LightBeaconEnabled => "Light Beacon",
            SimVar::LightNavEnabled => "Light Nav",
            SimVar::LightLogoEnabled => "Light Logo",
            SimVar::LightWingEnabled => "Light Wing",
            SimVar::Title => "Title",
            SimVar::VerticalSpeed => "Vertical Speed",
            SimVar::ZuluTime => "ZULU TIME",
        }
    }
}

impl ToSimConnect for SimVar {
    open spec fn sim_name(&self) -> Seq<char> {
        self.name()
    }

    proof fn lemma_sim_name(&self) {
        match self {
            SimVar::KohlsmanHG => reveal_strlit("Kohlsman Setting hg"),
            SimVar::IndicatedAlt => reveal_strlit("Indicated Altitude"),
            SimVar::PlaneLat => reveal_strlit("Plane Latitude"),
            SimVar::PlaneLong => reveal_strlit("Plane Longitude"),
            SimVar::AirspeedIndicated => reveal_strlit("Airspeed Indicated"),
            SimVar::AirspeedMach => reveal_strlit("Airspeed Mach"),
            SimVar::AirspeedTrue => reveal_strlit("Airspeed True"),
            SimVar::AirplaneCategory => reveal_strlit("Category"),
            SimVar::Realism => reveal_strlit("Realism"),
            SimVar::SimDisabled => reveal_strlit("Sim Disabled"),
            SimVar::SimOnGround => reveal_strlit("Sim On Ground"),
            SimVar::BarometerPressure => reveal_strlit("Barometer Pressure"),
            SimVar::FuelDumpActive => reveal_strlit("Fuel Dump Active"),
            SimVar::FuelTankCenterLevel => reveal_strlit("FUEL TANK CENTER LEVEL"),
            SimVar::FuelTankCenter2Level => reveal_strlit("FUEL TANK CENTER2 LEVEL"),
            SimVar::FuelTankCenter3Level => reveal_strlit("FUEL TANK CENTER3 LEVEL"),
            SimVar::FuelTankExternal1Level => reveal_strlit("FUEL TANK EXTERNAL1 LEVEL"),
            SimVar::FuelTankExternal2Level => reveal_strlit("FUEL TANK EXTERNAL2 LEVEL"),
            SimVar::FuelTankLeftAuxLevel => reveal_strlit("FUEL TANK LEFT AUX LEVEL"),
            SimVar::FuelTankLeftMainLevel => reveal_strlit("FUEL TANK LEFT MAIN LEVEL"),
            SimVar::FuelTankLeftTipLevel => reveal_strlit("FUEL TANK LEFT TIP LEVEL"),
            SimVar::FuelTankRightAuxLevel => reveal_strlit("FUEL TANK RIGHT AUX LEVEL"),
            SimVar::FuelTankRightMainLevel => reveal_strlit("FUEL TANK RIGHT MAIN LEVEL"),
            SimVar::FuelTankRightTipLevel => reveal_strlit("FUEL TANK RIGHT TIP LEVEL"),
            SimVar::FuelTotalQuantity => reveal_strlit("Fuel Total Quantity"),
            SimVar::FuelTotalCapacity => reveal_strlit("Fuel Total Capacity"),
            SimVar::FuelTotalQuantityWeight => reveal_strlit("Fuel Total Quantity Weight"),
            SimVar::IsUnlimitedFuelSet => reveal_strlit("Unlimited Fuel"),
            SimVar::AutobrakesActive => reveal_strlit("Autobrakes Active"),
            SimVar::AntiskidBrakesActive => reveal_strlit("Antiskid Brakes Active"),
            SimVar::ParkingBrakeEnabled => reveal_strlit("Brake Parking Position"),
            SimVar::LightStobeEnabled => reveal_strlit("Light Strobe"),
            SimVar::LightLandingEnabled => reveal_strlit("Light Landing"),
            SimVar::LightTaxiEnabled => reveal_strlit("Light Taxi"),
            SimVar::LightBeaconEnabled => reveal_strlit("Light Beacon"),
            SimVar::LightNavEnabled => reveal_strlit("Light Nav"),
            SimVar::LightLogoEnabled => reveal_strlit("Light Logo"),
            SimVar::LightWingEnabled => reveal_strlit("Light Wing"),
            SimVar::Title => reveal_strlit("Title"),
            SimVar::VerticalSpeed => reveal_strlit("Vertical Speed"),
            SimVar::ZuluTime => reveal_strlit("ZULU TIME"),
        }
        lemma_plain_name(self.name());
    }

    fn to_string(&self) -> (s: String) {
        self.as_str().to_owned()
    }
}

} // verus!
