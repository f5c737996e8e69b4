use sim_connect_rs::errors::DecodeError;
use sim_connect_rs::internals::encode_name;
use sim_connect_rs::internals::find_name;
use sim_connect_rs::internals::parse_name;
use sim_connect_rs::internals::position_of;
use sim_connect_rs::internals::IterEnum;
use sim_connect_rs::internals::ToSimConnect;
use sim_connect_rs::internals::UnknownName;
use sim_connect_rs::sim_event_args::SimObjectType;
use sim_connect_rs::sim_event_args::SimStateArgs;
use sim_connect_rs::sim_event_args::SimViewType;
use sim_connect_rs::sim_events::SystemEvent;
use sim_connect_rs::sim_input_events::Failures;
use sim_connect_rs::sim_input_events::GearAndBrakes;
use sim_connect_rs::sim_units::Angle;
use sim_connect_rs::sim_units::AngularVelocity;
use sim_connect_rs::sim_units::Area;
use sim_connect_rs::sim_units::Length;
use sim_connect_rs::sim_units::Pressure;
use sim_connect_rs::sim_units::SimUnit;
use sim_connect_rs::sim_units::Speed;
use sim_connect_rs::sim_units::Temp;
use sim_connect_rs::sim_units::Volume;
use sim_connect_rs::sim_units::GPS;
use sim_connect_rs::sim_var_types::IntoSimVarType;
use sim_connect_rs::sim_var_types::ScalarType;
use sim_connect_rs::sim_var_types::SimVarType;
use sim_connect_rs::sim_vars::SimVar;

#[test]
fn wire_name_is_terminated() {
    assert_eq!(encode_name("knot"), b"knot\0".to_vec());
    assert_eq!(encode_name(""), vec![0u8]);
    assert_eq!(encode_name("\u{fc}"), vec![0xc3, 0xbc, 0]);
}

#[test]
fn annotated_names_are_used_verbatim() {
    assert_eq!(SystemEvent::OneSec.to_string(), "1sec");
    assert_eq!(SystemEvent::FourSec.to_string(), "4sec");
    assert_eq!(SystemEvent::SixHz.to_string(), "6Hz");
    assert_eq!(SimVar::KohlsmanHG.to_string(), "Kohlsman Setting hg");
    assert_eq!(SimVar::FuelTankCenter2Level.to_string(), "FUEL TANK CENTER2 LEVEL");
    assert_eq!(SimVar::ZuluTime.to_string(), "ZULU TIME");
    assert_eq!(Speed::KNT.to_string(), "knot");
    assert_eq!(Speed::FPS.to_string(), "feet/second");
    assert_eq!(Area::SqFt.to_string(), "square feet");
    assert_eq!(Volume::Cft.to_string(), "cubit foot");
    assert_eq!(Temp::F.to_string(), "farenheit");
    assert_eq!(Angle::Deg.to_string(), "degree");
    assert_eq!(GPS::MetLat.to_string(), "meter latitude");
    assert_eq!(AngularVelocity::RPM.to_string(), "revolution per minute");
    assert_eq!(Pressure::BoostInHg.to_string(), "boost inHg");
    assert_eq!(GearAndBrakes::GearEmergencyHandleToggled.to_string(), "GEAR_EMERGENCY_HANDLE_TOGGLE");
    assert_eq!(Failures::MasterWarningAck.to_string(), "MASTER_WARNING_ACKNOWLEDGE");
}

#[test]
fn plain_names_are_the_identifiers() {
    assert_eq!(SystemEvent::AircraftLoaded.to_string(), "AircraftLoaded");
    assert_eq!(SystemEvent::PauseEX1.to_string(), "PauseEX1");
    assert_eq!(SystemEvent::View.to_string(), "View");
    assert_eq!(SimStateArgs::DialogMode.to_string(), "DialogMode");
    assert_eq!(SimVar::Realism.to_string(), "Realism");
    assert_eq!(SimVar::Title.to_string(), "Title");
    assert_eq!(Length::Meter.to_string(), "Meter");
    assert_eq!(Length::NauticalMile.to_string(), "NauticalMile");
    assert_eq!(Length::Foot.as_str(), "Foot");
}

#[test]
fn sc_string_is_the_name_and_a_terminator() {
    assert_eq!(SystemEvent::FourSec.sc_string(), b"4sec\0".to_vec());
    assert_eq!(SimStateArgs::FlightPlan.sc_string(), b"FlightPlan\0".to_vec());
    assert_eq!(SimVar::IndicatedAlt.sc_string(), b"Indicated Altitude\0".to_vec());
    assert_eq!(Length::Foot.sc_string(), b"Foot\0".to_vec());
    assert_eq!(Length::Foot.unit_string(), b"Foot\0".to_vec());
    assert_eq!(Speed::KNT.unit_string(), b"knot\0".to_vec());
    assert_eq!(GearAndBrakes::Brakes.sc_string(), b"BRAKES\0".to_vec());
}

#[test]
fn every_name_makes_a_c_string() {
    for event in SystemEvent::iter_enum() {
        let bytes = event.sc_string();
        assert_eq!(bytes.last(), Some(&0u8));
        assert!(!bytes[..bytes.len() - 1].contains(&0u8));
        assert_eq!(&bytes[..bytes.len() - 1], event.to_string().as_bytes());
    }
    for state in SimStateArgs::iter_enum() {
        let bytes = state.sc_string();
        assert_eq!(bytes.last(), Some(&0u8));
        assert_eq!(&bytes[..bytes.len() - 1], state.as_str().as_bytes());
    }
    for event in GearAndBrakes::iter_enum() {
        let bytes = event.sc_string();
        assert_eq!(bytes.iter().position(|byte| *byte == 0), Some(bytes.len() - 1));
    }
    for event in Failures::iter_enum() {
        let bytes = event.sc_string();
        assert_eq!(bytes.iter().position(|byte| *byte == 0), Some(bytes.len() - 1));
    }
}

#[test]
fn iter_enum_lists_the_variants_in_declaration_order() {
    let events = SystemEvent::iter_enum();
    assert_eq!(events.len(), 24);
    assert_eq!(events[0], SystemEvent::OneSec);
    assert_eq!(events[3], SystemEvent::AircraftLoaded);
    assert_eq!(events[23], SystemEvent::View);
    assert_eq!(
        SimStateArgs::iter_enum(),
        vec![
            SimStateArgs::AircraftLoaded,
            SimStateArgs::DialogMode,
            SimStateArgs::FlightLoaded,
            SimStateArgs::FlightPlan,
            SimStateArgs::Sim,
        ]
    );
    assert_eq!(GearAndBrakes::iter_enum().len(), 9);
    assert_eq!(Failures::iter_enum().len(), 10);
    assert_eq!(Failures::iter_enum()[0], Failures::MasterCautionAck);
}

#[test]
fn numbers_follow_the_declaration() {
    for (i, event) in SystemEvent::iter_enum().into_iter().enumerate() {
        assert_eq!(u32::from(event), i as u32);
        assert_eq!(SystemEvent::try_from_primitive(i as u32), Ok(event));
    }
    assert_eq!(u32::from(SystemEvent::Sim), 18);
    assert_eq!(u32::from(SystemEvent::View), 23);
    let n: u32 = SimStateArgs::FlightPlan.into();
    assert_eq!(n, 3);
    assert_eq!(u32::from(GearAndBrakes::ParkingBrakes), 8);
    assert_eq!(u32::from(Failures::MasterCautionAck), 9);
    assert_eq!(u32::from(Failures::MasterWarningToggle), 18);
}

#[test]
fn unknown_numbers_are_rejected() {
    assert_eq!(SystemEvent::try_from_primitive(24), Err(DecodeError::UnknownDiscriminant));
    assert_eq!(SystemEvent::try_from_primitive(u32::MAX), Err(DecodeError::UnknownDiscriminant));
    assert_eq!(SimStateArgs::try_from_primitive(5), Err(DecodeError::UnknownDiscriminant));
    assert_eq!(GearAndBrakes::try_from_primitive(9), Err(DecodeError::UnknownDiscriminant));
    assert_eq!(Failures::try_from_primitive(8), Err(DecodeError::UnknownDiscriminant));
    assert_eq!(Failures::try_from_primitive(19), Err(DecodeError::UnknownDiscriminant));
    assert_eq!(SimObjectType::try_from_primitive(6), Err(DecodeError::UnknownDiscriminant));
    assert_eq!(SimObjectType::try_from_primitive(-1), Err(DecodeError::UnknownDiscriminant));
    assert_eq!(SimViewType::try_from_primitive(0), Err(DecodeError::UnknownDiscriminant));
    assert_eq!(SimViewType::try_from_primitive(3), Err(DecodeError::UnknownDiscriminant));
}

#[test]
fn known_numbers_resolve() {
    assert_eq!(SimStateArgs::try_from_primitive(0), Ok(SimStateArgs::AircraftLoaded));
    assert_eq!(SimStateArgs::try_from_primitive(4), Ok(SimStateArgs::Sim));
    assert_eq!(GearAndBrakes::try_from_primitive(4), Ok(GearAndBrakes::GearDown));
    assert_eq!(Failures::try_from_primitive(9), Ok(Failures::MasterCautionAck));
    assert_eq!(Failures::try_from_primitive(18), Ok(Failures::MasterWarningToggle));
    assert_eq!(SimObjectType::try_from_primitive(0), Ok(SimObjectType::User));
    assert_eq!(SimObjectType::try_from_primitive(5), Ok(SimObjectType::Ground));
    assert_eq!(SimViewType::try_from_primitive(1), Ok(SimViewType::Cockpit2D));
    assert_eq!(SimViewType::try_from_primitive(2), Ok(SimViewType::CockpitVirtual));
    assert_eq!(SimViewType::try_from_primitive(4), Ok(SimViewType::Ortho));
}

#[test]
fn wire_types_have_the_hosts_numbers() {
    assert_eq!(i32::from(SimVarType::Invalid), 0);
    assert_eq!(i32::from(SimVarType::I32), 1);
    assert_eq!(i32::from(SimVarType::I64), 2);
    assert_eq!(i32::from(SimVarType::F32), 3);
    assert_eq!(i32::from(SimVarType::F64), 4);
    assert_eq!(i32::from(SimVarType::String8), 5);
    assert_eq!(i32::from(SimVarType::String260), 10);
    assert_eq!(i32::from(SimVarType::StringV), 11);
    assert_eq!(i32::from(SimVarType::InitPos), 12);
    assert_eq!(i32::from(SimVarType::XYZ), 16);
}

#[test]
fn unknown_wire_type_is_invalid() {
    assert_eq!(SimVarType::from_primitive(1), SimVarType::I32);
    assert_eq!(SimVarType::from_primitive(11), SimVarType::StringV);
    assert_eq!(SimVarType::from_primitive(16), SimVarType::XYZ);
    assert_eq!(SimVarType::from_primitive(17), SimVarType::Invalid);
    assert_eq!(SimVarType::from_primitive(-1), SimVarType::Invalid);
    assert_eq!(SimVarType::from_primitive(0), SimVarType::Invalid);
}

#[test]
fn each_scalar_type_has_one_wire_type() {
    assert_eq!(ScalarType::I32.into_sim_var(), SimVarType::I32);
    assert_eq!(ScalarType::I64.into_sim_var(), SimVarType::I64);
    assert_eq!(ScalarType::F32.into_sim_var(), SimVarType::F32);
    assert_eq!(ScalarType::F64.into_sim_var(), SimVarType::F64);
    assert_eq!(ScalarType::Text.into_sim_var(), SimVarType::StringV);
    assert_eq!(<i32 as IntoSimVarType>::into_sim_var(), SimVarType::I32);
    assert_eq!(<i64 as IntoSimVarType>::into_sim_var(), SimVarType::I64);
    assert_eq!(<String as IntoSimVarType>::into_sim_var(), SimVarType::StringV);
}

#[test]
fn position_of_finds_the_first_equal_string() {
    let items = vec!["b".to_string(), "a".to_string(), "b".to_string()];
    assert_eq!(position_of(&items, &"b".to_string()), Some(0));
    assert_eq!(position_of(&items, &"a".to_string()), Some(1));
    assert_eq!(position_of(&items, &"B".to_string()), None);
    assert_eq!(position_of(&Vec::new(), &"a".to_string()), None);
}

#[test]
fn find_name_ignores_case() {
    let names = vec!["Alpha".to_string(), "BETA".to_string(), "alpha".to_string()];
    assert_eq!(find_name(&names, "alpha"), Some(0));
    assert_eq!(find_name(&names, "ALPHA"), Some(0));
    assert_eq!(find_name(&names, "beta"), Some(1));
    assert_eq!(find_name(&names, "gamma"), None);
}

#[test]
fn from_str_ignores_case() {
    assert_eq!(SystemEvent::from_str("View"), Ok(SystemEvent::View));
    assert_eq!(SystemEvent::from_str("VIEW"), Ok(SystemEvent::View));
    assert_eq!(SystemEvent::from_str("view"), Ok(SystemEvent::View));
    assert_eq!(SystemEvent::from_str("1SEC"), Ok(SystemEvent::OneSec));
    assert_eq!(SystemEvent::from_str("6hz"), Ok(SystemEvent::SixHz));
    assert_eq!(SystemEvent::from_str("pauseex1"), Ok(SystemEvent::PauseEX1));
    assert_eq!(SimStateArgs::from_str("flightplan"), Ok(SimStateArgs::FlightPlan));
    assert_eq!(GearAndBrakes::from_str("gear_up"), Ok(GearAndBrakes::GearUp));
    assert_eq!(Failures::from_str("Master_Caution_On"), Ok(Failures::MasterCautionOn));
    assert_eq!(parse_name::<SystemEvent>("sim"), Ok(SystemEvent::Sim));
}

#[test]
fn from_str_goes_by_the_hosts_name_not_the_identifier() {
    assert_eq!(SystemEvent::from_str("OneSec"), Err(UnknownName));
    assert_eq!(GearAndBrakes::from_str("GearUp"), Err(UnknownName));
}

#[test]
fn from_str_rejects_what_is_no_name() {
    assert_eq!(SystemEvent::from_str(""), Err(UnknownName));
    assert_eq!(SystemEvent::from_str("View "), Err(UnknownName));
    assert_eq!(SimStateArgs::from_str("Crashed"), Err(UnknownName));
    assert_eq!(Failures::from_str("BRAKES"), Err(UnknownName));
}

#[test]
fn from_str_folds_case_as_unicode_does() {
    // The Kelvin sign is not an ASCII letter, but its lower case is `k`.
    assert_eq!(GearAndBrakes::from_str("BRA\u{212a}ES"), Ok(GearAndBrakes::Brakes));
}
