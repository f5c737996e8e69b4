use sim_connect_rs::data_definitions;
use sim_connect_rs::describe;
use sim_connect_rs::errors::DecodeError;
use sim_connect_rs::recv_data::FromPtr;
use sim_connect_rs::recv_data::RecvSimData;
use sim_connect_rs::sim_struct::parse_struct;
use sim_connect_rs::sim_struct::read_field;
use sim_connect_rs::sim_struct::FieldValue;
use sim_connect_rs::sim_units::Length;
use sim_connect_rs::sim_units::SimUnit;
use sim_connect_rs::sim_units::Speed;
use sim_connect_rs::sim_var_types::ScalarType;
use sim_connect_rs::sim_var_types::SimVarType;
use sim_connect_rs::sim_vars::SimVar;
use sim_connect_rs::DataDefinition;
use sim_connect_rs::FieldDeclaration;

fn float_of(value: &FieldValue) -> f32 {
    match value {
        FieldValue::F32(bits) => f32::from_bits(*bits),
        other => panic!("not a 32-bit float: {:?}", other),
    }
}

fn double_of(value: &FieldValue) -> f64 {
    match value {
        FieldValue::F64(bits) => f64::from_bits(*bits),
        other => panic!("not a 64-bit float: {:?}", other),
    }
}

/// Packs values the way the host does: tightly, little-endian, strings
/// terminated.
fn pack(values: &[FieldValue]) -> Vec<u8> {
    let mut bytes = Vec::new();
    for value in values {
        match value {
            FieldValue::I32(v) => bytes.extend_from_slice(&v.to_le_bytes()),
            FieldValue::I64(v) => bytes.extend_from_slice(&v.to_le_bytes()),
            FieldValue::F32(bits) => bytes.extend_from_slice(&bits.to_le_bytes()),
            FieldValue::F64(bits) => bytes.extend_from_slice(&bits.to_le_bytes()),
            FieldValue::Text(text) => {
                bytes.extend_from_slice(text.as_bytes());
                bytes.push(0);
            }
        }
    }
    bytes
}

fn types_of(values: &[FieldValue]) -> Vec<ScalarType> {
    values
        .iter()
        .map(|value| match value {
            FieldValue::I32(_) => ScalarType::I32,
            FieldValue::I64(_) => ScalarType::I64,
            FieldValue::F32(_) => ScalarType::F32,
            FieldValue::F64(_) => ScalarType::F64,
            FieldValue::Text(_) => ScalarType::Text,
        })
        .collect()
}

#[test]
fn two_floats_are_read_at_their_offsets() {
    let fields = [ScalarType::F32, ScalarType::F32];
    let buffer = [0x00u8, 0x00, 0x80, 0x3f, 0x00, 0x00, 0x00, 0x42];
    let values = parse_struct(&fields, &buffer).unwrap();
    assert_eq!(values.len(), 2);
    let airspeed = float_of(&values[0]);
    let altitude = float_of(&values[1]);
    assert_eq!(airspeed, 1.0);
    assert_eq!(altitude, 32.0);
    assert_eq!(values, vec![FieldValue::F32(0x3f80_0000), FieldValue::F32(0x4200_0000)]);
}

#[test]
fn fields_are_packed_without_padding() {
    let fields = [ScalarType::I32, ScalarType::F64, ScalarType::I64, ScalarType::F32];
    let mut buffer = Vec::new();
    buffer.extend_from_slice(&(-7i32).to_le_bytes());
    buffer.extend_from_slice(&2.5f64.to_le_bytes());
    buffer.extend_from_slice(&(1i64 << 40).to_le_bytes());
    buffer.extend_from_slice(&(-0.5f32).to_le_bytes());
    assert_eq!(buffer.len(), 24);
    let values = parse_struct(&fields, &buffer).unwrap();
    assert_eq!(values[0], FieldValue::I32(-7));
    assert_eq!(double_of(&values[1]), 2.5);
    assert_eq!(values[2], FieldValue::I64(1 << 40));
    assert_eq!(float_of(&values[3]), -0.5);
}

#[test]
fn a_string_takes_its_bytes_and_its_terminator() {
    let fields = [ScalarType::Text, ScalarType::I32, ScalarType::Text, ScalarType::I32];
    let mut buffer = Vec::new();
    buffer.extend_from_slice(b"Cessna 172\0");
    buffer.extend_from_slice(&5i32.to_le_bytes());
    buffer.extend_from_slice(b"\0");
    buffer.extend_from_slice(&6i32.to_le_bytes());
    let values = parse_struct(&fields, &buffer).unwrap();
    assert_eq!(
        values,
        vec![
            FieldValue::Text("Cessna 172".to_string()),
            FieldValue::I32(5),
            FieldValue::Text(String::new()),
            FieldValue::I32(6),
        ]
    );
}

#[test]
fn read_field_returns_the_offset_of_the_next_field() {
    let buffer = b"ab\0\x01\x00\x00\x00rest";
    assert_eq!(
        read_field(ScalarType::Text, buffer, 0),
        Ok((FieldValue::Text("ab".to_string()), 3))
    );
    assert_eq!(read_field(ScalarType::I32, buffer, 3), Ok((FieldValue::I32(1), 7)));
    assert_eq!(read_field(ScalarType::F32, buffer, 3), Ok((FieldValue::F32(1), 7)));
    assert_eq!(read_field(ScalarType::I64, buffer, 3), Ok((FieldValue::I64(0x7473_6572_0000_0001), 11)));
    assert_eq!(read_field(ScalarType::F64, buffer, 4), Err(DecodeError::Truncated));
    assert_eq!(read_field(ScalarType::Text, buffer, 7), Err(DecodeError::Truncated));
    assert_eq!(read_field(ScalarType::Text, buffer, 2), Ok((FieldValue::Text(String::new()), 3)));
}

#[test]
fn no_fields_need_no_bytes() {
    assert_eq!(parse_struct(&[], &[]), Ok(Vec::new()));
    assert_eq!(parse_struct(&[], &[1, 2, 3]), Ok(Vec::new()));
}

#[test]
fn bytes_behind_the_last_field_are_not_looked_at() {
    let values = parse_struct(&[ScalarType::I32], &[1, 0, 0, 0, 0xff, 0xff]).unwrap();
    assert_eq!(values, vec![FieldValue::I32(1)]);
}

#[test]
fn a_buffer_that_ends_too_early_is_truncated() {
    let fields = [ScalarType::F32, ScalarType::F32];
    let buffer = [0x00u8, 0x00, 0x80, 0x3f, 0x00, 0x00, 0x00];
    assert_eq!(parse_struct(&fields, &buffer), Err(DecodeError::Truncated));
    assert_eq!(parse_struct(&fields, &[]), Err(DecodeError::Truncated));
    assert_eq!(parse_struct(&[ScalarType::I64], &[0; 7]), Err(DecodeError::Truncated));
    assert_eq!(parse_struct(&[ScalarType::Text], b"no terminator"), Err(DecodeError::Truncated));
    assert_eq!(parse_struct(&[ScalarType::Text], &[]), Err(DecodeError::Truncated));
}

#[test]
fn a_string_that_is_not_utf8_is_malformed() {
    assert_eq!(
        parse_struct(&[ScalarType::Text], &[0xc0, 0x80, 0]),
        Err(DecodeError::MalformedString)
    );
    assert_eq!(
        parse_struct(&[ScalarType::I32, ScalarType::Text], &[0, 0, 0, 0, 0xff, 0]),
        Err(DecodeError::MalformedString)
    );
}

#[test]
fn the_first_field_that_fails_decides_the_error() {
    let fields = [ScalarType::Text, ScalarType::I64];
    assert_eq!(parse_struct(&fields, &[0xff, 0, 1, 2]), Err(DecodeError::MalformedString));
    assert_eq!(parse_struct(&fields, &[b'a', 0, 1, 2]), Err(DecodeError::Truncated));
}

#[test]
fn packed_values_come_back_as_they_were() {
    let values = vec![
        FieldValue::I32(i32::MIN),
        FieldValue::Text("Z\u{fc}rich \u{20ac}".to_string()),
        FieldValue::F64(1234.5f64.to_bits()),
        FieldValue::I64(-1),
        FieldValue::Text(String::new()),
        FieldValue::F32(f32::NAN.to_bits()),
        FieldValue::I32(i32::MAX),
        FieldValue::I64(i64::MIN),
    ];
    let buffer = pack(&values);
    assert_eq!(parse_struct(&types_of(&values), &buffer), Ok(values));
}

#[test]
fn a_string_with_a_zero_byte_does_not_come_back() {
    let values = vec![FieldValue::Text("a\0b".to_string())];
    let buffer = pack(&values);
    assert_eq!(
        parse_struct(&types_of(&values), &buffer),
        Ok(vec![FieldValue::Text("a".to_string())])
    );
}

#[test]
fn decoding_in_another_order_gives_other_values() {
    let mut buffer = Vec::new();
    buffer.extend_from_slice(&1i32.to_le_bytes());
    buffer.extend_from_slice(&2i64.to_le_bytes());
    assert_eq!(
        parse_struct(&[ScalarType::I32, ScalarType::I64], &buffer),
        Ok(vec![FieldValue::I32(1), FieldValue::I64(2)])
    );
    assert_eq!(
        parse_struct(&[ScalarType::I64, ScalarType::I32], &buffer),
        Ok(vec![FieldValue::I64(0x0000_0002_0000_0001), FieldValue::I32(0)])
    );
}

#[test]
fn object_data_is_read_against_a_layout() {
    let mut record = vec![0u8; 40];
    record[8] = 8;
    record[20] = 1;
    record.extend_from_slice(&[0x00, 0x00, 0x80, 0x3f, 0x00, 0x00, 0x00, 0x42]);
    let data = RecvSimData::from_pointer(&record).unwrap();
    assert_eq!(data.get_id(), 1);
    let values = data.to_struct(&[ScalarType::F32, ScalarType::F32]).unwrap();
    assert_eq!(float_of(&values[0]), 1.0);
    assert_eq!(float_of(&values[1]), 32.0);
    assert_eq!(data.to_struct(&[ScalarType::F64, ScalarType::I32]), Err(DecodeError::Truncated));
}

fn declarations() -> Vec<FieldDeclaration> {
    vec![
        FieldDeclaration {
            sim_var: SimVar::AirspeedTrue,
            sim_unit: Some(Box::new(Speed::KNT)),
            data_type: ScalarType::I32,
        },
        FieldDeclaration {
            sim_var: SimVar::IndicatedAlt,
            sim_unit: Some(Box::new(Length::Foot)),
            data_type: ScalarType::F32,
        },
        FieldDeclaration { sim_var: SimVar::Title, sim_unit: None, data_type: ScalarType::Text },
        FieldDeclaration {
            sim_var: SimVar::PlaneLat,
            sim_unit: None,
            data_type: ScalarType::F64,
        },
    ]
}

#[test]
fn describe_numbers_the_fields_from_zero() {
    let data = describe(declarations());
    assert_eq!(data.len(), 4);
    for (i, datum) in data.iter().enumerate() {
        assert_eq!(datum.id, i as u32);
    }
    assert_eq!(data[0].sim_var, SimVar::AirspeedTrue);
    assert_eq!(data[0].data_type, SimVarType::I32);
    assert_eq!(data[0].sim_unit.as_ref().unwrap().unit_string(), b"knot\0".to_vec());
    assert_eq!(data[1].sim_var, SimVar::IndicatedAlt);
    assert_eq!(data[1].data_type, SimVarType::F32);
    assert_eq!(data[1].sim_unit.as_ref().unwrap().unit_string(), b"Foot\0".to_vec());
    assert_eq!(data[2].sim_var, SimVar::Title);
    assert_eq!(data[2].data_type, SimVarType::StringV);
    assert!(data[2].sim_unit.is_none());
    assert_eq!(data[3].data_type, SimVarType::F64);
}

#[test]
fn describe_of_nothing_is_nothing() {
    assert!(describe(Vec::new()).is_empty());
}

#[test]
fn data_definitions_are_one_call_for_each_field() {
    let calls = data_definitions(7, &describe(declarations()));
    assert_eq!(
        calls,
        vec![
            DataDefinition {
                define_id: 7,
                datum_name: b"Airspeed True\0".to_vec(),
                units_name: b"knot\0".to_vec(),
                datum_type: 1,
                datum_id: 0,
            },
            DataDefinition {
                define_id: 7,
                datum_name: b"Indicated Altitude\0".to_vec(),
                units_name: b"Foot\0".to_vec(),
                datum_type: 3,
                datum_id: 1,
            },
            DataDefinition {
                define_id: 7,
                datum_name: b"Title\0".to_vec(),
                units_name: vec![0],
                datum_type: 11,
                datum_id: 2,
            },
            DataDefinition {
                define_id: 7,
                datum_name: b"Plane Latitude\0".to_vec(),
                units_name: vec![0],
                datum_type: 4,
                datum_id: 3,
            },
        ]
    );
}
