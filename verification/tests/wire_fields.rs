use sim_connect_rs::errors::check_hr;
use sim_connect_rs::errors::DecodeError;
use sim_connect_rs::errors::SimConnectError;
use sim_connect_rs::wire::find_nul;
use sim_connect_rs::wire::i32_from_bits;
use sim_connect_rs::wire::i64_from_bits;
use sim_connect_rs::wire::read_c_string;
use sim_connect_rs::wire::read_c_string_in;
use sim_connect_rs::wire::read_i32;
use sim_connect_rs::wire::read_i64;
use sim_connect_rs::wire::read_u32;
use sim_connect_rs::wire::read_u64;

#[test]
fn read_u32_is_little_endian() {
    let data = [0x00u8, 0x00, 0x80, 0x3f, 0x01];
    assert_eq!(read_u32(&data, 0), Ok(0x3f80_0000));
    assert_eq!(read_u32(&data, 1), Ok(0x013f_8000));
}

#[test]
fn read_u32_needs_four_bytes() {
    let data = [0x00u8, 0x00, 0x80, 0x3f, 0x01];
    assert_eq!(read_u32(&data, 2), Err(DecodeError::Truncated));
    assert_eq!(read_u32(&data, 5), Err(DecodeError::Truncated));
    assert_eq!(read_u32(&data, usize::MAX), Err(DecodeError::Truncated));
    assert_eq!(read_u32(&[], 0), Err(DecodeError::Truncated));
}

#[test]
fn read_u32_reaches_both_ends_of_the_range() {
    assert_eq!(read_u32(&[0, 0, 0, 0], 0), Ok(0));
    assert_eq!(read_u32(&[0xff, 0xff, 0xff, 0xff], 0), Ok(u32::MAX));
}

#[test]
fn read_i32_is_twos_complement() {
    assert_eq!(read_i32(&[0xff, 0xff, 0xff, 0xff], 0), Ok(-1));
    assert_eq!(read_i32(&[0x00, 0x00, 0x00, 0x80], 0), Ok(i32::MIN));
    assert_eq!(read_i32(&[0xff, 0xff, 0xff, 0x7f], 0), Ok(i32::MAX));
    assert_eq!(read_i32(&[0x2a, 0x00, 0x00, 0x00], 0), Ok(42));
    assert_eq!(read_i32(&[0x2a, 0x00, 0x00], 0), Err(DecodeError::Truncated));
}

#[test]
fn read_u64_is_little_endian() {
    let data = [0x08u8, 0x07, 0x06, 0x05, 0x04, 0x03, 0x02, 0x01];
    assert_eq!(read_u64(&data, 0), Ok(0x0102_0304_0506_0708));
    assert_eq!(read_u64(&data, 1), Err(DecodeError::Truncated));
    assert_eq!(read_u64(&[0xff; 8], 0), Ok(u64::MAX));
}

#[test]
fn read_i64_is_twos_complement() {
    assert_eq!(read_i64(&[0xff; 8], 0), Ok(-1));
    assert_eq!(read_i64(&[0, 0, 0, 0, 0, 0, 0, 0x80], 0), Ok(i64::MIN));
    assert_eq!(read_i64(&[0xfe, 0xff, 0xff, 0xff, 0xff, 0xff, 0xff, 0xff], 0), Ok(-2));
    assert_eq!(read_i64(&[0; 7], 0), Err(DecodeError::Truncated));
}

#[test]
fn bits_are_reinterpreted_not_converted() {
    assert_eq!(i32_from_bits(0), 0);
    assert_eq!(i32_from_bits(0x7fff_ffff), i32::MAX);
    assert_eq!(i32_from_bits(0x8000_0000), i32::MIN);
    assert_eq!(i32_from_bits(0xffff_fffe), -2);
    assert_eq!(i64_from_bits(0x8000_0000_0000_0000), i64::MIN);
    assert_eq!(i64_from_bits(u64::MAX), -1);
    assert_eq!(i64_from_bits(7), 7);
}

#[test]
fn find_nul_returns_the_first_terminator() {
    let data = [b'a', b'b', 0, b'c', 0];
    assert_eq!(find_nul(&data, 0, 5), Some(2));
    assert_eq!(find_nul(&data, 3, 5), Some(4));
    assert_eq!(find_nul(&data, 0, 2), None);
    assert_eq!(find_nul(&data, 2, 2), None);
}

#[test]
fn c_string_stops_at_the_first_terminator() {
    let data = [b'T', b'e', b's', b't', 0, b'x', 0, 0];
    assert_eq!(read_c_string(&data, 0, 8), Ok("Test".to_string()));
    assert_eq!(read_c_string(&data, 5, 3), Ok("x".to_string()));
    assert_eq!(read_c_string(&data, 4, 4), Ok(String::new()));
    assert_eq!(read_c_string_in(&data, 2, 8), Ok("st".to_string()));
}

#[test]
fn c_string_field_has_to_lie_inside_the_record() {
    let data = [b'T', b'e', b's', b't', 0];
    assert_eq!(read_c_string(&data, 0, 6), Err(DecodeError::Truncated));
    assert_eq!(read_c_string(&data, 6, 0), Err(DecodeError::Truncated));
    assert_eq!(read_c_string(&data, usize::MAX, 2), Err(DecodeError::Truncated));
}

#[test]
fn c_string_without_terminator_is_malformed() {
    let data = [b'T', b'e', b's', b't', 0];
    assert_eq!(read_c_string(&data, 0, 4), Err(DecodeError::MalformedString));
    assert_eq!(read_c_string(&data, 0, 0), Err(DecodeError::MalformedString));
}

#[test]
fn c_string_has_to_be_utf8() {
    let bad = [0xffu8, 0xfe, 0];
    assert_eq!(read_c_string(&bad, 0, 3), Err(DecodeError::MalformedString));
    let lone_continuation = [b'a', 0x80, 0];
    assert_eq!(read_c_string(&lone_continuation, 0, 3), Err(DecodeError::MalformedString));
    let truncated_sequence = [0xe2u8, 0x82, 0];
    assert_eq!(read_c_string(&truncated_sequence, 0, 3), Err(DecodeError::MalformedString));
}

#[test]
fn c_string_decodes_utf8() {
    let euro = [0xe2u8, 0x82, 0xac, b'5', 0];
    assert_eq!(read_c_string(&euro, 0, 5), Ok("\u{20ac}5".to_string()));
    let umlaut = [b'Z', 0xc3, 0xbc, b'r', b'i', b'c', b'h', 0];
    assert_eq!(read_c_string(&umlaut, 0, 8), Ok("Z\u{fc}rich".to_string()));
}

#[test]
fn zero_status_is_success() {
    assert_eq!(check_hr(0), Ok(()));
}

#[test]
fn nonzero_status_fails_with_the_raw_status() {
    assert_eq!(check_hr(1), Err(SimConnectError::HostCallFailed(1)));
    assert_eq!(check_hr(-1), Err(SimConnectError::HostCallFailed(0xffff_ffff)));
    assert_eq!(check_hr(i32::MIN), Err(SimConnectError::HostCallFailed(0x8000_0000)));
    assert_eq!(check_hr(i32::MAX), Err(SimConnectError::HostCallFailed(0x7fff_ffff)));
    // E_FAIL as the host reports it
    assert_eq!(check_hr(-2147467259), Err(SimConnectError::HostCallFailed(0x8000_4005)));
}

#[test]
fn a_decode_error_is_a_failed_decode() {
    assert_eq!(
        SimConnectError::from(DecodeError::Truncated),
        SimConnectError::DecodeFailed(DecodeError::Truncated)
    );
    assert_eq!(
        SimConnectError::from(DecodeError::MalformedString),
        SimConnectError::DecodeFailed(DecodeError::MalformedString)
    );
    let wrapped: SimConnectError = DecodeError::UnknownDiscriminant.into();
    assert_eq!(wrapped, SimConnectError::DecodeFailed(DecodeError::UnknownDiscriminant));
}
