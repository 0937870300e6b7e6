use awc_control::protocol::{decode_response, encode_command, parse_hex, CommandCode, CommandError};

#[test]
fn encode_matches_the_hardware_format() {
    let c = CommandCode::get_fan_boost(50);
    assert_eq!(encode_command(&c), b"\\_SB.AMW3.WMAX 0 20 { 12, 50, 0, 0 }".to_vec());
}

#[test]
fn encode_writes_multi_digit_arguments() {
    let c = CommandCode::set_fan_boost(51, 255);
    assert_eq!(encode_command(&c), b"\\_SB.AMW3.WMAX 0 21 { 2, 51, 255, 0 }".to_vec());
}

#[test]
fn encode_writes_zero_as_one_digit() {
    let c = CommandCode::get_power_mode();
    assert_eq!(encode_command(&c), b"\\_SB.AMW3.WMAX 0 20 { 11, 0, 0, 0 }".to_vec());
}

#[test]
fn operation_table_is_fixed() {
    assert_eq!(
        CommandCode::get_fan_boost(7),
        CommandCode { primary: 0x14, sub: 0x0c, arg0: 7, arg1: 0 }
    );
    assert_eq!(
        CommandCode::set_fan_boost(7, 99),
        CommandCode { primary: 0x15, sub: 0x02, arg0: 7, arg1: 99 }
    );
    assert_eq!(
        CommandCode::get_fan_rpm(7),
        CommandCode { primary: 0x14, sub: 0x05, arg0: 7, arg1: 0 }
    );
    assert_eq!(
        CommandCode::get_temp(3),
        CommandCode { primary: 0x14, sub: 0x04, arg0: 3, arg1: 0 }
    );
    assert_eq!(
        CommandCode::get_power_mode(),
        CommandCode { primary: 0x14, sub: 0x0b, arg0: 0, arg1: 0 }
    );
    assert_eq!(
        CommandCode::set_power_mode(0xab),
        CommandCode { primary: 0x15, sub: 0x01, arg0: 0xab, arg1: 0 }
    );
}

#[test]
fn decode_strips_prefix_and_parses_hex() {
    assert_eq!(decode_response(b"0xabc"), Ok(0xabc));
    assert_eq!(decode_response(b"0x0"), Ok(0));
    assert_eq!(decode_response(b"0x1A"), Ok(26));
    assert_eq!(decode_response(b"0xFF"), Ok(255));
}

#[test]
fn decode_rejects_short_responses() {
    assert_eq!(decode_response(b""), Err(CommandError::Protocol));
    assert_eq!(decode_response(b"0x"), Err(CommandError::Protocol));
    assert_eq!(decode_response(b"0"), Err(CommandError::Protocol));
}

#[test]
fn decode_rejects_non_hex_payloads() {
    assert_eq!(decode_response(b"0xzz"), Err(CommandError::Protocol));
    assert_eq!(decode_response(b"0x12 "), Err(CommandError::Protocol));
    assert_eq!(decode_response(b"0x-1"), Err(CommandError::Protocol));
}

#[test]
fn decode_rejects_values_beyond_i64() {
    assert_eq!(decode_response(b"0xffffffffffffffff"), Err(CommandError::Protocol));
    assert_eq!(decode_response(b"0x8000000000000000"), Err(CommandError::Protocol));
    assert_eq!(decode_response(b"0x7fffffffffffffff"), Ok(i64::MAX));
}

#[test]
fn parse_hex_reads_plain_numerals() {
    assert_eq!(parse_hex(b"0"), Ok(0));
    assert_eq!(parse_hex(b"10"), Ok(16));
    assert_eq!(parse_hex(b"00ff"), Ok(255));
    assert_eq!(parse_hex(b""), Err(CommandError::Protocol));
}
