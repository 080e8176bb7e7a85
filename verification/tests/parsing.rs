use boilert::w1::{parse_w1_slave, W1Error};

#[test]
fn good_transcript_parses_and_rounds() {
    let content = b"72 01 4b 46 7f ff 0e 10 57 : crc=57 YES\n72 01 4b 46 7f ff 0e 10 57 t=23125\n";
    // 23.125 degrees rounds half away from zero to 23.13.
    assert_eq!(parse_w1_slave(content), Ok(23_130));
}

#[test]
fn exact_multiple_of_ten_is_unchanged() {
    let content = b"aa YES\nbb t=21500\n";
    assert_eq!(parse_w1_slave(content), Ok(21_500));
}

#[test]
fn rounds_down_below_half() {
    let content = b"YES t=1234";
    assert_eq!(parse_w1_slave(content), Ok(1_230));
}

#[test]
fn negative_temperature() {
    let content = b"YES t=-1234";
    assert_eq!(parse_w1_slave(content), Ok(-1_230));
}

#[test]
fn negative_rounds_away_from_zero() {
    let content = b"YES t=-1235";
    assert_eq!(parse_w1_slave(content), Ok(-1_240));
}

#[test]
fn missing_crc_marker_fails() {
    let content = b"72 01 4b 46 7f ff 0e 10 57 : crc=57 NO\n72 01 t=23125\n";
    assert_eq!(parse_w1_slave(content), Err(W1Error::CrcCheckFailed));
}

#[test]
fn missing_temperature_field_fails() {
    let content = b"72 01 4b 46 7f ff 0e 10 57 : crc=57 YES\n72 01 4b 46\n";
    assert_eq!(parse_w1_slave(content), Err(W1Error::TemperatureNotFound));
}

#[test]
fn junk_after_marker_fails() {
    assert_eq!(parse_w1_slave(b"YES t=abc"), Err(W1Error::MalformedTemperature));
}

#[test]
fn empty_field_fails() {
    assert_eq!(parse_w1_slave(b"YES t= \n"), Err(W1Error::MalformedTemperature));
}

#[test]
fn bare_minus_fails() {
    assert_eq!(parse_w1_slave(b"YES t=-"), Err(W1Error::MalformedTemperature));
}

#[test]
fn trailing_junk_fails() {
    assert_eq!(parse_w1_slave(b"YES t=123x5"), Err(W1Error::MalformedTemperature));
}

#[test]
fn too_many_digits_fail() {
    assert_eq!(
        parse_w1_slave(b"YES t=1234567890123456789"),
        Err(W1Error::TemperatureOutOfRange)
    );
}

#[test]
fn eighteen_digits_still_parse() {
    assert_eq!(
        parse_w1_slave(b"YES t=123456789012345675"),
        Ok(123_456_789_012_345_680)
    );
}

#[test]
fn whitespace_around_field_is_trimmed() {
    assert_eq!(parse_w1_slave(b"YES t=  500 \r\n"), Ok(500));
}

#[test]
fn first_marker_wins() {
    // Parsing reads the field after the first `t=`; interior whitespace is
    // not trimmed, so a second marker in the remainder is malformed input.
    assert_eq!(parse_w1_slave(b"YES t=100 t=200"), Err(W1Error::MalformedTemperature));
}
