use neon_beat_back::game::TeamColor;
use neon_beat_back::input::TeamInput;
use neon_beat_back::socket::BuzzerInboundMessage;
use neon_beat_back::validation::validate_buzzer_id;

#[test]
fn test_validate_buzzer_id_valid() {
    assert!(validate_buzzer_id("deadbeef0001").is_ok());
    assert!(validate_buzzer_id("123456789abc").is_ok());
    assert!(validate_buzzer_id("000000000000").is_ok());
}

#[test]
fn test_validate_buzzer_id_invalid_length() {
    assert!(validate_buzzer_id("deadbeef001").is_err());
    assert!(validate_buzzer_id("deadbeef00001").is_err());
    assert!(validate_buzzer_id("").is_err());
}

#[test]
fn test_validate_buzzer_id_invalid_format() {
    assert!(validate_buzzer_id("DeadBeef0001").is_err());
    assert!(validate_buzzer_id("DEADBEEF0001").is_err());
    assert!(validate_buzzer_id("deadbeef000g").is_err());
    assert!(validate_buzzer_id("deadbeef 001").is_err());
}

#[test]
fn length_is_checked_before_format() {
    let err = validate_buzzer_id("XYZ").unwrap_err();
    assert_eq!(err.code, "buzzer_id_length");
    let err = validate_buzzer_id("XYZXYZXYZXYZ").unwrap_err();
    assert_eq!(err.code, "buzzer_id_format");
}

#[test]
fn inbound_messages_check_their_identifier() {
    let good = BuzzerInboundMessage::Buzz { id: "deadbeef0001".to_string() };
    assert!(good.validate().is_ok());
    let bad = BuzzerInboundMessage::Identification { id: "nope".to_string() };
    assert_eq!(bad.validate().unwrap_err().code, "buzzer_id_length");
}

#[test]
fn team_colors_must_stay_in_range() {
    let with_color = |s: f32, v: f32| TeamInput {
        name: "A".to_string(),
        buzzer_id: None,
        score: None,
        color: Some(TeamColor { h: 400.0f32.to_bits(), s: s.to_bits(), v: v.to_bits() }),
    };
    assert!(with_color(0.0, 1.0).validate().is_ok());
    assert!(with_color(-0.0, f32::NAN).validate().is_ok());
    let err = with_color(1.5, -0.1).validate().unwrap_err();
    let paths: Vec<&str> = err.issues.iter().map(|i| i.path.as_str()).collect();
    assert_eq!(paths, vec!["color.s", "color.v"]);
    assert_eq!(err.issues[0].error.code, "range");
    assert_eq!(err.describe(), "color.s: range\ncolor.v: range");
}
