use neon_beat_back::game::Timestamp;
use neon_beat_back::ids::{timestamp_of_reading, ClockReading};
use neon_beat_back::summary::format_system_time;

#[test]
fn readings_after_the_epoch_keep_their_value() {
    let t = timestamp_of_reading(ClockReading::AfterEpoch { secs: 1_700_000_000, nanos: 250 });
    assert_eq!(t, Timestamp { secs: 1_700_000_000, nanos: 250 });
}

#[test]
fn readings_before_the_epoch_stay_before_it() {
    let whole = timestamp_of_reading(ClockReading::BeforeEpoch { secs: 3, nanos: 0 });
    assert_eq!(whole, Timestamp { secs: -3, nanos: 0 });
    let part = timestamp_of_reading(ClockReading::BeforeEpoch { secs: 1, nanos: 500_000_000 });
    assert_eq!(part, Timestamp { secs: -2, nanos: 500_000_000 });
}

#[test]
fn instants_are_formatted_as_rfc3339() {
    assert_eq!(format_system_time(Timestamp { secs: 0, nanos: 0 }), "1970-01-01T00:00:00Z");
    assert_eq!(format_system_time(Timestamp { secs: 1_700_000_000, nanos: 0 }), "2023-11-14T22:13:20Z");
    assert_eq!(format_system_time(Timestamp { secs: -1, nanos: 0 }), "1969-12-31T23:59:59Z");
    assert_eq!(format_system_time(Timestamp { secs: -2, nanos: 500_000_000 }), "1969-12-31T23:59:58.5Z");
}

#[test]
fn years_before_zero_are_invalid() {
    assert_eq!(format_system_time(Timestamp { secs: -62_167_219_201, nanos: 0 }), "invalid-timestamp");
    assert_eq!(format_system_time(Timestamp { secs: -62_167_219_200, nanos: 0 }), "0000-01-01T00:00:00Z");
    assert_eq!(format_system_time(Timestamp { secs: 253_402_300_799, nanos: 0 }), "9999-12-31T23:59:59Z");
}
