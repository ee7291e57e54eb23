use scale_comparison::text::dec_string;
use scale_comparison::units::{duration_text, DAY, GIGA, HOUR, MEGA, MINUTE, TERA, YEAR};

#[test]
fn test_dec_string() {
    assert_eq!(dec_string(0), "0");
    assert_eq!(dec_string(7), "7");
    assert_eq!(dec_string(12345), "12345");
    assert_eq!(dec_string(1000000), "1000000");
}

/// The duration formatting table: one representative whole-second count
/// for every unit of the cascade.
#[test]
fn test_duration_table() {
    let table: Vec<(u128, &str)> = vec![
        (MINUTE, "60 s"),
        (8 * MINUTE + 20, "8 m 20 s"),
        (HOUR, "60 m"),
        (HOUR + 32 * MINUTE, "1 h 32 m"),
        (DAY, "24 h"),
        (7 * DAY, "7 d"),
        (2626560, "30.4 d"), // 30.4 days
        (YEAR, "365.24 d"),
        (299791044, "9.5 y"), // 9.5 years
        (MEGA * YEAR, "1 My"),
        (540 * MEGA * YEAR, "540 My"),
        (GIGA * YEAR, "1 Gy"),
        (2500 * MEGA * YEAR, "2.5 Gy"),
        (TERA * YEAR, "1 Ty"),
        (10 * TERA * YEAR, "10 Ty"),
    ];
    for (secs, expected) in table {
        assert_eq!(duration_text(secs), expected, "for {} seconds", secs);
    }
}

#[test]
fn test_duration_edges() {
    assert_eq!(duration_text(0), "0 s");
    assert_eq!(duration_text(59), "59 s");
    assert_eq!(duration_text(61), "1 m 1 s");
    assert_eq!(duration_text(3599), "59 m 59 s");
    assert_eq!(duration_text(3601), "1 h 0 m");
    assert_eq!(duration_text(86399), "23 h 60 m");
    assert_eq!(duration_text(86401), "1 d");
    assert_eq!(duration_text(90000), "1.0417 d");
}

/// Leftover minutes round to the nearest whole minute, ties to even.
#[test]
fn test_duration_minute_rounding() {
    assert_eq!(duration_text(HOUR + 90), "1 h 2 m");
    assert_eq!(duration_text(HOUR + 30), "1 h 0 m");
    assert_eq!(duration_text(HOUR + 3 * MINUTE + 30), "1 h 4 m");
    assert_eq!(duration_text(HOUR + 4 * MINUTE + 30), "1 h 4 m");
}
