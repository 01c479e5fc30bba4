use sysreport::duration::format_duration;
use sysreport::text::u64_to_dec;

/// Splits a rendered duration back into (days, hours, minutes), panicking
/// on anything that is not one of the three documented forms.
fn parsed_components(text: &str) -> (u64, u64, u64) {
    let parts: Vec<&str> = text.split(' ').collect();
    match parts.len() {
        3 => (
            parts[0].strip_suffix('d').unwrap().parse().unwrap(),
            parts[1].strip_suffix('h').unwrap().parse().unwrap(),
            parts[2].strip_suffix('m').unwrap().parse().unwrap(),
        ),
        2 => (
            0,
            parts[0].strip_suffix('h').unwrap().parse().unwrap(),
            parts[1].strip_suffix('m').unwrap().parse().unwrap(),
        ),
        1 => (0, 0, parts[0].strip_suffix('m').unwrap().parse().unwrap()),
        _ => panic!("unexpected duration form: {}", text),
    }
}

#[test]
fn format_zero() {
    assert_eq!(format_duration(0), "0m");
}

#[test]
fn format_under_one_minute() {
    assert_eq!(format_duration(59), "0m");
}

#[test]
fn format_one_minute() {
    assert_eq!(format_duration(60), "1m");
}

#[test]
fn format_one_hour() {
    assert_eq!(format_duration(3600), "1h 0m");
}

#[test]
fn format_hour_and_minute() {
    assert_eq!(format_duration(3661), "1h 1m");
}

#[test]
fn format_day_hour_minute() {
    assert_eq!(format_duration(90000), "1d 1h 0m");
}

#[test]
fn exactly_one_form_and_minutes_reconstruct() {
    let samples: [u64; 14] =
        [0, 1, 59, 60, 61, 3599, 3600, 3661, 86399, 86400, 90000, 123456789, 31536000, 1_000_000_007];
    for s in samples {
        let text = format_duration(s);
        let expected_parts = if s / 86400 > 0 {
            3
        } else if (s / 3600) % 24 > 0 {
            2
        } else {
            1
        };
        assert_eq!(text.split(' ').count(), expected_parts, "form of {}: {}", s, text);
        let (d, h, m) = parsed_components(&text);
        assert_eq!(d * 1440 + h * 60 + m, s / 60, "minutes of {}: {}", s, text);
    }
}

#[test]
fn decimal_rendering() {
    assert_eq!(u64_to_dec(0), "0");
    assert_eq!(u64_to_dec(7), "7");
    assert_eq!(u64_to_dec(10), "10");
    assert_eq!(u64_to_dec(90210), "90210");
    assert_eq!(u64_to_dec(u64::MAX), "18446744073709551615");
}
