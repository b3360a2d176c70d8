use prefix::format_duration;

#[test]
fn millis_boundary() {
    assert_eq!(format_duration(999, false), "999 millis");
    assert_eq!(format_duration(999, true), "999ms");
}

#[test]
fn second_boundary() {
    assert_eq!(format_duration(1000, false), "1 second");
    assert_eq!(format_duration(1000, true), "1s");
}

#[test]
fn zero_duration() {
    assert_eq!(format_duration(0, false), "0 seconds");
    assert_eq!(format_duration(0, true), "0s");
}

#[test]
fn two_minutes() {
    assert_eq!(format_duration(120_000, false), "2 minutes");
    assert_eq!(format_duration(120_000, true), "2m");
}

#[test]
fn singular_units() {
    assert_eq!(format_duration(1, false), "1 milli");
    assert_eq!(format_duration(60_000, false), "1 minute");
    assert_eq!(format_duration(3_600_000, false), "1 hour");
    assert_eq!(format_duration(86_400_000, false), "1 day");
    assert_eq!(format_duration(604_800_000, false), "1 week");
    assert_eq!(format_duration(31_536_000_000, false), "1 year");
}

#[test]
fn plural_and_truncation() {
    assert_eq!(format_duration(2_500, false), "2 seconds");
    assert_eq!(format_duration(7_200_000, true), "2h");
    assert_eq!(format_duration(1_999, false), "1 second");
    assert_eq!(format_duration(3_599_999, false), "59 minutes");
}

#[test]
fn only_largest_unit_is_shown() {
    // one hour and five minutes still renders as the single largest unit
    assert_eq!(format_duration(3_900_000, false), "1 hour");
}
