use turso_fdw::parse_rfc3339_micros;

#[test]
fn epoch_itself() {
    assert_eq!(parse_rfc3339_micros("1970-01-01T00:00:00Z"), Some(0));
    assert_eq!(parse_rfc3339_micros("1970-01-01T00:00:00+00:00"), Some(0));
    assert_eq!(parse_rfc3339_micros("1970-01-01T01:30:00+01:30"), Some(0));
    assert_eq!(parse_rfc3339_micros("1969-12-31T23:00:00-01:00"), Some(0));
}

#[test]
fn utc_instant() {
    assert_eq!(
        parse_rfc3339_micros("2019-10-12T07:20:50Z"),
        Some(1_570_864_850_000_000)
    );
}

#[test]
fn lowercase_t_and_z() {
    assert_eq!(
        parse_rfc3339_micros("2019-10-12t07:20:50z"),
        Some(1_570_864_850_000_000)
    );
}

#[test]
fn fractional_seconds() {
    assert_eq!(
        parse_rfc3339_micros("2019-10-12T07:20:50.52Z"),
        Some(1_570_864_850_520_000)
    );
    assert_eq!(parse_rfc3339_micros("1970-01-01T00:00:00.5Z"), Some(500_000));
    // digits past the microsecond are truncated
    assert_eq!(
        parse_rfc3339_micros("1970-01-01T00:00:00.1234567Z"),
        Some(123_456)
    );
}

#[test]
fn negative_offset() {
    assert_eq!(
        parse_rfc3339_micros("1996-12-19T16:39:57-08:00"),
        Some(851_042_397_000_000)
    );
}

#[test]
fn positive_offset() {
    assert_eq!(
        parse_rfc3339_micros("2019-10-12T07:20:50+05:30"),
        Some(1_570_845_050_000_000)
    );
}

#[test]
fn leap_year_day() {
    assert_eq!(
        parse_rfc3339_micros("2000-02-29T00:00:00Z"),
        Some(951_782_400_000_000)
    );
}

#[test]
fn before_the_epoch() {
    assert_eq!(
        parse_rfc3339_micros("1900-01-01T00:00:00Z"),
        Some(-2_208_988_800_000_000)
    );
}

#[test]
fn rejects_non_dates() {
    assert_eq!(parse_rfc3339_micros("not-a-date"), None);
    assert_eq!(parse_rfc3339_micros(""), None);
    assert_eq!(parse_rfc3339_micros("2019-10-12"), None);
}

#[test]
fn rejects_invalid_calendar_dates() {
    // 2019 is no leap year, 2100 is no leap year, 2000 is one
    assert_eq!(parse_rfc3339_micros("2019-02-29T00:00:00Z"), None);
    assert_eq!(parse_rfc3339_micros("2100-02-29T00:00:00Z"), None);
    assert_eq!(parse_rfc3339_micros("2019-13-01T00:00:00Z"), None);
    assert_eq!(parse_rfc3339_micros("2019-00-01T00:00:00Z"), None);
    assert_eq!(parse_rfc3339_micros("2019-01-00T00:00:00Z"), None);
    assert_eq!(parse_rfc3339_micros("2019-01-32T00:00:00Z"), None);
    assert_eq!(parse_rfc3339_micros("2019-04-31T00:00:00Z"), None);
}

#[test]
fn rejects_invalid_clock_times() {
    assert_eq!(parse_rfc3339_micros("2019-01-01T24:00:00Z"), None);
    assert_eq!(parse_rfc3339_micros("2019-01-01T00:60:00Z"), None);
    assert_eq!(parse_rfc3339_micros("2019-01-01T00:00:60Z"), None);
}

#[test]
fn rejects_malformed_shapes() {
    // no offset at all
    assert_eq!(parse_rfc3339_micros("2019-01-01T00:00:00"), None);
    // space instead of the date-time separator
    assert_eq!(parse_rfc3339_micros("2019-01-01 00:00:00Z"), None);
    // a dot with no fraction digit
    assert_eq!(parse_rfc3339_micros("2019-01-01T00:00:00.Z"), None);
    // trailing characters after the offset
    assert_eq!(parse_rfc3339_micros("2019-01-01T00:00:00Zx"), None);
    // out-of-range offset hours
    assert_eq!(parse_rfc3339_micros("2019-01-01T00:00:00+24:00"), None);
    // single-digit month
    assert_eq!(parse_rfc3339_micros("2019-1-01T00:00:00Z"), None);
}
