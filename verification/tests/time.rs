use dcprov::time::Timestamp;

#[test]
fn timestamp_is_read_from_rfc_3339() {
    assert_eq!(
        Timestamp::parse("2021-01-01T00:00:00Z"),
        Some(Timestamp::from_parts(1_609_459_200, 0).unwrap())
    );
    assert_eq!(
        Timestamp::parse("2015-05-15T00:00:00.250+02:00"),
        Some(Timestamp::from_parts(1_431_648_000 - 7200, 250_000_000).unwrap())
    );
}

#[test]
fn timestamp_is_not_read_from_other_text() {
    assert_eq!(Timestamp::parse(""), None);
    assert_eq!(Timestamp::parse("yesterday"), None);
    assert_eq!(Timestamp::parse("2021-01-01"), None);
    assert_eq!(Timestamp::parse("1609459200"), None);
}

#[test]
fn timestamp_reads_as_date_time_and_zone() {
    let t = Timestamp::from_parts(1_431_648_000, 0).unwrap();
    assert_eq!(t.to_text(), "2015-05-15 00:00:00 UTC");
    assert_eq!(t.secs(), 1_431_648_000);
    assert_eq!(t.nanos(), 0);
    let epoch = Timestamp::from_parts(0, 0).unwrap();
    assert_eq!(epoch.to_text(), "1970-01-01 00:00:00 UTC");
}

#[test]
fn timestamp_outside_the_calendar_is_not_made() {
    assert_eq!(Timestamp::from_parts(i64::MAX, 0), None);
    assert_eq!(Timestamp::from_parts(i64::MIN, 0), None);
    assert_eq!(Timestamp::from_parts(0, u32::MAX), None);
}

#[test]
fn timestamp_text_of_what_was_read() {
    let t = Timestamp::parse("2023-11-05T13:45:10Z").unwrap();
    assert_eq!(t.to_text(), "2023-11-05 13:45:10 UTC");
    let first = Timestamp::parse("0001-01-01T00:00:00Z").unwrap();
    assert_eq!(Timestamp::from_parts(first.secs(), first.nanos()), Some(first));
    assert_eq!(first.to_text(), "0001-01-01 00:00:00 UTC");
    let last = Timestamp::parse("9999-12-31T23:59:59.999999999Z").unwrap();
    assert_eq!(Timestamp::from_parts(last.secs(), last.nanos()), Some(last));
    assert_eq!(last.to_text(), "9999-12-31 23:59:59.999999999 UTC");
}

#[test]
fn leap_second_that_was_read_can_be_written() {
    let t = Timestamp::parse("2016-12-31T23:59:60Z").unwrap();
    assert_eq!(Timestamp::from_parts(t.secs(), t.nanos()), Some(t));
    assert_eq!(t.to_text(), "2016-12-31 23:59:60 UTC");
}
