use ws_security::instant::{Duration, UtcInstant, NANOS_PER_SEC, SECS_MAX, SECS_MIN};
use ws_security::timestamp::render_timestamp;
use ws_security::wssu_id::WSSUId;
use ws_security::Timestamp;

const NEW_YEAR_2024: i64 = 1_704_067_200;

fn at(secs: i64, nanos: u32) -> UtcInstant {
    UtcInstant::new(secs, nanos).unwrap()
}

fn fixed_id() -> WSSUId {
    WSSUId { uuid: 0x67e55044_10b1_426f_9247_bb680e5fe0c8, ending: 123 }
}

fn nanos_between(from: &UtcInstant, to: &UtcInstant) -> i128 {
    (to.secs as i128 - from.secs as i128) * 1_000_000_000 + to.nanos as i128 - from.nanos as i128
}

#[test]
fn instant_new_accepts_the_representable_range() {
    assert_eq!(UtcInstant::new(0, 0), Some(UtcInstant { secs: 0, nanos: 0 }));
    assert!(UtcInstant::new(SECS_MIN, 0).is_some());
    assert!(UtcInstant::new(SECS_MAX, 999_999_999).is_some());
    assert_eq!(UtcInstant::new(SECS_MIN - 1, 0), None);
    assert_eq!(UtcInstant::new(SECS_MAX + 1, 0), None);
    assert_eq!(UtcInstant::new(0, NANOS_PER_SEC), None);
    assert_eq!(UtcInstant::new(i64::MAX, 0), None);
    assert_eq!(UtcInstant::new(i64::MIN, 0), None);
}

#[test]
fn representable_range_is_that_of_chrono() {
    assert_eq!(chrono::DateTime::<chrono::Utc>::MIN_UTC.timestamp(), SECS_MIN);
    assert_eq!(chrono::DateTime::<chrono::Utc>::MAX_UTC.timestamp(), SECS_MAX);
    assert!(chrono::DateTime::from_timestamp(SECS_MIN, 0).is_some());
    assert!(chrono::DateTime::from_timestamp(SECS_MIN - 1, 999_999_999).is_none());
    assert!(chrono::DateTime::from_timestamp(SECS_MAX, 999_999_999).is_some());
    assert!(chrono::DateTime::from_timestamp(SECS_MAX + 1, 0).is_none());
}

#[test]
fn rfc3339_of_known_instants() {
    assert_eq!(at(NEW_YEAR_2024, 0).to_rfc3339_millis(), "2024-01-01T00:00:00.000Z");
    assert_eq!(at(0, 0).to_rfc3339_millis(), "1970-01-01T00:00:00.000Z");
    assert_eq!(at(-1, 0).to_rfc3339_millis(), "1969-12-31T23:59:59.000Z");
    assert_eq!(at(951_782_400, 0).to_rfc3339_millis(), "2000-02-29T00:00:00.000Z");
    assert_eq!(at(1_718_454_645, 123_000_000).to_rfc3339_millis(), "2024-06-15T12:30:45.123Z");
}

#[test]
fn rfc3339_truncates_to_milliseconds() {
    assert_eq!(at(NEW_YEAR_2024, 999_999).to_rfc3339_millis(), "2024-01-01T00:00:00.000Z");
    assert_eq!(at(NEW_YEAR_2024, 1_000_000).to_rfc3339_millis(), "2024-01-01T00:00:00.001Z");
    assert_eq!(at(NEW_YEAR_2024, 999_999_999).to_rfc3339_millis(), "2024-01-01T00:00:00.999Z");
}

#[test]
fn rfc3339_at_the_ends_of_the_range() {
    assert_eq!(at(SECS_MIN, 0).to_rfc3339_millis(), "-262143-01-01T00:00:00.000Z");
    assert_eq!(at(SECS_MAX, 999_999_999).to_rfc3339_millis(), "+262142-12-31T23:59:59.999Z");
}

#[test]
fn rfc3339_agrees_with_chrono() {
    let mut secs: i64 = -62_000_000_000;
    let mut nanos: u32 = 1;
    while secs < 260_000_000_000 {
        let expected = chrono::DateTime::from_timestamp(secs, nanos)
            .unwrap()
            .to_rfc3339_opts(chrono::SecondsFormat::Millis, true);
        assert_eq!(at(secs, nanos).to_rfc3339_millis(), expected);
        secs += 86_400 * 977 + 3_607;
        nanos = (nanos * 7 + 123_456_789) % NANOS_PER_SEC;
    }
}

#[test]
fn duration_constructors() {
    assert_eq!(Duration::minutes(5), Duration { secs: 300, nanos: 0 });
    assert_eq!(Duration::minutes(0), Duration { secs: 0, nanos: 0 });
    assert_eq!(Duration::minutes(-2), Duration { secs: -120, nanos: 0 });
    assert_eq!(Duration::seconds(-7), Duration { secs: -7, nanos: 0 });
    assert_eq!(Duration::new(1, 500_000_000), Some(Duration { secs: 1, nanos: 500_000_000 }));
    assert_eq!(Duration::new(1, NANOS_PER_SEC), None);
    assert_eq!(Duration::new(i64::MIN, 0), Some(Duration { secs: i64::MIN, nanos: 0 }));
}

#[test]
fn checked_add_carries_nanoseconds() {
    let t = at(10, 600_000_000);
    let d = Duration::new(2, 700_000_000).unwrap();
    assert_eq!(t.checked_add(&d), Some(UtcInstant { secs: 13, nanos: 300_000_000 }));
    let d = Duration::new(2, 400_000_000).unwrap();
    assert_eq!(t.checked_add(&d), Some(UtcInstant { secs: 13, nanos: 0 }));
    let d = Duration::new(2, 399_999_999).unwrap();
    assert_eq!(t.checked_add(&d), Some(UtcInstant { secs: 12, nanos: 999_999_999 }));
}

#[test]
fn checked_add_of_a_negative_span() {
    let t = at(10, 100_000_000);
    let minus_half = Duration::new(-1, 500_000_000).unwrap();
    assert_eq!(t.checked_add(&minus_half), Some(UtcInstant { secs: 9, nanos: 600_000_000 }));
    assert_eq!(t.checked_add(&Duration::seconds(-20)), Some(UtcInstant { secs: -10, nanos: 100_000_000 }));
}

#[test]
fn checked_add_stops_at_the_ends_of_the_range() {
    let last = at(SECS_MAX, 999_999_999);
    assert_eq!(last.checked_add(&Duration::seconds(0)), Some(last));
    assert_eq!(last.checked_add(&Duration::new(0, 1).unwrap()), None);
    assert_eq!(last.checked_add(&Duration::seconds(i64::MAX)), None);
    let first = at(SECS_MIN, 0);
    assert_eq!(first.checked_add(&Duration::new(-1, 999_999_999).unwrap()), None);
    assert_eq!(first.checked_add(&Duration::seconds(i64::MIN)), None);
    assert_eq!(
        first.checked_add(&Duration::seconds(SECS_MAX - SECS_MIN)),
        Some(UtcInstant { secs: SECS_MAX, nanos: 0 })
    );
}

#[test]
fn checked_add_agrees_with_chrono() {
    let t = chrono::DateTime::from_timestamp(NEW_YEAR_2024, 250_000_000).unwrap();
    let sum = t + chrono::Duration::new(-86_401, 900_000_000).unwrap();
    let mine = at(NEW_YEAR_2024, 250_000_000)
        .checked_add(&Duration::new(-86_401, 900_000_000).unwrap())
        .unwrap();
    assert_eq!((mine.secs, mine.nanos), (sum.timestamp(), sum.timestamp_subsec_nanos()));
}

#[test]
fn expiry_is_creation_plus_duration() {
    let created = at(NEW_YEAR_2024, 123_456_789);
    for span in [
        Duration::minutes(5),
        Duration::seconds(0),
        Duration::seconds(-30),
        Duration::new(0, 1).unwrap(),
        Duration::new(86_399, 999_999_999).unwrap(),
    ] {
        let t = Timestamp::starting_at(created, span, fixed_id()).unwrap();
        assert_eq!(t.created, created);
        assert_eq!(t.wssu_id, fixed_id());
        assert_eq!(
            nanos_between(&t.created, &t.expires),
            span.secs as i128 * 1_000_000_000 + span.nanos as i128
        );
    }
}

#[test]
fn five_minutes_after_new_year() {
    let t = Timestamp::starting_at(at(NEW_YEAR_2024, 0), Duration::minutes(5), fixed_id()).unwrap();
    assert_eq!(t.expires.to_rfc3339_millis(), "2024-01-01T00:05:00.000Z");
    assert!(t.xml().contains("<wssu:Expires>2024-01-01T00:05:00.000Z</wssu:Expires>"));
    assert!(t.xml().contains("<wssu:Created>2024-01-01T00:00:00.000Z</wssu:Created>"));
}

#[test]
fn zero_and_negative_durations_are_accepted() {
    let created = at(NEW_YEAR_2024, 0);
    let t = Timestamp::starting_at(created, Duration::seconds(0), fixed_id()).unwrap();
    assert_eq!(t.expires, created);
    let t = Timestamp::starting_at(created, Duration::minutes(-5), fixed_id()).unwrap();
    assert_eq!(t.expires.to_rfc3339_millis(), "2023-12-31T23:55:00.000Z");
}

#[test]
fn unrepresentable_expiry_gives_none() {
    assert_eq!(Timestamp::starting_at(at(SECS_MAX, 0), Duration::seconds(1), fixed_id()), None);
    assert_eq!(Timestamp::starting_at(at(SECS_MIN, 0), Duration::seconds(-1), fixed_id()), None);
    assert!(Timestamp::starting_at(at(SECS_MAX, 0), Duration::seconds(0), fixed_id()).is_some());
}

#[test]
fn timestamp_xml_is_the_fixed_template() {
    let t = Timestamp::starting_at(at(NEW_YEAR_2024, 0), Duration::minutes(5), fixed_id()).unwrap();
    assert_eq!(
        t.xml(),
        "<wssu:Timestamp xmlns:wssu=\"http://docs.oasis-open.org/wss/2004/01/oasis-200401-wss-wssecurity-utility-1.0.xsd\" wssu:Id=\"uuid-67e55044-10b1-426f-9247-bb680e5fe0c8-123\"><wssu:Created>2024-01-01T00:00:00.000Z</wssu:Created><wssu:Expires>2024-01-01T00:05:00.000Z</wssu:Expires></wssu:Timestamp>"
    );
}

#[test]
fn render_timestamp_inserts_its_arguments_verbatim() {
    assert_eq!(
        render_timestamp("a", "b", "c"),
        "<wssu:Timestamp xmlns:wssu=\"http://docs.oasis-open.org/wss/2004/01/oasis-200401-wss-wssecurity-utility-1.0.xsd\" wssu:Id=\"a\"><wssu:Created>b</wssu:Created><wssu:Expires>c</wssu:Expires></wssu:Timestamp>"
    );
    assert_eq!(
        render_timestamp("", "", ""),
        "<wssu:Timestamp xmlns:wssu=\"http://docs.oasis-open.org/wss/2004/01/oasis-200401-wss-wssecurity-utility-1.0.xsd\" wssu:Id=\"\"><wssu:Created></wssu:Created><wssu:Expires></wssu:Expires></wssu:Timestamp>"
    );
}

#[test]
fn serializing_twice_gives_the_same_bytes() {
    let t = Timestamp::now(Duration::minutes(5), WSSUId::new()).unwrap();
    let first = t.xml();
    let second = t.xml();
    assert_eq!(first.as_bytes(), second.as_bytes());
    let copy = t;
    assert_eq!(copy.xml(), first);
}

#[test]
fn now_reads_the_clock_and_adds_the_duration() {
    let before = chrono::Utc::now().timestamp();
    let id = WSSUId::new();
    let t = Timestamp::now(Duration::minutes(5), id).unwrap();
    let after = chrono::Utc::now().timestamp();
    assert!(before <= t.created.secs && t.created.secs <= after);
    assert_eq!(t.wssu_id, id);
    assert_eq!(nanos_between(&t.created, &t.expires), 300_000_000_000);
    let zero = Timestamp::now(Duration::seconds(0), id).unwrap();
    assert_eq!(zero.created, zero.expires);
}

#[test]
fn validity_of_hand_set_fields() {
    assert!(UtcInstant { secs: 0, nanos: 0 }.is_valid());
    assert!(!UtcInstant { secs: 0, nanos: NANOS_PER_SEC }.is_valid());
    assert!(!UtcInstant { secs: SECS_MAX + 1, nanos: 0 }.is_valid());
    assert!(!UtcInstant { secs: SECS_MIN - 1, nanos: 0 }.is_valid());
    assert!(Duration { secs: -1, nanos: 999_999_999 }.is_valid());
    assert!(!Duration { secs: 0, nanos: NANOS_PER_SEC }.is_valid());
    let good = UtcInstant { secs: NEW_YEAR_2024, nanos: 0 };
    let bad = UtcInstant { secs: i64::MAX, nanos: 0 };
    assert!(Timestamp { created: good, expires: good, wssu_id: fixed_id() }.is_valid());
    assert!(!Timestamp { created: good, expires: bad, wssu_id: fixed_id() }.is_valid());
    assert!(!Timestamp { created: bad, expires: good, wssu_id: fixed_id() }.is_valid());
}

#[test]
fn text_ends_with_cut_off_milliseconds_and_z() {
    let mut secs: i64 = SECS_MIN;
    let mut nanos: u32 = 0;
    while secs <= SECS_MAX {
        let text = at(secs, nanos).to_rfc3339_millis();
        let expected = format!(".{:03}Z", nanos / 1_000_000);
        assert!(text.ends_with(&expected));
        assert!(!text.contains('+') || text.starts_with('+'));
        secs += 86_400 * 365 * 1_777 + 12_345;
        nanos = (nanos * 31 + 999_999_937) % NANOS_PER_SEC;
    }
}
