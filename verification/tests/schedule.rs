use kruidvat_notification::schedule::{
    seconds_until, sleep_length, Instant, ScheduleError, Timetable, LAST_SECOND,
};

const EVERY_MINUTE: &str = "0 * * * * *";

// 2023-11-14T22:13:20Z
const NOW: i64 = 1_700_000_000;

fn instant(secs: i64, nanos: u32) -> Instant {
    Instant::new(secs, nanos).unwrap()
}

#[test]
fn instants_lie_between_1970_and_9999() {
    assert!(Instant::new(0, 0).is_some());
    assert!(Instant::new(NOW, 999_999_999).is_some());
    assert!(Instant::new(LAST_SECOND, 0).is_some());
    assert!(Instant::new(-1, 0).is_none());
    assert!(Instant::new(LAST_SECOND + 1, 0).is_none());
    assert!(Instant::new(NOW, 1_000_000_000).is_none());
    assert!(Instant::new(i64::MAX, 0).is_none());
    assert!(Instant::new(i64::MIN, u32::MAX).is_none());
    let now = instant(NOW, 7);
    assert_eq!(now.secs(), NOW);
    assert_eq!(now.nanos(), 7);
}

#[test]
fn whole_seconds_are_counted() {
    assert_eq!(seconds_until(&instant(NOW, 0), &instant(NOW + 40, 0)), 40);
    assert_eq!(seconds_until(&instant(NOW, 500_000_000), &instant(NOW + 40, 0)), 39);
    assert_eq!(seconds_until(&instant(NOW, 1), &instant(NOW + 1, 0)), 0);
    assert_eq!(seconds_until(&instant(NOW, 0), &instant(NOW + 1, 0)), 1);
    assert_eq!(seconds_until(&instant(NOW, 0), &instant(NOW, 999_999_999)), 0);
    assert_eq!(seconds_until(&instant(NOW, 200), &instant(NOW + 3, 200)), 3);
    assert_eq!(seconds_until(&instant(NOW, 200), &instant(NOW + 3, 900)), 3);
    assert_eq!(seconds_until(&instant(NOW, 0), &instant(NOW, 0)), 0);
    assert_eq!(seconds_until(&instant(NOW + 40, 0), &instant(NOW, 0)), 0);
    assert_eq!(seconds_until(&instant(NOW, 900), &instant(NOW, 100)), 0);
    assert_eq!(
        seconds_until(&instant(0, 0), &instant(LAST_SECOND, 0)),
        253_402_300_799
    );
}

#[test]
fn malformed_expression_is_refused() {
    assert_eq!(Timetable::parse("every now and then").err(), Some(ScheduleError::Malformed));
    assert_eq!(Timetable::parse("").err(), Some(ScheduleError::Malformed));
    assert_eq!(Timetable::parse("61 * * * * *").err(), Some(ScheduleError::Malformed));
}

#[test]
fn expression_is_kept_as_given() {
    let timetable = Timetable::parse(EVERY_MINUTE).unwrap();
    assert_eq!(timetable.expression(), EVERY_MINUTE);
}

#[test]
fn sleep_leads_to_the_next_scheduled_second() {
    let timetable = Timetable::parse(EVERY_MINUTE).unwrap();
    assert_eq!(timetable.sleep_from(&instant(NOW, 0)), Ok(40));
    assert_eq!(timetable.sleep_from(&instant(NOW, 500_000_000)), Ok(39));
    assert_eq!(timetable.sleep_from(&instant(NOW + 40, 0)), Ok(60));
    assert_eq!(timetable.sleep_from(&instant(NOW + 39, 999_999_999)), Ok(0));
    let hourly = Timetable::parse("0 30 * * * *").unwrap();
    assert_eq!(hourly.sleep_from(&instant(NOW, 0)), Ok(1000));
    let daily = Timetable::parse("15 0 9 * * * *").unwrap();
    assert_eq!(daily.sleep_from(&instant(NOW, 0)), Ok(38_815));
}

#[test]
fn schedule_without_a_further_instant_is_exhausted() {
    let past = Timetable::parse("0 0 0 1 1 * 1971").unwrap();
    assert_eq!(past.sleep_from(&instant(NOW, 0)), Err(ScheduleError::Exhausted));
}

#[test]
fn sleep_is_planned_from_a_given_instant() {
    let now = instant(NOW, 250_000_000);
    assert_eq!(sleep_length(&now, Some(NOW + 10)), Ok(9));
    assert_eq!(sleep_length(&now, Some(NOW + 1)), Ok(0));
    assert_eq!(sleep_length(&now, Some(NOW)), Ok(0));
    assert_eq!(sleep_length(&now, Some(NOW - 10)), Ok(0));
    assert_eq!(sleep_length(&now, Some(LAST_SECOND)), Ok((LAST_SECOND - NOW - 1) as u64));
    assert_eq!(sleep_length(&now, None), Err(ScheduleError::Exhausted));
    assert_eq!(sleep_length(&now, Some(LAST_SECOND + 1)), Err(ScheduleError::Exhausted));
    assert_eq!(sleep_length(&now, Some(-1)), Err(ScheduleError::Exhausted));
}

#[test]
fn shorthands_are_expressions_too() {
    let hourly = Timetable::parse("@hourly").unwrap();
    assert_eq!(hourly.expression(), "@hourly");
    assert_eq!(hourly.sleep_from(&instant(NOW, 0)), Ok(2800));
    let daily = Timetable::parse("@daily").unwrap();
    assert_eq!(daily.sleep_from(&instant(NOW, 0)), Ok(6400));
    assert_eq!(Timetable::parse("@dailyBla").err(), Some(ScheduleError::Malformed));
    assert_eq!(Timetable::parse("@sometimes").err(), Some(ScheduleError::Malformed));
}
