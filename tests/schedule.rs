use chrono::Datelike;
use heimdall::config::{Instant, OpenPeriod, Schedule};
use heimdall::schedule::{
    find_max_open_period, from_instant, get_local_period, get_start_of_week, is_open, is_period_active,
    LocalTime,
};

fn day_of(year: i32, month: u32, day: u32) -> i64 {
    i64::from(chrono::NaiveDate::from_ymd_opt(year, month, day).unwrap().num_days_from_ce())
}

fn at(year: i32, month: u32, day: u32, hour: u32, minute: u32, second: u32) -> LocalTime {
    LocalTime { day: day_of(year, month, day), hour, minute, second, nanosecond: 0 }
}

fn instant(weekday: u8, hour: u8, minute: u8) -> Instant {
    Instant { weekday, hour, minute }
}

fn period(start: (u8, u8, u8), end: (u8, u8, u8), note: &str) -> OpenPeriod {
    OpenPeriod {
        start: instant(start.0, start.1, start.2),
        end: instant(end.0, end.1, end.2),
        note: note.to_owned(),
    }
}

fn create_schedule(start: (u8, u8, u8), end: (u8, u8, u8)) -> Schedule {
    Schedule { open_periods: vec![period(start, end, "")] }
}

#[test]
fn test_start_of_week() {
    // 2020-01-01 was a Wednesday; its week started on Sunday 2019-12-29.
    let now = at(2020, 1, 1, 14, 30, 12);
    let sow = get_start_of_week(&now).unwrap();
    assert_eq!(sow, LocalTime { day: day_of(2019, 12, 29), hour: 0, minute: 0, second: 0, nanosecond: 0 });
    assert_eq!(sow.weekday_from_sunday(), 0);
    println!("{:?}", sow);
}

#[test]
fn test_find_open_period() {
    let schedule = create_schedule((3, 14, 45), (3, 15, 0));

    let now = at(2020, 1, 1, 14, 30, 0);
    assert_eq!(false, find_max_open_period(now, &schedule).is_some());

    let now = at(2020, 1, 1, 14, 45, 0);
    assert_eq!(true, find_max_open_period(now, &schedule).is_some());
}

#[test]
fn end_of_period_is_exclusive() {
    let schedule = create_schedule((3, 14, 45), (3, 15, 0));
    assert!(!is_open(at(2020, 1, 1, 14, 30, 0), &schedule));
    assert!(is_open(at(2020, 1, 1, 14, 45, 0), &schedule));
    assert!(is_open(at(2020, 1, 1, 14, 59, 0), &schedule));
    assert!(is_open(at(2020, 1, 1, 14, 59, 59), &schedule));
    assert!(!is_open(at(2020, 1, 1, 15, 0, 0), &schedule));
    // Same clock time on another weekday.
    assert!(!is_open(at(2020, 1, 2, 14, 50, 0), &schedule));
}

#[test]
fn sunday_and_saturday_edges() {
    let schedule = create_schedule((0, 0, 0), (6, 23, 59));
    // Sunday 2020-01-05 at midnight opens; Saturday 2020-01-11 23:59 is already closed.
    assert!(is_open(at(2020, 1, 5, 0, 0, 0), &schedule));
    assert!(is_open(at(2020, 1, 11, 23, 58, 59), &schedule));
    assert!(!is_open(at(2020, 1, 11, 23, 59, 0), &schedule));
}

#[test]
fn evaluation_is_repeatable() {
    let schedule = create_schedule((3, 14, 45), (3, 15, 0));
    for now in [at(2020, 1, 1, 14, 30, 0), at(2020, 1, 1, 14, 50, 0)] {
        assert_eq!(is_open(now, &schedule), is_open(now, &schedule));
    }
}

#[test]
fn longest_active_period_is_reported() {
    let schedule = Schedule {
        open_periods: vec![
            period((3, 14, 0), (3, 15, 0), "short"),
            period((3, 9, 0), (3, 17, 0), "long"),
            period((3, 10, 0), (3, 18, 0), "equally long"),
            period((2, 0, 0), (2, 23, 0), "tuesday"),
        ],
    };
    let found = find_max_open_period(at(2020, 1, 1, 14, 30, 0), &schedule).unwrap();
    assert_eq!(found.note, "long");
    let found = find_max_open_period(at(2020, 1, 1, 17, 30, 0), &schedule).unwrap();
    assert_eq!(found.note, "equally long");
    assert!(find_max_open_period(at(2020, 1, 1, 19, 0, 0), &schedule).is_none());
}

#[test]
fn empty_schedule_is_never_open() {
    let schedule = Schedule { open_periods: vec![] };
    assert!(!is_open(at(2020, 1, 1, 12, 0, 0), &schedule));
}

#[test]
fn resolving_an_instant_keeps_its_fields() {
    let sow = get_start_of_week(&at(2021, 6, 17, 8, 5, 3)).unwrap();
    for weekday in 0..7u8 {
        for (hour, minute) in [(0u8, 0u8), (13, 27), (23, 59)] {
            let t = from_instant(&sow, &instant(weekday, hour, minute)).unwrap();
            assert_eq!(t.weekday_from_sunday(), weekday as u32);
            assert_eq!((t.hour, t.minute, t.second, t.nanosecond), (hour as u32, minute as u32, 0, 0));
            assert_eq!(t.day, sow.day + weekday as i64);
        }
    }
}

#[test]
fn out_of_range_instant_does_not_resolve() {
    let sow = get_start_of_week(&at(2020, 1, 1, 0, 0, 0)).unwrap();
    assert!(from_instant(&sow, &instant(1, 24, 0)).is_none());
    assert!(from_instant(&sow, &instant(1, 3, 60)).is_none());
    let p = period((1, 24, 0), (1, 25, 0), "");
    assert!(get_local_period(&at(2020, 1, 1, 0, 0, 0), &p).is_none());
    assert!(!is_period_active(&at(2020, 1, 1, 0, 0, 0), &p));
}

#[test]
fn start_of_week_of_negative_days() {
    let now = LocalTime { day: -3, hour: 5, minute: 0, second: 0, nanosecond: 0 };
    // Day 0 is a Sunday, so day -3 is a Thursday of the week starting on day -7.
    assert_eq!(now.weekday_from_sunday(), 4);
    assert_eq!(get_start_of_week(&now).unwrap().day, -7);
    let last = LocalTime { day: i64::MIN, hour: 0, minute: 0, second: 0, nanosecond: 0 };
    assert!(get_start_of_week(&last).is_none());
}

#[test]
fn leap_second_is_inside_its_minute() {
    let schedule = create_schedule((3, 14, 45), (3, 15, 0));
    let now = LocalTime { day: day_of(2020, 1, 1), hour: 14, minute: 59, second: 59, nanosecond: 1_500_000_000 };
    assert!(is_open(now, &schedule));
}
