//! Resolving weekly-recurring open periods into local time windows, and
//! deciding whether a local time falls inside a user's schedule.
use vstd::prelude::*;

use chrono::{Datelike, Timelike};

use crate::config::{Instant, OpenPeriod, Schedule};

verus! {

/// A local wall-clock timestamp. `day` counts days in the proleptic Gregorian
/// calendar, day 1 being Monday, January 1 of year 1; so `day % 7` is the
/// number of days since the last Sunday. `nanosecond` may reach past one
/// second while a leap second lasts.
#[derive(Clone, Copy, Debug, PartialEq, Eq, Structural)]
pub struct LocalTime {
    pub day: i64,
    pub hour: u32,
    pub minute: u32,
    pub second: u32,
    pub nanosecond: u32,
}

impl LocalTime {
    pub open spec fn wf(&self) -> bool {
        &&& self.hour < 24
        &&& self.minute < 60
        &&& self.second < 60
        &&& self.nanosecond < 2_000_000_000
    }

    /// Days since the last Sunday, 0 to 6.
    pub open spec fn weekday(&self) -> int {
        (self.day as int) % 7
    }

    /// Sunday, 00:00:00.0.
    pub open spec fn is_start_of_week(&self) -> bool {
        &&& self.weekday() == 0
        &&& self.hour == 0
        &&& self.minute == 0
        &&& self.second == 0
        &&& self.nanosecond == 0
    }

    /// Strictly earlier, comparing day, hour, minute, second and nanosecond in turn.
    pub open spec fn precedes(&self, other: LocalTime) -> bool {
        if self.day != other.day {
            self.day < other.day
        } else if self.hour != other.hour {
            self.hour < other.hour
        } else if self.minute != other.minute {
            self.minute < other.minute
        } else if self.second != other.second {
            self.second < other.second
        } else {
            self.nanosecond < other.nanosecond
        }
    }

    pub fn is_before(&self, other: &LocalTime) -> (r: bool)
        ensures
            r == self.precedes(*other),
    {
        if self.day != other.day {
            self.day < other.day
        } else if self.hour != other.hour {
            self.hour < other.hour
        } else if self.minute != other.minute {
            self.minute < other.minute
        } else if self.second != other.second {
            self.second < other.second
        } else {
            self.nanosecond < other.nanosecond
        }
    }

    pub fn weekday_from_sunday(&self) -> (r: u32)
        ensures
            r == self.weekday(),
            r < 7,
    {
        let w = self.day.checked_rem_euclid(7).unwrap();
        w as u32
    }
}

/// Sunday 00:00:00.0 of the week holding `now`; `None` where that day cannot be
/// represented.
pub open spec fn start_of_week_spec(now: LocalTime) -> Option<LocalTime> {
    let d = now.day - now.weekday();
    if d < i64::MIN {
        None
    } else {
        Some(LocalTime { day: d as i64, hour: 0, minute: 0, second: 0, nanosecond: 0 })
    }
}

/// The instant of the week starting at `start_of_week`: the day moves on by
/// the instant's weekday, the clock is set to its hour and minute with
/// seconds zeroed. `None` where the hour or the minute is out of range, or
/// the day cannot be represented.
pub open spec fn from_instant_spec(start_of_week: LocalTime, instant: Instant) -> Option<LocalTime> {
    let d = start_of_week.day + instant.weekday;
    if instant.hour >= 24 || instant.minute >= 60 || d > i64::MAX {
        None
    } else {
        Some(
            LocalTime {
                day: d as i64,
                hour: instant.hour as u32,
                minute: instant.minute as u32,
                second: 0,
                nanosecond: 0,
            },
        )
    }
}

/// The start and the end of a period in the week holding `now`.
pub open spec fn local_period_spec(now: LocalTime, period: OpenPeriod) -> Option<(LocalTime, LocalTime)> {
    match start_of_week_spec(now) {
        Some(sow) => match (from_instant_spec(sow, period.start), from_instant_spec(sow, period.end)) {
            (Some(s), Some(e)) => Some((s, e)),
            _ => None,
        },
        None => None,
    }
}

/// The period contains `now`: its start is not after `now`, its end is after.
pub open spec fn period_active(now: LocalTime, period: OpenPeriod) -> bool {
    match local_period_spec(now, period) {
        Some((s, e)) => !now.precedes(s) && now.precedes(e),
        None => false,
    }
}

/// The user may use the computer: at least one period contains `now`.
pub open spec fn schedule_is_open(now: LocalTime, schedule: Schedule) -> bool {
    exists|i: int|
        0 <= i < schedule.open_periods@.len() && #[trigger] period_active(now, schedule.open_periods@[i])
}

/// Index `i` holds the period that `find_max_open_period` reports: it contains
/// `now`, no active period is longer, and every earlier active one is shorter.
pub open spec fn is_reported_period(now: LocalTime, schedule: Schedule, i: int) -> bool {
    let ps = schedule.open_periods@;
    &&& 0 <= i < ps.len()
    &&& period_active(now, ps[i])
    &&& forall|j: int| 0 <= j < ps.len() && #[trigger] period_active(now, ps[j]) ==> ps[j].duration() <= ps[i].duration()
    &&& forall|j: int| 0 <= j < i && #[trigger] period_active(now, ps[j]) ==> ps[j].duration() < ps[i].duration()
}

pub fn get_start_of_week(now: &LocalTime) -> (r: Option<LocalTime>)
    ensures
        r == start_of_week_spec(*now),
{
    let w = now.weekday_from_sunday();
    match now.day.checked_sub(w as i64) {
        Some(d) => Some(LocalTime { day: d, hour: 0, minute: 0, second: 0, nanosecond: 0 }),
        None => None,
    }
}

pub fn from_instant(start_of_week: &LocalTime, instant: &Instant) -> (r: Option<LocalTime>)
    ensures
        r == from_instant_spec(*start_of_week, *instant),
{
    if instant.hour >= 24 || instant.minute >= 60 {
        return None;
    }
    match start_of_week.day.checked_add(instant.weekday as i64) {
        Some(d) => Some(
            LocalTime {
                day: d,
                hour: instant.hour as u32,
                minute: instant.minute as u32,
                second: 0,
                nanosecond: 0,
            },
        ),
        None => None,
    }
}

pub fn get_local_period(now: &LocalTime, period: &OpenPeriod) -> (r: Option<(LocalTime, LocalTime)>)
    ensures
        r == local_period_spec(*now, *period),
{
    match get_start_of_week(now) {
        Some(sow) => {
            let start = from_instant(&sow, &period.start);
            let end = from_instant(&sow, &period.end);
            match (start, end) {
                (Some(s), Some(e)) => Some((s, e)),
                _ => None,
            }
        },
        None => None,
    }
}

pub fn is_period_active(now: &LocalTime, period: &OpenPeriod) -> (r: bool)
    ensures
        r == period_active(*now, *period),
{
    match get_local_period(now, period) {
        Some((s, e)) => !now.is_before(&s) && now.is_before(&e),
        None => false,
    }
}

/// An active period is never empty.
proof fn lemma_active_has_length(now: LocalTime, period: OpenPeriod)
    requires
        period_active(now, period),
    ensures
        period.duration() > 0,
{
    let (s, e) = local_period_spec(now, period)->0;
    assert(s.precedes(e));
}

/// Given a schedule, returns the longest period containing `now`; of several
/// equally long ones, the first.
pub fn find_max_open_period<'a>(now: LocalTime, schedule: &'a Schedule) -> (r: Option<&'a OpenPeriod>)
    ensures
        r is None <==> !schedule_is_open(now, *schedule),
        r matches Some(p) ==> exists|i: int| #[trigger] is_reported_period(now, *schedule, i)
            && schedule.open_periods@[i] == *p,
{
    let ghost ps = schedule.open_periods@;
    let mut max_period_duration: i64 = 0;
    let mut max_index: Option<usize> = None;
    let mut i: usize = 0;
    while i < schedule.open_periods.len()
        invariant
            ps == schedule.open_periods@,
            i <= ps.len(),
            max_index is None ==> max_period_duration == 0 && forall|j: int|
                0 <= j < i ==> !#[trigger] period_active(now, ps[j]),
            max_index matches Some(k) ==> {
                &&& k < i
                &&& period_active(now, ps[k as int])
                &&& max_period_duration == ps[k as int].duration()
                &&& forall|j: int| 0 <= j < i && #[trigger] period_active(now, ps[j]) ==> ps[j].duration() <= ps[k as int].duration()
                &&& forall|j: int| 0 <= j < k && #[trigger] period_active(now, ps[j]) ==> ps[j].duration() < ps[k as int].duration()
            },
        decreases ps.len() - i,
    {
        let period = &schedule.open_periods[i];
        if is_period_active(&now, period) {
            proof {
                lemma_active_has_length(now, *period);
            }
            let period_duration = period.end.minutes_from_start_of_week() as i64
                - period.start.minutes_from_start_of_week() as i64;
            if period_duration > max_period_duration {
                max_period_duration = period_duration;
                max_index = Some(i);
            }
        }
        i = i + 1;
    }
    match max_index {
        Some(k) => {
            assert(is_reported_period(now, *schedule, k as int));
            Some(&schedule.open_periods[k])
        },
        None => None,
    }
}

/// Whether the user may use the computer at `now`.
pub fn is_open(now: LocalTime, schedule: &Schedule) -> (r: bool)
    ensures
        r == schedule_is_open(now, *schedule),
{
    find_max_open_period(now, schedule).is_some()
}

/// Resolving an in-range instant in a week reproduces its weekday, hour and
/// minute, with seconds and sub-seconds zeroed (where the day can be held).
pub proof fn lemma_resolve_keeps_fields(start_of_week: LocalTime, instant: Instant)
    requires
        start_of_week.is_start_of_week(),
        instant.wf(),
        start_of_week.day + instant.weekday <= i64::MAX,
    ensures
        from_instant_spec(start_of_week, instant) matches Some(t) && t.weekday() == instant.weekday
            && t.hour == instant.hour && t.minute == instant.minute && t.second == 0 && t.nanosecond
            == 0,
{
    let d = start_of_week.day as int;
    assert((d + instant.weekday) % 7 == instant.weekday as int) by {
        vstd::arithmetic::div_mod::lemma_mod_add_multiples_vanish(instant.weekday as int, 7);
        vstd::arithmetic::div_mod::lemma_fundamental_div_mod(d, 7);
        vstd::arithmetic::div_mod::lemma_mod_multiples_vanish(d / 7, instant.weekday as int, 7);
        vstd::arithmetic::div_mod::lemma_small_mod(instant.weekday as nat, 7);
    }
}

/// The start of the week is a Sunday at midnight, at most six days before `now`.
pub proof fn lemma_start_of_week(now: LocalTime)
    requires
        start_of_week_spec(now) is Some,
    ensures
        start_of_week_spec(now)->0.is_start_of_week(),
        now.day - 7 < start_of_week_spec(now)->0.day <= now.day,
{
    let d = now.day as int;
    assert((d - d % 7) % 7 == 0) by {
        vstd::arithmetic::div_mod::lemma_fundamental_div_mod(d, 7);
        vstd::arithmetic::div_mod::lemma_mod_multiples_basic(d / 7, 7);
    }
}

/// Evaluating a schedule is a function of `now` and the schedule alone: two
/// evaluations of the same `now` give the same answer.
pub proof fn lemma_evaluation_is_pure(now: LocalTime, schedule: Schedule, first: bool, second: bool)
    requires
        first == schedule_is_open(now, schedule),
        second == schedule_is_open(now, schedule),
    ensures
        first == second,
{
}

/// Relies on chrono's `From<SystemTime> for DateTime<Local>`, applied to
/// `SystemTime::now()` (a clock before 1970 is handled, not a panic), and on
/// the fields of the `DateTime` it returns: `num_days_from_ce` counts days
/// with January 1 of year 1 as day 1; hour is 0..=23, minute and second
/// 0..=59, and nanosecond below two seconds.
#[verifier::external_body]
pub(crate) fn local_now() -> (r: LocalTime)
    ensures
        r.wf(),
{
    let now = chrono::DateTime::<chrono::Local>::from(std::time::SystemTime::now());
    LocalTime {
        day: i64::from(now.num_days_from_ce()),
        hour: now.hour(),
        minute: now.minute(),
        second: now.second(),
        nanosecond: now.nanosecond(),
    }
}

} // verus!
