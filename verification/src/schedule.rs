//! When the next cycle is due, by a cron expression.
//!
//! The expression has six fields (second, minute, hour, day of month,
//! month, day of week) and may have a seventh for the year. The `cron`
//! crate decides what is an expression and what it means; besides the
//! fields it takes the shorthands `@yearly`, `@monthly`, `@weekly`,
//! `@daily` and `@hourly`, and so does the timetable. It keeps the
//! expression and hands it to that crate with every question, so that each
//! answer is a function of the expression and the instant asked about.

use vstd::prelude::*;
use std::str::FromStr;
use chrono::DateTime;
use cron::Schedule;

verus! {

/// `cron::error::Error`, handed on as it comes; nothing is read from it.
#[verifier::external_type_specification]
#[verifier::external_body]
pub struct ExCronError(cron::error::Error);

/// The last second that an [`Instant`] can name: the end of the year 9999.
pub const LAST_SECOND: i64 = 253_402_300_799;

/// The nanoseconds that make one second.
pub const NANOS_PER_SECOND: u32 = 1_000_000_000;

/// Whether `expression` is a cron expression, as the `cron` crate parses
/// it: six or seven fields, or one of its `@` shorthands.
pub uninterp spec fn cron_accepts(expression: Seq<char>) -> bool;

/// The first instant, in seconds since the epoch, that the cron expression
/// `expression` names after the instant `secs` seconds and `nanos`
/// nanoseconds since the epoch, in universal time.
///
/// `None` where the expression is not accepted or names no later instant.
/// This is what the `cron` crate computes from the three values; nothing
/// more is known of it here.
pub uninterp spec fn cron_next_after(expression: Seq<char>, secs: int, nanos: int) -> Option<int>;

/// Parses `expression` with `cron::Schedule::from_str` and drops the
/// schedule. The contract claims that acceptance depends on the text alone.
#[verifier::external_body]
fn check_expression(expression: &str) -> (r: Result<(), cron::error::Error>)
    ensures
        r is Ok <==> cron_accepts(expression@),
{
    Schedule::from_str(expression)?;
    Ok(())
}

/// Parses `expression` with `cron::Schedule::from_str`, makes the instant
/// with `chrono::DateTime::from_timestamp`, asks `cron::Schedule::after`
/// for the instants behind it and takes the first, as
/// `chrono::DateTime::timestamp` tells it.
///
/// The instant is kept within the years 1970 to 9999: `cron` adds a second
/// to it, which `chrono` refuses at the end of its range. The contract
/// claims that the outcome depends on the three values alone (the
/// computation is done in universal time and reads no clock) and that the
/// second found lies behind the one asked about: `cron` searches from one
/// second behind the instant, in whole seconds.
#[verifier::external_body]
fn next_fire(expression: &str, secs: i64, nanos: u32) -> (r: Option<i64>)
    requires
        0 <= secs <= LAST_SECOND,
        nanos < NANOS_PER_SECOND,
    ensures
        match r {
            Some(fire) => cron_next_after(expression@, secs as int, nanos as int) == Some(
                fire as int,
            ),
            None => cron_next_after(expression@, secs as int, nanos as int) is None,
        },
        r matches Some(fire) ==> fire > secs,
{
    let schedule = Schedule::from_str(expression).ok()?;
    let after = DateTime::from_timestamp(secs, nanos)?;
    schedule.after(&after).next().map(|fire| fire.timestamp())
}

/// A point in time between the years 1970 and 9999, in universal time.
#[derive(Clone, Copy, Debug, PartialEq, Eq)]
pub struct Instant {
    secs: i64,
    nanos: u32,
}

/// Whether seconds and nanoseconds since the epoch name an [`Instant`].
pub open spec fn representable(secs: int, nanos: int) -> bool {
    0 <= secs <= LAST_SECOND && 0 <= nanos < NANOS_PER_SECOND
}

impl Instant {
    #[verifier::type_invariant]
    spec fn in_range(self) -> bool {
        representable(self.secs as int, self.nanos as int)
    }

    /// The whole seconds since the epoch.
    pub closed spec fn seconds(self) -> int {
        self.secs as int
    }

    /// The nanoseconds into the second.
    pub closed spec fn nanoseconds(self) -> int {
        self.nanos as int
    }

    /// The instant `secs` seconds and `nanos` nanoseconds after the epoch,
    /// where there is one.
    pub fn new(secs: i64, nanos: u32) -> (r: Option<Instant>)
        ensures
            r is Some <==> representable(secs as int, nanos as int),
            r matches Some(t) ==> t.seconds() == secs && t.nanoseconds() == nanos,
    {
        if 0 <= secs && secs <= LAST_SECOND && nanos < NANOS_PER_SECOND {
            Some(Instant { secs, nanos })
        } else {
            None
        }
    }

    /// The whole seconds since the epoch.
    pub fn secs(&self) -> (r: i64)
        ensures
            r == self.seconds(),
            representable(self.seconds(), self.nanoseconds()),
    {
        proof {
            use_type_invariant(self);
        }
        self.secs
    }

    /// The nanoseconds into the second.
    pub fn nanos(&self) -> (r: u32)
        ensures
            r == self.nanoseconds(),
            representable(self.seconds(), self.nanoseconds()),
    {
        proof {
            use_type_invariant(self);
        }
        self.nanos
    }
}

/// The whole seconds from one instant to a later one; 0 where the second
/// is not later.
pub open spec fn whole_seconds_between(
    now_secs: int,
    now_nanos: int,
    next_secs: int,
    next_nanos: int,
) -> int {
    let gap = (next_secs - now_secs) * 1_000_000_000 + (next_nanos - now_nanos);
    if gap > 0 {
        gap / 1_000_000_000
    } else {
        0
    }
}

/// Counts the whole seconds to sleep from `now` until `next`.
pub fn seconds_until(now: &Instant, next: &Instant) -> (r: u64)
    ensures
        r == whole_seconds_between(
            now.seconds(),
            now.nanoseconds(),
            next.seconds(),
            next.nanoseconds(),
        ),
{
    let now_secs = now.secs();
    let now_nanos = now.nanos();
    let next_secs = next.secs();
    let next_nanos = next.nanos();
    if next_secs <= now_secs {
        0
    } else {
        let ahead = (next_secs - now_secs) as u64;
        if next_nanos >= now_nanos {
            ahead
        } else {
            ahead - 1
        }
    }
}

/// Why no wake-up can be planned.
#[derive(Clone, Copy, Debug, PartialEq, Eq, Structural)]
pub enum ScheduleError {
    /// The text is no cron expression.
    Malformed,
    /// The schedule yields no further instant that an [`Instant`] can name.
    Exhausted,
}

/// The sleep that leads from the instant `now_secs`, `now_nanos` to the
/// next scheduled second `next`, in whole seconds.
pub open spec fn sleep_for(now_secs: int, now_nanos: int, next: Option<int>) -> Result<
    u64,
    ScheduleError,
> {
    match next {
        Some(fire) => if representable(fire, 0) {
            Ok(whole_seconds_between(now_secs, now_nanos, fire, 0) as u64)
        } else {
            Err(ScheduleError::Exhausted)
        },
        None => Err(ScheduleError::Exhausted),
    }
}

/// Plans the sleep from `now` until the scheduled second `next`, given in
/// seconds since the epoch, or reports that the schedule is exhausted.
pub fn sleep_length(now: &Instant, next: Option<i64>) -> (r: Result<u64, ScheduleError>)
    ensures
        r == sleep_for(
            now.seconds(),
            now.nanoseconds(),
            match next {
                Some(fire) => Some(fire as int),
                None => None,
            },
        ),
{
    match next {
        Some(fire) => match Instant::new(fire, 0) {
            Some(at) => Ok(seconds_until(now, &at)),
            None => Err(ScheduleError::Exhausted),
        },
        None => Err(ScheduleError::Exhausted),
    }
}

/// A cron expression that has been accepted.
#[derive(Debug)]
pub struct Timetable {
    expression: String,
}

impl View for Timetable {
    type V = Seq<char>;

    closed spec fn view(&self) -> Seq<char> {
        self.expression@
    }
}

impl Timetable {
    #[verifier::type_invariant]
    spec fn accepted(self) -> bool {
        cron_accepts(self.expression@)
    }

    /// Accepts a cron expression, or refuses a text that is none.
    pub fn parse(expression: &str) -> (r: Result<Timetable, ScheduleError>)
        ensures
            r is Ok <==> cron_accepts(expression@),
            r matches Ok(timetable) ==> timetable@ == expression@,
            r matches Err(e) ==> e == ScheduleError::Malformed,
    {
        match check_expression(expression) {
            Ok(()) => Ok(Timetable { expression: expression.to_owned() }),
            Err(_) => Err(ScheduleError::Malformed),
        }
    }

    /// The expression as it was given.
    pub fn expression(&self) -> (r: &str)
        ensures
            r@ == self@,
            cron_accepts(self@),
    {
        proof {
            use_type_invariant(self);
        }
        self.expression.as_str()
    }

    /// The whole seconds to sleep from `now` until the next scheduled
    /// instant, which lies strictly after `now`.
    pub fn sleep_from(&self, now: &Instant) -> (r: Result<u64, ScheduleError>)
        ensures
            r == sleep_for(
                now.seconds(),
                now.nanoseconds(),
                cron_next_after(self@, now.seconds(), now.nanoseconds()),
            ),
            cron_next_after(self@, now.seconds(), now.nanoseconds()) matches Some(fire) ==> fire
                > now.seconds(),
    {
        let next = next_fire(self.expression.as_str(), now.secs(), now.nanos());
        sleep_length(now, next)
    }
}

} // verus!
