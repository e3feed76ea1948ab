//! Wall-clock targets: `HH:MM` texts, and the wait until the next time the
//! local clock shows them.
use vstd::prelude::*;
use crate::params::{filled_field, filled_member, json_accepts, ParamDoc, ParamError};
use crate::text::{field_below, parse_field_below};
use chrono::TimeZone;

verus! {

#[verifier::external_type_specification]
#[verifier::external_body]
pub struct ExNaiveDate(chrono::NaiveDate);

/// The latest clock reading, in seconds since the Unix epoch, that is
/// turned into a local date: about the year 255,000, well inside chrono's
/// range of dates even after a time-zone offset is added.
pub const MAX_CLOCK_SECS: u64 = 8_000_000_000_000;

pub const NANOS_PER_SECOND: i128 = 1_000_000_000;

/// An hour and minute of the local day.
#[derive(Clone, Copy, Debug, PartialEq, Eq, Structural)]
pub struct ClockTime {
    pub hour: u32,
    pub minute: u32,
}

/// The index of the first `:` in `s`, or its length when there is none.
pub open spec fn colon_at(s: Seq<char>) -> nat
    decreases s.len(),
{
    if s.len() == 0 {
        0
    } else if s[0] == ':' {
        0
    } else {
        1 + colon_at(s.drop_first())
    }
}

/// The first of the `:`-separated fields.
pub open spec fn first_field(s: Seq<char>) -> Seq<char> {
    s.subrange(0, colon_at(s) as int)
}

/// What follows the first `:`.
pub open spec fn after_colon(s: Seq<char>) -> Seq<char> {
    s.subrange(colon_at(s) as int + 1, s.len() as int)
}

/// `HH:MM`, where further `:`-separated fields are ignored.
pub open spec fn clock_time_of(s: Seq<char>) -> Result<(nat, nat), ParamError> {
    if colon_at(s) == s.len() {
        Err(ParamError::InvalidTimeFormat)
    } else {
        match field_below(first_field(s), 24) {
            None => Err(ParamError::InvalidHour),
            Some(h) => match field_below(first_field(after_colon(s)), 60) {
                None => Err(ParamError::InvalidMinute),
                Some(m) => Ok((h, m)),
            },
        }
    }
}

proof fn lemma_colon_bound(s: Seq<char>)
    ensures
        colon_at(s) <= s.len(),
    decreases s.len(),
{
    if s.len() > 0 && s[0] != ':' {
        lemma_colon_bound(s.drop_first());
    }
}

proof fn lemma_colon_step(s: Seq<char>, i: int)
    requires
        0 <= i < s.len(),
        s[i] != ':',
    ensures
        colon_at(s.subrange(i, s.len() as int)) == 1 + colon_at(s.subrange(i + 1, s.len() as int)),
{
    assert(s.subrange(i, s.len() as int).drop_first() =~= s.subrange(i + 1, s.len() as int));
}

/// The index of the first `:` at or after `from`, or the length.
fn find_colon(s: &str, from: usize) -> (k: usize)
    requires
        from <= s@.len(),
    ensures
        k == from + colon_at(s@.subrange(from as int, s@.len() as int)),
{
    let n = s.unicode_len();
    let mut i = from;
    while i < n
        invariant
            n == s@.len(),
            from <= i <= n,
            colon_at(s@.subrange(from as int, n as int)) == (i - from) + colon_at(
                s@.subrange(i as int, n as int),
            ),
        decreases n - i,
    {
        if s.get_char(i) == ':' {
            return i;
        }
        proof {
            lemma_colon_step(s@, i as int);
        }
        i = i + 1;
    }
    i
}

/// Reads `HH:MM` with the hour below 24 and the minute below 60.
pub fn parse_clock_time(s: &str) -> (r: Result<ClockTime, ParamError>)
    ensures
        r matches Ok(t) ==> clock_time_of(s@) == Ok::<(nat, nat), ParamError>(
            (t.hour as nat, t.minute as nat),
        ),
        r matches Err(e) ==> clock_time_of(s@) == Err::<(nat, nat), ParamError>(e),
{
    let n = s.unicode_len();
    let k = find_colon(s, 0);
    assert(s@.subrange(0, n as int) == s@);
    proof {
        lemma_colon_bound(s@);
    }
    if k == n {
        return Err(ParamError::InvalidTimeFormat);
    }
    let hour_text = s.substring_char(0, k);
    let rest = s.substring_char(k + 1, n);
    let e = find_colon(rest, 0);
    assert(rest@.subrange(0, rest@.len() as int) == rest@);
    proof {
        lemma_colon_bound(rest@);
    }
    let minute_text = rest.substring_char(0, e);
    match parse_field_below(hour_text, 24) {
        None => Err(ParamError::InvalidHour),
        Some(hour) => match parse_field_below(minute_text, 60) {
            None => Err(ParamError::InvalidMinute),
            Some(minute) => Ok(ClockTime { hour, minute }),
        },
    }
}

/// The target of a wait-until invocation: the member `target_time`, a
/// non-blank `HH:MM` text.
pub open spec fn wait_target_of(text: Seq<char>) -> Result<(nat, nat), ParamError> {
    if !json_accepts(text) {
        Err(ParamError::MalformedJson)
    } else {
        match filled_member(text, "target_time"@) {
            None => Err(ParamError::MissingTargetTime),
            Some(t) => clock_time_of(t),
        }
    }
}

pub fn decode_wait_until(param: &str) -> (r: Result<ClockTime, ParamError>)
    ensures
        r matches Ok(t) ==> wait_target_of(param@) == Ok::<(nat, nat), ParamError>(
            (t.hour as nat, t.minute as nat),
        ),
        r matches Err(e) ==> wait_target_of(param@) == Err::<(nat, nat), ParamError>(e),
{
    let doc = match ParamDoc::parse(param) {
        Some(d) => d,
        None => return Err(ParamError::MalformedJson),
    };
    match filled_field(&doc, "target_time") {
        None => Err(ParamError::MissingTargetTime),
        Some(t) => parse_clock_time(t.as_str()),
    }
}

/// Relies on std::time::SystemTime::duration_since, applied to
/// SystemTime::now and the Unix epoch: the time elapsed since the epoch, or
/// an error when the clock reads earlier. Duration::subsec_nanos is always
/// below one billion. The reading depends on the time, so nothing more is
/// stated of it.
#[verifier::external_body]
fn epoch_time() -> (r: Option<(u64, u32)>)
    ensures
        r matches Some((secs, nanos)) ==> nanos < NANOS_PER_SECOND,
{
    match std::time::SystemTime::now().duration_since(std::time::UNIX_EPOCH) {
        Ok(d) => Some((d.as_secs(), d.subsec_nanos())),
        Err(_) => None,
    }
}

/// Relies on chrono::DateTime::from_timestamp, which gives `None` outside
/// chrono's range, then DateTime::with_timezone to chrono::Local and
/// DateTime::date_naive: the local calendar date at that instant. The bound
/// on `secs` keeps the local time inside the range of NaiveDateTime, where
/// date_naive cannot panic. The date depends on the machine's time zone, so
/// nothing is stated of it.
#[verifier::external_body]
fn local_date(secs: i64, nanos: u32) -> (r: Option<chrono::NaiveDate>)
    requires
        0 <= secs <= MAX_CLOCK_SECS,
        nanos < NANOS_PER_SECOND,
{
    chrono::DateTime::from_timestamp(secs, nanos).map(|t| t.with_timezone(&chrono::Local).date_naive())
}

/// Relies on chrono::NaiveDate::succ_opt: the next calendar date, or `None`
/// after the last date that chrono represents.
#[verifier::external_body]
fn next_date(date: &chrono::NaiveDate) -> (r: Option<chrono::NaiveDate>) {
    date.succ_opt()
}

/// Relies on chrono::TimeZone::from_local_datetime for chrono::Local, after
/// NaiveDate::and_hms_opt, which succeeds for an hour below 24 and a minute
/// below 60. `MappedLocalTime::single` keeps only a time that the local
/// clock shows exactly once; the result is its Unix timestamp. It depends on
/// the machine's time zone, so nothing more is stated of it.
#[verifier::external_body]
fn local_instant(date: &chrono::NaiveDate, hour: u32, minute: u32) -> (r: Option<i64>)
    requires
        hour < 24,
        minute < 60,
{
    date.and_hms_opt(hour, minute, 0)
        .and_then(|t| chrono::Local.from_local_datetime(&t).single())
        .map(|t| t.timestamp())
}

/// Whether the instant `candidate` (whole seconds) lies after now.
pub open spec fn is_ahead(now_secs: int, now_nanos: int, candidate: int) -> bool {
    candidate * NANOS_PER_SECOND > now_secs * NANOS_PER_SECOND + now_nanos
}

/// The deadline for a clock target, given the instants at which the local
/// clock shows it today and on the next calendar date (`None` where the
/// clock shows that time twice or never): today's if it is still ahead,
/// else the next date's.
pub open spec fn deadline_of(now_secs: int, now_nanos: int, today: Option<i64>, next_day: Option<i64>) -> Option<int> {
    match today {
        None => None,
        Some(c) => if is_ahead(now_secs, now_nanos, c as int) {
            Some(c as int)
        } else {
            match next_day {
                None => None,
                Some(t) => Some(t as int),
            }
        },
    }
}

/// Whole seconds from now until `deadline`, never below zero, and held at
/// `u64::MAX`.
pub open spec fn seconds_until(now_secs: int, now_nanos: int, deadline: int) -> nat {
    let d = (deadline - now_secs) * NANOS_PER_SECOND - now_nanos;
    if d <= 0 {
        0
    } else if d / (NANOS_PER_SECOND as int) > u64::MAX {
        u64::MAX as nat
    } else {
        (d / (NANOS_PER_SECOND as int)) as nat
    }
}

/// The wait for a clock target; a deadline that the local clock cannot
/// show unambiguously is refused.
pub open spec fn target_wait(now_secs: int, now_nanos: int, today: Option<i64>, next_day: Option<i64>) -> Result<
    nat,
    ParamError,
> {
    match deadline_of(now_secs, now_nanos, today, next_day) {
        None => Err(ParamError::UnresolvableLocalTime),
        Some(d) => Ok(seconds_until(now_secs, now_nanos, d)),
    }
}

pub fn seconds_until_target(now_secs: i64, now_nanos: u32, today: Option<i64>, next_day: Option<i64>) -> (r: Result<
    u64,
    ParamError,
>)
    ensures
        r matches Ok(w) ==> target_wait(now_secs as int, now_nanos as int, today, next_day) == Ok::<
            nat,
            ParamError,
        >(w as nat),
        r matches Err(e) ==> target_wait(now_secs as int, now_nanos as int, today, next_day) == Err::<
            nat,
            ParamError,
        >(e),
{
    let c = match today {
        None => return Err(ParamError::UnresolvableLocalTime),
        Some(c) => c,
    };
    let now_ns = now_secs as i128 * NANOS_PER_SECOND + now_nanos as i128;
    let deadline: i128 = if c as i128 * NANOS_PER_SECOND > now_ns {
        c as i128
    } else {
        match next_day {
            None => return Err(ParamError::UnresolvableLocalTime),
            Some(t) => t as i128,
        }
    };
    let d = (deadline - now_secs as i128) * NANOS_PER_SECOND - now_nanos as i128;
    if d <= 0 {
        Ok(0)
    } else if d / NANOS_PER_SECOND > u64::MAX as i128 {
        Ok(u64::MAX)
    } else {
        Ok((d / NANOS_PER_SECOND) as u64)
    }
}

/// A target that the local clock shows later today is met today; one that
/// it showed earlier today, or shows this very second, is met at that time
/// on the next calendar date; a local time that the clock shows twice or
/// never, on the day that is needed, is refused.
pub proof fn lemma_target_day(now_secs: int, now_nanos: int, today: Option<i64>, next_day: Option<i64>)
    requires
        0 <= now_nanos < NANOS_PER_SECOND,
    ensures
        today matches Some(c) ==> (is_ahead(now_secs, now_nanos, c as int) <==> c > now_secs),
        today matches Some(c) ==> c > now_secs ==> target_wait(now_secs, now_nanos, today, next_day)
            == Ok::<nat, ParamError>(seconds_until(now_secs, now_nanos, c as int)),
        today matches Some(c) ==> c <= now_secs ==> target_wait(now_secs, now_nanos, today, next_day)
            == match next_day {
            Some(t) => Ok::<nat, ParamError>(seconds_until(now_secs, now_nanos, t as int)),
            None => Err::<nat, ParamError>(ParamError::UnresolvableLocalTime),
        },
        today is None ==> target_wait(now_secs, now_nanos, today, next_day) == Err::<nat, ParamError>(
            ParamError::UnresolvableLocalTime,
        ),
{
    if let Some(c) = today {
        let c = c as int;
        if c > now_secs {
            assert(c * NANOS_PER_SECOND >= (now_secs + 1) * NANOS_PER_SECOND) by (nonlinear_arith)
                requires
                    c >= now_secs + 1,
            ;
        } else {
            assert(c * NANOS_PER_SECOND <= now_secs * NANOS_PER_SECOND) by (nonlinear_arith)
                requires
                    c <= now_secs,
            ;
        }
    }
}

/// Decodes a wait-until invocation and reads the local clock: the number of
/// seconds to wait until the target. A refused parameter text is reported
/// before the clock is read; after that, the wait is computed as
/// `seconds_until_target` states, or the clock or the local time of the
/// target could not be read.
pub fn plan_wait_until(param: &str) -> (r: Result<u64, ParamError>)
    ensures
        wait_target_of(param@) matches Err(e) ==> r == Err::<u64, ParamError>(e),
        wait_target_of(param@) is Ok ==> (r is Ok || r == Err::<u64, ParamError>(
            ParamError::UnresolvableLocalTime,
        ) || r == Err::<u64, ParamError>(ParamError::ClockUnavailable)),
{
    let target = match decode_wait_until(param) {
        Ok(t) => t,
        Err(e) => return Err(e),
    };
    let (secs, nanos) = match epoch_time() {
        Some(t) => t,
        None => return Err(ParamError::ClockUnavailable),
    };
    if secs > MAX_CLOCK_SECS {
        return Err(ParamError::ClockUnavailable);
    }
    let date = match local_date(secs as i64, nanos) {
        Some(d) => d,
        None => return Err(ParamError::ClockUnavailable),
    };
    let today = local_instant(&date, target.hour, target.minute);
    let next_day = match next_date(&date) {
        Some(d) => local_instant(&d, target.hour, target.minute),
        None => None,
    };
    seconds_until_target(secs as i64, nanos, today, next_day)
}

} // verus!
