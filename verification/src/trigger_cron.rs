//! Recurring triggers: cron expressions and the wait until their next tick.

use std::str::FromStr;
use vstd::prelude::*;

use crate::duration::Duration;
use crate::errors::CronError;
use crate::utils::chars_of;

verus! {

/// Whether the schedule parser of the `cron` crate takes `expression`.
pub uninterp spec fn cron_accepts(expression: Seq<char>) -> bool;

/// The first tick after the instant `now_millis` of the schedule that
/// `expression` writes, as the `cron` crate finds it in UTC; nothing where
/// the schedule has no tick left. Instants are milliseconds since the
/// start of 1970.
pub uninterp spec fn cron_next_after(expression: Seq<char>, now_millis: i64) -> Option<i64>;

/// The clock readings that ticks are searched from, in milliseconds on
/// either side of the start of 1970. The bound is some 253 000 years, a
/// little inside what the calendar of the `chrono` crate reaches.
pub const CLOCK_LIMIT_MILLIS: i64 = 8_000_000_000_000_000;

/// Whether a clock reading is one that ticks are searched from.
pub open spec fn clock_in_range(now_millis: i64) -> bool {
    -CLOCK_LIMIT_MILLIS <= now_millis <= CLOCK_LIMIT_MILLIS
}

/// Whether a character stands between the fields of an expression:
/// a space, a tab or the end of a line.
pub open spec fn is_blank(c: char) -> bool {
    c == ' ' || c == '\t' || c == '\n' || c == '\r'
}

/// The fields of an expression: its runs of characters that are not
/// blank.
pub open spec fn field_count(expression: Seq<char>) -> nat
    decreases expression.len(),
{
    if expression.len() == 0 {
        0
    } else {
        let before = expression.drop_last();
        let begins = !is_blank(expression.last()) && (before.len() == 0 || is_blank(before.last()));
        if begins {
            field_count(before) + 1
        } else {
            field_count(before)
        }
    }
}

/// The fields of a standard cron expression: minute, hour, day of the
/// month, month and day of the week.
pub const STANDARD_FIELDS: usize = 5;

/// An expression as the schedule parser is to read it. The parser wants
/// the seconds in front; a standard expression of five fields has none,
/// and fires at the full minute, so it gets the seconds `0` put in front.
/// Every other expression is read as it stands.
pub open spec fn with_seconds(expression: Seq<char>) -> Seq<char> {
    if field_count(expression) == STANDARD_FIELDS {
        "0 "@ + expression
    } else {
        expression
    }
}

/// Whether an expression is a cron expression: the schedule parser takes
/// it, with the seconds put in front where it has five fields.
pub open spec fn cron_is_valid(expression: Seq<char>) -> bool {
    cron_accepts(with_seconds(expression))
}

/// Calls `cron::Schedule::from_str` and tells whether it took the
/// expression. Trusted: the result is what `cron_accepts` names.
#[verifier::external_body]
fn schedule_parses(expression: &str) -> (accepted: bool)
    ensures
        accepted == cron_accepts(expression@),
{
    cron::Schedule::from_str(expression).is_ok()
}

/// Calls `cron::Schedule::after` on the schedule that `expression` writes
/// and takes the first instant that its iterator yields. Trusted: the
/// result is what `cron_next_after` names. The clock reading is held
/// inside `chrono`'s calendar, where the search does not overflow.
#[verifier::external_body]
fn schedule_next_after(expression: &str, now_millis: i64) -> (next: Option<i64>)
    requires
        cron_accepts(expression@),
        clock_in_range(now_millis),
    ensures
        next == cron_next_after(expression@, now_millis),
{
    let schedule = cron::Schedule::from_str(expression).ok()?;
    let now = chrono::DateTime::<chrono::Utc>::from_timestamp_millis(now_millis)?;
    schedule.after(&now).next().map(|tick| tick.timestamp_millis())
}

/// Reads the system clock through `chrono::Utc::now`, in milliseconds
/// since the start of 1970. Trusted, and nothing is claimed of the result.
#[verifier::external_body]
pub(crate) fn clock_millis() -> i64 {
    chrono::Utc::now().timestamp_millis()
}

/// The next tick that is searched for: none from a clock reading out of
/// range.
pub open spec fn next_tick(expression: Seq<char>, now_millis: i64) -> Option<i64> {
    if clock_in_range(now_millis) {
        cron_next_after(with_seconds(expression), now_millis)
    } else {
        None
    }
}

/// Counts the fields of an expression.
fn count_fields(expression: &Vec<char>) -> (count: usize)
    ensures
        count == field_count(expression@),
{
    let mut count: usize = 0;
    let mut i: usize = 0;
    while i < expression.len()
        invariant
            0 <= i <= expression.len(),
            count <= i,
            count == field_count(expression@.take(i as int)),
        decreases expression.len() - i,
    {
        let c: char = expression[i];
        let blank: bool = c == ' ' || c == '\t' || c == '\n' || c == '\r';
        let after_blank: bool = if i == 0 {
            true
        } else {
            let b: char = expression[i - 1];
            b == ' ' || b == '\t' || b == '\n' || b == '\r'
        };
        proof {
            let upto = expression@.take(i + 1);
            assert(upto.drop_last() == expression@.take(i as int));
            assert(upto.last() == expression@[i as int]);
            if i > 0 {
                assert(expression@.take(i as int).last() == expression@[i - 1]);
            }
        }
        if !blank && after_blank {
            count = count + 1;
        }
        i += 1;
    }
    assert(expression@.take(expression.len() as int) == expression@);
    count
}

/// An expression as the schedule parser is to read it: with the seconds
/// put in front where it has five fields.
pub fn expression_with_seconds(cron: &str) -> (expression: String)
    ensures
        expression@ == with_seconds(cron@),
{
    let chars = chars_of(cron);
    if count_fields(&chars) == STANDARD_FIELDS {
        "0 ".to_owned().concat(cron)
    } else {
        cron.to_owned()
    }
}

/// The milliseconds to wait from `now_millis` until the tick `next`: their
/// difference, and zero for a tick that is not in the future. Without a
/// tick there is nothing to wait for.
pub open spec fn wait_millis(next: Option<i64>, now_millis: i64) -> Option<nat> {
    match next {
        Some(tick) => if tick > now_millis {
            Some((tick - now_millis) as nat)
        } else {
            Some(0)
        },
        None => None,
    }
}

/// What the check of an expression has to return.
pub open spec fn validity_holds(result: Result<(), CronError>, expression: Seq<char>) -> bool {
    if cron_is_valid(expression) {
        result is Ok
    } else {
        result matches Err(error) && error.is_invalid_cron(expression)
    }
}

/// What the search for the next tick of an expression has to return at
/// the clock reading `now_millis`.
pub open spec fn next_trigger_holds(
    result: Result<Duration, CronError>,
    expression: Seq<char>,
    now_millis: i64,
) -> bool {
    if !cron_is_valid(expression) {
        result matches Err(error) && error.is_invalid_cron(expression)
    } else {
        match wait_millis(next_tick(expression, now_millis), now_millis) {
            Some(wait) => result == Ok::<Duration, CronError>(Duration::of_millis(wait)),
            None => result == Err::<Duration, CronError>(CronError::NoUpcomingTrigger),
        }
    }
}

/// A standard expression of five fields is a cron expression exactly
/// where the parser takes it with the seconds `0` in front; an expression
/// of any other number of fields, exactly where the parser takes it as it
/// stands.
pub proof fn standard_expression_gets_seconds(expression: Seq<char>)
    ensures
        field_count(expression) == STANDARD_FIELDS ==> cron_is_valid(expression) == cron_accepts(
            "0 "@ + expression,
        ),
        field_count(expression) != STANDARD_FIELDS ==> cron_is_valid(expression) == cron_accepts(
            expression,
        ),
{
}

/// The wait from `now_millis` until the tick `next`, where there is one.
pub fn wait_until(next: Option<i64>, now_millis: i64) -> (result: Result<Duration, CronError>)
    ensures
        match wait_millis(next, now_millis) {
            Some(wait) => result == Ok::<Duration, CronError>(Duration::of_millis(wait)),
            None => result == Err::<Duration, CronError>(CronError::NoUpcomingTrigger),
        },
{
    match next {
        Some(tick) => {
            if tick > now_millis {
                let wide: i128 = tick as i128 - now_millis as i128;
                Ok(Duration { millis: wide as u128 })
            } else {
                Ok(Duration { millis: 0 })
            }
        },
        None => Err(CronError::NoUpcomingTrigger),
    }
}

/// Checks a cron expression, without looking at the clock.
pub fn check_validity_of_cron(cron: &str) -> (result: Result<(), CronError>)
    ensures
        validity_holds(result, cron@),
{
    let expression = expression_with_seconds(cron);
    if schedule_parses(expression.as_str()) {
        Ok(())
    } else {
        Err(CronError::InvalidCron(cron.to_owned()))
    }
}

/// The wait from the clock reading `now_millis` until the next tick of
/// `cron`, to the millisecond.
pub fn next_trigger_time_cron_after(cron: &str, now_millis: i64) -> (result: Result<
    Duration,
    CronError,
>)
    ensures
        next_trigger_holds(result, cron@, now_millis),
{
    let expression = expression_with_seconds(cron);
    if !schedule_parses(expression.as_str()) {
        return Err(CronError::InvalidCron(cron.to_owned()));
    }
    if now_millis < -CLOCK_LIMIT_MILLIS || now_millis > CLOCK_LIMIT_MILLIS {
        return Err(CronError::NoUpcomingTrigger);
    }
    let next: Option<i64> = schedule_next_after(expression.as_str(), now_millis);
    wait_until(next, now_millis)
}

/// The wait from now, by the system clock, until the next tick of `cron`.
pub fn calculate_next_trigger_time_cron(cron: String) -> (result: Result<Duration, CronError>)
    ensures
        exists|now_millis: i64| next_trigger_holds(result, cron@, now_millis),
        !cron_is_valid(cron@) ==> (result matches Err(error) && error.is_invalid_cron(cron@)),
{
    let now_millis: i64 = clock_millis();
    next_trigger_time_cron_after(cron.as_str(), now_millis)
}

/// A malformed expression fails the check and the search alike, each with
/// the error that holds the expression.
pub proof fn malformed_cron_is_refused(
    expression: Seq<char>,
    now_millis: i64,
    checked: Result<(), CronError>,
    searched: Result<Duration, CronError>,
)
    requires
        !cron_is_valid(expression),
        validity_holds(checked, expression),
        next_trigger_holds(searched, expression, now_millis),
    ensures
        checked matches Err(error) && error.is_invalid_cron(expression),
        searched matches Err(error) && error.is_invalid_cron(expression),
{
}

/// An expression that the parser takes passes the check, and its search
/// gives a wait wherever the schedule has a tick left. The wait is the
/// distance to that tick, and never negative.
pub proof fn well_formed_cron_waits(
    expression: Seq<char>,
    now_millis: i64,
    checked: Result<(), CronError>,
    searched: Result<Duration, CronError>,
)
    requires
        cron_is_valid(expression),
        validity_holds(checked, expression),
        next_trigger_holds(searched, expression, now_millis),
    ensures
        checked is Ok,
        next_tick(expression, now_millis) matches Some(tick) ==> (searched matches Ok(wait)
            && wait@ >= 0 && (tick > now_millis ==> wait@ == tick - now_millis)),
        next_tick(expression, now_millis) is None ==> searched == Err::<Duration, CronError>(
            CronError::NoUpcomingTrigger,
        ),
{
}

} // verus!
