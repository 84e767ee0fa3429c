use webhook_scheduler::duration::Duration;
use webhook_scheduler::errors::CronError;
use webhook_scheduler::trigger_cron::{
    calculate_next_trigger_time_cron, check_validity_of_cron, expression_with_seconds,
    next_trigger_time_cron_after, wait_until, CLOCK_LIMIT_MILLIS,
};

/// 2024-01-01T12:00:30Z in milliseconds since the start of 1970.
const NOON_AND_THIRTY_SECONDS: i64 = 1_704_110_430_000;

#[test]
fn every_minute_is_thirty_seconds_away_at_half_past() {
    let wait = next_trigger_time_cron_after("0 * * * * *", NOON_AND_THIRTY_SECONDS).unwrap();
    assert_eq!(wait, Duration::from_secs(30));
    assert_eq!(wait.as_millis(), 30_000);
}

#[test]
fn the_wait_is_counted_to_the_millisecond() {
    let wait = next_trigger_time_cron_after("0 * * * * *", NOON_AND_THIRTY_SECONDS + 250).unwrap();
    assert_eq!(wait, Duration::from_millis(29_750));
}

#[test]
fn a_tick_at_the_clock_reading_is_not_the_next_one() {
    let on_the_minute = NOON_AND_THIRTY_SECONDS - 30_000;
    let wait = next_trigger_time_cron_after("0 * * * * *", on_the_minute).unwrap();
    assert_eq!(wait, Duration::from_secs(60));
}

#[test]
fn every_second_is_at_most_a_second_away() {
    let wait = next_trigger_time_cron_after("* * * * * *", NOON_AND_THIRTY_SECONDS + 1).unwrap();
    assert_eq!(wait, Duration::from_millis(999));
}

#[test]
fn a_daily_schedule_waits_until_midnight() {
    let wait = next_trigger_time_cron_after("@daily", NOON_AND_THIRTY_SECONDS).unwrap();
    assert_eq!(wait, Duration::from_secs(12 * 3600 - 30));
}

#[test]
fn malformed_expressions_fail_the_check_and_the_search() {
    for expression in [
        "",
        "not a cron",
        "* * *",
        "61 * * * * *",
        "0 * * * * * * *",
        "0 0 0 0 0 0",
        "61 * * * *",
        "* * * * x",
        "* * * *",
    ] {
        assert_eq!(
            check_validity_of_cron(expression),
            Err(CronError::InvalidCron(expression.to_string())),
            "expression {:?}",
            expression
        );
        assert_eq!(
            next_trigger_time_cron_after(expression, NOON_AND_THIRTY_SECONDS),
            Err(CronError::InvalidCron(expression.to_string())),
            "expression {:?}",
            expression
        );
        assert_eq!(
            calculate_next_trigger_time_cron(expression.to_string()),
            Err(CronError::InvalidCron(expression.to_string())),
            "expression {:?}",
            expression
        );
    }
}

#[test]
fn well_formed_expressions_pass_the_check() {
    for expression in ["0 * * * * *", "* * * * * *", "0 30 9 * * Mon-Fri", "@hourly", "0 0 0 1 1 * 2020"] {
        assert_eq!(check_validity_of_cron(expression), Ok(()), "expression {:?}", expression);
    }
}

#[test]
fn a_schedule_that_has_run_out_has_no_upcoming_trigger() {
    assert_eq!(
        next_trigger_time_cron_after("0 0 0 1 1 * 2020", NOON_AND_THIRTY_SECONDS),
        Err(CronError::NoUpcomingTrigger)
    );
    assert_eq!(
        calculate_next_trigger_time_cron("0 0 0 1 1 * 2020".to_string()),
        Err(CronError::NoUpcomingTrigger)
    );
}

#[test]
fn a_clock_reading_out_of_range_has_no_upcoming_trigger() {
    for now in [i64::MAX, i64::MIN, CLOCK_LIMIT_MILLIS + 1, -CLOCK_LIMIT_MILLIS - 1] {
        assert_eq!(
            next_trigger_time_cron_after("0 * * * * *", now),
            Err(CronError::NoUpcomingTrigger)
        );
    }
    assert_eq!(
        next_trigger_time_cron_after("0 * * * * *", CLOCK_LIMIT_MILLIS),
        Err(CronError::NoUpcomingTrigger)
    );
    assert_eq!(
        next_trigger_time_cron_after("not a cron", i64::MAX),
        Err(CronError::InvalidCron("not a cron".to_string()))
    );
}

#[test]
fn a_clock_reading_before_1970_is_searched_from() {
    // 1960-01-01T00:00:00Z
    let wait = next_trigger_time_cron_after("0 * * * * *", -315_619_200_000).unwrap();
    assert!(wait.as_millis() >= 315_619_200_000);
}

#[test]
fn the_wait_from_now_is_within_the_period() {
    let wait = calculate_next_trigger_time_cron("* * * * * *".to_string()).unwrap();
    assert!(wait.as_millis() <= 1_000);
    let wait = calculate_next_trigger_time_cron("0 * * * * *".to_string()).unwrap();
    assert!(wait.as_millis() <= 60_000);
}

#[test]
fn wait_until_is_the_distance_and_never_negative() {
    assert_eq!(wait_until(Some(1_500), 1_000), Ok(Duration::from_millis(500)));
    assert_eq!(wait_until(Some(1_000), 1_000), Ok(Duration::from_millis(0)));
    assert_eq!(wait_until(Some(900), 1_000), Ok(Duration::from_millis(0)));
    assert_eq!(wait_until(Some(-900), -1_000), Ok(Duration::from_millis(100)));
    assert_eq!(
        wait_until(Some(i64::MAX), i64::MIN).unwrap().as_millis(),
        u64::MAX as u128
    );
    assert_eq!(wait_until(None, 1_000), Err(CronError::NoUpcomingTrigger));
}

#[test]
fn errors_read_as_sentences() {
    assert_eq!(
        CronError::InvalidCron("a b c".to_string()).message(),
        "Invalid cron expression: a b c"
    );
    assert_eq!(CronError::NoUpcomingTrigger.message(), "No upcoming triggers found");
}

#[test]
fn standard_expressions_of_five_fields_pass_the_check() {
    for expression in ["*/5 * * * *", "* * * * *", "0 0 1 1 *", "30 9 * * Mon-Fri", " 15  4 * * * "] {
        assert_eq!(check_validity_of_cron(expression), Ok(()), "expression {:?}", expression);
    }
}

#[test]
fn a_standard_expression_fires_at_the_full_minute() {
    let wait = next_trigger_time_cron_after("* * * * *", NOON_AND_THIRTY_SECONDS).unwrap();
    assert_eq!(wait, Duration::from_secs(30));
    let wait = next_trigger_time_cron_after("*/5 * * * *", NOON_AND_THIRTY_SECONDS).unwrap();
    assert_eq!(wait, Duration::from_secs(4 * 60 + 30));
    let wait = next_trigger_time_cron_after("0 13 * * *", NOON_AND_THIRTY_SECONDS + 250).unwrap();
    assert_eq!(wait, Duration::from_millis(3_600_000 - 30_250));
    assert!(calculate_next_trigger_time_cron("* * * * *".to_string()).unwrap().as_millis() <= 60_000);
}

#[test]
fn five_fields_get_the_seconds_in_front_and_no_others() {
    assert_eq!(expression_with_seconds("* * * * *"), "0 * * * * *");
    assert_eq!(expression_with_seconds("*/5 * * * *"), "0 */5 * * * *");
    assert_eq!(expression_with_seconds("  1\t2 \n 3 \r4   5  "), "0   1\t2 \n 3 \r4   5  ");
    for expression in ["", " ", "@daily", "* * * *", "0 * * * * *", "0 0 0 1 1 * 2020", "a"] {
        assert_eq!(expression_with_seconds(expression), expression, "expression {:?}", expression);
    }
}

#[test]
fn a_malformed_standard_expression_is_named_as_it_came() {
    assert_eq!(
        next_trigger_time_cron_after("61 * * * *", NOON_AND_THIRTY_SECONDS),
        Err(CronError::InvalidCron("61 * * * *".to_string()))
    );
}
