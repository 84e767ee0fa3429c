use http::HeaderMap;
use webhook_scheduler::duration::Duration;
use webhook_scheduler::errors::CronError;
use webhook_scheduler::delivery::DeliveryError;
use webhook_scheduler::schedule_tasks::{
    body_or_error, schedule, start_delayed_task, start_scheduler, Request, Scheduler,
    SchedulerAction, TriggerSpec,
};
use webhook_scheduler::task::TaskStatus;
use webhook_scheduler::trigger_headers::Method;

/// 2024-01-01T12:00:30Z in milliseconds since the start of 1970.
const NOON_AND_THIRTY_SECONDS: i64 = 1_704_110_430_000;

#[test]
fn a_one_shot_task_fires_once() {
    let mut scheduler = start_delayed_task(Duration::from_secs(300));
    assert_eq!(scheduler, Scheduler::Delayed(Duration::from_secs(300)));
    assert_eq!(
        scheduler.next_firing(NOON_AND_THIRTY_SECONDS),
        SchedulerAction::Fire { wait: Duration::from_secs(300) }
    );
    assert_eq!(scheduler, Scheduler::Stopped);
    assert_eq!(scheduler.next_firing(NOON_AND_THIRTY_SECONDS + 300_000), SchedulerAction::Stop);
    assert_eq!(scheduler.next_firing(NOON_AND_THIRTY_SECONDS + 600_000), SchedulerAction::Stop);
    assert_eq!(scheduler, Scheduler::Stopped);
}

#[test]
fn a_recurring_task_fires_at_every_tick() {
    let mut scheduler = start_scheduler("0 * * * * *".to_string());
    assert_eq!(
        scheduler.next_firing(NOON_AND_THIRTY_SECONDS),
        SchedulerAction::Fire { wait: Duration::from_secs(30) }
    );
    assert_eq!(scheduler, Scheduler::Recurring("0 * * * * *".to_string()));
    assert_eq!(
        scheduler.next_firing(NOON_AND_THIRTY_SECONDS + 30_000),
        SchedulerAction::Fire { wait: Duration::from_secs(60) }
    );
    assert_eq!(
        scheduler.next_firing(NOON_AND_THIRTY_SECONDS + 90_100),
        SchedulerAction::Fire { wait: Duration::from_millis(59_900) }
    );
    assert_eq!(scheduler, Scheduler::Recurring("0 * * * * *".to_string()));
}

#[test]
fn a_malformed_expression_ends_the_schedule() {
    let mut scheduler = start_scheduler("every now and then".to_string());
    assert_eq!(
        scheduler.next_firing(NOON_AND_THIRTY_SECONDS),
        SchedulerAction::Abort(CronError::InvalidCron("every now and then".to_string()))
    );
    assert_eq!(scheduler, Scheduler::Stopped);
    assert_eq!(scheduler.next_firing(NOON_AND_THIRTY_SECONDS), SchedulerAction::Stop);
}

#[test]
fn a_schedule_that_has_run_out_ends() {
    let mut scheduler = start_scheduler("0 0 0 1 1 * 2020".to_string());
    assert_eq!(
        scheduler.next_firing(NOON_AND_THIRTY_SECONDS),
        SchedulerAction::Abort(CronError::NoUpcomingTrigger)
    );
    assert_eq!(scheduler, Scheduler::Stopped);
    assert_eq!(scheduler.next_firing(NOON_AND_THIRTY_SECONDS), SchedulerAction::Stop);
}

#[test]
fn a_trigger_gets_the_scheduler_of_its_kind() {
    assert_eq!(
        schedule(TriggerSpec::OneShot(Duration::from_secs(5))),
        Scheduler::Delayed(Duration::from_secs(5))
    );
    assert_eq!(
        schedule(TriggerSpec::Recurring("@hourly".to_string())),
        Scheduler::Recurring("@hourly".to_string())
    );
}

#[test]
fn a_body_goes_out_as_compact_json() {
    let mut object = serde_json::Map::new();
    object.insert("key".to_string(), serde_json::Value::String("value".to_string()));
    let request = Request {
        endpoint: "https://faxr.requestcatcher.com/test".to_string(),
        headers: HeaderMap::new(),
        body: serde_json::Value::Object(object),
        method: Method::Get,
    };
    assert_eq!(request.encoded_body(), Ok("{\"key\":\"value\"}".to_string()));
}

#[test]
fn an_encoder_that_gives_up_is_a_serialization_error() {
    let reason = serde_json::from_str::<serde_json::Value>("{").unwrap_err();
    assert_eq!(body_or_error(Err(reason)), Err(DeliveryError::SerializationError));
    assert_eq!(body_or_error(Ok("{}".to_string())), Ok("{}".to_string()));
}

#[test]
fn the_text_of_a_body_is_made_of_the_document_alone() {
    let mut object = serde_json::Map::new();
    object.insert("zeta".to_string(), serde_json::Value::Bool(true));
    object.insert("alpha".to_string(), serde_json::Value::Null);
    object.insert(
        "list".to_string(),
        serde_json::Value::Array(vec![
            serde_json::Value::from(1),
            serde_json::Value::String("two \"2\"".to_string()),
        ]),
    );
    let body = serde_json::Value::Object(object);
    let first = Request {
        endpoint: "https://example.com/a".to_string(),
        headers: HeaderMap::new(),
        body: body.clone(),
        method: Method::Post,
    };
    let second = Request {
        endpoint: "https://example.com/b".to_string(),
        headers: HeaderMap::new(),
        body,
        method: Method::Get,
    };
    let text = "{\"alpha\":null,\"list\":[1,\"two \\\"2\\\"\"],\"zeta\":true}".to_string();
    assert_eq!(first.encoded_body(), Ok(text.clone()));
    assert_eq!(first.encoded_body(), Ok(text.clone()));
    assert_eq!(second.encoded_body(), Ok(text));
}

#[test]
fn a_task_that_is_to_fire_is_recorded_as_pending() {
    let fire = SchedulerAction::Fire { wait: Duration::from_secs(1) };
    assert_eq!(fire.status_to_record(), Some(TaskStatus::Pending));
    assert_eq!(SchedulerAction::Stop.status_to_record(), None);
    assert_eq!(
        SchedulerAction::Abort(CronError::NoUpcomingTrigger).status_to_record(),
        None
    );
}

#[test]
fn a_standard_expression_schedules_at_the_full_minute() {
    let mut scheduler = start_scheduler("* * * * *".to_string());
    assert_eq!(
        scheduler.next_firing(NOON_AND_THIRTY_SECONDS),
        SchedulerAction::Fire { wait: Duration::from_secs(30) }
    );
    assert_eq!(scheduler, Scheduler::Recurring("* * * * *".to_string()));
}
