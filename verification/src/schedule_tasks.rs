//! The life of a scheduled task: when it fires, and what goes out when it
//! does.

use http::HeaderMap;
use serde_json::Value;
use vstd::prelude::*;

use crate::delivery::{
    delivered_after_retries,
    delivered_at_once_records_nothing,
    network_failures_exhaust_attempts,
    AttemptResult,
    Delivery,
    DeliveryError,
};
use crate::duration::Duration;
use crate::errors::CronError;
use crate::task::TaskStatus;
use crate::trigger_cron::{next_trigger_holds, next_trigger_time_cron_after};
use crate::trigger_headers::Method;

verus! {

/// `serde_json::Value`, a JSON document.
#[verifier::external_type_specification]
#[verifier::external_body]
pub struct ExValue(Value);

/// `serde_json::Error`, the reason why a document was not encoded.
#[verifier::external_type_specification]
#[verifier::external_body]
pub struct ExJsonError(serde_json::Error);

/// What a document holds, as `serde_json::to_string` writes it down: its
/// compact JSON text, and nothing where the encoder gives up. The text is
/// made of the document alone: its members in the order of their keys,
/// its numbers and strings by the encoder's fixed rules.
pub uninterp spec fn json_text(body: Value) -> Option<Seq<char>>;

/// Encodes a document with `serde_json::to_string`. Trusted: the result
/// is what `json_text` names, the text where the encoder gives one and
/// an error where it gives up.
#[verifier::external_body]
fn encode_json(body: &Value) -> (encoded: Result<String, serde_json::Error>)
    ensures
        match encoded {
            Ok(text) => json_text(*body) == Some(text@),
            Err(_) => json_text(*body) is None,
        },
{
    serde_json::to_string(body)
}

/// What a document holds, as `serde_json::to_string_pretty` writes it
/// down for a reader: its JSON text with one member to a line, and
/// nothing where the encoder gives up. The text is made of the document
/// alone, as `json_text` is.
pub uninterp spec fn json_pretty_text(body: Value) -> Option<Seq<char>>;

/// Encodes a document with `serde_json::to_string_pretty`. Trusted: the
/// result is what `json_pretty_text` names, the text where the encoder
/// gives one and an error where it gives up.
#[verifier::external_body]
pub(crate) fn encode_json_pretty(body: &Value) -> (encoded: Result<String, serde_json::Error>)
    ensures
        match encoded {
            Ok(text) => json_pretty_text(*body) == Some(text@),
            Err(_) => json_pretty_text(*body) is None,
        },
{
    serde_json::to_string_pretty(body)
}

/// The callback of a task: where it goes and what it carries.
#[derive(Debug)]
pub struct Request {
    pub endpoint: String,
    pub headers: HeaderMap,
    pub body: Value,
    pub method: Method,
}

/// The body of a callback from what the encoder made of it: its text,
/// or a serialization error where the encoder gave up, whatever its
/// reason.
pub fn body_or_error(encoded: Result<String, serde_json::Error>) -> (body: Result<
    String,
    DeliveryError,
>)
    ensures
        match encoded {
            Ok(text) => body == Ok::<String, DeliveryError>(text),
            Err(_) => body == Err::<String, DeliveryError>(DeliveryError::SerializationError),
        },
{
    match encoded {
        Ok(text) => Ok(text),
        Err(_) => Err(DeliveryError::SerializationError),
    }
}

impl Request {
    /// The body as it goes over the wire: the compact JSON text of the
    /// document that the request carries. A body that the encoder gives
    /// up on is a serialization error, and no other error comes from here.
    pub fn encoded_body(&self) -> (encoded: Result<String, DeliveryError>)
        ensures
            match json_text(self.body) {
                Some(text) => encoded matches Ok(found) && found@ == text,
                None => encoded == Err::<String, DeliveryError>(
                    DeliveryError::SerializationError,
                ),
            },
    {
        body_or_error(encode_json(&self.body))
    }
}

/// When a task fires: once after a delay, or again and again on the ticks
/// of a cron expression.
#[derive(Debug, PartialEq, Eq)]
pub enum TriggerSpec {
    OneShot(Duration),
    Recurring(String),
}

/// A trigger as contracts speak of it.
pub enum TriggerPlan {
    OneShot(Duration),
    Recurring(Seq<char>),
}

impl View for TriggerSpec {
    type V = TriggerPlan;

    open spec fn view(&self) -> TriggerPlan {
        match self {
            TriggerSpec::OneShot(delay) => TriggerPlan::OneShot(*delay),
            TriggerSpec::Recurring(cron) => TriggerPlan::Recurring(cron@),
        }
    }
}

/// The scheduler of a task with the trigger `trigger`.
pub fn schedule(trigger: TriggerSpec) -> (scheduler: Scheduler)
    ensures
        scheduler == match trigger {
            TriggerSpec::OneShot(delay) => Scheduler::Delayed(delay),
            TriggerSpec::Recurring(cron) => Scheduler::Recurring(cron),
        },
{
    match trigger {
        TriggerSpec::OneShot(delay) => start_delayed_task(delay),
        TriggerSpec::Recurring(cron) => start_scheduler(cron),
    }
}

/// What schedules one task.
#[derive(Debug, PartialEq, Eq)]
pub enum Scheduler {
    /// A one-shot task that has not fired yet, and its delay.
    Delayed(Duration),
    /// A recurring task, and its cron expression.
    Recurring(String),
    /// A task that will not fire again.
    Stopped,
}

/// What the caller has to do for a task next.
#[derive(Debug, PartialEq, Eq)]
pub enum SchedulerAction {
    /// Record the status `Pending`, wait for `wait`, start a delivery with
    /// a counter of its own, and ask again.
    Fire { wait: Duration },
    /// The task will not fire again. There is nothing to do.
    Stop,
    /// The next tick could not be found: the task is not scheduled any
    /// more, and the error is to be logged.
    Abort(CronError),
}

impl SchedulerAction {
    /// The status that the action has the caller record, if any: a task
    /// that is to fire is `Pending` while it waits.
    pub open spec fn written(self) -> Option<TaskStatus> {
        match self {
            SchedulerAction::Fire { .. } => Some(TaskStatus::Pending),
            _ => None,
        }
    }

    /// The status that the action has the caller record, if any.
    pub fn status_to_record(&self) -> (status: Option<TaskStatus>)
        ensures
            status == self.written(),
    {
        match self {
            SchedulerAction::Fire { .. } => Some(TaskStatus::Pending),
            _ => None,
        }
    }
}

impl Scheduler {
    /// Whether a scheduler in the state `self`, asked at the clock reading
    /// `now_millis`, may answer `action` and go on in the state `next`.
    ///
    /// A one-shot task fires after its delay and is stopped from then on.
    /// A recurring task fires at its next tick and stays as it is; where
    /// there is no next tick it is stopped with the error. A stopped task
    /// stays stopped.
    pub open spec fn steps_to(
        self,
        now_millis: i64,
        next: Scheduler,
        action: SchedulerAction,
    ) -> bool {
        match self {
            Scheduler::Delayed(delay) => next == Scheduler::Stopped && action
                == (SchedulerAction::Fire { wait: delay }),
            Scheduler::Recurring(cron) => match action {
                SchedulerAction::Fire { wait } => next == self && next_trigger_holds(
                    Ok(wait),
                    cron@,
                    now_millis,
                ),
                SchedulerAction::Abort(error) => next == Scheduler::Stopped && next_trigger_holds(
                    Err(error),
                    cron@,
                    now_millis,
                ),
                SchedulerAction::Stop => false,
            },
            Scheduler::Stopped => next == Scheduler::Stopped && action == SchedulerAction::Stop,
        }
    }

    /// Says what to do for the task at the clock reading `now_millis`.
    pub fn next_firing(&mut self, now_millis: i64) -> (action: SchedulerAction)
        ensures
            old(self).steps_to(now_millis, *final(self), action),
    {
        let found: Option<Result<Duration, CronError>> = match self {
            Scheduler::Delayed(delay) => Some(Ok(*delay)),
            Scheduler::Recurring(cron) => Some(next_trigger_time_cron_after(cron.as_str(), now_millis)),
            Scheduler::Stopped => None,
        };
        match found {
            Some(Ok(wait)) => {
                match self {
                    Scheduler::Delayed(_) => {
                        *self = Scheduler::Stopped;
                    },
                    _ => {},
                }
                SchedulerAction::Fire { wait }
            },
            Some(Err(error)) => {
                *self = Scheduler::Stopped;
                SchedulerAction::Abort(error)
            },
            None => SchedulerAction::Stop,
        }
    }
}

/// The scheduler of a recurring task.
pub fn start_scheduler(trigger_cron: String) -> (scheduler: Scheduler)
    ensures
        scheduler == Scheduler::Recurring(trigger_cron),
{
    Scheduler::Recurring(trigger_cron)
}

/// The scheduler of a one-shot task.
pub fn start_delayed_task(delay: Duration) -> (scheduler: Scheduler)
    ensures
        scheduler == Scheduler::Delayed(delay),
{
    Scheduler::Delayed(delay)
}

/// A one-shot task fires exactly once: at the first call after its delay,
/// and at no later call.
pub proof fn one_shot_fires_once(
    delay: Duration,
    first_millis: i64,
    second: Scheduler,
    first_action: SchedulerAction,
    later_millis: i64,
    third: Scheduler,
    later_action: SchedulerAction,
)
    requires
        Scheduler::Delayed(delay).steps_to(first_millis, second, first_action),
        second.steps_to(later_millis, third, later_action),
    ensures
        first_action == (SchedulerAction::Fire { wait: delay }),
        later_action == SchedulerAction::Stop,
        third == Scheduler::Stopped,
{
}

/// The statuses of a one-shot task with the delay `delay` in the order in
/// which the store sees them: the status of a task that was just taken
/// in, what the scheduler has recorded when it fires the task, and then
/// what the one delivery records over attempts that end with `results`.
pub open spec fn one_shot_statuses(
    delay: Duration,
    max_attempts: u32,
    results: Seq<AttemptResult>,
) -> Seq<TaskStatus> {
    let fired = match (SchedulerAction::Fire { wait: delay }).written() {
        Some(status) => seq![status],
        None => Seq::empty(),
    };
    seq![TaskStatus::initial()] + fired + Delivery::fresh(max_attempts).writes(
        results,
    ).map_values(|write: (TaskStatus, u32)| write.0)
}

/// The first answer of the scheduler of a one-shot task is to fire it,
/// so the first status that it has recorded is the one that
/// `one_shot_statuses` puts second.
pub proof fn one_shot_fires_first(
    delay: Duration,
    now_millis: i64,
    next: Scheduler,
    action: SchedulerAction,
)
    requires
        Scheduler::Delayed(delay).steps_to(now_millis, next, action),
    ensures
        action == (SchedulerAction::Fire { wait: delay }),
        action.written() == Some(TaskStatus::Pending),
{
}

/// A one-shot task whose first attempt gets through is `Created` and then
/// `Pending`, and never `Retry` or `Failed`.
pub proof fn one_shot_delivered_at_once(
    delay: Duration,
    max_attempts: u32,
    results: Seq<AttemptResult>,
)
    requires
        max_attempts >= 1,
        results.len() >= 1,
        results[0] == AttemptResult::Delivered,
    ensures
        one_shot_statuses(delay, max_attempts, results) == seq![
            TaskStatus::Created,
            TaskStatus::Pending,
        ],
{
    delivered_at_once_records_nothing(max_attempts, results);
}

/// A one-shot task that loses `lost` attempts on the network and then
/// gets through is `Created`, `Pending`, and `Retry` once for each lost
/// attempt. It is never `Failed`.
pub proof fn one_shot_delivered_after_retries(
    delay: Duration,
    max_attempts: u32,
    lost: nat,
    results: Seq<AttemptResult>,
)
    requires
        lost < max_attempts,
        results.len() > lost,
        forall|i: int| 0 <= i < lost ==> results[i] == AttemptResult::NetworkError,
        results[lost as int] == AttemptResult::Delivered,
    ensures
        one_shot_statuses(delay, max_attempts, results) == seq![
            TaskStatus::Created,
            TaskStatus::Pending,
        ] + Seq::new(lost, |i: int| TaskStatus::Retry),
{
    delivered_after_retries(max_attempts, lost, results);
}

/// A one-shot task whose every attempt fails on the network is `Created`,
/// `Pending`, `Retry` once for each allowed attempt but the last, and then
/// `Failed`.
pub proof fn one_shot_network_failures(
    delay: Duration,
    max_attempts: u32,
    results: Seq<AttemptResult>,
)
    requires
        max_attempts >= 1,
        results.len() >= max_attempts,
        forall|i: int| 0 <= i < results.len() ==> results[i] == AttemptResult::NetworkError,
    ensures
        one_shot_statuses(delay, max_attempts, results) == seq![
            TaskStatus::Created,
            TaskStatus::Pending,
        ] + Seq::new((max_attempts - 1) as nat, |i: int| TaskStatus::Retry)
            + seq![TaskStatus::Failed],
{
    network_failures_exhaust_attempts(max_attempts, results);
}

/// A recurring task whose next tick cannot be found is not asked for a
/// tick again: from the error on, every answer is `Stop`.
pub proof fn aborted_task_stays_stopped(
    cron: String,
    first_millis: i64,
    second: Scheduler,
    error: CronError,
    later_millis: i64,
    third: Scheduler,
    later_action: SchedulerAction,
)
    requires
        Scheduler::Recurring(cron).steps_to(first_millis, second, SchedulerAction::Abort(error)),
        second.steps_to(later_millis, third, later_action),
    ensures
        later_action == SchedulerAction::Stop,
        third == Scheduler::Stopped,
{
}

} // verus!
