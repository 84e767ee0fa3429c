//! The way in: from a submission to a task with its schedule.

use http::HeaderMap;
use serde_json::Value;
use vstd::prelude::*;

use crate::schedule_tasks::{
    encode_json_pretty,
    json_pretty_text,
    Request,
    TriggerPlan,
    TriggerSpec,
};
use crate::task::{add_task, epoch_seconds, Task, TaskStatus};
use crate::trigger_cron::{check_validity_of_cron, clock_millis, cron_is_valid};
use crate::trigger_delay::TriggerTime;
use crate::trigger_headers::{
    forwarding_holds,
    header_entries,
    header_fields,
    last_value,
    method_of,
    TriggerHeader,
};
use crate::utils::{convert, header_debug_text};

verus! {

/// Where the callback of a submission is to go.
#[derive(Debug)]
pub struct EndpointQuery {
    pub endpoint: String,
}

/// Why a submission is turned away.
#[derive(Clone, Copy, Debug, PartialEq, Eq, Structural)]
pub enum PublishError {
    /// The cron expression is malformed.
    InvalidCron,
    /// The delay token is malformed.
    InvalidDelayFormat,
    /// The body cannot be written down.
    Serialization,
}

impl PublishError {
    /// The text of the refusal as the submitter is to see it.
    pub open spec fn message_text(self) -> Seq<char> {
        match self {
            PublishError::InvalidCron => "Invalid cron expression"@,
            PublishError::InvalidDelayFormat => "Invalid delay format"@,
            PublishError::Serialization => "Body cannot be serialized"@,
        }
    }

    /// The text of the refusal as the submitter is to see it.
    pub fn message(&self) -> (text: &'static str)
        ensures
            text@ == self.message_text(),
    {
        match self {
            PublishError::InvalidCron => "Invalid cron expression",
            PublishError::InvalidDelayFormat => "Invalid delay format",
            PublishError::Serialization => "Body cannot be serialized",
        }
    }
}

/// A submission that was taken in.
#[derive(Debug)]
pub struct Submission {
    /// The identifier that the submitter is told.
    pub message_id: String,
    /// The record for the store.
    pub task: Task,
    /// The callback.
    pub request: Request,
    /// When the callback fires. A submission without a trigger is kept,
    /// and never fires.
    pub trigger: Option<TriggerSpec>,
}

/// The trigger that the two trigger headers of a submission ask for.
///
/// A malformed cron expression turns the submission away, whatever else
/// it holds, and so does a malformed delay token. Of a delay and a cron
/// expression in one submission, the delay counts.
pub open spec fn planned(delay: Option<Seq<char>>, cron: Option<Seq<char>>) -> Result<
    Option<TriggerPlan>,
    PublishError,
> {
    if cron is Some && !cron_is_valid(cron->0) {
        Err(PublishError::InvalidCron)
    } else {
        match delay {
            Some(token) => match TriggerTime::resolved(token) {
                Some(wait) => Ok(Some(TriggerPlan::OneShot(wait))),
                None => Err(PublishError::InvalidDelayFormat),
            },
            None => match cron {
                Some(expression) => Ok(Some(TriggerPlan::Recurring(expression))),
                None => Ok(None),
            },
        }
    }
}

/// Whether `result` is the trigger that `plan` asks for.
pub open spec fn plan_holds(
    result: Result<Option<TriggerSpec>, PublishError>,
    plan: Result<Option<TriggerPlan>, PublishError>,
) -> bool {
    match plan {
        Err(error) => result == Err::<Option<TriggerSpec>, PublishError>(error),
        Ok(None) => result == Ok::<Option<TriggerSpec>, PublishError>(None),
        Ok(Some(trigger)) => result matches Ok(Some(found)) && found@ == trigger,
    }
}

/// Settles the trigger of a submission from its two trigger headers.
pub fn plan_trigger(trigger_delay: Option<String>, trigger_cron: Option<String>) -> (result:
    Result<Option<TriggerSpec>, PublishError>)
    ensures
        plan_holds(result, planned(trigger_delay.deep_view(), trigger_cron.deep_view())),
{
    match &trigger_cron {
        Some(cron) => {
            if check_validity_of_cron(cron.as_str()).is_err() {
                return Err(PublishError::InvalidCron);
            }
        },
        None => {},
    }
    if trigger_delay.is_some() {
        match TriggerTime::from_string(trigger_delay) {
            Some(wait) => Ok(Some(TriggerSpec::OneShot(wait))),
            None => Err(PublishError::InvalidDelayFormat),
        }
    } else {
        match trigger_cron {
            Some(cron) => Ok(Some(TriggerSpec::Recurring(cron))),
            None => Ok(None),
        }
    }
}

/// The trigger that the headers of a submission ask for.
pub open spec fn planned_for(headers: HeaderMap) -> Result<Option<TriggerPlan>, PublishError> {
    planned(
        last_value(header_entries(headers), "trigger-delay"@),
        last_value(header_entries(headers), "trigger-cron"@),
    )
}

/// What taking in a submission has to return, for the identifier
/// `message_id`, the clock reading `now_millis`, the headers written down
/// as `header_text` and the body written down as `body_text`.
///
/// A submission whose trigger headers are in order is turned away only
/// where its body could not be written down. One that is taken in gets a
/// task in the status `Created`, made at the clock reading, with the two
/// texts; and a callback to the endpoint with the forwarded headers, the
/// method that `trigger-method` asks for and the body as it came.
pub open spec fn submission_holds(
    result: Result<Submission, PublishError>,
    message_id: String,
    now_millis: i64,
    endpoint: Seq<char>,
    headers: HeaderMap,
    payload: Value,
    header_text: String,
    body_text: Option<String>,
) -> bool {
    match planned_for(headers) {
        Err(error) => result matches Err(found) && found == error,
        Ok(plan) => match body_text {
            None => result matches Err(found) && found == PublishError::Serialization,
            Some(body) => {
                &&& result matches Ok(submission)
                &&& submission.message_id == message_id
                &&& submission.task.id@ == message_id@
                &&& submission.task.status == TaskStatus::Created
                &&& submission.task.attempts == 0
                &&& submission.task.created_at == epoch_seconds(now_millis)
                &&& submission.task.updated_at == epoch_seconds(now_millis)
                &&& submission.task.endpoint@ == endpoint
                &&& submission.task.header == header_text
                &&& submission.task.body == body
                &&& submission.request.endpoint@ == endpoint
                &&& submission.request.body == payload
                &&& submission.request.method == method_of(
                    last_value(header_entries(headers), "trigger-method"@),
                )
                &&& forwarding_holds(
                    header_fields(submission.request.headers),
                    header_entries(headers),
                )
                &&& match plan {
                    Some(trigger) => submission.trigger matches Some(found) && found@ == trigger,
                    None => submission.trigger is None,
                }
            },
        },
    }
}

/// Whether a character is a digit of base sixteen, in lower case.
pub open spec fn is_hex_digit(c: char) -> bool {
    ('0' <= c <= '9') || ('a' <= c <= 'f')
}

/// Whether a text has the form of an identifier: thirty-six characters,
/// hyphens at the places 8, 13, 18 and 23, and digits of base sixteen at
/// all others.
pub open spec fn is_message_id(text: Seq<char>) -> bool {
    &&& text.len() == 36
    &&& forall|i: int|
        0 <= i < 36 ==> if i == 8 || i == 13 || i == 18 || i == 23 {
            #[trigger] text[i] == '-'
        } else {
            is_hex_digit(text[i])
        }
}

/// Makes an identifier with `uuid::Uuid::new_v4` and writes it down with
/// its `to_string`. Trusted: whatever identifier is drawn, the text has
/// the form of one.
#[verifier::external_body]
fn new_message_id() -> (id: String)
    ensures
        is_message_id(id@),
{
    uuid::Uuid::new_v4().to_string()
}

/// Takes in a submission under the identifier `message_id`, at the clock
/// reading `now_millis`. The headers and the body come a second time as
/// the texts that the store is to keep; a body that could not be written
/// down comes as nothing.
pub fn accept(
    message_id: String,
    now_millis: i64,
    query: EndpointQuery,
    headers: HeaderMap,
    payload: Value,
    header_text: String,
    body_text: Option<String>,
) -> (result: Result<Submission, PublishError>)
    ensures
        submission_holds(
            result,
            message_id,
            now_millis,
            query.endpoint@,
            headers,
            payload,
            header_text,
            body_text,
        ),
{
    let TriggerHeader { trigger_delay, trigger_cron, trigger_method, forwarded_headers } =
        TriggerHeader::process_headers(headers);
    let trigger = match plan_trigger(trigger_delay, trigger_cron) {
        Ok(trigger) => trigger,
        Err(error) => {
            return Err(error);
        },
    };
    let body = match body_text {
        Some(body) => body,
        None => {
            return Err(PublishError::Serialization);
        },
    };
    let task = add_task(message_id.as_str(), query.endpoint.as_str(), header_text, body, now_millis);
    let request = Request {
        endpoint: query.endpoint,
        headers: forwarded_headers,
        body: payload,
        method: trigger_method,
    };
    Ok(Submission { message_id, task, request, trigger })
}

/// What `publish` has to return.
///
/// The trigger headers decide first: a malformed cron expression and a
/// malformed delay turn the submission away, as `planned` says. With the
/// headers in order the encoder decides: the submission is taken in where
/// the body can be written down, and turned away as one that cannot be
/// serialized where not. A submission that is taken in is one that
/// `accept` makes: of an identifier of the right form, a reading of the
/// clock, the headers as `Debug` writes them and the body as the encoder
/// wrote it.
pub open spec fn publish_holds(
    result: Result<Submission, PublishError>,
    endpoint: Seq<char>,
    headers: HeaderMap,
    payload: Value,
) -> bool {
    &&& result is Ok <==> planned_for(headers) is Ok && json_pretty_text(payload) is Some
    &&& exists|message_id: String, now_millis: i64, header_text: String, body_text: Option<String>|
        {
            &&& is_message_id(message_id@)
            &&& header_text@ == header_debug_text(headers)
            &&& body_text.deep_view() == json_pretty_text(payload)
            &&& #[trigger] submission_holds(
                result,
                message_id,
                now_millis,
                endpoint,
                headers,
                payload,
                header_text,
                body_text,
            )
        }
}

/// What `publish_holds` says of a submission that was taken in, in plain
/// words: its identifier has the form of one and is that of its task,
/// and its task holds the headers and the body as they were written down.
pub proof fn published_task_holds_the_texts(
    result: Result<Submission, PublishError>,
    endpoint: Seq<char>,
    headers: HeaderMap,
    payload: Value,
)
    requires
        publish_holds(result, endpoint, headers, payload),
    ensures
        planned_for(headers) matches Err(error) ==> (result matches Err(found) && found == error),
        planned_for(headers) is Ok && json_pretty_text(payload) is None ==> (result matches Err(
            found,
        ) && found == PublishError::Serialization),
        result matches Ok(submission) ==> {
            &&& is_message_id(submission.message_id@)
            &&& submission.task.id@ == submission.message_id@
            &&& json_pretty_text(payload) == Some(submission.task.body@)
            &&& submission.task.header@ == header_debug_text(headers)
            &&& submission.task.status == TaskStatus::Created
        },
{
}

/// Takes in a submission: gives it an identifier, reads the clock, writes
/// the headers and the body down for the store, and settles its task, its
/// callback and its trigger.
pub fn publish(query: EndpointQuery, headers: HeaderMap, payload: Value) -> (result: Result<
    Submission,
    PublishError,
>)
    ensures
        publish_holds(result, query.endpoint@, headers, payload),
{
    let message_id = new_message_id();
    let now_millis: i64 = clock_millis();
    let header_text = convert(&headers);
    let body_text: Option<String> = match encode_json_pretty(&payload) {
        Ok(text) => Some(text),
        Err(_) => None,
    };
    let ghost id = message_id;
    let ghost header = header_text;
    let ghost body = body_text;
    let result = accept(message_id, now_millis, query, headers, payload, header_text, body_text);
    assert(submission_holds(
        result,
        id,
        now_millis,
        query.endpoint@,
        headers,
        payload,
        header,
        body,
    ));
    result
}

} // verus!
