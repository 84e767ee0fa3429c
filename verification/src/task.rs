//! Task records and their status.

use vstd::prelude::*;

verus! {

/// The status of a task as the store records it.
#[derive(Clone, Copy, Debug, PartialEq, Eq, Structural)]
pub enum TaskStatus {
    Created,
    Pending,
    Retry,
    Failed,
}

impl TaskStatus {
    /// The status of a task that was just taken in.
    pub open spec fn initial() -> TaskStatus {
        TaskStatus::Created
    }

    /// The text under which the store holds this status.
    pub open spec fn text(self) -> Seq<char> {
        match self {
            TaskStatus::Created => "CREATED"@,
            TaskStatus::Pending => "PENDING"@,
            TaskStatus::Retry => "RETRY"@,
            TaskStatus::Failed => "FAILED"@,
        }
    }

    /// The status that the store holds under a text; none under a text
    /// that is not one of the four.
    pub open spec fn of_text(text: Seq<char>) -> Option<TaskStatus> {
        if text == "CREATED"@ {
            Some(TaskStatus::Created)
        } else if text == "PENDING"@ {
            Some(TaskStatus::Pending)
        } else if text == "RETRY"@ {
            Some(TaskStatus::Retry)
        } else if text == "FAILED"@ {
            Some(TaskStatus::Failed)
        } else {
            None
        }
    }

    /// Reads a status back from the text under which the store holds it.
    pub fn from_text(text: &str) -> (status: Option<TaskStatus>)
        ensures
            status == Self::of_text(text@),
    {
        let text: String = text.to_owned();
        if text == "CREATED".to_owned() {
            Some(TaskStatus::Created)
        } else if text == "PENDING".to_owned() {
            Some(TaskStatus::Pending)
        } else if text == "RETRY".to_owned() {
            Some(TaskStatus::Retry)
        } else if text == "FAILED".to_owned() {
            Some(TaskStatus::Failed)
        } else {
            None
        }
    }

    /// The text under which the store holds this status.
    pub fn as_str(&self) -> (s: &'static str)
        ensures
            s@ == self.text(),
    {
        match self {
            TaskStatus::Created => "CREATED",
            TaskStatus::Pending => "PENDING",
            TaskStatus::Retry => "RETRY",
            TaskStatus::Failed => "FAILED",
        }
    }
}

/// The four texts name four different statuses.
pub proof fn status_texts_differ(a: TaskStatus, b: TaskStatus)
    requires
        a != b,
    ensures
        a.text() != b.text(),
{
    reveal_strlit("CREATED");
    reveal_strlit("PENDING");
    reveal_strlit("RETRY");
    reveal_strlit("FAILED");
    if a.text() == b.text() {
        assert(a.text()[0] == b.text()[0]);
    }
}

/// A status that was written down as text is read back as it was.
pub proof fn status_text_reads_back(status: TaskStatus)
    ensures
        TaskStatus::of_text(status.text()) == Some(status),
{
    if status != TaskStatus::Created {
        status_texts_differ(status, TaskStatus::Created);
    }
    if status != TaskStatus::Pending {
        status_texts_differ(status, TaskStatus::Pending);
    }
    if status != TaskStatus::Retry {
        status_texts_differ(status, TaskStatus::Retry);
    }
}

/// The whole seconds since the start of 1970 at a clock reading in
/// milliseconds; for a reading before 1970 this is the second that the
/// reading lies in, as for every other.
pub open spec fn epoch_seconds(now_millis: i64) -> int {
    now_millis as int / 1000
}

/// The whole seconds since the start of 1970 at a clock reading in
/// milliseconds.
pub fn seconds_of(now_millis: i64) -> (seconds: i64)
    ensures
        seconds == epoch_seconds(now_millis),
{
    if now_millis >= 0 {
        now_millis / 1000
    } else {
        let back: i64 = -(now_millis + 1);
        let whole: i64 = back / 1000;
        -whole - 1
    }
}

/// One scheduled callback as the store holds it.
#[derive(Debug)]
pub struct Task {
    /// The identifier that the submission was given. It never changes.
    pub id: String,
    pub status: TaskStatus,
    /// When the task was made, in seconds since the start of 1970.
    pub created_at: i64,
    /// When the status was last recorded, in seconds since the start of 1970.
    pub updated_at: i64,
    pub endpoint: String,
    /// The headers of the submission, as text.
    pub header: String,
    /// The body of the submission, as text.
    pub body: String,
    /// The delivery attempts made when the status was last recorded.
    pub attempts: u32,
}

impl Task {
    /// The task after the store was told of a status: the status, the
    /// attempts and the time of the update are set, whatever the status
    /// was before, and nothing else is.
    pub open spec fn updated(self, status: TaskStatus, attempts: u32, now_millis: i64) -> Task {
        Task { status, attempts, updated_at: epoch_seconds(now_millis) as i64, ..self }
    }
}

/// The record of a task that was just submitted: status `Created`, no
/// attempt made, made and updated at the clock reading `now_millis`.
pub fn add_task(
    message_id: &str,
    endpoint: &str,
    header: String,
    body: String,
    now_millis: i64,
) -> (task: Task)
    ensures
        task.id@ == message_id@,
        task.status == TaskStatus::initial(),
        task.created_at == epoch_seconds(now_millis),
        task.updated_at == epoch_seconds(now_millis),
        task.endpoint@ == endpoint@,
        task.header == header,
        task.body == body,
        task.attempts == 0,
{
    let timestamp: i64 = seconds_of(now_millis);
    Task {
        id: message_id.to_owned(),
        status: TaskStatus::Created,
        created_at: timestamp,
        updated_at: timestamp,
        endpoint: endpoint.to_owned(),
        header,
        body,
        attempts: 0,
    }
}

/// Records a status on a task, with the attempts made so far, at the
/// clock reading `now_millis`.
pub fn update_task(task: &mut Task, status: TaskStatus, attempts: u32, now_millis: i64)
    ensures
        *final(task) == old(task).updated(status, attempts, now_millis),
{
    task.status = status;
    task.attempts = attempts;
    task.updated_at = seconds_of(now_millis);
}

/// Recording the same status twice leaves a task as recording it once;
/// recorded again at a later time, only the time of the update moves.
pub proof fn update_is_idempotent(
    task: Task,
    status: TaskStatus,
    attempts: u32,
    now_millis: i64,
    later_millis: i64,
)
    ensures
        task.updated(status, attempts, now_millis).updated(status, attempts, now_millis)
            == task.updated(status, attempts, now_millis),
        task.updated(status, attempts, now_millis).updated(status, attempts, later_millis)
            == task.updated(status, attempts, later_millis),
{
}

/// An update records the status that it was given, on every task, and
/// never touches what the submission gave: the identifier, the time of
/// creation, the endpoint, the headers and the body.
pub proof fn update_keeps_payload(task: Task, status: TaskStatus, attempts: u32, now_millis: i64)
    ensures
        task.updated(status, attempts, now_millis).status == status,
        task.updated(status, attempts, now_millis).attempts == attempts,
        task.updated(status, attempts, now_millis).updated_at == epoch_seconds(now_millis),
        task.updated(status, attempts, now_millis).id == task.id,
        task.updated(status, attempts, now_millis).created_at == task.created_at,
        task.updated(status, attempts, now_millis).endpoint == task.endpoint,
        task.updated(status, attempts, now_millis).header == task.header,
        task.updated(status, attempts, now_millis).body == task.body,
{
}

} // verus!
