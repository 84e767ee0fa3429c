//! What can go wrong with a recurring trigger.

use vstd::prelude::*;

verus! {

/// Why a cron expression gives no next firing.
#[derive(Debug, PartialEq, Eq)]
pub enum CronError {
    /// The expression is not one that the schedule parser takes. The
    /// field holds the expression.
    InvalidCron(String),
    /// The expression is in order, but the schedule it writes has run out.
    NoUpcomingTrigger,
}

impl CronError {
    /// Whether this is the error of the malformed expression `expression`.
    pub open spec fn is_invalid_cron(self, expression: Seq<char>) -> bool {
        self matches CronError::InvalidCron(text) && text@ == expression
    }

    /// The text of the error as a reader is to see it.
    pub open spec fn message_text(self) -> Seq<char> {
        match self {
            CronError::InvalidCron(text) => "Invalid cron expression: "@ + text@,
            CronError::NoUpcomingTrigger => "No upcoming triggers found"@,
        }
    }

    /// The text of the error as a reader is to see it.
    pub fn message(&self) -> (text: String)
        ensures
            text@ == self.message_text(),
    {
        match self {
            CronError::InvalidCron(expression) => {
                String::from_str("Invalid cron expression: ").concat(expression.as_str())
            },
            CronError::NoUpcomingTrigger => String::from_str("No upcoming triggers found"),
        }
    }
}

} // verus!
