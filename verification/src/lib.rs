//! Scheduling and delivery rules for webhook callbacks.
//!
//! A client submits a callback (an endpoint, a method, headers and a JSON
//! body) together with a trigger: fire once after a delay, or fire again
//! and again on the ticks of a cron expression. This crate holds the rules
//! of that service, each with its contract:
//!
//! - [`trigger_delay`] reads delay tokens such as `5m`;
//! - [`trigger_cron`] checks cron expressions and finds the wait until
//!   their next tick;
//! - [`trigger_headers`] reads the trigger and the forwarded headers out
//!   of the headers of a submission;
//! - [`publish`] takes a submission in, or turns it away;
//! - [`schedule_tasks`] says when a task fires;
//! - [`delivery`] counts the attempts of one firing and says when to
//!   retry, after which wait, and when to give up;
//! - [`task`] is the record of a task as the store keeps it.
//!
//! Nothing here waits, sends or stores. The caller does, and tells these
//! rules what came of it.

pub mod delivery;
pub mod duration;
pub mod errors;
pub mod publish;
pub mod schedule_tasks;
pub mod task;
pub mod trigger_cron;
pub mod trigger_delay;
pub mod trigger_headers;
pub mod utils;
