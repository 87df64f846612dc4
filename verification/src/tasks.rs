//! The task records that messages carry.

use vstd::prelude::*;

use crate::ids::Uuid;

verus! {

/// The largest integer that JSON readers keep exact: 2^53 - 1.
pub const MAX_SAFE_INTEGER: i64 = 9_007_199_254_740_991;

/// A number of the range that identifiers and versions are drawn from.
pub open spec fn positive_safe(value: i64) -> bool {
    1 <= value <= MAX_SAFE_INTEGER
}

/// A number of the range that cursors are drawn from.
pub open spec fn safe_cursor(value: i64) -> bool {
    0 <= value <= MAX_SAFE_INTEGER
}

pub fn is_positive_safe(value: i64) -> (yes: bool)
    ensures
        yes == positive_safe(value),
{
    1 <= value && value <= MAX_SAFE_INTEGER
}

pub fn is_safe_cursor(value: i64) -> (yes: bool)
    ensures
        yes == safe_cursor(value),
{
    0 <= value && value <= MAX_SAFE_INTEGER
}

#[derive(Clone, Copy, Debug, PartialEq, Eq, Structural)]
pub enum TaskState {
    Todo,
    InProgress,
    Blocked,
    Paused,
    Done,
    Cancelled,
}

/// Why an attempt at a task stopped.
#[derive(Clone, Copy, Debug, PartialEq, Eq, Structural)]
pub enum PauseReason {
    Paused,
    Blocked,
    SessionEnded,
    TurnEnded,
    HostError,
    OperatorInterrupt,
    RequestTimeout,
    RequestCancelled,
}

#[derive(Clone, Copy, Debug, PartialEq, Eq, Structural)]
pub enum ExternalProvider {
    Github,
    Linear,
}

#[derive(Clone, Copy, Debug, PartialEq, Eq, Structural)]
pub enum ExternalPublishKind {
    Issue,
    Report,
}

#[derive(Clone, Copy, Debug, PartialEq, Eq, Structural)]
pub enum ExternalResolutionOutcome {
    Applied,
    NotApplied,
}

/// What an executor hands over when it stops or finishes.
#[derive(Debug, PartialEq)]
pub struct TaskCheckpoint {
    pub summary: String,
    pub next_steps: String,
    pub artifacts: Vec<String>,
    pub risks: String,
}

/// The verdicts of the task store's text rules on the texts that one message carries.
/// The verdict on a text that the message does not carry is not read.
#[derive(Clone, Copy, Debug, PartialEq, Eq, Structural)]
pub struct TaskTextVerdicts {
    pub title: bool,
    pub description: bool,
    pub note: bool,
    pub handoff_note: bool,
    pub checkpoint: bool,
}

#[derive(Debug, PartialEq)]
pub struct TaskSummary {
    pub id: i64,
    pub workspace: String,
    pub title: String,
    pub state: TaskState,
    pub version: i64,
    pub assigned_agent_id: Option<String>,
    pub created_at: i64,
    pub updated_at: i64,
}

#[derive(Debug, PartialEq)]
pub struct TaskDetail {
    pub summary: TaskSummary,
    pub description: String,
}

#[derive(Debug, PartialEq)]
pub struct TaskAttempt {
    pub id: Uuid,
    pub task_id: i64,
    pub agent_id: String,
    pub session_id: Uuid,
    pub work_request_id: String,
}

#[derive(Debug, PartialEq)]
pub struct TaskEvent {
    pub task: TaskSummary,
}

#[derive(Debug, PartialEq)]
pub struct TaskMutationResult {
    pub operation_id: Uuid,
    pub applied_version: i64,
    pub report_id: Option<Uuid>,
    pub task: TaskDetail,
}

} // verus!
