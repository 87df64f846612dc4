//! The calls that the tools take, with their arguments.

use vstd::prelude::*;

use crate::ids::Uuid;

verus! {

/// The arguments of a tool that takes none.
#[derive(Debug, PartialEq)]
pub struct EmptyArgs {}

#[derive(Debug, PartialEq)]
pub struct AgentSendArgs {
    pub target: String,
    pub content: String,
    pub timeout_ms: Option<u64>,
}

#[derive(Debug, PartialEq)]
pub struct WorkspaceListArgs {
    pub after: Option<String>,
    pub limit: Option<u16>,
}

#[derive(Debug, PartialEq)]
pub struct WorkspaceJoinArgs {
    pub name: String,
}

#[derive(Debug, PartialEq)]
pub struct WorkspacePostArgs {
    pub content: String,
}

#[derive(Debug, PartialEq)]
pub struct WorkspaceHistoryArgs {
    pub after: Option<i64>,
    pub limit: Option<u16>,
}

#[derive(Debug, PartialEq)]
pub struct TaskListArgs {
    pub workspace: String,
    pub states: Option<Vec<String>>,
    pub assigned_agent_id: Option<String>,
    pub after: Option<i64>,
    pub limit: Option<u16>,
}

#[derive(Debug, PartialEq)]
pub struct TaskIdentityArgs {
    pub workspace: String,
    pub task_id: i64,
}

#[derive(Debug, PartialEq)]
pub struct TaskHistoryArgs {
    pub workspace: String,
    pub task_id: i64,
    pub after: Option<i64>,
    pub limit: Option<u16>,
}

#[derive(Debug, PartialEq)]
pub struct TaskCreateArgs {
    pub workspace: String,
    pub title: String,
    pub description: String,
    pub operation_id: Option<Uuid>,
}

#[derive(Debug, PartialEq)]
pub struct TaskEditArgs {
    pub workspace: String,
    pub task_id: i64,
    pub expected_version: i64,
    pub title: Option<String>,
    pub description: Option<String>,
    pub operation_id: Option<Uuid>,
}

#[derive(Debug, PartialEq)]
pub struct TaskAssignArgs {
    pub workspace: String,
    pub task_id: i64,
    pub expected_version: i64,
    pub agent_id: Option<String>,
    pub operation_id: Option<Uuid>,
}

#[derive(Debug, PartialEq)]
pub struct TaskNoteArgs {
    pub workspace: String,
    pub task_id: i64,
    pub text: String,
    pub operation_id: Option<Uuid>,
}

#[derive(Debug, PartialEq)]
pub struct TaskBeginArgs {
    pub workspace: String,
    pub task_id: i64,
    pub work_request_id: String,
    pub expected_version: i64,
    pub last_checkpoint_id: Option<Uuid>,
    pub resume_note: String,
    pub operation_id: Option<Uuid>,
}

/// What an executor hands over, as a tool call carries it.
#[derive(Debug, PartialEq)]
pub struct CheckpointInput {
    pub summary: String,
    pub next_steps: String,
    pub artifacts: Vec<String>,
    pub risks: String,
}

#[derive(Debug, PartialEq)]
pub struct TaskAttemptMutationArgs {
    pub workspace: String,
    pub task_id: i64,
    pub attempt_id: Uuid,
    pub expected_version: i64,
    pub checkpoint: CheckpointInput,
    pub operation_id: Option<Uuid>,
}

#[derive(Clone, Copy, Debug, PartialEq, Eq, Structural)]
pub enum TaskPauseReason {
    Paused,
    Blocked,
}

#[derive(Debug, PartialEq)]
pub struct TaskPauseArgs {
    pub workspace: String,
    pub task_id: i64,
    pub attempt_id: Uuid,
    pub expected_version: i64,
    pub checkpoint: CheckpointInput,
    pub reason: TaskPauseReason,
    pub operation_id: Option<Uuid>,
}

#[derive(Debug, PartialEq)]
pub struct TaskCompleteArgs {
    pub workspace: String,
    pub task_id: i64,
    pub attempt_id: Uuid,
    pub expected_version: i64,
    pub result: CheckpointInput,
    pub operation_id: Option<Uuid>,
}

#[derive(Debug, PartialEq)]
pub struct TaskTransitionArgs {
    pub workspace: String,
    pub task_id: i64,
    pub expected_version: i64,
    pub note: String,
    pub operation_id: Option<Uuid>,
}

#[derive(Debug, PartialEq)]
pub struct TaskRequestArgs {
    pub workspace: String,
    pub task_id: i64,
    pub expected_version: i64,
    pub message: Option<String>,
    pub timeout_ms: Option<u64>,
}

#[derive(Clone, Copy, Debug, PartialEq, Eq, Structural)]
pub enum ExternalProvider {
    Github,
    Linear,
}

#[derive(Debug, PartialEq)]
pub struct IntegrationListArgs {
    pub workspace: String,
}

#[derive(Debug, PartialEq)]
pub struct TaskImportArgs {
    pub workspace: String,
    pub provider: ExternalProvider,
    pub external_id: String,
    pub operation_id: Option<Uuid>,
}

#[derive(Debug, PartialEq)]
pub struct TaskLinkArgs {
    pub workspace: String,
    pub task_id: i64,
    pub expected_version: i64,
    pub provider: ExternalProvider,
    pub external_id: String,
    pub replace: Option<bool>,
    pub operation_id: Option<Uuid>,
}

#[derive(Clone, Copy, Debug, PartialEq, Eq, Structural)]
pub enum PublishKind {
    Issue,
    Report,
}

#[derive(Debug, PartialEq)]
pub struct TaskPublishArgs {
    pub workspace: String,
    pub task_id: i64,
    pub expected_version: i64,
    pub provider: ExternalProvider,
    pub kind: PublishKind,
    pub report_id: Option<Uuid>,
    pub operation_id: Option<Uuid>,
}

#[derive(Debug, PartialEq)]
pub struct ExternalStatusArgs {
    pub workspace: String,
    pub operation_id: Uuid,
}

#[derive(Debug, PartialEq)]
pub struct AgentWaitArgs {
    pub wait_ms: Option<u64>,
}

#[derive(Debug, PartialEq)]
pub struct AgentReplyArgs {
    pub request_id: String,
    pub text: String,
}

/// A call of a tool, with its arguments.
#[derive(Debug, PartialEq)]
pub enum McpCall {
    AgentList(EmptyArgs),
    AgentSend(AgentSendArgs),
    WorkspaceList(WorkspaceListArgs),
    WorkspaceJoin(WorkspaceJoinArgs),
    WorkspaceLeave(EmptyArgs),
    WorkspaceMembers(EmptyArgs),
    WorkspacePost(WorkspacePostArgs),
    WorkspaceHistory(WorkspaceHistoryArgs),
    TaskList(TaskListArgs),
    TaskGet(TaskIdentityArgs),
    TaskHistory(TaskHistoryArgs),
    TaskCreate(TaskCreateArgs),
    TaskEdit(TaskEditArgs),
    TaskAssign(TaskAssignArgs),
    TaskNote(TaskNoteArgs),
    TaskBegin(TaskBeginArgs),
    TaskCheckpoint(TaskAttemptMutationArgs),
    TaskPause(TaskPauseArgs),
    TaskComplete(TaskCompleteArgs),
    TaskCancel(TaskTransitionArgs),
    TaskReopen(TaskTransitionArgs),
    TaskRequest(TaskRequestArgs),
    IntegrationList(IntegrationListArgs),
    TaskImport(TaskImportArgs),
    TaskLink(TaskLinkArgs),
    TaskPublish(TaskPublishArgs),
    TaskExternalStatus(ExternalStatusArgs),
    AgentWait(AgentWaitArgs),
    AgentReply(AgentReplyArgs),
}

impl McpCall {
    /// The name of the tool that is called.
    pub open spec fn tool(self) -> Seq<char> {
        match self {
            McpCall::AgentList(_) => "agent_list"@,
            McpCall::AgentSend(_) => "agent_send"@,
            McpCall::WorkspaceList(_) => "workspace_list"@,
            McpCall::WorkspaceJoin(_) => "workspace_join"@,
            McpCall::WorkspaceLeave(_) => "workspace_leave"@,
            McpCall::WorkspaceMembers(_) => "workspace_members"@,
            McpCall::WorkspacePost(_) => "workspace_post"@,
            McpCall::WorkspaceHistory(_) => "workspace_history"@,
            McpCall::TaskList(_) => "task_list"@,
            McpCall::TaskGet(_) => "task_get"@,
            McpCall::TaskHistory(_) => "task_history"@,
            McpCall::TaskCreate(_) => "task_create"@,
            McpCall::TaskEdit(_) => "task_edit"@,
            McpCall::TaskAssign(_) => "task_assign"@,
            McpCall::TaskNote(_) => "task_note"@,
            McpCall::TaskBegin(_) => "task_begin"@,
            McpCall::TaskCheckpoint(_) => "task_checkpoint"@,
            McpCall::TaskPause(_) => "task_pause"@,
            McpCall::TaskComplete(_) => "task_complete"@,
            McpCall::TaskCancel(_) => "task_cancel"@,
            McpCall::TaskReopen(_) => "task_reopen"@,
            McpCall::TaskRequest(_) => "task_request"@,
            McpCall::IntegrationList(_) => "integration_list"@,
            McpCall::TaskImport(_) => "task_import"@,
            McpCall::TaskLink(_) => "task_link"@,
            McpCall::TaskPublish(_) => "task_publish"@,
            McpCall::TaskExternalStatus(_) => "task_external_status"@,
            McpCall::AgentWait(_) => "agent_wait"@,
            McpCall::AgentReply(_) => "agent_reply"@,
        }
    }

    pub fn name(&self) -> (name: &'static str)
        ensures
            name@ == self.tool(),
    {
        match self {
            McpCall::AgentList(_) => "agent_list",
            McpCall::AgentSend(_) => "agent_send",
            McpCall::WorkspaceList(_) => "workspace_list",
            McpCall::WorkspaceJoin(_) => "workspace_join",
            McpCall::WorkspaceLeave(_) => "workspace_leave",
            McpCall::WorkspaceMembers(_) => "workspace_members",
            McpCall::WorkspacePost(_) => "workspace_post",
            McpCall::WorkspaceHistory(_) => "workspace_history",
            McpCall::TaskList(_) => "task_list",
            McpCall::TaskGet(_) => "task_get",
            McpCall::TaskHistory(_) => "task_history",
            McpCall::TaskCreate(_) => "task_create",
            McpCall::TaskEdit(_) => "task_edit",
            McpCall::TaskAssign(_) => "task_assign",
            McpCall::TaskNote(_) => "task_note",
            McpCall::TaskBegin(_) => "task_begin",
            McpCall::TaskCheckpoint(_) => "task_checkpoint",
            McpCall::TaskPause(_) => "task_pause",
            McpCall::TaskComplete(_) => "task_complete",
            McpCall::TaskCancel(_) => "task_cancel",
            McpCall::TaskReopen(_) => "task_reopen",
            McpCall::TaskRequest(_) => "task_request",
            McpCall::IntegrationList(_) => "integration_list",
            McpCall::TaskImport(_) => "task_import",
            McpCall::TaskLink(_) => "task_link",
            McpCall::TaskPublish(_) => "task_publish",
            McpCall::TaskExternalStatus(_) => "task_external_status",
            McpCall::AgentWait(_) => "agent_wait",
            McpCall::AgentReply(_) => "agent_reply",
        }
    }
}

} // verus!
