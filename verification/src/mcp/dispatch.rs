//! What the calls of tools ask of the router.

use vstd::prelude::*;

use crate::ids::{hyphenated_text, hyphenated_text_is_plain, Uuid};
use crate::mcp::args::{
    AgentReplyArgs, AgentWaitArgs, CheckpointInput, ExternalProvider, McpCall, PublishKind,
    TaskAttemptMutationArgs, TaskPauseReason, TaskTransitionArgs,
};
use crate::mcp::work::{answer_failure, server_message_error};
use crate::mcp::BackendError;
use crate::protocol::client::ClientMessage;
use crate::protocol::server::ServerMessage;
use crate::protocol::{
    normalize_timeout_ms, request_id, workspace_name, AgentDescriptor, RouterErrorCode,
    TaskPauseKind, WorkspaceName, WorkspaceSummary,
};
use crate::tasks::{ExternalPublishKind, TaskCheckpoint, TaskState};
use crate::text::same_text;

verus! {

/// The identifier that a request is made under is one that the router takes.
pub proof fn request_ids_are_valid(id: u128)
    ensures
        request_id(hyphenated_text(id)),
{
    hyphenated_text_is_plain(id);
    let text = hyphenated_text(id);
    assert forall|i: int| 0 <= i < text.len() implies crate::text::alphanumeric(#[trigger] text[i])
        || text[i] == '-' by {}
}

/// A new identifier to make a request under.
pub fn new_router_request_id() -> (id: String)
    ensures
        exists|value: u128| id@ == #[trigger] hyphenated_text(value),
        request_id(id@),
{
    let id = Uuid::fresh();
    proof {
        request_ids_are_valid(id.value);
    }
    id.to_text()
}

/// The name of a workspace that a call names.
pub fn parse_workspace(value: String) -> (name: Result<WorkspaceName, BackendError>)
    ensures
        match name {
            Ok(name) => workspace_name(value@) && name@ == value@,
            Err(error) => !workspace_name(value@) && error == BackendError::Router(
                RouterErrorCode::InvalidMessage,
            ),
        },
{
    match WorkspaceName::parse(value) {
        Ok(name) => Ok(name),
        Err(code) => Err(BackendError::Router(code)),
    }
}

/// The operation that a call makes: the one it names, or a new one.
pub open spec fn operation_of(value: Option<Uuid>, fresh: Uuid) -> Uuid {
    match value {
        Some(id) => id,
        None => fresh,
    }
}

fn operation_id(value: Option<Uuid>, fresh: Uuid) -> (id: Uuid)
    ensures
        id == operation_of(value, fresh),
{
    match value {
        Some(id) => id,
        None => fresh,
    }
}

/// Whether a checkpoint is what a call hands over.
pub open spec fn hands_checkpoint(checkpoint: TaskCheckpoint, input: CheckpointInput) -> bool {
    &&& checkpoint.summary == input.summary
    &&& checkpoint.next_steps == input.next_steps
    &&& checkpoint.artifacts == input.artifacts
    &&& checkpoint.risks == input.risks
}

fn checkpoint(value: CheckpointInput) -> (checkpoint: TaskCheckpoint)
    ensures
        hands_checkpoint(checkpoint, value),
{
    TaskCheckpoint {
        summary: value.summary,
        next_steps: value.next_steps,
        artifacts: value.artifacts,
        risks: value.risks,
    }
}

/// The state that a text names.
pub open spec fn state_of(text: Seq<char>) -> Option<TaskState> {
    if text == "todo"@ {
        Some(TaskState::Todo)
    } else if text == "in_progress"@ {
        Some(TaskState::InProgress)
    } else if text == "blocked"@ {
        Some(TaskState::Blocked)
    } else if text == "paused"@ {
        Some(TaskState::Paused)
    } else if text == "done"@ {
        Some(TaskState::Done)
    } else if text == "cancelled"@ {
        Some(TaskState::Cancelled)
    } else {
        None
    }
}

pub fn parse_task_state(value: &str) -> (state: Result<TaskState, BackendError>)
    ensures
        state == (match state_of(value@) {
            Some(state) => Ok::<TaskState, BackendError>(state),
            None => Err(BackendError::Router(RouterErrorCode::InvalidMessage)),
        }),
{
    if same_text(value, "todo") {
        Ok(TaskState::Todo)
    } else if same_text(value, "in_progress") {
        Ok(TaskState::InProgress)
    } else if same_text(value, "blocked") {
        Ok(TaskState::Blocked)
    } else if same_text(value, "paused") {
        Ok(TaskState::Paused)
    } else if same_text(value, "done") {
        Ok(TaskState::Done)
    } else if same_text(value, "cancelled") {
        Ok(TaskState::Cancelled)
    } else {
        Err(BackendError::Router(RouterErrorCode::InvalidMessage))
    }
}

/// Whether some texts all name states.
pub open spec fn all_states(texts: Option<Vec<String>>) -> bool {
    texts matches Some(texts) ==> forall|i: int|
        0 <= i < texts@.len() ==> state_of(#[trigger] texts@[i]@) is Some
}

/// Whether some states are those that some texts name.
pub open spec fn states_named(texts: Option<Vec<String>>, states: Option<Vec<TaskState>>) -> bool {
    match (texts, states) {
        (None, None) => true,
        (Some(texts), Some(states)) => {
            &&& states@.len() == texts@.len()
            &&& forall|i: int|
                0 <= i < texts@.len() ==> state_of(#[trigger] texts@[i]@) == Some(states@[i])
        },
        _ => false,
    }
}

fn parse_states(texts: &Option<Vec<String>>) -> (states: Result<
    Option<Vec<TaskState>>,
    BackendError,
>)
    ensures
        match states {
            Ok(states) => states_named(*texts, states) && all_states(*texts),
            Err(error) => !all_states(*texts) && error == BackendError::Router(
                RouterErrorCode::InvalidMessage,
            ),
        },
{
    match texts {
        None => Ok(None),
        Some(given) => {
            let mut states: Vec<TaskState> = Vec::new();
            let mut i: usize = 0;
            while i < given.len()
                invariant
                    i <= given@.len(),
                    *texts == Some(*given),
                    states@.len() == i,
                    forall|j: int|
                        0 <= j < i ==> state_of(#[trigger] given@[j]@) == Some(states@[j]),
                decreases given.len() - i,
            {
                match parse_task_state(given[i].as_str()) {
                    Ok(state) => states.push(state),
                    Err(error) => {
                        assert(state_of(given@[i as int]@) is None);
                        return Err(error);
                    },
                }
                i += 1;
            }
            Ok(Some(states))
        },
    }
}

/// The tracker that a call names.
pub open spec fn tracker(provider: ExternalProvider) -> crate::tasks::ExternalProvider {
    match provider {
        ExternalProvider::Github => crate::tasks::ExternalProvider::Github,
        ExternalProvider::Linear => crate::tasks::ExternalProvider::Linear,
    }
}

pub fn external_provider(provider: ExternalProvider) -> (named: crate::tasks::ExternalProvider)
    ensures
        named == tracker(provider),
{
    match provider {
        ExternalProvider::Github => crate::tasks::ExternalProvider::Github,
        ExternalProvider::Linear => crate::tasks::ExternalProvider::Linear,
    }
}

/// What is published.
pub open spec fn published(kind: PublishKind) -> ExternalPublishKind {
    match kind {
        PublishKind::Issue => ExternalPublishKind::Issue,
        PublishKind::Report => ExternalPublishKind::Report,
    }
}

/// How an attempt is paused.
pub open spec fn paused_as(reason: TaskPauseReason) -> TaskPauseKind {
    match reason {
        TaskPauseReason::Paused => TaskPauseKind::Paused,
        TaskPauseReason::Blocked => TaskPauseKind::Blocked,
    }
}

/// The workspace that a call names, if it names one.
pub open spec fn workspace_named(call: McpCall) -> Option<Seq<char>> {
    match call {
        McpCall::WorkspaceJoin(args) => Some(args.name@),
        McpCall::TaskList(args) => Some(args.workspace@),
        McpCall::TaskGet(args) => Some(args.workspace@),
        McpCall::TaskHistory(args) => Some(args.workspace@),
        McpCall::TaskCreate(args) => Some(args.workspace@),
        McpCall::TaskEdit(args) => Some(args.workspace@),
        McpCall::TaskAssign(args) => Some(args.workspace@),
        McpCall::TaskNote(args) => Some(args.workspace@),
        McpCall::TaskBegin(args) => Some(args.workspace@),
        McpCall::TaskCheckpoint(args) => Some(args.workspace@),
        McpCall::TaskPause(args) => Some(args.workspace@),
        McpCall::TaskComplete(args) => Some(args.workspace@),
        McpCall::TaskCancel(args) => Some(args.workspace@),
        McpCall::TaskReopen(args) => Some(args.workspace@),
        McpCall::TaskRequest(args) => Some(args.workspace@),
        McpCall::IntegrationList(args) => Some(args.workspace@),
        McpCall::TaskImport(args) => Some(args.workspace@),
        McpCall::TaskLink(args) => Some(args.workspace@),
        McpCall::TaskPublish(args) => Some(args.workspace@),
        McpCall::TaskExternalStatus(args) => Some(args.workspace@),
        _ => None,
    }
}

/// Why a call asks nothing of the router: nobody sends to itself, and what a call names
/// must be a workspace and states.
pub open spec fn call_fault(agent_id: Seq<char>, call: McpCall) -> Option<BackendError> {
    if call matches McpCall::AgentSend(args) && args.target@ == agent_id {
        Some(BackendError::Conflict)
    } else if workspace_named(call) matches Some(name) && !workspace_name(name) {
        Some(BackendError::Router(RouterErrorCode::InvalidMessage))
    } else if call matches McpCall::TaskList(args) && !all_states(args.states) {
        Some(BackendError::Router(RouterErrorCode::InvalidMessage))
    } else {
        None
    }
}

/// Why a call asks nothing of the router of those who only know calls of some tools.
pub open spec fn own_fault(known: bool, agent_id: Seq<char>, call: McpCall) -> Option<BackendError> {
    if known {
        call_fault(agent_id, call)
    } else {
        Some(BackendError::InvalidState)
    }
}

/// Whether a message asks the router what a call of an agent or workspace tool asks.
pub open spec fn asks_workspace(call: McpCall, request: Seq<char>, message: ClientMessage) -> bool {
    match (call, message) {
        (McpCall::AgentList(_), ClientMessage::List { request_id }) => request_id@ == request,
        (
            McpCall::AgentSend(args),
            ClientMessage::Send { request_id, to, content, timeout_ms },
        ) => {
            &&& request_id@ == request
            &&& to == args.target
            &&& content == args.content
            &&& timeout_ms == args.timeout_ms
        },
        (McpCall::WorkspaceList(args), ClientMessage::WorkspaceList { request_id, after, limit }) => {
            &&& request_id@ == request
            &&& after == args.after
            &&& limit == args.limit
        },
        (McpCall::WorkspaceJoin(args), ClientMessage::WorkspaceJoin { request_id, name }) => {
            &&& request_id@ == request
            &&& name@ == args.name@
        },
        (McpCall::WorkspaceLeave(_), ClientMessage::WorkspaceLeave { request_id }) => request_id@
            == request,
        (McpCall::WorkspaceMembers(_), ClientMessage::WorkspaceMembers { request_id }) => {
            request_id@ == request
        },
        (McpCall::WorkspacePost(args), ClientMessage::WorkspacePost { request_id, content }) => {
            &&& request_id@ == request
            &&& content == args.content
        },
        (
            McpCall::WorkspaceHistory(args),
            ClientMessage::WorkspaceHistory { request_id, after, limit },
        ) => {
            &&& request_id@ == request
            &&& after == args.after
            &&& limit == args.limit
        },
        _ => false,
    }
}

/// What a call of an agent or workspace tool asks of the router.
pub fn agent_workspace_message(agent_id: &str, call: McpCall, request: String) -> (message: Result<
    ClientMessage,
    BackendError,
>)
    ensures
        match own_fault(is_workspace_call(call), agent_id@, call) {
            Some(fault) => message == Err::<ClientMessage, BackendError>(fault),
            None => message matches Ok(message) && asks_workspace(call, request@, message),
        },
{
    match call {
        McpCall::AgentList(_) => Ok(ClientMessage::List { request_id: request }),
        McpCall::AgentSend(args) => {
            if same_text(args.target.as_str(), agent_id) {
                return Err(BackendError::Conflict);
            }
            Ok(
                ClientMessage::Send {
                    request_id: request,
                    to: args.target,
                    content: args.content,
                    timeout_ms: args.timeout_ms,
                },
            )
        },
        McpCall::WorkspaceList(args) => Ok(
            ClientMessage::WorkspaceList {
                request_id: request,
                after: args.after,
                limit: args.limit,
            },
        ),
        McpCall::WorkspaceJoin(args) => match parse_workspace(args.name) {
            Ok(name) => Ok(ClientMessage::WorkspaceJoin { request_id: request, name }),
            Err(error) => Err(error),
        },
        McpCall::WorkspaceLeave(_) => Ok(ClientMessage::WorkspaceLeave { request_id: request }),
        McpCall::WorkspaceMembers(_) => Ok(ClientMessage::WorkspaceMembers { request_id: request }),
        McpCall::WorkspacePost(args) => Ok(
            ClientMessage::WorkspacePost { request_id: request, content: args.content },
        ),
        McpCall::WorkspaceHistory(args) => Ok(
            ClientMessage::WorkspaceHistory {
                request_id: request,
                after: args.after,
                limit: args.limit,
            },
        ),
        _ => Err(BackendError::InvalidState),
    }
}

/// The calls of the agent and workspace tools.
pub open spec fn is_workspace_call(call: McpCall) -> bool {
    ||| call is AgentList || call is AgentSend || call is WorkspaceList || call is WorkspaceJoin
    ||| call is WorkspaceLeave || call is WorkspaceMembers || call is WorkspacePost
    ||| call is WorkspaceHistory
}

/// The calls that read tasks, or request their execution.
pub open spec fn is_task_read(call: McpCall) -> bool {
    call is TaskList || call is TaskGet || call is TaskHistory || call is TaskRequest
}

/// The calls that change a task.
pub open spec fn is_task_edit(call: McpCall) -> bool {
    call is TaskCreate || call is TaskEdit || call is TaskAssign || call is TaskNote
        || call is TaskBegin
}

/// The calls that change an attempt, or end or reopen a task.
pub open spec fn is_attempt_edit(call: McpCall) -> bool {
    call is TaskCheckpoint || call is TaskPause || call is TaskComplete || call is TaskCancel
        || call is TaskReopen
}

/// The calls of the tools for external trackers.
pub open spec fn is_integration_call(call: McpCall) -> bool {
    call is IntegrationList || call is TaskImport || call is TaskLink || call is TaskPublish
        || call is TaskExternalStatus
}

/// Whether a message asks the router what a call that reads tasks asks.
pub open spec fn asks_task_read(call: McpCall, request: Seq<char>, message: ClientMessage) -> bool {
    match (call, message) {
        (
            McpCall::TaskList(args),
            ClientMessage::TaskList {
                request_id,
                workspace,
                states,
                assigned_agent_id,
                after,
                limit,
            },
        ) => {
            &&& request_id@ == request
            &&& workspace@ == args.workspace@
            &&& states_named(args.states, states)
            &&& assigned_agent_id == args.assigned_agent_id
            &&& after == args.after
            &&& limit == args.limit
        },
        (McpCall::TaskGet(args), ClientMessage::TaskGet { request_id, workspace, task_id }) => {
            &&& request_id@ == request
            &&& workspace@ == args.workspace@
            &&& task_id == args.task_id
        },
        (
            McpCall::TaskHistory(args),
            ClientMessage::TaskHistory { request_id, workspace, task_id, after, limit },
        ) => {
            &&& request_id@ == request
            &&& workspace@ == args.workspace@
            &&& task_id == args.task_id
            &&& after == args.after
            &&& limit == args.limit
        },
        (
            McpCall::TaskRequest(args),
            ClientMessage::TaskRequest {
                request_id,
                workspace,
                task_id,
                expected_version,
                message,
                timeout_ms,
            },
        ) => {
            &&& request_id@ == request
            &&& workspace@ == args.workspace@
            &&& task_id == args.task_id
            &&& expected_version == args.expected_version
            &&& message == args.message
            &&& timeout_ms == args.timeout_ms
        },
        _ => false,
    }
}

/// What a call that reads tasks, or requests the execution of one, asks of the router.
pub fn task_read_message(call: McpCall, request: String) -> (message: Result<
    ClientMessage,
    BackendError,
>)
    ensures
        match own_fault(is_task_read(call), Seq::empty(), call) {
            Some(fault) => message == Err::<ClientMessage, BackendError>(fault),
            None => message matches Ok(message) && asks_task_read(call, request@, message),
        },
{
    match call {
        McpCall::TaskList(args) => {
            let states = match parse_states(&args.states) {
                Ok(states) => states,
                Err(error) => {
                    return Err(error);
                },
            };
            match parse_workspace(args.workspace) {
                Ok(workspace) => Ok(
                    ClientMessage::TaskList {
                        request_id: request,
                        workspace,
                        states,
                        assigned_agent_id: args.assigned_agent_id,
                        after: args.after,
                        limit: args.limit,
                    },
                ),
                Err(error) => Err(error),
            }
        },
        McpCall::TaskGet(args) => match parse_workspace(args.workspace) {
            Ok(workspace) => Ok(
                ClientMessage::TaskGet { request_id: request, workspace, task_id: args.task_id },
            ),
            Err(error) => Err(error),
        },
        McpCall::TaskHistory(args) => match parse_workspace(args.workspace) {
            Ok(workspace) => Ok(
                ClientMessage::TaskHistory {
                    request_id: request,
                    workspace,
                    task_id: args.task_id,
                    after: args.after,
                    limit: args.limit,
                },
            ),
            Err(error) => Err(error),
        },
        McpCall::TaskRequest(args) => match parse_workspace(args.workspace) {
            Ok(workspace) => Ok(
                ClientMessage::TaskRequest {
                    request_id: request,
                    workspace,
                    task_id: args.task_id,
                    expected_version: args.expected_version,
                    message: args.message,
                    timeout_ms: args.timeout_ms,
                },
            ),
            Err(error) => Err(error),
        },
        _ => Err(BackendError::InvalidState),
    }
}

/// Whether a message asks the router what a call that changes a task asks.
pub open spec fn asks_task_edit(
    call: McpCall,
    request: Seq<char>,
    fresh: Uuid,
    message: ClientMessage,
) -> bool {
    match (call, message) {
        (
            McpCall::TaskCreate(args),
            ClientMessage::TaskCreate { request_id, workspace, operation_id, title, description },
        ) => {
            &&& request_id@ == request
            &&& workspace@ == args.workspace@
            &&& operation_id == operation_of(args.operation_id, fresh)
            &&& title == args.title
            &&& description == args.description
        },
        (
            McpCall::TaskEdit(args),
            ClientMessage::TaskEdit {
                request_id,
                workspace,
                operation_id,
                task_id,
                expected_version,
                title,
                description,
            },
        ) => {
            &&& request_id@ == request
            &&& workspace@ == args.workspace@
            &&& operation_id == operation_of(args.operation_id, fresh)
            &&& task_id == args.task_id
            &&& expected_version == args.expected_version
            &&& title == args.title
            &&& description == args.description
        },
        (
            McpCall::TaskAssign(args),
            ClientMessage::TaskAssign {
                request_id,
                workspace,
                operation_id,
                task_id,
                expected_version,
                agent_id,
            },
        ) => {
            &&& request_id@ == request
            &&& workspace@ == args.workspace@
            &&& operation_id == operation_of(args.operation_id, fresh)
            &&& task_id == args.task_id
            &&& expected_version == args.expected_version
            &&& agent_id == args.agent_id
        },
        (
            McpCall::TaskNote(args),
            ClientMessage::TaskNote { request_id, workspace, operation_id, task_id, text },
        ) => {
            &&& request_id@ == request
            &&& workspace@ == args.workspace@
            &&& operation_id == operation_of(args.operation_id, fresh)
            &&& task_id == args.task_id
            &&& text == args.text
        },
        (
            McpCall::TaskBegin(args),
            ClientMessage::TaskBegin {
                request_id,
                workspace,
                operation_id,
                task_id,
                work_request_id,
                expected_version,
                last_checkpoint_id,
                resume_note,
            },
        ) => {
            &&& request_id@ == request
            &&& workspace@ == args.workspace@
            &&& operation_id == operation_of(args.operation_id, fresh)
            &&& task_id == args.task_id
            &&& work_request_id == args.work_request_id
            &&& expected_version == args.expected_version
            &&& last_checkpoint_id == args.last_checkpoint_id
            &&& resume_note == args.resume_note
        },
        _ => false,
    }
}

/// What a call that changes a task asks of the router.
pub fn task_edit_message(call: McpCall, request: String, fresh: Uuid) -> (message: Result<
    ClientMessage,
    BackendError,
>)
    ensures
        match own_fault(is_task_edit(call), Seq::empty(), call) {
            Some(fault) => message == Err::<ClientMessage, BackendError>(fault),
            None => message matches Ok(message) && asks_task_edit(call, request@, fresh, message),
        },
{
    match call {
        McpCall::TaskCreate(args) => match parse_workspace(args.workspace) {
            Ok(workspace) => Ok(
                ClientMessage::TaskCreate {
                    request_id: request,
                    workspace,
                    operation_id: operation_id(args.operation_id, fresh),
                    title: args.title,
                    description: args.description,
                },
            ),
            Err(error) => Err(error),
        },
        McpCall::TaskEdit(args) => match parse_workspace(args.workspace) {
            Ok(workspace) => Ok(
                ClientMessage::TaskEdit {
                    request_id: request,
                    workspace,
                    operation_id: operation_id(args.operation_id, fresh),
                    task_id: args.task_id,
                    expected_version: args.expected_version,
                    title: args.title,
                    description: args.description,
                },
            ),
            Err(error) => Err(error),
        },
        McpCall::TaskAssign(args) => match parse_workspace(args.workspace) {
            Ok(workspace) => Ok(
                ClientMessage::TaskAssign {
                    request_id: request,
                    workspace,
                    operation_id: operation_id(args.operation_id, fresh),
                    task_id: args.task_id,
                    expected_version: args.expected_version,
                    agent_id: args.agent_id,
                },
            ),
            Err(error) => Err(error),
        },
        McpCall::TaskNote(args) => match parse_workspace(args.workspace) {
            Ok(workspace) => Ok(
                ClientMessage::TaskNote {
                    request_id: request,
                    workspace,
                    operation_id: operation_id(args.operation_id, fresh),
                    task_id: args.task_id,
                    text: args.text,
                },
            ),
            Err(error) => Err(error),
        },
        McpCall::TaskBegin(args) => match parse_workspace(args.workspace) {
            Ok(workspace) => Ok(
                ClientMessage::TaskBegin {
                    request_id: request,
                    workspace,
                    operation_id: operation_id(args.operation_id, fresh),
                    task_id: args.task_id,
                    work_request_id: args.work_request_id,
                    expected_version: args.expected_version,
                    last_checkpoint_id: args.last_checkpoint_id,
                    resume_note: args.resume_note,
                },
            ),
            Err(error) => Err(error),
        },
        _ => Err(BackendError::InvalidState),
    }
}

/// How an attempt is changed.
#[derive(Clone, Copy, Debug, PartialEq, Eq, Structural)]
pub enum AttemptMutation {
    Checkpoint,
    Pause(TaskPauseKind),
    Complete,
}

/// Whether a message changes an attempt.
pub open spec fn changes_attempt(
    args: TaskAttemptMutationArgs,
    mutation: AttemptMutation,
    request: Seq<char>,
    fresh: Uuid,
    message: ClientMessage,
) -> bool {
    match (mutation, message) {
        (
            AttemptMutation::Checkpoint,
            ClientMessage::TaskCheckpoint {
                request_id,
                workspace,
                operation_id,
                task_id,
                attempt_id,
                expected_version,
                checkpoint,
            },
        ) => {
            &&& request_id@ == request
            &&& workspace@ == args.workspace@
            &&& operation_id == operation_of(args.operation_id, fresh)
            &&& task_id == args.task_id
            &&& attempt_id == args.attempt_id
            &&& expected_version == args.expected_version
            &&& hands_checkpoint(checkpoint, args.checkpoint)
        },
        (
            AttemptMutation::Pause(kind),
            ClientMessage::TaskPause {
                request_id,
                workspace,
                operation_id,
                task_id,
                attempt_id,
                expected_version,
                checkpoint,
                reason,
            },
        ) => {
            &&& request_id@ == request
            &&& workspace@ == args.workspace@
            &&& operation_id == operation_of(args.operation_id, fresh)
            &&& task_id == args.task_id
            &&& attempt_id == args.attempt_id
            &&& expected_version == args.expected_version
            &&& hands_checkpoint(checkpoint, args.checkpoint)
            &&& reason == kind
        },
        (
            AttemptMutation::Complete,
            ClientMessage::TaskComplete {
                request_id,
                workspace,
                operation_id,
                task_id,
                attempt_id,
                expected_version,
                result,
            },
        ) => {
            &&& request_id@ == request
            &&& workspace@ == args.workspace@
            &&& operation_id == operation_of(args.operation_id, fresh)
            &&& task_id == args.task_id
            &&& attempt_id == args.attempt_id
            &&& expected_version == args.expected_version
            &&& hands_checkpoint(result, args.checkpoint)
        },
        _ => false,
    }
}

/// The message that changes an attempt.
pub fn attempt_message(
    args: TaskAttemptMutationArgs,
    mutation: AttemptMutation,
    request: String,
    fresh: Uuid,
) -> (message: Result<ClientMessage, BackendError>)
    ensures
        if workspace_name(args.workspace@) {
            message matches Ok(message) && changes_attempt(args, mutation, request@, fresh, message)
        } else {
            message == Err::<ClientMessage, BackendError>(
                BackendError::Router(RouterErrorCode::InvalidMessage),
            )
        },
{
    let workspace = match parse_workspace(args.workspace) {
        Ok(workspace) => workspace,
        Err(error) => {
            return Err(error);
        },
    };
    let operation = operation_id(args.operation_id, fresh);
    let handed = checkpoint(args.checkpoint);
    Ok(
        match mutation {
            AttemptMutation::Checkpoint => ClientMessage::TaskCheckpoint {
                request_id: request,
                workspace,
                operation_id: operation,
                task_id: args.task_id,
                attempt_id: args.attempt_id,
                expected_version: args.expected_version,
                checkpoint: handed,
            },
            AttemptMutation::Pause(reason) => ClientMessage::TaskPause {
                request_id: request,
                workspace,
                operation_id: operation,
                task_id: args.task_id,
                attempt_id: args.attempt_id,
                expected_version: args.expected_version,
                checkpoint: handed,
                reason,
            },
            AttemptMutation::Complete => ClientMessage::TaskComplete {
                request_id: request,
                workspace,
                operation_id: operation,
                task_id: args.task_id,
                attempt_id: args.attempt_id,
                expected_version: args.expected_version,
                result: handed,
            },
        },
    )
}

/// Whether a message ends a task, or reopens it.
pub open spec fn moves_task(
    args: TaskTransitionArgs,
    reopen: bool,
    request: Seq<char>,
    fresh: Uuid,
    message: ClientMessage,
) -> bool {
    match message {
        ClientMessage::TaskReopen {
            request_id,
            workspace,
            operation_id,
            task_id,
            expected_version,
            note,
        } => {
            &&& reopen
            &&& request_id@ == request
            &&& workspace@ == args.workspace@
            &&& operation_id == operation_of(args.operation_id, fresh)
            &&& task_id == args.task_id
            &&& expected_version == args.expected_version
            &&& note == args.note
        },
        ClientMessage::TaskCancel {
            request_id,
            workspace,
            operation_id,
            task_id,
            expected_version,
            note,
        } => {
            &&& !reopen
            &&& request_id@ == request
            &&& workspace@ == args.workspace@
            &&& operation_id == operation_of(args.operation_id, fresh)
            &&& task_id == args.task_id
            &&& expected_version == args.expected_version
            &&& note == args.note
        },
        _ => false,
    }
}

/// The message that ends a task, or reopens it.
pub fn transition_message(
    args: TaskTransitionArgs,
    reopen: bool,
    request: String,
    fresh: Uuid,
) -> (message: Result<ClientMessage, BackendError>)
    ensures
        if workspace_name(args.workspace@) {
            message matches Ok(message) && moves_task(args, reopen, request@, fresh, message)
        } else {
            message == Err::<ClientMessage, BackendError>(
                BackendError::Router(RouterErrorCode::InvalidMessage),
            )
        },
{
    let workspace = match parse_workspace(args.workspace) {
        Ok(workspace) => workspace,
        Err(error) => {
            return Err(error);
        },
    };
    let operation = operation_id(args.operation_id, fresh);
    Ok(
        if reopen {
            ClientMessage::TaskReopen {
                request_id: request,
                workspace,
                operation_id: operation,
                task_id: args.task_id,
                expected_version: args.expected_version,
                note: args.note,
            }
        } else {
            ClientMessage::TaskCancel {
                request_id: request,
                workspace,
                operation_id: operation,
                task_id: args.task_id,
                expected_version: args.expected_version,
                note: args.note,
            }
        },
    )
}

/// Whether a message asks the router what a call that changes an attempt, or ends or
/// reopens a task, asks.
pub open spec fn asks_attempt_edit(
    call: McpCall,
    request: Seq<char>,
    fresh: Uuid,
    message: ClientMessage,
) -> bool {
    match call {
        McpCall::TaskCheckpoint(args) => changes_attempt(
            args,
            AttemptMutation::Checkpoint,
            request,
            fresh,
            message,
        ),
        McpCall::TaskPause(args) => changes_attempt(
            TaskAttemptMutationArgs {
                workspace: args.workspace,
                task_id: args.task_id,
                attempt_id: args.attempt_id,
                expected_version: args.expected_version,
                checkpoint: args.checkpoint,
                operation_id: args.operation_id,
            },
            AttemptMutation::Pause(paused_as(args.reason)),
            request,
            fresh,
            message,
        ),
        McpCall::TaskComplete(args) => changes_attempt(
            TaskAttemptMutationArgs {
                workspace: args.workspace,
                task_id: args.task_id,
                attempt_id: args.attempt_id,
                expected_version: args.expected_version,
                checkpoint: args.result,
                operation_id: args.operation_id,
            },
            AttemptMutation::Complete,
            request,
            fresh,
            message,
        ),
        McpCall::TaskCancel(args) => moves_task(args, false, request, fresh, message),
        McpCall::TaskReopen(args) => moves_task(args, true, request, fresh, message),
        _ => false,
    }
}

/// What a call that changes an attempt, or ends or reopens a task, asks of the router.
pub fn attempt_edit_message(call: McpCall, request: String, fresh: Uuid) -> (message: Result<
    ClientMessage,
    BackendError,
>)
    ensures
        match own_fault(is_attempt_edit(call), Seq::empty(), call) {
            Some(fault) => message == Err::<ClientMessage, BackendError>(fault),
            None => message matches Ok(message) && asks_attempt_edit(
                call,
                request@,
                fresh,
                message,
            ),
        },
{
    match call {
        McpCall::TaskCheckpoint(args) => attempt_message(
            args,
            AttemptMutation::Checkpoint,
            request,
            fresh,
        ),
        McpCall::TaskPause(args) => {
            let reason = match args.reason {
                TaskPauseReason::Paused => TaskPauseKind::Paused,
                TaskPauseReason::Blocked => TaskPauseKind::Blocked,
            };
            attempt_message(
                TaskAttemptMutationArgs {
                    workspace: args.workspace,
                    task_id: args.task_id,
                    attempt_id: args.attempt_id,
                    expected_version: args.expected_version,
                    checkpoint: args.checkpoint,
                    operation_id: args.operation_id,
                },
                AttemptMutation::Pause(reason),
                request,
                fresh,
            )
        },
        McpCall::TaskComplete(args) => attempt_message(
            TaskAttemptMutationArgs {
                workspace: args.workspace,
                task_id: args.task_id,
                attempt_id: args.attempt_id,
                expected_version: args.expected_version,
                checkpoint: args.result,
                operation_id: args.operation_id,
            },
            AttemptMutation::Complete,
            request,
            fresh,
        ),
        McpCall::TaskCancel(args) => transition_message(args, false, request, fresh),
        McpCall::TaskReopen(args) => transition_message(args, true, request, fresh),
        _ => Err(BackendError::InvalidState),
    }
}

/// Whether a message asks the router what a call of a tool for external trackers asks.
pub open spec fn asks_integration(
    call: McpCall,
    request: Seq<char>,
    fresh: Uuid,
    message: ClientMessage,
) -> bool {
    match (call, message) {
        (
            McpCall::IntegrationList(args),
            ClientMessage::IntegrationList { request_id, workspace },
        ) => {
            &&& request_id@ == request
            &&& workspace@ == args.workspace@
        },
        (
            McpCall::TaskImport(args),
            ClientMessage::TaskImport {
                request_id,
                workspace,
                provider,
                external_id,
                operation_id,
            },
        ) => {
            &&& request_id@ == request
            &&& workspace@ == args.workspace@
            &&& provider == tracker(args.provider)
            &&& external_id == args.external_id
            &&& operation_id == operation_of(args.operation_id, fresh)
        },
        (
            McpCall::TaskLink(args),
            ClientMessage::TaskLink {
                request_id,
                workspace,
                operation_id,
                task_id,
                expected_version,
                provider,
                external_id,
                replace,
            },
        ) => {
            &&& request_id@ == request
            &&& workspace@ == args.workspace@
            &&& operation_id == operation_of(args.operation_id, fresh)
            &&& task_id == args.task_id
            &&& expected_version == args.expected_version
            &&& provider == tracker(args.provider)
            &&& external_id == args.external_id
            &&& replace == (args.replace == Some(true))
        },
        (
            McpCall::TaskPublish(args),
            ClientMessage::TaskPublish {
                request_id,
                workspace,
                operation_id,
                task_id,
                expected_version,
                provider,
                kind,
                report_id,
            },
        ) => {
            &&& request_id@ == request
            &&& workspace@ == args.workspace@
            &&& operation_id == operation_of(args.operation_id, fresh)
            &&& task_id == args.task_id
            &&& expected_version == args.expected_version
            &&& provider == tracker(args.provider)
            &&& kind == published(args.kind)
            &&& report_id == args.report_id
        },
        (
            McpCall::TaskExternalStatus(args),
            ClientMessage::TaskExternalStatus { request_id, workspace, operation_id },
        ) => {
            &&& request_id@ == request
            &&& workspace@ == args.workspace@
            &&& operation_id == args.operation_id
        },
        _ => false,
    }
}

/// What a call of a tool for external trackers asks of the router.
pub fn integration_message(call: McpCall, request: String, fresh: Uuid) -> (message: Result<
    ClientMessage,
    BackendError,
>)
    ensures
        match own_fault(is_integration_call(call), Seq::empty(), call) {
            Some(fault) => message == Err::<ClientMessage, BackendError>(fault),
            None => message matches Ok(message) && asks_integration(call, request@, fresh, message),
        },
{
    match call {
        McpCall::IntegrationList(args) => match parse_workspace(args.workspace) {
            Ok(workspace) => Ok(ClientMessage::IntegrationList { request_id: request, workspace }),
            Err(error) => Err(error),
        },
        McpCall::TaskImport(args) => match parse_workspace(args.workspace) {
            Ok(workspace) => Ok(
                ClientMessage::TaskImport {
                    request_id: request,
                    workspace,
                    provider: external_provider(args.provider),
                    external_id: args.external_id,
                    operation_id: operation_id(args.operation_id, fresh),
                },
            ),
            Err(error) => Err(error),
        },
        McpCall::TaskLink(args) => match parse_workspace(args.workspace) {
            Ok(workspace) => Ok(
                ClientMessage::TaskLink {
                    request_id: request,
                    workspace,
                    operation_id: operation_id(args.operation_id, fresh),
                    task_id: args.task_id,
                    expected_version: args.expected_version,
                    provider: external_provider(args.provider),
                    external_id: args.external_id,
                    replace: match args.replace {
                        Some(replace) => replace,
                        None => false,
                    },
                },
            ),
            Err(error) => Err(error),
        },
        McpCall::TaskPublish(args) => match parse_workspace(args.workspace) {
            Ok(workspace) => Ok(
                ClientMessage::TaskPublish {
                    request_id: request,
                    workspace,
                    operation_id: operation_id(args.operation_id, fresh),
                    task_id: args.task_id,
                    expected_version: args.expected_version,
                    provider: external_provider(args.provider),
                    kind: match args.kind {
                        PublishKind::Issue => ExternalPublishKind::Issue,
                        PublishKind::Report => ExternalPublishKind::Report,
                    },
                    report_id: args.report_id,
                },
            ),
            Err(error) => Err(error),
        },
        McpCall::TaskExternalStatus(args) => match parse_workspace(args.workspace) {
            Ok(workspace) => Ok(
                ClientMessage::TaskExternalStatus {
                    request_id: request,
                    workspace,
                    operation_id: args.operation_id,
                },
            ),
            Err(error) => Err(error),
        },
        _ => Err(BackendError::InvalidState),
    }
}

/// What a call leads to.
pub enum Dispatched {
    /// The router is asked, and its answer is the call's.
    Ask(ClientMessage),
    /// The router is asked to hand on work, whose result is awaited under the identifier
    /// for a number of milliseconds.
    Route(ClientMessage, String, u64),
    Wait(AgentWaitArgs),
    Reply(AgentReplyArgs),
}

/// Whether a message asks the router what a call asks, under an identifier and with a new
/// operation where the call names none.
pub open spec fn asks(
    call: McpCall,
    request: Seq<char>,
    fresh: Uuid,
    message: ClientMessage,
) -> bool {
    if is_workspace_call(call) {
        asks_workspace(call, request, message)
    } else if is_task_read(call) {
        asks_task_read(call, request, message)
    } else if is_task_edit(call) {
        asks_task_edit(call, request, fresh, message)
    } else if is_attempt_edit(call) {
        asks_attempt_edit(call, request, fresh, message)
    } else {
        asks_integration(call, request, fresh, message)
    }
}

/// For how long the result of a call that hands on work is awaited.
pub open spec fn routed_for(call: McpCall) -> Option<Option<u64>> {
    match call {
        McpCall::AgentSend(args) => Some(args.timeout_ms),
        McpCall::TaskRequest(args) => Some(args.timeout_ms),
        _ => None,
    }
}

/// Whether a call leads to something, with an identifier and a new operation drawn for it.
pub open spec fn leads_to(
    call: McpCall,
    request: Seq<char>,
    fresh: Uuid,
    dispatched: Dispatched,
) -> bool {
    match call {
        McpCall::AgentWait(args) => dispatched == Dispatched::Wait(args),
        McpCall::AgentReply(args) => dispatched == Dispatched::Reply(args),
        _ => match routed_for(call) {
            Some(timeout) => dispatched matches Dispatched::Route(message, id, millis) && asks(
                call,
                request,
                fresh,
                message,
            ) && id@ == request && crate::protocol::normalized_timeout(timeout) == millis,
            None => dispatched matches Dispatched::Ask(message) && asks(
                call,
                request,
                fresh,
                message,
            ),
        },
    }
}

/// What a call of an agent leads to, under an identifier and with an operation that were
/// drawn for it.
pub fn dispatch_with(agent_id: &str, call: McpCall, request: String, fresh: Uuid) -> (dispatched:
    Result<Dispatched, BackendError>)
    ensures
        match call_fault(agent_id@, call) {
            Some(fault) => dispatched == Err::<Dispatched, BackendError>(fault),
            None => dispatched matches Ok(dispatched) && leads_to(
                call,
                request@,
                fresh,
                dispatched,
            ),
        },
{
    match call {
        McpCall::AgentWait(args) => Ok(Dispatched::Wait(args)),
        McpCall::AgentReply(args) => Ok(Dispatched::Reply(args)),
        McpCall::AgentSend(args) => {
            let id = request.as_str().to_owned();
            let millis = normalize_timeout_ms(args.timeout_ms);
            match agent_workspace_message(agent_id, McpCall::AgentSend(args), request) {
                Ok(message) => Ok(Dispatched::Route(message, id, millis)),
                Err(error) => Err(error),
            }
        },
        McpCall::TaskRequest(args) => {
            let id = request.as_str().to_owned();
            let millis = normalize_timeout_ms(args.timeout_ms);
            match task_read_message(McpCall::TaskRequest(args), request) {
                Ok(message) => Ok(Dispatched::Route(message, id, millis)),
                Err(error) => Err(error),
            }
        },
        _ => {
            let message = match &call {
                McpCall::AgentList(_)
                | McpCall::WorkspaceList(_)
                | McpCall::WorkspaceJoin(_)
                | McpCall::WorkspaceLeave(_)
                | McpCall::WorkspaceMembers(_)
                | McpCall::WorkspacePost(_)
                | McpCall::WorkspaceHistory(_) => agent_workspace_message(agent_id, call, request),
                McpCall::TaskList(_) | McpCall::TaskGet(_) | McpCall::TaskHistory(_) => {
                    task_read_message(call, request)
                },
                McpCall::TaskCreate(_)
                | McpCall::TaskEdit(_)
                | McpCall::TaskAssign(_)
                | McpCall::TaskNote(_)
                | McpCall::TaskBegin(_) => task_edit_message(call, request, fresh),
                McpCall::TaskCheckpoint(_)
                | McpCall::TaskPause(_)
                | McpCall::TaskComplete(_)
                | McpCall::TaskCancel(_)
                | McpCall::TaskReopen(_) => attempt_edit_message(call, request, fresh),
                _ => integration_message(call, request, fresh),
            };
            match message {
                Ok(message) => Ok(Dispatched::Ask(message)),
                Err(error) => Err(error),
            }
        },
    }
}

/// What a call of an agent leads to. The identifier that the router is asked under and an
/// operation that the call does not name are drawn at random.
pub fn dispatch(agent_id: &str, call: McpCall) -> (dispatched: Result<Dispatched, BackendError>)
    ensures
        match call_fault(agent_id@, call) {
            Some(fault) => dispatched == Err::<Dispatched, BackendError>(fault),
            None => dispatched matches Ok(dispatched) && exists|request: Seq<char>, fresh: Uuid|
                request_id(request) && #[trigger] leads_to(call, request, fresh, dispatched),
        },
{
    let request = new_router_request_id();
    let fresh = Uuid::fresh();
    dispatch_with(agent_id, call, request, fresh)
}

/// The agents of a list but one.
pub open spec fn without_agent(agents: Seq<AgentDescriptor>, id: Seq<char>) -> Seq<AgentDescriptor> {
    agents.filter(|agent: AgentDescriptor| agent.agent_id@ != id)
}

/// The agents of a list but one.
pub fn other_agents(agents: Vec<AgentDescriptor>, id: &str) -> (others: Vec<AgentDescriptor>)
    ensures
        others@ == without_agent(agents@, id@),
{
    let ghost all = agents@;
    let ghost keeps = |agent: AgentDescriptor| agent.agent_id@ != id@;
    let mut others: Vec<AgentDescriptor> = Vec::new();
    for agent in iter: agents.into_iter()
        invariant
            iter.seq() == all,
            keeps == (|agent: AgentDescriptor| agent.agent_id@ != id@),
            others@ == all.take(iter.index() as int).filter(keeps),
    {
        let ghost n = iter.index() as int;
        proof {
            reveal(Seq::filter);
            assert(all.take(n + 1).drop_last() =~= all.take(n));
            assert(all.take(n + 1).last() == agent);
        }
        if !same_text(agent.agent_id.as_str(), id) {
            others.push(agent);
        }
    }
    assert(all.take(all.len() as int) =~= all);
    others
}

/// The agents that the router answered with.
pub fn take_agents(response: ServerMessage) -> (agents: Result<Vec<AgentDescriptor>, BackendError>)
    ensures
        agents == (match response {
            ServerMessage::Agents { agents, .. } => Ok::<Vec<AgentDescriptor>, BackendError>(
                agents,
            ),
            _ => Err(answer_failure(response)),
        }),
{
    match response {
        ServerMessage::Agents { agents, .. } => Ok(agents),
        _ => Err(server_message_error(&response)),
    }
}

/// The page of workspaces that the router answered with.
pub fn take_workspaces(response: ServerMessage) -> (page: Result<
    (Vec<WorkspaceSummary>, Option<String>, bool),
    BackendError,
>)
    ensures
        page == (match response {
            ServerMessage::Workspaces { workspaces, next_cursor, has_more, .. } => Ok::<
                (Vec<WorkspaceSummary>, Option<String>, bool),
                BackendError,
            >((workspaces, next_cursor, has_more)),
            _ => Err(answer_failure(response)),
        }),
{
    match response {
        ServerMessage::Workspaces { workspaces, next_cursor, has_more, .. } => Ok(
            (workspaces, next_cursor, has_more),
        ),
        _ => Err(server_message_error(&response)),
    }
}

/// The post that the router answered with.
pub fn take_posted(response: ServerMessage) -> (posted: Result<(WorkspaceName, i64), BackendError>)
    ensures
        posted == (match response {
            ServerMessage::WorkspacePosted { workspace, seq, .. } => Ok::<
                (WorkspaceName, i64),
                BackendError,
            >((workspace, seq)),
            _ => Err(answer_failure(response)),
        }),
{
    match response {
        ServerMessage::WorkspacePosted { workspace, seq, .. } => Ok((workspace, seq)),
        _ => Err(server_message_error(&response)),
    }
}

/// Whether the router took up work to hand on.
pub fn check_accepted(response: &ServerMessage) -> (accepted: Result<(), BackendError>)
    ensures
        accepted == if response is Accepted {
            Ok::<(), BackendError>(())
        } else {
            Err(answer_failure(*response))
        },
{
    match response {
        ServerMessage::Accepted { .. } => Ok(()),
        _ => Err(server_message_error(response)),
    }
}

} // verus!
