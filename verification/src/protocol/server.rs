//! The messages that the router sends to its clients.

use vstd::prelude::*;

use crate::credentials::CredentialFile;
use crate::ids::Uuid;
use crate::json::{encode_text, json_text_length, parse_json, parsed_json, Json, JsonModel};
use crate::protocol::client::{envelope_fault, has_shared_content};
use crate::protocol::fields::{server_fields, validate_server_unknown_fields};
use crate::protocol::{
    activity_text, actor_id, agent_id, client_of_side, is_agent_id, is_request_id,
    is_workspace_name, operator_subject, request_id, shared_content, timeout_in_range,
    valid_activity, valid_actor_id, valid_agent_client, valid_operator_subject,
    valid_shared_content, valid_timeout, workspace_name, AgentDescriptor, CredentialSummary,
    HistoryPage, RegistrationRole, RouterErrorCode, TaskDispatch, TaskFence, TaskHistoryPage,
    WorkspaceEvent, WorkspaceName, WorkspaceSummary, MAX_JSON_STRING_BYTES,
    MAX_SHARED_CONTENT_BYTES, MAX_WEBSOCKET_MESSAGE_BYTES, PROTOCOL_VERSION,
};
use crate::tasks::{
    is_positive_safe, is_safe_cursor, positive_safe, safe_cursor, TaskAttempt, TaskDetail,
    TaskMutationResult, TaskSummary, MAX_SAFE_INTEGER,
};
use crate::text::{byte_len, byte_length, opt_text, same_text};

verus! {

/// A message from the router.
#[derive(PartialEq)]
#[allow(inconsistent_fields)]
pub enum ServerMessage {
    Registered {
        protocol_version: u8,
        agent: AgentDescriptor,
        role: RegistrationRole,
        workspace: Option<WorkspaceName>,
        cursor: i64,
    },
    RegisteredOperator {
        protocol_version: u8,
        subject: String,
        admin: bool,
        workspace: Option<WorkspaceName>,
        cursor: i64,
    },
    Pong {
        request_id: String,
    },
    Error {
        request_id: Option<String>,
        code: RouterErrorCode,
        workspace: Option<WorkspaceName>,
        operation_id: Option<Uuid>,
        current_version: Option<i64>,
    },
    Agents {
        request_id: String,
        workspace: WorkspaceName,
        agents: Vec<AgentDescriptor>,
    },
    Accepted {
        request_id: String,
        workspace: WorkspaceName,
        to: String,
    },
    Deliver {
        workspace: WorkspaceName,
        request_id: String,
        from: String,
        content: String,
        timeout_ms: u64,
        task: Option<TaskDispatch>,
    },
    Result {
        workspace: WorkspaceName,
        request_id: String,
        from: String,
        ok: bool,
        content: Option<String>,
        error: Option<RouterErrorCode>,
        task_id: Option<i64>,
    },
    CancelWork {
        workspace: WorkspaceName,
        request_id: String,
        reason: RouterErrorCode,
        task: Option<TaskFence>,
    },
    WorkIdleAck {
        request_id: String,
        workspace: WorkspaceName,
        work_request_id: String,
    },
    TaskExecutionStoppedAck {
        request_id: String,
        workspace: WorkspaceName,
        task_id: i64,
        attempt_id: Uuid,
    },
    TaskAttemptChanged {
        workspace: WorkspaceName,
        task_id: i64,
        attempt: Option<TaskAttempt>,
        closed_attempt_id: Option<Uuid>,
        current: Option<TaskFence>,
        stop_pending: Option<TaskFence>,
    },
    WorkspaceCreated {
        request_id: String,
        workspace: WorkspaceSummary,
    },
    Workspaces {
        request_id: String,
        workspaces: Vec<WorkspaceSummary>,
        next_cursor: Option<String>,
        has_more: bool,
    },
    CredentialIssued {
        request_id: String,
        credential: CredentialFile,
    },
    Credentials {
        request_id: String,
        credentials: Vec<CredentialSummary>,
        next_cursor: Option<Uuid>,
        has_more: bool,
    },
    CredentialRevoked {
        request_id: String,
        id: Uuid,
    },
    Integrations {
        request_id: String,
        workspace: WorkspaceName,
        integrations: Vec<Json>,
    },
    IntegrationChecked {
        request_id: String,
        workspace: WorkspaceName,
        integration: Json,
    },
    IntegrationsReloaded {
        request_id: String,
        integrations: Vec<Json>,
    },
    ExternalOperation {
        request_id: String,
        workspace: WorkspaceName,
        operation: Json,
    },
    ExternalStatus {
        request_id: String,
        workspace: WorkspaceName,
        operation: Json,
        resolution: Option<Json>,
    },
    ExternalResolved {
        request_id: String,
        workspace: WorkspaceName,
        operation: Json,
        resolution: Json,
    },
    WorkspaceJoined {
        request_id: String,
        workspace: WorkspaceName,
        cursor: i64,
    },
    WorkspaceLeft {
        request_id: String,
        workspace: Option<WorkspaceName>,
    },
    WorkspaceChanged {
        workspace: Option<WorkspaceName>,
        cursor: i64,
    },
    WorkspacePosted {
        request_id: String,
        workspace: WorkspaceName,
        seq: i64,
    },
    WorkspaceHistory {
        request_id: String,
        page: HistoryPage,
    },
    WorkspaceSubscription {
        request_id: String,
        workspace: WorkspaceName,
        events: Vec<WorkspaceEvent>,
        next_cursor: i64,
        live: bool,
    },
    WorkspaceEvent {
        event: WorkspaceEvent,
    },
    WorkspaceUnsubscribed {
        request_id: String,
        workspace: WorkspaceName,
    },
    Tasks {
        request_id: String,
        workspace: WorkspaceName,
        tasks: Vec<TaskSummary>,
        next_cursor: i64,
        has_more: bool,
    },
    Task {
        request_id: String,
        workspace: WorkspaceName,
        task: TaskDetail,
    },
    TaskHistory {
        request_id: String,
        page: TaskHistoryPage,
    },
    TaskMutated {
        request_id: String,
        workspace: WorkspaceName,
        result: TaskMutationResult,
    },
    RouterStopping {
        request_id: String,
    },
}

impl ServerMessage {
    /// The name that the message's kind travels under.
    pub open spec fn kind(self) -> Seq<char> {
        match self {
            ServerMessage::Registered { .. } => "registered"@,
            ServerMessage::RegisteredOperator { .. } => "registered_operator"@,
            ServerMessage::Pong { .. } => "pong"@,
            ServerMessage::Error { .. } => "error"@,
            ServerMessage::Agents { .. } => "agents"@,
            ServerMessage::Accepted { .. } => "accepted"@,
            ServerMessage::Deliver { .. } => "deliver"@,
            ServerMessage::Result { .. } => "result"@,
            ServerMessage::CancelWork { .. } => "cancel_work"@,
            ServerMessage::WorkIdleAck { .. } => "work_idle_ack"@,
            ServerMessage::TaskExecutionStoppedAck { .. } => "task_execution_stopped_ack"@,
            ServerMessage::TaskAttemptChanged { .. } => "task_attempt_changed"@,
            ServerMessage::WorkspaceCreated { .. } => "workspace_created"@,
            ServerMessage::Workspaces { .. } => "workspaces"@,
            ServerMessage::CredentialIssued { .. } => "credential_issued"@,
            ServerMessage::Credentials { .. } => "credentials"@,
            ServerMessage::CredentialRevoked { .. } => "credential_revoked"@,
            ServerMessage::Integrations { .. } => "integrations"@,
            ServerMessage::IntegrationChecked { .. } => "integration_checked"@,
            ServerMessage::IntegrationsReloaded { .. } => "integrations_reloaded"@,
            ServerMessage::ExternalOperation { .. } => "external_operation"@,
            ServerMessage::ExternalStatus { .. } => "external_status"@,
            ServerMessage::ExternalResolved { .. } => "external_resolved"@,
            ServerMessage::WorkspaceJoined { .. } => "workspace_joined"@,
            ServerMessage::WorkspaceLeft { .. } => "workspace_left"@,
            ServerMessage::WorkspaceChanged { .. } => "workspace_changed"@,
            ServerMessage::WorkspacePosted { .. } => "workspace_posted"@,
            ServerMessage::WorkspaceHistory { .. } => "workspace_history"@,
            ServerMessage::WorkspaceSubscription { .. } => "workspace_subscription"@,
            ServerMessage::WorkspaceEvent { .. } => "workspace_event"@,
            ServerMessage::WorkspaceUnsubscribed { .. } => "workspace_unsubscribed"@,
            ServerMessage::Tasks { .. } => "tasks"@,
            ServerMessage::Task { .. } => "task"@,
            ServerMessage::TaskHistory { .. } => "task_history"@,
            ServerMessage::TaskMutated { .. } => "task_mutated"@,
            ServerMessage::RouterStopping { .. } => "router_stopping"@,
        }
    }

    /// The identifier of the request that the message answers.
    pub open spec fn request(self) -> Option<Seq<char>> {
        match self {
            ServerMessage::Registered { .. } => None,
            ServerMessage::RegisteredOperator { .. } => None,
            ServerMessage::Pong { request_id, .. } => Some(request_id@),
            ServerMessage::Error { request_id, .. } => opt_text(request_id),
            ServerMessage::Agents { request_id, .. } => Some(request_id@),
            ServerMessage::Accepted { request_id, .. } => Some(request_id@),
            ServerMessage::Deliver { .. } => None,
            ServerMessage::Result { request_id, .. } => Some(request_id@),
            ServerMessage::CancelWork { .. } => None,
            ServerMessage::WorkIdleAck { request_id, .. } => Some(request_id@),
            ServerMessage::TaskExecutionStoppedAck { request_id, .. } => Some(request_id@),
            ServerMessage::TaskAttemptChanged { .. } => None,
            ServerMessage::WorkspaceCreated { request_id, .. } => Some(request_id@),
            ServerMessage::Workspaces { request_id, .. } => Some(request_id@),
            ServerMessage::CredentialIssued { request_id, .. } => Some(request_id@),
            ServerMessage::Credentials { request_id, .. } => Some(request_id@),
            ServerMessage::CredentialRevoked { request_id, .. } => Some(request_id@),
            ServerMessage::Integrations { request_id, .. } => Some(request_id@),
            ServerMessage::IntegrationChecked { request_id, .. } => Some(request_id@),
            ServerMessage::IntegrationsReloaded { request_id, .. } => Some(request_id@),
            ServerMessage::ExternalOperation { request_id, .. } => Some(request_id@),
            ServerMessage::ExternalStatus { request_id, .. } => Some(request_id@),
            ServerMessage::ExternalResolved { request_id, .. } => Some(request_id@),
            ServerMessage::WorkspaceJoined { request_id, .. } => Some(request_id@),
            ServerMessage::WorkspaceLeft { request_id, .. } => Some(request_id@),
            ServerMessage::WorkspaceChanged { .. } => None,
            ServerMessage::WorkspacePosted { request_id, .. } => Some(request_id@),
            ServerMessage::WorkspaceHistory { request_id, .. } => Some(request_id@),
            ServerMessage::WorkspaceSubscription { request_id, .. } => Some(request_id@),
            ServerMessage::WorkspaceEvent { .. } => None,
            ServerMessage::WorkspaceUnsubscribed { request_id, .. } => Some(request_id@),
            ServerMessage::Tasks { request_id, .. } => Some(request_id@),
            ServerMessage::Task { request_id, .. } => Some(request_id@),
            ServerMessage::TaskHistory { request_id, .. } => Some(request_id@),
            ServerMessage::TaskMutated { request_id, .. } => Some(request_id@),
            ServerMessage::RouterStopping { request_id, .. } => Some(request_id@),
        }
    }

    /// The identifier of the request that this message answers.
    pub fn request_id(&self) -> (id: Option<&str>)
        ensures
            (match id {
                Some(text) => Some(text@),
                None => None,
            }) == self.request(),
    {
        match self {
            ServerMessage::Registered { .. } => None,
            ServerMessage::RegisteredOperator { .. } => None,
            ServerMessage::Pong { request_id, .. } => Some(request_id.as_str()),
            ServerMessage::Error { request_id, .. } => match request_id {
                Some(id) => Some(id.as_str()),
                None => None,
            },
            ServerMessage::Agents { request_id, .. } => Some(request_id.as_str()),
            ServerMessage::Accepted { request_id, .. } => Some(request_id.as_str()),
            ServerMessage::Deliver { .. } => None,
            ServerMessage::Result { request_id, .. } => Some(request_id.as_str()),
            ServerMessage::CancelWork { .. } => None,
            ServerMessage::WorkIdleAck { request_id, .. } => Some(request_id.as_str()),
            ServerMessage::TaskExecutionStoppedAck { request_id, .. } => Some(request_id.as_str()),
            ServerMessage::TaskAttemptChanged { .. } => None,
            ServerMessage::WorkspaceCreated { request_id, .. } => Some(request_id.as_str()),
            ServerMessage::Workspaces { request_id, .. } => Some(request_id.as_str()),
            ServerMessage::CredentialIssued { request_id, .. } => Some(request_id.as_str()),
            ServerMessage::Credentials { request_id, .. } => Some(request_id.as_str()),
            ServerMessage::CredentialRevoked { request_id, .. } => Some(request_id.as_str()),
            ServerMessage::Integrations { request_id, .. } => Some(request_id.as_str()),
            ServerMessage::IntegrationChecked { request_id, .. } => Some(request_id.as_str()),
            ServerMessage::IntegrationsReloaded { request_id, .. } => Some(request_id.as_str()),
            ServerMessage::ExternalOperation { request_id, .. } => Some(request_id.as_str()),
            ServerMessage::ExternalStatus { request_id, .. } => Some(request_id.as_str()),
            ServerMessage::ExternalResolved { request_id, .. } => Some(request_id.as_str()),
            ServerMessage::WorkspaceJoined { request_id, .. } => Some(request_id.as_str()),
            ServerMessage::WorkspaceLeft { request_id, .. } => Some(request_id.as_str()),
            ServerMessage::WorkspaceChanged { .. } => None,
            ServerMessage::WorkspacePosted { request_id, .. } => Some(request_id.as_str()),
            ServerMessage::WorkspaceHistory { request_id, .. } => Some(request_id.as_str()),
            ServerMessage::WorkspaceSubscription { request_id, .. } => Some(request_id.as_str()),
            ServerMessage::WorkspaceEvent { .. } => None,
            ServerMessage::WorkspaceUnsubscribed { request_id, .. } => Some(request_id.as_str()),
            ServerMessage::Tasks { request_id, .. } => Some(request_id.as_str()),
            ServerMessage::Task { request_id, .. } => Some(request_id.as_str()),
            ServerMessage::TaskHistory { request_id, .. } => Some(request_id.as_str()),
            ServerMessage::TaskMutated { request_id, .. } => Some(request_id.as_str()),
            ServerMessage::RouterStopping { request_id, .. } => Some(request_id.as_str()),
        }
    }
}

/// An agent as the router describes it.
pub open spec fn descriptor_ok(agent: AgentDescriptor) -> bool {
    &&& agent_id(agent.agent_id@)
    &&& client_of_side(agent.side, agent.client)
    &&& (opt_text(agent.activity) matches Some(activity) ==> activity_text(activity))
}

/// A task's summary; `title` is the verdict of the task text rules on its title.
pub open spec fn summary_ok(task: TaskSummary, title: bool) -> bool {
    &&& positive_safe(task.id)
    &&& workspace_name(task.workspace@)
    &&& title
    &&& positive_safe(task.version)
    &&& (opt_text(task.assigned_agent_id) matches Some(agent) ==> agent_id(agent))
    &&& task.created_at >= 0
    &&& task.updated_at >= 0
}

/// The verdict on the title of the summary at a place; a title without one is refused.
pub open spec fn title_at(titles: Seq<bool>, i: int) -> bool {
    0 <= i < titles.len() && titles[i]
}

/// An event of a workspace's history.
pub open spec fn event_ok(event: WorkspaceEvent) -> bool {
    &&& positive_safe(event.seq)
    &&& 0 <= event.created_at <= MAX_SAFE_INTEGER
    &&& actor_id(event.actor_id@)
    &&& (opt_text(event.request_id) matches Some(id) ==> request_id(id))
    &&& (event.task_id matches Some(id) ==> positive_safe(id))
    &&& (opt_text(event.content) matches Some(content) ==> byte_length(content)
        <= MAX_SHARED_CONTENT_BYTES && json_text_length(content) <= MAX_JSON_STRING_BYTES)
}

/// A page of workspace events.
pub open spec fn event_page_ok(events: Seq<WorkspaceEvent>, next_cursor: i64) -> bool {
    &&& safe_cursor(next_cursor)
    &&& forall|i: int| 0 <= i < events.len() ==> event_ok(#[trigger] events[i])
}

/// An event of a page of a task's history: of that task, and not beyond the page's cursor.
pub open spec fn history_event_ok(page: TaskHistoryPage, titles: Seq<bool>, i: int) -> bool {
    let event = page.events@[i];
    &&& positive_safe(event.seq)
    &&& event.seq <= page.next_cursor
    &&& event.created_at >= 0
    &&& actor_id(event.actor_id@)
    &&& event.event.task.id == page.task_id
    &&& event.event.task.workspace@ == page.workspace@
    &&& summary_ok(event.event.task, title_at(titles, i))
}

/// A page of a task's history: every event is of that task, and they are in strictly
/// rising order.
pub open spec fn task_history_ok(page: TaskHistoryPage, titles: Seq<bool>) -> bool {
    &&& positive_safe(page.task_id)
    &&& safe_cursor(page.next_cursor)
    &&& forall|i: int|
        0 <= i < page.events@.len() ==> #[trigger] history_event_ok(page, titles, i)
    &&& forall|i: int, j: int|
        0 <= i < j < page.events@.len() ==> (#[trigger] page.events@[i]).seq < (
        #[trigger] page.events@[j]).seq
}

/// The moments of a credential's life are in order.
pub open spec fn credential_times_ok(credential: CredentialSummary) -> bool {
    &&& credential.created_at >= 0
    &&& (credential.revoked_at matches Some(revoked) ==> revoked >= credential.created_at)
}

/// What the fields of a router message have to meet, kind by kind. `titles` holds the
/// verdicts of the task text rules on the titles of the task summaries that the message
/// carries, in order; `credential` is the verdict on the credential that it carries.
pub open spec fn server_payload(
    message: ServerMessage,
    titles: Seq<bool>,
    credential: bool,
) -> bool {
    match message {
        ServerMessage::Registered { agent, cursor, protocol_version, .. } => {
            protocol_version == PROTOCOL_VERSION && descriptor_ok(agent) && safe_cursor(cursor)
        },
        ServerMessage::RegisteredOperator { protocol_version, subject, cursor, .. } => {
            protocol_version == PROTOCOL_VERSION && operator_subject(subject@) && safe_cursor(
                cursor,
            )
        },
        ServerMessage::Agents { agents, .. } => {
            forall|i: int| 0 <= i < agents@.len() ==> descriptor_ok(#[trigger] agents@[i])
        },
        ServerMessage::Deliver { request_id: id, from, content, timeout_ms, task, .. } => {
            &&& request_id(id@)
            &&& actor_id(from@)
            &&& shared_content(content@)
            &&& timeout_in_range(Some(timeout_ms))
            &&& (task matches Some(dispatch) ==> positive_safe(dispatch.id) && positive_safe(
                dispatch.expected_version,
            ))
        },
        ServerMessage::CancelWork { request_id: id, task, .. } => {
            &&& request_id(id@)
            &&& (task matches Some(fence) ==> positive_safe(fence.task_id))
        },
        ServerMessage::WorkIdleAck { work_request_id, .. } => request_id(work_request_id@),
        ServerMessage::TaskExecutionStoppedAck { task_id, .. } => positive_safe(task_id),
        ServerMessage::TaskAttemptChanged { task_id, attempt, current, stop_pending, .. } => {
            &&& positive_safe(task_id)
            &&& (attempt matches Some(of) ==> of.task_id == task_id && actor_id(of.agent_id@))
            &&& (current matches Some(fence) ==> positive_safe(fence.task_id))
            &&& (stop_pending matches Some(fence) ==> positive_safe(fence.task_id))
        },
        ServerMessage::CredentialIssued { .. } => credential,
        ServerMessage::Credentials { credentials, .. } => {
            forall|i: int|
                0 <= i < credentials@.len() ==> credential_times_ok(#[trigger] credentials@[i])
        },
        ServerMessage::Result { ok, content, error, task_id, from, .. } => {
            &&& if ok {
                (opt_text(content) matches Some(text) && shared_content(text)) && error is None
            } else {
                content is None && error is Some
            }
            &&& actor_id(from@)
            &&& (task_id matches Some(id) ==> positive_safe(id))
        },
        ServerMessage::WorkspaceHistory { page, .. } => event_page_ok(
            page.events@,
            page.next_cursor,
        ),
        ServerMessage::WorkspaceSubscription { events, next_cursor, .. } => event_page_ok(
            events@,
            next_cursor,
        ),
        ServerMessage::WorkspaceEvent { event } => event_ok(event),
        ServerMessage::WorkspaceJoined { cursor, .. } => safe_cursor(cursor),
        ServerMessage::WorkspaceChanged { cursor, .. } => safe_cursor(cursor),
        ServerMessage::WorkspacePosted { seq, .. } => positive_safe(seq),
        ServerMessage::Tasks { tasks, next_cursor, .. } => {
            &&& safe_cursor(next_cursor)
            &&& forall|i: int|
                0 <= i < tasks@.len() ==> summary_ok(#[trigger] tasks@[i], title_at(titles, i))
        },
        ServerMessage::Task { task, .. } => summary_ok(task.summary, title_at(titles, 0)),
        ServerMessage::TaskMutated { result, .. } => summary_ok(
            result.task.summary,
            title_at(titles, 0),
        ),
        ServerMessage::TaskHistory { page, .. } => task_history_ok(page, titles),
        ServerMessage::Error { current_version, .. } => {
            current_version matches Some(version) ==> positive_safe(version)
        },
        _ => true,
    }
}

/// A router message that a client takes: a well-formed request identifier where there is
/// one, and fields that meet the rules of its kind.
pub open spec fn server_message_ok(
    message: ServerMessage,
    titles: Seq<bool>,
    credential: bool,
) -> bool {
    &&& (message.request() matches Some(id) ==> request_id(id))
    &&& server_payload(message, titles, credential)
}

fn valid_descriptor(agent: &AgentDescriptor) -> (yes: bool)
    ensures
        yes == descriptor_ok(*agent),
{
    is_agent_id(agent.agent_id.as_str()) && valid_agent_client(agent.side, agent.client)
        && valid_activity(&agent.activity)
}

fn valid_descriptors(agents: &Vec<AgentDescriptor>) -> (yes: bool)
    ensures
        yes == (forall|i: int| 0 <= i < agents@.len() ==> descriptor_ok(#[trigger] agents@[i])),
{
    let mut i: usize = 0;
    while i < agents.len()
        invariant
            i <= agents.len(),
            forall|j: int| 0 <= j < i ==> descriptor_ok(#[trigger] agents@[j]),
        decreases agents.len() - i,
    {
        if !valid_descriptor(&agents[i]) {
            return false;
        }
        i += 1;
    }
    true
}

fn verdict_at(titles: &[bool], i: usize) -> (verdict: bool)
    ensures
        verdict == title_at(titles@, i as int),
{
    i < titles.len() && titles[i]
}

fn valid_task_summary(task: &TaskSummary, title: bool) -> (yes: bool)
    ensures
        yes == summary_ok(*task, title),
{
    let assigned = match &task.assigned_agent_id {
        Some(agent) => is_agent_id(agent.as_str()),
        None => true,
    };
    is_positive_safe(task.id) && is_workspace_name(task.workspace.as_str()) && title
        && is_positive_safe(task.version) && assigned && task.created_at >= 0 && task.updated_at
        >= 0
}

fn valid_summaries(tasks: &Vec<TaskSummary>, titles: &[bool]) -> (yes: bool)
    ensures
        yes == (forall|i: int|
            0 <= i < tasks@.len() ==> summary_ok(#[trigger] tasks@[i], title_at(titles@, i))),
{
    let mut i: usize = 0;
    while i < tasks.len()
        invariant
            i <= tasks.len(),
            forall|j: int| 0 <= j < i ==> summary_ok(#[trigger] tasks@[j], title_at(titles@, j)),
        decreases tasks.len() - i,
    {
        if !valid_task_summary(&tasks[i], verdict_at(titles, i)) {
            return false;
        }
        i += 1;
    }
    true
}

/// Whether an event of a workspace's history is well formed.
pub fn validate_workspace_event(event: &WorkspaceEvent) -> (verdict: Result<(), RouterErrorCode>)
    ensures
        verdict == if event_ok(*event) {
            Ok::<(), RouterErrorCode>(())
        } else {
            Err(RouterErrorCode::InvalidMessage)
        },
{
    let requested = match &event.request_id {
        Some(id) => is_request_id(id.as_str()),
        None => true,
    };
    let task = match event.task_id {
        Some(id) => is_positive_safe(id),
        None => true,
    };
    let content = match &event.content {
        Some(text) => byte_len(text.as_str()) <= MAX_SHARED_CONTENT_BYTES && byte_len(
            encode_text(text.as_str()).as_str(),
        ) <= MAX_JSON_STRING_BYTES,
        None => true,
    };
    if is_positive_safe(event.seq) && event.created_at >= 0 && event.created_at <= MAX_SAFE_INTEGER
        && valid_actor_id(event.actor_id.as_str()) && requested && task && content {
        Ok(())
    } else {
        Err(RouterErrorCode::InvalidMessage)
    }
}

/// Whether a page of workspace events is well formed.
pub fn validate_event_page(events: &Vec<WorkspaceEvent>, next_cursor: i64) -> (verdict: Result<
    (),
    RouterErrorCode,
>)
    ensures
        verdict == if event_page_ok(events@, next_cursor) {
            Ok::<(), RouterErrorCode>(())
        } else {
            Err(RouterErrorCode::InvalidMessage)
        },
{
    if !is_safe_cursor(next_cursor) {
        return Err(RouterErrorCode::InvalidMessage);
    }
    let mut i: usize = 0;
    while i < events.len()
        invariant
            i <= events.len(),
            safe_cursor(next_cursor),
            forall|j: int| 0 <= j < i ==> event_ok(#[trigger] events@[j]),
        decreases events.len() - i,
    {
        if validate_workspace_event(&events[i]).is_err() {
            return Err(RouterErrorCode::InvalidMessage);
        }
        i += 1;
    }
    Ok(())
}

fn valid_task_history(page: &TaskHistoryPage, titles: &[bool]) -> (yes: bool)
    ensures
        yes == task_history_ok(*page, titles@),
{
    if !is_positive_safe(page.task_id) || !is_safe_cursor(page.next_cursor) {
        return false;
    }
    let mut previous: i64 = 0;
    let mut i: usize = 0;
    while i < page.events.len()
        invariant
            i <= page.events@.len(),
            positive_safe(page.task_id),
            safe_cursor(page.next_cursor),
            previous >= 0,
            i == 0 ==> previous == 0,
            i > 0 ==> previous == page.events@[i - 1].seq,
            forall|j: int| 0 <= j < i ==> #[trigger] history_event_ok(*page, titles@, j),
            forall|j: int| 0 <= j < i ==> (#[trigger] page.events@[j]).seq <= previous,
            forall|j: int, k: int|
                0 <= j < k < i ==> (#[trigger] page.events@[j]).seq < (
                #[trigger] page.events@[k]).seq,
        decreases page.events.len() - i,
    {
        let event = &page.events[i];
        if !is_positive_safe(event.seq) || event.seq <= previous || event.seq > page.next_cursor
            || event.created_at < 0 || !valid_actor_id(event.actor_id.as_str())
            || event.event.task.id != page.task_id || !same_text(
            event.event.task.workspace.as_str(),
            page.workspace.as_str(),
        ) || !valid_task_summary(&event.event.task, verdict_at(titles, i)) {
            proof {
                if event.seq <= previous && i > 0 {
                    assert(!(page.events@[i - 1].seq < page.events@[i as int].seq));
                }
                assert(!history_event_ok(*page, titles@, i as int) || event.seq <= previous);
            }
            return false;
        }
        assert(history_event_ok(*page, titles@, i as int));
        previous = event.seq;
        i += 1;
    }
    true
}

fn valid_credential_times(credentials: &Vec<CredentialSummary>) -> (yes: bool)
    ensures
        yes == (forall|i: int|
            0 <= i < credentials@.len() ==> credential_times_ok(#[trigger] credentials@[i])),
{
    let mut i: usize = 0;
    while i < credentials.len()
        invariant
            i <= credentials.len(),
            forall|j: int| 0 <= j < i ==> credential_times_ok(#[trigger] credentials@[j]),
        decreases credentials.len() - i,
    {
        let credential = &credentials[i];
        let ordered = match credential.revoked_at {
            Some(revoked) => revoked >= credential.created_at,
            None => true,
        };
        if credential.created_at < 0 || !ordered {
            return false;
        }
        i += 1;
    }
    true
}

fn valid_fence(fence: &Option<TaskFence>) -> (yes: bool)
    ensures
        yes == (*fence matches Some(of) ==> positive_safe(of.task_id)),
{
    match fence {
        Some(of) => is_positive_safe(of.task_id),
        None => true,
    }
}

fn valid_number(value: Option<i64>) -> (yes: bool)
    ensures
        yes == (value matches Some(number) ==> positive_safe(number)),
{
    match value {
        Some(number) => is_positive_safe(number),
        None => true,
    }
}

fn valid_server_payload(message: &ServerMessage, titles: &[bool], credential: bool) -> (yes: bool)
    ensures
        yes == server_payload(*message, titles@, credential),
{
    match message {
        ServerMessage::Registered { agent, cursor, protocol_version, .. } => {
            *protocol_version == PROTOCOL_VERSION && valid_descriptor(agent) && is_safe_cursor(
                *cursor,
            )
        },
        ServerMessage::RegisteredOperator { protocol_version, subject, cursor, .. } => {
            *protocol_version == PROTOCOL_VERSION && valid_operator_subject(subject.as_str())
                && is_safe_cursor(*cursor)
        },
        ServerMessage::Agents { agents, .. } => valid_descriptors(agents),
        ServerMessage::Deliver { request_id, from, content, timeout_ms, task, .. } => {
            let dispatched = match task {
                Some(dispatch) => is_positive_safe(dispatch.id) && is_positive_safe(
                    dispatch.expected_version,
                ),
                None => true,
            };
            is_request_id(request_id.as_str()) && valid_actor_id(from.as_str())
                && valid_shared_content(content.as_str()) && valid_timeout(Some(*timeout_ms))
                && dispatched
        },
        ServerMessage::CancelWork { request_id, task, .. } => {
            is_request_id(request_id.as_str()) && valid_fence(task)
        },
        ServerMessage::WorkIdleAck { work_request_id, .. } => is_request_id(
            work_request_id.as_str(),
        ),
        ServerMessage::TaskExecutionStoppedAck { task_id, .. } => is_positive_safe(*task_id),
        ServerMessage::TaskAttemptChanged { task_id, attempt, current, stop_pending, .. } => {
            let attempted = match attempt {
                Some(of) => of.task_id == *task_id && valid_actor_id(of.agent_id.as_str()),
                None => true,
            };
            is_positive_safe(*task_id) && attempted && valid_fence(current) && valid_fence(
                stop_pending,
            )
        },
        ServerMessage::CredentialIssued { .. } => credential,
        ServerMessage::Credentials { credentials, .. } => valid_credential_times(credentials),
        ServerMessage::Result { ok, content, error, task_id, from, .. } => {
            let shape = if *ok {
                has_shared_content(content) && error.is_none()
            } else {
                content.is_none() && error.is_some()
            };
            shape && valid_actor_id(from.as_str()) && valid_number(*task_id)
        },
        ServerMessage::WorkspaceHistory { page, .. } => validate_event_page(
            &page.events,
            page.next_cursor,
        ).is_ok(),
        ServerMessage::WorkspaceSubscription { events, next_cursor, .. } => validate_event_page(
            events,
            *next_cursor,
        ).is_ok(),
        ServerMessage::WorkspaceEvent { event } => validate_workspace_event(event).is_ok(),
        ServerMessage::WorkspaceJoined { cursor, .. }
        | ServerMessage::WorkspaceChanged { cursor, .. } => is_safe_cursor(*cursor),
        ServerMessage::WorkspacePosted { seq, .. } => is_positive_safe(*seq),
        ServerMessage::Tasks { tasks, next_cursor, .. } => is_safe_cursor(*next_cursor)
            && valid_summaries(tasks, titles),
        ServerMessage::Task { task, .. } => valid_task_summary(
            &task.summary,
            verdict_at(titles, 0),
        ),
        ServerMessage::TaskMutated { result, .. } => valid_task_summary(
            &result.task.summary,
            verdict_at(titles, 0),
        ),
        ServerMessage::TaskHistory { page, .. } => valid_task_history(page, titles),
        ServerMessage::Error { current_version, .. } => valid_number(*current_version),
        _ => true,
    }
}

/// Refuses a router message whose request identifier is malformed or whose fields break
/// the rules of its kind.
pub fn validate_server_message(
    message: &ServerMessage,
    titles: &[bool],
    credential: bool,
) -> (verdict: Result<(), RouterErrorCode>)
    ensures
        verdict == if server_message_ok(*message, titles@, credential) {
            Ok::<(), RouterErrorCode>(())
        } else {
            Err(RouterErrorCode::InvalidMessage)
        },
{
    if let Some(id) = message.request_id() {
        if !is_request_id(id) {
            return Err(RouterErrorCode::InvalidMessage);
        }
    }
    if valid_server_payload(message, titles, credential) {
        Ok(())
    } else {
        Err(RouterErrorCode::InvalidMessage)
    }
}

/// The kinds of router message that open a session.
pub open spec fn confirms_session(kind: Seq<char>) -> bool {
    kind == "registered"@ || kind == "registered_operator"@
}

/// What is wrong with the outer form of a router's decoded frame, if anything.
pub open spec fn server_envelope_fault(value: JsonModel) -> Option<RouterErrorCode> {
    envelope_fault(value, |kind: Seq<char>| confirms_session(kind), |kind: Seq<char>|
        server_fields(kind))
}

/// What is wrong with a router's frame before its fields are decoded, if anything.
pub open spec fn server_frame_fault(raw: Seq<char>) -> Option<RouterErrorCode> {
    if byte_length(raw) > MAX_WEBSOCKET_MESSAGE_BYTES {
        Some(RouterErrorCode::MessageTooLarge)
    } else {
        match parsed_json(vstd::utf8::encode_utf8(raw)) {
            None => Some(RouterErrorCode::InvalidMessage),
            Some(value) => server_envelope_fault(value),
        }
    }
}

/// Checks the outer form of a router's decoded frame.
pub fn check_server_envelope(value: &Json) -> (verdict: Result<(), RouterErrorCode>)
    ensures
        verdict == (match server_envelope_fault(value.model()) {
            Some(code) => Err::<(), RouterErrorCode>(code),
            None => Ok(()),
        }),
{
    let kind = match value.text_at("type") {
        Some(kind) => kind,
        None => return Err(RouterErrorCode::InvalidMessage),
    };
    if same_text(kind, "registered") || same_text(kind, "registered_operator") {
        let version = match value.get("protocolVersion") {
            Some(version) => version.as_unsigned(),
            None => None,
        };
        match version {
            Some(number) if number == PROTOCOL_VERSION as u64 => {},
            _ => return Err(RouterErrorCode::ProtocolMismatch),
        }
    }
    match value.as_members() {
        Some(members) => validate_server_unknown_fields(kind, members),
        None => Err(RouterErrorCode::InvalidMessage),
    }
}

/// Checks a router's frame before its fields are decoded: its size, that it is JSON, and
/// its outer form.
pub fn check_server_frame(raw: &str) -> (verdict: Result<(), RouterErrorCode>)
    ensures
        verdict == (match server_frame_fault(raw@) {
            Some(code) => Err::<(), RouterErrorCode>(code),
            None => Ok(()),
        }),
{
    if byte_len(raw) > MAX_WEBSOCKET_MESSAGE_BYTES {
        return Err(RouterErrorCode::MessageTooLarge);
    }
    match parse_json(raw.as_bytes()) {
        Some(value) => check_server_envelope(&value),
        None => Err(RouterErrorCode::InvalidMessage),
    }
}

/// The message of a router's frame. `decoded` is what decoding the frame's fields gave,
/// nothing where they do not make a message.
pub fn parse_server_message(
    raw: &str,
    decoded: Option<ServerMessage>,
    titles: &[bool],
    credential: bool,
) -> (message: Result<ServerMessage, RouterErrorCode>)
    ensures
        message == (match server_frame_fault(raw@) {
            Some(code) => Err::<ServerMessage, RouterErrorCode>(code),
            None => match decoded {
                Some(message) => if server_message_ok(message, titles@, credential) {
                    Ok(message)
                } else {
                    Err(RouterErrorCode::InvalidMessage)
                },
                None => Err(RouterErrorCode::InvalidMessage),
            },
        }),
{
    if let Err(code) = check_server_frame(raw) {
        return Err(code);
    }
    match decoded {
        Some(message) => match validate_server_message(&message, titles, credential) {
            Ok(()) => Ok(message),
            Err(code) => Err(code),
        },
        None => Err(RouterErrorCode::InvalidMessage),
    }
}

} // verus!
