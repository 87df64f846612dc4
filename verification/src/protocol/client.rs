//! The messages that clients send to the router.

use vstd::prelude::*;

use crate::credentials::CredentialRole;
use crate::ids::Uuid;
use crate::json::{parse_json, parsed_json, JsonModel};
use crate::protocol::fields::{client_fields, only_known_fields, validate_unknown_fields};
use crate::protocol::{
    activity_text, agent_id, bearer, client_of_side, cursor_in_range, external_id, is_agent_id,
    is_request_id, is_workspace_name, limit_in_range, operator_subject, request_id, shared_content,
    timeout_in_range, valid_activity, valid_agent_client, valid_bearer, valid_cursor,
    valid_external_id, valid_limit, valid_operator_subject, valid_shared_content, valid_timeout,
    workspace_name, AgentClient, AgentRegistration, AgentSide, RouterErrorCode,
    TaskExecutionEvidence, TaskFence, TaskPauseKind, WorkspaceName, MAX_WEBSOCKET_MESSAGE_BYTES,
    PROTOCOL_VERSION,
};
use crate::tasks::{
    is_positive_safe, is_safe_cursor, positive_safe, safe_cursor, ExternalProvider,
    ExternalPublishKind, ExternalResolutionOutcome, PauseReason, TaskCheckpoint, TaskState,
    TaskTextVerdicts,
};
use crate::text::{byte_len, byte_length, opt_text, same_text, starts_with};

verus! {

/// A message from a client.
#[derive(PartialEq)]
#[allow(inconsistent_fields)]
pub enum ClientMessage {
    Register {
        protocol_version: u8,
        agent: AgentRegistration,
        token: String,
        delegation_token: Option<String>,
    },
    RegisterDelegate {
        protocol_version: u8,
        owner_id: String,
        delegation_token: String,
    },
    RegisterOperator {
        protocol_version: u8,
        token: String,
    },
    Ping {
        request_id: String,
    },
    Readiness {
        ready: bool,
    },
    List {
        request_id: String,
    },
    Send {
        request_id: String,
        to: String,
        content: String,
        timeout_ms: Option<u64>,
    },
    Reply {
        request_id: String,
        ok: bool,
        content: Option<String>,
        error: Option<RouterErrorCode>,
    },
    WorkIdle {
        request_id: String,
        workspace: WorkspaceName,
        work_request_id: String,
        task: Option<TaskFence>,
        ready: bool,
    },
    TaskExecutionStopped {
        request_id: String,
        workspace: WorkspaceName,
        task_id: i64,
        attempt_id: Uuid,
        ended_session_id: Uuid,
        evidence: TaskExecutionEvidence,
        reason: PauseReason,
    },
    CredentialIssue {
        request_id: String,
        role: CredentialRole,
        subject: String,
        agent_side: Option<AgentSide>,
        agent_client: Option<AgentClient>,
        workspaces: Vec<WorkspaceName>,
    },
    CredentialList {
        request_id: String,
        after: Option<Uuid>,
        limit: Option<u16>,
    },
    CredentialRevoke {
        request_id: String,
        id: Uuid,
    },
    WorkspaceCreate {
        request_id: String,
        name: WorkspaceName,
    },
    WorkspaceList {
        request_id: String,
        after: Option<String>,
        limit: Option<u16>,
    },
    WorkspaceJoin {
        request_id: String,
        name: WorkspaceName,
    },
    WorkspaceLeave {
        request_id: String,
    },
    WorkspaceMembers {
        request_id: String,
    },
    WorkspacePost {
        request_id: String,
        content: String,
    },
    WorkspaceHistory {
        request_id: String,
        after: Option<i64>,
        limit: Option<u16>,
    },
    WorkspaceSubscribe {
        request_id: String,
        after: i64,
    },
    WorkspaceUnsubscribe {
        request_id: String,
    },
    TaskList {
        request_id: String,
        workspace: WorkspaceName,
        states: Option<Vec<TaskState>>,
        assigned_agent_id: Option<String>,
        after: Option<i64>,
        limit: Option<u16>,
    },
    TaskGet {
        request_id: String,
        workspace: WorkspaceName,
        task_id: i64,
    },
    TaskHistory {
        request_id: String,
        workspace: WorkspaceName,
        task_id: i64,
        after: Option<i64>,
        limit: Option<u16>,
    },
    TaskCreate {
        request_id: String,
        workspace: WorkspaceName,
        operation_id: Uuid,
        title: String,
        description: String,
    },
    TaskEdit {
        request_id: String,
        workspace: WorkspaceName,
        operation_id: Uuid,
        task_id: i64,
        expected_version: i64,
        title: Option<String>,
        description: Option<String>,
    },
    TaskAssign {
        request_id: String,
        workspace: WorkspaceName,
        operation_id: Uuid,
        task_id: i64,
        expected_version: i64,
        agent_id: Option<String>,
    },
    TaskNote {
        request_id: String,
        workspace: WorkspaceName,
        operation_id: Uuid,
        task_id: i64,
        text: String,
    },
    TaskBegin {
        request_id: String,
        workspace: WorkspaceName,
        operation_id: Uuid,
        task_id: i64,
        work_request_id: String,
        expected_version: i64,
        last_checkpoint_id: Option<Uuid>,
        resume_note: String,
    },
    TaskCheckpoint {
        request_id: String,
        workspace: WorkspaceName,
        operation_id: Uuid,
        task_id: i64,
        attempt_id: Uuid,
        expected_version: i64,
        checkpoint: TaskCheckpoint,
    },
    TaskPause {
        request_id: String,
        workspace: WorkspaceName,
        operation_id: Uuid,
        task_id: i64,
        attempt_id: Uuid,
        expected_version: i64,
        checkpoint: TaskCheckpoint,
        reason: TaskPauseKind,
    },
    TaskComplete {
        request_id: String,
        workspace: WorkspaceName,
        operation_id: Uuid,
        task_id: i64,
        attempt_id: Uuid,
        expected_version: i64,
        result: TaskCheckpoint,
    },
    TaskCancel {
        request_id: String,
        workspace: WorkspaceName,
        operation_id: Uuid,
        task_id: i64,
        expected_version: i64,
        note: String,
    },
    TaskReopen {
        request_id: String,
        workspace: WorkspaceName,
        operation_id: Uuid,
        task_id: i64,
        expected_version: i64,
        note: String,
    },
    TaskRequest {
        request_id: String,
        workspace: WorkspaceName,
        task_id: i64,
        expected_version: i64,
        message: Option<String>,
        timeout_ms: Option<u64>,
    },
    TaskInterrupt {
        request_id: String,
        workspace: WorkspaceName,
        operation_id: Uuid,
        task_id: i64,
        expected_version: i64,
        note: String,
    },
    TaskConfirmStopped {
        request_id: String,
        workspace: WorkspaceName,
        operation_id: Uuid,
        task_id: i64,
        attempt_id: Uuid,
        expected_version: i64,
        note: String,
    },
    TaskImport {
        request_id: String,
        workspace: WorkspaceName,
        provider: ExternalProvider,
        external_id: String,
        operation_id: Uuid,
    },
    TaskLink {
        request_id: String,
        workspace: WorkspaceName,
        operation_id: Uuid,
        task_id: i64,
        expected_version: i64,
        provider: ExternalProvider,
        external_id: String,
        replace: bool,
    },
    TaskPublish {
        request_id: String,
        workspace: WorkspaceName,
        operation_id: Uuid,
        task_id: i64,
        expected_version: i64,
        provider: ExternalProvider,
        kind: ExternalPublishKind,
        report_id: Option<Uuid>,
    },
    TaskExternalStatus {
        request_id: String,
        workspace: WorkspaceName,
        operation_id: Uuid,
    },
    TaskExternalResolve {
        request_id: String,
        workspace: WorkspaceName,
        operation_id: Uuid,
        resolution_id: Uuid,
        outcome: ExternalResolutionOutcome,
        external_id: Option<String>,
        note: String,
    },
    IntegrationList {
        request_id: String,
        workspace: WorkspaceName,
    },
    IntegrationCheck {
        request_id: String,
        workspace: WorkspaceName,
        provider: ExternalProvider,
    },
    IntegrationReload {
        request_id: String,
    },
    RouterShutdown {
        request_id: String,
    },
}

impl ClientMessage {
    /// The name that the message's kind travels under.
    pub open spec fn kind(self) -> Seq<char> {
        match self {
            ClientMessage::Register { .. } => "register"@,
            ClientMessage::RegisterDelegate { .. } => "register_delegate"@,
            ClientMessage::RegisterOperator { .. } => "register_operator"@,
            ClientMessage::Ping { .. } => "ping"@,
            ClientMessage::Readiness { .. } => "readiness"@,
            ClientMessage::List { .. } => "list"@,
            ClientMessage::Send { .. } => "send"@,
            ClientMessage::Reply { .. } => "reply"@,
            ClientMessage::WorkIdle { .. } => "work_idle"@,
            ClientMessage::TaskExecutionStopped { .. } => "task_execution_stopped"@,
            ClientMessage::CredentialIssue { .. } => "credential_issue"@,
            ClientMessage::CredentialList { .. } => "credential_list"@,
            ClientMessage::CredentialRevoke { .. } => "credential_revoke"@,
            ClientMessage::WorkspaceCreate { .. } => "workspace_create"@,
            ClientMessage::WorkspaceList { .. } => "workspace_list"@,
            ClientMessage::WorkspaceJoin { .. } => "workspace_join"@,
            ClientMessage::WorkspaceLeave { .. } => "workspace_leave"@,
            ClientMessage::WorkspaceMembers { .. } => "workspace_members"@,
            ClientMessage::WorkspacePost { .. } => "workspace_post"@,
            ClientMessage::WorkspaceHistory { .. } => "workspace_history"@,
            ClientMessage::WorkspaceSubscribe { .. } => "workspace_subscribe"@,
            ClientMessage::WorkspaceUnsubscribe { .. } => "workspace_unsubscribe"@,
            ClientMessage::TaskList { .. } => "task_list"@,
            ClientMessage::TaskGet { .. } => "task_get"@,
            ClientMessage::TaskHistory { .. } => "task_history"@,
            ClientMessage::TaskCreate { .. } => "task_create"@,
            ClientMessage::TaskEdit { .. } => "task_edit"@,
            ClientMessage::TaskAssign { .. } => "task_assign"@,
            ClientMessage::TaskNote { .. } => "task_note"@,
            ClientMessage::TaskBegin { .. } => "task_begin"@,
            ClientMessage::TaskCheckpoint { .. } => "task_checkpoint"@,
            ClientMessage::TaskPause { .. } => "task_pause"@,
            ClientMessage::TaskComplete { .. } => "task_complete"@,
            ClientMessage::TaskCancel { .. } => "task_cancel"@,
            ClientMessage::TaskReopen { .. } => "task_reopen"@,
            ClientMessage::TaskRequest { .. } => "task_request"@,
            ClientMessage::TaskInterrupt { .. } => "task_interrupt"@,
            ClientMessage::TaskConfirmStopped { .. } => "task_confirm_stopped"@,
            ClientMessage::TaskImport { .. } => "task_import"@,
            ClientMessage::TaskLink { .. } => "task_link"@,
            ClientMessage::TaskPublish { .. } => "task_publish"@,
            ClientMessage::TaskExternalStatus { .. } => "task_external_status"@,
            ClientMessage::TaskExternalResolve { .. } => "task_external_resolve"@,
            ClientMessage::IntegrationList { .. } => "integration_list"@,
            ClientMessage::IntegrationCheck { .. } => "integration_check"@,
            ClientMessage::IntegrationReload { .. } => "integration_reload"@,
            ClientMessage::RouterShutdown { .. } => "router_shutdown"@,
        }
    }

    /// The identifier of the request that the message makes.
    pub open spec fn request(self) -> Option<Seq<char>> {
        match self {
            ClientMessage::Register { .. } => None,
            ClientMessage::RegisterDelegate { .. } => None,
            ClientMessage::RegisterOperator { .. } => None,
            ClientMessage::Ping { request_id, .. } => Some(request_id@),
            ClientMessage::Readiness { .. } => None,
            ClientMessage::List { request_id, .. } => Some(request_id@),
            ClientMessage::Send { request_id, .. } => Some(request_id@),
            ClientMessage::Reply { request_id, .. } => Some(request_id@),
            ClientMessage::WorkIdle { request_id, .. } => Some(request_id@),
            ClientMessage::TaskExecutionStopped { request_id, .. } => Some(request_id@),
            ClientMessage::CredentialIssue { request_id, .. } => Some(request_id@),
            ClientMessage::CredentialList { request_id, .. } => Some(request_id@),
            ClientMessage::CredentialRevoke { request_id, .. } => Some(request_id@),
            ClientMessage::WorkspaceCreate { request_id, .. } => Some(request_id@),
            ClientMessage::WorkspaceList { request_id, .. } => Some(request_id@),
            ClientMessage::WorkspaceJoin { request_id, .. } => Some(request_id@),
            ClientMessage::WorkspaceLeave { request_id, .. } => Some(request_id@),
            ClientMessage::WorkspaceMembers { request_id, .. } => Some(request_id@),
            ClientMessage::WorkspacePost { request_id, .. } => Some(request_id@),
            ClientMessage::WorkspaceHistory { request_id, .. } => Some(request_id@),
            ClientMessage::WorkspaceSubscribe { request_id, .. } => Some(request_id@),
            ClientMessage::WorkspaceUnsubscribe { request_id, .. } => Some(request_id@),
            ClientMessage::TaskList { request_id, .. } => Some(request_id@),
            ClientMessage::TaskGet { request_id, .. } => Some(request_id@),
            ClientMessage::TaskHistory { request_id, .. } => Some(request_id@),
            ClientMessage::TaskCreate { request_id, .. } => Some(request_id@),
            ClientMessage::TaskEdit { request_id, .. } => Some(request_id@),
            ClientMessage::TaskAssign { request_id, .. } => Some(request_id@),
            ClientMessage::TaskNote { request_id, .. } => Some(request_id@),
            ClientMessage::TaskBegin { request_id, .. } => Some(request_id@),
            ClientMessage::TaskCheckpoint { request_id, .. } => Some(request_id@),
            ClientMessage::TaskPause { request_id, .. } => Some(request_id@),
            ClientMessage::TaskComplete { request_id, .. } => Some(request_id@),
            ClientMessage::TaskCancel { request_id, .. } => Some(request_id@),
            ClientMessage::TaskReopen { request_id, .. } => Some(request_id@),
            ClientMessage::TaskRequest { request_id, .. } => Some(request_id@),
            ClientMessage::TaskInterrupt { request_id, .. } => Some(request_id@),
            ClientMessage::TaskConfirmStopped { request_id, .. } => Some(request_id@),
            ClientMessage::TaskImport { request_id, .. } => Some(request_id@),
            ClientMessage::TaskLink { request_id, .. } => Some(request_id@),
            ClientMessage::TaskPublish { request_id, .. } => Some(request_id@),
            ClientMessage::TaskExternalStatus { request_id, .. } => Some(request_id@),
            ClientMessage::TaskExternalResolve { request_id, .. } => Some(request_id@),
            ClientMessage::IntegrationList { request_id, .. } => Some(request_id@),
            ClientMessage::IntegrationCheck { request_id, .. } => Some(request_id@),
            ClientMessage::IntegrationReload { request_id, .. } => Some(request_id@),
            ClientMessage::RouterShutdown { request_id, .. } => Some(request_id@),
        }
    }

    /// The identifier of the request that this message makes.
    pub fn request_id(&self) -> (id: Option<&str>)
        ensures
            (match id {
                Some(text) => Some(text@),
                None => None,
            }) == self.request(),
    {
        match self {
            ClientMessage::Register { .. } => None,
            ClientMessage::RegisterDelegate { .. } => None,
            ClientMessage::RegisterOperator { .. } => None,
            ClientMessage::Ping { request_id, .. } => Some(request_id.as_str()),
            ClientMessage::Readiness { .. } => None,
            ClientMessage::List { request_id, .. } => Some(request_id.as_str()),
            ClientMessage::Send { request_id, .. } => Some(request_id.as_str()),
            ClientMessage::Reply { request_id, .. } => Some(request_id.as_str()),
            ClientMessage::WorkIdle { request_id, .. } => Some(request_id.as_str()),
            ClientMessage::TaskExecutionStopped { request_id, .. } => Some(request_id.as_str()),
            ClientMessage::CredentialIssue { request_id, .. } => Some(request_id.as_str()),
            ClientMessage::CredentialList { request_id, .. } => Some(request_id.as_str()),
            ClientMessage::CredentialRevoke { request_id, .. } => Some(request_id.as_str()),
            ClientMessage::WorkspaceCreate { request_id, .. } => Some(request_id.as_str()),
            ClientMessage::WorkspaceList { request_id, .. } => Some(request_id.as_str()),
            ClientMessage::WorkspaceJoin { request_id, .. } => Some(request_id.as_str()),
            ClientMessage::WorkspaceLeave { request_id, .. } => Some(request_id.as_str()),
            ClientMessage::WorkspaceMembers { request_id, .. } => Some(request_id.as_str()),
            ClientMessage::WorkspacePost { request_id, .. } => Some(request_id.as_str()),
            ClientMessage::WorkspaceHistory { request_id, .. } => Some(request_id.as_str()),
            ClientMessage::WorkspaceSubscribe { request_id, .. } => Some(request_id.as_str()),
            ClientMessage::WorkspaceUnsubscribe { request_id, .. } => Some(request_id.as_str()),
            ClientMessage::TaskList { request_id, .. } => Some(request_id.as_str()),
            ClientMessage::TaskGet { request_id, .. } => Some(request_id.as_str()),
            ClientMessage::TaskHistory { request_id, .. } => Some(request_id.as_str()),
            ClientMessage::TaskCreate { request_id, .. } => Some(request_id.as_str()),
            ClientMessage::TaskEdit { request_id, .. } => Some(request_id.as_str()),
            ClientMessage::TaskAssign { request_id, .. } => Some(request_id.as_str()),
            ClientMessage::TaskNote { request_id, .. } => Some(request_id.as_str()),
            ClientMessage::TaskBegin { request_id, .. } => Some(request_id.as_str()),
            ClientMessage::TaskCheckpoint { request_id, .. } => Some(request_id.as_str()),
            ClientMessage::TaskPause { request_id, .. } => Some(request_id.as_str()),
            ClientMessage::TaskComplete { request_id, .. } => Some(request_id.as_str()),
            ClientMessage::TaskCancel { request_id, .. } => Some(request_id.as_str()),
            ClientMessage::TaskReopen { request_id, .. } => Some(request_id.as_str()),
            ClientMessage::TaskRequest { request_id, .. } => Some(request_id.as_str()),
            ClientMessage::TaskInterrupt { request_id, .. } => Some(request_id.as_str()),
            ClientMessage::TaskConfirmStopped { request_id, .. } => Some(request_id.as_str()),
            ClientMessage::TaskImport { request_id, .. } => Some(request_id.as_str()),
            ClientMessage::TaskLink { request_id, .. } => Some(request_id.as_str()),
            ClientMessage::TaskPublish { request_id, .. } => Some(request_id.as_str()),
            ClientMessage::TaskExternalStatus { request_id, .. } => Some(request_id.as_str()),
            ClientMessage::TaskExternalResolve { request_id, .. } => Some(request_id.as_str()),
            ClientMessage::IntegrationList { request_id, .. } => Some(request_id.as_str()),
            ClientMessage::IntegrationCheck { request_id, .. } => Some(request_id.as_str()),
            ClientMessage::IntegrationReload { request_id, .. } => Some(request_id.as_str()),
            ClientMessage::RouterShutdown { request_id, .. } => Some(request_id.as_str()),
        }
    }
}

/// No two names of a list are the same.
pub open spec fn distinct_names(names: Seq<WorkspaceName>) -> bool {
    forall|i: int, j: int| 0 <= i < j < names.len() ==> (#[trigger] names[i])@ != (#[trigger] names[j])@
}

/// No two states of a list are the same.
pub open spec fn distinct_states(states: Seq<TaskState>) -> bool {
    forall|i: int, j: int| 0 <= i < j < states.len() ==> #[trigger] states[i] != #[trigger] states[j]
}

/// A state filter: at least one state, none twice.
pub open spec fn state_filter(states: Option<Vec<TaskState>>) -> bool {
    states matches Some(list) ==> 1 <= list@.len() <= 6 && distinct_states(list@)
}

/// The subject that a credential of a role may be issued for.
pub open spec fn issuable(
    role: CredentialRole,
    subject: Seq<char>,
    side: Option<AgentSide>,
    client: Option<AgentClient>,
    grants: nat,
) -> bool {
    match role {
        CredentialRole::Agent => {
            &&& agent_id(subject)
            &&& side is Some && client is Some && client_of_side(side->0, client->0)
            &&& grants > 0
        },
        CredentialRole::Operator => {
            &&& operator_subject(subject)
            &&& !"system:"@.is_prefix_of(subject)
            &&& side is None && client is None
        },
    }
}

/// The reasons that an executor may give for having stopped.
pub open spec fn execution_stop(reason: PauseReason) -> bool {
    !(reason is Paused) && !(reason is Blocked)
}

/// The identifiers of a task and of the version that a change starts from.
pub open spec fn task_version(task_id: i64, expected_version: i64) -> bool {
    positive_safe(task_id) && positive_safe(expected_version)
}

/// What the fields of a client message have to meet, kind by kind.
pub open spec fn client_payload(
    message: ClientMessage,
    verdicts: TaskTextVerdicts,
    max_grants: usize,
) -> bool {
    match message {
        ClientMessage::Register { agent, token, delegation_token, .. } => {
            &&& agent_id(agent.agent_id@)
            &&& bearer(token@)
            &&& (opt_text(delegation_token) matches Some(other) ==> bearer(other))
            &&& client_of_side(agent.side, agent.client)
            &&& (opt_text(agent.activity) matches Some(activity) ==> activity_text(activity))
        },
        ClientMessage::RegisterDelegate { owner_id, delegation_token, .. } => {
            agent_id(owner_id@) && bearer(delegation_token@)
        },
        ClientMessage::RegisterOperator { token, .. } => bearer(token@),
        ClientMessage::Send { to, content, timeout_ms, .. } => {
            agent_id(to@) && shared_content(content@) && timeout_in_range(timeout_ms)
        },
        ClientMessage::Reply { ok, content, error, .. } => {
            if ok {
                (opt_text(content) matches Some(text) && shared_content(text)) && error is None
            } else {
                content is None && error is Some
            }
        },
        ClientMessage::WorkIdle { work_request_id, task, .. } => {
            &&& request_id(work_request_id@)
            &&& (task matches Some(fence) ==> positive_safe(fence.task_id))
        },
        ClientMessage::TaskExecutionStopped { task_id, reason, .. } => {
            positive_safe(task_id) && execution_stop(reason)
        },
        ClientMessage::CredentialIssue {
            role,
            subject,
            agent_side,
            agent_client,
            workspaces,
            ..
        } => {
            &&& issuable(role, subject@, agent_side, agent_client, workspaces@.len())
            &&& workspaces@.len() <= max_grants
            &&& distinct_names(workspaces@)
        },
        ClientMessage::CredentialList { limit, .. } => limit_in_range(limit),
        ClientMessage::WorkspaceList { after, limit, .. } => {
            &&& (opt_text(after) matches Some(name) ==> workspace_name(name))
            &&& limit_in_range(limit)
        },
        ClientMessage::WorkspaceHistory { after, limit, .. } => {
            cursor_in_range(after) && limit_in_range(limit)
        },
        ClientMessage::WorkspaceSubscribe { after, .. } => safe_cursor(after),
        ClientMessage::WorkspacePost { content, .. } => shared_content(content@),
        ClientMessage::TaskList { states, assigned_agent_id, after, limit, .. } => {
            &&& state_filter(states)
            &&& (opt_text(assigned_agent_id) matches Some(agent) ==> agent_id(agent))
            &&& cursor_in_range(after)
            &&& limit_in_range(limit)
        },
        ClientMessage::TaskGet { task_id, .. } => positive_safe(task_id),
        ClientMessage::TaskHistory { task_id, after, limit, .. } => {
            positive_safe(task_id) && cursor_in_range(after) && limit_in_range(limit)
        },
        ClientMessage::TaskCreate { .. } => verdicts.title && verdicts.description,
        ClientMessage::TaskEdit { task_id, expected_version, title, description, .. } => {
            &&& task_version(task_id, expected_version)
            &&& title is Some || description is Some
            &&& (title is Some ==> verdicts.title)
            &&& (description is Some ==> verdicts.description)
        },
        ClientMessage::TaskAssign { task_id, expected_version, agent_id: assignee, .. } => {
            &&& task_version(task_id, expected_version)
            &&& (opt_text(assignee) matches Some(agent) ==> agent_id(agent))
        },
        ClientMessage::TaskNote { task_id, .. } => positive_safe(task_id) && verdicts.note,
        ClientMessage::TaskBegin { task_id, work_request_id, expected_version, .. } => {
            &&& task_version(task_id, expected_version)
            &&& request_id(work_request_id@)
            &&& verdicts.handoff_note
        },
        ClientMessage::TaskCheckpoint { task_id, expected_version, .. } => {
            task_version(task_id, expected_version) && verdicts.checkpoint
        },
        ClientMessage::TaskPause { task_id, expected_version, .. } => {
            task_version(task_id, expected_version) && verdicts.checkpoint
        },
        ClientMessage::TaskComplete { task_id, expected_version, .. } => {
            task_version(task_id, expected_version) && verdicts.checkpoint
        },
        ClientMessage::TaskCancel { task_id, expected_version, .. } => {
            task_version(task_id, expected_version) && verdicts.handoff_note
        },
        ClientMessage::TaskReopen { task_id, expected_version, .. } => {
            task_version(task_id, expected_version) && verdicts.handoff_note
        },
        ClientMessage::TaskInterrupt { task_id, expected_version, .. } => {
            task_version(task_id, expected_version) && verdicts.handoff_note
        },
        ClientMessage::TaskConfirmStopped { task_id, expected_version, .. } => {
            task_version(task_id, expected_version) && verdicts.handoff_note
        },
        ClientMessage::TaskRequest { task_id, expected_version, message: text, timeout_ms, .. } => {
            &&& task_version(task_id, expected_version)
            &&& (opt_text(text) matches Some(content) ==> shared_content(content))
            &&& timeout_in_range(timeout_ms)
        },
        ClientMessage::TaskImport { external_id: id, .. } => external_id(id@),
        ClientMessage::TaskLink { task_id, expected_version, external_id: id, .. } => {
            task_version(task_id, expected_version) && external_id(id@)
        },
        ClientMessage::TaskPublish { task_id, expected_version, kind, report_id, .. } => {
            task_version(task_id, expected_version) && (kind is Report <==> report_id is Some)
        },
        ClientMessage::TaskExternalResolve { outcome, external_id: id, .. } => {
            &&& verdicts.handoff_note
            &&& (outcome is Applied <==> (opt_text(id) matches Some(text) && external_id(text)))
        },
        ClientMessage::Ping { .. } => true,
        ClientMessage::Readiness { .. } => true,
        ClientMessage::List { .. } => true,
        ClientMessage::WorkspaceCreate { .. } => true,
        ClientMessage::WorkspaceJoin { .. } => true,
        ClientMessage::WorkspaceLeave { .. } => true,
        ClientMessage::WorkspaceMembers { .. } => true,
        ClientMessage::WorkspaceUnsubscribe { .. } => true,
        ClientMessage::IntegrationList { .. } => true,
        ClientMessage::IntegrationCheck { .. } => true,
        ClientMessage::IntegrationReload { .. } => true,
        ClientMessage::TaskExternalStatus { .. } => true,
        ClientMessage::RouterShutdown { .. } => true,
        ClientMessage::CredentialRevoke { .. } => true,
    }
}

/// A client message that the router takes: a well-formed request identifier where there
/// is one, and fields that meet the rules of its kind.
pub open spec fn client_message_ok(
    message: ClientMessage,
    verdicts: TaskTextVerdicts,
    max_grants: usize,
) -> bool {
    &&& (message.request() matches Some(id) ==> request_id(id))
    &&& client_payload(message, verdicts, max_grants)
}

fn are_distinct_names(names: &Vec<WorkspaceName>) -> (yes: bool)
    ensures
        yes == distinct_names(names@),
{
    let mut i: usize = 0;
    while i < names.len()
        invariant
            i <= names.len(),
            forall|a: int, b: int|
                0 <= a < b < i ==> (#[trigger] names@[a])@ != (#[trigger] names@[b])@,
        decreases names.len() - i,
    {
        let mut j: usize = 0;
        while j < i
            invariant
                j <= i < names.len(),
                forall|a: int| 0 <= a < j ==> (#[trigger] names@[a])@ != names@[i as int]@,
            decreases i - j,
        {
            if names[j].same(&names[i]) {
                return false;
            }
            j += 1;
        }
        i += 1;
    }
    true
}

fn are_distinct_states(states: &Vec<TaskState>) -> (yes: bool)
    ensures
        yes == distinct_states(states@),
{
    let mut i: usize = 0;
    while i < states.len()
        invariant
            i <= states.len(),
            forall|a: int, b: int| 0 <= a < b < i ==> #[trigger] states@[a] != #[trigger] states@[b],
        decreases states.len() - i,
    {
        let mut j: usize = 0;
        while j < i
            invariant
                j <= i < states.len(),
                forall|a: int| 0 <= a < j ==> #[trigger] states@[a] != states@[i as int],
            decreases i - j,
        {
            if states[j] == states[i] {
                return false;
            }
            j += 1;
        }
        i += 1;
    }
    true
}

fn valid_states(states: &Option<Vec<TaskState>>) -> (yes: bool)
    ensures
        yes == state_filter(*states),
{
    match states {
        Some(list) => list.len() >= 1 && list.len() <= 6 && are_distinct_states(list),
        None => true,
    }
}

fn valid_task_version(task_id: i64, expected_version: i64) -> (yes: bool)
    ensures
        yes == task_version(task_id, expected_version),
{
    is_positive_safe(task_id) && is_positive_safe(expected_version)
}

fn valid_optional_agent(value: &Option<String>) -> (yes: bool)
    ensures
        yes == (opt_text(*value) matches Some(agent) ==> agent_id(agent)),
{
    match value {
        Some(agent) => is_agent_id(agent.as_str()),
        None => true,
    }
}

fn valid_optional_content(value: &Option<String>) -> (yes: bool)
    ensures
        yes == (opt_text(*value) matches Some(text) ==> shared_content(text)),
{
    match value {
        Some(text) => valid_shared_content(text.as_str()),
        None => true,
    }
}

pub(crate) fn has_shared_content(value: &Option<String>) -> (yes: bool)
    ensures
        yes == (opt_text(*value) matches Some(text) && shared_content(text)),
{
    match value {
        Some(text) => valid_shared_content(text.as_str()),
        None => false,
    }
}

fn valid_issue(
    role: CredentialRole,
    subject: &str,
    side: Option<AgentSide>,
    client: Option<AgentClient>,
    grants: usize,
) -> (yes: bool)
    ensures
        yes == issuable(role, subject@, side, client, grants as nat),
{
    match role {
        CredentialRole::Agent => match (side, client) {
            (Some(side), Some(client)) => is_agent_id(subject) && valid_agent_client(side, client)
                && grants > 0,
            _ => false,
        },
        CredentialRole::Operator => valid_operator_subject(subject) && !starts_with(
            subject,
            "system:",
        ) && side.is_none() && client.is_none(),
    }
}

fn valid_payload(
    message: &ClientMessage,
    verdicts: TaskTextVerdicts,
    max_grants: usize,
) -> (yes: bool)
    ensures
        yes == client_payload(*message, verdicts, max_grants),
{
    match message {
        ClientMessage::Register { agent, token, delegation_token, .. } => {
            let delegated = match delegation_token {
                Some(other) => valid_bearer(other.as_str()),
                None => true,
            };
            is_agent_id(agent.agent_id.as_str()) && valid_bearer(token.as_str()) && delegated
                && valid_agent_client(agent.side, agent.client) && valid_activity(&agent.activity)
        },
        ClientMessage::RegisterDelegate { owner_id, delegation_token, .. } => {
            is_agent_id(owner_id.as_str()) && valid_bearer(delegation_token.as_str())
        },
        ClientMessage::RegisterOperator { token, .. } => valid_bearer(token.as_str()),
        ClientMessage::Send { to, content, timeout_ms, .. } => {
            is_agent_id(to.as_str()) && valid_shared_content(content.as_str()) && valid_timeout(
                *timeout_ms,
            )
        },
        ClientMessage::Reply { ok, content, error, .. } => {
            if *ok {
                has_shared_content(content) && error.is_none()
            } else {
                content.is_none() && error.is_some()
            }
        },
        ClientMessage::WorkIdle { work_request_id, task, .. } => {
            let fenced = match task {
                Some(fence) => is_positive_safe(fence.task_id),
                None => true,
            };
            is_request_id(work_request_id.as_str()) && fenced
        },
        ClientMessage::TaskExecutionStopped { task_id, reason, .. } => {
            is_positive_safe(*task_id) && !matches!(reason, PauseReason::Paused | PauseReason::Blocked)
        },
        ClientMessage::CredentialIssue {
            role,
            subject,
            agent_side,
            agent_client,
            workspaces,
            ..
        } => {
            valid_issue(*role, subject.as_str(), *agent_side, *agent_client, workspaces.len())
                && workspaces.len() <= max_grants && are_distinct_names(workspaces)
        },
        ClientMessage::CredentialList { limit, .. } => valid_limit(*limit),
        ClientMessage::WorkspaceList { after, limit, .. } => {
            let named = match after {
                Some(name) => is_workspace_name(name.as_str()),
                None => true,
            };
            named && valid_limit(*limit)
        },
        ClientMessage::WorkspaceHistory { after, limit, .. } => {
            valid_cursor(*after) && valid_limit(*limit)
        },
        ClientMessage::WorkspaceSubscribe { after, .. } => is_safe_cursor(*after),
        ClientMessage::WorkspacePost { content, .. } => valid_shared_content(content.as_str()),
        ClientMessage::TaskList { states, assigned_agent_id, after, limit, .. } => {
            valid_states(states) && valid_optional_agent(assigned_agent_id) && valid_cursor(*after)
                && valid_limit(*limit)
        },
        ClientMessage::TaskGet { task_id, .. } => is_positive_safe(*task_id),
        ClientMessage::TaskHistory { task_id, after, limit, .. } => {
            is_positive_safe(*task_id) && valid_cursor(*after) && valid_limit(*limit)
        },
        ClientMessage::TaskCreate { .. } => verdicts.title && verdicts.description,
        ClientMessage::TaskEdit { task_id, expected_version, title, description, .. } => {
            valid_task_version(*task_id, *expected_version) && (title.is_some()
                || description.is_some()) && (title.is_none() || verdicts.title) && (
            description.is_none() || verdicts.description)
        },
        ClientMessage::TaskAssign { task_id, expected_version, agent_id, .. } => {
            valid_task_version(*task_id, *expected_version) && valid_optional_agent(agent_id)
        },
        ClientMessage::TaskNote { task_id, .. } => is_positive_safe(*task_id) && verdicts.note,
        ClientMessage::TaskBegin { task_id, work_request_id, expected_version, .. } => {
            valid_task_version(*task_id, *expected_version) && is_request_id(
                work_request_id.as_str(),
            ) && verdicts.handoff_note
        },
        ClientMessage::TaskCheckpoint { task_id, expected_version, .. }
        | ClientMessage::TaskPause { task_id, expected_version, .. }
        | ClientMessage::TaskComplete { task_id, expected_version, .. } => {
            valid_task_version(*task_id, *expected_version) && verdicts.checkpoint
        },
        ClientMessage::TaskCancel { task_id, expected_version, .. }
        | ClientMessage::TaskReopen { task_id, expected_version, .. }
        | ClientMessage::TaskInterrupt { task_id, expected_version, .. }
        | ClientMessage::TaskConfirmStopped { task_id, expected_version, .. } => {
            valid_task_version(*task_id, *expected_version) && verdicts.handoff_note
        },
        ClientMessage::TaskRequest { task_id, expected_version, message, timeout_ms, .. } => {
            valid_task_version(*task_id, *expected_version) && valid_optional_content(message)
                && valid_timeout(*timeout_ms)
        },
        ClientMessage::TaskImport { external_id, .. } => valid_external_id(external_id.as_str()),
        ClientMessage::TaskLink { task_id, expected_version, external_id, .. } => {
            valid_task_version(*task_id, *expected_version) && valid_external_id(
                external_id.as_str(),
            )
        },
        ClientMessage::TaskPublish { task_id, expected_version, kind, report_id, .. } => {
            valid_task_version(*task_id, *expected_version) && matches!(
                kind,
                ExternalPublishKind::Report
            ) == report_id.is_some()
        },
        ClientMessage::TaskExternalResolve { outcome, external_id, .. } => {
            let identified = match external_id {
                Some(id) => valid_external_id(id.as_str()),
                None => false,
            };
            verdicts.handoff_note && matches!(outcome, ExternalResolutionOutcome::Applied)
                == identified
        },
        ClientMessage::Ping { .. }
        | ClientMessage::Readiness { .. }
        | ClientMessage::List { .. }
        | ClientMessage::WorkspaceCreate { .. }
        | ClientMessage::WorkspaceJoin { .. }
        | ClientMessage::WorkspaceLeave { .. }
        | ClientMessage::WorkspaceMembers { .. }
        | ClientMessage::WorkspaceUnsubscribe { .. }
        | ClientMessage::IntegrationList { .. }
        | ClientMessage::IntegrationCheck { .. }
        | ClientMessage::IntegrationReload { .. }
        | ClientMessage::TaskExternalStatus { .. }
        | ClientMessage::RouterShutdown { .. }
        | ClientMessage::CredentialRevoke { .. } => true,
    }
}

/// Refuses a client message whose request identifier is malformed or whose fields break
/// the rules of its kind.
pub fn validate_client_message(
    message: &ClientMessage,
    verdicts: TaskTextVerdicts,
    max_grants: usize,
) -> (verdict: Result<(), RouterErrorCode>)
    ensures
        verdict == if client_message_ok(*message, verdicts, max_grants) {
            Ok::<(), RouterErrorCode>(())
        } else {
            Err(RouterErrorCode::InvalidMessage)
        },
{
    if let Some(id) = message.request_id() {
        if !is_request_id(id) {
            return Err(RouterErrorCode::InvalidMessage);
        }
    }
    if valid_payload(message, verdicts, max_grants) {
        Ok(())
    } else {
        Err(RouterErrorCode::InvalidMessage)
    }
}

/// The kinds of client message that open a session.
pub open spec fn opens_session(kind: Seq<char>) -> bool {
    kind == "register"@ || kind == "register_delegate"@ || kind == "register_operator"@
}

/// What is wrong with the outer form of a decoded frame, if anything: it is no object, it
/// names no kind, it opens a session of another protocol version, or it carries a field
/// that its kind does not have.
pub open spec fn envelope_fault(
    value: JsonModel,
    opens: spec_fn(Seq<char>) -> bool,
    fields: spec_fn(Seq<char>) -> Option<Seq<Seq<char>>>,
) -> Option<RouterErrorCode> {
    match value.text_at("type"@) {
        None => Some(RouterErrorCode::InvalidMessage),
        Some(kind) => if opens(kind) && value.at("protocolVersion"@).unsigned() != Some(
            PROTOCOL_VERSION as u64,
        ) {
            Some(RouterErrorCode::ProtocolMismatch)
        } else if !only_known_fields(fields(kind), value.keys()) {
            Some(RouterErrorCode::InvalidMessage)
        } else {
            None
        },
    }
}

/// What is wrong with a client's frame before its fields are decoded, if anything.
pub open spec fn client_frame_fault(raw: Seq<char>) -> Option<RouterErrorCode> {
    if byte_length(raw) > MAX_WEBSOCKET_MESSAGE_BYTES {
        Some(RouterErrorCode::MessageTooLarge)
    } else {
        match parsed_json(vstd::utf8::encode_utf8(raw)) {
            None => Some(RouterErrorCode::InvalidMessage),
            Some(value) => client_envelope_fault(value),
        }
    }
}

/// What is wrong with the outer form of a client's decoded frame, if anything.
pub open spec fn client_envelope_fault(value: JsonModel) -> Option<RouterErrorCode> {
    envelope_fault(value, |kind: Seq<char>| opens_session(kind), |kind: Seq<char>|
        client_fields(kind))
}

/// Checks the outer form of a client's decoded frame.
pub fn check_client_envelope(value: &crate::json::Json) -> (verdict: Result<(), RouterErrorCode>)
    ensures
        verdict == (match client_envelope_fault(value.model()) {
            Some(code) => Err::<(), RouterErrorCode>(code),
            None => Ok(()),
        }),
{
    let kind = match value.text_at("type") {
        Some(kind) => kind,
        None => return Err(RouterErrorCode::InvalidMessage),
    };
    if same_text(kind, "register") || same_text(kind, "register_delegate") || same_text(
        kind,
        "register_operator",
    ) {
        let version = match value.get("protocolVersion") {
            Some(version) => version.as_unsigned(),
            None => None,
        };
        match version {
            Some(number) if number == PROTOCOL_VERSION as u64 => {},
            _ => return Err(RouterErrorCode::ProtocolMismatch),
        }
    }
    match value.as_members() {
        Some(members) => validate_unknown_fields(kind, members),
        None => Err(RouterErrorCode::InvalidMessage),
    }
}

/// Checks a client's frame before its fields are decoded: its size, that it is JSON, and
/// its outer form.
pub fn check_client_frame(raw: &str) -> (verdict: Result<(), RouterErrorCode>)
    ensures
        verdict == (match client_frame_fault(raw@) {
            Some(code) => Err::<(), RouterErrorCode>(code),
            None => Ok(()),
        }),
{
    if byte_len(raw) > MAX_WEBSOCKET_MESSAGE_BYTES {
        return Err(RouterErrorCode::MessageTooLarge);
    }
    match parse_json(raw.as_bytes()) {
        Some(value) => check_client_envelope(&value),
        None => Err(RouterErrorCode::InvalidMessage),
    }
}

/// The message of a client's frame. `decoded` is what decoding the frame's fields gave,
/// nothing where they do not make a message.
pub fn parse_client_message(
    raw: &str,
    decoded: Option<ClientMessage>,
    verdicts: TaskTextVerdicts,
    max_grants: usize,
) -> (message: Result<ClientMessage, RouterErrorCode>)
    ensures
        message == (match client_frame_fault(raw@) {
            Some(code) => Err::<ClientMessage, RouterErrorCode>(code),
            None => match decoded {
                Some(message) => if client_message_ok(message, verdicts, max_grants) {
                    Ok(message)
                } else {
                    Err(RouterErrorCode::InvalidMessage)
                },
                None => Err(RouterErrorCode::InvalidMessage),
            },
        }),
{
    if let Err(code) = check_client_frame(raw) {
        return Err(code);
    }
    match decoded {
        Some(message) => match validate_client_message(&message, verdicts, max_grants) {
            Ok(()) => Ok(message),
            Err(code) => Err(code),
        },
        None => Err(RouterErrorCode::InvalidMessage),
    }
}

} // verus!
