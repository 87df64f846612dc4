//! What the fields of messages are: those that the messages of the kind bear, and no others.

use vstd::prelude::*;

use crate::json::Json;
use crate::protocol::client::{check_client_envelope, ClientMessage};
use crate::protocol::fields::{client_fields, server_fields};
use crate::protocol::laws::{kind_print, kinds_printed};
use crate::protocol::server::{check_server_envelope, ServerMessage};
use crate::protocol::RouterErrorCode;

verus! {

/// The row of a kind of message of a client names every field that its messages bear, and as many as
/// they bear.
pub proof fn client_rows_name_what_messages_bear(message: ClientMessage, row: Seq<Seq<char>>)
    requires
        client_fields(message.kind()) == Some(row),
    ensures
        (message is Ping || message is Readiness || message is List || message is WorkspaceLeave
            || message is WorkspaceMembers || message is WorkspaceUnsubscribe || message is
            IntegrationReload || message is RouterShutdown) ==> row.len() == 2,
        (message is RegisterOperator || message is CredentialRevoke || message is
            WorkspaceCreate || message is WorkspaceJoin || message is WorkspacePost || message is
            WorkspaceSubscribe || message is IntegrationList) ==> row.len() == 3,
        (message is RegisterDelegate || message is CredentialList || message is WorkspaceList ||
            message is WorkspaceHistory || message is TaskGet || message is TaskExternalStatus ||
            message is IntegrationCheck) ==> row.len() == 4,
        (message is Register || message is Send || message is Reply) ==> row.len() == 5,
        (message is WorkIdle || message is TaskHistory || message is TaskCreate || message is
            TaskNote || message is TaskImport) ==> row.len() == 6,
        (message is CredentialIssue || message is TaskList || message is TaskAssign || message
            is TaskCancel || message is TaskReopen || message is TaskRequest || message is
            TaskInterrupt) ==> row.len() == 7,
        (message is TaskExecutionStopped || message is TaskEdit || message is TaskCheckpoint ||
            message is TaskComplete || message is TaskConfirmStopped || message is
            TaskExternalResolve) ==> row.len() == 8,
        (message is TaskBegin || message is TaskPause || message is TaskLink || message is
            TaskPublish) ==> row.len() == 9,
        row.contains("type"@),
        (message is Register || message is RegisterDelegate || message is RegisterOperator) ==>
            row.contains("protocolVersion"@),
        (message is Register) ==> row.contains("agent"@),
        (message is Register || message is RegisterOperator) ==> row.contains("token"@),
        (message is Register || message is RegisterDelegate) ==> row.contains("delegationToken"@),
        (message is RegisterDelegate) ==> row.contains("ownerId"@),
        (message is Ping || message is List || message is Send || message is Reply || message is
            WorkIdle || message is TaskExecutionStopped || message is CredentialIssue || message is
            CredentialList || message is CredentialRevoke || message is WorkspaceCreate || message
            is WorkspaceList || message is WorkspaceJoin || message is WorkspaceLeave || message is
            WorkspaceMembers || message is WorkspacePost || message is WorkspaceHistory || message
            is WorkspaceSubscribe || message is WorkspaceUnsubscribe || message is TaskList ||
            message is TaskGet || message is TaskHistory || message is TaskCreate || message is
            TaskEdit || message is TaskAssign || message is TaskNote || message is TaskBegin ||
            message is TaskCheckpoint || message is TaskPause || message is TaskComplete || message
            is TaskCancel || message is TaskReopen || message is TaskRequest || message is
            TaskInterrupt || message is TaskConfirmStopped || message is TaskImport || message is
            TaskLink || message is TaskPublish || message is TaskExternalStatus || message is
            TaskExternalResolve || message is IntegrationList || message is IntegrationCheck ||
            message is IntegrationReload || message is RouterShutdown) ==>
            row.contains("requestId"@),
        (message is Readiness || message is WorkIdle) ==> row.contains("ready"@),
        (message is Send) ==> row.contains("to"@),
        (message is Send || message is Reply || message is WorkspacePost) ==>
            row.contains("content"@),
        (message is Send || message is TaskRequest) ==> row.contains("timeoutMs"@),
        (message is Reply) ==> row.contains("ok"@),
        (message is Reply) ==> row.contains("error"@),
        (message is WorkIdle || message is TaskExecutionStopped || message is TaskList ||
            message is TaskGet || message is TaskHistory || message is TaskCreate || message is
            TaskEdit || message is TaskAssign || message is TaskNote || message is TaskBegin ||
            message is TaskCheckpoint || message is TaskPause || message is TaskComplete || message
            is TaskCancel || message is TaskReopen || message is TaskRequest || message is
            TaskInterrupt || message is TaskConfirmStopped || message is TaskImport || message is
            TaskLink || message is TaskPublish || message is TaskExternalStatus || message is
            TaskExternalResolve || message is IntegrationList || message is IntegrationCheck) ==>
            row.contains("workspace"@),
        (message is WorkIdle || message is TaskBegin) ==> row.contains("workRequestId"@),
        (message is WorkIdle) ==> row.contains("task"@),
        (message is TaskExecutionStopped || message is TaskGet || message is TaskHistory ||
            message is TaskEdit || message is TaskAssign || message is TaskNote || message is
            TaskBegin || message is TaskCheckpoint || message is TaskPause || message is
            TaskComplete || message is TaskCancel || message is TaskReopen || message is TaskRequest
            || message is TaskInterrupt || message is TaskConfirmStopped || message is TaskLink ||
            message is TaskPublish) ==> row.contains("taskId"@),
        (message is TaskExecutionStopped || message is TaskCheckpoint || message is TaskPause ||
            message is TaskComplete || message is TaskConfirmStopped) ==>
            row.contains("attemptId"@),
        (message is TaskExecutionStopped) ==> row.contains("endedSessionId"@),
        (message is TaskExecutionStopped) ==> row.contains("evidence"@),
        (message is TaskExecutionStopped || message is TaskPause) ==> row.contains("reason"@),
        (message is CredentialIssue) ==> row.contains("role"@),
        (message is CredentialIssue) ==> row.contains("subject"@),
        (message is CredentialIssue) ==> row.contains("agentSide"@),
        (message is CredentialIssue) ==> row.contains("agentClient"@),
        (message is CredentialIssue) ==> row.contains("workspaces"@),
        (message is CredentialList || message is WorkspaceList || message is WorkspaceHistory ||
            message is WorkspaceSubscribe || message is TaskList || message is TaskHistory) ==>
            row.contains("after"@),
        (message is CredentialList || message is WorkspaceList || message is WorkspaceHistory ||
            message is TaskList || message is TaskHistory) ==> row.contains("limit"@),
        (message is CredentialRevoke) ==> row.contains("id"@),
        (message is WorkspaceCreate || message is WorkspaceJoin) ==> row.contains("name"@),
        (message is TaskList) ==> row.contains("states"@),
        (message is TaskList) ==> row.contains("assignedAgentId"@),
        (message is TaskCreate || message is TaskEdit || message is TaskAssign || message is
            TaskNote || message is TaskBegin || message is TaskCheckpoint || message is TaskPause ||
            message is TaskComplete || message is TaskCancel || message is TaskReopen || message is
            TaskInterrupt || message is TaskConfirmStopped || message is TaskImport || message is
            TaskLink || message is TaskPublish || message is TaskExternalStatus || message is
            TaskExternalResolve) ==> row.contains("operationId"@),
        (message is TaskCreate || message is TaskEdit) ==> row.contains("title"@),
        (message is TaskCreate || message is TaskEdit) ==> row.contains("description"@),
        (message is TaskEdit || message is TaskAssign || message is TaskBegin || message is
            TaskCheckpoint || message is TaskPause || message is TaskComplete || message is
            TaskCancel || message is TaskReopen || message is TaskRequest || message is
            TaskInterrupt || message is TaskConfirmStopped || message is TaskLink || message is
            TaskPublish) ==> row.contains("expectedVersion"@),
        (message is TaskAssign) ==> row.contains("agentId"@),
        (message is TaskNote) ==> row.contains("text"@),
        (message is TaskBegin) ==> row.contains("lastCheckpointId"@),
        (message is TaskBegin) ==> row.contains("resumeNote"@),
        (message is TaskCheckpoint || message is TaskPause) ==> row.contains("checkpoint"@),
        (message is TaskComplete) ==> row.contains("result"@),
        (message is TaskCancel || message is TaskReopen || message is TaskInterrupt || message
            is TaskConfirmStopped || message is TaskExternalResolve) ==> row.contains("note"@),
        (message is TaskRequest) ==> row.contains("message"@),
        (message is TaskImport || message is TaskLink || message is TaskPublish || message is
            IntegrationCheck) ==> row.contains("provider"@),
        (message is TaskImport || message is TaskLink || message is TaskExternalResolve) ==>
            row.contains("externalId"@),
        (message is TaskLink) ==> row.contains("replace"@),
        (message is TaskPublish) ==> row.contains("kind"@),
        (message is TaskPublish) ==> row.contains("reportId"@),
        (message is TaskExternalResolve) ==> row.contains("resolutionId"@),
        (message is TaskExternalResolve) ==> row.contains("outcome"@),
{
    kinds_printed();
    assert(row[0] == "type"@);
    match message {
        ClientMessage::Register { .. } => {
            assert(row.len() == 5);
            assert(row[1] == "protocolVersion"@);
            assert(row[2] == "agent"@);
            assert(row[3] == "token"@);
            assert(row[4] == "delegationToken"@);
        },
        ClientMessage::RegisterDelegate { .. } => {
            assert(row.len() == 4);
            assert(row[1] == "protocolVersion"@);
            assert(row[2] == "ownerId"@);
            assert(row[3] == "delegationToken"@);
        },
        ClientMessage::RegisterOperator { .. } => {
            assert(row.len() == 3);
            assert(row[1] == "protocolVersion"@);
            assert(row[2] == "token"@);
        },
        ClientMessage::Ping { .. } => {
            assert(row.len() == 2);
            assert(row[1] == "requestId"@);
        },
        ClientMessage::Readiness { .. } => {
            assert(row.len() == 2);
            assert(row[1] == "ready"@);
        },
        ClientMessage::List { .. } => {
            assert(row.len() == 2);
            assert(row[1] == "requestId"@);
        },
        ClientMessage::Send { .. } => {
            assert(row.len() == 5);
            assert(row[1] == "requestId"@);
            assert(row[2] == "to"@);
            assert(row[3] == "content"@);
            assert(row[4] == "timeoutMs"@);
        },
        ClientMessage::Reply { .. } => {
            assert(row.len() == 5);
            assert(row[1] == "requestId"@);
            assert(row[2] == "ok"@);
            assert(row[3] == "content"@);
            assert(row[4] == "error"@);
        },
        ClientMessage::WorkIdle { .. } => {
            assert(row.len() == 6);
            assert(row[1] == "requestId"@);
            assert(row[2] == "workspace"@);
            assert(row[3] == "workRequestId"@);
            assert(row[4] == "task"@);
            assert(row[5] == "ready"@);
        },
        ClientMessage::TaskExecutionStopped { .. } => {
            assert(row.len() == 8);
            assert(row[1] == "requestId"@);
            assert(row[2] == "workspace"@);
            assert(row[3] == "taskId"@);
            assert(row[4] == "attemptId"@);
            assert(row[5] == "endedSessionId"@);
            assert(row[6] == "evidence"@);
            assert(row[7] == "reason"@);
        },
        ClientMessage::CredentialIssue { .. } => {
            assert(row.len() == 7);
            assert(row[1] == "requestId"@);
            assert(row[2] == "role"@);
            assert(row[3] == "subject"@);
            assert(row[4] == "agentSide"@);
            assert(row[5] == "agentClient"@);
            assert(row[6] == "workspaces"@);
        },
        ClientMessage::CredentialList { .. } => {
            assert(row.len() == 4);
            assert(row[1] == "requestId"@);
            assert(row[2] == "after"@);
            assert(row[3] == "limit"@);
        },
        ClientMessage::CredentialRevoke { .. } => {
            assert(row.len() == 3);
            assert(row[1] == "requestId"@);
            assert(row[2] == "id"@);
        },
        ClientMessage::WorkspaceCreate { .. } => {
            assert(row.len() == 3);
            assert(row[1] == "requestId"@);
            assert(row[2] == "name"@);
        },
        ClientMessage::WorkspaceList { .. } => {
            assert(row.len() == 4);
            assert(row[1] == "requestId"@);
            assert(row[2] == "after"@);
            assert(row[3] == "limit"@);
        },
        ClientMessage::WorkspaceJoin { .. } => {
            assert(row.len() == 3);
            assert(row[1] == "requestId"@);
            assert(row[2] == "name"@);
        },
        ClientMessage::WorkspaceLeave { .. } => {
            assert(row.len() == 2);
            assert(row[1] == "requestId"@);
        },
        ClientMessage::WorkspaceMembers { .. } => {
            assert(row.len() == 2);
            assert(row[1] == "requestId"@);
        },
        ClientMessage::WorkspacePost { .. } => {
            assert(row.len() == 3);
            assert(row[1] == "requestId"@);
            assert(row[2] == "content"@);
        },
        ClientMessage::WorkspaceHistory { .. } => {
            assert(row.len() == 4);
            assert(row[1] == "requestId"@);
            assert(row[2] == "after"@);
            assert(row[3] == "limit"@);
        },
        ClientMessage::WorkspaceSubscribe { .. } => {
            assert(row.len() == 3);
            assert(row[1] == "requestId"@);
            assert(row[2] == "after"@);
        },
        ClientMessage::WorkspaceUnsubscribe { .. } => {
            assert(row.len() == 2);
            assert(row[1] == "requestId"@);
        },
        ClientMessage::TaskList { .. } => {
            assert(row.len() == 7);
            assert(row[1] == "requestId"@);
            assert(row[2] == "workspace"@);
            assert(row[3] == "states"@);
            assert(row[4] == "assignedAgentId"@);
            assert(row[5] == "after"@);
            assert(row[6] == "limit"@);
        },
        ClientMessage::TaskGet { .. } => {
            assert(row.len() == 4);
            assert(row[1] == "requestId"@);
            assert(row[2] == "workspace"@);
            assert(row[3] == "taskId"@);
        },
        ClientMessage::TaskHistory { .. } => {
            assert(row.len() == 6);
            assert(row[1] == "requestId"@);
            assert(row[2] == "workspace"@);
            assert(row[3] == "taskId"@);
            assert(row[4] == "after"@);
            assert(row[5] == "limit"@);
        },
        ClientMessage::TaskCreate { .. } => {
            assert(row.len() == 6);
            assert(row[1] == "requestId"@);
            assert(row[2] == "workspace"@);
            assert(row[3] == "operationId"@);
            assert(row[4] == "title"@);
            assert(row[5] == "description"@);
        },
        ClientMessage::TaskEdit { .. } => {
            assert(row.len() == 8);
            assert(row[1] == "requestId"@);
            assert(row[2] == "workspace"@);
            assert(row[3] == "operationId"@);
            assert(row[4] == "taskId"@);
            assert(row[5] == "expectedVersion"@);
            assert(row[6] == "title"@);
            assert(row[7] == "description"@);
        },
        ClientMessage::TaskAssign { .. } => {
            assert(row.len() == 7);
            assert(row[1] == "requestId"@);
            assert(row[2] == "workspace"@);
            assert(row[3] == "operationId"@);
            assert(row[4] == "taskId"@);
            assert(row[5] == "expectedVersion"@);
            assert(row[6] == "agentId"@);
        },
        ClientMessage::TaskNote { .. } => {
            assert(row.len() == 6);
            assert(row[1] == "requestId"@);
            assert(row[2] == "workspace"@);
            assert(row[3] == "operationId"@);
            assert(row[4] == "taskId"@);
            assert(row[5] == "text"@);
        },
        ClientMessage::TaskBegin { .. } => {
            assert(row.len() == 9);
            assert(row[1] == "requestId"@);
            assert(row[2] == "workspace"@);
            assert(row[3] == "operationId"@);
            assert(row[4] == "taskId"@);
            assert(row[5] == "workRequestId"@);
            assert(row[6] == "expectedVersion"@);
            assert(row[7] == "lastCheckpointId"@);
            assert(row[8] == "resumeNote"@);
        },
        ClientMessage::TaskCheckpoint { .. } => {
            assert(row.len() == 8);
            assert(row[1] == "requestId"@);
            assert(row[2] == "workspace"@);
            assert(row[3] == "operationId"@);
            assert(row[4] == "taskId"@);
            assert(row[5] == "attemptId"@);
            assert(row[6] == "expectedVersion"@);
            assert(row[7] == "checkpoint"@);
        },
        ClientMessage::TaskPause { .. } => {
            assert(row.len() == 9);
            assert(row[1] == "requestId"@);
            assert(row[2] == "workspace"@);
            assert(row[3] == "operationId"@);
            assert(row[4] == "taskId"@);
            assert(row[5] == "attemptId"@);
            assert(row[6] == "expectedVersion"@);
            assert(row[7] == "checkpoint"@);
            assert(row[8] == "reason"@);
        },
        ClientMessage::TaskComplete { .. } => {
            assert(row.len() == 8);
            assert(row[1] == "requestId"@);
            assert(row[2] == "workspace"@);
            assert(row[3] == "operationId"@);
            assert(row[4] == "taskId"@);
            assert(row[5] == "attemptId"@);
            assert(row[6] == "expectedVersion"@);
            assert(row[7] == "result"@);
        },
        ClientMessage::TaskCancel { .. } => {
            assert(row.len() == 7);
            assert(row[1] == "requestId"@);
            assert(row[2] == "workspace"@);
            assert(row[3] == "operationId"@);
            assert(row[4] == "taskId"@);
            assert(row[5] == "expectedVersion"@);
            assert(row[6] == "note"@);
        },
        ClientMessage::TaskReopen { .. } => {
            assert(row.len() == 7);
            assert(row[1] == "requestId"@);
            assert(row[2] == "workspace"@);
            assert(row[3] == "operationId"@);
            assert(row[4] == "taskId"@);
            assert(row[5] == "expectedVersion"@);
            assert(row[6] == "note"@);
        },
        ClientMessage::TaskRequest { .. } => {
            assert(row.len() == 7);
            assert(row[1] == "requestId"@);
            assert(row[2] == "workspace"@);
            assert(row[3] == "taskId"@);
            assert(row[4] == "expectedVersion"@);
            assert(row[5] == "message"@);
            assert(row[6] == "timeoutMs"@);
        },
        ClientMessage::TaskInterrupt { .. } => {
            assert(row.len() == 7);
            assert(row[1] == "requestId"@);
            assert(row[2] == "workspace"@);
            assert(row[3] == "operationId"@);
            assert(row[4] == "taskId"@);
            assert(row[5] == "expectedVersion"@);
            assert(row[6] == "note"@);
        },
        ClientMessage::TaskConfirmStopped { .. } => {
            assert(row.len() == 8);
            assert(row[1] == "requestId"@);
            assert(row[2] == "workspace"@);
            assert(row[3] == "operationId"@);
            assert(row[4] == "taskId"@);
            assert(row[5] == "attemptId"@);
            assert(row[6] == "expectedVersion"@);
            assert(row[7] == "note"@);
        },
        ClientMessage::TaskImport { .. } => {
            assert(row.len() == 6);
            assert(row[1] == "requestId"@);
            assert(row[2] == "workspace"@);
            assert(row[3] == "provider"@);
            assert(row[4] == "externalId"@);
            assert(row[5] == "operationId"@);
        },
        ClientMessage::TaskLink { .. } => {
            assert(row.len() == 9);
            assert(row[1] == "requestId"@);
            assert(row[2] == "workspace"@);
            assert(row[3] == "operationId"@);
            assert(row[4] == "taskId"@);
            assert(row[5] == "expectedVersion"@);
            assert(row[6] == "provider"@);
            assert(row[7] == "externalId"@);
            assert(row[8] == "replace"@);
        },
        ClientMessage::TaskPublish { .. } => {
            assert(row.len() == 9);
            assert(row[1] == "requestId"@);
            assert(row[2] == "workspace"@);
            assert(row[3] == "operationId"@);
            assert(row[4] == "taskId"@);
            assert(row[5] == "expectedVersion"@);
            assert(row[6] == "provider"@);
            assert(row[7] == "kind"@);
            assert(row[8] == "reportId"@);
        },
        ClientMessage::TaskExternalStatus { .. } => {
            assert(row.len() == 4);
            assert(row[1] == "requestId"@);
            assert(row[2] == "workspace"@);
            assert(row[3] == "operationId"@);
        },
        ClientMessage::TaskExternalResolve { .. } => {
            assert(row.len() == 8);
            assert(row[1] == "requestId"@);
            assert(row[2] == "workspace"@);
            assert(row[3] == "operationId"@);
            assert(row[4] == "resolutionId"@);
            assert(row[5] == "outcome"@);
            assert(row[6] == "externalId"@);
            assert(row[7] == "note"@);
        },
        ClientMessage::IntegrationList { .. } => {
            assert(row.len() == 3);
            assert(row[1] == "requestId"@);
            assert(row[2] == "workspace"@);
        },
        ClientMessage::IntegrationCheck { .. } => {
            assert(row.len() == 4);
            assert(row[1] == "requestId"@);
            assert(row[2] == "workspace"@);
            assert(row[3] == "provider"@);
        },
        ClientMessage::IntegrationReload { .. } => {
            assert(row.len() == 2);
            assert(row[1] == "requestId"@);
        },
        ClientMessage::RouterShutdown { .. } => {
            assert(row.len() == 2);
            assert(row[1] == "requestId"@);
        },
    }
}

/// What the numbers of the kinds of the router's messages are.
proof fn answer_kinds_printed()
    ensures
        kind_print("registered"@) == 10100101,
        kind_print("registered_operator"@) == 19114097,
        kind_print("pong"@) == 4103112,
        kind_print("error"@) == 5114114,
        kind_print("agents"@) == 6115101,
        kind_print("accepted"@) == 8100112,
        kind_print("deliver"@) == 7114105,
        kind_print("result"@) == 6116115,
        kind_print("cancel_work"@) == 11107119,
        kind_print("work_idle_ack"@) == 13107095,
        kind_print("task_execution_stopped_ack"@) == 26107095,
        kind_print("task_attempt_changed"@) == 20100110,
        kind_print("workspace_created"@) == 17100097,
        kind_print("workspaces"@) == 10115097,
        kind_print("credential_issued"@) == 17100115,
        kind_print("credentials"@) == 11115105,
        kind_print("credential_revoked"@) == 18100111,
        kind_print("integrations"@) == 12115105,
        kind_print("integration_checked"@) == 19100099,
        kind_print("integrations_reloaded"@) == 21100097,
        kind_print("external_operation"@) == 18110116,
        kind_print("external_status"@) == 15115097,
        kind_print("external_resolved"@) == 17100108,
        kind_print("workspace_joined"@) == 16100105,
        kind_print("workspace_left"@) == 14116108,
        kind_print("workspace_changed"@) == 17100110,
        kind_print("workspace_posted"@) == 16100115,
        kind_print("workspace_history"@) == 17121116,
        kind_print("workspace_subscription"@) == 22110116,
        kind_print("workspace_event"@) == 15116118,
        kind_print("workspace_unsubscribed"@) == 22100105,
        kind_print("tasks"@) == 5115097,
        kind_print("task"@) == 4107116,
        kind_print("task_history"@) == 12121116,
        kind_print("task_mutated"@) == 12100097,
        kind_print("router_stopping"@) == 15103112,
{
    reveal_strlit("registered");
    reveal_strlit("registered_operator");
    reveal_strlit("pong");
    reveal_strlit("error");
    reveal_strlit("agents");
    reveal_strlit("accepted");
    reveal_strlit("deliver");
    reveal_strlit("result");
    reveal_strlit("cancel_work");
    reveal_strlit("work_idle_ack");
    reveal_strlit("task_execution_stopped_ack");
    reveal_strlit("task_attempt_changed");
    reveal_strlit("workspace_created");
    reveal_strlit("workspaces");
    reveal_strlit("credential_issued");
    reveal_strlit("credentials");
    reveal_strlit("credential_revoked");
    reveal_strlit("integrations");
    reveal_strlit("integration_checked");
    reveal_strlit("integrations_reloaded");
    reveal_strlit("external_operation");
    reveal_strlit("external_status");
    reveal_strlit("external_resolved");
    reveal_strlit("workspace_joined");
    reveal_strlit("workspace_left");
    reveal_strlit("workspace_changed");
    reveal_strlit("workspace_posted");
    reveal_strlit("workspace_history");
    reveal_strlit("workspace_subscription");
    reveal_strlit("workspace_event");
    reveal_strlit("workspace_unsubscribed");
    reveal_strlit("tasks");
    reveal_strlit("task");
    reveal_strlit("task_history");
    reveal_strlit("task_mutated");
    reveal_strlit("router_stopping");
}

/// The row of a kind of message of the router names every field that its messages bear, and as many as
/// they bear.
pub proof fn server_rows_name_what_messages_bear(message: ServerMessage, row: Seq<Seq<char>>)
    requires
        server_fields(message.kind()) == Some(row),
    ensures
        (message is Pong || message is WorkspaceEvent || message is RouterStopping) ==>
            row.len() == 2,
        (message is WorkspaceCreated || message is CredentialIssued || message is
            CredentialRevoked || message is IntegrationsReloaded || message is WorkspaceLeft ||
            message is WorkspaceChanged || message is WorkspaceUnsubscribed) ==> row.len() == 3,
        (message is Agents || message is Accepted || message is WorkIdleAck || message is
            Integrations || message is IntegrationChecked || message is ExternalOperation || message
            is WorkspaceJoined || message is WorkspacePosted || message is Task) ==> row.len() == 4,
        (message is CancelWork || message is TaskExecutionStoppedAck || message is Workspaces ||
            message is Credentials || message is ExternalStatus || message is ExternalResolved) ==>
            row.len() == 5,
        (message is Registered || message is RegisteredOperator || message is Error || message
            is WorkspaceHistory || message is WorkspaceSubscription || message is Tasks) ==>
            row.len() == 6,
        (message is Deliver || message is TaskAttemptChanged || message is TaskHistory ||
            message is TaskMutated) ==> row.len() == 7,
        (message is Result) ==> row.len() == 8,
        row.contains("type"@),
        (message is Registered || message is RegisteredOperator) ==>
            row.contains("protocolVersion"@),
        (message is Registered) ==> row.contains("agent"@),
        (message is Registered) ==> row.contains("role"@),
        (message is Registered || message is RegisteredOperator || message is Error || message
            is Agents || message is Accepted || message is Deliver || message is Result || message
            is CancelWork || message is WorkIdleAck || message is TaskExecutionStoppedAck || message
            is TaskAttemptChanged || message is WorkspaceCreated || message is Integrations ||
            message is IntegrationChecked || message is ExternalOperation || message is
            ExternalStatus || message is ExternalResolved || message is WorkspaceJoined || message
            is WorkspaceLeft || message is WorkspaceChanged || message is WorkspacePosted || message
            is WorkspaceHistory || message is WorkspaceSubscription || message is
            WorkspaceUnsubscribed || message is Tasks || message is Task || message is TaskHistory
            || message is TaskMutated) ==> row.contains("workspace"@),
        (message is Registered || message is RegisteredOperator || message is WorkspaceJoined ||
            message is WorkspaceChanged) ==> row.contains("cursor"@),
        (message is RegisteredOperator) ==> row.contains("subject"@),
        (message is RegisteredOperator) ==> row.contains("admin"@),
        (message is Pong || message is Error || message is Agents || message is Accepted ||
            message is Deliver || message is Result || message is CancelWork || message is
            WorkIdleAck || message is TaskExecutionStoppedAck || message is WorkspaceCreated ||
            message is Workspaces || message is CredentialIssued || message is Credentials ||
            message is CredentialRevoked || message is Integrations || message is IntegrationChecked
            || message is IntegrationsReloaded || message is ExternalOperation || message is
            ExternalStatus || message is ExternalResolved || message is WorkspaceJoined || message
            is WorkspaceLeft || message is WorkspacePosted || message is WorkspaceHistory || message
            is WorkspaceSubscription || message is WorkspaceUnsubscribed || message is Tasks ||
            message is Task || message is TaskHistory || message is TaskMutated || message is
            RouterStopping) ==> row.contains("requestId"@),
        (message is Error) ==> row.contains("code"@),
        (message is Error || message is TaskMutated) ==> row.contains("operationId"@),
        (message is Error) ==> row.contains("currentVersion"@),
        (message is Agents) ==> row.contains("agents"@),
        (message is Accepted) ==> row.contains("to"@),
        (message is Deliver || message is Result) ==> row.contains("from"@),
        (message is Deliver || message is Result) ==> row.contains("content"@),
        (message is Deliver) ==> row.contains("timeoutMs"@),
        (message is Deliver || message is CancelWork || message is Task || message is
            TaskMutated) ==> row.contains("task"@),
        (message is Result) ==> row.contains("ok"@),
        (message is Result) ==> row.contains("error"@),
        (message is Result || message is TaskExecutionStoppedAck || message is
            TaskAttemptChanged || message is TaskHistory) ==> row.contains("taskId"@),
        (message is CancelWork) ==> row.contains("reason"@),
        (message is WorkIdleAck) ==> row.contains("workRequestId"@),
        (message is TaskExecutionStoppedAck) ==> row.contains("attemptId"@),
        (message is TaskAttemptChanged) ==> row.contains("attempt"@),
        (message is TaskAttemptChanged) ==> row.contains("closedAttemptId"@),
        (message is TaskAttemptChanged) ==> row.contains("current"@),
        (message is TaskAttemptChanged) ==> row.contains("stopPending"@),
        (message is Workspaces) ==> row.contains("workspaces"@),
        (message is Workspaces || message is Credentials || message is WorkspaceHistory ||
            message is WorkspaceSubscription || message is Tasks || message is TaskHistory) ==>
            row.contains("nextCursor"@),
        (message is Workspaces || message is Credentials || message is WorkspaceHistory ||
            message is Tasks || message is TaskHistory) ==> row.contains("hasMore"@),
        (message is CredentialIssued) ==> row.contains("credential"@),
        (message is Credentials) ==> row.contains("credentials"@),
        (message is CredentialRevoked) ==> row.contains("id"@),
        (message is Integrations || message is IntegrationsReloaded) ==>
            row.contains("integrations"@),
        (message is IntegrationChecked) ==> row.contains("integration"@),
        (message is ExternalOperation || message is ExternalStatus || message is
            ExternalResolved) ==> row.contains("operation"@),
        (message is ExternalStatus || message is ExternalResolved) ==> row.contains("resolution"@),
        (message is WorkspacePosted) ==> row.contains("seq"@),
        (message is WorkspaceHistory || message is WorkspaceSubscription || message is
            TaskHistory) ==> row.contains("events"@),
        (message is WorkspaceSubscription) ==> row.contains("live"@),
        (message is WorkspaceEvent) ==> row.contains("event"@),
        (message is Tasks) ==> row.contains("tasks"@),
        (message is TaskMutated) ==> row.contains("appliedVersion"@),
        (message is TaskMutated) ==> row.contains("reportId"@),
{
    answer_kinds_printed();
    assert(row[0] == "type"@);
    match message {
        ServerMessage::Registered { .. } => {
            assert(row.len() == 6);
            assert(row[1] == "protocolVersion"@);
            assert(row[2] == "agent"@);
            assert(row[3] == "role"@);
            assert(row[4] == "workspace"@);
            assert(row[5] == "cursor"@);
        },
        ServerMessage::RegisteredOperator { .. } => {
            assert(row.len() == 6);
            assert(row[1] == "protocolVersion"@);
            assert(row[2] == "subject"@);
            assert(row[3] == "admin"@);
            assert(row[4] == "workspace"@);
            assert(row[5] == "cursor"@);
        },
        ServerMessage::Pong { .. } => {
            assert(row.len() == 2);
            assert(row[1] == "requestId"@);
        },
        ServerMessage::Error { .. } => {
            assert(row.len() == 6);
            assert(row[1] == "requestId"@);
            assert(row[2] == "code"@);
            assert(row[3] == "workspace"@);
            assert(row[4] == "operationId"@);
            assert(row[5] == "currentVersion"@);
        },
        ServerMessage::Agents { .. } => {
            assert(row.len() == 4);
            assert(row[1] == "requestId"@);
            assert(row[2] == "workspace"@);
            assert(row[3] == "agents"@);
        },
        ServerMessage::Accepted { .. } => {
            assert(row.len() == 4);
            assert(row[1] == "requestId"@);
            assert(row[2] == "workspace"@);
            assert(row[3] == "to"@);
        },
        ServerMessage::Deliver { .. } => {
            assert(row.len() == 7);
            assert(row[1] == "workspace"@);
            assert(row[2] == "requestId"@);
            assert(row[3] == "from"@);
            assert(row[4] == "content"@);
            assert(row[5] == "timeoutMs"@);
            assert(row[6] == "task"@);
        },
        ServerMessage::Result { .. } => {
            assert(row.len() == 8);
            assert(row[1] == "workspace"@);
            assert(row[2] == "requestId"@);
            assert(row[3] == "from"@);
            assert(row[4] == "ok"@);
            assert(row[5] == "content"@);
            assert(row[6] == "error"@);
            assert(row[7] == "taskId"@);
        },
        ServerMessage::CancelWork { .. } => {
            assert(row.len() == 5);
            assert(row[1] == "workspace"@);
            assert(row[2] == "requestId"@);
            assert(row[3] == "reason"@);
            assert(row[4] == "task"@);
        },
        ServerMessage::WorkIdleAck { .. } => {
            assert(row.len() == 4);
            assert(row[1] == "requestId"@);
            assert(row[2] == "workspace"@);
            assert(row[3] == "workRequestId"@);
        },
        ServerMessage::TaskExecutionStoppedAck { .. } => {
            assert(row.len() == 5);
            assert(row[1] == "requestId"@);
            assert(row[2] == "workspace"@);
            assert(row[3] == "taskId"@);
            assert(row[4] == "attemptId"@);
        },
        ServerMessage::TaskAttemptChanged { .. } => {
            assert(row.len() == 7);
            assert(row[1] == "workspace"@);
            assert(row[2] == "taskId"@);
            assert(row[3] == "attempt"@);
            assert(row[4] == "closedAttemptId"@);
            assert(row[5] == "current"@);
            assert(row[6] == "stopPending"@);
        },
        ServerMessage::WorkspaceCreated { .. } => {
            assert(row.len() == 3);
            assert(row[1] == "requestId"@);
            assert(row[2] == "workspace"@);
        },
        ServerMessage::Workspaces { .. } => {
            assert(row.len() == 5);
            assert(row[1] == "requestId"@);
            assert(row[2] == "workspaces"@);
            assert(row[3] == "nextCursor"@);
            assert(row[4] == "hasMore"@);
        },
        ServerMessage::CredentialIssued { .. } => {
            assert(row.len() == 3);
            assert(row[1] == "requestId"@);
            assert(row[2] == "credential"@);
        },
        ServerMessage::Credentials { .. } => {
            assert(row.len() == 5);
            assert(row[1] == "requestId"@);
            assert(row[2] == "credentials"@);
            assert(row[3] == "nextCursor"@);
            assert(row[4] == "hasMore"@);
        },
        ServerMessage::CredentialRevoked { .. } => {
            assert(row.len() == 3);
            assert(row[1] == "requestId"@);
            assert(row[2] == "id"@);
        },
        ServerMessage::Integrations { .. } => {
            assert(row.len() == 4);
            assert(row[1] == "requestId"@);
            assert(row[2] == "workspace"@);
            assert(row[3] == "integrations"@);
        },
        ServerMessage::IntegrationChecked { .. } => {
            assert(row.len() == 4);
            assert(row[1] == "requestId"@);
            assert(row[2] == "workspace"@);
            assert(row[3] == "integration"@);
        },
        ServerMessage::IntegrationsReloaded { .. } => {
            assert(row.len() == 3);
            assert(row[1] == "requestId"@);
            assert(row[2] == "integrations"@);
        },
        ServerMessage::ExternalOperation { .. } => {
            assert(row.len() == 4);
            assert(row[1] == "requestId"@);
            assert(row[2] == "workspace"@);
            assert(row[3] == "operation"@);
        },
        ServerMessage::ExternalStatus { .. } => {
            assert(row.len() == 5);
            assert(row[1] == "requestId"@);
            assert(row[2] == "workspace"@);
            assert(row[3] == "operation"@);
            assert(row[4] == "resolution"@);
        },
        ServerMessage::ExternalResolved { .. } => {
            assert(row.len() == 5);
            assert(row[1] == "requestId"@);
            assert(row[2] == "workspace"@);
            assert(row[3] == "operation"@);
            assert(row[4] == "resolution"@);
        },
        ServerMessage::WorkspaceJoined { .. } => {
            assert(row.len() == 4);
            assert(row[1] == "requestId"@);
            assert(row[2] == "workspace"@);
            assert(row[3] == "cursor"@);
        },
        ServerMessage::WorkspaceLeft { .. } => {
            assert(row.len() == 3);
            assert(row[1] == "requestId"@);
            assert(row[2] == "workspace"@);
        },
        ServerMessage::WorkspaceChanged { .. } => {
            assert(row.len() == 3);
            assert(row[1] == "workspace"@);
            assert(row[2] == "cursor"@);
        },
        ServerMessage::WorkspacePosted { .. } => {
            assert(row.len() == 4);
            assert(row[1] == "requestId"@);
            assert(row[2] == "workspace"@);
            assert(row[3] == "seq"@);
        },
        ServerMessage::WorkspaceHistory { .. } => {
            assert(row.len() == 6);
            assert(row[1] == "requestId"@);
            assert(row[2] == "workspace"@);
            assert(row[3] == "events"@);
            assert(row[4] == "nextCursor"@);
            assert(row[5] == "hasMore"@);
        },
        ServerMessage::WorkspaceSubscription { .. } => {
            assert(row.len() == 6);
            assert(row[1] == "requestId"@);
            assert(row[2] == "workspace"@);
            assert(row[3] == "events"@);
            assert(row[4] == "nextCursor"@);
            assert(row[5] == "live"@);
        },
        ServerMessage::WorkspaceEvent { .. } => {
            assert(row.len() == 2);
            assert(row[1] == "event"@);
        },
        ServerMessage::WorkspaceUnsubscribed { .. } => {
            assert(row.len() == 3);
            assert(row[1] == "requestId"@);
            assert(row[2] == "workspace"@);
        },
        ServerMessage::Tasks { .. } => {
            assert(row.len() == 6);
            assert(row[1] == "requestId"@);
            assert(row[2] == "workspace"@);
            assert(row[3] == "tasks"@);
            assert(row[4] == "nextCursor"@);
            assert(row[5] == "hasMore"@);
        },
        ServerMessage::Task { .. } => {
            assert(row.len() == 4);
            assert(row[1] == "requestId"@);
            assert(row[2] == "workspace"@);
            assert(row[3] == "task"@);
        },
        ServerMessage::TaskHistory { .. } => {
            assert(row.len() == 7);
            assert(row[1] == "requestId"@);
            assert(row[2] == "workspace"@);
            assert(row[3] == "taskId"@);
            assert(row[4] == "events"@);
            assert(row[5] == "nextCursor"@);
            assert(row[6] == "hasMore"@);
        },
        ServerMessage::TaskMutated { .. } => {
            assert(row.len() == 7);
            assert(row[1] == "requestId"@);
            assert(row[2] == "workspace"@);
            assert(row[3] == "operationId"@);
            assert(row[4] == "appliedVersion"@);
            assert(row[5] == "reportId"@);
            assert(row[6] == "task"@);
        },
        ServerMessage::RouterStopping { .. } => {
            assert(row.len() == 2);
            assert(row[1] == "requestId"@);
        },
    }
}

/// A message with a field that its kind does not have is refused, and one of a kind without a row;
/// one that bears only its own fields is not, for them.
pub proof fn foreign_fields_are_refused(
    value: Json,
    kind: Seq<char>,
    client: Result<(), RouterErrorCode>,
    server: Result<(), RouterErrorCode>,
    key: Seq<char>,
)
    requires
        call_ensures(check_client_envelope, (&value,), client),
        call_ensures(check_server_envelope, (&value,), server),
        value.model().text_at("type"@) == Some(kind),
    ensures
        client_fields(kind) is None ==> client is Err,
        server_fields(kind) is None ==> server is Err,
        value.model().keys().contains(key) && client_fields(kind) is Some
            && !client_fields(kind)->0.contains(key) ==> client is Err,
        value.model().keys().contains(key) && server_fields(kind) is Some
            && !server_fields(kind)->0.contains(key) ==> server is Err,
        client_fields(kind) is Some && kind != "register"@ && kind != "register_delegate"@ && kind
            != "register_operator"@ && (forall|i: int|
            0 <= i < value.model().keys().len() ==> client_fields(kind)->0.contains(
                #[trigger] value.model().keys()[i],
            )) ==> client is Ok,
        server_fields(kind) is Some && kind != "registered"@ && kind != "registered_operator"@ && (
        forall|i: int|
            0 <= i < value.model().keys().len() ==> server_fields(kind)->0.contains(
                #[trigger] value.model().keys()[i],
            )) ==> server is Ok,
{
    if value.model().keys().contains(key) {
        let i = value.model().keys().index_of(key);
        assert(value.model().keys()[i] == key);
    }
}

} // verus!
