//! The fields that each kind of message may carry.

use vstd::prelude::*;

use crate::json::{member_models, JsonModel, Member};
use crate::protocol::RouterErrorCode;
use crate::text::{is_one_of, same_text};

verus! {

/// The fields of each kind of message that a client sends.
pub open spec fn client_fields(kind: Seq<char>) -> Option<Seq<Seq<char>>> {
    if kind == "register"@ {
        Some(seq![
            "type"@, "protocolVersion"@, "agent"@, "token"@, "delegationToken"@,
        ])
    } else if kind == "register_delegate"@ {
        Some(seq![
            "type"@, "protocolVersion"@, "ownerId"@, "delegationToken"@,
        ])
    } else if kind == "register_operator"@ {
        Some(seq![
            "type"@, "protocolVersion"@, "token"@,
        ])
    } else if kind == "ping"@ || kind == "list"@ || kind == "workspace_leave"@ || kind == "workspace_members"@ || kind == "workspace_unsubscribe"@ || kind == "router_shutdown"@ || kind == "integration_reload"@ {
        Some(seq![
            "type"@, "requestId"@,
        ])
    } else if kind == "readiness"@ {
        Some(seq![
            "type"@, "ready"@,
        ])
    } else if kind == "send"@ {
        Some(seq![
            "type"@, "requestId"@, "to"@, "content"@, "timeoutMs"@,
        ])
    } else if kind == "reply"@ {
        Some(seq![
            "type"@, "requestId"@, "ok"@, "content"@, "error"@,
        ])
    } else if kind == "work_idle"@ {
        Some(seq![
            "type"@, "requestId"@, "workspace"@, "workRequestId"@, "task"@, "ready"@,
        ])
    } else if kind == "task_execution_stopped"@ {
        Some(seq![
            "type"@, "requestId"@, "workspace"@, "taskId"@, "attemptId"@, "endedSessionId"@,
            "evidence"@, "reason"@,
        ])
    } else if kind == "credential_issue"@ {
        Some(seq![
            "type"@, "requestId"@, "role"@, "subject"@, "agentSide"@, "agentClient"@,
            "workspaces"@,
        ])
    } else if kind == "credential_revoke"@ {
        Some(seq![
            "type"@, "requestId"@, "id"@,
        ])
    } else if kind == "workspace_create"@ || kind == "workspace_join"@ {
        Some(seq![
            "type"@, "requestId"@, "name"@,
        ])
    } else if kind == "workspace_list"@ || kind == "workspace_history"@ || kind == "credential_list"@ {
        Some(seq![
            "type"@, "requestId"@, "after"@, "limit"@,
        ])
    } else if kind == "workspace_post"@ {
        Some(seq![
            "type"@, "requestId"@, "content"@,
        ])
    } else if kind == "workspace_subscribe"@ {
        Some(seq![
            "type"@, "requestId"@, "after"@,
        ])
    } else if kind == "task_list"@ {
        Some(seq![
            "type"@, "requestId"@, "workspace"@, "states"@, "assignedAgentId"@, "after"@,
            "limit"@,
        ])
    } else if kind == "task_get"@ {
        Some(seq![
            "type"@, "requestId"@, "workspace"@, "taskId"@,
        ])
    } else if kind == "task_history"@ {
        Some(seq![
            "type"@, "requestId"@, "workspace"@, "taskId"@, "after"@, "limit"@,
        ])
    } else if kind == "task_create"@ {
        Some(seq![
            "type"@, "requestId"@, "workspace"@, "operationId"@, "title"@, "description"@,
        ])
    } else if kind == "task_edit"@ {
        Some(seq![
            "type"@, "requestId"@, "workspace"@, "operationId"@, "taskId"@, "expectedVersion"@,
            "title"@, "description"@,
        ])
    } else if kind == "task_assign"@ {
        Some(seq![
            "type"@, "requestId"@, "workspace"@, "operationId"@, "taskId"@, "expectedVersion"@,
            "agentId"@,
        ])
    } else if kind == "task_note"@ {
        Some(seq![
            "type"@, "requestId"@, "workspace"@, "operationId"@, "taskId"@, "text"@,
        ])
    } else if kind == "task_begin"@ {
        Some(seq![
            "type"@, "requestId"@, "workspace"@, "operationId"@, "taskId"@, "workRequestId"@,
            "expectedVersion"@, "lastCheckpointId"@, "resumeNote"@,
        ])
    } else if kind == "task_checkpoint"@ {
        Some(seq![
            "type"@, "requestId"@, "workspace"@, "operationId"@, "taskId"@, "attemptId"@,
            "expectedVersion"@, "checkpoint"@,
        ])
    } else if kind == "task_pause"@ {
        Some(seq![
            "type"@, "requestId"@, "workspace"@, "operationId"@, "taskId"@, "attemptId"@,
            "expectedVersion"@, "checkpoint"@, "reason"@,
        ])
    } else if kind == "task_complete"@ {
        Some(seq![
            "type"@, "requestId"@, "workspace"@, "operationId"@, "taskId"@, "attemptId"@,
            "expectedVersion"@, "result"@,
        ])
    } else if kind == "task_cancel"@ || kind == "task_reopen"@ || kind == "task_interrupt"@ {
        Some(seq![
            "type"@, "requestId"@, "workspace"@, "operationId"@, "taskId"@, "expectedVersion"@,
            "note"@,
        ])
    } else if kind == "task_confirm_stopped"@ {
        Some(seq![
            "type"@, "requestId"@, "workspace"@, "operationId"@, "taskId"@, "attemptId"@,
            "expectedVersion"@, "note"@,
        ])
    } else if kind == "task_request"@ {
        Some(seq![
            "type"@, "requestId"@, "workspace"@, "taskId"@, "expectedVersion"@, "message"@,
            "timeoutMs"@,
        ])
    } else if kind == "task_import"@ {
        Some(seq![
            "type"@, "requestId"@, "workspace"@, "provider"@, "externalId"@, "operationId"@,
        ])
    } else if kind == "task_link"@ {
        Some(seq![
            "type"@, "requestId"@, "workspace"@, "operationId"@, "taskId"@, "expectedVersion"@,
            "provider"@, "externalId"@, "replace"@,
        ])
    } else if kind == "task_publish"@ {
        Some(seq![
            "type"@, "requestId"@, "workspace"@, "operationId"@, "taskId"@, "expectedVersion"@,
            "provider"@, "kind"@, "reportId"@,
        ])
    } else if kind == "task_external_status"@ {
        Some(seq![
            "type"@, "requestId"@, "workspace"@, "operationId"@,
        ])
    } else if kind == "task_external_resolve"@ {
        Some(seq![
            "type"@, "requestId"@, "workspace"@, "operationId"@, "resolutionId"@, "outcome"@,
            "externalId"@, "note"@,
        ])
    } else if kind == "integration_check"@ {
        Some(seq![
            "type"@, "requestId"@, "workspace"@, "provider"@,
        ])
    } else if kind == "integration_list"@ {
        Some(seq![
            "type"@, "requestId"@, "workspace"@,
        ])
    } else {
        None
    }
}

/// The fields of each kind of message that the router sends.
pub open spec fn server_fields(kind: Seq<char>) -> Option<Seq<Seq<char>>> {
    if kind == "registered"@ {
        Some(seq![
            "type"@, "protocolVersion"@, "agent"@, "role"@, "workspace"@, "cursor"@,
        ])
    } else if kind == "registered_operator"@ {
        Some(seq![
            "type"@, "protocolVersion"@, "subject"@, "admin"@, "workspace"@, "cursor"@,
        ])
    } else if kind == "pong"@ || kind == "router_stopping"@ {
        Some(seq![
            "type"@, "requestId"@,
        ])
    } else if kind == "error"@ {
        Some(seq![
            "type"@, "requestId"@, "code"@, "workspace"@, "operationId"@, "currentVersion"@,
        ])
    } else if kind == "agents"@ {
        Some(seq![
            "type"@, "requestId"@, "workspace"@, "agents"@,
        ])
    } else if kind == "accepted"@ {
        Some(seq![
            "type"@, "requestId"@, "workspace"@, "to"@,
        ])
    } else if kind == "deliver"@ {
        Some(seq![
            "type"@, "workspace"@, "requestId"@, "from"@, "content"@, "timeoutMs"@, "task"@,
        ])
    } else if kind == "cancel_work"@ {
        Some(seq![
            "type"@, "workspace"@, "requestId"@, "reason"@, "task"@,
        ])
    } else if kind == "work_idle_ack"@ {
        Some(seq![
            "type"@, "requestId"@, "workspace"@, "workRequestId"@,
        ])
    } else if kind == "task_execution_stopped_ack"@ {
        Some(seq![
            "type"@, "requestId"@, "workspace"@, "taskId"@, "attemptId"@,
        ])
    } else if kind == "task_attempt_changed"@ {
        Some(seq![
            "type"@, "workspace"@, "taskId"@, "attempt"@, "closedAttemptId"@, "current"@,
            "stopPending"@,
        ])
    } else if kind == "credential_issued"@ {
        Some(seq![
            "type"@, "requestId"@, "credential"@,
        ])
    } else if kind == "credentials"@ {
        Some(seq![
            "type"@, "requestId"@, "credentials"@, "nextCursor"@, "hasMore"@,
        ])
    } else if kind == "credential_revoked"@ {
        Some(seq![
            "type"@, "requestId"@, "id"@,
        ])
    } else if kind == "result"@ {
        Some(seq![
            "type"@, "workspace"@, "requestId"@, "from"@, "ok"@, "content"@, "error"@, "taskId"@,
        ])
    } else if kind == "workspace_created"@ || kind == "workspace_left"@ || kind == "workspace_unsubscribed"@ {
        Some(seq![
            "type"@, "requestId"@, "workspace"@,
        ])
    } else if kind == "workspaces"@ {
        Some(seq![
            "type"@, "requestId"@, "workspaces"@, "nextCursor"@, "hasMore"@,
        ])
    } else if kind == "integrations"@ {
        Some(seq![
            "type"@, "requestId"@, "workspace"@, "integrations"@,
        ])
    } else if kind == "integration_checked"@ {
        Some(seq![
            "type"@, "requestId"@, "workspace"@, "integration"@,
        ])
    } else if kind == "integrations_reloaded"@ {
        Some(seq![
            "type"@, "requestId"@, "integrations"@,
        ])
    } else if kind == "external_operation"@ {
        Some(seq![
            "type"@, "requestId"@, "workspace"@, "operation"@,
        ])
    } else if kind == "external_status"@ || kind == "external_resolved"@ {
        Some(seq![
            "type"@, "requestId"@, "workspace"@, "operation"@, "resolution"@,
        ])
    } else if kind == "workspace_joined"@ {
        Some(seq![
            "type"@, "requestId"@, "workspace"@, "cursor"@,
        ])
    } else if kind == "workspace_changed"@ {
        Some(seq![
            "type"@, "workspace"@, "cursor"@,
        ])
    } else if kind == "workspace_posted"@ {
        Some(seq![
            "type"@, "requestId"@, "workspace"@, "seq"@,
        ])
    } else if kind == "workspace_history"@ {
        Some(seq![
            "type"@, "requestId"@, "workspace"@, "events"@, "nextCursor"@, "hasMore"@,
        ])
    } else if kind == "workspace_subscription"@ {
        Some(seq![
            "type"@, "requestId"@, "workspace"@, "events"@, "nextCursor"@, "live"@,
        ])
    } else if kind == "workspace_event"@ {
        Some(seq![
            "type"@, "event"@,
        ])
    } else if kind == "tasks"@ {
        Some(seq![
            "type"@, "requestId"@, "workspace"@, "tasks"@, "nextCursor"@, "hasMore"@,
        ])
    } else if kind == "task"@ {
        Some(seq![
            "type"@, "requestId"@, "workspace"@, "task"@,
        ])
    } else if kind == "task_history"@ {
        Some(seq![
            "type"@, "requestId"@, "workspace"@, "taskId"@, "events"@, "nextCursor"@, "hasMore"@,
        ])
    } else if kind == "task_mutated"@ {
        Some(seq![
            "type"@, "requestId"@, "workspace"@, "operationId"@, "appliedVersion"@, "reportId"@,
            "task"@,
        ])
    } else {
        None
    }
}

/// Every key of an object stands in a list of fields.
pub open spec fn keys_among(keys: Seq<Seq<char>>, fields: Seq<Seq<char>>) -> bool {
    forall|i: int| 0 <= i < keys.len() ==> fields.contains(#[trigger] keys[i])
}

/// The kind of message is known and the object carries no field that it does not have.
pub open spec fn only_known_fields(
    fields: Option<Seq<Seq<char>>>,
    keys: Seq<Seq<char>>,
) -> bool {
    fields matches Some(list) && keys_among(keys, list)
}

/// The fields of a kind of client message.
fn client_field_list(kind: &str) -> (fields: Option<Vec<&'static str>>)
    ensures
        (match fields {
            Some(list) => Some(list@.map_values(|s: &'static str| s@)),
            None => None,
        }) == client_fields(kind@),
{
    let fields: Vec<&'static str>;
    if same_text(kind, "register") {
        fields = vec![
            "type", "protocolVersion", "agent", "token", "delegationToken",
        ];
        assert(fields@.map_values(|s: &'static str| s@) =~= seq![
            "type"@, "protocolVersion"@, "agent"@, "token"@, "delegationToken"@,
        ]);
    } else if same_text(kind, "register_delegate") {
        fields = vec![
            "type", "protocolVersion", "ownerId", "delegationToken",
        ];
        assert(fields@.map_values(|s: &'static str| s@) =~= seq![
            "type"@, "protocolVersion"@, "ownerId"@, "delegationToken"@,
        ]);
    } else if same_text(kind, "register_operator") {
        fields = vec![
            "type", "protocolVersion", "token",
        ];
        assert(fields@.map_values(|s: &'static str| s@) =~= seq![
            "type"@, "protocolVersion"@, "token"@,
        ]);
    } else if same_text(kind, "ping") || same_text(kind, "list") || same_text(kind, "workspace_leave") || same_text(kind, "workspace_members") || same_text(kind, "workspace_unsubscribe") || same_text(kind, "router_shutdown") || same_text(kind, "integration_reload") {
        fields = vec![
            "type", "requestId",
        ];
        assert(fields@.map_values(|s: &'static str| s@) =~= seq![
            "type"@, "requestId"@,
        ]);
    } else if same_text(kind, "readiness") {
        fields = vec![
            "type", "ready",
        ];
        assert(fields@.map_values(|s: &'static str| s@) =~= seq![
            "type"@, "ready"@,
        ]);
    } else if same_text(kind, "send") {
        fields = vec![
            "type", "requestId", "to", "content", "timeoutMs",
        ];
        assert(fields@.map_values(|s: &'static str| s@) =~= seq![
            "type"@, "requestId"@, "to"@, "content"@, "timeoutMs"@,
        ]);
    } else if same_text(kind, "reply") {
        fields = vec![
            "type", "requestId", "ok", "content", "error",
        ];
        assert(fields@.map_values(|s: &'static str| s@) =~= seq![
            "type"@, "requestId"@, "ok"@, "content"@, "error"@,
        ]);
    } else if same_text(kind, "work_idle") {
        fields = vec![
            "type", "requestId", "workspace", "workRequestId", "task", "ready",
        ];
        assert(fields@.map_values(|s: &'static str| s@) =~= seq![
            "type"@, "requestId"@, "workspace"@, "workRequestId"@, "task"@, "ready"@,
        ]);
    } else if same_text(kind, "task_execution_stopped") {
        fields = vec![
            "type", "requestId", "workspace", "taskId", "attemptId", "endedSessionId",
            "evidence", "reason",
        ];
        assert(fields@.map_values(|s: &'static str| s@) =~= seq![
            "type"@, "requestId"@, "workspace"@, "taskId"@, "attemptId"@, "endedSessionId"@,
            "evidence"@, "reason"@,
        ]);
    } else if same_text(kind, "credential_issue") {
        fields = vec![
            "type", "requestId", "role", "subject", "agentSide", "agentClient", "workspaces",
        ];
        assert(fields@.map_values(|s: &'static str| s@) =~= seq![
            "type"@, "requestId"@, "role"@, "subject"@, "agentSide"@, "agentClient"@,
            "workspaces"@,
        ]);
    } else if same_text(kind, "credential_revoke") {
        fields = vec![
            "type", "requestId", "id",
        ];
        assert(fields@.map_values(|s: &'static str| s@) =~= seq![
            "type"@, "requestId"@, "id"@,
        ]);
    } else if same_text(kind, "workspace_create") || same_text(kind, "workspace_join") {
        fields = vec![
            "type", "requestId", "name",
        ];
        assert(fields@.map_values(|s: &'static str| s@) =~= seq![
            "type"@, "requestId"@, "name"@,
        ]);
    } else if same_text(kind, "workspace_list") || same_text(kind, "workspace_history") || same_text(kind, "credential_list") {
        fields = vec![
            "type", "requestId", "after", "limit",
        ];
        assert(fields@.map_values(|s: &'static str| s@) =~= seq![
            "type"@, "requestId"@, "after"@, "limit"@,
        ]);
    } else if same_text(kind, "workspace_post") {
        fields = vec![
            "type", "requestId", "content",
        ];
        assert(fields@.map_values(|s: &'static str| s@) =~= seq![
            "type"@, "requestId"@, "content"@,
        ]);
    } else if same_text(kind, "workspace_subscribe") {
        fields = vec![
            "type", "requestId", "after",
        ];
        assert(fields@.map_values(|s: &'static str| s@) =~= seq![
            "type"@, "requestId"@, "after"@,
        ]);
    } else if same_text(kind, "task_list") {
        fields = vec![
            "type", "requestId", "workspace", "states", "assignedAgentId", "after", "limit",
        ];
        assert(fields@.map_values(|s: &'static str| s@) =~= seq![
            "type"@, "requestId"@, "workspace"@, "states"@, "assignedAgentId"@, "after"@,
            "limit"@,
        ]);
    } else if same_text(kind, "task_get") {
        fields = vec![
            "type", "requestId", "workspace", "taskId",
        ];
        assert(fields@.map_values(|s: &'static str| s@) =~= seq![
            "type"@, "requestId"@, "workspace"@, "taskId"@,
        ]);
    } else if same_text(kind, "task_history") {
        fields = vec![
            "type", "requestId", "workspace", "taskId", "after", "limit",
        ];
        assert(fields@.map_values(|s: &'static str| s@) =~= seq![
            "type"@, "requestId"@, "workspace"@, "taskId"@, "after"@, "limit"@,
        ]);
    } else if same_text(kind, "task_create") {
        fields = vec![
            "type", "requestId", "workspace", "operationId", "title", "description",
        ];
        assert(fields@.map_values(|s: &'static str| s@) =~= seq![
            "type"@, "requestId"@, "workspace"@, "operationId"@, "title"@, "description"@,
        ]);
    } else if same_text(kind, "task_edit") {
        fields = vec![
            "type", "requestId", "workspace", "operationId", "taskId", "expectedVersion",
            "title", "description",
        ];
        assert(fields@.map_values(|s: &'static str| s@) =~= seq![
            "type"@, "requestId"@, "workspace"@, "operationId"@, "taskId"@, "expectedVersion"@,
            "title"@, "description"@,
        ]);
    } else if same_text(kind, "task_assign") {
        fields = vec![
            "type", "requestId", "workspace", "operationId", "taskId", "expectedVersion",
            "agentId",
        ];
        assert(fields@.map_values(|s: &'static str| s@) =~= seq![
            "type"@, "requestId"@, "workspace"@, "operationId"@, "taskId"@, "expectedVersion"@,
            "agentId"@,
        ]);
    } else if same_text(kind, "task_note") {
        fields = vec![
            "type", "requestId", "workspace", "operationId", "taskId", "text",
        ];
        assert(fields@.map_values(|s: &'static str| s@) =~= seq![
            "type"@, "requestId"@, "workspace"@, "operationId"@, "taskId"@, "text"@,
        ]);
    } else if same_text(kind, "task_begin") {
        fields = vec![
            "type", "requestId", "workspace", "operationId", "taskId", "workRequestId",
            "expectedVersion", "lastCheckpointId", "resumeNote",
        ];
        assert(fields@.map_values(|s: &'static str| s@) =~= seq![
            "type"@, "requestId"@, "workspace"@, "operationId"@, "taskId"@, "workRequestId"@,
            "expectedVersion"@, "lastCheckpointId"@, "resumeNote"@,
        ]);
    } else if same_text(kind, "task_checkpoint") {
        fields = vec![
            "type", "requestId", "workspace", "operationId", "taskId", "attemptId",
            "expectedVersion", "checkpoint",
        ];
        assert(fields@.map_values(|s: &'static str| s@) =~= seq![
            "type"@, "requestId"@, "workspace"@, "operationId"@, "taskId"@, "attemptId"@,
            "expectedVersion"@, "checkpoint"@,
        ]);
    } else if same_text(kind, "task_pause") {
        fields = vec![
            "type", "requestId", "workspace", "operationId", "taskId", "attemptId",
            "expectedVersion", "checkpoint", "reason",
        ];
        assert(fields@.map_values(|s: &'static str| s@) =~= seq![
            "type"@, "requestId"@, "workspace"@, "operationId"@, "taskId"@, "attemptId"@,
            "expectedVersion"@, "checkpoint"@, "reason"@,
        ]);
    } else if same_text(kind, "task_complete") {
        fields = vec![
            "type", "requestId", "workspace", "operationId", "taskId", "attemptId",
            "expectedVersion", "result",
        ];
        assert(fields@.map_values(|s: &'static str| s@) =~= seq![
            "type"@, "requestId"@, "workspace"@, "operationId"@, "taskId"@, "attemptId"@,
            "expectedVersion"@, "result"@,
        ]);
    } else if same_text(kind, "task_cancel") || same_text(kind, "task_reopen") || same_text(kind, "task_interrupt") {
        fields = vec![
            "type", "requestId", "workspace", "operationId", "taskId", "expectedVersion", "note",
        ];
        assert(fields@.map_values(|s: &'static str| s@) =~= seq![
            "type"@, "requestId"@, "workspace"@, "operationId"@, "taskId"@, "expectedVersion"@,
            "note"@,
        ]);
    } else if same_text(kind, "task_confirm_stopped") {
        fields = vec![
            "type", "requestId", "workspace", "operationId", "taskId", "attemptId",
            "expectedVersion", "note",
        ];
        assert(fields@.map_values(|s: &'static str| s@) =~= seq![
            "type"@, "requestId"@, "workspace"@, "operationId"@, "taskId"@, "attemptId"@,
            "expectedVersion"@, "note"@,
        ]);
    } else if same_text(kind, "task_request") {
        fields = vec![
            "type", "requestId", "workspace", "taskId", "expectedVersion", "message",
            "timeoutMs",
        ];
        assert(fields@.map_values(|s: &'static str| s@) =~= seq![
            "type"@, "requestId"@, "workspace"@, "taskId"@, "expectedVersion"@, "message"@,
            "timeoutMs"@,
        ]);
    } else if same_text(kind, "task_import") {
        fields = vec![
            "type", "requestId", "workspace", "provider", "externalId", "operationId",
        ];
        assert(fields@.map_values(|s: &'static str| s@) =~= seq![
            "type"@, "requestId"@, "workspace"@, "provider"@, "externalId"@, "operationId"@,
        ]);
    } else if same_text(kind, "task_link") {
        fields = vec![
            "type", "requestId", "workspace", "operationId", "taskId", "expectedVersion",
            "provider", "externalId", "replace",
        ];
        assert(fields@.map_values(|s: &'static str| s@) =~= seq![
            "type"@, "requestId"@, "workspace"@, "operationId"@, "taskId"@, "expectedVersion"@,
            "provider"@, "externalId"@, "replace"@,
        ]);
    } else if same_text(kind, "task_publish") {
        fields = vec![
            "type", "requestId", "workspace", "operationId", "taskId", "expectedVersion",
            "provider", "kind", "reportId",
        ];
        assert(fields@.map_values(|s: &'static str| s@) =~= seq![
            "type"@, "requestId"@, "workspace"@, "operationId"@, "taskId"@, "expectedVersion"@,
            "provider"@, "kind"@, "reportId"@,
        ]);
    } else if same_text(kind, "task_external_status") {
        fields = vec![
            "type", "requestId", "workspace", "operationId",
        ];
        assert(fields@.map_values(|s: &'static str| s@) =~= seq![
            "type"@, "requestId"@, "workspace"@, "operationId"@,
        ]);
    } else if same_text(kind, "task_external_resolve") {
        fields = vec![
            "type", "requestId", "workspace", "operationId", "resolutionId", "outcome",
            "externalId", "note",
        ];
        assert(fields@.map_values(|s: &'static str| s@) =~= seq![
            "type"@, "requestId"@, "workspace"@, "operationId"@, "resolutionId"@, "outcome"@,
            "externalId"@, "note"@,
        ]);
    } else if same_text(kind, "integration_check") {
        fields = vec![
            "type", "requestId", "workspace", "provider",
        ];
        assert(fields@.map_values(|s: &'static str| s@) =~= seq![
            "type"@, "requestId"@, "workspace"@, "provider"@,
        ]);
    } else if same_text(kind, "integration_list") {
        fields = vec![
            "type", "requestId", "workspace",
        ];
        assert(fields@.map_values(|s: &'static str| s@) =~= seq![
            "type"@, "requestId"@, "workspace"@,
        ]);
    } else {
        return None;
    }
    Some(fields)
}

/// The fields of a kind of router message.
fn server_field_list(kind: &str) -> (fields: Option<Vec<&'static str>>)
    ensures
        (match fields {
            Some(list) => Some(list@.map_values(|s: &'static str| s@)),
            None => None,
        }) == server_fields(kind@),
{
    let fields: Vec<&'static str>;
    if same_text(kind, "registered") {
        fields = vec![
            "type", "protocolVersion", "agent", "role", "workspace", "cursor",
        ];
        assert(fields@.map_values(|s: &'static str| s@) =~= seq![
            "type"@, "protocolVersion"@, "agent"@, "role"@, "workspace"@, "cursor"@,
        ]);
    } else if same_text(kind, "registered_operator") {
        fields = vec![
            "type", "protocolVersion", "subject", "admin", "workspace", "cursor",
        ];
        assert(fields@.map_values(|s: &'static str| s@) =~= seq![
            "type"@, "protocolVersion"@, "subject"@, "admin"@, "workspace"@, "cursor"@,
        ]);
    } else if same_text(kind, "pong") || same_text(kind, "router_stopping") {
        fields = vec![
            "type", "requestId",
        ];
        assert(fields@.map_values(|s: &'static str| s@) =~= seq![
            "type"@, "requestId"@,
        ]);
    } else if same_text(kind, "error") {
        fields = vec![
            "type", "requestId", "code", "workspace", "operationId", "currentVersion",
        ];
        assert(fields@.map_values(|s: &'static str| s@) =~= seq![
            "type"@, "requestId"@, "code"@, "workspace"@, "operationId"@, "currentVersion"@,
        ]);
    } else if same_text(kind, "agents") {
        fields = vec![
            "type", "requestId", "workspace", "agents",
        ];
        assert(fields@.map_values(|s: &'static str| s@) =~= seq![
            "type"@, "requestId"@, "workspace"@, "agents"@,
        ]);
    } else if same_text(kind, "accepted") {
        fields = vec![
            "type", "requestId", "workspace", "to",
        ];
        assert(fields@.map_values(|s: &'static str| s@) =~= seq![
            "type"@, "requestId"@, "workspace"@, "to"@,
        ]);
    } else if same_text(kind, "deliver") {
        fields = vec![
            "type", "workspace", "requestId", "from", "content", "timeoutMs", "task",
        ];
        assert(fields@.map_values(|s: &'static str| s@) =~= seq![
            "type"@, "workspace"@, "requestId"@, "from"@, "content"@, "timeoutMs"@, "task"@,
        ]);
    } else if same_text(kind, "cancel_work") {
        fields = vec![
            "type", "workspace", "requestId", "reason", "task",
        ];
        assert(fields@.map_values(|s: &'static str| s@) =~= seq![
            "type"@, "workspace"@, "requestId"@, "reason"@, "task"@,
        ]);
    } else if same_text(kind, "work_idle_ack") {
        fields = vec![
            "type", "requestId", "workspace", "workRequestId",
        ];
        assert(fields@.map_values(|s: &'static str| s@) =~= seq![
            "type"@, "requestId"@, "workspace"@, "workRequestId"@,
        ]);
    } else if same_text(kind, "task_execution_stopped_ack") {
        fields = vec![
            "type", "requestId", "workspace", "taskId", "attemptId",
        ];
        assert(fields@.map_values(|s: &'static str| s@) =~= seq![
            "type"@, "requestId"@, "workspace"@, "taskId"@, "attemptId"@,
        ]);
    } else if same_text(kind, "task_attempt_changed") {
        fields = vec![
            "type", "workspace", "taskId", "attempt", "closedAttemptId", "current",
            "stopPending",
        ];
        assert(fields@.map_values(|s: &'static str| s@) =~= seq![
            "type"@, "workspace"@, "taskId"@, "attempt"@, "closedAttemptId"@, "current"@,
            "stopPending"@,
        ]);
    } else if same_text(kind, "credential_issued") {
        fields = vec![
            "type", "requestId", "credential",
        ];
        assert(fields@.map_values(|s: &'static str| s@) =~= seq![
            "type"@, "requestId"@, "credential"@,
        ]);
    } else if same_text(kind, "credentials") {
        fields = vec![
            "type", "requestId", "credentials", "nextCursor", "hasMore",
        ];
        assert(fields@.map_values(|s: &'static str| s@) =~= seq![
            "type"@, "requestId"@, "credentials"@, "nextCursor"@, "hasMore"@,
        ]);
    } else if same_text(kind, "credential_revoked") {
        fields = vec![
            "type", "requestId", "id",
        ];
        assert(fields@.map_values(|s: &'static str| s@) =~= seq![
            "type"@, "requestId"@, "id"@,
        ]);
    } else if same_text(kind, "result") {
        fields = vec![
            "type", "workspace", "requestId", "from", "ok", "content", "error", "taskId",
        ];
        assert(fields@.map_values(|s: &'static str| s@) =~= seq![
            "type"@, "workspace"@, "requestId"@, "from"@, "ok"@, "content"@, "error"@, "taskId"@,
        ]);
    } else if same_text(kind, "workspace_created") || same_text(kind, "workspace_left") || same_text(kind, "workspace_unsubscribed") {
        fields = vec![
            "type", "requestId", "workspace",
        ];
        assert(fields@.map_values(|s: &'static str| s@) =~= seq![
            "type"@, "requestId"@, "workspace"@,
        ]);
    } else if same_text(kind, "workspaces") {
        fields = vec![
            "type", "requestId", "workspaces", "nextCursor", "hasMore",
        ];
        assert(fields@.map_values(|s: &'static str| s@) =~= seq![
            "type"@, "requestId"@, "workspaces"@, "nextCursor"@, "hasMore"@,
        ]);
    } else if same_text(kind, "integrations") {
        fields = vec![
            "type", "requestId", "workspace", "integrations",
        ];
        assert(fields@.map_values(|s: &'static str| s@) =~= seq![
            "type"@, "requestId"@, "workspace"@, "integrations"@,
        ]);
    } else if same_text(kind, "integration_checked") {
        fields = vec![
            "type", "requestId", "workspace", "integration",
        ];
        assert(fields@.map_values(|s: &'static str| s@) =~= seq![
            "type"@, "requestId"@, "workspace"@, "integration"@,
        ]);
    } else if same_text(kind, "integrations_reloaded") {
        fields = vec![
            "type", "requestId", "integrations",
        ];
        assert(fields@.map_values(|s: &'static str| s@) =~= seq![
            "type"@, "requestId"@, "integrations"@,
        ]);
    } else if same_text(kind, "external_operation") {
        fields = vec![
            "type", "requestId", "workspace", "operation",
        ];
        assert(fields@.map_values(|s: &'static str| s@) =~= seq![
            "type"@, "requestId"@, "workspace"@, "operation"@,
        ]);
    } else if same_text(kind, "external_status") || same_text(kind, "external_resolved") {
        fields = vec![
            "type", "requestId", "workspace", "operation", "resolution",
        ];
        assert(fields@.map_values(|s: &'static str| s@) =~= seq![
            "type"@, "requestId"@, "workspace"@, "operation"@, "resolution"@,
        ]);
    } else if same_text(kind, "workspace_joined") {
        fields = vec![
            "type", "requestId", "workspace", "cursor",
        ];
        assert(fields@.map_values(|s: &'static str| s@) =~= seq![
            "type"@, "requestId"@, "workspace"@, "cursor"@,
        ]);
    } else if same_text(kind, "workspace_changed") {
        fields = vec![
            "type", "workspace", "cursor",
        ];
        assert(fields@.map_values(|s: &'static str| s@) =~= seq![
            "type"@, "workspace"@, "cursor"@,
        ]);
    } else if same_text(kind, "workspace_posted") {
        fields = vec![
            "type", "requestId", "workspace", "seq",
        ];
        assert(fields@.map_values(|s: &'static str| s@) =~= seq![
            "type"@, "requestId"@, "workspace"@, "seq"@,
        ]);
    } else if same_text(kind, "workspace_history") {
        fields = vec![
            "type", "requestId", "workspace", "events", "nextCursor", "hasMore",
        ];
        assert(fields@.map_values(|s: &'static str| s@) =~= seq![
            "type"@, "requestId"@, "workspace"@, "events"@, "nextCursor"@, "hasMore"@,
        ]);
    } else if same_text(kind, "workspace_subscription") {
        fields = vec![
            "type", "requestId", "workspace", "events", "nextCursor", "live",
        ];
        assert(fields@.map_values(|s: &'static str| s@) =~= seq![
            "type"@, "requestId"@, "workspace"@, "events"@, "nextCursor"@, "live"@,
        ]);
    } else if same_text(kind, "workspace_event") {
        fields = vec![
            "type", "event",
        ];
        assert(fields@.map_values(|s: &'static str| s@) =~= seq![
            "type"@, "event"@,
        ]);
    } else if same_text(kind, "tasks") {
        fields = vec![
            "type", "requestId", "workspace", "tasks", "nextCursor", "hasMore",
        ];
        assert(fields@.map_values(|s: &'static str| s@) =~= seq![
            "type"@, "requestId"@, "workspace"@, "tasks"@, "nextCursor"@, "hasMore"@,
        ]);
    } else if same_text(kind, "task") {
        fields = vec![
            "type", "requestId", "workspace", "task",
        ];
        assert(fields@.map_values(|s: &'static str| s@) =~= seq![
            "type"@, "requestId"@, "workspace"@, "task"@,
        ]);
    } else if same_text(kind, "task_history") {
        fields = vec![
            "type", "requestId", "workspace", "taskId", "events", "nextCursor", "hasMore",
        ];
        assert(fields@.map_values(|s: &'static str| s@) =~= seq![
            "type"@, "requestId"@, "workspace"@, "taskId"@, "events"@, "nextCursor"@, "hasMore"@,
        ]);
    } else if same_text(kind, "task_mutated") {
        fields = vec![
            "type", "requestId", "workspace", "operationId", "appliedVersion", "reportId",
            "task",
        ];
        assert(fields@.map_values(|s: &'static str| s@) =~= seq![
            "type"@, "requestId"@, "workspace"@, "operationId"@, "appliedVersion"@, "reportId"@,
            "task"@,
        ]);
    } else {
        return None;
    }
    Some(fields)
}

/// Whether every key of an object stands in a list of fields.
fn all_known(members: &Vec<Member>, fields: &Vec<&'static str>) -> (yes: bool)
    ensures
        yes == keys_among(
            JsonModel::Object(member_models(members@)).keys(),
            fields@.map_values(|s: &'static str| s@),
        ),
{
    let ghost keys = JsonModel::Object(member_models(members@)).keys();
    let ghost list = fields@.map_values(|s: &'static str| s@);
    let mut i: usize = 0;
    while i < members.len()
        invariant
            i <= members.len(),
            keys == JsonModel::Object(member_models(members@)).keys(),
            list == fields@.map_values(|s: &'static str| s@),
            forall|j: int| 0 <= j < i ==> list.contains(#[trigger] keys[j]),
        decreases members.len() - i,
    {
        assert(keys[i as int] == members[i as int].key@);
        let known = is_one_of(members[i].key.as_str(), fields.as_slice());
        assert(known == list.contains(keys[i as int]));
        if !known {
            return false;
        }
        i += 1;
    }
    true
}

/// Refuses a client message of an unknown kind, or with a field that its kind does not
/// have.
pub fn validate_unknown_fields(kind: &str, members: &Vec<Member>) -> (verdict: Result<
    (),
    RouterErrorCode,
>)
    ensures
        verdict == if only_known_fields(
            client_fields(kind@),
            JsonModel::Object(member_models(members@)).keys(),
        ) {
            Ok::<(), RouterErrorCode>(())
        } else {
            Err(RouterErrorCode::InvalidMessage)
        },
{
    match client_field_list(kind) {
        Some(fields) if all_known(members, &fields) => Ok(()),
        _ => Err(RouterErrorCode::InvalidMessage),
    }
}

/// Refuses a router message of an unknown kind, or with a field that its kind does not
/// have.
pub fn validate_server_unknown_fields(kind: &str, members: &Vec<Member>) -> (verdict: Result<
    (),
    RouterErrorCode,
>)
    ensures
        verdict == if only_known_fields(
            server_fields(kind@),
            JsonModel::Object(member_models(members@)).keys(),
        ) {
            Ok::<(), RouterErrorCode>(())
        } else {
            Err(RouterErrorCode::InvalidMessage)
        },
{
    match server_field_list(kind) {
        Some(fields) if all_known(members, &fields) => Ok(()),
        _ => Err(RouterErrorCode::InvalidMessage),
    }
}

} // verus!
