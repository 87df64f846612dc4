//! What holds of the protocol as a whole.

use vstd::prelude::*;

use crate::json::JsonModel;
use crate::protocol::client::{client_envelope_fault, client_frame_fault, opens_session, ClientMessage};
use crate::protocol::fields::client_fields;
use crate::protocol::{
    actor_id, agent_id, code_text, request_id, reserved_id, workspace_name, RouterErrorCode,
    MAX_WEBSOCKET_MESSAGE_BYTES, PROTOCOL_VERSION,
};
use crate::text::byte_length;

verus! {

/// Every workspace name is a request identifier.
pub proof fn workspace_names_are_request_ids(value: Seq<char>)
    requires
        workspace_name(value),
    ensures
        request_id(value),
{
}

/// Every agent identifier is a request identifier and names an actor, and none lies in
/// the namespaces of operators and of the system.
pub proof fn agent_ids_are_actors(value: Seq<char>)
    requires
        agent_id(value),
    ensures
        request_id(value),
        actor_id(value),
        !reserved_id(value),
{
    assert forall|i: int| 0 <= i < value.len() implies '\0' <= #[trigger] value[i] <= '\u{7f}' by {}
}

/// A session of another protocol version is refused as such, whatever else its first
/// message carries.
pub proof fn version_is_checked_first(value: JsonModel, kind: Seq<char>)
    requires
        value.text_at("type"@) == Some(kind),
        opens_session(kind),
        value.at("protocolVersion"@).unsigned() != Some(PROTOCOL_VERSION as u64),
    ensures
        client_envelope_fault(value) == Some(RouterErrorCode::ProtocolMismatch),
{
}

/// A frame beyond the size limit is refused for its size, whatever it holds.
pub proof fn size_is_checked_first(raw: Seq<char>)
    requires
        byte_length(raw) > MAX_WEBSOCKET_MESSAGE_BYTES,
    ensures
        client_frame_fault(raw) == Some(RouterErrorCode::MessageTooLarge),
{
}

/// A number by which the texts of the error codes differ.
spec fn code_print(text: Seq<char>) -> int {
    1000000 * text.len() + 1000 * (text[0] as int) + text[text.len() - 4] as int
}

spec fn code_number(code: RouterErrorCode) -> int {
    match code {
        RouterErrorCode::InvalidMessage => 15105115,
        RouterErrorCode::ProtocolMismatch => 17112097,
        RouterErrorCode::Unauthorized => 12117105,
        RouterErrorCode::NotRegistered => 14110101,
        RouterErrorCode::AgentConflict => 14097108,
        RouterErrorCode::TargetOffline => 14116108,
        RouterErrorCode::TargetNotReady => 16116101,
        RouterErrorCode::RequestConflict => 16114108,
        RouterErrorCode::RequestNotFound => 17114111,
        RouterErrorCode::ReplyForbidden => 15114100,
        RouterErrorCode::TargetDisconnected => 19116099,
        RouterErrorCode::RequesterDisconnected => 22114099,
        RouterErrorCode::RequestTimeout => 15114101,
        RouterErrorCode::RequestCancelled => 17114108,
        RouterErrorCode::WorkspaceRequired => 18119105,
        RouterErrorCode::WorkspaceNotFound => 19119111,
        RouterErrorCode::WorkspaceConflict => 18119108,
        RouterErrorCode::WorkspaceAlreadyJoined => 24119105,
        RouterErrorCode::WorkspaceBusy => 14119098,
        RouterErrorCode::WorkspaceMismatch => 18119097,
        RouterErrorCode::PermissionDenied => 17112110,
        RouterErrorCode::MessageTooLarge => 17109097,
        RouterErrorCode::RateLimited => 12114105,
        RouterErrorCode::StorageError => 13115114,
        RouterErrorCode::StoreInUse => 12115095,
        RouterErrorCode::ConfigurationRequired => 22099105,
        RouterErrorCode::RouterRestarted => 16114114,
        RouterErrorCode::SessionBusy => 12115098,
        RouterErrorCode::ProviderError => 14112114,
        RouterErrorCode::ProviderNotReady => 18112101,
        RouterErrorCode::ProviderDisconnected => 21112099,
        RouterErrorCode::ReplyMissing => 13114115,
        RouterErrorCode::TaskNotFound => 14116111,
        RouterErrorCode::TaskConflict => 13116108,
        RouterErrorCode::TaskNotAssigned => 17116103,
        RouterErrorCode::TaskActive => 11116116,
        RouterErrorCode::TaskStaleAttempt => 18116101,
        RouterErrorCode::TaskStopUnconfirmed => 21116114,
        RouterErrorCode::TaskInvalidTransition => 23116116,
        RouterErrorCode::TaskInterrupted => 16116112,
        RouterErrorCode::IntegrationNotConfigured => 26105117,
        RouterErrorCode::IntegrationBusy => 16105098,
        RouterErrorCode::IntegrationError => 17105114,
        RouterErrorCode::ExternalUnconfirmed => 20101114,
        RouterErrorCode::ExternalConflict => 17101108,
        RouterErrorCode::IntegrationConfigurationInvalid => 33105097,
        RouterErrorCode::SessionAdapterFailed => 22115105,
        RouterErrorCode::ClaudeProtocolError => 21099114,
        RouterErrorCode::ClaudeNoResult => 16099115,
        RouterErrorCode::ClaudeSdkError => 16099114,
        RouterErrorCode::ClaudeMaxTurns => 16099117,
        RouterErrorCode::ClaudeMaxBudget => 17099100,
        RouterErrorCode::ClaudeStructuredOutputError => 30099114,
        RouterErrorCode::ClaudeExecutionError => 22099114,
        RouterErrorCode::CodexProtocolError => 20099114,
        RouterErrorCode::CodexNoFinalResponse => 23099111,
        RouterErrorCode::CodexTurnInterrupted => 22099112,
        RouterErrorCode::CodexTurnFailed => 17099105,
        RouterErrorCode::LeaveUnconfirmed => 17108114,
    }
}

proof fn code_printed(code: RouterErrorCode)
    ensures
        code_print(code_text(code)) == code_number(code),
{
    match code {
        RouterErrorCode::InvalidMessage => reveal_strlit("invalid_message"),
        RouterErrorCode::ProtocolMismatch => reveal_strlit("protocol_mismatch"),
        RouterErrorCode::Unauthorized => reveal_strlit("unauthorized"),
        RouterErrorCode::NotRegistered => reveal_strlit("not_registered"),
        RouterErrorCode::AgentConflict => reveal_strlit("agent_conflict"),
        RouterErrorCode::TargetOffline => reveal_strlit("target_offline"),
        RouterErrorCode::TargetNotReady => reveal_strlit("target_not_ready"),
        RouterErrorCode::RequestConflict => reveal_strlit("request_conflict"),
        RouterErrorCode::RequestNotFound => reveal_strlit("request_not_found"),
        RouterErrorCode::ReplyForbidden => reveal_strlit("reply_forbidden"),
        RouterErrorCode::TargetDisconnected => reveal_strlit("target_disconnected"),
        RouterErrorCode::RequesterDisconnected => reveal_strlit("requester_disconnected"),
        RouterErrorCode::RequestTimeout => reveal_strlit("request_timeout"),
        RouterErrorCode::RequestCancelled => reveal_strlit("request_cancelled"),
        RouterErrorCode::WorkspaceRequired => reveal_strlit("workspace_required"),
        RouterErrorCode::WorkspaceNotFound => reveal_strlit("workspace_not_found"),
        RouterErrorCode::WorkspaceConflict => reveal_strlit("workspace_conflict"),
        RouterErrorCode::WorkspaceAlreadyJoined => reveal_strlit("workspace_already_joined"),
        RouterErrorCode::WorkspaceBusy => reveal_strlit("workspace_busy"),
        RouterErrorCode::WorkspaceMismatch => reveal_strlit("workspace_mismatch"),
        RouterErrorCode::PermissionDenied => reveal_strlit("permission_denied"),
        RouterErrorCode::MessageTooLarge => reveal_strlit("message_too_large"),
        RouterErrorCode::RateLimited => reveal_strlit("rate_limited"),
        RouterErrorCode::StorageError => reveal_strlit("storage_error"),
        RouterErrorCode::StoreInUse => reveal_strlit("store_in_use"),
        RouterErrorCode::ConfigurationRequired => reveal_strlit("configuration_required"),
        RouterErrorCode::RouterRestarted => reveal_strlit("router_restarted"),
        RouterErrorCode::SessionBusy => reveal_strlit("session_busy"),
        RouterErrorCode::ProviderError => reveal_strlit("provider_error"),
        RouterErrorCode::ProviderNotReady => reveal_strlit("provider_not_ready"),
        RouterErrorCode::ProviderDisconnected => reveal_strlit("provider_disconnected"),
        RouterErrorCode::ReplyMissing => reveal_strlit("reply_missing"),
        RouterErrorCode::TaskNotFound => reveal_strlit("task_not_found"),
        RouterErrorCode::TaskConflict => reveal_strlit("task_conflict"),
        RouterErrorCode::TaskNotAssigned => reveal_strlit("task_not_assigned"),
        RouterErrorCode::TaskActive => reveal_strlit("task_active"),
        RouterErrorCode::TaskStaleAttempt => reveal_strlit("task_stale_attempt"),
        RouterErrorCode::TaskStopUnconfirmed => reveal_strlit("task_stop_unconfirmed"),
        RouterErrorCode::TaskInvalidTransition => reveal_strlit("task_invalid_transition"),
        RouterErrorCode::TaskInterrupted => reveal_strlit("task_interrupted"),
        RouterErrorCode::IntegrationNotConfigured => reveal_strlit("integration_not_configured"),
        RouterErrorCode::IntegrationBusy => reveal_strlit("integration_busy"),
        RouterErrorCode::IntegrationError => reveal_strlit("integration_error"),
        RouterErrorCode::ExternalUnconfirmed => reveal_strlit("external_unconfirmed"),
        RouterErrorCode::ExternalConflict => reveal_strlit("external_conflict"),
        RouterErrorCode::IntegrationConfigurationInvalid => reveal_strlit("integration_configuration_invalid"),
        RouterErrorCode::SessionAdapterFailed => reveal_strlit("session_adapter_failed"),
        RouterErrorCode::ClaudeProtocolError => reveal_strlit("claude_protocol_error"),
        RouterErrorCode::ClaudeNoResult => reveal_strlit("claude_no_result"),
        RouterErrorCode::ClaudeSdkError => reveal_strlit("claude_sdk_error"),
        RouterErrorCode::ClaudeMaxTurns => reveal_strlit("claude_max_turns"),
        RouterErrorCode::ClaudeMaxBudget => reveal_strlit("claude_max_budget"),
        RouterErrorCode::ClaudeStructuredOutputError => reveal_strlit("claude_structured_output_error"),
        RouterErrorCode::ClaudeExecutionError => reveal_strlit("claude_execution_error"),
        RouterErrorCode::CodexProtocolError => reveal_strlit("codex_protocol_error"),
        RouterErrorCode::CodexNoFinalResponse => reveal_strlit("codex_no_final_response"),
        RouterErrorCode::CodexTurnInterrupted => reveal_strlit("codex_turn_interrupted"),
        RouterErrorCode::CodexTurnFailed => reveal_strlit("codex_turn_failed"),
        RouterErrorCode::LeaveUnconfirmed => reveal_strlit("leave_unconfirmed"),
    }
}

/// No two error codes travel as the same text.
pub proof fn code_texts_are_distinct(a: RouterErrorCode, b: RouterErrorCode)
    requires
        code_text(a) == code_text(b),
    ensures
        a == b,
{
    code_printed(a);
    code_printed(b);
}

/// A number by which the names of the client messages' kinds differ.
pub open spec fn kind_print(text: Seq<char>) -> int {
    1000000 * text.len() + 1000 * (text[text.len() - 1] as int) + text[text.len() - 4] as int
}

/// What the numbers of all kinds are.
pub proof fn kinds_printed()
    ensures
        kind_print("register"@) == 8114115,
        kind_print("register_delegate"@) == 17101103,
        kind_print("register_operator"@) == 17114097,
        kind_print("ping"@) == 4103112,
        kind_print("readiness"@) == 9115110,
        kind_print("list"@) == 4116108,
        kind_print("send"@) == 4100115,
        kind_print("reply"@) == 5121101,
        kind_print("work_idle"@) == 9101105,
        kind_print("task_execution_stopped"@) == 22100112,
        kind_print("credential_issue"@) == 16101115,
        kind_print("credential_list"@) == 15116108,
        kind_print("credential_revoke"@) == 17101118,
        kind_print("workspace_create"@) == 16101101,
        kind_print("workspace_list"@) == 14116108,
        kind_print("workspace_join"@) == 14110106,
        kind_print("workspace_leave"@) == 15101101,
        kind_print("workspace_members"@) == 17115098,
        kind_print("workspace_post"@) == 14116112,
        kind_print("workspace_history"@) == 17121116,
        kind_print("workspace_subscribe"@) == 19101114,
        kind_print("workspace_unsubscribe"@) == 21101114,
        kind_print("task_list"@) == 9116108,
        kind_print("task_get"@) == 8116095,
        kind_print("task_history"@) == 12121116,
        kind_print("task_create"@) == 11101101,
        kind_print("task_edit"@) == 9116101,
        kind_print("task_assign"@) == 11110115,
        kind_print("task_note"@) == 9101110,
        kind_print("task_begin"@) == 10110101,
        kind_print("task_checkpoint"@) == 15116111,
        kind_print("task_pause"@) == 10101097,
        kind_print("task_complete"@) == 13101108,
        kind_print("task_cancel"@) == 11108110,
        kind_print("task_reopen"@) == 11110111,
        kind_print("task_request"@) == 12116117,
        kind_print("task_interrupt"@) == 14116114,
        kind_print("task_confirm_stopped"@) == 20100112,
        kind_print("task_import"@) == 11116112,
        kind_print("task_link"@) == 9107108,
        kind_print("task_publish"@) == 12104108,
        kind_print("task_external_status"@) == 20115097,
        kind_print("task_external_resolve"@) == 21101111,
        kind_print("integration_list"@) == 16116108,
        kind_print("integration_check"@) == 17107104,
        kind_print("integration_reload"@) == 18100108,
        kind_print("router_shutdown"@) == 15110100,
{
    reveal_strlit("register");
    reveal_strlit("register_delegate");
    reveal_strlit("register_operator");
    reveal_strlit("ping");
    reveal_strlit("readiness");
    reveal_strlit("list");
    reveal_strlit("send");
    reveal_strlit("reply");
    reveal_strlit("work_idle");
    reveal_strlit("task_execution_stopped");
    reveal_strlit("credential_issue");
    reveal_strlit("credential_list");
    reveal_strlit("credential_revoke");
    reveal_strlit("workspace_create");
    reveal_strlit("workspace_list");
    reveal_strlit("workspace_join");
    reveal_strlit("workspace_leave");
    reveal_strlit("workspace_members");
    reveal_strlit("workspace_post");
    reveal_strlit("workspace_history");
    reveal_strlit("workspace_subscribe");
    reveal_strlit("workspace_unsubscribe");
    reveal_strlit("task_list");
    reveal_strlit("task_get");
    reveal_strlit("task_history");
    reveal_strlit("task_create");
    reveal_strlit("task_edit");
    reveal_strlit("task_assign");
    reveal_strlit("task_note");
    reveal_strlit("task_begin");
    reveal_strlit("task_checkpoint");
    reveal_strlit("task_pause");
    reveal_strlit("task_complete");
    reveal_strlit("task_cancel");
    reveal_strlit("task_reopen");
    reveal_strlit("task_request");
    reveal_strlit("task_interrupt");
    reveal_strlit("task_confirm_stopped");
    reveal_strlit("task_import");
    reveal_strlit("task_link");
    reveal_strlit("task_publish");
    reveal_strlit("task_external_status");
    reveal_strlit("task_external_resolve");
    reveal_strlit("integration_list");
    reveal_strlit("integration_check");
    reveal_strlit("integration_reload");
    reveal_strlit("router_shutdown");
}

/// Every kind of client message has a row in the field table. The row holds `type`, and
/// it holds `requestId` exactly where messages of the kind carry a request identifier.
pub proof fn every_client_message_has_a_row(message: ClientMessage)
    ensures
        client_fields(message.kind()) matches Some(row) && row.contains("type"@) && (row.contains(
            "requestId"@,
        ) <==> message.request() is Some),
{
    kinds_printed();
    reveal_strlit("requestId");
    reveal_strlit("type");
    reveal_strlit("protocolVersion");
    reveal_strlit("agent");
    reveal_strlit("token");
    reveal_strlit("delegationToken");
    reveal_strlit("ownerId");
    reveal_strlit("ready");
    let row = client_fields(message.kind())->0;
    assert(row[0] == "type"@);
    if message.request() is Some {
        assert(row[1] == "requestId"@);
    } else {
        assert forall|i: int| 0 <= i < row.len() implies (#[trigger] row[i]).len() != 9 by {
            assert(row.len() <= 5);
            assert(i == 0 || i == 1 || i == 2 || i == 3 || i == 4);
        }
    }
}

} // verus!
