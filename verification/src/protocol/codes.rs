//! The error codes that the router answers with.

use vstd::prelude::*;

verus! {

/// An error code of the router.
#[derive(Clone, Copy, Debug, PartialEq, Eq, Hash, Structural)]
pub enum RouterErrorCode {
    InvalidMessage,
    ProtocolMismatch,
    Unauthorized,
    NotRegistered,
    AgentConflict,
    TargetOffline,
    TargetNotReady,
    RequestConflict,
    RequestNotFound,
    ReplyForbidden,
    TargetDisconnected,
    RequesterDisconnected,
    RequestTimeout,
    RequestCancelled,
    WorkspaceRequired,
    WorkspaceNotFound,
    WorkspaceConflict,
    WorkspaceAlreadyJoined,
    WorkspaceBusy,
    WorkspaceMismatch,
    PermissionDenied,
    MessageTooLarge,
    RateLimited,
    StorageError,
    StoreInUse,
    ConfigurationRequired,
    RouterRestarted,
    SessionBusy,
    ProviderError,
    ProviderNotReady,
    ProviderDisconnected,
    ReplyMissing,
    TaskNotFound,
    TaskConflict,
    TaskNotAssigned,
    TaskActive,
    TaskStaleAttempt,
    TaskStopUnconfirmed,
    TaskInvalidTransition,
    TaskInterrupted,
    IntegrationNotConfigured,
    IntegrationBusy,
    IntegrationError,
    ExternalUnconfirmed,
    ExternalConflict,
    IntegrationConfigurationInvalid,
    SessionAdapterFailed,
    ClaudeProtocolError,
    ClaudeNoResult,
    ClaudeSdkError,
    ClaudeMaxTurns,
    ClaudeMaxBudget,
    ClaudeStructuredOutputError,
    ClaudeExecutionError,
    CodexProtocolError,
    CodexNoFinalResponse,
    CodexTurnInterrupted,
    CodexTurnFailed,
    LeaveUnconfirmed,
}

/// The text that an error code travels as.
pub open spec fn code_text(code: RouterErrorCode) -> Seq<char> {
    match code {
        RouterErrorCode::InvalidMessage => "invalid_message"@,
        RouterErrorCode::ProtocolMismatch => "protocol_mismatch"@,
        RouterErrorCode::Unauthorized => "unauthorized"@,
        RouterErrorCode::NotRegistered => "not_registered"@,
        RouterErrorCode::AgentConflict => "agent_conflict"@,
        RouterErrorCode::TargetOffline => "target_offline"@,
        RouterErrorCode::TargetNotReady => "target_not_ready"@,
        RouterErrorCode::RequestConflict => "request_conflict"@,
        RouterErrorCode::RequestNotFound => "request_not_found"@,
        RouterErrorCode::ReplyForbidden => "reply_forbidden"@,
        RouterErrorCode::TargetDisconnected => "target_disconnected"@,
        RouterErrorCode::RequesterDisconnected => "requester_disconnected"@,
        RouterErrorCode::RequestTimeout => "request_timeout"@,
        RouterErrorCode::RequestCancelled => "request_cancelled"@,
        RouterErrorCode::WorkspaceRequired => "workspace_required"@,
        RouterErrorCode::WorkspaceNotFound => "workspace_not_found"@,
        RouterErrorCode::WorkspaceConflict => "workspace_conflict"@,
        RouterErrorCode::WorkspaceAlreadyJoined => "workspace_already_joined"@,
        RouterErrorCode::WorkspaceBusy => "workspace_busy"@,
        RouterErrorCode::WorkspaceMismatch => "workspace_mismatch"@,
        RouterErrorCode::PermissionDenied => "permission_denied"@,
        RouterErrorCode::MessageTooLarge => "message_too_large"@,
        RouterErrorCode::RateLimited => "rate_limited"@,
        RouterErrorCode::StorageError => "storage_error"@,
        RouterErrorCode::StoreInUse => "store_in_use"@,
        RouterErrorCode::ConfigurationRequired => "configuration_required"@,
        RouterErrorCode::RouterRestarted => "router_restarted"@,
        RouterErrorCode::SessionBusy => "session_busy"@,
        RouterErrorCode::ProviderError => "provider_error"@,
        RouterErrorCode::ProviderNotReady => "provider_not_ready"@,
        RouterErrorCode::ProviderDisconnected => "provider_disconnected"@,
        RouterErrorCode::ReplyMissing => "reply_missing"@,
        RouterErrorCode::TaskNotFound => "task_not_found"@,
        RouterErrorCode::TaskConflict => "task_conflict"@,
        RouterErrorCode::TaskNotAssigned => "task_not_assigned"@,
        RouterErrorCode::TaskActive => "task_active"@,
        RouterErrorCode::TaskStaleAttempt => "task_stale_attempt"@,
        RouterErrorCode::TaskStopUnconfirmed => "task_stop_unconfirmed"@,
        RouterErrorCode::TaskInvalidTransition => "task_invalid_transition"@,
        RouterErrorCode::TaskInterrupted => "task_interrupted"@,
        RouterErrorCode::IntegrationNotConfigured => "integration_not_configured"@,
        RouterErrorCode::IntegrationBusy => "integration_busy"@,
        RouterErrorCode::IntegrationError => "integration_error"@,
        RouterErrorCode::ExternalUnconfirmed => "external_unconfirmed"@,
        RouterErrorCode::ExternalConflict => "external_conflict"@,
        RouterErrorCode::IntegrationConfigurationInvalid => "integration_configuration_invalid"@,
        RouterErrorCode::SessionAdapterFailed => "session_adapter_failed"@,
        RouterErrorCode::ClaudeProtocolError => "claude_protocol_error"@,
        RouterErrorCode::ClaudeNoResult => "claude_no_result"@,
        RouterErrorCode::ClaudeSdkError => "claude_sdk_error"@,
        RouterErrorCode::ClaudeMaxTurns => "claude_max_turns"@,
        RouterErrorCode::ClaudeMaxBudget => "claude_max_budget"@,
        RouterErrorCode::ClaudeStructuredOutputError => "claude_structured_output_error"@,
        RouterErrorCode::ClaudeExecutionError => "claude_execution_error"@,
        RouterErrorCode::CodexProtocolError => "codex_protocol_error"@,
        RouterErrorCode::CodexNoFinalResponse => "codex_no_final_response"@,
        RouterErrorCode::CodexTurnInterrupted => "codex_turn_interrupted"@,
        RouterErrorCode::CodexTurnFailed => "codex_turn_failed"@,
        RouterErrorCode::LeaveUnconfirmed => "leave_unconfirmed"@,
    }
}

impl RouterErrorCode {
    /// The text that this code travels as.
    pub fn as_str(self) -> (text: &'static str)
        ensures
            text@ == code_text(self),
    {
        match self {
            RouterErrorCode::InvalidMessage => "invalid_message",
            RouterErrorCode::ProtocolMismatch => "protocol_mismatch",
            RouterErrorCode::Unauthorized => "unauthorized",
            RouterErrorCode::NotRegistered => "not_registered",
            RouterErrorCode::AgentConflict => "agent_conflict",
            RouterErrorCode::TargetOffline => "target_offline",
            RouterErrorCode::TargetNotReady => "target_not_ready",
            RouterErrorCode::RequestConflict => "request_conflict",
            RouterErrorCode::RequestNotFound => "request_not_found",
            RouterErrorCode::ReplyForbidden => "reply_forbidden",
            RouterErrorCode::TargetDisconnected => "target_disconnected",
            RouterErrorCode::RequesterDisconnected => "requester_disconnected",
            RouterErrorCode::RequestTimeout => "request_timeout",
            RouterErrorCode::RequestCancelled => "request_cancelled",
            RouterErrorCode::WorkspaceRequired => "workspace_required",
            RouterErrorCode::WorkspaceNotFound => "workspace_not_found",
            RouterErrorCode::WorkspaceConflict => "workspace_conflict",
            RouterErrorCode::WorkspaceAlreadyJoined => "workspace_already_joined",
            RouterErrorCode::WorkspaceBusy => "workspace_busy",
            RouterErrorCode::WorkspaceMismatch => "workspace_mismatch",
            RouterErrorCode::PermissionDenied => "permission_denied",
            RouterErrorCode::MessageTooLarge => "message_too_large",
            RouterErrorCode::RateLimited => "rate_limited",
            RouterErrorCode::StorageError => "storage_error",
            RouterErrorCode::StoreInUse => "store_in_use",
            RouterErrorCode::ConfigurationRequired => "configuration_required",
            RouterErrorCode::RouterRestarted => "router_restarted",
            RouterErrorCode::SessionBusy => "session_busy",
            RouterErrorCode::ProviderError => "provider_error",
            RouterErrorCode::ProviderNotReady => "provider_not_ready",
            RouterErrorCode::ProviderDisconnected => "provider_disconnected",
            RouterErrorCode::ReplyMissing => "reply_missing",
            RouterErrorCode::TaskNotFound => "task_not_found",
            RouterErrorCode::TaskConflict => "task_conflict",
            RouterErrorCode::TaskNotAssigned => "task_not_assigned",
            RouterErrorCode::TaskActive => "task_active",
            RouterErrorCode::TaskStaleAttempt => "task_stale_attempt",
            RouterErrorCode::TaskStopUnconfirmed => "task_stop_unconfirmed",
            RouterErrorCode::TaskInvalidTransition => "task_invalid_transition",
            RouterErrorCode::TaskInterrupted => "task_interrupted",
            RouterErrorCode::IntegrationNotConfigured => "integration_not_configured",
            RouterErrorCode::IntegrationBusy => "integration_busy",
            RouterErrorCode::IntegrationError => "integration_error",
            RouterErrorCode::ExternalUnconfirmed => "external_unconfirmed",
            RouterErrorCode::ExternalConflict => "external_conflict",
            RouterErrorCode::IntegrationConfigurationInvalid => "integration_configuration_invalid",
            RouterErrorCode::SessionAdapterFailed => "session_adapter_failed",
            RouterErrorCode::ClaudeProtocolError => "claude_protocol_error",
            RouterErrorCode::ClaudeNoResult => "claude_no_result",
            RouterErrorCode::ClaudeSdkError => "claude_sdk_error",
            RouterErrorCode::ClaudeMaxTurns => "claude_max_turns",
            RouterErrorCode::ClaudeMaxBudget => "claude_max_budget",
            RouterErrorCode::ClaudeStructuredOutputError => "claude_structured_output_error",
            RouterErrorCode::ClaudeExecutionError => "claude_execution_error",
            RouterErrorCode::CodexProtocolError => "codex_protocol_error",
            RouterErrorCode::CodexNoFinalResponse => "codex_no_final_response",
            RouterErrorCode::CodexTurnInterrupted => "codex_turn_interrupted",
            RouterErrorCode::CodexTurnFailed => "codex_turn_failed",
            RouterErrorCode::LeaveUnconfirmed => "leave_unconfirmed",
        }
    }
}

} // verus!
