//! What holds of the texts by which faults are told: every one is told by its own.

use vstd::prelude::*;

use crate::mcp::notify::NotificationError;
use crate::mcp::output::OutputError;
use crate::mcp::transport::{GuardedSinkError, McpRuntimeError};
use crate::onboarding::journal::JournalError;
use crate::onboarding::providers::ProviderInstallError;
use crate::onboarding::{EnrollmentError, TicketError};
use crate::process::{ProbeFailure, RouterLaunchError};
use crate::protocol::RouterErrorCode;
use crate::providers::{CancelReason, ProviderError};

verus! {

/// The text that a code of the router travels as.
pub proof fn router_codes_travel_as_their_names(error: RouterErrorCode, text: &'static str)
    requires
        call_ensures(RouterErrorCode::as_str, (error,), text),
    ensures
        error is InvalidMessage ==> text@ == "invalid_message"@,
        error is ProtocolMismatch ==> text@ == "protocol_mismatch"@,
        error is Unauthorized ==> text@ == "unauthorized"@,
        error is NotRegistered ==> text@ == "not_registered"@,
        error is AgentConflict ==> text@ == "agent_conflict"@,
        error is TargetOffline ==> text@ == "target_offline"@,
        error is TargetNotReady ==> text@ == "target_not_ready"@,
        error is RequestConflict ==> text@ == "request_conflict"@,
        error is RequestNotFound ==> text@ == "request_not_found"@,
        error is ReplyForbidden ==> text@ == "reply_forbidden"@,
        error is TargetDisconnected ==> text@ == "target_disconnected"@,
        error is RequesterDisconnected ==> text@ == "requester_disconnected"@,
        error is RequestTimeout ==> text@ == "request_timeout"@,
        error is RequestCancelled ==> text@ == "request_cancelled"@,
        error is WorkspaceRequired ==> text@ == "workspace_required"@,
        error is WorkspaceNotFound ==> text@ == "workspace_not_found"@,
        error is WorkspaceConflict ==> text@ == "workspace_conflict"@,
        error is WorkspaceAlreadyJoined ==> text@ == "workspace_already_joined"@,
        error is WorkspaceBusy ==> text@ == "workspace_busy"@,
        error is WorkspaceMismatch ==> text@ == "workspace_mismatch"@,
        error is PermissionDenied ==> text@ == "permission_denied"@,
        error is MessageTooLarge ==> text@ == "message_too_large"@,
        error is RateLimited ==> text@ == "rate_limited"@,
        error is StorageError ==> text@ == "storage_error"@,
        error is StoreInUse ==> text@ == "store_in_use"@,
        error is ConfigurationRequired ==> text@ == "configuration_required"@,
        error is RouterRestarted ==> text@ == "router_restarted"@,
        error is SessionBusy ==> text@ == "session_busy"@,
        error is ProviderError ==> text@ == "provider_error"@,
        error is ProviderNotReady ==> text@ == "provider_not_ready"@,
        error is ProviderDisconnected ==> text@ == "provider_disconnected"@,
        error is ReplyMissing ==> text@ == "reply_missing"@,
        error is TaskNotFound ==> text@ == "task_not_found"@,
        error is TaskConflict ==> text@ == "task_conflict"@,
        error is TaskNotAssigned ==> text@ == "task_not_assigned"@,
        error is TaskActive ==> text@ == "task_active"@,
        error is TaskStaleAttempt ==> text@ == "task_stale_attempt"@,
        error is TaskStopUnconfirmed ==> text@ == "task_stop_unconfirmed"@,
        error is TaskInvalidTransition ==> text@ == "task_invalid_transition"@,
        error is TaskInterrupted ==> text@ == "task_interrupted"@,
        error is IntegrationNotConfigured ==> text@ == "integration_not_configured"@,
        error is IntegrationBusy ==> text@ == "integration_busy"@,
        error is IntegrationError ==> text@ == "integration_error"@,
        error is ExternalUnconfirmed ==> text@ == "external_unconfirmed"@,
        error is ExternalConflict ==> text@ == "external_conflict"@,
        error is IntegrationConfigurationInvalid ==> text@ == "integration_configuration_invalid"@,
        error is SessionAdapterFailed ==> text@ == "session_adapter_failed"@,
        error is ClaudeProtocolError ==> text@ == "claude_protocol_error"@,
        error is ClaudeNoResult ==> text@ == "claude_no_result"@,
        error is ClaudeSdkError ==> text@ == "claude_sdk_error"@,
        error is ClaudeMaxTurns ==> text@ == "claude_max_turns"@,
        error is ClaudeMaxBudget ==> text@ == "claude_max_budget"@,
        error is ClaudeStructuredOutputError ==> text@ == "claude_structured_output_error"@,
        error is ClaudeExecutionError ==> text@ == "claude_execution_error"@,
        error is CodexProtocolError ==> text@ == "codex_protocol_error"@,
        error is CodexNoFinalResponse ==> text@ == "codex_no_final_response"@,
        error is CodexTurnInterrupted ==> text@ == "codex_turn_interrupted"@,
        error is CodexTurnFailed ==> text@ == "codex_turn_failed"@,
        error is LeaveUnconfirmed ==> text@ == "leave_unconfirmed"@,
{
}

/// The text of what keeps a router from starting or stopping.
pub proof fn launch_errors_are_told_by_name(error: RouterLaunchError, text: &'static str)
    requires
        call_ensures(RouterLaunchError::as_str, (error,), text),
    ensures
        error is RouterBusy ==> text@ == "router_busy"@,
        error is InstanceChanged ==> text@ == "router_instance_changed"@,
        error is Interrupted ==> text@ == "interrupted"@,
        error is Permissions ==> text@ == "launcher_permissions"@,
        error is Io ==> text@ == "launcher_io"@,
        error is InvalidRuntimeRecord ==> text@ == "runtime_record_invalid"@,
        error is RuntimeRecordTooLarge ==> text@ == "runtime_record_too_large"@,
        error is StartupProtocol ==> text@ == "startup_protocol_error"@,
        error is StartupTimeout ==> text@ == "startup_timeout"@,
        error is ShutdownTimeout ==> text@ == "shutdown_timeout"@,
        error is ChildLaunch ==> text@ == "child_launch_failed"@,
        error is ChildTerminated ==> text@ == "child_terminated"@,
        error == RouterLaunchError::Health(ProbeFailure::ConnectionRefused) ==> text@ == "health_ConnectionRefused"@,
        error == RouterLaunchError::Health(ProbeFailure::Tls) ==> text@ == "health_Tls"@,
        error == RouterLaunchError::Health(ProbeFailure::Authentication) ==> text@ == "health_Authentication"@,
        error == RouterLaunchError::Health(ProbeFailure::MarkerMismatch) ==> text@ == "health_MarkerMismatch"@,
        error == RouterLaunchError::Health(ProbeFailure::Transport) ==> text@ == "health_Transport"@,
        error is AdminAuthentication ==> text@ == "admin_authentication_failed"@,
        error is AdminProtocol ==> text@ == "admin_protocol_error"@,
        error is TlsRequired ==> text@ == "tls_configuration_required"@,
        error is TlsInvalid ==> text@ == "tls_configuration_invalid"@,
        error is TailscaleUnavailable ==> text@ == "tailscale_unavailable"@,
        error is TailscaleStatus ==> text@ == "tailscale_status_invalid"@,
        error is TailscaleMappingConflict ==> text@ == "tailscale_mapping_conflict"@,
        error is TailscaleCommand ==> text@ == "tailscale_command_failed"@,
        error is Profile ==> text@ == "profile_update_failed"@,
{
}

/// The code that a failure of a provider is reported under.
pub proof fn provider_failures_are_told_by_name(error: ProviderError, text: &'static str)
    requires
        call_ensures(ProviderError::code, (error,), text),
    ensures
        error is ProviderNotReady ==> text@ == "provider_not_ready"@,
        error is SessionBusy ==> text@ == "session_busy"@,
        error is RequestTimeout ==> text@ == "request_timeout"@,
        error is ProviderDisconnected ==> text@ == "provider_disconnected"@,
        error is CodexInitializeFailed ==> text@ == "codex_initialize_failed"@,
        error is CodexProtocolError ==> text@ == "codex_protocol_error"@,
        error is CodexTurnInterrupted ==> text@ == "codex_turn_interrupted"@,
        error is CodexTurnFailed ==> text@ == "codex_turn_failed"@,
        error is CodexNoFinalResponse ==> text@ == "codex_no_final_response"@,
        error is ClaudeInitializeFailed ==> text@ == "claude_initialize_failed"@,
        error is BridgeProtocolError ==> text@ == "bridge_protocol_error"@,
        error is ClaudeProtocolError ==> text@ == "claude_protocol_error"@,
        error is ClaudeMaxTurns ==> text@ == "claude_max_turns"@,
        error is ClaudeMaxBudget ==> text@ == "claude_max_budget"@,
        error is ClaudeStructuredOutputError ==> text@ == "claude_structured_output_error"@,
        error is ClaudeExecutionError ==> text@ == "claude_execution_error"@,
        error is ClaudeNoResult ==> text@ == "claude_no_result"@,
        error is ClaudeSdkError ==> text@ == "claude_sdk_error"@,
        error is InvalidLaunchContext ==> text@ == "invalid_launch_context"@,
        error is RouterLifecycleUnavailable ==> text@ == "router_lifecycle_unavailable"@,
        error is ExecutionFenceChanged ==> text@ == "execution_fence_changed"@,
        error is LaunchFailed ==> text@ == "provider_launch_failed"@,
{
}

/// The code that a fault of a journal is reported under.
pub proof fn journal_faults_are_told_by_name(error: JournalError, text: &'static str)
    requires
        call_ensures(JournalError::code, (&error,), text),
    ensures
        error is ConfigurationBusy ==> text@ == "configuration_busy"@,
        error is Permissions ==> text@ == "journal_permissions"@,
        error is Io ==> text@ == "journal_io"@,
        error is Invalid ==> text@ == "journal_invalid"@,
        error is NotFound ==> text@ == "journal_not_found"@,
        error is Conflict ==> text@ == "journal_conflict"@,
        error is ProfileConflict ==> text@ == "profile_conflict"@,
        error is BindingConflict ==> text@ == "binding_conflict"@,
        error is Configuration ==> text@ == "invalid_configuration"@,
        error is IdentityMismatch ==> text@ == "server_identity_mismatch"@,
        error is InvalidRoute ==> text@ == "route_invalid"@,
        error is ClaimsMismatch ==> text@ == "enrollment_claims_mismatch"@,
        error is InvalidResponse ==> text@ == "enrollment_response_invalid"@,
        error is InviteUnavailable ==> text@ == "invite_unavailable"@,
        error is Unavailable ==> text@ == "enrollment_unavailable"@,
        error is RateLimited ==> text@ == "enrollment_rate_limited"@,
{
}

/// The code that a fault of an installation is reported under.
pub proof fn installation_faults_are_told_by_name(error: ProviderInstallError, text: &'static str)
    requires
        call_ensures(ProviderInstallError::code, (&error,), text),
    ensures
        error is Conflict ==> text@ == "provider_configuration_conflict"@,
        error is Permission ==> text@ == "host_permission_required"@,
        error is Io ==> text@ == "provider_installation_io"@,
        error is CommandFailed ==> text@ == "host_command_failed"@,
        error is OmpDisabled ==> text@ == "plugin_disabled"@,
        error is ClaudeDisabled ==> text@ == "plugin_disabled"@,
        error is Requirement ==> text@ == "host_upgrade_required"@,
{
}

/// What the reason of a cancellation is told as.
pub proof fn cancellations_are_told_by_name(reason: CancelReason, text: &'static str)
    requires
        call_ensures(CancelReason::as_str, (reason,), text),
    ensures
        reason is RequestTimeout ==> text@ == "request_timeout"@,
        reason is ProviderDisconnected ==> text@ == "provider_disconnected"@,
        reason is TaskInterrupted ==> text@ == "task_interrupted"@,
        reason is RequestCancelled ==> text@ == "request_cancelled"@,
{
}

/// What is wrong with a ticket or an enrollment is told as.
pub proof fn onboarding_errors_are_told_by_name(
    ticket: TicketError,
    enrollment: EnrollmentError,
    a: &'static str,
    b: &'static str,
)
    requires
        call_ensures(TicketError::as_str, (ticket,), a),
        call_ensures(EnrollmentError::as_str, (enrollment,), b),
    ensures
        ticket is Invalid ==> a@ == "invalid_ticket"@,
        ticket is UnsupportedTarget ==> a@ == "unsupported_target"@,
        ticket is InvalidRoute ==> a@ == "invalid_route"@,
        ticket is InvalidCa ==> a@ == "invalid_ca"@,
        enrollment is Malformed ==> b@ == "malformed_request"@,
        enrollment is InviteUnavailable ==> b@ == "invite_unavailable"@,
        enrollment is Unavailable ==> b@ == "service_unavailable"@,
{
}

/// What is wrong with serving the tools is told as.
pub proof fn tool_errors_are_told_by_name(
    note: NotificationError,
    sink: GuardedSinkError,
    runtime: McpRuntimeError,
    output: OutputError,
    a: &'static str,
    b: &'static str,
    c: &'static str,
    d: &'static str,
)
    requires
        call_ensures(NotificationError::as_str, (note,), a),
        call_ensures(GuardedSinkError::as_str, (sink,), b),
        call_ensures(McpRuntimeError::as_str, (runtime,), c),
        call_ensures(OutputError::as_str, (output,), d),
    ensures
        note is WrongRole ==> a@ == "notification_wrong_role"@,
        note is UnknownMethod ==> a@ == "notification_unknown_method"@,
        note is InvalidPayload ==> a@ == "invalid_notification_payload"@,
        note is TooLarge ==> a@ == "notification_too_large"@,
        note is Closed ==> a@ == "notification_channel_closed"@,
        sink is WriteFailed ==> b@ == "mcp_output_failed"@,
        sink is Timeout ==> b@ == "mcp_output_timeout"@,
        sink is OutputTooLarge ==> b@ == "mcp_output_too_large"@,
        runtime is InvalidInput ==> c@ == "mcp_invalid_frame"@,
        runtime is OutputTimeout ==> c@ == "mcp_output_timeout"@,
        runtime is Initialization ==> c@ == "mcp_initialization_failed"@,
        runtime is Service ==> c@ == "mcp_service_failed"@,
        runtime is BackendClose ==> c@ == "mcp_backend_close_failed"@,
        output is EncodeFailed ==> d@ == "mcp_result_encode_failed"@,
        output is TooLarge ==> d@ == "mcp_result_too_large"@,
{
}

} // verus!
