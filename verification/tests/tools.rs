//! The tools that sessions call, and the state behind them.

use asr::ids::Uuid;
use asr::json::{field, object, Json};
use asr::mcp::answer::{
    agents_value, answer_effect, answer_kind, tasks_value, tool_answer, workspaces_value,
    AnswerEffect, AnswerKind, ToolAnswer,
};
use asr::mcp::args::{
    AgentReplyArgs, AgentSendArgs, AgentWaitArgs, CheckpointInput, EmptyArgs, ExternalProvider,
    McpCall, TaskAttemptMutationArgs, TaskCreateArgs, TaskIdentityArgs, TaskImportArgs,
    TaskListArgs, TaskTransitionArgs,
};
use asr::mcp::backend::{
    matching_cancel_task, remaining_millis, CancelEffect, ClientConfig, ClientRole, ConnectionSpec,
    DeliveryAction, EventEffect, InboundRequest, OmpStep, RouterBackendState, TaskAttemptEvent,
};
use asr::mcp::catalog::{
    catalog, enabled_tool_names, get_tool, tool_visible, validate_tool_call, wait_time,
    CatalogError,
};
use asr::mcp::dispatch::{
    attempt_message, check_accepted, dispatch, dispatch_with, external_provider,
    integration_message, new_router_request_id, other_agents, parse_task_state, parse_workspace,
    take_agents, take_posted, task_edit_message, task_read_message, transition_message,
    AttemptMutation, Dispatched,
};
use asr::mcp::notify::{
    check_notification_frame, parse_omp_host_notification, ClaudeChannelMeta,
    ClaudeChannelNotification, McpNotificationSink, NotificationError, OmpConsumed, OmpHostNotification,
    OmpHostState, OmpServerNotification, OmpWorkFinished, OmpWorkFinishedError, OMP_NOTIFICATION_PREFIX,
};
use asr::mcp::output::{
    admit_call, bounded_tool_error, bounded_tool_result, check_frame, finish_call, CallAdmission,
    CallStep, OutputError, RpcErrorKind,
};
use asr::mcp::transport::{
    serve_outcome, GuardedSinkError, McpRuntimeError, OutputGuard, Progress, ServiceEnd,
    TransportHealth,
};
use asr::mcp::work::{
    check_initial_workspace, delivered_value, replied_value, routed_outcome, server_message_error,
    wait_outcome, wait_timeout_value, AgentSendResult, PendingResults, RoutedEnd, WaitEnd,
};
use asr::mcp::{
    experimental_capability, instructions, map_client_error, BackendError, ClientError, HintClass,
    McpRole, MCP_MAX_CONCURRENT_CALLS, RULES_TEXT,
};
use asr::protocol::client::ClientMessage;
use asr::protocol::codes::RouterErrorCode;
use asr::protocol::server::ServerMessage;
use asr::protocol::{
    is_request_id, AgentClient, AgentDescriptor, AgentSide, AgentStatus, DeliveryMode, TaskDispatch,
    TaskFence, WorkspaceEvent, WorkspaceEventKind, WorkspaceName,
};
use asr::tasks::{TaskAttempt, TaskState};

const ROLES: [McpRole; 4] = [McpRole::Delegate, McpRole::CodexCli, McpRole::ClaudeChannel, McpRole::Omp];

fn room() -> WorkspaceName {
    WorkspaceName::parse("team".to_owned()).unwrap()
}

fn request(id: &str, task: Option<TaskDispatch>) -> InboundRequest {
    InboundRequest {
        workspace: room(),
        request_id: id.to_owned(),
        from: "codex:9".to_owned(),
        content: "work".to_owned(),
        deadline: 10_000,
        task,
    }
}

fn joined(role: McpRole) -> RouterBackendState {
    let mut state = RouterBackendState::new(role);
    assert!(state.connected(McpNotificationSink::new(role)).is_ok());
    state.joined(room(), 3);
    state
}

#[test]
fn roles_have_their_tools() {
    for role in ROLES {
        let names = enabled_tool_names(role);
        let mut sorted = names.clone();
        sorted.sort();
        sorted.dedup();
        assert_eq!(sorted.len(), names.len());
        assert_eq!(catalog(role).len(), names.len());
        for tool in catalog(role) {
            assert!(tool_visible(role, tool.name));
            assert!(get_tool(role, tool.name).is_some());
            assert!(names.iter().any(|name| name.ends_with(tool.name)));
        }
        assert_eq!(tool_visible(role, "agent_wait"), role.can_wait());
        assert_eq!(tool_visible(role, "agent_reply"), role.can_reply());
        assert!(!tool_visible(role, "no_such_tool"));
    }
    assert!(HintClass::ReadOnly.hints().read_only);
    assert!(HintClass::OpenWorldDestructive.hints().destructive);
}

#[test]
fn calls_are_checked_against_the_catalog() {
    let call = || Some(McpCall::AgentList(EmptyArgs {}));
    assert!(validate_tool_call(McpRole::Delegate, "agent_list", call()).is_ok());
    assert!(matches!(
        validate_tool_call(McpRole::Delegate, "no_such_tool", call()),
        Err(CatalogError::ToolNotAvailable)
    ));
    assert!(matches!(
        validate_tool_call(McpRole::Delegate, "agent_list", None),
        Err(CatalogError::InvalidArguments)
    ));
    let wait = |ms| Some(McpCall::AgentWait(AgentWaitArgs { wait_ms: ms }));
    assert!(validate_tool_call(McpRole::CodexCli, "agent_wait", wait(Some(60_000))).is_ok());
    assert!(matches!(
        validate_tool_call(McpRole::CodexCli, "agent_wait", wait(Some(60_001))),
        Err(CatalogError::InvalidWait)
    ));
    assert_eq!(CatalogError::InvalidWait.as_str(), "invalid_wait_ms");
    assert_eq!(McpCall::AgentWait(AgentWaitArgs { wait_ms: None }).name(), "agent_wait");
}

#[test]
fn instructions_hold_the_rules() {
    for role in ROLES {
        let text = instructions(role, "codex:1");
        assert!(text.contains("codex:1"));
        assert!(text.contains(RULES_TEXT));
    }
    assert!(experimental_capability(McpRole::ClaudeChannel).is_some());
    assert_eq!(experimental_capability(McpRole::CodexCli), None);
    assert_eq!(McpRole::CodexCli.as_str(), "codex-cli");
}

#[test]
fn results_are_bounded() {
    let small = bounded_tool_result("agent_list", object(vec![field("a", Json::of_text("x"))])).unwrap();
    assert!(!small.is_error);
    assert!(small.structured.says("a", "x"));
    let large = Json::of_text(&"x".repeat(1_048_576));
    assert!(matches!(bounded_tool_result("agent_list", large), Err(OutputError::TooLarge)));
    let error = bounded_tool_error("conflict").unwrap();
    assert!(error.is_error);
    assert!(error.text.contains("conflict"));
    assert!(matches!(check_frame(None), Err(OutputError::EncodeFailed)));
    assert!(check_frame(Some(&vec![0; 10])).is_ok());
    assert_eq!(OutputError::TooLarge.as_str(), "mcp_result_too_large");
}

#[test]
fn calls_are_admitted_up_to_the_bound() {
    let mut admission = CallAdmission::new();
    for _ in 0..MCP_MAX_CONCURRENT_CALLS {
        assert!(admission.try_enter().is_ok());
    }
    assert!(admission.is_busy());
    assert_eq!(admission.try_enter().unwrap_err().as_str(), "mcp_server_busy");
    admission.leave();
    let call = Some(McpCall::AgentList(EmptyArgs {}));
    assert!(matches!(
        admit_call(McpRole::Delegate, "agent_list", call, true, false, &mut admission),
        CallStep::Dispatch(_)
    ));
    let again = Some(McpCall::AgentList(EmptyArgs {}));
    assert!(!matches!(
        admit_call(McpRole::Delegate, "agent_list", again, true, false, &mut admission),
        CallStep::Dispatch(_)
    ));
    assert!(matches!(
        admit_call(McpRole::Delegate, "no_such_tool", None, true, false, &mut admission),
        CallStep::Refuse(error) if error.kind == RpcErrorKind::MethodNotFound
    ));
    let answer = finish_call("agent_list", Some(Ok(object(Vec::new()))), &mut admission).unwrap();
    assert!(!answer.is_error);
    assert!(!CallAdmission::new().is_busy());
    for outcome in [Some(Err(BackendError::Conflict)), None] {
        let text = if outcome.is_some() { "tool failed: conflict" } else { "tool failed: cancelled" };
        assert!(matches!(
            admit_call(
                McpRole::Delegate,
                "agent_list",
                Some(McpCall::AgentList(EmptyArgs {})),
                true,
                false,
                &mut admission
            ),
            CallStep::Dispatch(_)
        ));
        let failed = finish_call("agent_list", outcome, &mut admission).unwrap();
        assert!(failed.is_error);
        assert_eq!(failed.text, text);
    }
}

#[test]
fn backend_errors_have_codes() {
    assert_eq!(map_client_error(ClientError::Router(RouterErrorCode::WorkspaceBusy)).code(), "workspace_busy");
    assert_eq!(BackendError::WaitBusy.code(), "wait_busy");
    assert_eq!(
        server_message_error(&ServerMessage::Pong { request_id: "r".to_owned() }).code(),
        BackendError::InvalidState.code()
    );
}

#[test]
fn host_words_are_parsed() {
    let method = format!("{OMP_NOTIFICATION_PREFIX}host_state");
    let word = || Some(OmpHostNotification::HostState(OmpHostState { v: 1, ready: true }));
    assert!(parse_omp_host_notification(&method, true, word()).is_ok());
    assert!(matches!(
        parse_omp_host_notification(&method, false, word()),
        Err(NotificationError::InvalidPayload)
    ));
    assert!(matches!(
        parse_omp_host_notification("notifications/other", true, word()),
        Err(NotificationError::UnknownMethod)
    ));
    let old = Some(OmpHostNotification::HostState(OmpHostState { v: 2, ready: true }));
    assert!(parse_omp_host_notification(&method, true, old).is_err());
    assert_eq!(NotificationError::Closed.as_str(), "notification_channel_closed");
}

#[test]
fn notifications_go_to_their_role() {
    let channel = || ClaudeChannelNotification {
        content: "hello".to_owned(),
        meta: ClaudeChannelMeta {
            request_id: "r1".to_owned(),
            from: "codex:1".to_owned(),
            timeout_ms: "5".to_owned(),
        },
    };
    let sink = McpNotificationSink::new(McpRole::ClaudeChannel);
    let sent = sink.send_claude(channel()).unwrap();
    assert!(sent.method.ends_with("/channel"));
    assert!(sent.params.says("content", "hello"));
    let other = McpNotificationSink::new(McpRole::Omp);
    assert!(matches!(other.send_claude(channel()), Err(NotificationError::WrongRole)));
    let unread = OmpServerNotification::Unread { workspace: "team".to_owned(), cursor: 4, count: 1 };
    let told = other.send_omp(unread).unwrap();
    assert_eq!(told.method, format!("{OMP_NOTIFICATION_PREFIX}unread"));
    assert!(matches!(told.params.get("cursor"), Some(Json::Unsigned(4))));
    assert!(matches!(check_notification_frame(None), Err(NotificationError::InvalidPayload)));
    assert!(matches!(
        check_notification_frame(Some(&vec![0; 1_048_577])),
        Err(NotificationError::TooLarge)
    ));
}

#[test]
fn output_is_guarded() {
    let mut guard = OutputGuard::new();
    assert!(guard.poll_deadline(false).is_ok());
    assert!(guard.start_send(Some(10)).is_ok());
    assert!(matches!(guard.start_send(Some(1_048_577)), Err(GuardedSinkError::OutputTooLarge)));
    assert!(guard.poll_flush(Progress::Pending).is_none());
    assert!(matches!(guard.poll_deadline(true), Err(GuardedSinkError::Timeout)));
    assert!(guard.timed_out);
    let mut fresh = OutputGuard::new();
    assert!(matches!(fresh.poll_ready(Progress::Failed), Some(Err(GuardedSinkError::WriteFailed))));
    assert!(matches!(OutputGuard::new().poll_ready(Progress::Done), Some(Ok(()))));
    assert_eq!(GuardedSinkError::Timeout.as_str(), "mcp_output_timeout");
}

#[test]
fn serving_ends_with_the_first_fault() {
    let mut health = TransportHealth::new();
    assert!(health.read_frame(true));
    assert!(serve_outcome(TransportHealth::new(), ServiceEnd::Finished, true).is_ok());
    assert_eq!(
        serve_outcome(TransportHealth::new(), ServiceEnd::NotInitialized, true),
        Err(McpRuntimeError::Initialization)
    );
    assert_eq!(
        serve_outcome(TransportHealth::new(), ServiceEnd::Failed, true),
        Err(McpRuntimeError::Service)
    );
    assert_eq!(
        serve_outcome(TransportHealth::new(), ServiceEnd::Finished, false),
        Err(McpRuntimeError::BackendClose)
    );
    assert!(!health.read_frame(false));
    assert_eq!(serve_outcome(health, ServiceEnd::Finished, true), Err(McpRuntimeError::InvalidInput));
    assert_eq!(McpRuntimeError::Service.as_str(), "mcp_service_failed");
}

#[test]
fn connections_are_of_their_role() {
    let config = ClientConfig {
        router_url: "ws://127.0.0.1:1/ws".to_owned(),
        role: ClientRole::Delegate {
            owner_id: "codex:1".to_owned(),
            delegation_token: "t".to_owned(),
        },
        ca_file: None,
    };
    let connection = ConnectionSpec::from_config(McpRole::Delegate, "codex:1", config).unwrap();
    assert_eq!(connection.client_config().router_url, "ws://127.0.0.1:1/ws");
    let config = ClientConfig {
        router_url: "ws://127.0.0.1:1/ws".to_owned(),
        role: ClientRole::Delegate {
            owner_id: "codex:1".to_owned(),
            delegation_token: "t".to_owned(),
        },
        ca_file: None,
    };
    assert!(ConnectionSpec::from_config(McpRole::CodexCli, "codex:1", config).is_err());
    assert!(check_initial_workspace(McpRole::Delegate, &None).is_ok());
}

#[test]
fn waiting_sessions_get_the_work() {
    let mut state = joined(McpRole::CodexCli);
    let waiter = Uuid { value: 5 };
    assert!(state.begin_wait(waiter).is_ok());
    assert_eq!(state.begin_wait(Uuid { value: 6 }), Err(BackendError::WaitBusy));
    match state.handle_delivery(request("r1", None), 1_000) {
        DeliveryAction::Wait(id, got) => {
            assert_eq!(id, waiter);
            assert_eq!(got.request_id, "r1");
            let value = delivered_value(&got, 1_000);
            let work = value.get("request").unwrap();
            assert!(matches!(work.get("timeoutMs"), Some(Json::Unsigned(9_000))));
        }
        _ => panic!("the work was not delivered"),
    }
    assert!(matches!(
        state.handle_delivery(request("r2", None), 1_000),
        DeliveryAction::Reject(id, RouterErrorCode::SessionBusy) if id == "r2"
    ));
    assert_eq!(state.begin_wait(Uuid { value: 7 }), Err(BackendError::ReplyPending));
    let wrong = AgentReplyArgs { request_id: "r9".to_owned(), text: "x".to_owned() };
    assert!(state.begin_reply(&wrong, 2_000).is_err());
    let reply = AgentReplyArgs { request_id: "r1".to_owned(), text: "done".to_owned() };
    let workspace = state.begin_reply(&reply, 2_000).unwrap();
    assert!(state.finish_reply(&workspace, "r1").is_ok());
    assert!(state.pending.is_none());
    assert!(replied_value("r1").says("requestId", "r1"));
    assert!(wait_timeout_value().is_object());
}

#[test]
fn unready_hosts_reject_work() {
    let mut state = joined(McpRole::Omp);
    assert!(matches!(
        state.handle_delivery(request("r1", None), 1_000),
        DeliveryAction::Reject(_, _)
    ));
    let ready = OmpHostNotification::HostState(OmpHostState { v: 1, ready: true });
    assert!(matches!(state.handle_omp_notification(ready), Ok(OmpStep::Done)));
    assert!(matches!(
        state.handle_delivery(request("r2", None), 1_000),
        DeliveryAction::Omp(OmpServerNotification::Work { timeout_ms: 9_000, .. })
    ));
    let finished = OmpHostNotification::WorkFinished(OmpWorkFinished {
        v: 1,
        request_id: "r2".to_owned(),
        error: OmpWorkFinishedError::ReplyMissing,
    });
    assert!(matches!(
        state.handle_omp_notification(finished),
        Ok(OmpStep::Reply(id, RouterErrorCode::ReplyMissing)) if id == "r2"
    ));
    let consumed = OmpHostNotification::Consumed(OmpConsumed {
        v: 1,
        workspace: "team".to_owned(),
        cursor: 3,
    });
    assert!(matches!(
        state.handle_omp_notification(consumed),
        Ok(OmpStep::Acknowledge(_, 3))
    ));
}

#[test]
fn waits_are_answered_by_their_end() {
    let failed = |end| wait_outcome(&end).err();
    let lost = BackendError::Unavailable;
    assert_eq!(failed(WaitEnd::Untold(lost)), Some(lost));
    assert_eq!(failed(WaitEnd::Cancelled), Some(BackendError::Cancelled));
    assert_eq!(failed(WaitEnd::TimedOut(Some(lost))), Some(lost));
    assert_eq!(failed(WaitEnd::Lost), Some(lost));
    assert_eq!(failed(WaitEnd::GivenUp(BackendError::Conflict)), Some(BackendError::Conflict));
    assert!(wait_outcome(&WaitEnd::TimedOut(None)).unwrap().says("error", "wait_timeout"));
    let given = wait_outcome(&WaitEnd::Delivered(request("r1", None), 1_000)).unwrap();
    assert!(given.get("request").unwrap().says("requestId", "r1"));
    assert_eq!(wait_time(None), 30_000);
    assert_eq!(wait_time(Some(7)), 7);
}

#[test]
fn undelivered_work_is_answered() {
    let mut waiting = joined(McpRole::CodexCli);
    waiting.begin_wait(Uuid { value: 5 }).unwrap();
    let action = waiting.handle_delivery(request("r1", None), 1_000);
    assert_eq!(action.undelivered_code(), RouterErrorCode::RequestCancelled);
    waiting.reject_pending_delivery(&request("r1", None).workspace, "r1");
    assert!(waiting.pending.is_none());
    let mut host = joined(McpRole::Omp);
    let refused = host.handle_delivery(request("r2", None), 1_000);
    assert_eq!(refused.undelivered_code(), RouterErrorCode::ProviderNotReady);
    let ready = OmpHostNotification::HostState(OmpHostState { v: 1, ready: true });
    host.handle_omp_notification(ready).unwrap();
    let action = host.handle_delivery(request("r2", None), 1_000);
    assert_eq!(action.undelivered_code(), RouterErrorCode::ProviderError);
}

#[test]
fn membership_changes_end_the_work() {
    let mut state = joined(McpRole::CodexCli);
    state.begin_wait(Uuid { value: 5 }).unwrap();
    state.handle_delivery(request("r1", None), 1_000);
    let effects = state.handle_membership_changed(None, 0);
    assert!(state.membership.is_none());
    assert!(state.pending.is_none());
    let disconnected = RouterErrorCode::ProviderDisconnected;
    assert_eq!(effects.rejected, Some(("r1".to_owned(), disconnected)));
    assert!(effects.waiter.is_none());
    let mut moved = joined(McpRole::CodexCli);
    moved.begin_wait(Uuid { value: 9 }).unwrap();
    let mismatch = BackendError::Router(RouterErrorCode::WorkspaceMismatch);
    let effects = moved.handle_membership_changed(None, 0);
    assert_eq!(effects.waiter, Some((Uuid { value: 9 }, mismatch)));
    assert!(effects.unready);
    let mut waiting = joined(McpRole::CodexCli);
    waiting.begin_wait(Uuid { value: 8 }).unwrap();
    let given_up = Some((Uuid { value: 8 }, BackendError::Unavailable));
    assert_eq!(waiting.handle_event_stream_closed(), given_up);
    assert!(waiting.close().is_some());
    assert!(waiting.close().is_none());
    assert!(waiting.ensure_open().is_err());
}

#[test]
fn events_are_told_or_acknowledged() {
    let event = WorkspaceEvent {
        workspace: room(),
        seq: 7,
        kind: WorkspaceEventKind::Chat,
        actor_id: "codex:1".to_owned(),
        created_at: 1,
        request_id: None,
        target_id: None,
        task_id: None,
        content: Some("hello".to_owned()),
        ok: None,
        error: None,
    };
    let mut codex = joined(McpRole::CodexCli);
    assert!(matches!(
        codex.handle_workspace_event(&event),
        EventEffect::Acknowledge(_, 7)
    ));
    let mut omp = joined(McpRole::Omp);
    assert!(matches!(
        omp.handle_workspace_event(&event),
        EventEffect::Notify(OmpServerNotification::Unread { cursor: 7, .. })
    ));
}

#[test]
fn cancelled_work_is_forgotten() {
    let mut state = joined(McpRole::CodexCli);
    state.begin_wait(Uuid { value: 5 }).unwrap();
    state.handle_delivery(request("r1", None), 1_000);
    assert!(matches!(
        state.handle_work_cancelled(&room(), "r9".to_owned(), None),
        CancelEffect::Ignored
    ));
    assert!(matches!(
        state.handle_work_cancelled(&room(), "r1".to_owned(), None),
        CancelEffect::Cancelled(_)
    ));
    assert!(state.pending.is_none());
    state.reject_pending_delivery(&room(), "r1");
    let dispatch = TaskDispatch { id: 3, expected_version: 1 };
    let fence = TaskFence { task_id: 3, attempt_id: Uuid { value: 1 } };
    assert!(matching_cancel_task(Some(&dispatch), Some(&fence)));
    assert!(!matching_cancel_task(
        Some(&dispatch),
        Some(&TaskFence { task_id: 4, attempt_id: Uuid { value: 1 } })
    ));
    assert_eq!(remaining_millis(10, 4), 6);
    assert_eq!(remaining_millis(4, 10), 1);
}

#[test]
fn attempts_are_told_to_the_host() {
    let mut state = joined(McpRole::Omp);
    let fence = TaskFence { task_id: 3, attempt_id: Uuid { value: 11 } };
    let event = TaskAttemptEvent {
        workspace: room(),
        task_id: 3,
        attempt: Some(TaskAttempt {
            id: Uuid { value: 11 },
            task_id: 3,
            agent_id: "omp:1".to_owned(),
            session_id: Uuid { value: 12 },
            work_request_id: "r1".to_owned(),
        }),
        closed_attempt_id: None,
        current: Some(fence),
        stop_pending: None,
    };
    assert!(state.handle_task_attempt(event, Some(fence)).is_some());
    assert_eq!(state.task_lease.as_ref().unwrap().fence, fence);
    state.omp_task_stopped(fence);
    assert!(state.task_lease.is_none());
}

#[test]
fn calls_become_messages() {
    let id = new_router_request_id();
    assert!(is_request_id(&id));
    assert!(new_router_request_id() != id);
    match dispatch_with(
        "codex:1",
        McpCall::AgentSend(AgentSendArgs {
            target: "codex:2".to_owned(),
            content: "hi".to_owned(),
            timeout_ms: None,
        }),
        "r1".to_owned(),
        Uuid { value: 1 },
    ) {
        Ok(Dispatched::Route(ClientMessage::Send { to, .. }, request, timeout)) => {
            assert_eq!(to, "codex:2");
            assert_eq!(request, "r1");
            assert_eq!(timeout, 60_000);
        }
        _ => panic!("the call was not routed"),
    }
    assert!(matches!(
        dispatch("codex:1", McpCall::AgentWait(AgentWaitArgs { wait_ms: None })),
        Ok(Dispatched::Wait(_))
    ));
    assert!(matches!(
        task_read_message(
            McpCall::TaskGet(TaskIdentityArgs { workspace: "team".to_owned(), task_id: 3 }),
            "r1".to_owned(),
        ),
        Ok(ClientMessage::TaskGet { task_id: 3, .. })
    ));
    let list = McpCall::TaskList(TaskListArgs {
        workspace: "team".to_owned(),
        states: Some(vec!["no_such_state".to_owned()]),
        assigned_agent_id: None,
        after: None,
        limit: None,
    });
    assert!(task_read_message(list, "r1".to_owned()).is_err());
    let create = |operation_id| {
        McpCall::TaskCreate(TaskCreateArgs {
            workspace: "team".to_owned(),
            title: "t".to_owned(),
            description: String::new(),
            operation_id,
        })
    };
    assert!(matches!(
        task_edit_message(create(None), "r1".to_owned(), Uuid { value: 8 }),
        Ok(ClientMessage::TaskCreate { operation_id: Uuid { value: 8 }, .. })
    ));
    assert!(matches!(
        task_edit_message(create(Some(Uuid { value: 9 })), "r1".to_owned(), Uuid { value: 8 }),
        Ok(ClientMessage::TaskCreate { operation_id: Uuid { value: 9 }, .. })
    ));
    assert!(matches!(
        transition_message(
            TaskTransitionArgs {
                workspace: "team".to_owned(),
                task_id: 3,
                expected_version: 2,
                note: "n".to_owned(),
                operation_id: None,
            },
            true,
            "r1".to_owned(),
            Uuid { value: 8 },
        ),
        Ok(ClientMessage::TaskReopen { .. })
    ));
    assert!(matches!(
        attempt_message(
            TaskAttemptMutationArgs {
                workspace: "team".to_owned(),
                task_id: 3,
                attempt_id: Uuid { value: 4 },
                expected_version: 2,
                checkpoint: CheckpointInput {
                    summary: "s".to_owned(),
                    next_steps: String::new(),
                    artifacts: Vec::new(),
                    risks: String::new(),
                },
                operation_id: None,
            },
            AttemptMutation::Complete,
            "r1".to_owned(),
            Uuid { value: 8 },
        ),
        Ok(ClientMessage::TaskComplete { .. })
    ));
    assert!(matches!(
        integration_message(
            McpCall::TaskImport(TaskImportArgs {
                workspace: "team".to_owned(),
                provider: ExternalProvider::Linear,
                external_id: "X-1".to_owned(),
                operation_id: None,
            }),
            "r1".to_owned(),
            Uuid { value: 8 },
        ),
        Ok(ClientMessage::TaskImport { .. })
    ));
    assert_eq!(external_provider(ExternalProvider::Github), asr::tasks::ExternalProvider::Github);
    assert!(parse_workspace("bad name".to_owned()).is_err());
    assert_eq!(parse_task_state("in_progress").unwrap(), TaskState::InProgress);
}

fn agent(id: &str) -> AgentDescriptor {
    AgentDescriptor {
        agent_id: id.to_owned(),
        side: AgentSide::Codex,
        client: AgentClient::CodexCli,
        activity: None,
        status: AgentStatus::Idle,
        delivery_mode: DeliveryMode::Pull,
        ready: true,
        session_id: Uuid { value: 1 },
    }
}

#[test]
fn answers_are_taken_apart() {
    let others = other_agents(vec![agent("a"), agent("b"), agent("a")], "a");
    assert_eq!(others.len(), 1);
    assert_eq!(others[0].agent_id, "b");
    let agents = ServerMessage::Agents {
        request_id: "r1".to_owned(),
        workspace: room(),
        agents: vec![agent("a")],
    };
    assert_eq!(take_agents(agents).unwrap().len(), 1);
    assert!(take_agents(ServerMessage::Pong { request_id: "r1".to_owned() }).is_err());
    let posted = ServerMessage::WorkspacePosted {
        request_id: "r1".to_owned(),
        workspace: room(),
        seq: 9,
    };
    assert_eq!(take_posted(posted).unwrap().1, 9);
    let accepted = ServerMessage::Accepted {
        request_id: "r1".to_owned(),
        workspace: room(),
        to: "b".to_owned(),
    };
    assert!(check_accepted(&accepted).is_ok());
    assert!(check_accepted(&ServerMessage::Pong { request_id: "r1".to_owned() }).is_err());
}

#[test]
fn results_are_awaited_once() {
    let mut results = PendingResults::new();
    assert!(results.register("r1").is_ok());
    assert!(results.register("r1").is_err());
    assert!(results.settle("r1"));
    assert!(!results.settle("r1"));
    results.register("r2").unwrap();
    results.clear();
    assert!(!results.settle("r2"));
    let result = |workspace| {
        RoutedEnd::Result(AgentSendResult {
            workspace,
            request_id: "r1".to_owned(),
            from: "b".to_owned(),
            ok: true,
            content: Some("done".to_owned()),
            error: None,
        })
    };
    assert!(routed_outcome(&Some(room()), result(Some(room()))).is_ok());
    assert!(routed_outcome(&None, RoutedEnd::Cancelled).is_err());
    assert!(routed_outcome(&None, RoutedEnd::TimedOut).is_err());
    assert!(routed_outcome(&None, RoutedEnd::Dropped).is_err());
}

#[test]
fn waiting_ends_once() {
    let mut state = joined(McpRole::CodexCli);
    assert!(state.role_readiness());
    assert!(!joined(McpRole::Omp).role_readiness());
    let id = Uuid { value: 4 };
    assert!(state.begin_wait(id).is_ok());
    assert!(!state.end_wait(Uuid { value: 5 }));
    assert!(state.end_wait(id));
    assert!(!state.end_wait(id));
}

#[test]
fn initial_workspaces_are_the_expected_ones() {
    let mut state = RouterBackendState::new(McpRole::Omp);
    let other = WorkspaceName::parse("other".to_owned()).unwrap();
    assert!(state.joined_initial(&room(), other, 3).is_err());
    assert!(state.membership.is_none());
    assert!(state.joined_initial(&room(), room(), 3).is_ok());
    assert_eq!(state.membership.as_ref().map(|name| name.as_str().to_owned()), Some("team".to_owned()));
    assert_eq!((state.latest_cursor, state.acknowledged_cursor), (3, 3));
}

#[test]
fn calls_are_answered_by_their_own_kind() {
    let list = McpCall::AgentList(EmptyArgs {});
    assert_eq!(answer_kind(&list), Some(AnswerKind::OtherAgents));
    let leave = McpCall::WorkspaceLeave(EmptyArgs {});
    assert_eq!(answer_kind(&leave), Some(AnswerKind::Left));
    let agents = || ServerMessage::Agents {
        request_id: "r1".to_owned(),
        workspace: room(),
        agents: vec![agent("a"), agent("b")],
    };
    match tool_answer(AnswerKind::OtherAgents, "a", agents()) {
        Ok(ToolAnswer::Agents(list)) => assert_eq!(list.len(), 1),
        _ => panic!("the agents were refused"),
    }
    match tool_answer(AnswerKind::Agents, "a", agents()) {
        Ok(ToolAnswer::Agents(list)) => assert_eq!(list.len(), 2),
        _ => panic!("the agents were refused"),
    }
    assert!(matches!(
        tool_answer(AnswerKind::Tasks, "a", agents()),
        Err(BackendError::InvalidState)
    ));
    let joined = ServerMessage::WorkspaceJoined {
        request_id: "r1".to_owned(),
        workspace: room(),
        cursor: 4,
    };
    assert!(matches!(answer_effect(AnswerKind::Joined, &joined), AnswerEffect::Join(_, 4)));
    assert!(matches!(answer_effect(AnswerKind::Left, &joined), AnswerEffect::Nothing));
    match tool_answer(AnswerKind::Joined, "a", joined) {
        Ok(ToolAnswer::Value(value)) => {
            let cursor = field("cursor", Json::Unsigned(4));
            let expected = object(vec![field("workspace", Json::of_text("team")), cursor]);
            assert_eq!(value, expected);
        }
        _ => panic!("the answer was refused"),
    }
    let left = ServerMessage::WorkspaceLeft { request_id: "r1".to_owned(), workspace: None };
    assert!(matches!(answer_effect(AnswerKind::Left, &left), AnswerEffect::Leave));
    match tool_answer(AnswerKind::Left, "a", left) {
        Ok(ToolAnswer::Value(value)) => {
            assert_eq!(value, object(vec![field("workspace", Json::Null)]));
        }
        _ => panic!("the answer was refused"),
    }
    let status = ServerMessage::ExternalStatus {
        request_id: "r1".to_owned(),
        workspace: room(),
        operation: Json::of_text("o"),
        resolution: None,
    };
    match tool_answer(AnswerKind::Status, "a", status) {
        Ok(ToolAnswer::Value(value)) => {
            assert_eq!(value.text_at("operation"), Some("o"));
            assert!(value.get("resolution").unwrap().is_null());
        }
        _ => panic!("the answer was refused"),
    }
    let page = workspaces_value(vec![Json::Null], Some("n".to_owned()), true);
    assert_eq!(page.text_at("nextCursor"), Some("n"));
    assert_eq!(page.get("workspaces").unwrap().as_items().unwrap().len(), 1);
    assert_eq!(tasks_value(Vec::new(), 9, false).get("nextCursor").unwrap().as_unsigned(), Some(9));
    assert!(agents_value(Vec::new()).get("agents").unwrap().as_items().unwrap().is_empty());
}

#[test]
fn workspaces_are_taken_apart() {
    let page = ServerMessage::Workspaces {
        request_id: "r".to_owned(),
        workspaces: Vec::new(),
        next_cursor: Some("n".to_owned()),
        has_more: true,
    };
    match asr::mcp::dispatch::take_workspaces(page) {
        Ok((list, next, more)) => {
            assert!(list.is_empty());
            assert_eq!(next, Some("n".to_owned()));
            assert!(more);
        }
        Err(_) => panic!("the page was refused"),
    }
    let other = ServerMessage::Pong { request_id: "r".to_owned() };
    assert!(asr::mcp::dispatch::take_workspaces(other).is_err());
}
