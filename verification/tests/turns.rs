//! The providers' turns: inboxes, actors and their wires.

use asr::ids::Uuid;
use asr::json::{field, object, Json};
use asr::process::EnvEntry;
use asr::protocol::{TaskDispatch, TaskFence, WorkspaceName};
use asr::providers::bridge::turn::{ActorClose, BridgeActor, ResponseStep};
use asr::providers::bridge::wire::{
    cancel_message, decode_turn_result, frame_length, map_bridge_error, parse_session_id,
    end_of_read as bridge_end, read_frame, validate_response_envelope, write_frame,
    WireEvent as BridgeEvent,
};
use asr::providers::bridge::{accept_greeting, bridge_asset_path, ClaudeConfig, Greeting};
use asr::providers::codex::turn::{is_relevant_notification, CodexActor, HandleStep, MessageStep};
use asr::providers::codex::wire::{
    answer_server_request, end_of_read as codex_end, is_server_request, json_line, read_json_line,
    response_id, response_result, response_thing, thread_message, valid_json_rpc_id, ThreadSelection, WireEvent,
};
use asr::providers::codex::{CodexConfig, Handshake, HandshakeStep};
use asr::providers::inbox::{InboxPhase, ProviderInbox};
use asr::providers::reap::{ReapEvent, ReapPhase};
use asr::providers::router::{
    decide_stop, matching_dispatch, pause_reason, ready, BarrierLease, ExecutionBarrier,
    ManagedTurn, RouterClientLifecycle, StopReport, TurnEvent, TurnPhase,
};
use asr::providers::{
    after, allowed_environment_key, cancel_terminal_reason, error_of_cancel,
    filtered_provider_environment, forbidden_environment_key, validate_delegate_context,
    CancelReason, ContextAction, ContextEvent, ContextMachine, ContextRead, DelegateContextFile,
    HostEnd, ManagedLaunch, ProviderError, SessionRequest, SessionResult, TerminalEvidence, TerminalReason,
};
use asr::tasks::PauseReason;

#[test]
fn processes_are_reaped_with_or_without_grace() {
    let over = |reaped| ReapPhase::Over { reaped };
    let look = |graceful| ReapPhase::Look { graceful };
    assert_eq!(look(true).step(ReapEvent::Exited), over(true));
    assert_eq!(look(false).step(ReapEvent::Running), ReapPhase::Kill);
    let grace = look(true).step(ReapEvent::Running);
    assert_eq!(grace, ReapPhase::Grace(5_000));
    assert_eq!(grace.step(ReapEvent::Exited), over(true));
    assert_eq!(grace.step(ReapEvent::Failed), over(false));
    assert_eq!(grace.step(ReapEvent::TimedOut), look(false));
    assert_eq!(ReapPhase::Kill.step(ReapEvent::Killed), ReapPhase::Wait);
    assert_eq!(ReapPhase::Wait.step(ReapEvent::Exited), over(true));
    assert_eq!(ReapPhase::Wait.step(ReapEvent::Failed), over(false));
}

fn room() -> WorkspaceName {
    WorkspaceName::parse("team".to_owned()).unwrap()
}

fn work(id: &str, deadline: u64, task: Option<TaskDispatch>) -> SessionRequest {
    SessionRequest {
        request_id: id.to_owned(),
        workspace: Some(room()),
        from: "codex:9".to_owned(),
        content: "work".to_owned(),
        deadline,
        task,
    }
}

fn ended(id: &str, reason: TerminalReason) -> TerminalEvidence {
    TerminalEvidence { request_id: id.to_owned(), reason, child_reaped: false }
}

fn launch() -> ManagedLaunch {
    ManagedLaunch::new(
        "/bin/asr".to_owned(),
        "/work".to_owned(),
        true,
        DelegateContextFile::in_directory("/tmp/asr-provider-1".to_owned()),
        vec![EnvEntry { key: "PATH".to_owned(), value: "/bin".to_owned() }],
        "ASR_INTEGRATIONS_DIR",
    )
    .unwrap()
}

#[test]
fn environments_are_filtered() {
    assert!(allowed_environment_key("PATH"));
    assert!(!allowed_environment_key("ROUTER_TOKEN"));
    assert!(forbidden_environment_key("ROUTER_TOKEN"));
    let entry = |key: &str| EnvEntry { key: key.to_owned(), value: "x".to_owned() };
    let kept = filtered_provider_environment(vec![entry("PATH"), entry("ROUTER_TOKEN")]);
    assert_eq!(kept.len(), 1);
    assert_eq!(kept[0].key, "PATH");
}

#[test]
fn provider_failures_have_codes() {
    assert_eq!(ProviderError::LaunchFailed.code(), "provider_launch_failed");
    assert_eq!(ProviderError::CodexNoFinalResponse.code(), "codex_no_final_response");
    assert_eq!(CancelReason::TaskInterrupted.as_str(), "task_interrupted");
    assert_eq!(cancel_terminal_reason(CancelReason::TaskInterrupted), TerminalReason::OperatorInterrupt);
    assert_eq!(error_of_cancel(CancelReason::RequestTimeout), ProviderError::RequestTimeout);
    assert_eq!(after(1, 2), 3);
    assert_eq!(after(u64::MAX, 2), u64::MAX);
    assert_eq!(SessionResult::failure(ProviderError::SessionBusy).error(), Some(ProviderError::SessionBusy));
    assert_eq!(SessionResult::success("x".to_owned()).error(), None);
}

#[test]
fn contexts_are_written_or_removed() {
    assert_eq!(
        DelegateContextFile::candidate("/tmp", Uuid { value: 7 }),
        "/tmp/asr-provider-00000000-0000-0000-0000-000000000007"
    );
    let mut machine = ContextMachine::new(true, "/tmp", Some(10));
    let mut action = machine.phase;
    for _ in 0..10 {
        action = match action {
            ContextAction::Inspect => {
                machine.step(ContextEvent::Inspected { symlink: false, directory: true })
            }
            ContextAction::Written => break,
            _ => machine.step(ContextEvent::Done),
        };
    }
    assert!(matches!(action, ContextAction::Written));
    let refused = ContextMachine::new(false, "/tmp", Some(10));
    assert!(matches!(refused.phase, ContextAction::Refused(ProviderError::InvalidLaunchContext)));
    let read = ContextRead { bytes: 10, decoded: true, valid: true };
    assert!(validate_delegate_context(Some(read)).is_ok());
    assert!(validate_delegate_context(Some(ContextRead { bytes: 65_537, ..read })).is_err());
    assert!(validate_delegate_context(Some(ContextRead { valid: false, ..read })).is_err());
    assert!(validate_delegate_context(None).is_err());
}

#[test]
fn launches_name_the_context() {
    let launch = launch();
    assert!(launch.delegate_arguments().iter().any(|argument| argument == launch.context_path()));
    let overrides = launch.codex_mcp_overrides(&vec!["agent_list".to_owned()]).unwrap();
    assert!(overrides.iter().any(|text| text.contains("/bin/asr")));
    assert!(launch.codex_mcp_overrides(&Vec::new()).is_err());
    assert!(launch.codex_mcp_overrides(&vec!["bad-name".to_owned()]).is_err());
    assert!(launch.claude_mcp_config().is_object());
    assert!(ManagedLaunch::new(
        "asr".to_owned(),
        "/work".to_owned(),
        true,
        DelegateContextFile::in_directory("/tmp/x".to_owned()),
        Vec::new(),
        "ASR_INTEGRATIONS_DIR",
    )
    .is_err());
}

#[test]
fn inboxes_hold_one_piece_of_work() {
    let mut inbox = ProviderInbox::new();
    assert!(inbox.is_idle());
    let task = Some(TaskDispatch { id: 3, expected_version: 1 });
    assert!(inbox.begin(&work("r1", 100, task)).is_ok());
    assert!(inbox.begin(&work("r2", 100, None)).is_err());
    assert_eq!(inbox.phase(), InboxPhase::Running);
    assert!(inbox.result_settled("r1"));
    assert!(!inbox.result_settled("r1"));
    assert!(!inbox.result_settled("r9"));
    let fence = TaskFence { task_id: 3, attempt_id: Uuid { value: 1 } };
    assert!(inbox.bind_task_fence("r1", fence).is_ok());
    assert_eq!(
        inbox.request_cancel(&room(), "r1", Some(&fence), CancelReason::RequestCancelled),
        Ok(true)
    );
    assert!(inbox.acknowledge_cancel("r1"));
    let action = inbox.observe_terminal(ended("r1", TerminalReason::RequestCancelled)).unwrap();
    assert!(action.cancelled);
    assert_eq!(action.fence, Some(fence));
    assert_eq!(inbox.phase(), InboxPhase::StopPending);
    assert!(!inbox.confirm_stopped(&room(), "r9", Some(&fence)));
    assert!(inbox.confirm_stopped(&room(), "r1", Some(&fence)));
    assert!(inbox.is_idle());
    assert!(inbox.close().is_ok());
    assert_eq!(inbox.phase(), InboxPhase::Closed);
}

#[test]
fn barriers_are_leased_once() {
    let mut lifecycle = RouterClientLifecycle::new(room());
    let session = Uuid { value: 5 };
    assert!(lifecycle.begin_acquire(None).is_err());
    assert_eq!(lifecycle.begin_acquire(Some(session)), Ok(session));
    let fence = TaskFence { task_id: 3, attempt_id: Uuid { value: 1 } };
    let barrier = ExecutionBarrier { session_id: session, current: Some(fence), stop_pending: None };
    assert_eq!(lifecycle.acquire_barrier(session, Some(barrier)), Ok(Some(fence)));
    assert!(lifecycle.begin_acquire(Some(session)).is_err());
    let lease = lifecycle.begin_finish(Some(fence), Some(session)).unwrap();
    assert!(lifecycle.finish_execution(lease).is_ok());
    assert!(lifecycle.begin_acquire(Some(session)).is_ok());
    assert_eq!(lifecycle.workspace().as_str(), "team");
    assert_eq!(pause_reason(TerminalReason::TurnEnded), PauseReason::TurnEnded);
    assert!(matching_dispatch(Some(TaskDispatch { id: 3, expected_version: 1 }), Some(fence)));
    assert!(!matching_dispatch(Some(TaskDispatch { id: 4, expected_version: 1 }), Some(fence)));
}

#[test]
fn stops_are_reported_for_the_leased_task() {
    let session = Uuid { value: 5 };
    let fence = TaskFence { task_id: 3, attempt_id: Uuid { value: 1 } };
    let lease = BarrierLease { session_id: session, task: Some(fence) };
    let barrier = ExecutionBarrier { session_id: session, current: Some(fence), stop_pending: None };
    assert!(matches!(
        decide_stop(lease, session, Some(barrier), &ended("r1", TerminalReason::TurnEnded)),
        Ok(StopReport::Stopped { reason: PauseReason::TurnEnded, .. })
    ));
    let free = BarrierLease { session_id: session, task: None };
    let idle = ExecutionBarrier { session_id: session, current: None, stop_pending: None };
    assert!(matches!(
        decide_stop(free, session, Some(idle), &ended("r1", TerminalReason::TurnEnded)),
        Ok(StopReport::Nothing)
    ));
}

#[test]
fn managed_turns_answer_after_the_end() {
    let mut inbox = ProviderInbox::new();
    let mut turn = ManagedTurn::new(&room(), work("r1", 10_000, None), true, 0);
    assert!(matches!(turn.phase, TurnPhase::Unready));
    assert!(matches!(turn.step(&mut inbox, TurnEvent::Done), TurnPhase::Barrier));
    assert!(matches!(turn.step(&mut inbox, TurnEvent::Acquired(None, 1)), TurnPhase::Run));
    assert!(matches!(
        turn.step(&mut inbox, TurnEvent::Answered(SessionResult::success("done".to_owned()))),
        TurnPhase::Terminal
    ));
    assert!(matches!(
        turn.step(&mut inbox, TurnEvent::Ended(ended("r1", TerminalReason::TurnEnded))),
        TurnPhase::Stop
    ));
    assert_eq!(turn.step(&mut inbox, TurnEvent::Done), TurnPhase::TellReady);
    assert_eq!(turn.step(&mut inbox, TurnEvent::Done), TurnPhase::Returned);
    assert!(inbox.is_idle());
    assert!(ready(true, &inbox));
    assert_eq!(turn.into_result().unwrap().error(), None);
}

fn answered(inbox: &mut ProviderInbox) -> ManagedTurn {
    let mut turn = ManagedTurn::new(&room(), work("r1", 10_000, None), true, 0);
    turn.step(inbox, TurnEvent::Done);
    turn.step(inbox, TurnEvent::Acquired(None, 1));
    let answer = TurnEvent::Answered(SessionResult::success("done".to_owned()));
    assert_eq!(turn.step(inbox, answer), TurnPhase::Terminal);
    turn
}

#[test]
fn unseen_ends_are_no_stops() {
    let mut inbox = ProviderInbox::new();
    let mut turn = answered(&mut inbox);
    let lost = ProviderError::RouterLifecycleUnavailable;
    assert_eq!(turn.step(&mut inbox, TurnEvent::Unseen), TurnPhase::Refused(lost));
    assert!(!ready(true, &inbox));
    assert_eq!(turn.into_result().unwrap().error(), Some(lost));
}

#[test]
fn cancelled_work_is_told_with_its_end() {
    let mut inbox = ProviderInbox::new();
    let mut turn = answered(&mut inbox);
    let asked = inbox.request_cancel(&room(), "r1", None, CancelReason::RequestCancelled);
    assert_eq!(asked, Ok(true));
    turn.step(&mut inbox, TurnEvent::Ended(ended("r1", TerminalReason::RequestCancelled)));
    assert_eq!(turn.step(&mut inbox, TurnEvent::Done), TurnPhase::TellIdle);
    let lost = ProviderError::RouterLifecycleUnavailable;
    assert_eq!(turn.step(&mut inbox, TurnEvent::Untold), TurnPhase::Refused(lost));
    let mut unready = ManagedTurn::new(&room(), work("r2", 10_000, None), true, 0);
    assert_eq!(unready.step(&mut inbox, TurnEvent::Untold), TurnPhase::Refused(lost));
}

fn text(key: &str, value: &str) -> asr::json::Member {
    field(key, Json::of_text(value))
}

#[test]
fn codex_lines_are_read_back() {
    let message = object(vec![text("method", "x"), field("id", Json::Unsigned(4))]);
    let line = json_line(&message).unwrap();
    assert_eq!(line.last(), Some(&10));
    match read_json_line(&line[..line.len() - 1]) {
        WireEvent::Message { value, .. } => assert!(value.says("method", "x")),
        _ => panic!("the line was not read"),
    }
    assert!(matches!(read_json_line(b"not json"), WireEvent::ProtocolError));
    assert!(json_line(&Json::of_text(&"x".repeat(1_048_577))).is_err());
    assert!(valid_json_rpc_id(&Json::Unsigned(1)));
    assert!(!valid_json_rpc_id(&Json::Null));
}

#[test]
fn codex_requests_are_declined() {
    let request = |method: &str| object(vec![field("id", Json::Unsigned(7)), text("method", method)]);
    assert!(is_server_request(&request("x")));
    let answer = answer_server_request(&request("item/fileChange/requestApproval")).unwrap();
    assert!(answer.get("result").unwrap().says("decision", "decline"));
    let other = answer_server_request(&request("anything")).unwrap();
    assert!(matches!(other.get("error").unwrap().get("code"), Some(Json::Negative(-32_601))));
    assert!(answer_server_request(&object(vec![text("method", "x")])).is_err());
    let response = object(vec![
        field("id", Json::Unsigned(7)),
        field("result", object(vec![field("turn", object(vec![text("id", "t1")]))])),
    ]);
    assert_eq!(response_id(&response), Some(7));
    assert!(response_result(&response).is_ok());
    assert_eq!(response_thing(&response, "turn"), Some("t1".to_owned()));
    assert_eq!(response_thing(&response, "thread"), None);
}

#[test]
fn codex_shakes_hands() {
    let (mut handshake, first) = Handshake::begin(object(vec![text("name", "asr")]), ThreadSelection::start());
    assert!(first.says("method", "initialize"));
    let id = response_id(&object(vec![
        field("id", first.get("id").unwrap().copy()),
        field("result", object(Vec::new())),
    ]))
    .unwrap();
    let reply = object(vec![field("id", Json::Unsigned(id)), field("result", object(Vec::new()))]);
    let selecting = match handshake.on_message(&reply) {
        Ok(HandshakeStep::Select(initialized, select)) => {
            assert!(initialized.says("method", "initialized"));
            select
        }
        _ => panic!("no thread was selected"),
    };
    assert!(selecting.says("method", "thread/start"));
    let thread = object(vec![
        field("id", selecting.get("id").unwrap().copy()),
        field("result", object(vec![field("thread", object(vec![text("id", "th1")]))])),
    ]);
    assert!(matches!(handshake.on_message(&thread), Ok(HandshakeStep::Ready(id)) if id == "th1"));
    assert!(thread_message(ThreadSelection::resume("th1".to_owned())).says("method", "thread/resume"));
    let config = CodexConfig::managed(
        "/bin/codex".to_owned(),
        launch(),
        ThreadSelection::start(),
        vec!["agent_list".to_owned()],
        "1.2.3",
    );
    assert!(config.arguments().unwrap().iter().any(|argument| argument == "app-server"));
}

fn note(method: &str, params: Vec<asr::json::Member>) -> Json {
    object(vec![text("method", method), field("params", object(params))])
}

#[test]
fn codex_turns_collect_the_answer() {
    let mut actor = CodexActor::new("th1".to_owned(), 5_000);
    assert!(actor.is_ready());
    let start = match actor.handle(work("r1", 60_000, None), 0) {
        HandleStep::Start(message) => message,
        HandleStep::Refuse(_) => panic!("the turn was refused"),
    };
    assert!(start.says("method", "turn/start"));
    assert!(!actor.is_ready());
    assert!(matches!(actor.handle(work("r2", 60_000, None), 0), HandleStep::Refuse(_)));
    let begun = object(vec![
        field("id", start.get("id").unwrap().copy()),
        field("result", object(vec![field("turn", object(vec![text("id", "t1")]))])),
    ]);
    assert!(matches!(actor.process_message(begun, 10), Ok(MessageStep::Nothing)));
    let item = |turn: &str, answer: &str| {
        note(
            "item/completed",
            vec![
                text("threadId", "th1"),
                text("turnId", turn),
                field(
                    "item",
                    object(vec![
                        text("type", "agentMessage"),
                        text("text", answer),
                        text("phase", "final_answer"),
                    ]),
                ),
            ],
        )
    };
    assert!(is_relevant_notification("th1", &item("t1", "x")));
    assert!(!is_relevant_notification("th2", &item("t1", "x")));
    assert!(matches!(actor.process_message(item("other", "no"), 10), Ok(MessageStep::Nothing)));
    assert!(matches!(actor.process_message(item("t1", "one"), 10), Ok(MessageStep::Nothing)));
    assert!(matches!(actor.process_message(item("t1", "two"), 10), Ok(MessageStep::Nothing)));
    let done = note(
        "turn/completed",
        vec![
            text("threadId", "th1"),
            field("turn", object(vec![text("id", "t1"), text("status", "completed")])),
        ],
    );
    match actor.process_message(done, 10) {
        Ok(MessageStep::Finished(Some(SessionResult::Success { content }), evidence)) => {
            assert_eq!(content, "one\ntwo");
            assert_eq!(evidence.reason, TerminalReason::TurnEnded);
        }
        _ => panic!("the turn did not finish"),
    }
    assert!(actor.is_ready());
}

#[test]
fn codex_turns_are_cancelled() {
    let mut actor = CodexActor::new("th1".to_owned(), 5_000);
    let start = match actor.handle(work("r1", 60_000, None), 0) {
        HandleStep::Start(message) => message,
        HandleStep::Refuse(_) => panic!("the turn was refused"),
    };
    let begun = object(vec![
        field("id", start.get("id").unwrap().copy()),
        field("result", object(vec![field("turn", object(vec![text("id", "t1")]))])),
    ]);
    actor.process_message(begun, 10).unwrap();
    assert!(actor.cancel("r9", CancelReason::RequestCancelled, 1).is_err());
    let step = actor.cancel("r1", CancelReason::RequestCancelled, 1).unwrap();
    assert!(step.result.is_some());
    assert!(step.interrupt.unwrap().says("method", "turn/interrupt"));
    let finished = actor.finish(HostEnd::Closed, true);
    assert!(finished.result.is_none());
    assert!(finished.evidence.unwrap().child_reaped);
    assert!(!actor.is_ready());
}

#[test]
fn bridge_frames_are_read_back() {
    let message = object(vec![text("op", "x")]);
    let frame = write_frame(&message).unwrap();
    let header = [frame[0], frame[1], frame[2], frame[3]];
    assert_eq!(frame_length(&header), Some(frame.len() - 4));
    match read_frame(&frame[4..]) {
        BridgeEvent::Message(value) => assert!(value.says("op", "x")),
        _ => panic!("the frame was not read"),
    }
    assert_eq!(frame_length(&[0xff, 0, 0, 0]), None);
    assert!(matches!(read_frame(b"no json"), BridgeEvent::ProtocolError));
    assert!(cancel_message(3, "r1", "request_cancelled").is_object());
}

#[test]
fn bridge_answers_are_decoded() {
    let id = "01234567-89ab-4def-8123-456789abcdef";
    let good = object(vec![
        field("ok", Json::Bool(true)),
        field("result", object(vec![text("sessionId", id), text("content", "done")])),
    ]);
    let answer = decode_turn_result(&good).unwrap();
    assert!(matches!(answer.result, SessionResult::Success { content } if content == "done"));
    assert_eq!(answer.session_id, Uuid::parse(id));
    let empty = object(vec![
        field("ok", Json::Bool(true)),
        field("result", object(vec![text("sessionId", id)])),
    ]);
    assert_eq!(
        decode_turn_result(&empty).unwrap().result.error(),
        Some(ProviderError::ClaudeNoResult)
    );
    let failed = object(vec![
        field("ok", Json::Bool(false)),
        field("error", object(vec![text("code", "error_max_turns")])),
    ]);
    assert_eq!(map_bridge_error(&failed), ProviderError::ClaudeMaxTurns);
    assert_eq!(
        decode_turn_result(&failed).unwrap().result.error(),
        Some(ProviderError::ClaudeMaxTurns)
    );
    assert!(parse_session_id(&Json::of_text("x")).is_err());
    assert!(decode_turn_result(&object(Vec::new())).is_err());
}

#[test]
fn bridges_are_configured() {
    let mut config = ClaudeConfig::with_bridge_asset("/bin/node".to_owned(), "/a/bridge.mjs".to_owned(), launch());
    assert!(config.validate(true).is_ok());
    assert!(config.validate(false).is_err());
    assert!(config.arguments().contains(&"/a/bridge.mjs".to_owned()));
    config.resume_session_id = Some("no id".to_owned());
    assert!(config.validate(true).is_err());
    assert!(bridge_asset_path().ends_with("-sdk/bridge.js"));
    assert_eq!(bridge_asset_path().len(), 20);
}

#[test]
fn managed_bridges_are_looked_up() {
    let found = ClaudeConfig::managed("/bin/node".to_owned(), Some("/a/bridge.js".to_owned()), launch()).unwrap();
    assert_eq!(found.bridge_asset, "/a/bridge.js");
    assert_eq!(found.node_executable, "/bin/node");
    assert_eq!(found.max_turns, 8);
    assert_eq!(found.initialize_timeout, 10_000);
    let missing = ClaudeConfig::managed("/bin/node".to_owned(), None, launch());
    assert!(matches!(missing, Err(ProviderError::LaunchFailed)));
}

#[test]
fn bridge_turns_end_once() {
    let mut actor = BridgeActor::new(None);
    assert!(actor.is_ready());
    let start = match actor.start_turn(work("r1", 60_000, None), 0) {
        asr::providers::bridge::turn::HandleStep::Start(message) => message,
        _ => panic!("the turn was refused"),
    };
    let id = match start.get("id") {
        Some(Json::Unsigned(id)) => *id,
        _ => panic!("no number"),
    };
    let reply = object(vec![
        field("v", Json::Unsigned(1)),
        field("id", Json::Unsigned(id)),
        field("ok", Json::Bool(true)),
        field(
            "result",
            object(vec![
                text("sessionId", "01234567-89ab-4def-8123-456789abcdef"),
                text("content", "done"),
            ]),
        ),
    ]);
    assert!(validate_response_envelope(&reply, id).is_ok());
    assert!(validate_response_envelope(&reply, id + 1).is_err());
    match actor.process_response(&reply, 10) {
        Ok(ResponseStep::Finished(Some(result), evidence)) => {
            assert_eq!(result.error(), None);
            assert_eq!(evidence.request_id, "r1");
        }
        _ => panic!("the turn did not finish"),
    }
    assert!(actor.session_id().is_some());
    assert!(matches!(actor.close_actor(20), ActorClose::Shutdown(_)));
    assert!(actor.finish(HostEnd::ShutDown { told: true }, true).evidence.is_none());
}

#[test]
fn ends_of_a_host_are_told_apart() {
    let codex = |end| {
        let mut actor = CodexActor::new("th1".to_owned(), 5_000);
        assert!(matches!(actor.handle(work("r1", 60_000, None), 0), HandleStep::Start(_)));
        let step = actor.finish(end, true);
        (step.result.unwrap().error().unwrap(), step.evidence.unwrap().reason)
    };
    let ended = TerminalReason::SessionEnded;
    assert_eq!(codex(HostEnd::StartOverdue), (ProviderError::CodexProtocolError, ended));
    assert_eq!(codex(HostEnd::Garbled), (ProviderError::CodexProtocolError, ended));
    assert_eq!(codex(HostEnd::TooLong), (ProviderError::CodexProtocolError, ended));
    assert_eq!(
        codex(HostEnd::StopOverdue),
        (ProviderError::RequestTimeout, TerminalReason::RequestTimeout)
    );
    for end in [HostEnd::Exited, HostEnd::Unwritten, HostEnd::ReadOut, HostEnd::Exhausted] {
        assert_eq!(codex(end), (ProviderError::ProviderDisconnected, ended));
    }
    let bridge = |end| {
        let mut actor = BridgeActor::new(None);
        actor.start_turn(work("r1", 60_000, None), 0);
        actor.finish(end, true).result.unwrap().error().unwrap()
    };
    assert_eq!(bridge(HostEnd::Garbled), ProviderError::BridgeProtocolError);
    assert_eq!(
        bridge(HostEnd::Refused(ProviderError::ClaudeProtocolError)),
        ProviderError::ClaudeProtocolError
    );
    assert_eq!(bridge(HostEnd::StopOverdue), ProviderError::RequestTimeout);
    assert_eq!(bridge(HostEnd::Exited), ProviderError::ProviderDisconnected);
    assert!(HostEnd::ShutDown { told: true }.is_graceful());
    assert!(!HostEnd::ShutDown { told: false }.is_graceful());
    assert!(!HostEnd::Closed.is_graceful());
    assert_eq!(codex_end(&Some(WireEvent::ProtocolError)), Some(HostEnd::Garbled));
    assert_eq!(codex_end(&Some(WireEvent::Eof)), Some(HostEnd::ReadOut));
    assert_eq!(codex_end(&None), Some(HostEnd::ReadOut));
    assert_eq!(bridge_end(&Some(BridgeEvent::Message(Json::Null))), None);
    assert_eq!(bridge_end(&Some(BridgeEvent::ProtocolError)), Some(HostEnd::Garbled));
}

#[test]
fn hosts_begin_or_fail_to() {
    assert_eq!(Handshake::conclude(Some("t".to_owned())), Ok("t".to_owned()));
    assert_eq!(Handshake::conclude(None), Err(ProviderError::CodexInitializeFailed));
    for (greeting, error) in [
        (Greeting::Lost, ProviderError::ProviderDisconnected),
        (Greeting::TooLong, ProviderError::BridgeProtocolError),
        (Greeting::TimedOut, ProviderError::ClaudeInitializeFailed),
        (Greeting::Read(None), ProviderError::ProviderDisconnected),
        (Greeting::Read(Some(BridgeEvent::Eof)), ProviderError::ProviderDisconnected),
        (Greeting::Read(Some(BridgeEvent::ProtocolError)), ProviderError::BridgeProtocolError),
    ] {
        assert_eq!(accept_greeting(&greeting), Err(error));
    }
    let response = object(vec![
        field("v", Json::Unsigned(1)),
        field("id", Json::Unsigned(1)),
        field("ok", Json::Bool(true)),
        field("result", object(vec![text("state", "ready")])),
    ]);
    assert_eq!(accept_greeting(&Greeting::Read(Some(BridgeEvent::Message(response)))), Ok(None));
}

#[test]
fn readiness_is_told_where_it_is_asked_for() {
    let told = RouterClientLifecycle::new_with_explicit_readiness(room(), true);
    assert!(told.tells_readiness());
    let mut lifecycle = RouterClientLifecycle::new_with_explicit_readiness(room(), false);
    assert!(!lifecycle.tells_readiness());
    let session = Uuid { value: 5 };
    let fence = TaskFence { task_id: 3, attempt_id: Uuid { value: 1 } };
    let barrier = ExecutionBarrier { session_id: session, current: Some(fence), stop_pending: None };
    assert_eq!(lifecycle.acquire_barrier(session, Some(barrier)), Ok(Some(fence)));
    lifecycle.abandon_unowned_barrier(None);
    assert!(lifecycle.begin_acquire(Some(session)).is_err());
    lifecycle.abandon_unowned_barrier(Some(fence));
    assert!(lifecycle.begin_acquire(Some(session)).is_ok());
}

#[test]
fn codex_turns_have_their_deadlines() {
    let mut actor = CodexActor::new("th1".to_owned(), 5_000);
    assert_eq!(actor.actor_deadlines().request, None);
    assert!(matches!(actor.handle(work("r1", 60_000, None), 10), HandleStep::Start(_)));
    let deadlines = actor.actor_deadlines();
    assert_eq!(deadlines.request, Some(60_000));
    assert_eq!(deadlines.start, Some(5_010));
    assert_eq!(deadlines.cancel, None);
    let step = actor.handle_request_timeout(60_000);
    assert_eq!(step.result.unwrap().error(), Some(ProviderError::RequestTimeout));
    assert!(step.interrupt.is_none());
    assert!(actor.actor_deadlines().cancel.is_some());
    let mut lost = CodexActor::new("th1".to_owned(), 5_000);
    assert!(matches!(lost.handle(work("r1", 60_000, None), 0), HandleStep::Start(_)));
    assert_eq!(lost.start_failed().error(), Some(ProviderError::ProviderDisconnected));
    assert!(lost.active.is_none());
}

#[test]
fn bridges_are_initialized_by_their_first_response() {
    let id = "01234567-89ab-4def-8123-456789abcdef";
    let response = |ok: bool, result: Vec<asr::json::Member>| {
        object(vec![
            field("v", Json::Unsigned(1)),
            field("id", Json::Unsigned(1)),
            field("ok", Json::Bool(ok)),
            field("result", object(result)),
        ])
    };
    use_initialized(&response(true, vec![text("state", "ready")]), Ok(None));
    use_initialized(
        &response(true, vec![text("state", "ready"), text("sessionId", id)]),
        Ok(Uuid::parse(id)),
    );
    use_initialized(
        &response(true, vec![text("state", "starting")]),
        Err(ProviderError::ClaudeInitializeFailed),
    );
    use_initialized(&object(Vec::new()), Err(ProviderError::BridgeProtocolError));
}

fn use_initialized(response: &Json, expected: Result<Option<Uuid>, ProviderError>) {
    assert_eq!(asr::providers::bridge::check_initialized(response), expected);
}

#[test]
fn bridge_turns_are_closed_when_they_are_cancelled() {
    let mut actor = BridgeActor::new(None);
    assert!(matches!(
        actor.start_turn(work("r1", 60_000, None), 0),
        asr::providers::bridge::turn::HandleStep::Start(_)
    ));
    assert!(actor.actor_deadlines().0.is_some());
    assert_eq!(actor.actor_deadlines().1, None);
    assert!(actor.cancel_turn("r9", CancelReason::RequestCancelled, 1).is_err());
    let step = actor.cancel_turn("r1", CancelReason::RequestCancelled, 1).unwrap().unwrap();
    assert!(step.result.is_some());
    assert!(step.cancel.is_object());
    assert!(step.shutdown.is_object());
    assert!(actor.actor_deadlines().1.is_some());
    let mut late = BridgeActor::new(None);
    assert!(matches!(
        late.start_turn(work("r1", 60_000, None), 0),
        asr::providers::bridge::turn::HandleStep::Start(_)
    ));
    let step = late.handle_request_timeout(60_000);
    assert_eq!(step.result.unwrap().error(), Some(ProviderError::RequestTimeout));
    let mut lost = BridgeActor::new(None);
    assert!(matches!(
        lost.start_turn(work("r1", 60_000, None), 0),
        asr::providers::bridge::turn::HandleStep::Start(_)
    ));
    assert_eq!(lost.start_failed().error(), Some(ProviderError::ProviderDisconnected));
}
