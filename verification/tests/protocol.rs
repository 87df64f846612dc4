//! The messages between sessions and the router.

use asr::credentials::{CredentialFile, CredentialRole};
use asr::ids::Uuid;
use asr::json::{field, object, Json};
use asr::protocol::client::{
    check_client_envelope, check_client_frame, parse_client_message, validate_client_message,
    ClientMessage,
};
use asr::protocol::codes::RouterErrorCode;
use asr::protocol::fields::{validate_server_unknown_fields, validate_unknown_fields};
use asr::protocol::server::{
    check_server_frame, parse_server_message, validate_event_page, validate_server_message,
    validate_workspace_event, ServerMessage,
};
use asr::protocol::{
    equal_names, is_agent_id, is_request_id, is_workspace_name, normalize_timeout_ms, valid_actor_id,
    valid_agent_client, valid_bearer, valid_shared_content, validate_page, AgentClient,
    AgentRegistration, AgentSide, DeliveryMode, TaskDispatch, WorkspaceEvent, WorkspaceEventKind,
    WorkspaceName,
};
use asr::tasks::{TaskState, TaskTextVerdicts};

const VERDICTS: TaskTextVerdicts = TaskTextVerdicts {
    title: true,
    description: true,
    note: true,
    handoff_note: true,
    checkpoint: true,
};

fn room() -> WorkspaceName {
    WorkspaceName::parse("team".to_owned()).unwrap()
}

fn bearer() -> String {
    "a".repeat(43)
}

fn valid(message: &ClientMessage) -> Result<(), RouterErrorCode> {
    validate_client_message(message, VERDICTS, 10)
}

#[test]
fn names_are_checked() {
    assert!(is_workspace_name("team-room"));
    assert!(!is_workspace_name("-team"));
    assert!(!is_workspace_name(&"a".repeat(65)));
    assert!(is_request_id("codex:1"));
    assert!(!is_request_id(""));
    assert!(is_agent_id("codex:1"));
    assert!(!is_agent_id("operator:1"));
    assert!(valid_actor_id("operator:me"));
    assert!(WorkspaceName::parse("bad name".to_owned()).is_err());
    assert_eq!(room().as_str(), "team");
    assert!(room().same(&room()));
    assert!(equal_names(&vec![room()], &vec![room()]));
    assert!(!equal_names(&vec![room()], &Vec::new()));
}

#[test]
fn workspace_names_are_request_ids_too() {
    for name in ["team", "a", "x.y_z-1"] {
        if is_workspace_name(name) {
            assert!(is_request_id(name));
        }
    }
    assert!(is_agent_id("agent.one") == valid_actor_id("agent.one"));
}

#[test]
fn bearers_and_contents_have_bounds() {
    assert!(valid_bearer(&bearer()));
    assert!(!valid_bearer(&"a".repeat(42)));
    assert!(!valid_bearer(&"+".repeat(43)));
    assert!(valid_shared_content("hello"));
    assert!(!valid_shared_content(""));
    assert!(!valid_shared_content(&"x".repeat(65_537)));
}

#[test]
fn timeouts_and_pages_are_normalised() {
    assert_eq!(normalize_timeout_ms(None), 60_000);
    assert_eq!(normalize_timeout_ms(Some(700_000)), 600_000);
    assert_eq!(normalize_timeout_ms(Some(5)), 5);
    assert_eq!(validate_page(None, None).unwrap(), (0, 50));
    assert_eq!(validate_page(Some(7), Some(100)).unwrap(), (7, 100));
    assert!(validate_page(Some(-1), None).is_err());
    assert!(validate_page(None, Some(0)).is_err());
    assert!(validate_page(None, Some(101)).is_err());
}

#[test]
fn clients_belong_to_sides() {
    assert!(valid_agent_client(AgentSide::Codex, AgentClient::CodexCli));
    assert!(!valid_agent_client(AgentSide::Codex, AgentClient::ClaudeCode));
    assert!(valid_agent_client(AgentSide::Generic, AgentClient::Omp));
}

fn register() -> ClientMessage {
    ClientMessage::Register {
        protocol_version: 2,
        agent: AgentRegistration {
            agent_id: "codex:1".to_owned(),
            side: AgentSide::Codex,
            client: AgentClient::CodexCli,
            activity: None,
            delivery_mode: DeliveryMode::Push,
        },
        token: bearer(),
        delegation_token: None,
    }
}

#[test]
fn registrations_name_the_version_first() {
    assert!(valid(&register()).is_ok());
    let raw = |version: u8| format!("{{\"type\":\"register_operator\",\"protocolVersion\":{version},\"bad\":1}}");
    assert_eq!(check_client_frame(&raw(1)), Err(RouterErrorCode::ProtocolMismatch));
    assert_eq!(check_client_frame(&raw(2)), Err(RouterErrorCode::InvalidMessage));
    let mut wrong = register();
    if let ClientMessage::Register { agent, .. } = &mut wrong {
        agent.client = AgentClient::ClaudeCode;
    }
    assert_eq!(valid(&wrong), Err(RouterErrorCode::InvalidMessage));
}

#[test]
fn requests_are_validated() {
    let send = |to: &str, content: &str| ClientMessage::Send {
        request_id: "r1".to_owned(),
        to: to.to_owned(),
        content: content.to_owned(),
        timeout_ms: None,
    };
    assert!(valid(&send("codex:2", "hi")).is_ok());
    assert!(valid(&send("not an id", "hi")).is_err());
    assert!(valid(&send("codex:2", "")).is_err());
    let reply = |ok: bool, content: Option<&str>, error: Option<RouterErrorCode>| ClientMessage::Reply {
        request_id: "r1".to_owned(),
        ok,
        content: content.map(str::to_owned),
        error,
    };
    assert!(valid(&reply(true, Some("done"), None)).is_ok());
    assert!(valid(&reply(true, None, None)).is_err());
    assert!(valid(&reply(false, None, Some(RouterErrorCode::ProviderError))).is_ok());
    assert!(valid(&reply(false, Some("x"), None)).is_err());
    assert!(valid(&ClientMessage::Ping { request_id: String::new() }).is_err());
    let tasks = |states| ClientMessage::TaskList {
        request_id: "r1".to_owned(),
        workspace: room(),
        states,
        assigned_agent_id: None,
        after: None,
        limit: None,
    };
    assert!(valid(&tasks(Some(vec![TaskState::Todo, TaskState::Done]))).is_ok());
    assert!(valid(&tasks(Some(vec![TaskState::Todo, TaskState::Todo]))).is_err());
    assert!(valid(&tasks(Some(Vec::new()))).is_err());
    let issue = |workspaces| ClientMessage::CredentialIssue {
        request_id: "r1".to_owned(),
        role: CredentialRole::Agent,
        subject: "codex:1".to_owned(),
        agent_side: Some(AgentSide::Codex),
        agent_client: Some(AgentClient::CodexCli),
        workspaces,
    };
    assert!(valid(&issue(vec![room()])).is_ok());
    assert!(valid(&issue(vec![room(), room()])).is_err());
}

#[test]
fn request_ids_are_told() {
    assert_eq!(ClientMessage::Ping { request_id: "r1".to_owned() }.request_id(), Some("r1"));
    assert_eq!(ClientMessage::Readiness { ready: true }.request_id(), None);
    assert_eq!(ServerMessage::Pong { request_id: "r1".to_owned() }.request_id(), Some("r1"));
}

#[test]
fn unknown_fields_are_refused() {
    let members = |keys: &[&str]| keys.iter().map(|key| field(key, Json::Null)).collect::<Vec<_>>();
    assert!(validate_unknown_fields("ping", &members(&["type", "requestId"])).is_ok());
    assert!(validate_unknown_fields("ping", &members(&["type", "requestId", "extra"])).is_err());
    assert!(validate_unknown_fields("no_such_kind", &members(&["type"])).is_err());
    assert!(validate_server_unknown_fields("pong", &members(&["type", "requestId"])).is_ok());
    assert!(validate_server_unknown_fields("pong", &members(&["type", "extra"])).is_err());
    assert!(check_client_envelope(&object(vec![
        field("type", Json::of_text("ping")),
        field("requestId", Json::of_text("r1")),
    ])).is_ok());
    assert!(check_client_envelope(&Json::Null).is_err());
}

#[test]
fn frames_are_parsed() {
    let raw = r#"{"type":"ping","requestId":"r1"}"#;
    assert!(check_client_frame(raw).is_ok());
    let ping = ClientMessage::Ping { request_id: "r1".to_owned() };
    assert!(parse_client_message(raw, Some(ping), VERDICTS, 10).is_ok());
    assert!(parse_client_message(raw, None, VERDICTS, 10).is_err());
    assert!(check_client_frame("[1]").is_err());
    assert!(check_client_frame("{").is_err());
    let long = format!("\"{}\"", "x".repeat(524_288));
    assert_eq!(check_client_frame(&long), Err(RouterErrorCode::MessageTooLarge));
    assert!(check_server_frame(r#"{"type":"pong","requestId":"r1"}"#).is_ok());
    let pong = ServerMessage::Pong { request_id: "r1".to_owned() };
    assert!(parse_server_message(r#"{"type":"pong","requestId":"r1"}"#, Some(pong), &[], true).is_ok());
}

fn chat(seq: i64) -> WorkspaceEvent {
    WorkspaceEvent {
        workspace: room(),
        seq,
        kind: WorkspaceEventKind::Chat,
        actor_id: "codex:1".to_owned(),
        created_at: 1,
        request_id: None,
        target_id: None,
        task_id: None,
        content: Some("hello".to_owned()),
        ok: None,
        error: None,
    }
}

#[test]
fn events_are_validated() {
    assert!(validate_workspace_event(&chat(1)).is_ok());
    assert!(validate_workspace_event(&chat(0)).is_err());
    let mut nameless = chat(1);
    nameless.actor_id = String::new();
    assert!(validate_workspace_event(&nameless).is_err());
    let mut long = chat(1);
    long.content = Some("x".repeat(65_537));
    assert!(validate_workspace_event(&long).is_err());
    assert!(validate_event_page(&vec![chat(1), chat(2)], 2).is_ok());
    assert!(validate_event_page(&vec![chat(1)], -1).is_err());
    assert!(validate_event_page(&vec![chat(1), chat(0)], 2).is_err());
}

#[test]
fn deliveries_are_validated() {
    let deliver = |timeout_ms, task| ServerMessage::Deliver {
        workspace: room(),
        request_id: "r1".to_owned(),
        from: "codex:1".to_owned(),
        content: "work".to_owned(),
        timeout_ms,
        task,
    };
    assert!(validate_server_message(&deliver(1_000, None), &[], true).is_ok());
    assert!(validate_server_message(&deliver(0, None), &[], true).is_err());
    let task = Some(TaskDispatch { id: 1, expected_version: 1 });
    assert!(validate_server_message(&deliver(1_000, task), &[], true).is_ok());
    let bad = Some(TaskDispatch { id: 0, expected_version: 1 });
    assert!(validate_server_message(&deliver(1_000, bad), &[], true).is_err());
}

#[test]
fn error_codes_travel_as_texts() {
    assert_eq!(RouterErrorCode::InvalidMessage.as_str(), "invalid_message");
    assert_eq!(RouterErrorCode::LeaveUnconfirmed.as_str(), "leave_unconfirmed");
    assert_eq!(RouterErrorCode::IntegrationConfigurationInvalid.as_str(), "integration_configuration_invalid");
}

#[test]
fn credentials_are_copied_whole() {
    let credential = CredentialFile {
        id: Uuid { value: 9 },
        role: CredentialRole::Agent,
        subject: "s".to_owned(),
        agent_side: Some(AgentSide::Codex),
        agent_client: None,
        workspaces: vec![room()],
        token: bearer(),
    };
    let copy = credential.copy();
    assert_eq!(copy.token, bearer());
    assert_eq!(copy.workspaces.len(), 1);
    assert_eq!(copy.id, credential.id);
}

#[test]
fn workspace_names_give_their_text_back() {
    let name = asr::protocol::WorkspaceName::parse("team".to_owned()).unwrap();
    assert_eq!(name.into_string(), "team");
}
