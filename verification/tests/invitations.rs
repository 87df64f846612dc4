//! Invitations: tickets, certificates, prompts and how they are issued.

use asr::credentials::{CredentialFile, CredentialRole};
use asr::ids::Uuid;
use asr::net::UrlParts;
use asr::onboarding::ca::validate_ca_pem;
use asr::onboarding::issue::{
    accept_info, choose_ca, BootstrapFacts, InviteResponse, IssueEvent, IssueMachine, IssuePhase,
    PromptError, PromptMaterial, PromptOptions,
};
use asr::onboarding::prompt::{render_prompt, InfoAddress};
use asr::onboarding::routes::RouteError;
use asr::onboarding::{
    check_route_url, invite_subject, profile_candidate, profile_name, valid_sha256,
    validate_artifacts, validate_routes, BootstrapArtifact, EnrollmentError, IssuedInvite,
    OnboardingInfo, OnboardingProvider, OnboardingRoute, OnboardingTicket, RouteKind, TicketError,
    TicketVerdicts,
};
use asr::process::{RuntimeRecord, RuntimeShareMode};
use asr::protocol::{RouterErrorCode, WorkspaceName, PROTOCOL_VERSION};

const ROOT: &str = "-----BEGIN CERTIFICATE-----\n\
MIIBhDCCASugAwIBAgIUNs24HC81XkxrIWwEY5lE1nKNJmQwCgYIKoZIzj0EAwIw\n\
GDEWMBQGA1UEAwwNYXNyIHRlc3Qgcm9vdDAeFw0yNjExMTUxODE4MzJaFw0zNjEx\n\
MTIxODE4MzJaMBgxFjAUBgNVBAMMDWFzciB0ZXN0IHJvb3QwWTATBgcqhkjOPQIB\n\
BggqhkjOPQMBBwNCAASXC6DYmxew625vtXy238WT5Eo3A5r19PuTzN4VqyerTSRG\n\
pSTZE9Sd/Eq/F+Te2MQ7CmdSksaBhOq/NJe0Q76lo1MwUTAdBgNVHQ4EFgQUmUiW\n\
ppclDQohN9S98mdxQhUEFWswHwYDVR0jBBgwFoAUmUiWppclDQohN9S98mdxQhUE\n\
FWswDwYDVR0TAQH/BAUwAwEB/zAKBggqhkjOPQQDAgNHADBEAiAJj2SmM0D00gPs\n\
i3zaf5IshdykDMi3HziGV6qTg38grgIgPkm6WfYK6lRHFfzEGJ6wr1C4rWx5i7b0\n\
hBbXLqoWoS4=\n\
-----END CERTIFICATE-----\n";

const FINE: TicketVerdicts = TicketVerdicts { profile_name: true, invite_token: true };

fn room() -> WorkspaceName {
    WorkspaceName::parse("team".to_owned()).unwrap()
}

fn artifact(target: &str) -> BootstrapArtifact {
    BootstrapArtifact {
        target: target.to_owned(),
        binary_file: format!("asr-{target}"),
        binary_sha256: "a".repeat(64),
        archive_file: format!("agent-session-router-{target}.tar.gz"),
        archive_sha256: "b".repeat(64),
        binary_bytes: 10,
        archive_bytes: 20,
    }
}

fn route(kind: RouteKind, url: &str) -> OnboardingRoute {
    OnboardingRoute { kind, router_url: url.to_owned(), ca_pem: None }
}

fn ticket() -> OnboardingTicket {
    OnboardingTicket {
        version: 1,
        server_id: Uuid { value: 1 },
        invite_id: Uuid { value: 2 },
        invite_token: "T".repeat(43),
        expires_at: 1_000,
        profile_name: "home".to_owned(),
        workspace: room(),
        provider: None,
        routes: vec![
            route(RouteKind::Public, "wss://router.example.com/ws"),
            route(RouteKind::Tailnet, "ws://100.64.0.1:7447/ws"),
        ],
        manifest_sha256: "c".repeat(64),
        artifacts: vec![artifact("x86_64-unknown-linux-gnu")],
    }
}

#[test]
fn providers_have_names_and_identities() {
    assert_eq!(OnboardingProvider::CodexCli.as_str(), "codex-cli");
    assert_eq!(OnboardingProvider::Omp.as_str(), "omp");
    assert_eq!(OnboardingProvider::ClaudeCode.as_str().len(), 11);
    assert_eq!(invite_subject(Uuid { value: 2 }), "asr-00000000000000000000000000000002");
    assert_eq!(profile_candidate(Some("home"), Uuid { value: 2 }), "home");
    assert_eq!(profile_candidate(None, Uuid { value: u128::MAX }), "asr-ffffffff");
    assert_eq!(profile_name(None, Uuid { value: 1 }, true), Ok("asr-00000000".to_owned()));
    assert_eq!(profile_name(None, Uuid { value: 1 }, false), Err(TicketError::Invalid));
    assert_eq!(profile_name(Some("home"), Uuid { value: 0 }, true), Err(TicketError::Invalid));
    assert!(profile_name(Some("local"), Uuid { value: 1 }, true).is_err());
    assert_eq!(EnrollmentError::InviteUnavailable.as_str(), "invite_unavailable");
    assert_eq!(TicketError::InvalidCa.as_str(), "invalid_ca");
}

#[test]
fn digests_are_lower_case_hexadecimal() {
    assert!(valid_sha256(&"0a".repeat(32)));
    assert!(!valid_sha256(&"0A".repeat(32)));
    assert!(!valid_sha256("0a"));
}

#[test]
fn artifacts_are_validated_in_order() {
    assert!(validate_artifacts(&vec![artifact("aarch64-apple-darwin")]).is_ok());
    assert_eq!(validate_artifacts(&Vec::new()), Err(TicketError::Invalid));
    assert_eq!(
        validate_artifacts(&vec![artifact("riscv64-unknown-linux-gnu")]),
        Err(TicketError::UnsupportedTarget)
    );
    let twice = vec![artifact("aarch64-apple-darwin"), artifact("aarch64-apple-darwin")];
    assert_eq!(validate_artifacts(&twice), Err(TicketError::Invalid));
    let mut empty = artifact("aarch64-apple-darwin");
    empty.archive_bytes = 0;
    assert_eq!(validate_artifacts(&vec![empty]), Err(TicketError::Invalid));
    let mut large = artifact("aarch64-apple-darwin");
    large.binary_bytes = 536_870_913;
    assert_eq!(validate_artifacts(&vec![large]), Err(TicketError::Invalid));
}

#[test]
fn routes_are_validated_in_order() {
    assert!(validate_routes(&ticket().routes).is_ok());
    assert_eq!(validate_routes(&Vec::new()), Err(TicketError::InvalidRoute));
    let twice = vec![
        route(RouteKind::Lan, "wss://10.0.0.1/ws"),
        route(RouteKind::Lan, "wss://10.0.0.2/ws"),
    ];
    assert_eq!(validate_routes(&twice), Err(TicketError::InvalidRoute));
    let local = vec![
        route(RouteKind::Local, "ws://127.0.0.1:7447/ws"),
        route(RouteKind::Lan, "wss://10.0.0.2/ws"),
    ];
    assert_eq!(validate_routes(&local), Err(TicketError::InvalidRoute));
    assert!(validate_routes(&vec![route(RouteKind::Local, "ws://localhost:7447/ws")]).is_ok());
    for (kind, url) in [
        (RouteKind::Lan, "ws://10.0.0.1/ws"),
        (RouteKind::Public, "wss://localhost/ws"),
        (RouteKind::Tailnet, "ws://10.0.0.1/ws"),
        (RouteKind::Public, "wss://router.example.com/ws?x=1"),
        (RouteKind::Public, "wss://router.example.com/"),
        (RouteKind::Public, "no url"),
    ] {
        assert_eq!(validate_routes(&vec![route(kind, url)]), Err(TicketError::InvalidRoute));
    }
    let mut plain = route(RouteKind::Tailnet, "ws://100.64.0.1/ws");
    plain.ca_pem = Some(ROOT.to_owned());
    assert_eq!(validate_routes(&vec![plain]), Err(TicketError::InvalidCa));
    let mut secured = route(RouteKind::Lan, "wss://10.0.0.1/ws");
    secured.ca_pem = Some(ROOT.to_owned());
    assert!(validate_routes(&vec![secured]).is_ok());
    let url = UrlParts::parse("wss://router.example.com/ws").unwrap();
    assert!(check_route_url(RouteKind::Public, &url));
    assert!(!check_route_url(RouteKind::Local, &url));
}

#[test]
fn certificates_are_roots_and_nothing_else() {
    assert!(validate_ca_pem(ROOT).is_ok());
    assert!(validate_ca_pem(&format!("\n{ROOT}\n{ROOT}")).is_ok());
    for pem in [
        String::new(),
        "\n".to_owned(),
        "-----BEGIN CERTIFICATE-----\nAAAA\n-----END CERTIFICATE-----\n".to_owned(),
        format!("note\n{ROOT}"),
        ROOT.replace("-----END CERTIFICATE-----\n", ""),
        format!("{ROOT}{}", "\n".repeat(65_536)),
    ] {
        assert_eq!(validate_ca_pem(&pem), Err(TicketError::InvalidCa));
    }
}

#[test]
fn tickets_are_validated() {
    assert!(ticket().validate(FINE).is_ok());
    assert!(ticket().validate(TicketVerdicts { profile_name: false, ..FINE }).is_err());
    assert!(ticket().validate(TicketVerdicts { invite_token: false, ..FINE }).is_err());
    let mut local = ticket();
    local.profile_name = "local".to_owned();
    assert_eq!(local.validate(FINE), Err(TicketError::Invalid));
    let mut expired = ticket();
    expired.expires_at = 0;
    assert_eq!(expired.validate(FINE), Err(TicketError::Invalid));
    let mut bare = ticket();
    bare.artifacts = Vec::new();
    assert_eq!(bare.validate(FINE), Err(TicketError::Invalid));
    assert!(matches!(OnboardingTicket::parse(b"{}", Some(ticket()), FINE), Ok(_)));
    assert!(matches!(OnboardingTicket::parse(b"{}", None, FINE), Err(TicketError::Invalid)));
    let long = vec![b' '; 131_073];
    assert!(matches!(
        OnboardingTicket::parse(&long, Some(ticket()), FINE),
        Err(TicketError::Invalid)
    ));
    assert!(ticket().equals(&ticket().copy()));
    assert!(!ticket().equals(&expired));
}

fn address(router_url: &str, info_url: Option<&str>) -> InfoAddress {
    InfoAddress { router_url: router_url.to_owned(), info_url: info_url.map(str::to_owned) }
}

fn urls() -> Vec<InfoAddress> {
    vec![
        address(
            "wss://router.example.com/ws",
            Some("https://router.example.com/onboarding/info"),
        ),
        address("ws://100.64.0.1:7447/ws", Some("http://100.64.0.1:7447/onboarding/info")),
    ]
}

#[test]
fn certificates_are_given_or_named_by_the_environment() {
    let given = Some("/given".to_owned());
    assert_eq!(choose_ca(&given, Some("/named".to_owned())), given);
    assert_eq!(choose_ca(&None, Some("/named".to_owned())), Some("/named".to_owned()));
    assert_eq!(choose_ca(&None, Some(String::new())), None);
    assert_eq!(choose_ca(&None, None), None);
}

#[test]
fn prompts_are_rendered_from_the_template() {
    let urls = urls();
    let template = "pin=@@PINNED_PROVIDER@@ sha=@@LINUX_X64_SHA256@@ n=@@LINUX_X64_BYTES@@ \
                    one=@@ROUTE_1@@ two=@@ROUTE_2@@ three=@@ROUTE_3@@ t=@@TICKET_JSON@@";
    let prompt = render_prompt(&ticket(), FINE, "{\"a\":1}", &urls, template).unwrap();
    assert!(prompt.starts_with("# ASR workspace onboarding\n\n"));
    assert!(prompt.contains(&format!(
        "pin='' sha='{}' n='10' one='http://100.64.0.1:7447/onboarding/files/' \
         two='https://router.example.com/onboarding/files/' three='' t={{\"a\":1}}",
        "a".repeat(64)
    )));
    assert!(!prompt.contains("@@"));
    let mut pinned = ticket();
    pinned.provider = Some(OnboardingProvider::Omp);
    let restricted = render_prompt(&pinned, FINE, "{}", &urls, template).unwrap();
    assert!(restricted.contains("**Provider restriction: `omp` only.**"));
    assert!(render_prompt(&ticket(), FINE, "{}", &urls, "@@UNKNOWN@@").is_err());
    let public = "wss://router.example.com/ws";
    let tailnet = "ws://100.64.0.1:7447/ws";
    for unaddressed in [
        vec![address(public, Some("no url")), address(tailnet, Some("http://100.64.0.1:7447"))],
        vec![address(public, Some("https://router.example.com")), address(tailnet, None)],
        vec![address(public, Some("https://router.example.com"))],
    ] {
        assert_eq!(
            render_prompt(&ticket(), FINE, "{}", &unaddressed, template),
            Err(TicketError::InvalidRoute)
        );
    }
    let mut expired = ticket();
    expired.expires_at = 0;
    assert_eq!(
        render_prompt(&expired, FINE, "{}", &urls, template),
        Err(TicketError::Invalid)
    );
}

#[test]
fn prompts_are_the_same_in_any_order() {
    let template = "sha=@@LINUX_X64_SHA256@@ n=@@DARWIN_ARM64_BYTES@@ none=@@DARWIN_X64_BYTES@@ \
                    one=@@ROUTE_1@@ two=@@ROUTE_2@@ t=@@TICKET_JSON@@";
    let urls = urls();
    let mut one = ticket();
    one.artifacts = vec![artifact("x86_64-unknown-linux-gnu"), artifact("aarch64-apple-darwin")];
    one.artifacts[1].binary_bytes = 77;
    let mut other = one.copy();
    other.routes.reverse();
    other.artifacts.reverse();
    let first = render_prompt(&one, FINE, "{\"r\":12}", &urls, template).unwrap();
    let second = render_prompt(&other, FINE, "{\"r\":21}", &urls, template).unwrap();
    assert!(first.contains("n='77' none='0' one='http://100.64.0.1:7447/onboarding/files/'"));
    assert_ne!(first, second);
    assert_eq!(first.replace("{\"r\":12}", "{\"r\":21}"), second);
}

fn info() -> OnboardingInfo {
    OnboardingInfo {
        version: 1,
        server_id: Uuid { value: 1 },
        protocol_version: PROTOCOL_VERSION,
        manifest_sha256: Some("c".repeat(64)),
        available_targets: Vec::new(),
    }
}

fn runtime() -> RuntimeRecord {
    RuntimeRecord {
        instance_id: Uuid { value: 9 },
        control_url: "ws://127.0.0.1:7447/ws".to_owned(),
        share_mode: RuntimeShareMode::Local,
        advertised_url: None,
        owned_serve: None,
    }
}

fn admin() -> CredentialFile {
    CredentialFile {
        id: Uuid { value: 5 },
        role: CredentialRole::Operator,
        subject: "admin".to_owned(),
        agent_side: None,
        agent_client: None,
        workspaces: Vec::new(),
        token: "T".repeat(43),
    }
}

fn machine() -> IssueMachine {
    IssueMachine::new(PromptOptions {
        workspace: room(),
        create_workspace: false,
        name: None,
        provider: None,
        endpoints: Vec::new(),
        ca_file: None,
    })
}

#[test]
fn server_infos_are_checked() {
    assert!(accept_info(200, Some(info())).is_ok());
    assert_eq!(accept_info(500, Some(info())), Err(PromptError::OwnedRouterUnreachable));
    assert_eq!(accept_info(200, None), Err(PromptError::InvalidServerInfo));
    let mut nil = info();
    nil.server_id = Uuid { value: 0 };
    assert_eq!(accept_info(200, Some(nil)), Err(PromptError::InvalidServerInfo));
    assert_eq!(PromptError::TicketTooLarge.code(), Some("ticket_too_large"));
    assert_eq!(PromptError::Route(RouteError::InvalidRoutes).code(), Some("route_invalid"));
    assert_eq!(
        PromptError::Router(RouterErrorCode::InvalidMessage).code(),
        Some(RouterErrorCode::InvalidMessage.as_str())
    );
}

fn material(json: &str) -> PromptMaterial {
    PromptMaterial {
        verdicts: FINE,
        json: json.to_owned(),
        urls: urls(),
        template: "json=@@TICKET_JSON@@".to_owned(),
    }
}

fn rehearsing() -> IssueMachine {
    let mut machine = machine();
    machine.step(IssueEvent::Done);
    machine.step(IssueEvent::Runtime(Some(runtime())));
    machine.step(IssueEvent::Done);
    machine.step(IssueEvent::Admin(admin()));
    machine.step(IssueEvent::Assets(Some(BootstrapFacts {
        manifest_sha256: "c".repeat(64),
        artifacts: vec![artifact("x86_64-unknown-linux-gnu")],
    })));
    machine.step(IssueEvent::Info(200, Some(info())));
    machine.step(IssueEvent::ProfileVerdict(true));
    machine.step(IssueEvent::Routes(Ok(ticket().routes)));
    assert_eq!(machine.step(IssueEvent::Encoded(100)), IssuePhase::Rehearse);
    machine
}

#[test]
fn prompts_that_cannot_be_rendered_are_not_issued() {
    let invalid = IssuePhase::Failed(PromptError::InvalidTicket);
    let mut unnamed = material("x");
    unnamed.template = "@@UNKNOWN@@".to_owned();
    assert_eq!(rehearsing().step(IssueEvent::Material(unnamed)), invalid);
    let mut unaddressed = material("x");
    unaddressed.urls = Vec::new();
    assert_eq!(rehearsing().step(IssueEvent::Material(unaddressed)), invalid);
    assert_eq!(rehearsing().step(IssueEvent::Failed), invalid);
    assert!(rehearsing().finish().is_none());
}

#[test]
fn invitations_fail_for_what_went_wrong_outside() {
    let asking = || {
        let mut machine = machine();
        machine.step(IssueEvent::Done);
        machine.step(IssueEvent::Runtime(Some(runtime())));
        machine.step(IssueEvent::Done);
        machine.step(IssueEvent::Admin(admin()));
        let facts = BootstrapFacts { manifest_sha256: "c".repeat(64), artifacts: Vec::new() };
        assert_eq!(machine.step(IssueEvent::Assets(Some(facts))), IssuePhase::AskInfo);
        machine
    };
    let mut foreign = info();
    foreign.manifest_sha256 = Some("d".repeat(64));
    for (event, error) in [
        (IssueEvent::Unaddressed, PromptError::OwnedRuntimeInvalid),
        (IssueEvent::Untrusted, PromptError::RouteTlsFailed),
        (IssueEvent::Failed, PromptError::OwnedRouterUnreachable),
        (IssueEvent::Info(500, None), PromptError::OwnedRouterUnreachable),
        (IssueEvent::Info(200, None), PromptError::InvalidServerInfo),
        (IssueEvent::Info(200, Some(foreign)), PromptError::ManifestMismatch),
    ] {
        assert_eq!(asking().step(event), IssuePhase::Failed(error));
    }
    let mut routed = asking();
    routed.step(IssueEvent::Info(200, Some(info())));
    routed.step(IssueEvent::ProfileVerdict(true));
    assert_eq!(
        routed.step(IssueEvent::Routes(Err(RouteError::InvalidRoutes))),
        IssuePhase::Failed(PromptError::Route(RouteError::InvalidRoutes))
    );
    let mut unconnected = rehearsing();
    assert_eq!(unconnected.step(IssueEvent::Material(material("x"))), IssuePhase::Connect);
    assert_eq!(
        unconnected.step(IssueEvent::Failed),
        IssuePhase::Failed(PromptError::AdminConnectionFailed)
    );
}

#[test]
fn invitations_are_issued_after_a_rehearsal() {
    let mut machine = machine();
    assert_eq!(machine.phase(), IssuePhase::Inspect);
    assert_eq!(machine.step(IssueEvent::Done), IssuePhase::ReadRuntime);
    assert_eq!(machine.step(IssueEvent::Runtime(Some(runtime()))), IssuePhase::Probe);
    assert_eq!(machine.step(IssueEvent::Done), IssuePhase::ReadAdmin);
    assert_eq!(machine.step(IssueEvent::Admin(admin())), IssuePhase::LoadAssets);
    let facts = BootstrapFacts {
        manifest_sha256: "c".repeat(64),
        artifacts: vec![artifact("x86_64-unknown-linux-gnu")],
    };
    assert_eq!(machine.step(IssueEvent::Assets(Some(facts))), IssuePhase::AskInfo);
    assert_eq!(machine.step(IssueEvent::Info(200, Some(info()))), IssuePhase::JudgeProfile);
    assert_eq!(machine.step(IssueEvent::ProfileVerdict(true)), IssuePhase::PrepareRoutes);
    let routes = ticket().routes;
    assert_eq!(machine.step(IssueEvent::Routes(Ok(routes))), IssuePhase::Encode);
    assert_eq!(machine.ticket().unwrap().invite_token, "A".repeat(43));
    assert_eq!(machine.step(IssueEvent::Encoded(100)), IssuePhase::Rehearse);
    assert_eq!(machine.step(IssueEvent::Done), IssuePhase::Rehearse);
    assert_eq!(machine.step(IssueEvent::Material(material("draft"))), IssuePhase::Connect);
    assert_eq!(machine.step(IssueEvent::Done), IssuePhase::Issue);
    let invite = IssuedInvite {
        server_id: Uuid { value: 1 },
        invite_id: Uuid { value: 2 },
        invite_token: "T".repeat(43),
        expires_at: 1_000,
        workspace: room(),
        provider: None,
    };
    assert_eq!(
        machine.step(IssueEvent::Response(InviteResponse::Issued(invite))),
        IssuePhase::Render
    );
    assert_eq!(machine.ticket().unwrap().invite_token, "T".repeat(43));
    let rendered = {
        let given = material("ours");
        let ticket = machine.ticket().unwrap();
        render_prompt(ticket, given.verdicts, &given.json, &given.urls, &given.template).unwrap()
    };
    assert_eq!(machine.step(IssueEvent::Material(material("ours"))), IssuePhase::Issued);
    let issued = machine.finish().unwrap();
    assert_eq!(issued.text, rendered);
    assert!(issued.text.contains("json=ours"));
    assert_eq!(issued.invite_id, Uuid { value: 2 });
    assert_eq!(issued.expires_at, 1_000);
}

#[test]
fn prompts_fail_for_a_reason() {
    let mut missing = machine();
    assert_eq!(
        missing.step(IssueEvent::Missing),
        IssuePhase::Failed(PromptError::RouterNotRunning)
    );
    let mut other = machine();
    other.step(IssueEvent::Done);
    other.step(IssueEvent::Runtime(Some(runtime())));
    other.step(IssueEvent::Done);
    let mut agent = admin();
    agent.role = CredentialRole::Agent;
    assert_eq!(
        other.step(IssueEvent::Admin(agent)),
        IssuePhase::Failed(PromptError::PermissionDenied)
    );
    assert_eq!(other.step(IssueEvent::Done), IssuePhase::Failed(PromptError::PermissionDenied));
    let mut stale = machine();
    stale.step(IssueEvent::Done);
    stale.step(IssueEvent::Runtime(Some(runtime())));
    assert_eq!(
        stale.step(IssueEvent::Failed),
        IssuePhase::Failed(PromptError::OwnedRouterUnreachable)
    );
}
