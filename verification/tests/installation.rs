//! The installation of an invited provider: its journal, enrollment and set-up.

use asr::credentials::{CredentialFile, CredentialRole, PublicCredentialClaims};
use asr::ids::Uuid;
use asr::json::{field, object, Json};
use asr::onboarding::bundle::{
    bundle_paths, bundle_record, check_new_bundle, check_private, file_digest, receipt_action,
    receipt_path,
    reuse_bundle, sort_names, verify_bundle, BundleBudget, EntryFacts, InstalledBundle,
    NewBundleFault, ReceiptEvent, ReceiptPhase, Reuse, TreeContent, TreeEntry,
};
use asr::onboarding::changes::{
    Journal, PersistEvent, PersistPhase, Persistence, PlanStep, StateFile,
};
use asr::onboarding::enroll::{
    check_head, check_response, enrollment_request, EnrollEvent, EnrollPhase, Enrollment,
    Preparation, PrepareEvent, PreparePhase, ReplyHead,
};
use asr::onboarding::host::{
    choose_program, environment_path, omp_config_roots, program_path, steady_digest, valid_file,
    DirFacts, DirectoryWalk, EnvValue, FileFacts, FileStamp, OmpEnvironment, PlaceEvent,
    PlacePhase, ProgramFacts, WalkEvent, WalkPhase,
};
use asr::onboarding::install::{
    bound_invite, check_profile, next_status, report, resume_action, status_report, stored_routes,
    CaRead, FlowEvent, FlowPhase, InstallError, InstallFlow, OnboardingProfile, ProbeOutcome,
    ProfileBinding, StatusPhase, StoredRoute,
};
use asr::onboarding::journal::{
    check_lock, config_error, credential_error, is_temporary_name, journal_directories,
    validate_action, validate_claims, validate_private_file, validate_state, ActionRecord,
    ActionStatus, ConfigError, CredentialError, ExecutableFacts, InstallAction, JournalError,
    JournalState, LockOutcome, OpenFacts, Stage, StateVerdicts, TemporaryScan,
};
use asr::onboarding::providers::{
    check_feature, cli_output, file_install, journal_error, next_action, required_features,
    spawn_error, withheld_variables, CliEnd, CliOutput, FileRead, ProviderInstallError,
    ProviderInstaller, RecordedFile, Registered, SpawnError, Step,
};
use asr::onboarding::registry::printed_json;
use asr::onboarding::setup::{
    action_status, check_file, verify_recorded, ConfigurePhase, FileHash, FilePublication,
    PublishEvent, PublishPhase, RecordedReads, StepEvent, StepPhase, StepSetup,
};
use asr::onboarding::{
    invite_subject, BootstrapArtifact, EnrollmentResponse, OnboardingInfo, OnboardingProvider,
    OnboardingRoute, OnboardingTicket, RouteKind, TicketVerdicts, MAX_ENROLLMENT_BYTES,
};
use asr::protocol::{AgentClient, AgentSide, WorkspaceName, PROTOCOL_VERSION};

const FINE: TicketVerdicts = TicketVerdicts { profile_name: true, invite_token: true };
const RUNS: ExecutableFacts = ExecutableFacts { opened: Ok((true, 0o755)) };
const INVITE: Uuid = Uuid { value: 2 };
const HOME: &str = "/c/onboarding/00000000-0000-0000-0000-000000000002/omp";

fn room() -> WorkspaceName {
    WorkspaceName::parse("team".to_owned()).unwrap()
}

fn ticket() -> OnboardingTicket {
    let target = "x86_64-unknown-linux-gnu";
    OnboardingTicket {
        version: 1,
        server_id: Uuid { value: 1 },
        invite_id: INVITE,
        invite_token: "T".repeat(43),
        expires_at: 1_000,
        profile_name: "home".to_owned(),
        workspace: room(),
        provider: None,
        routes: vec![OnboardingRoute {
            kind: RouteKind::Public,
            router_url: "wss://router.example.com/ws".to_owned(),
            ca_pem: None,
        }],
        manifest_sha256: "c".repeat(64),
        artifacts: vec![BootstrapArtifact {
            target: target.to_owned(),
            binary_file: format!("asr-{target}"),
            binary_sha256: "a".repeat(64),
            archive_file: format!("agent-session-router-{target}.tar.gz"),
            archive_sha256: "b".repeat(64),
            binary_bytes: 10,
            archive_bytes: 20,
        }],
    }
}

fn state(stage: Stage) -> JournalState {
    JournalState {
        version: 1,
        invite_id: INVITE,
        provider: OnboardingProvider::Omp,
        server_id: Uuid { value: 1 },
        profile_name: "home".to_owned(),
        workspace: room(),
        enrollment_id: Uuid { value: 7 },
        credential_file: format!("{HOME}/credential.json"),
        executable: "/bin/asr".to_owned(),
        manifest_sha256: "c".repeat(64),
        stage,
        ticket: if stage == Stage::Configured { None } else { Some(ticket()) },
        actions: Vec::new(),
    }
}

fn credential() -> CredentialFile {
    CredentialFile {
        id: Uuid { value: 5 },
        role: CredentialRole::Agent,
        subject: invite_subject(INVITE),
        agent_side: Some(AgentSide::Generic),
        agent_client: Some(AgentClient::Omp),
        workspaces: vec![room()],
        token: "S".repeat(43),
    }
}

fn command(argument: &str) -> InstallAction {
    InstallAction::Command { argv: vec!["/bin/omp".to_owned(), argument.to_owned()] }
}

fn journal(stage: Stage) -> Journal {
    Journal::loaded("/c/config.json".to_owned(), HOME.to_owned(), state(stage), b"old".to_vec())
}

fn old_bytes() -> StateFile {
    StateFile::Bytes(b"old".to_vec())
}

#[test]
fn journal_failures_have_codes() {
    assert_eq!(JournalError::NotFound.code(), "journal_not_found");
    assert_eq!(JournalError::InvalidRoute.code(), "route_invalid");
    assert_eq!(config_error(ConfigError::ProfileConflict), JournalError::ProfileConflict);
    assert_eq!(credential_error(CredentialError::NotFound), JournalError::NotFound);
    assert_eq!(check_lock(LockOutcome::Busy), Err(JournalError::ConfigurationBusy));
    assert_eq!(check_lock(LockOutcome::Taken), Ok(()));
}

#[test]
fn journal_files_are_private() {
    let facts = OpenFacts { is_file: true, uid: 10, mode: 0o100_600, links: 1, bytes: 3 };
    assert!(validate_private_file(&facts, 10).is_ok());
    assert!(validate_private_file(&facts, 11).is_err());
    assert!(validate_private_file(&OpenFacts { mode: 0o100_644, ..facts }, 10).is_err());
    assert!(validate_private_file(&OpenFacts { links: 2, ..facts }, 10).is_err());
    let paths = journal_directories("/c", INVITE, OnboardingProvider::Omp).unwrap();
    assert_eq!(paths.last().unwrap(), HOME);
    assert!(journal_directories("/c", Uuid { value: 0 }, OnboardingProvider::Omp).is_err());
    let id = "01234567-89ab-4def-8123-456789abcdef";
    assert!(is_temporary_name(&format!(".credential-{id}.tmp")));
    assert!(!is_temporary_name(".credential-01234567-89ab-1def-8123-456789abcdef.tmp"));
    assert!(!is_temporary_name("credential.json"));
    assert!(TemporaryScan::new().finish().is_err());
}

#[test]
fn journals_are_validated() {
    let verdicts = StateVerdicts { profile_name: true, ticket: FINE, executable: RUNS };
    let check = |state: &JournalState| {
        validate_state(state, INVITE, OnboardingProvider::Omp, HOME, &verdicts)
    };
    assert_eq!(check(&state(Stage::Prepared)), Ok(()));
    assert_eq!(check(&state(Stage::Configured)), Ok(()));
    let mut kept = state(Stage::Configured);
    kept.ticket = Some(ticket());
    assert_eq!(check(&kept), Err(JournalError::Invalid));
    let mut moved = state(Stage::Prepared);
    moved.credential_file = "/elsewhere".to_owned();
    assert_eq!(check(&moved), Err(JournalError::Invalid));
    let mut open = state(Stage::Configured);
    open.actions.push(ActionRecord { intent: command("x"), status: ActionStatus::Planned });
    assert_eq!(check(&open), Err(JournalError::Invalid));
    let mut twice = state(Stage::Prepared);
    for _ in 0..2 {
        twice.actions.push(ActionRecord { intent: command("x"), status: ActionStatus::Planned });
    }
    assert_eq!(check(&twice), Err(JournalError::Invalid));
    let token = "T".repeat(43);
    assert!(validate_action(&command(&token), &Some(ticket()), None).is_err());
    assert!(validate_action(&command(&token), &None, None).is_ok());
    assert!(validate_action(&command("S"), &None, Some("S")).is_err());
    assert!(validate_claims(&credential(), INVITE, OnboardingProvider::Omp, &room()).is_ok());
    assert_eq!(
        validate_claims(&credential(), INVITE, OnboardingProvider::CodexCli, &room()),
        Err(JournalError::ClaimsMismatch)
    );
}

#[test]
fn journals_change_when_the_change_lasts() {
    let mut journal = journal(Stage::Prepared);
    assert!(journal.assert_unchanged(&old_bytes()).is_ok());
    assert_eq!(
        journal.assert_unchanged(&StateFile::Bytes(b"new".to_vec())),
        Err(JournalError::Conflict)
    );
    let candidate = journal.enrolled();
    assert_eq!(candidate.stage, Stage::Enrolled);
    let mut change =
        Persistence::begin(&journal, &old_bytes(), candidate, Some(b"new".to_vec())).unwrap();
    let mut seen = vec![change.phase];
    while !matches!(change.phase, PersistPhase::Done) {
        assert_eq!(journal.state().stage, Stage::Prepared);
        change = change.step(&mut journal, PersistEvent::Done);
        seen.push(change.phase);
    }
    assert_eq!(
        seen,
        vec![
            PersistPhase::Create,
            PersistPhase::Write,
            PersistPhase::Rename { replaces: true },
            PersistPhase::Unlink(None),
            PersistPhase::Sync,
            PersistPhase::Done,
        ]
    );
    assert_eq!(journal.state().stage, Stage::Enrolled);
    assert_eq!(journal.persisted, b"new");
    let configured = journal.mark_configured().unwrap();
    assert_eq!(configured.stage, Stage::Configured);
    assert!(configured.ticket.is_none());
    let large = Some(vec![b' '; 1_048_577]);
    assert!(matches!(
        Persistence::begin(&journal, &StateFile::Bytes(b"new".to_vec()), configured, large),
        Err(JournalError::Invalid)
    ));
}

#[test]
fn actions_are_planned_once_and_applied() {
    let mut journal = journal(Stage::Prepared);
    let token = "S".repeat(43);
    let planned = match journal.plan(&old_bytes(), command("link"), Ok(token.as_str())) {
        Ok(PlanStep::Record(candidate, place)) => {
            assert_eq!(place, 0);
            candidate
        }
        _ => panic!("the action was not planned"),
    };
    assert_eq!(planned.actions[0].status, ActionStatus::Planned);
    journal.state = planned;
    assert!(matches!(
        journal.plan(&old_bytes(), command("link"), Ok(token.as_str())),
        Ok(PlanStep::Known(0))
    ));
    assert!(matches!(
        journal.plan(&old_bytes(), command(&token), Ok(token.as_str())),
        Err(JournalError::Invalid)
    ));
    assert!(journal.mark_configured().is_err());
    let applied = journal.mark_applied(0).unwrap();
    assert_eq!(applied.actions[0].status, ActionStatus::Applied);
    assert!(journal.mark_applied(1).is_err());
    assert_eq!(action_status(&applied.actions, &command("link")), Some(ActionStatus::Applied));
}

#[test]
fn files_are_one_however_they_are_spelled() {
    let file = |path: &str, digest: &str| InstallAction::File {
        path: path.to_owned(),
        sha256: digest.repeat(64),
    };
    assert!(file("/a//b", "d").equals(&file("/a/./b", "d")));
    assert!(file("/a//b", "d") == file("/a/b/", "d"));
    assert!(file("/a/b", "d") != file("/a/b", "e"));
    let mut journal = journal(Stage::Enrolled);
    let record = ActionRecord { intent: file("/a/b", "d"), status: ActionStatus::Planned };
    journal.state.actions.push(record);
    let plan = |action| journal.plan(&old_bytes(), action, Ok("secret"));
    assert!(matches!(plan(file("/a//b", "d")), Ok(PlanStep::Known(0))));
    assert!(matches!(plan(file("/a//b", "e")), Err(JournalError::Conflict)));
    assert!(matches!(plan(file("/a/c", "e")), Ok(PlanStep::Record(_, 1))));
    let verdicts = StateVerdicts { profile_name: true, ticket: FINE, executable: RUNS };
    let mut respelled = state(Stage::Enrolled);
    respelled.credential_file = format!("/{HOME}/./credential.json");
    let checked = validate_state(&respelled, INVITE, OnboardingProvider::Omp, HOME, &verdicts);
    assert_eq!(checked, Ok(()));
    for path in ["/a/b", "/a/./b"] {
        let status = ActionStatus::Planned;
        respelled.actions.push(ActionRecord { intent: file(path, "d"), status });
    }
    let checked = validate_state(&respelled, INVITE, OnboardingProvider::Omp, HOME, &verdicts);
    assert_eq!(checked, Err(JournalError::Invalid));
}

#[test]
fn onboardings_are_prepared_and_resumed() {
    let begin = || {
        Preparation::begin(
            ticket(),
            FINE,
            OnboardingProvider::Omp,
            "/bin/asr".to_owned(),
            "/c/config.json".to_owned(),
            Uuid { value: 7 },
        )
    };
    let here = || PrepareEvent::Current(None);
    let mut fresh = begin();
    fresh.step(PrepareEvent::Opened(RUNS));
    fresh.step(here());
    fresh.step(PrepareEvent::Done);
    assert_eq!(fresh.phase, PreparePhase::ReadState);
    fresh.step(PrepareEvent::Failed(JournalError::NotFound));
    fresh.step(PrepareEvent::Done);
    fresh.step(PrepareEvent::Failed(JournalError::NotFound));
    assert_eq!(fresh.phase, PreparePhase::Generate);
    fresh.step(PrepareEvent::Credential(credential()));
    fresh.step(PrepareEvent::Done);
    assert_eq!(fresh.phase, PreparePhase::Persist);
    fresh.step(PrepareEvent::Done);
    assert_eq!(fresh.phase, PreparePhase::Ready);
    assert_eq!(fresh.path, HOME);
    let prepared = fresh.journal.unwrap().state;
    assert_eq!(prepared.stage, Stage::Prepared);
    let mut second = Preparation::begin(
        ticket(),
        FINE,
        OnboardingProvider::Omp,
        "/bin//./asr".to_owned(),
        "/c/config.json".to_owned(),
        Uuid { value: 8 },
    );
    second.step(PrepareEvent::Opened(RUNS));
    second.step(here());
    second.step(PrepareEvent::Done);
    second.step(PrepareEvent::Done);
    second.step(PrepareEvent::Loaded(Journal::loaded(
        "/c/config.json".to_owned(),
        HOME.to_owned(),
        prepared,
        b"old".to_vec(),
    )));
    assert_eq!(second.phase, PreparePhase::Ready);
    assert!(second.credential.is_none());
    assert_eq!(second.journal.unwrap().state.enrollment_id, Uuid { value: 7 });
    let mut bound = ticket();
    bound.provider = Some(OnboardingProvider::CodexCli);
    let refused = Preparation::begin(
        bound,
        FINE,
        OnboardingProvider::Omp,
        "/bin/asr".to_owned(),
        "/c/config.json".to_owned(),
        Uuid { value: 7 },
    );
    assert_eq!(refused.phase, PreparePhase::Failed(JournalError::Conflict));
    let mut again = begin();
    again.step(PrepareEvent::Opened(RUNS));
    again.step(here());
    again.step(PrepareEvent::Done);
    again.step(PrepareEvent::Done);
    again.step(PrepareEvent::Loaded(journal(Stage::Enrolled)));
    assert_eq!(again.phase, PreparePhase::Ready);
    let mut other = begin();
    other.step(PrepareEvent::Opened(RUNS));
    other.step(here());
    other.step(PrepareEvent::Done);
    other.step(PrepareEvent::Done);
    let mut foreign = journal(Stage::Enrolled);
    foreign.state.executable = "/bin/other".to_owned();
    other.step(PrepareEvent::Loaded(foreign));
    assert_eq!(other.phase, PreparePhase::Failed(JournalError::Conflict));
    let mut adopted = begin();
    adopted.step(PrepareEvent::Opened(RUNS));
    adopted.step(here());
    adopted.step(PrepareEvent::Done);
    adopted.step(PrepareEvent::Failed(JournalError::NotFound));
    adopted.step(PrepareEvent::Done);
    let mut wrong = credential();
    wrong.subject = "else".to_owned();
    adopted.step(PrepareEvent::Credential(wrong));
    assert_eq!(adopted.phase, PreparePhase::Failed(JournalError::ClaimsMismatch));
}

#[test]
fn configurations_are_located_after_the_ticket_is_checked() {
    let begin = |path: &str, expires_at| {
        let mut ticket = ticket();
        ticket.expires_at = expires_at;
        let program = "/bin/asr".to_owned();
        let mut work = Preparation::begin(
            ticket,
            FINE,
            OnboardingProvider::Omp,
            program,
            path.to_owned(),
            Uuid { value: 7 },
        );
        work.step(PrepareEvent::Opened(RUNS));
        work
    };
    let mut relative = begin("config.json", 1_000);
    assert_eq!(relative.phase, PreparePhase::Locate);
    relative.step(PrepareEvent::Current(Some("/c".to_owned())));
    assert_eq!(relative.phase, PreparePhase::Directories);
    assert_eq!(relative.config_path, "/c/config.json");
    assert_eq!(relative.path, HOME);
    for (path, current, error) in [
        ("config.json", None, JournalError::Io),
        ("/c/../config.json", None, JournalError::Invalid),
        ("", Some("/c".to_owned()), JournalError::Invalid),
        ("/", None, JournalError::Invalid),
    ] {
        let mut work = begin(path, 1_000);
        work.step(PrepareEvent::Current(current));
        assert_eq!(work.phase, PreparePhase::Failed(error));
    }
    assert_eq!(begin("", 0).phase, PreparePhase::Failed(JournalError::Invalid));
}

fn confirmation() -> EnrollmentResponse {
    let own = credential();
    EnrollmentResponse {
        version: 1,
        server_id: Uuid { value: 1 },
        invite_id: INVITE,
        claims: PublicCredentialClaims {
            id: own.id,
            role: own.role,
            subject: own.subject,
            agent_side: own.agent_side,
            agent_client: own.agent_client,
            workspaces: own.workspaces,
        },
    }
}

#[test]
fn enrollments_are_confirmed() {
    let journal = journal(Stage::Prepared);
    let info = OnboardingInfo {
        version: 1,
        server_id: Uuid { value: 1 },
        protocol_version: PROTOCOL_VERSION,
        manifest_sha256: Some("c".repeat(64)),
        available_targets: Vec::new(),
    };
    let route = ticket().routes.pop().unwrap();
    let mut enrollment = Enrollment::begin(&journal.state, &info, &route, true);
    assert_eq!(enrollment.phase, EnrollPhase::Unchanged);
    enrollment.step(&journal, EnrollEvent::State(old_bytes()));
    enrollment.step(&journal, EnrollEvent::Credential(credential()));
    enrollment.step(&journal, EnrollEvent::Done);
    enrollment.step(&journal, EnrollEvent::Done);
    assert_eq!(enrollment.phase, EnrollPhase::Encode);
    enrollment.step(&journal, EnrollEvent::Encoded(Some(400)));
    enrollment.step(&journal, EnrollEvent::Response(Some(confirmation())));
    assert_eq!(enrollment.phase, EnrollPhase::Exchange);
    enrollment.step(&journal, EnrollEvent::Head(json_head()));
    assert_eq!(enrollment.phase, EnrollPhase::ReadBody);
    enrollment.step(&journal, EnrollEvent::Chunk(b"{\"a\"".to_vec()));
    enrollment.step(&journal, EnrollEvent::Chunk(b":1}".to_vec()));
    assert_eq!(enrollment.body.bytes(), &b"{\"a\":1}".to_vec());
    enrollment.step(&journal, EnrollEvent::End);
    assert_eq!(enrollment.phase, EnrollPhase::Decode);
    enrollment.step(&journal, EnrollEvent::Response(Some(confirmation())));
    assert_eq!(enrollment.phase, EnrollPhase::Persist);
    enrollment.step(&journal, EnrollEvent::Done);
    enrollment.step(&journal, EnrollEvent::Done);
    assert_eq!(enrollment.phase, EnrollPhase::Enrolled);
    let mut other = confirmation();
    other.claims.id = Uuid { value: 6 };
    assert_eq!(
        check_response(&other, &journal.state, &credential()),
        Err(JournalError::ClaimsMismatch)
    );
    let request = enrollment_request(&journal.state, &credential()).unwrap();
    assert_eq!(request.invite_token, "T".repeat(43));
    assert_eq!(request.enrollment_id, Uuid { value: 7 });
    assert!(enrollment_request(&state(Stage::Configured), &credential()).is_none());
    let mut strange = Enrollment::begin(
        &journal.state,
        &OnboardingInfo { server_id: Uuid { value: 8 }, ..info },
        &route,
        true,
    );
    strange.step(&journal, EnrollEvent::State(old_bytes()));
    assert_eq!(strange.phase, EnrollPhase::Failed(JournalError::IdentityMismatch));
}

fn json_head() -> ReplyHead {
    let content_type = Some("application/json; charset=utf-8".to_owned());
    ReplyHead { status: 200, length: Some(7), content_type }
}

#[test]
fn replies_are_refused_for_a_reason() {
    let journal = journal(Stage::Prepared);
    let info = OnboardingInfo {
        version: 1,
        server_id: Uuid { value: 1 },
        protocol_version: PROTOCOL_VERSION,
        manifest_sha256: None,
        available_targets: Vec::new(),
    };
    let route = ticket().routes.pop().unwrap();
    let exchanging = || {
        let mut work = Enrollment::begin(&journal.state, &info, &route, true);
        work.step(&journal, EnrollEvent::State(old_bytes()));
        work.step(&journal, EnrollEvent::Credential(credential()));
        work.step(&journal, EnrollEvent::Done);
        work.step(&journal, EnrollEvent::Done);
        work.step(&journal, EnrollEvent::Encoded(Some(400)));
        assert_eq!(work.phase, EnrollPhase::Exchange);
        work
    };
    let mut busy = exchanging();
    busy.step(&journal, EnrollEvent::Head(ReplyHead { status: 429, ..json_head() }));
    assert_eq!(busy.phase, EnrollPhase::Failed(JournalError::RateLimited));
    let mut silent = exchanging();
    silent.step(&journal, EnrollEvent::Unreachable);
    assert_eq!(silent.phase, EnrollPhase::Failed(JournalError::Unavailable));
    let mut long = exchanging();
    long.step(&journal, EnrollEvent::Head(ReplyHead { length: None, ..json_head() }));
    long.step(&journal, EnrollEvent::Chunk(vec![b' '; MAX_ENROLLMENT_BYTES]));
    assert_eq!(long.phase, EnrollPhase::ReadBody);
    long.step(&journal, EnrollEvent::Chunk(vec![b' ']));
    assert_eq!(long.phase, EnrollPhase::Failed(JournalError::InvalidResponse));
    let mut strange = exchanging();
    strange.step(&journal, EnrollEvent::Head(json_head()));
    strange.step(&journal, EnrollEvent::End);
    strange.step(&journal, EnrollEvent::Response(None));
    assert_eq!(strange.phase, EnrollPhase::Failed(JournalError::InvalidResponse));
}

#[test]
fn replies_are_read_by_their_head() {
    let head = |status, length, kind: Option<&str>| ReplyHead {
        status,
        length,
        content_type: kind.map(str::to_owned),
    };
    assert!(check_head(&head(200, Some(10), Some("application/json"))).is_ok());
    assert_eq!(
        check_head(&head(401, None, None)),
        Err(JournalError::InviteUnavailable)
    );
    assert_eq!(check_head(&head(429, None, None)), Err(JournalError::RateLimited));
    assert_eq!(check_head(&head(503, None, None)), Err(JournalError::Unavailable));
    assert_eq!(
        check_head(&head(200, Some(4_097), Some("application/json"))),
        Err(JournalError::InvalidResponse)
    );
    assert_eq!(
        check_head(&head(200, Some(10), Some("text/plain"))),
        Err(JournalError::InvalidResponse)
    );
}

#[test]
fn paths_are_taken_from_the_environment() {
    let home = EnvValue::Text("/home/me");
    assert_eq!(
        environment_path(EnvValue::Text("~/x"), home, None, None),
        Ok("/home/me/x".to_owned())
    );
    for (value, path) in [
        ("~", "/home/me/"),
        ("~/", "/home/me/"),
        ("~//x/./", "/home/me/x"),
        ("./~", "/work/./~"),
        ("./~/x", "/work/./~/x"),
        ("~x", "/work/~x"),
        ("/~", "/~"),
    ] {
        assert_eq!(
            environment_path(EnvValue::Text(value), home, None, Some("/work")),
            Ok(path.to_owned())
        );
    }
    assert_eq!(
        environment_path(EnvValue::Unset, home, Some("/d"), None),
        Ok("/d".to_owned())
    );
    assert_eq!(
        environment_path(EnvValue::Text("../x"), home, None, Some("/work")),
        Err(ProviderInstallError::Permission)
    );
    assert_eq!(
        environment_path(EnvValue::Text("x"), home, None, None),
        Err(ProviderInstallError::Io)
    );
    let env = OmpEnvironment {
        config_dir: EnvValue::Unset,
        omp_profile: EnvValue::Unset,
        pi_profile: EnvValue::Unset,
        agent_dir: false,
        data_home: EnvValue::Unset,
        home,
    };
    let roots = omp_config_roots("/home/me", &env, None).unwrap();
    assert_eq!(roots.settle(false), "/home/me/.omp");
    assert_eq!(program_path("/usr/bin", OnboardingProvider::Omp), "/usr/bin/omp");
    let absent = ProgramFacts { there: false, is_file: false, mode: 0 };
    let there = ProgramFacts { there: true, is_file: true, mode: 0o755 };
    assert_eq!(choose_program(&vec![absent, there], OnboardingProvider::Omp), Ok(1));
    assert_eq!(
        choose_program(&vec![absent], OnboardingProvider::Omp),
        Err(ProviderInstallError::Requirement(OnboardingProvider::Omp))
    );
}

#[test]
fn directories_are_walked_by_their_owner() {
    let root = DirFacts { uid: 0, mode: 0o755 };
    let own = DirFacts { uid: 10, mode: 0o700 };
    let mut walk = DirectoryWalk::begin("/a/b", None, true, true, 10, root);
    assert_eq!(walk.phase, WalkPhase::Open(0));
    walk.step(WalkEvent::Opened(own));
    assert_eq!(walk.phase, WalkPhase::Open(1));
    walk.step(WalkEvent::Missing);
    walk.step(WalkEvent::Done);
    assert_eq!(walk.phase, WalkPhase::Make(1));
    walk.step(WalkEvent::Done);
    walk.step(WalkEvent::Done);
    assert_eq!(walk.phase, WalkPhase::Reopen(1));
    walk.step(WalkEvent::Opened(own));
    walk.step(WalkEvent::Done);
    assert_eq!(walk.phase, WalkPhase::Found);
    let mut looked = DirectoryWalk::begin("/a/b", None, false, true, 10, root);
    looked.step(WalkEvent::Opened(own));
    looked.step(WalkEvent::Missing);
    looked.step(WalkEvent::Done);
    assert_eq!(looked.phase, WalkPhase::Absent);
    let mut foreign = DirectoryWalk::begin("/a", None, true, true, 10, root);
    foreign.step(WalkEvent::Opened(DirFacts { uid: 11, mode: 0o777 }));
    assert_eq!(foreign.phase, WalkPhase::Failed(ProviderInstallError::Permission));
}

#[test]
fn files_are_placed_without_replacing() {
    let mut phase = PlacePhase::Create;
    for _ in 0..5 {
        phase = phase.next(PlaceEvent::Done);
    }
    assert_eq!(phase, PlacePhase::Placed);
    let taken = PlacePhase::Rename.next(PlaceEvent::Exists);
    assert_eq!(
        taken.next(PlaceEvent::Done),
        PlacePhase::Failed(ProviderInstallError::Conflict)
    );
    let facts = FileFacts { is_file: true, uid: 10, links: 1, mode: 0o600 };
    assert!(valid_file(&facts, 10, true).is_ok());
    assert!(valid_file(&FileFacts { mode: 0o644, ..facts }, 10, true).is_err());
    assert!(valid_file(&FileFacts { uid: 11, ..facts }, 10, false).is_err());
    let stamp = FileStamp { len: 1, mtime: 2, mtime_nanos: 3, ctime: 4, ctime_nanos: 5 };
    assert_eq!(
        steady_digest(&stamp, &stamp, b"abc").unwrap(),
        "ba7816bf8f01cfea414140de5dae2223b00361a396177a9cb410ff61f20015ad"
    );
    assert!(steady_digest(&stamp, &FileStamp { len: 2, ..stamp }, b"abc").is_err());
}

fn installer() -> ProviderInstaller {
    ProviderInstaller {
        config_path: "/c/config.json".to_owned(),
        private_root: "/c".to_owned(),
        integrations_dir: "/i".to_owned(),
        home: "/home/me".to_owned(),
        program: "/bin/omp".to_owned(),
        provider: OnboardingProvider::Omp,
        executable: "/bin/asr".to_owned(),
        invite_id: INVITE,
        enrollment_id: Uuid { value: 7 },
        executable_sha256: "e".repeat(64),
        profile: "home".to_owned(),
        version: "1.2.3".to_owned(),
        files: Vec::new(),
        steps: vec![Step::OmpLink],
        native_destinations: Vec::new(),
        omp_link_destination: None,
    }
}

#[test]
fn provider_faults_have_codes_and_advice() {
    assert_eq!(ProviderInstallError::Conflict.code(), "provider_configuration_conflict");
    assert_eq!(ProviderInstallError::OmpDisabled.code(), "plugin_disabled");
    assert!(ProviderInstallError::Requirement(OnboardingProvider::Omp)
        .next_action()
        .starts_with("Install or upgrade Oh My Pi"));
    assert_eq!(journal_error(JournalError::Permissions), ProviderInstallError::Permission);
    assert_eq!(
        spawn_error(SpawnError::NotFound, OnboardingProvider::Omp),
        ProviderInstallError::Requirement(OnboardingProvider::Omp)
    );
    assert!(matches!(cli_output(CliEnd::TimedOut), Err(ProviderInstallError::CommandFailed)));
    assert!(withheld_variables().contains(&"ROUTER_TOKEN".to_owned()));
    let feature = &required_features(OnboardingProvider::Omp)[0];
    let helped = CliOutput {
        success: true,
        stdout: feature.required.join(" ").into_bytes(),
        stderr: Vec::new(),
    };
    assert!(check_feature(&helped, &feature.required, OnboardingProvider::Omp).is_ok());
    let old = CliOutput { success: true, stdout: Vec::new(), stderr: Vec::new() };
    assert!(check_feature(&old, &feature.required, OnboardingProvider::Omp).is_err());
    assert!(next_action(OnboardingProvider::CodexCli, "/bin/asr", "home", &room())
        .starts_with("Start a new Codex CLI session"));
}

#[test]
fn steps_have_commands() {
    let installer = installer();
    let argv = installer.argv(Step::OmpLink);
    assert_eq!(argv[0], "/bin/omp");
    assert!(argv.iter().any(|argument| argument == "link"));
    assert!(installer.command_intent(Step::OmpLink)
        .equals(&InstallAction::Command { argv }));
    let arguments = installer.mcp_arguments("codex-mcp");
    assert!(arguments.contains(&"--profile".to_owned()));
    assert!(arguments.contains(&"home".to_owned()));
    let file = file_install("/a".to_owned(), b"abc".to_vec(), true);
    assert_eq!(
        file.record.sha256,
        "ba7816bf8f01cfea414140de5dae2223b00361a396177a9cb410ff61f20015ad"
    );
}

fn printed(text: &str) -> Json {
    printed_json(
        &CliOutput { success: true, stdout: text.as_bytes().to_vec(), stderr: Vec::new() },
        OnboardingProvider::Omp,
    )
    .unwrap()
}

#[test]
fn registrations_are_told_from_lists() {
    let mut installer = installer();
    installer.provider = OnboardingProvider::CodexCli;
    assert!(matches!(installer.inspect_codex_list(&printed("[]")), Ok(Registered::Absent)));
    assert!(installer.inspect_codex_list(&printed("{}")).is_err());
    let failed = CliOutput { success: false, stdout: Vec::new(), stderr: Vec::new() };
    assert!(matches!(
        printed_json(&failed, OnboardingProvider::Omp),
        Err(ProviderInstallError::CommandFailed)
    ));
    let unreadable = CliOutput { success: true, stdout: b"no".to_vec(), stderr: Vec::new() };
    assert!(matches!(
        printed_json(&unreadable, OnboardingProvider::Omp),
        Err(ProviderInstallError::Requirement(OnboardingProvider::Omp))
    ));
    installer.provider = OnboardingProvider::ClaudeCode;
    assert!(matches!(installer.inspect_marketplace(&printed("[]")), Ok(Registered::Absent)));
    assert!(matches!(
        installer.inspect_marketplace(&printed("[{\"name\":\"asr-local\"}]")),
        Err(ProviderInstallError::Conflict)
    ));
    let place = format!("/i/{}-plugin", "claude_x".split('_').next().unwrap());
    let own = Json::Array(vec![object(vec![
        field("name", Json::of_text("asr-local")),
        field("source", Json::of_text("directory")),
        field("path", Json::of_text(&place)),
        field("installLocation", Json::of_text(&place)),
    ])]);
    assert!(matches!(installer.inspect_marketplace(&own), Ok(Registered::Exact)));
}

#[test]
fn files_are_published_when_they_are_seen() {
    let record = RecordedFile { path: "/a".to_owned(), sha256: "d".repeat(64), private: true };
    let mut publication = FilePublication::begin(record.copy());
    let mut actions = Vec::new();
    publication.step(&actions, PublishEvent::Hash(FileHash::Absent));
    assert_eq!(publication.phase, PublishPhase::Plan);
    actions.push(ActionRecord { intent: record.intent(), status: ActionStatus::Planned });
    publication.step(&actions, PublishEvent::Planned(0));
    publication.step(&actions, PublishEvent::Hash(FileHash::Absent));
    assert_eq!(publication.phase, PublishPhase::Place);
    publication.step(&actions, PublishEvent::Done);
    publication.step(&actions, PublishEvent::Hash(FileHash::Hash("d".repeat(64))));
    publication.step(&actions, PublishEvent::Done);
    publication.step(&actions, PublishEvent::Done);
    assert_eq!(publication.phase, PublishPhase::Published);
    let foreign = FileHash::Hash("f".repeat(64));
    assert_eq!(check_file(&actions, &record, &foreign), Err(ProviderInstallError::Conflict));
    assert_eq!(
        check_file(&Vec::new(), &record, &FileHash::Hash("d".repeat(64))),
        Err(ProviderInstallError::Conflict)
    );
}

#[test]
fn a_missing_executable_has_no_digest() {
    assert_eq!(FileHash::Hash("d".repeat(64)).required(), Ok("d".repeat(64)));
    assert_eq!(FileHash::Absent.required(), Err(ProviderInstallError::Io));
    let failed = FileHash::Failed(ProviderInstallError::Permission);
    assert_eq!(failed.required(), Err(ProviderInstallError::Permission));
}

#[test]
fn steps_are_taken_when_they_are_seen() {
    let installer = installer();
    let mut state = state(Stage::Enrolled);
    let mut setup = StepSetup::begin(Step::CodexMcp);
    setup.step(&installer, &state, StepEvent::Done);
    setup.step(&installer, &state, StepEvent::Registered(Registered::Absent));
    setup.step(&installer, &state, StepEvent::Linked(false));
    assert_eq!(setup.phase, StepPhase::Plan);
    state.actions.push(ActionRecord {
        intent: installer.command_intent(Step::CodexMcp),
        status: ActionStatus::Planned,
    });
    setup.step(&installer, &state, StepEvent::Planned(0));
    setup.step(&installer, &state, StepEvent::Linked(false));
    assert_eq!(setup.phase, StepPhase::Run);
    setup.step(&installer, &state, StepEvent::Ran(None));
    setup.step(&installer, &state, StepEvent::Registered(Registered::Exact));
    assert_eq!(setup.phase, StepPhase::Apply);
    setup.step(&installer, &state, StepEvent::Done);
    assert_eq!(setup.phase, StepPhase::Taken);
    let mut foreign = StepSetup::begin(Step::CodexMcp);
    foreign.step(&installer, &self::state(Stage::Enrolled), StepEvent::Done);
    foreign.step(
        &installer,
        &self::state(Stage::Enrolled),
        StepEvent::Registered(Registered::Exact),
    );
    assert_eq!(foreign.phase, StepPhase::Failed(ProviderInstallError::Conflict));
}

#[test]
fn set_ups_are_configured_in_order() {
    let installer = installer();
    assert_eq!(
        installer.begin_configure(&state(Stage::Prepared)),
        ConfigurePhase::Failed(ProviderInstallError::Conflict)
    );
    let mut phase = installer.begin_configure(&state(Stage::Enrolled));
    let mut seen = Vec::new();
    while phase != ConfigurePhase::Configured {
        seen.push(phase);
        phase = installer.next_configure(phase, None);
    }
    assert_eq!(
        seen,
        vec![
            ConfigurePhase::CheckPaths,
            ConfigurePhase::CheckRegistrations,
            ConfigurePhase::TakeStep(0),
            ConfigurePhase::PublishOwnership,
            ConfigurePhase::Verify,
        ]
    );
    let nothing = RecordedReads {
        bytes: FileRead::Absent,
        ownership: None,
        executable: FileHash::Absent,
        files: Vec::new(),
    };
    assert!(verify_recorded("/c", &state(Stage::Enrolled), &nothing).is_err());
    let ownership = installer.ownership(&state(Stage::Enrolled));
    assert_eq!(ownership.commands.len(), 1);
    assert_eq!(ownership.profile, "home");
}

fn tree(name: &str, digest: &str) -> TreeEntry {
    TreeEntry {
        name: name.as_bytes().to_vec(),
        mode: 0o644,
        content: TreeContent::File(digest.to_owned()),
    }
}

#[test]
fn distributions_are_told_apart() {
    let one = bundle_record("a".repeat(64), &vec![tree("x", &"1".repeat(64))]);
    let two = bundle_record("a".repeat(64), &vec![tree("x", &"2".repeat(64))]);
    let same = bundle_record("a".repeat(64), &vec![tree("x", &"1".repeat(64))]);
    assert!(one.equals(&same));
    assert!(!one.equals(&two));
    assert_eq!(one.integrations_sha256.len(), 64);
    assert_eq!(
        sort_names(vec![b"b".to_vec(), b"a".to_vec()]),
        vec![b"a".to_vec(), b"b".to_vec()]
    );
    let mut budget = BundleBudget::new();
    assert!(budget.list(0, vec![b"b".to_vec(), b"a".to_vec()]).is_ok());
    assert!(budget.list(129, Vec::new()).is_err());
    assert!(budget.take_file(5).is_ok());
    assert!(budget.take_file(2_147_483_648).is_err());
    assert!(budget.take_file(2_147_483_643).is_ok());
    assert!(budget.take_file(1).is_err());
    let abc = "ba7816bf8f01cfea414140de5dae2223b00361a396177a9cb410ff61f20015ad";
    assert!(file_digest(3, b"abc").is_ok_and(|digest| digest == abc));
    assert!(file_digest(2, b"abc").is_err());
    assert!(file_digest(4, b"abc").is_err());
}

#[test]
fn receipts_record_distributions() {
    let state = state(Stage::Prepared);
    let path = receipt_path(&state).unwrap();
    assert_eq!(path, format!("{HOME}/bundle.json"));
    let action = receipt_action(&path, b"abc");
    let mut actions = Vec::new();
    assert!(matches!(reuse_bundle(&actions, &path, b"abc"), Ok(Reuse::Nothing)));
    actions.push(ActionRecord { intent: action, status: ActionStatus::Planned });
    assert_eq!(
        reuse_bundle(&actions, &path, b"abc"),
        Ok(Reuse::Receipt { index: 0, open: true })
    );
    let found = bundle_record("a".repeat(64), &Vec::new());
    let saved = Some(bundle_record("a".repeat(64), &Vec::new()));
    assert!(verify_bundle(&actions, &path, b"abc", &saved, &found).is_err());
    actions[0].status = ActionStatus::Applied;
    assert!(verify_bundle(&actions, &path, b"abc", &saved, &found).is_ok());
    assert!(verify_bundle(&actions, &path, b"abd", &saved, &found).is_err());
    assert!(verify_bundle(&actions, &path, b"abc", &None, &found).is_err());
    let bundle = |path: &str| InstalledBundle {
        executable: path.to_owned(),
        integrations_dir: "/i".to_owned(),
    };
    let found = Some(found);
    let offered = Some(ticket());
    let target = Some("x86_64-unknown-linux-gnu");
    let check = |path: &str, found: &_, offered: &_, target| {
        check_new_bundle(&bundle("/a/x"), &bundle(path), found, offered, target)
    };
    assert_eq!(check("/a//x", &found, &offered, target), Ok(()));
    assert_eq!(check("/b", &None, &None, None), Err(NewBundleFault::Conflict));
    assert_eq!(check("/a/x", &None, &None, None), Err(NewBundleFault::Conflict));
    assert_eq!(check("/a/x", &found, &None, None), Err(NewBundleFault::InvalidTicket));
    assert_eq!(check("/a/x", &found, &offered, None), Err(NewBundleFault::UnknownTarget));
    assert_eq!(
        check("/a/x", &found, &offered, Some("other")),
        Err(NewBundleFault::UnsupportedTarget)
    );
    let changed = Some(bundle_record("f".repeat(64), &Vec::new()));
    assert_eq!(check("/a/x", &changed, &offered, target), Err(NewBundleFault::Conflict));
    assert!(bundle_paths(&state, None).is_err());
    let file = EntryFacts { uid: 10, mode: 0o600, is_file: true, is_dir: false, links: 1 };
    let directory = EntryFacts { uid: 10, mode: 0o700, is_file: false, is_dir: true, links: 2 };
    assert!(check_private(&file, &directory, 10, 3, 3, 10).is_ok());
    assert!(check_private(&file, &directory, 10, 11, 11, 10).is_err());
    assert!(check_private(&EntryFacts { mode: 0o640, ..file }, &directory, 10, 3, 3, 10).is_err());
}

#[test]
fn receipts_are_read_back_before_they_count() {
    let mut phase = ReceiptPhase::Look.next(ReceiptEvent::Missing);
    for _ in 0..4 {
        phase = phase.next(ReceiptEvent::Done);
    }
    assert_eq!(phase, ReceiptPhase::ReadBack);
    assert_eq!(
        phase.next(ReceiptEvent::Read(true)).next(ReceiptEvent::Done),
        ReceiptPhase::Published
    );
    assert_eq!(
        phase.next(ReceiptEvent::Read(false)).next(ReceiptEvent::Done),
        ReceiptPhase::Conflict
    );
}

#[test]
fn installations_go_through_every_phase() {
    let mut flow = InstallFlow::install(&ticket(), FINE, OnboardingProvider::Omp);
    flow = flow.step(None, FlowEvent::Done);
    flow = flow.step(None, FlowEvent::Failed(InstallError::Journal(JournalError::NotFound)));
    flow = flow.step(None, FlowEvent::Done);
    assert_eq!(flow.phase, FlowPhase::Probe { manifest: true });
    flow = flow.step(None, FlowEvent::Routed("wss://r/ws".to_owned()));
    flow = flow.step(None, FlowEvent::Bundled("/bin/asr".to_owned()));
    assert_eq!(flow.phase, FlowPhase::PrepareNew);
    let state = state(Stage::Prepared);
    let mut seen = Vec::new();
    while flow.phase != FlowPhase::Finished {
        seen.push(flow.phase);
        flow = flow.step(Some(&state), FlowEvent::Done);
    }
    assert_eq!(
        seen,
        vec![
            FlowPhase::PrepareNew,
            FlowPhase::RecordBundle,
            FlowPhase::Preflight,
            FlowPhase::Enroll,
            FlowPhase::Configure,
            FlowPhase::Verify,
            FlowPhase::MarkConfigured,
        ]
    );
    assert_eq!(flow.route, Some("wss://r/ws".to_owned()));
}

#[test]
fn configured_installations_are_only_verified() {
    let state = state(Stage::Configured);
    let mut flow = InstallFlow::resume(INVITE);
    flow = flow.step(None, FlowEvent::Done);
    flow = flow.step(Some(&state), FlowEvent::Done);
    assert_eq!(flow.phase, FlowPhase::VerifyBundle);
    flow = flow.step(Some(&state), FlowEvent::Done);
    flow = flow.step(Some(&state), FlowEvent::Done);
    assert_eq!(flow.phase, FlowPhase::BindProfile);
    flow = flow.step(Some(&state), FlowEvent::Bound("wss://r/ws".to_owned()));
    assert_eq!(flow.phase, FlowPhase::Finished);
    let told = report(&state, "wss://r/ws".to_owned(), None);
    assert_eq!(told.activation, "restart_required");
    let nil = InstallFlow::resume(Uuid { value: 0 });
    assert_eq!(nil.failure(None).unwrap().code, "invalid_invite_id");
}

#[test]
fn failures_tell_how_to_go_on() {
    let state = state(Stage::Prepared);
    let command = "'/bin/asr' onboarding resume 00000000-0000-0000-0000-000000000002 \
                   --provider omp";
    assert_eq!(resume_action(&state), command);
    let mut flow = InstallFlow::resume(INVITE);
    flow = flow.step(None, FlowEvent::Done);
    flow = flow.step(Some(&state), FlowEvent::Done);
    flow = flow.step(Some(&state), FlowEvent::Failed(InstallError::BundleConflict));
    assert_eq!(flow.phase, FlowPhase::Failed);
    let told = flow.failure(Some(&state)).unwrap();
    assert_eq!(told.code, "bootstrap_install_conflict");
    assert!(told.message.ends_with(command));
    let mut other = ticket();
    other.provider = Some(OnboardingProvider::CodexCli);
    let refused = InstallFlow::install(&other, FINE, OnboardingProvider::Omp);
    assert_eq!(refused.failure(None).unwrap().code, "provider_mismatch");
}

fn profile() -> OnboardingProfile {
    OnboardingProfile {
        server_id: Some(Uuid { value: 1 }),
        router_url: "wss://r/ws".to_owned(),
        bindings: vec![ProfileBinding {
            provider: OnboardingProvider::Omp,
            workspace: room(),
            credential_file: format!("{HOME}/credential.json"),
        }],
        routes: vec![StoredRoute {
            kind: RouteKind::Public,
            router_url: "wss://r/ws".to_owned(),
            ca_file: None,
        }],
    }
}

#[test]
fn profiles_lead_to_their_journal() {
    assert!(check_profile(Some(&profile()), &state(Stage::Enrolled)).is_ok());
    assert!(matches!(
        check_profile(None, &state(Stage::Enrolled)),
        Err(InstallError::NotConfigured)
    ));
    let mut other = profile();
    other.server_id = None;
    assert!(matches!(
        check_profile(Some(&other), &state(Stage::Enrolled)),
        Err(InstallError::InvalidConfiguration)
    ));
    assert!(matches!(
        bound_invite(Some(&profile()), OnboardingProvider::Omp),
        Ok(INVITE)
    ));
    assert!(bound_invite(Some(&profile()), OnboardingProvider::CodexCli).is_err());
    let routes = stored_routes(&profile().routes, &vec![CaRead::Nothing]).unwrap();
    assert_eq!(routes[0].router_url, "wss://r/ws");
    assert!(stored_routes(&profile().routes, &vec![CaRead::Failed]).is_none());
    assert!(stored_routes(&profile().routes, &vec![CaRead::Bytes(vec![0xff])]).is_none());
    let pem = stored_routes(&profile().routes, &vec![CaRead::Bytes(b"pem".to_vec())]).unwrap();
    assert_eq!(pem[0].ca_pem, Some("pem".to_owned()));
}

#[test]
fn statuses_are_told() {
    let state = state(Stage::Enrolled);
    assert!(matches!(next_status(StatusPhase::Load, &state, "home"), Ok(StatusPhase::BindProfile)));
    assert!(matches!(next_status(StatusPhase::BindProfile, &state, "home"), Ok(StatusPhase::Probe)));
    assert!(matches!(
        next_status(StatusPhase::BindProfile, &state, "other"),
        Err(InstallError::InvalidConfiguration)
    ));
    assert!(matches!(
        next_status(StatusPhase::BindProfile, &self::state(Stage::Configured), "home"),
        Ok(StatusPhase::VerifyBundle)
    ));
    let told = status_report(&state, "wss://p/ws", ProbeOutcome::NoReachableRoute);
    let told = match told {
        Ok(told) => told,
        Err(_) => panic!("no report"),
    };
    assert_eq!(told.route, "wss://p/ws");
    assert_eq!(told.activation, "not_checked");
    let reached = status_report(&state, "wss://p/ws", ProbeOutcome::Reachable("wss://r/ws".to_owned()));
    assert!(matches!(reached, Ok(told) if told.transport == Some("reachable")));
}
