//! What is set up for a provider: the layout, the registrations, and the checks of paths.

use asr::ids::Uuid;
use asr::json::Json;
use asr::onboarding::bundle::{
    check_file, check_owner, check_program, check_traversed, directory_names, receipt_place,
    EntryFacts,
};
use asr::onboarding::host::{
    absolute_path, check_destination, check_read, temporary_file, FileFacts, MAX_BYTES,
};
use asr::onboarding::install::{ca_directory, configuration_path, with_resume, InstallError};
use asr::onboarding::journal::{
    check_credential_file, check_state_file, open_error, validate_directory, validate_executable,
    ActionRecord, ActionStatus, ExecutableFacts, InstallAction, JournalError, JournalState,
    LinkFacts, OpenFacts, Stage, TemporaryScan, MAX_STATE_BYTES,
};
use asr::onboarding::providers::{
    config_variable, inspect_arguments, list_arguments, CliOutput, FileRead, LayoutReads, ProviderInstallError, ProviderInstaller, Registered, Step,
    OMP_PACKAGE,
};
use asr::onboarding::registry::{
    inspect_package, printed_json, PackageEntry, PluginEntry, PluginReads,
};
use asr::onboarding::setup::{
    action_for_file, ownership_path, FileHash, LinkPlace, LinkPlan, PathReads, PreflightEvent,
    PreflightPhase,
};
use asr::onboarding::OnboardingProvider;
use asr::protocol::WorkspaceName;
use asr::text::{respell, word};

fn room() -> WorkspaceName {
    WorkspaceName::parse("team".to_owned()).unwrap()
}

fn installer(provider: OnboardingProvider) -> ProviderInstaller {
    ProviderInstaller {
        config_path: "/c/config.json".to_owned(),
        private_root: "/c".to_owned(),
        integrations_dir: "/i".to_owned(),
        home: "/home/me".to_owned(),
        program: "/bin/host".to_owned(),
        provider,
        executable: "/bin/asr".to_owned(),
        invite_id: Uuid { value: 2 },
        enrollment_id: Uuid { value: 7 },
        executable_sha256: "e".repeat(64),
        profile: "home".to_owned(),
        version: "1.2.3".to_owned(),
        files: Vec::new(),
        steps: Vec::new(),
        native_destinations: Vec::new(),
        omp_link_destination: None,
    }
}

fn state(stage: Stage, actions: Vec<ActionRecord>) -> JournalState {
    JournalState {
        version: 1,
        invite_id: Uuid { value: 2 },
        provider: OnboardingProvider::Omp,
        server_id: Uuid { value: 1 },
        profile_name: "home".to_owned(),
        workspace: room(),
        enrollment_id: Uuid { value: 7 },
        credential_file: "/c/onboarding/i/omp/credential.json".to_owned(),
        executable: "/bin/asr".to_owned(),
        manifest_sha256: "c".repeat(64),
        stage,
        ticket: None,
        actions,
    }
}

fn found(text: &str) -> FileRead {
    FileRead::Found(text.as_bytes().to_vec())
}

fn json(text: &str) -> Json {
    printed_json(&printed(true, text, ""), OnboardingProvider::Omp).unwrap()
}

fn recorded(intent: InstallAction, status: ActionStatus) -> ActionRecord {
    ActionRecord { intent, status }
}

fn reads(first: FileRead, second: FileRead, third: FileRead, fourth: FileRead) -> LayoutReads {
    LayoutReads {
        first,
        second,
        third,
        fourth,
        config: Ok("/conf".to_owned()),
        config_named: false,
    }
}

#[test]
fn skills_are_installed_for_codex() {
    let mut codex = installer(OnboardingProvider::CodexCli);
    assert_eq!(codex.layout_paths(), vec!["/i/codex/skills/asr/SKILL.md".to_owned()]);
    let nothing = || FileRead::Absent;
    let skill = reads(found("skill"), nothing(), nothing(), nothing());
    assert_eq!(codex.prepare_layout(&skill, &room()), Ok(()));
    assert_eq!(codex.files.len(), 1);
    assert_eq!(codex.files[0].record.path, "/home/me/.agents/skills/asr/SKILL.md");
    assert_eq!(codex.files[0].bytes, b"skill".to_vec());
    assert!(!codex.files[0].record.private);
    assert_eq!(codex.steps, vec![Step::CodexMcp]);
    assert_eq!(codex.native_destinations, vec!["/conf/config.toml".to_owned()]);
    assert_eq!(codex.omp_link_destination, None);
    let mut bare = installer(OnboardingProvider::CodexCli);
    let missing = reads(nothing(), nothing(), nothing(), nothing());
    assert_eq!(bare.prepare_layout(&missing, &room()), Err(ProviderInstallError::Io));
    assert!(bare.steps.is_empty());
}

#[test]
fn descriptors_are_installed_for_the_plugin_host() {
    let package = format!("{{\"name\":\"{OMP_PACKAGE}\",\"version\":\"1.2.3\"}}");
    let mut omp = installer(OnboardingProvider::Omp);
    let all = reads(found(&package), found("index"), found("skill"), FileRead::Absent);
    assert_eq!(omp.prepare_layout(&all, &room()), Ok(()));
    assert_eq!(omp.files[0].record.path, "/c/hosts/omp.json");
    assert!(omp.files[0].record.private);
    let descriptor = json(&String::from_utf8(omp.files[0].bytes.clone()).unwrap());
    assert!(descriptor.says("executable", "/bin/asr"));
    assert!(descriptor.says("profile", "home"));
    assert!(descriptor.says("workspace", "team"));
    assert_eq!(omp.steps, vec![Step::OmpLink]);
    assert_eq!(
        omp.omp_link_destination,
        Some(format!("/conf/plugins/node_modules/{OMP_PACKAGE}"))
    );
    let old = package.replace("1.2.3", "1.2.2");
    let mut other = installer(OnboardingProvider::Omp);
    let stale = reads(found(&old), found("index"), found("skill"), FileRead::Absent);
    assert_eq!(other.prepare_layout(&stale, &room()), Err(ProviderInstallError::Conflict));
}

#[test]
fn plugins_are_offered_alone() {
    let marketplace = "{\"name\":\"asr-local\",\"owner\":{\"name\":\"Agent Session Router\"},\
        \"plugins\":[{\"name\":\"asr\",\"source\":\"./plugins/asr\"}]}";
    let plugin = "{\"name\":\"asr\",\"version\":\"1.2.3\"}";
    let mut own = installer(OnboardingProvider::ClaudeCode);
    assert_eq!(own.layout_paths().len(), 4);
    let all = reads(found(marketplace), found(plugin), FileRead::Absent, found("skill"));
    assert_eq!(own.prepare_layout(&all, &room()), Ok(()));
    assert!(own.files.is_empty());
    assert_eq!(own.steps, vec![Step::ClaudeMarketplace, Step::ClaudePlugin, Step::ClaudeMcp]);
    let settings = format!("/home/me/.{}.json", word("claude_x"));
    assert_eq!(own.native_destinations[4], settings);
    let mut named = installer(OnboardingProvider::ClaudeCode);
    let all = LayoutReads { config_named: true, ..all };
    assert_eq!(named.prepare_layout(&all, &room()), Ok(()));
    assert_eq!(named.native_destinations[4], format!("/conf/.{}.json", word("claude_x")));
    let mut tools = installer(OnboardingProvider::ClaudeCode);
    let brings = reads(found(marketplace), found(plugin), found("{}"), found("skill"));
    assert_eq!(tools.prepare_layout(&brings, &room()), Err(ProviderInstallError::Conflict));
    let more = marketplace.replace("\"./plugins/asr\"}", "\"./plugins/asr\",\"x\":1}");
    let extended = reads(found(&more), found(plugin), FileRead::Absent, found("skill"));
    assert_eq!(tools.prepare_layout(&extended, &room()), Err(ProviderInstallError::Conflict));
}

fn plugin_reads(skill: &str, tools: FileRead) -> PluginReads {
    PluginReads {
        installed_manifest: found("manifest"),
        manifest: found("manifest"),
        installed_skill: found(skill),
        skill: found("skill"),
        tools,
    }
}

#[test]
fn plugins_count_where_they_are_exact() {
    let own = installer(OnboardingProvider::ClaudeCode);
    assert!(matches!(own.plugin_entry(&json("[]"), None), Ok(PluginEntry::Absent)));
    let listed = "[{\"id\":\"asr@asr-local\",\"scope\":\"user\",\"version\":\"1.2.3\",\
        \"installPath\":\"cache/asr\",\"enabled\":true}]";
    match own.plugin_entry(&json(listed), Some("/work")) {
        Ok(PluginEntry::Installed { path, enabled }) => {
            assert_eq!(path, "/work/cache/asr");
            assert_eq!(enabled, Some(true));
        }
        _ => panic!("the plugin was not found"),
    }
    assert!(matches!(
        own.plugin_entry(&json(&listed.replace("user", "project")), Some("/work")),
        Err(ProviderInstallError::Conflict)
    ));
    assert!(matches!(
        own.plugin_entry(&json("[{\"name\":\"asr\"}]"), None),
        Err(ProviderInstallError::Requirement(OnboardingProvider::ClaudeCode))
    ));
    let exact = plugin_reads("skill", FileRead::Absent);
    assert!(matches!(own.inspect_plugin(&exact, Some(true)), Ok(Registered::Exact)));
    assert!(matches!(own.inspect_plugin(&exact, Some(false)), Ok(Registered::Disabled)));
    assert!(own.inspect_plugin(&exact, None).is_err());
    let changed = plugin_reads("other", FileRead::Absent);
    assert!(matches!(
        own.inspect_plugin(&changed, Some(true)),
        Err(ProviderInstallError::Conflict)
    ));
    let brings = plugin_reads("skill", found("{}"));
    assert!(matches!(
        own.inspect_plugin(&brings, Some(true)),
        Err(ProviderInstallError::Conflict)
    ));
}

fn printed(success: bool, stdout: &str, stderr: &str) -> CliOutput {
    CliOutput {
        success,
        stdout: stdout.as_bytes().to_vec(),
        stderr: stderr.as_bytes().to_vec(),
    }
}

#[test]
fn tool_servers_count_where_they_are_exact() {
    let codex = installer(OnboardingProvider::CodexCli);
    let exact = "{\"name\":\"agent_session_router\",\"enabled\":true,\"transport\":{\
        \"type\":\"stdio\",\"command\":\"/bin/asr\",\
        \"args\":[\"--profile\",\"home\",\"mcp\",\"codex-cli\"],\"env\":{},\"cwd\":null}}";
    assert!(matches!(
        codex.inspect_codex_mcp(&printed(true, exact, "")),
        Ok(Some(Registered::Exact))
    ));
    let foreign = exact.replace("/bin/asr", "/bin/other");
    assert!(matches!(
        codex.inspect_codex_mcp(&printed(true, &foreign, "")),
        Err(ProviderInstallError::Conflict)
    ));
    let kept = exact.replace("\"env\":{}", "\"env\":{\"A\":\"b\"}");
    assert!(codex.inspect_codex_mcp(&printed(true, &kept, "")).is_err());
    assert!(matches!(codex.inspect_codex_mcp(&printed(false, "", "no")), Ok(None)));
    let taken = json("[{\"name\":\"agent_session_router\"}]");
    assert!(matches!(codex.inspect_codex_list(&taken), Err(ProviderInstallError::Conflict)));
}

#[test]
fn channel_descriptions_are_read_line_by_line() {
    let own = installer(OnboardingProvider::ClaudeCode);
    let role = respell("claude_channel", '-');
    let text = format!(
        "agent-session-router-channel:\n  Scope: User config (available in all your projects)\n  \
         Status: ok\n  Type: stdio\n  Command: /bin/asr\n  Args: --profile home mcp {role}\n  \
         Environment:\n\n"
    );
    assert!(matches!(
        own.inspect_claude_mcp(&printed(true, &text, "")),
        Ok(Registered::Exact)
    ));
    let twice = format!("{text}Type: stdio\n");
    assert!(matches!(
        own.inspect_claude_mcp(&printed(true, &twice, "")),
        Err(ProviderInstallError::Conflict)
    ));
    let unknown = format!("{text}Anything\n");
    assert!(own.inspect_claude_mcp(&printed(true, &unknown, "")).is_err());
    let absent = "No MCP server found with name: agent-session-router-channel\n";
    assert!(matches!(
        own.inspect_claude_mcp(&printed(false, "", absent)),
        Ok(Registered::Absent)
    ));
    assert!(matches!(
        own.inspect_claude_mcp(&printed(false, "", "broken")),
        Err(ProviderInstallError::CommandFailed)
    ));
}

#[test]
fn packages_count_where_they_are_linked() {
    let omp = installer(OnboardingProvider::Omp);
    let none = json("{\"npm\":[],\"marketplace\":[]}");
    assert!(matches!(omp.package_entry(&none), Ok(PackageEntry::Absent)));
    let listed = format!(
        "{{\"npm\":[{{\"name\":\"{OMP_PACKAGE}\",\"version\":\"1.2.3\",\"path\":\"/p\",\
         \"enabled\":false}}],\"marketplace\":[]}}"
    );
    match omp.package_entry(&json(&listed)) {
        Ok(PackageEntry::Linked { path, features, enabled }) => {
            assert_eq!(path, Some("/p".to_owned()));
            assert!(!features);
            assert_eq!(enabled, Some(false));
        }
        _ => panic!("the package was not found"),
    }
    let taken = json("{\"npm\":[],\"marketplace\":[{\"id\":\"asr@x\"}]}");
    assert!(matches!(omp.package_entry(&taken), Err(ProviderInstallError::Conflict)));
    let provider = OnboardingProvider::Omp;
    assert!(matches!(
        inspect_package(Some("/p"), Some("/p"), false, Some(true), provider),
        Ok(Registered::Exact)
    ));
    assert!(matches!(
        inspect_package(Some("/p"), Some("/q"), false, Some(true), provider),
        Err(ProviderInstallError::Conflict)
    ));
    assert!(matches!(
        inspect_package(Some("/p"), None, false, Some(true), provider),
        Err(ProviderInstallError::Io)
    ));
}

#[test]
fn foreign_registrations_are_refused() {
    let omp = installer(OnboardingProvider::Omp);
    let fresh = state(Stage::Enrolled, Vec::new());
    assert_eq!(omp.accept_registration(Step::OmpLink, Registered::Absent, &fresh), Ok(()));
    assert_eq!(
        omp.accept_registration(Step::OmpLink, Registered::Exact, &fresh),
        Err(ProviderInstallError::Conflict)
    );
    assert_eq!(
        omp.accept_registration(Step::OmpLink, Registered::Disabled, &fresh),
        Err(ProviderInstallError::OmpDisabled)
    );
    assert_eq!(
        omp.accept_registration(Step::ClaudePlugin, Registered::Disabled, &fresh),
        Err(ProviderInstallError::ClaudeDisabled)
    );
    let link = || omp.command_intent(Step::OmpLink);
    let planned = state(Stage::Enrolled, vec![recorded(link(), ActionStatus::Planned)]);
    assert!(omp.pending_link(&planned));
    assert_eq!(omp.accept_registration(Step::OmpLink, Registered::Disabled, &planned), Ok(()));
    assert_eq!(omp.accept_registration(Step::OmpLink, Registered::Exact, &planned), Ok(()));
    let applied = state(Stage::Enrolled, vec![recorded(link(), ActionStatus::Applied)]);
    assert!(!omp.pending_link(&applied));
    assert_eq!(
        omp.accept_registration(Step::OmpLink, Registered::Absent, &applied),
        Err(ProviderInstallError::Conflict)
    );
}

#[test]
fn only_the_own_link_is_replaced() {
    let mut omp = installer(OnboardingProvider::Omp);
    let link = || LinkPlace::Present {
        link: true,
        uid: 10,
        links: 1,
        target: Some("/i/omp".to_owned()),
        unchanged: true,
    };
    assert_eq!(omp.check_omp_link_destination(&Vec::new(), &link(), 10), Ok(false));
    omp.omp_link_destination = Some("/conf/plugins/node_modules/x".to_owned());
    assert_eq!(
        omp.check_omp_link_destination(&Vec::new(), &link(), 10),
        Err(ProviderInstallError::Conflict)
    );
    let actions = vec![recorded(omp.command_intent(Step::OmpLink), ActionStatus::Planned)];
    assert_eq!(omp.check_omp_link_destination(&actions, &link(), 10), Ok(true));
    assert_eq!(
        omp.check_omp_link_destination(&actions, &link(), 11),
        Err(ProviderInstallError::Conflict)
    );
    assert_eq!(omp.check_omp_link_destination(&actions, &LinkPlace::Absent, 10), Ok(false));
}

fn paths() -> PathReads {
    PathReads {
        home: Ok(true),
        root: Ok(true),
        executable: FileHash::Hash("e".repeat(64)),
        destinations: vec![Ok(())],
        link: Ok(false),
        cache: Ok(false),
        places: Vec::new(),
        files: Vec::new(),
        manifest_place: Ok(()),
        manifest: Ok(false),
        recorded: Ok(()),
    }
}

#[test]
fn paths_are_checked_before_anything_changes() {
    let own = installer(OnboardingProvider::ClaudeCode);
    let none = Vec::new();
    assert_eq!(own.check_paths(&none, &paths()), Ok(()));
    let homeless = PathReads { home: Ok(false), ..paths() };
    assert_eq!(own.check_paths(&none, &homeless), Err(ProviderInstallError::Permission));
    let changed = PathReads { executable: FileHash::Hash("f".repeat(64)), ..paths() };
    assert_eq!(own.check_paths(&none, &changed), Err(ProviderInstallError::Conflict));
    let closed =
        PathReads { destinations: vec![Err(ProviderInstallError::Permission)], ..paths() };
    assert_eq!(own.check_paths(&none, &closed), Err(ProviderInstallError::Permission));
    let copied = || PathReads { cache: Ok(true), ..paths() };
    assert_eq!(own.check_paths(&none, &copied()), Err(ProviderInstallError::Conflict));
    let actions = vec![recorded(own.command_intent(Step::ClaudePlugin), ActionStatus::Planned)];
    assert_eq!(own.check_paths(&actions, &copied()), Ok(()));
    let unread =
        PathReads { manifest: Ok(true), recorded: Err(ProviderInstallError::Conflict), ..paths() };
    assert_eq!(own.check_paths(&none, &unread), Err(ProviderInstallError::Conflict));
    let path = ownership_path("/c", OnboardingProvider::ClaudeCode);
    let file = InstallAction::File { path: path.clone(), sha256: "d".repeat(64) };
    let lost = vec![recorded(file, ActionStatus::Applied)];
    let (digest, status) = action_for_file(&lost, &path).unwrap();
    assert_eq!((digest.len(), status), (64, ActionStatus::Applied));
    assert_eq!(own.check_paths(&lost, &paths()), Err(ProviderInstallError::Conflict));
}

#[test]
fn set_ups_are_rehearsed_in_order() {
    let fresh = state(Stage::Enrolled, Vec::new());
    let codex = installer(OnboardingProvider::CodexCli);
    let mut phase = PreflightPhase::Layout;
    for _ in 0..5 {
        phase = codex.preflight(phase, &fresh, PreflightEvent::Done);
    }
    assert_eq!(phase, PreflightPhase::Ready);
    let omp = installer(OnboardingProvider::Omp);
    let asked = omp.preflight(PreflightPhase::Registrations, &fresh, PreflightEvent::Done);
    assert_eq!(asked, PreflightPhase::LinkPlan);
    let plan = |state: &JournalState, plan: LinkPlan| {
        omp.preflight(PreflightPhase::LinkPlan, state, PreflightEvent::Planned(plan))
    };
    assert_eq!(plan(&fresh, LinkPlan::Ready), PreflightPhase::LinkPlace);
    assert_eq!(
        plan(&fresh, LinkPlan::EnableRequired),
        PreflightPhase::Failed(ProviderInstallError::OmpDisabled)
    );
    assert_eq!(
        plan(&fresh, LinkPlan::Failed),
        PreflightPhase::Failed(ProviderInstallError::Requirement(OnboardingProvider::Omp))
    );
    let link = recorded(omp.command_intent(Step::OmpLink), ActionStatus::Planned);
    let planned = state(Stage::Enrolled, vec![link]);
    assert_eq!(plan(&planned, LinkPlan::EnableRequired), PreflightPhase::LinkPlace);
}

#[test]
fn distributions_belong_to_their_owner() {
    let facts = EntryFacts { uid: 10, mode: 0o755, is_file: true, is_dir: false, links: 1 };
    let with = |uid: u32, mode: u32, links: u64| EntryFacts {
        uid,
        mode,
        is_file: true,
        is_dir: false,
        links,
    };
    assert!(check_owner(&facts, 10).is_ok());
    assert!(check_owner(&with(10, 0o4755, 1), 10).is_err());
    assert!(check_owner(&with(11, 0o755, 1), 10).is_err());
    assert!(check_file(&with(10, 0o644, 1), 10).is_ok());
    assert!(check_file(&with(10, 0o644, 2), 10).is_err());
    assert!(check_program(&facts, 10).is_ok());
    assert!(check_program(&with(10, 0o644, 1), 10).is_err());
    assert!(check_traversed(&with(0, 0o1777, 1), 10).is_ok());
    assert!(check_traversed(&with(0, 0o777, 1), 10).is_err());
    assert!(check_traversed(&with(10, 0o1777, 1), 10).is_err());
    match directory_names("/a/./b") {
        Ok(names) => assert_eq!(names, vec!["a".to_owned(), "b".to_owned()]),
        Err(_) => panic!("the path was refused"),
    }
    assert!(directory_names("a/b").is_err());
    assert!(directory_names("/a/../b").is_err());
    let receipt = InstallAction::File { path: "/r".to_owned(), sha256: "d".repeat(64) };
    let actions = vec![recorded(receipt, ActionStatus::Planned)];
    assert_eq!(receipt_place(&actions, "/r", false), Some(0));
    assert_eq!(receipt_place(&actions, "/r", true), None);
    assert_eq!(receipt_place(&actions, "/x", false), None);
}

#[test]
fn journal_files_are_read_with_their_limits() {
    let facts = |mode: u32, links: u64, bytes: u64| OpenFacts {
        is_file: true,
        uid: 10,
        mode,
        links,
        bytes,
    };
    assert!(check_state_file(&facts(0o100600, 1, 5), 10, 5).is_ok());
    assert_eq!(
        check_state_file(&facts(0o100600, 2, 5), 10, 5),
        Err(JournalError::Permissions)
    );
    assert_eq!(
        check_state_file(&facts(0o100600, 1, 5), 10, MAX_STATE_BYTES + 1),
        Err(JournalError::Invalid)
    );
    assert!(check_credential_file(&facts(0o100600, 2, 5), 10, 5, 100).is_ok());
    assert!(check_credential_file(&facts(0o100600, 3, 5), 10, 5, 100).is_err());
    assert!(check_credential_file(&facts(0o100600, 1, 5), 10, 101, 100).is_err());
    assert_eq!(open_error(true), JournalError::NotFound);
    assert_eq!(open_error(false), JournalError::Permissions);
    assert!(validate_directory(10, 0o40700, 10).is_ok());
    assert!(validate_directory(10, 0o40755, 10).is_err());
    let runs = ExecutableFacts { opened: Ok((true, 0o755)) };
    assert!(validate_executable("/bin/asr", &runs).is_ok());
    assert!(validate_executable("bin/asr", &runs).is_err());
    let plain = ExecutableFacts { opened: Ok((true, 0o644)) };
    assert!(validate_executable("/bin/asr", &plain).is_err());
}

#[test]
fn one_left_over_link_is_removed() {
    let name = ".credential-00000000-0000-4000-8000-000000000009.tmp".to_owned();
    let facts =
        || OpenFacts { is_file: true, uid: 10, mode: 0o100600, links: 2, bytes: 5 };
    let link = |same_file: bool| LinkFacts { same_file, facts: facts() };
    let mut scan = TemporaryScan::new();
    assert!(scan.see("credential.json", &link(true), 10).is_ok());
    assert!(scan.see(&name, &link(false), 10).is_ok());
    assert_eq!(scan.found, None);
    assert!(scan.see(&name, &link(true), 10).is_ok());
    assert_eq!(scan.found, Some(name.clone()));
    assert!(scan.see(&name, &link(true), 10).is_err());
    assert_eq!(scan.finish(), Ok(name));
    assert_eq!(TemporaryScan::new().finish(), Err(JournalError::Permissions));
}

#[test]
fn paths_stay_where_they_are_named() {
    assert_eq!(absolute_path(Some("x"), Some("/w")), Ok("/w/x".to_owned()));
    assert_eq!(absolute_path(Some("/a/../b"), None), Err(ProviderInstallError::Permission));
    assert_eq!(absolute_path(Some(""), None), Err(ProviderInstallError::Permission));
    assert_eq!(absolute_path(None, None), Err(ProviderInstallError::Permission));
    assert_eq!(configuration_path(Some("c.json"), Some("/w")).ok(), Some("/w/c.json".to_owned()));
    assert!(matches!(
        configuration_path(Some("/a/../c"), None),
        Err(InstallError::InvalidConfiguration)
    ));
    assert_eq!(ca_directory("/w/c.json").ok(), Some("/w/onboarding/ca".to_owned()));
    let file = FileFacts { is_file: true, uid: 10, links: 1, mode: 0o644 };
    assert_eq!(check_destination(None, false), Ok(()));
    assert_eq!(check_destination(Some(&file), true), Ok(()));
    assert_eq!(check_destination(Some(&file), false), Err(ProviderInstallError::Permission));
    let fixed = FileFacts { mode: 0o444, ..file };
    assert_eq!(check_destination(Some(&fixed), true), Err(ProviderInstallError::Permission));
    assert_eq!(check_read(b"x".to_vec()), Ok(b"x".to_vec()));
    assert_eq!(check_read(vec![0; MAX_BYTES + 1]), Err(ProviderInstallError::Conflict));
    let draft = temporary_file(Uuid { value: 3 });
    assert_eq!(draft, ".onboarding-00000000-0000-0000-0000-000000000003.tmp");
    let told = with_resume(InstallError::BundleConflict.report(), &state(Stage::Enrolled, Vec::new()));
    assert!(told.message.ends_with(
        "'/bin/asr' onboarding resume 00000000-0000-0000-0000-000000000002 --provider omp"
    ));
}

#[test]
fn hosts_are_asked_what_is_registered() {
    let asked = |step| inspect_arguments(step).join(" ");
    assert_eq!(asked(Step::ClaudeMarketplace), "plugin marketplace list --json");
    assert_eq!(asked(Step::ClaudePlugin), "plugin list --json");
    assert_eq!(asked(Step::ClaudeMcp), "mcp get agent-session-router-channel");
    assert_eq!(asked(Step::CodexMcp), "mcp get agent_session_router --json");
    assert_eq!(asked(Step::OmpLink), "plugin list --json");
    assert_eq!(asked(Step::OmpEnable), "plugin list --json");
    assert_eq!(list_arguments(), vec!["mcp", "list", "--json"]);
    let files = installer(OnboardingProvider::ClaudeCode).plugin_files("/p");
    let plugin = respell("claude_plugin", '-');
    assert_eq!(files.installed_manifest, format!("/p/.{plugin}/plugin.json"));
    assert_eq!(files.manifest, format!("/i/{plugin}/plugins/asr/.{plugin}/plugin.json"));
    assert_eq!(files.installed_skill, "/p/skills/workspace/SKILL.md");
    assert_eq!(files.skill, format!("/i/{plugin}/plugins/asr/skills/workspace/SKILL.md"));
    assert_eq!(files.tools, "/p/.mcp.json");
    assert_eq!(installer(OnboardingProvider::Omp).package_source(), "/i/omp");
    let own = format!(".{}", word("claude_code"));
    assert_eq!(config_variable(OnboardingProvider::ClaudeCode), Some(("CLAUDE_CONFIG_DIR", own)));
    let codex = Some(("CODEX_HOME", ".codex".to_owned()));
    assert_eq!(config_variable(OnboardingProvider::CodexCli), codex);
    assert!(config_variable(OnboardingProvider::Omp).is_none());
}
