//! What holds of what is installed: the files and commands of each provider, and the distribution
//! that they come from.

use vstd::prelude::*;

use crate::digest::digest_text;
use crate::json::{encoded_json, parsed_json, JsonModel};
use crate::onboarding::bundle::{
    bundle_paths, bundle_record, check_file, check_new_bundle, check_owner, check_private,
    check_program, check_traversed, directory_message, directory_names, file_digest, receipt_action,
    receipt_path, reuse_bundle, trees, verify_bundle, BundleBudget, BundleConflict, BundleRecord,
    EntryFacts, InstalledBundle, NewBundleFault, ReceiptEvent, ReceiptPhase, Reuse, TreeEntry,
};
use crate::onboarding::ca::{pem_certificates, trusted_root, validate_ca_pem};
use crate::onboarding::journal::{ActionRecord, InstallAction, JournalState};
use crate::onboarding::providers::{
    check_feature, cli_output, config_variable, inspect_arguments, list_arguments, next_action,
    required_features, spawn_error, withheld_variables, CliEnd, CliOutput, Feature, FileRead,
    LayoutReads, PluginFiles, ProviderInstallError, ProviderInstaller, SpawnError, Step,
};
use crate::onboarding::{OnboardingProvider, OnboardingTicket, TicketError};
use crate::paths::{absolute, goes_up, joined, parent_of, path_names, same_path};
use crate::protocol::WorkspaceName;
use crate::shell::shell_word;
use crate::text::{byte_length, first_word, kebab_case, respelled, texts};

verus! {

/// The command of every step but those of tools: what is added lies in the distribution, for
/// the user alone.
pub proof fn steps_install_for_the_user(
    installer: ProviderInstaller,
    marketplace: Vec<String>,
    plugin: Vec<String>,
    link: Vec<String>,
    enable: Vec<String>,
    source: String,
)
    requires
        call_ensures(ProviderInstaller::argv, (&installer, Step::ClaudeMarketplace), marketplace),
        call_ensures(ProviderInstaller::argv, (&installer, Step::ClaudePlugin), plugin),
        call_ensures(ProviderInstaller::argv, (&installer, Step::OmpLink), link),
        call_ensures(ProviderInstaller::argv, (&installer, Step::OmpEnable), enable),
        call_ensures(ProviderInstaller::package_source, (&installer,), source),
    ensures
        texts(marketplace@) == seq![
            installer.program@,
            "plugin"@,
            "marketplace"@,
            "add"@,
            joined(installer.integrations_dir@, kebab_case("claude_plugin"@)),
            "--scope"@,
            "user"@,
        ],
        texts(plugin@) == seq![
            installer.program@,
            "plugin"@,
            "install"@,
            "asr@asr-local"@,
            "--scope"@,
            "user"@,
        ],
        texts(link@) == seq![installer.program@, "plugin"@, "link"@, source@, "--scope"@, "user"@],
        texts(enable@) == seq![
            installer.program@,
            "plugin"@,
            "enable"@,
            "@agent-session-router/omp-integration"@,
            "--scope"@,
            "user"@,
        ],
        source@ == joined(installer.integrations_dir@, "omp"@),
{
}

/// How it is asked what is registered.
pub proof fn registrations_are_asked_for(
    marketplace: Vec<String>,
    plugin: Vec<String>,
    channel: Vec<String>,
    tools: Vec<String>,
    link: Vec<String>,
    list: Vec<String>,
)
    requires
        call_ensures(inspect_arguments, (Step::ClaudeMarketplace,), marketplace),
        call_ensures(inspect_arguments, (Step::ClaudePlugin,), plugin),
        call_ensures(inspect_arguments, (Step::ClaudeMcp,), channel),
        call_ensures(inspect_arguments, (Step::CodexMcp,), tools),
        call_ensures(inspect_arguments, (Step::OmpLink,), link),
        call_ensures(list_arguments, (), list),
    ensures
        texts(marketplace@) == seq!["plugin"@, "marketplace"@, "list"@, "--json"@],
        texts(plugin@) == seq!["plugin"@, "list"@, "--json"@],
        texts(link@) == texts(plugin@),
        texts(channel@) == seq!["mcp"@, "get"@, "agent-session-router-channel"@],
        texts(tools@) == seq!["mcp"@, "get"@, "agent_session_router"@, "--json"@],
        texts(list@) == seq!["mcp"@, "list"@, "--json"@],
{
}

/// Which files of the distribution a provider needs.
pub proof fn providers_need_their_files(installer: ProviderInstaller, paths: Vec<String>)
    requires
        call_ensures(ProviderInstaller::layout_paths, (&installer,), paths),
    ensures
        installer.provider is CodexCli ==> texts(paths@) == seq![
            joined(installer.integrations_dir@, "codex/skills/asr/SKILL.md"@),
        ],
        installer.provider is Omp ==> texts(paths@) == seq![
            joined(installer.integrations_dir@, "omp/package.json"@),
            joined(installer.integrations_dir@, "omp/index.js"@),
            joined(installer.integrations_dir@, "omp/skills/asr/SKILL.md"@),
        ],
        installer.provider is ClaudeCode ==> texts(paths@).len() == 4 && texts(paths@)[2] == joined(
            joined(installer.integrations_dir@, kebab_case("claude_plugin"@)),
            "plugins/asr/.mcp.json"@,
        ) && texts(paths@)[3] == joined(
            joined(installer.integrations_dir@, kebab_case("claude_plugin"@)),
            "plugins/asr/skills/workspace/SKILL.md"@,
        ) && texts(paths@)[0] == joined(
            joined(installer.integrations_dir@, kebab_case("claude_plugin"@)),
            kebab_case(".claude_plugin/marketplace.json"@),
        ) && texts(paths@)[1] == joined(
            joined(installer.integrations_dir@, kebab_case("claude_plugin"@)),
            kebab_case("plugins/asr/.claude_plugin/plugin.json"@),
        ),
{
}

/// What is installed for the Codex CLI: its skill, as it is in the distribution, and its tools.
pub proof fn codex_is_given_its_skill(
    installer: &mut ProviderInstaller,
    reads: LayoutReads,
    workspace: WorkspaceName,
    prepared: Result<(), ProviderInstallError>,
)
    requires
        old(installer).files@.len() == 0,
        old(installer).provider is CodexCli,
        call_ensures(ProviderInstaller::prepare_layout, (installer, &reads, &workspace), prepared),
    ensures
        prepared is Ok <==> reads.first is Found && reads.config is Ok,
        reads.first is Absent ==> prepared == Err::<(), _>(ProviderInstallError::Io),
        (reads.first matches FileRead::Failed(error)) ==> prepared == Err::<(), _>(
            reads.first->Failed_0,
        ),
        prepared is Ok ==> {
            &&& final(installer).files@.len() == 1
            &&& final(installer).files@[0].record.path@ == joined(
                old(installer).home@,
                ".agents/skills/asr/SKILL.md"@,
            )
            &&& final(installer).files@[0].bytes@ == reads.first->Found_0@
            &&& final(installer).files@[0].record.sha256@ == digest_text(reads.first->Found_0@)
            &&& !final(installer).files@[0].record.private
            &&& final(installer).steps@ == seq![Step::CodexMcp]
            &&& texts(final(installer).native_destinations@) == seq![
                joined(reads.config->Ok_0@, "config.toml"@),
            ]
        },
        prepared is Err ==> *final(installer) == *old(installer),
{
}

/// What is installed for the plugin host: a private description of where its sessions belong,
/// and the link of its package, which is of this version.
pub proof fn plugin_hosts_are_told_where_they_belong(
    installer: &mut ProviderInstaller,
    reads: LayoutReads,
    workspace: WorkspaceName,
    prepared: Result<(), ProviderInstallError>,
    package: JsonModel,
)
    requires
        old(installer).files@.len() == 0,
        old(installer).provider is Omp,
        call_ensures(ProviderInstaller::prepare_layout, (installer, &reads, &workspace), prepared),
        reads.first matches FileRead::Found(bytes) && parsed_json(bytes@) == Some(package),
    ensures
        package.text_at("name"@) != Some("@agent-session-router/omp-integration"@) ==> prepared
            == Err::<(), _>(ProviderInstallError::Conflict),
        package.text_at("version"@) != Some(old(installer).version@) ==> prepared == Err::<(), _>(
            ProviderInstallError::Conflict,
        ),
        package.text_at("name"@) == Some("@agent-session-router/omp-integration"@)
            && package.text_at("version"@) == Some(old(installer).version@) ==> (prepared is Ok
            <==> reads.second is Found && reads.third is Found && reads.config is Ok),
        prepared is Ok ==> {
            &&& final(installer).files@.len() == 1
            &&& final(installer).files@[0].record.path@ == joined(
                old(installer).private_root@,
                "hosts/omp.json"@,
            )
            &&& final(installer).files@[0].record.private
            &&& final(installer).files@[0].bytes@ == encoded_json(
                JsonModel::Object(
                    seq![
                        ("version"@, JsonModel::Unsigned(1)),
                        ("executable"@, JsonModel::Text(old(installer).executable@)),
                        ("profile"@, JsonModel::Text(old(installer).profile@)),
                        ("workspace"@, JsonModel::Text(workspace@)),
                    ],
                ),
            )
            &&& final(installer).steps@ == seq![Step::OmpLink]
            &&& texts(final(installer).native_destinations@) == seq![
                joined(reads.config->Ok_0@, "plugins/package.json"@),
                joined(reads.config->Ok_0@, "plugins/omp-plugins.lock.json"@),
            ]
            &&& crate::text::opt_text(final(installer).omp_link_destination) == Some(
                joined(
                    joined(reads.config->Ok_0@, "plugins/node_modules"@),
                    "@agent-session-router/omp-integration"@,
                ),
            )
        },
{
}

/// What is installed for the other: no file, but the marketplace, the plugin, which is of this
/// version and brings no tools, and the channel.
pub proof fn plugins_are_installed_from_the_marketplace(
    installer: &mut ProviderInstaller,
    reads: LayoutReads,
    workspace: WorkspaceName,
    prepared: Result<(), ProviderInstallError>,
    marketplace: JsonModel,
    plugin: JsonModel,
)
    requires
        old(installer).files@.len() == 0,
        old(installer).provider is ClaudeCode,
        call_ensures(ProviderInstaller::prepare_layout, (installer, &reads, &workspace), prepared),
        reads.first matches FileRead::Found(bytes) && parsed_json(bytes@) == Some(marketplace),
        reads.second matches FileRead::Found(bytes) && parsed_json(bytes@) == Some(plugin),
    ensures
        prepared is Ok ==> marketplace.text_at("name"@) == Some("asr-local"@) && plugin.text_at(
            "name"@,
        ) == Some("asr"@) && plugin.text_at("version"@) == Some(old(installer).version@)
            && plugin.get("mcpServers"@) is None && marketplace.at("owner"@).text_at("name"@)
            == Some("Agent Session Router"@),
        prepared is Ok ==> (marketplace.at("plugins"@) matches JsonModel::Array(items)
            && items.len() == 1 && items[0].text_at("name"@) == Some("asr"@) && items[0].text_at(
            "source"@,
        ) == Some("./plugins/asr"@)),
        prepared is Ok ==> reads.third is Absent && reads.fourth is Found && reads.config is Ok,
        reads.third is Found ==> prepared == Err::<(), _>(ProviderInstallError::Conflict),
        prepared is Ok ==> final(installer).files@.len() == 0 && final(installer).steps@ == seq![
            Step::ClaudeMarketplace,
            Step::ClaudePlugin,
            Step::ClaudeMcp,
        ],
        prepared is Ok ==> texts(final(installer).native_destinations@).len() == 5 && texts(
            final(installer).native_destinations@,
        )[0] == joined(reads.config->Ok_0@, "settings.json"@) && texts(
            final(installer).native_destinations@,
        )[1] == joined(reads.config->Ok_0@, "plugins/known_marketplaces.json"@) && texts(
            final(installer).native_destinations@,
        )[2] == joined(reads.config->Ok_0@, "plugins/installed_plugins.json"@),
        prepared is Ok && reads.config_named ==> texts(final(installer).native_destinations@)[4]
            == joined(reads.config->Ok_0@, respelled(".claude_json"@, '.')),
        prepared is Ok && !reads.config_named ==> texts(final(installer).native_destinations@)[4]
            == joined(old(installer).home@, respelled(".claude_json"@, '.')),
        prepared is Ok ==> texts(final(installer).native_destinations@)[3] == joined(
            joined(
                joined(reads.config->Ok_0@, "plugins/cache/asr-local/asr"@),
                old(installer).version@,
            ),
            kebab_case(".claude_plugin/plugin.json"@),
        ),
{
}

/// Which commands a provider must understand: those that set it up and those that tell of it.
pub proof fn providers_understand_what_sets_them_up(
    provider: OnboardingProvider,
    features: Vec<Feature>,
)
    requires
        call_ensures(required_features, (provider,), features),
    ensures
        provider is ClaudeCode ==> features@.len() == 6,
        provider is CodexCli || provider is Omp ==> features@.len() == 3,
        provider is CodexCli ==> texts(features@[0].arguments@) == seq![
            "mcp"@,
            "add"@,
            "--help"@,
        ] && texts(features@[0].required@) == seq!["COMMAND"@],
        provider is CodexCli ==> texts(features@[1].arguments@) == seq![
            "mcp"@,
            "get"@,
            "--help"@,
        ] && texts(features@[1].required@) == seq!["--json"@],
        provider is CodexCli ==> texts(features@[2].arguments@) == seq![
            "mcp"@,
            "list"@,
            "--help"@,
        ] && texts(features@[2].required@) == seq!["--json"@],
        provider is Omp ==> texts(features@[0].arguments@) == seq![
            "plugin"@,
            "link"@,
            "--help"@,
        ] && texts(features@[0].required@) == seq!["link"@, "--scope"@],
        provider is Omp ==> texts(features@[1].arguments@) == seq![
            "plugin"@,
            "enable"@,
            "--help"@,
        ] && texts(features@[1].required@) == seq!["enable"@, "--scope"@],
        provider is Omp ==> texts(features@[2].arguments@) == seq![
            "plugin"@,
            "list"@,
            "--help"@,
        ] && texts(features@[2].required@) == seq!["list"@, "--json"@],
        provider is ClaudeCode ==> texts(features@[0].arguments@) == seq![
            "plugin"@,
            "marketplace"@,
            "add"@,
            "--help"@,
        ] && texts(features@[0].required@) == seq!["--scope"@],
        provider is ClaudeCode ==> texts(features@[1].arguments@) == seq![
            "plugin"@,
            "marketplace"@,
            "list"@,
            "--help"@,
        ] && texts(features@[1].required@) == seq!["--json"@],
        provider is ClaudeCode ==> texts(features@[2].arguments@) == seq![
            "plugin"@,
            "install"@,
            "--help"@,
        ] && texts(features@[2].required@) == seq!["--scope"@],
        provider is ClaudeCode ==> texts(features@[3].arguments@) == seq![
            "plugin"@,
            "list"@,
            "--help"@,
        ] && texts(features@[3].required@) == seq!["--json"@],
        provider is ClaudeCode ==> texts(features@[4].arguments@) == seq![
            "mcp"@,
            "add"@,
            "--help"@,
        ] && texts(features@[4].required@) == seq!["--scope"@, "--transport"@],
        provider is ClaudeCode ==> texts(features@[5].arguments@) == seq![
            "mcp"@,
            "get"@,
            "--help"@,
        ] && texts(features@[5].required@) == seq!["get"@],
{
    let models = features@.map_values(
        |f: Feature| crate::onboarding::providers::feature_texts(f),
    );
    assert forall|i: int| 0 <= i < features@.len() implies #[trigger] models[i] == (
        texts(features@[i].arguments@),
        texts(features@[i].required@),
    ) by {}
    assert(models.len() == features@.len());
    if provider is ClaudeCode {
        assert(models[0].0.len() == 4 && models[1].0.len() == 4 && models[2].0.len() == 3);
        assert(models[3].0.len() == 3 && models[4].0.len() == 3 && models[5].0.len() == 3);
    } else {
        assert(models[0].0.len() == 3 && models[1].0.len() == 3 && models[2].0.len() == 3);
    }
}

/// A feature is shown where the help succeeds and holds every word of it; anything else is a
/// requirement of the provider.
pub proof fn features_are_shown_in_the_help(
    output: CliOutput,
    required: Vec<String>,
    provider: OnboardingProvider,
    checked: Result<(), ProviderInstallError>,
    i: int,
)
    requires
        call_ensures(check_feature, (&output, &required, provider), checked),
        0 <= i < required@.len(),
    ensures
        !output.success ==> checked is Err,
        !vstd::utf8::valid_utf8(output.stdout@) ==> checked is Err,
        checked is Ok ==> crate::text::has_part(
            vstd::utf8::decode_utf8(output.stdout@),
            required@[i]@,
        ),
        output.success && vstd::utf8::valid_utf8(output.stdout@) && required@.len() == 1
            && crate::text::has_part(vstd::utf8::decode_utf8(output.stdout@), required@[i]@)
            ==> checked is Ok,
        checked is Err ==> checked->Err_0 == ProviderInstallError::Requirement(provider),
{
    assert(texts(required@)[i] == required@[i]@);
}

/// How a program that does not run, or not in time, is told of, and what it does not inherit.
pub proof fn programs_are_run_apart(
    error: SpawnError,
    provider: OnboardingProvider,
    fault: ProviderInstallError,
    end: CliEnd,
    output: Result<CliOutput, ProviderInstallError>,
    names: Vec<String>,
    place: Option<(&'static str, String)>,
)
    requires
        call_ensures(spawn_error, (error, provider), fault),
        call_ensures(cli_output, (end,), output),
        call_ensures(withheld_variables, (), names),
        call_ensures(config_variable, (provider,), place),
    ensures
        error is PermissionDenied ==> fault is Permission,
        error is NotFound ==> fault == ProviderInstallError::Requirement(provider),
        error is Other ==> fault is CommandFailed,
        end is Lost || end is TimedOut ==> output is Err,
        (end matches CliEnd::Exited(own) && own.stdout@.len() <= 1_048_576 && own.stderr@.len()
            <= 1_048_576) ==> output is Ok && output->Ok_0 == end->Exited_0,
        (end matches CliEnd::Exited(own) && (own.stdout@.len() > 1_048_576 || own.stderr@.len()
            > 1_048_576)) ==> output is Err,
        output is Err ==> output->Err_0 is CommandFailed,
        texts(names@) == seq![
            "ASR_EXECUTABLE"@,
            "ASR_PROFILE"@,
            "ASR_CREDENTIAL_FILE"@,
            "ASR_WORKSPACE"@,
            "ROUTER_TOKEN"@,
        ],
        provider is CodexCli ==> (place matches Some((name, default)) && name@ == "CODEX_HOME"@
            && default@ == ".codex"@),
        provider is ClaudeCode ==> (place matches Some((name, default)) && name@
            == "CLAUDE_CONFIG_DIR"@ && default@ == "."@ + first_word("claude_code"@)),
        provider is Omp ==> place is None,
{
}

/// What is compared of a plugin: its manifest and its skill with those of the distribution, and
/// that it brings no tools.
pub proof fn plugins_are_compared_file_by_file(
    installer: ProviderInstaller,
    installed: &str,
    files: PluginFiles,
)
    requires
        call_ensures(ProviderInstaller::plugin_files, (&installer, installed), files),
    ensures
        files.installed_manifest@ == joined(
            installed@,
            kebab_case(".claude_plugin/plugin.json"@),
        ),
        files.manifest@ == joined(
            joined(installer.integrations_dir@, kebab_case("claude_plugin/plugins/asr"@)),
            kebab_case(".claude_plugin/plugin.json"@),
        ),
        files.installed_skill@ == joined(installed@, "skills/workspace/SKILL.md"@),
        files.skill@ == joined(
            joined(installer.integrations_dir@, kebab_case("claude_plugin/plugins/asr"@)),
            "skills/workspace/SKILL.md"@,
        ),
        files.tools@ == joined(installed@, ".mcp.json"@),
{
}

/// What is to be done once a provider is set up names the program, the profile and the workspace
/// where a launcher is to be started, each as a word of a shell.
pub proof fn launchers_are_named_in_words(
    executable: &str,
    profile: &str,
    workspace: WorkspaceName,
    text: String,
)
    requires
        call_ensures(
            next_action,
            (OnboardingProvider::ClaudeCode, executable, profile, &workspace),
            text,
        ),
    ensures
        ("Restart "@ + respelled("Claude_Code"@, ' ') + " with "@ + shell_word(executable@)
            + " --profile "@ + shell_word(profile@) + respelled("_claude_"@, ' ') + "--workspace "@
            + shell_word(workspace@)).is_prefix_of(text@),
{
    let head = "Restart "@ + respelled("Claude_Code"@, ' ') + " with "@ + shell_word(executable@)
        + " --profile "@ + shell_word(profile@) + respelled("_claude_"@, ' ') + "--workspace "@
        + shell_word(workspace@);
    assert(text@.subrange(0, head.len() as int) =~= head);
}

/// Which entries of a distribution are trusted: the user's own, that no one else may change; a
/// file under one name; a program that may be run.
pub proof fn distributions_are_the_users(
    facts: EntryFacts,
    uid: u32,
    owned: Result<(), BundleConflict>,
    file: Result<(), BundleConflict>,
    program: Result<(), BundleConflict>,
    traversed: Result<(), BundleConflict>,
)
    requires
        call_ensures(check_owner, (&facts, uid), owned),
        call_ensures(check_file, (&facts, uid), file),
        call_ensures(check_program, (&facts, uid), program),
        call_ensures(check_traversed, (&facts, uid), traversed),
    ensures
        owned is Ok <==> facts.uid == uid && facts.mode & 0o6022 == 0,
        file is Ok <==> owned is Ok && facts.is_file && facts.links == 1,
        program is Ok <==> file is Ok && facts.mode & 0o111 != 0,
        facts.uid == uid && facts.mode & 0o022 == 0 ==> traversed is Ok,
        facts.uid == 0 && facts.mode & 0o1000 != 0 ==> traversed is Ok,
        facts.uid != 0 && facts.uid != uid ==> traversed is Err,
        facts.uid != 0 && facts.mode & 0o022 != 0 ==> traversed is Err,
        facts.uid == 0 && facts.mode & 0o022 != 0 && facts.mode & 0o1000 == 0 ==> traversed is Err,
{
}

/// A receipt is private and short.
pub proof fn receipts_are_private(
    file: EntryFacts,
    directory: EntryFacts,
    uid: u32,
    length: u64,
    read: usize,
    cap: usize,
    checked: Result<(), BundleConflict>,
)
    requires
        call_ensures(check_private, (&file, &directory, uid, length, read, cap), checked),
    ensures
        checked is Ok <==> file.uid == uid && file.mode & 0o6022 == 0 && file.is_file && file.links
            == 1 && file.mode & 0o077 == 0 && directory.mode & 0o077 == 0 && length <= cap && read
            <= cap,
{
}

/// Where a distribution lies: below `versions`, by the digest of its manifest.
pub proof fn distributions_lie_by_their_manifest(
    state: JournalState,
    integrations: Option<String>,
    bundle: Result<InstalledBundle, BundleConflict>,
    path: Option<String>,
    spelled: &str,
    names: Result<Vec<String>, BundleConflict>,
)
    requires
        call_ensures(bundle_paths, (&state, integrations), bundle),
        call_ensures(receipt_path, (&state,), path),
        call_ensures(directory_names, (spelled,), names),
    ensures
        bundle is Ok ==> integrations is Some && bundle->Ok_0.executable@ == state.executable@
            && Some(bundle->Ok_0.integrations_dir) == integrations,
        bundle is Ok ==> path_names(state.executable@).len() >= 4 && path_names(
            state.executable@,
        ).last() == "asr"@ && path_names(state.executable@)[path_names(state.executable@).len() - 2]
            == "bin"@ && path_names(state.executable@)[path_names(state.executable@).len() - 3]
            == state.manifest_sha256@ && path_names(state.executable@)[path_names(
            state.executable@,
        ).len() - 4] == "versions"@,
        integrations is None ==> bundle is Err,
        parent_of(state.credential_file@) matches Some(directory) ==> path is Some && path->0@
            == joined(directory, "bundle.json"@),
        parent_of(state.credential_file@) is None ==> path is None,
        names is Ok <==> absolute(spelled@) && !goes_up(spelled@),
        names is Ok ==> texts(names->Ok_0@) == path_names(spelled@),
{
}

/// A distribution has at most two gibibytes in a hundred thousand entries, a hundred and
/// twenty-eight directories deep.
pub proof fn distributions_are_bounded(
    begun: BundleBudget,
    budget: &mut BundleBudget,
    depth: usize,
    names: Vec<Vec<u8>>,
    sorted: Result<Vec<Vec<u8>>, BundleConflict>,
)
    requires
        call_ensures(BundleBudget::new, (), begun),
        old(budget).wf(),
        call_ensures(BundleBudget::list, (budget, depth, names), sorted),
    ensures
        begun.bytes == 2_147_483_648 && begun.entries == 0,
        sorted is Ok <==> depth <= 128 && old(budget).entries + names@.len() <= 100_000,
        sorted is Ok ==> final(budget).entries == old(budget).entries + names@.len(),
        sorted is Err ==> final(budget).entries == old(budget).entries,
        final(budget).bytes == old(budget).bytes,
{
}

/// A file takes its length of what is left, where that is enough, and its digest is of all of it.
pub proof fn files_take_their_length(
    budget: &mut BundleBudget,
    length: u64,
    taken: Result<(), BundleConflict>,
    bytes: &[u8],
    digest: Result<String, BundleConflict>,
)
    requires
        old(budget).wf(),
        call_ensures(BundleBudget::take_file, (budget, length), taken),
        call_ensures(file_digest, (length, bytes), digest),
    ensures
        taken is Ok <==> length <= old(budget).bytes,
        taken is Ok ==> final(budget).bytes == old(budget).bytes - length,
        taken is Err ==> final(budget).bytes == old(budget).bytes,
        digest is Ok <==> bytes@.len() == length,
        digest is Ok ==> digest->Ok_0@ == digest_text(bytes@),
{
}

/// A distribution that was just installed is recorded where it lies where it should and its
/// program is the one that the ticket offers for the target.
pub proof fn new_distributions_are_checked(
    expected: InstalledBundle,
    bundle: InstalledBundle,
    record: Option<BundleRecord>,
    ticket: Option<OnboardingTicket>,
    target: Option<&str>,
    checked: Result<(), NewBundleFault>,
)
    requires
        call_ensures(check_new_bundle, (&expected, &bundle, &record, &ticket, target), checked),
    ensures
        checked is Ok ==> same_path(expected.executable@, bundle.executable@) && same_path(
            expected.integrations_dir@,
            bundle.integrations_dir@,
        ) && record is Some && ticket is Some && target is Some,
        !same_path(expected.executable@, bundle.executable@) || record is None ==> checked
            == Err::<(), _>(NewBundleFault::Conflict),
        same_path(expected.executable@, bundle.executable@) && same_path(
            expected.integrations_dir@,
            bundle.integrations_dir@,
        ) && record is Some ==> {
            &&& ticket is None ==> checked == Err::<(), _>(NewBundleFault::InvalidTicket)
            &&& ticket is Some && target is None ==> checked == Err::<(), _>(
                NewBundleFault::UnknownTarget,
            )
            &&& ticket is Some && target is Some && ticket->0.artifacts@.len() == 0 ==> checked
                == Err::<(), _>(NewBundleFault::UnsupportedTarget)
            &&& ticket is Some && target is Some && ticket->0.artifacts@.len() > 0
                && ticket->0.artifacts@[0].target@ == target->0@ ==> (checked is Ok
                <==> record->0.binary_sha256@ == ticket->0.artifacts@[0].binary_sha256@)
        },
{
    reveal_with_fuel(crate::onboarding::bundle::artifact_from, 2);
}

/// A receipt tells the digests of the program and of all that is beside it, and its action those
/// of itself.
pub proof fn receipts_tell_digests(
    binary: String,
    integrations: Vec<TreeEntry>,
    record: BundleRecord,
    path: &str,
    bytes: &[u8],
    action: InstallAction,
)
    requires
        call_ensures(bundle_record, (binary, &integrations), record),
        call_ensures(receipt_action, (path, bytes), action),
    ensures
        record.version == 1,
        record.binary_sha256 == binary,
        record.integrations_sha256@ == digest_text(directory_message(trees(integrations@))),
        action matches InstallAction::File { path: target, sha256 } && target@ == path@ && sha256@
            == digest_text(bytes@),
{
}

/// A distribution is used again where its receipt was planned and says what is there; a receipt
/// that says otherwise is a conflict, and without one there is nothing to use.
pub proof fn distributions_are_used_again(
    actions: Vec<ActionRecord>,
    path: &str,
    bytes: &[u8],
    reuse: Result<Reuse, BundleConflict>,
    saved: Option<BundleRecord>,
    found: BundleRecord,
    checked: Result<(), BundleConflict>,
    same: bool,
)
    requires
        call_ensures(reuse_bundle, (&actions, path, bytes), reuse),
        call_ensures(verify_bundle, (&actions, path, bytes, &saved, &found), checked),
        saved matches Some(own) ==> call_ensures(BundleRecord::equals, (&own, &found), same),
    ensures
        actions@.len() == 0 ==> reuse == Ok::<_, BundleConflict>(Reuse::Nothing) && checked is Err,
        saved is None ==> checked is Err,
        actions@.len() == 1 && (actions@[0].intent matches InstallAction::File {
            path: target,
            sha256,
        } && same_path(target@, path@) && sha256@ == digest_text(bytes@)) ==> reuse == Ok::<
            _,
            BundleConflict,
        >(Reuse::Receipt { index: 0, open: actions@[0].status is Planned }) && (checked is Ok
            <==> actions@[0].status is Applied && saved is Some && same),
        actions@.len() == 1 && (actions@[0].intent matches InstallAction::File {
            path: target,
            sha256,
        } && same_path(target@, path@) && sha256@ != digest_text(bytes@)) ==> reuse is Err
            && checked is Err,
        saved is Some && same ==> saved->0.version == found.version && saved->0.binary_sha256@
            == found.binary_sha256@ && saved->0.integrations_sha256@ == found.integrations_sha256@,
{
    reveal_with_fuel(crate::onboarding::bundle::receipt_from, 2);
}

/// A receipt is put in its place in order, and one that is there is only read.
pub proof fn receipts_are_put_in_order(phase: ReceiptPhase, event: ReceiptEvent, next: ReceiptPhase)
    requires
        call_ensures(ReceiptPhase::next, (phase, event), next),
    ensures
        phase is Look && event is Done ==> next is ReadThere,
        phase is Look && event is Missing ==> next is Create,
        phase is Look && event is Failed ==> next is Conflict,
        phase is ReadThere && event == ReceiptEvent::Read(true) ==> next is SyncThere,
        phase is ReadThere && event == ReceiptEvent::Read(false) ==> next is Conflict,
        phase is SyncThere && event is Done ==> next is Published,
        phase is Create && event is Done ==> next is Write,
        phase is Create && event is Failed ==> next is Conflict,
        phase is Write && event is Done ==> next is Rename,
        phase is Rename && event is Done ==> next is Sync,
        phase is Sync && event is Done ==> next is ReadBack,
        (phase is Write || phase is Rename || phase is Sync || phase is ReadBack) && event is Failed
            ==> next == ReceiptPhase::Unlink(false),
        (phase is ReadBack && (event matches ReceiptEvent::Read(same))) ==> next
            == ReceiptPhase::Unlink(event->Read_0),
        phase == ReceiptPhase::Unlink(true) ==> next is Published,
        phase == ReceiptPhase::Unlink(false) ==> next is Conflict,
{
}

/// Which certificate bundles a route may carry: some text of at most sixty-four kibibytes, with
/// certificates that can be roots.
pub proof fn certificates_are_roots(pem: &str, verdict: Result<(), TicketError>, i: int)
    requires
        call_ensures(validate_ca_pem, (pem,), verdict),
    ensures
        pem@.len() == 0 || byte_length(pem@) > 65_536 ==> verdict is Err,
        pem_certificates(pem@) is None ==> verdict is Err,
        pem_certificates(pem@) is Some && pem_certificates(pem@)->0.len() == 0 ==> verdict is Err,
        verdict is Ok && 0 <= i < pem_certificates(pem@)->0.len() ==> trusted_root(
            pem_certificates(pem@)->0[i],
        ),
        verdict is Err ==> verdict->Err_0 is InvalidCa,
{
}

} // verus!
