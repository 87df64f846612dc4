//! How the providers of a host are set up: what is installed for each, with which commands,
//! and what must be there before anything is.

use vstd::prelude::*;

use crate::digest::{digest, digest_text};
use crate::ids::Uuid;
use crate::json::{encode_json, encoded_json, field, member_models, object, parse_json, parsed_json, Json, JsonModel};
use crate::onboarding::journal::{InstallAction, JournalError};
use crate::onboarding::OnboardingProvider;
use crate::paths::{join, joined};
use crate::protocol::WorkspaceName;
use crate::shell::{shell_quote, shell_word};
use crate::text::{
    concat, concat3, contains_part, first_word, given, has_part, kebab, kebab_case, respell, respelled,
    texts, utf8_text, word,
};

verus! {

pub const OMP_PACKAGE: &'static str = "@agent-session-router/omp-integration";

pub const CLAUDE_MCP: &'static str = "agent-session-router-channel";

pub const CODEX_MCP: &'static str = "agent_session_router";

/// How long a command of a provider may take.
pub const CLI_TIMEOUT_MS: u64 = 30_000;

/// Why a provider cannot be set up. What its programs print is never part of it.
#[derive(Clone, Copy, Debug, PartialEq, Eq, Structural)]
pub enum ProviderInstallError {
    /// There is a configuration of another's.
    Conflict,
    Permission,
    Io,
    CommandFailed,
    OmpDisabled,
    ClaudeDisabled,
    /// The provider is missing, or too old.
    Requirement(OnboardingProvider),
}

/// The code that a fault is reported under.
pub open spec fn provider_fault_code(error: ProviderInstallError) -> Seq<char> {
    match error {
        ProviderInstallError::Conflict => "provider_configuration_conflict"@,
        ProviderInstallError::Permission => "host_permission_required"@,
        ProviderInstallError::Io => "provider_installation_io"@,
        ProviderInstallError::CommandFailed => "host_command_failed"@,
        ProviderInstallError::OmpDisabled => "plugin_disabled"@,
        ProviderInstallError::ClaudeDisabled => "plugin_disabled"@,
        ProviderInstallError::Requirement(_) => "host_upgrade_required"@,
    }
}

/// What is to be done about a fault.
pub open spec fn provider_advice(error: ProviderInstallError) -> Seq<char> {
    match error {
        ProviderInstallError::Conflict =>
            "Inspect the existing ASR skill, plugin and MCP definitions with the provider's native commands. Keep or explicitly remove the conflicting user configuration, then resume this invitation; ASR does not overwrite it."@,
        ProviderInstallError::Permission =>
            "Allow shell execution through your provider's normal approval flow. Ensure your own configuration directories are writable, not symlinked or group/world-writable; ASR private directories/files must be 0700/0600. Do not use sudo."@,
        ProviderInstallError::Io =>
            "Restore access to the installed ASR distribution and your configuration directory, then resume this invitation. Do not replace or delete the pending journal."@,
        ProviderInstallError::CommandFailed =>
            "Check the provider's native plugin/MCP commands and normal execution permissions, then resume this invitation. The recorded intent is preserved and ASR will inspect the registry before retrying."@,
        ProviderInstallError::OmpDisabled =>
            "If you want this integration enabled, run `omp plugin enable @agent-session-router/omp-integration --scope user`, then resume this invitation and restart OMP."@,
        ProviderInstallError::ClaudeDisabled => "If you want this integration enabled, run `"@
            + respelled("claude_plugin"@, ' ')
            + " enable asr@asr-local --scope user`, then resume this invitation and restart "@
            + respelled("Claude_Code"@, ' ') + "."@,
        ProviderInstallError::Requirement(OnboardingProvider::ClaudeCode) => "Install or upgrade "@
            + respelled("Claude_Code"@, ' ')
            + " through its official instructions. This installer requires user-scoped local plugin marketplaces, plugin install/list --json, marketplace list --json, and stdio mcp add/get. Then resume this invitation."@,
        ProviderInstallError::Requirement(OnboardingProvider::CodexCli) =>
            "Install or upgrade Codex CLI through its official instructions. This installer requires mcp add and mcp get/list --json with stdio transport. Then resume this invitation."@,
        ProviderInstallError::Requirement(OnboardingProvider::Omp) =>
            "Install or upgrade Oh My Pi through its official instructions. This installer requires plugin list --json, user-scoped plugin link/enable, and packaged skill discovery. Then resume this invitation."@,
    }
}

impl ProviderInstallError {
    pub fn code(&self) -> (code: &'static str)
        ensures
            code@ == provider_fault_code(*self),
    {
        match self {
            ProviderInstallError::Conflict => "provider_configuration_conflict",
            ProviderInstallError::Permission => "host_permission_required",
            ProviderInstallError::Io => "provider_installation_io",
            ProviderInstallError::CommandFailed => "host_command_failed",
            ProviderInstallError::OmpDisabled => "plugin_disabled",
            ProviderInstallError::ClaudeDisabled => "plugin_disabled",
            ProviderInstallError::Requirement(_) => "host_upgrade_required",
        }
    }

    /// What is to be done about this fault.
    pub fn next_action(&self) -> (advice: String)
        ensures
            advice@ == provider_advice(*self),
    {
        match self {
            ProviderInstallError::Conflict =>
                "Inspect the existing ASR skill, plugin and MCP definitions with the provider's native commands. Keep or explicitly remove the conflicting user configuration, then resume this invitation; ASR does not overwrite it.".to_owned(),
            ProviderInstallError::Permission =>
                "Allow shell execution through your provider's normal approval flow. Ensure your own configuration directories are writable, not symlinked or group/world-writable; ASR private directories/files must be 0700/0600. Do not use sudo.".to_owned(),
            ProviderInstallError::Io =>
                "Restore access to the installed ASR distribution and your configuration directory, then resume this invitation. Do not replace or delete the pending journal.".to_owned(),
            ProviderInstallError::CommandFailed =>
                "Check the provider's native plugin/MCP commands and normal execution permissions, then resume this invitation. The recorded intent is preserved and ASR will inspect the registry before retrying.".to_owned(),
            ProviderInstallError::OmpDisabled =>
                "If you want this integration enabled, run `omp plugin enable @agent-session-router/omp-integration --scope user`, then resume this invitation and restart OMP.".to_owned(),
            ProviderInstallError::ClaudeDisabled => {
                let head = concat3(
                    "If you want this integration enabled, run `",
                    respell("claude_plugin", ' ').as_str(),
                    " enable asr@asr-local --scope user`, then resume this invitation and restart ",
                );
                concat3(head.as_str(), respell("Claude_Code", ' ').as_str(), ".")
            },
            ProviderInstallError::Requirement(provider) => match provider {
                OnboardingProvider::ClaudeCode => concat3(
                    "Install or upgrade ",
                    respell("Claude_Code", ' ').as_str(),
                    " through its official instructions. This installer requires user-scoped local plugin marketplaces, plugin install/list --json, marketplace list --json, and stdio mcp add/get. Then resume this invitation.",
                ),
                OnboardingProvider::CodexCli =>
                    "Install or upgrade Codex CLI through its official instructions. This installer requires mcp add and mcp get/list --json with stdio transport. Then resume this invitation.".to_owned(),
                OnboardingProvider::Omp =>
                    "Install or upgrade Oh My Pi through its official instructions. This installer requires plugin list --json, user-scoped plugin link/enable, and packaged skill discovery. Then resume this invitation.".to_owned(),
            },
        }
    }
}

/// The fault of a journal, for whoever sets up a provider.
pub open spec fn journal_fault(error: JournalError) -> ProviderInstallError {
    match error {
        JournalError::Permissions => ProviderInstallError::Permission,
        JournalError::Conflict => ProviderInstallError::Conflict,
        JournalError::Invalid => ProviderInstallError::Conflict,
        _ => ProviderInstallError::Io,
    }
}

pub fn journal_error(error: JournalError) -> (fault: ProviderInstallError)
    ensures
        fault == journal_fault(error),
{
    match error {
        JournalError::Permissions => ProviderInstallError::Permission,
        JournalError::Conflict | JournalError::Invalid => ProviderInstallError::Conflict,
        _ => ProviderInstallError::Io,
    }
}

/// A file that was installed.
pub struct RecordedFile {
    pub path: String,
    pub sha256: String,
    pub private: bool,
}

/// Whether an action is the one that writes a file.
pub open spec fn intent_of(record: RecordedFile, action: InstallAction) -> bool {
    action matches InstallAction::File { path, sha256 } && path@ == record.path@ && sha256@
        == record.sha256@
}

impl RecordedFile {
    /// The action that writes this file.
    pub fn intent(&self) -> (action: InstallAction)
        ensures
            intent_of(*self, action),
    {
        InstallAction::File {
            path: self.path.as_str().to_owned(),
            sha256: self.sha256.as_str().to_owned(),
        }
    }

    /// Another copy of this record.
    pub fn copy(&self) -> (copy: RecordedFile)
        ensures
            copy.path@ == self.path@,
            copy.sha256@ == self.sha256@,
            copy.private == self.private,
    {
        RecordedFile {
            path: self.path.as_str().to_owned(),
            sha256: self.sha256.as_str().to_owned(),
            private: self.private,
        }
    }
}

/// What was installed for a provider, and for whom.
pub struct Ownership {
    pub version: u8,
    pub invite_id: Uuid,
    pub enrollment_id: Uuid,
    pub provider: OnboardingProvider,
    pub server_id: Uuid,
    pub profile: String,
    pub workspace: WorkspaceName,
    pub manifest_sha256: String,
    pub asr_version: String,
    pub executable: String,
    pub executable_sha256: String,
    pub integrations_dir: String,
    pub files: Vec<RecordedFile>,
    pub commands: Vec<Vec<String>>,
}

/// A file that is to be installed.
pub struct FileInstall {
    pub record: RecordedFile,
    pub bytes: Vec<u8>,
}

/// A file of some bytes, to be installed under a path.
pub fn file_install(path: String, bytes: Vec<u8>, private: bool) -> (file: FileInstall)
    ensures
        file.record.path == path,
        file.record.sha256@ == digest_text(bytes@),
        file.record.private == private,
        file.bytes == bytes,
{
    FileInstall {
        record: RecordedFile { path, sha256: digest(bytes.as_slice()), private },
        bytes,
    }
}

/// Something that is registered with a provider.
#[derive(Clone, Copy, Debug, PartialEq, Eq, Structural)]
pub enum Step {
    ClaudeMarketplace,
    ClaudePlugin,
    ClaudeMcp,
    CodexMcp,
    OmpLink,
    OmpEnable,
}

/// How far something is registered.
#[derive(Clone, Copy, Debug, PartialEq, Eq, Structural)]
pub enum Registered {
    Absent,
    Exact,
    Disabled,
}

/// What is to be set up for a provider: paths and what everyone may know, never a token.
pub struct ProviderInstaller {
    pub config_path: String,
    pub private_root: String,
    pub integrations_dir: String,
    pub home: String,
    pub program: String,
    pub provider: OnboardingProvider,
    pub executable: String,
    pub invite_id: Uuid,
    pub enrollment_id: Uuid,
    pub executable_sha256: String,
    pub profile: String,
    pub version: String,
    pub files: Vec<FileInstall>,
    pub steps: Vec<Step>,
    pub native_destinations: Vec<String>,
    pub omp_link_destination: Option<String>,
}

/// The arguments by which a provider starts a session's tools.
pub open spec fn tool_arguments(profile: Seq<char>, role: Seq<char>) -> Seq<Seq<char>> {
    seq!["--profile"@, profile, "mcp"@, role]
}

/// The role of the tools for a provider's sessions.
pub open spec fn role_text(step: Step) -> Seq<char> {
    if step is CodexMcp {
        "codex-cli"@
    } else {
        kebab_case("claude_channel"@)
    }
}

/// The command of a step, without the program.
pub open spec fn step_arguments(installer: ProviderInstaller, step: Step) -> Seq<Seq<char>> {
    match step {
        Step::ClaudeMarketplace => seq![
            "plugin"@,
            "marketplace"@,
            "add"@,
            joined(installer.integrations_dir@, kebab_case("claude_plugin"@)),
            "--scope"@,
            "user"@,
        ],
        Step::ClaudePlugin => seq!["plugin"@, "install"@, "asr@asr-local"@, "--scope"@, "user"@],
        Step::ClaudeMcp => seq![
            "mcp"@,
            "add"@,
            "--transport"@,
            "stdio"@,
            "--scope"@,
            "user"@,
            CLAUDE_MCP@,
            "--"@,
            installer.executable@,
        ] + tool_arguments(installer.profile@, role_text(step)),
        Step::CodexMcp => seq!["mcp"@, "add"@, CODEX_MCP@, "--"@, installer.executable@]
            + tool_arguments(installer.profile@, role_text(step)),
        Step::OmpLink => seq![
            "plugin"@,
            "link"@,
            joined(installer.integrations_dir@, "omp"@),
            "--scope"@,
            "user"@,
        ],
        Step::OmpEnable => seq!["plugin"@, "enable"@, OMP_PACKAGE@, "--scope"@, "user"@],
    }
}

/// The command of a step.
pub open spec fn step_argv(installer: ProviderInstaller, step: Step) -> Seq<Seq<char>> {
    seq![installer.program@] + step_arguments(installer, step)
}

/// Whether an action is the command of a step.
pub open spec fn step_intent(installer: ProviderInstaller, step: Step, action: InstallAction) -> bool {
    action matches InstallAction::Command { argv } && texts(argv@) == step_argv(installer, step)
}

/// The texts of a list of literals.
pub open spec fn literals(list: Seq<&str>) -> Seq<Seq<char>> {
    Seq::new(list.len(), |i: int| list[i]@)
}

fn push_texts(list: &mut Vec<String>, more: &[&str])
    ensures
        texts(final(list)@) == texts(old(list)@) + literals(more@),
{
    let mut i: usize = 0;
    assert(texts(list@) + literals(more@.take(0)) =~= texts(list@));
    while i < more.len()
        invariant
            i <= more@.len(),
            texts(list@) == texts(old(list)@) + literals(more@.take(i as int)),
        decreases more.len() - i,
    {
        let ghost before = list@;
        let text: String = more[i].to_owned();
        assert(text@ == more@[i as int]@);
        list.push(text);
        assert(texts(list@) =~= texts(before).push(text@));
        assert(literals(more@.take(i + 1)) =~= literals(more@.take(i as int)).push(more@[i as int]@));
        assert(texts(list@) =~= texts(old(list)@) + literals(more@.take(i + 1)));
        i += 1;
    }
    assert(more@.take(i as int) =~= more@);
}

impl ProviderInstaller {
    /// The arguments by which the provider starts a session's tools.
    pub fn mcp_arguments(&self, role: &str) -> (arguments: Vec<String>)
        ensures
            texts(arguments@) == tool_arguments(self.profile@, role@),
    {
        let arguments = vec![
            "--profile".to_owned(),
            self.profile.as_str().to_owned(),
            "mcp".to_owned(),
            role.to_owned(),
        ];
        assert(texts(arguments@) =~= tool_arguments(self.profile@, role@));
        arguments
    }

    /// The command of a step.
    pub fn argv(&self, step: Step) -> (argv: Vec<String>)
        ensures
            texts(argv@) == step_argv(*self, step),
    {
        let mut argv = vec![self.program.as_str().to_owned()];
        match step {
            Step::ClaudeMarketplace => {
                let place = join(self.integrations_dir.as_str(), kebab("claude_plugin").as_str());
                push_texts(
                    &mut argv,
                    &["plugin", "marketplace", "add", place.as_str(), "--scope", "user"],
                );
            },
            Step::ClaudePlugin => {
                push_texts(&mut argv, &["plugin", "install", "asr@asr-local", "--scope", "user"]);
            },
            Step::ClaudeMcp => {
                let role = kebab("claude_channel");
                push_texts(
                    &mut argv,
                    &[
                        "mcp",
                        "add",
                        "--transport",
                        "stdio",
                        "--scope",
                        "user",
                        CLAUDE_MCP,
                        "--",
                        self.executable.as_str(),
                        "--profile",
                        self.profile.as_str(),
                        "mcp",
                        role.as_str(),
                    ],
                );
            },
            Step::CodexMcp => {
                push_texts(
                    &mut argv,
                    &[
                        "mcp",
                        "add",
                        CODEX_MCP,
                        "--",
                        self.executable.as_str(),
                        "--profile",
                        self.profile.as_str(),
                        "mcp",
                        "codex-cli",
                    ],
                );
            },
            Step::OmpLink => {
                let place = join(self.integrations_dir.as_str(), "omp");
                push_texts(&mut argv, &["plugin", "link", place.as_str(), "--scope", "user"]);
            },
            Step::OmpEnable => {
                push_texts(&mut argv, &["plugin", "enable", OMP_PACKAGE, "--scope", "user"]);
            },
        }
        assert(texts(argv@) =~= step_argv(*self, step));
        argv
    }

    /// The action that takes a step.
    pub fn command_intent(&self, step: Step) -> (action: InstallAction)
        ensures
            step_intent(*self, step, action),
    {
        InstallAction::Command { argv: self.argv(step) }
    }
}

/// What reading a file gave.
pub enum FileRead {
    Found(Vec<u8>),
    Absent,
    Failed(ProviderInstallError),
}

/// The bytes of a file that must be there.
pub open spec fn required(read: FileRead) -> Result<Seq<u8>, ProviderInstallError> {
    match read {
        FileRead::Found(bytes) => Ok(bytes@),
        FileRead::Absent => Err(ProviderInstallError::Io),
        FileRead::Failed(error) => Err(error),
    }
}

/// The JSON of a file that must be there.
pub open spec fn required_value(read: FileRead) -> Result<JsonModel, ProviderInstallError> {
    match required(read) {
        Ok(bytes) => match parsed_json(bytes) {
            Some(value) => Ok(value),
            None => Err(ProviderInstallError::Conflict),
        },
        Err(error) => Err(error),
    }
}

impl FileRead {
    /// Refuses a file that is not there.
    pub fn required_bytes(&self) -> (bytes: Result<&Vec<u8>, ProviderInstallError>)
        ensures
            match required(*self) {
                Ok(given) => bytes matches Ok(bytes) && bytes@ == given,
                Err(error) => bytes matches Err(fault) && fault == error,
            },
    {
        match self {
            FileRead::Found(bytes) => Ok(bytes),
            FileRead::Absent => Err(ProviderInstallError::Io),
            FileRead::Failed(error) => Err(*error),
        }
    }

    /// Refuses a file that is not there, or not JSON.
    pub fn required_json(&self) -> (value: Result<Json, ProviderInstallError>)
        ensures
            match required_value(*self) {
                Ok(given) => value matches Ok(value) && value.model() == given,
                Err(error) => value matches Err(fault) && fault == error,
            },
    {
        match self.required_bytes() {
            Ok(bytes) => match parse_json(bytes.as_slice()) {
                Some(value) => Ok(value),
                None => Err(ProviderInstallError::Conflict),
            },
            Err(error) => Err(error),
        }
    }
}

/// What is read before anything is installed: the files of the distribution, in the order
/// of `layout_paths`, and the directory of the provider's configuration.
pub struct LayoutReads {
    pub first: FileRead,
    pub second: FileRead,
    pub third: FileRead,
    pub fourth: FileRead,
    pub config: Result<String, ProviderInstallError>,
    /// Whether the environment names that directory.
    pub config_named: bool,
}

/// The files of the distribution that a provider needs.
pub open spec fn asset_paths(provider: OnboardingProvider, dir: Seq<char>) -> Seq<Seq<char>> {
    match provider {
        OnboardingProvider::ClaudeCode => {
            let root = joined(dir, kebab_case("claude_plugin"@));
            seq![
                joined(root, kebab_case(".claude_plugin/marketplace.json"@)),
                joined(root, kebab_case("plugins/asr/.claude_plugin/plugin.json"@)),
                joined(root, "plugins/asr/.mcp.json"@),
                joined(root, "plugins/asr/skills/workspace/SKILL.md"@),
            ]
        },
        OnboardingProvider::CodexCli => seq![joined(dir, "codex/skills/asr/SKILL.md"@)],
        OnboardingProvider::Omp => seq![
            joined(dir, "omp/package.json"@),
            joined(dir, "omp/index.js"@),
            joined(dir, "omp/skills/asr/SKILL.md"@),
        ],
    }
}

/// Whether the descriptions of the marketplace and the plugin are the ones of a version of
/// this program: the marketplace offers the plugin alone, and the plugin brings no tools.
pub open spec fn plugin_assets_ok(marketplace: JsonModel, plugin: JsonModel, version: Seq<char>) -> bool {
    &&& marketplace.text_at("name"@) == Some("asr-local"@)
    &&& marketplace.at("owner"@).text_at("name"@) == Some("Agent Session Router"@)
    &&& one_plugin(marketplace.at("plugins"@))
    &&& plugin.text_at("name"@) == Some("asr"@)
    &&& plugin.text_at("version"@) == Some(version)
    &&& plugin.get("mcpServers"@) is None
}

/// Whether a list of plugins holds the one of this program alone.
pub open spec fn one_plugin(plugins: JsonModel) -> bool {
    &&& plugins matches JsonModel::Array(items)
    &&& items.len() == 1
    &&& items[0] is Object
    &&& items[0]->Object_0.len() == 2
    &&& items[0].text_at("name"@) == Some("asr"@)
    &&& items[0].text_at("source"@) == Some("./plugins/asr"@)
}

fn is_one_plugin(plugins: Option<&Json>) -> (yes: bool)
    ensures
        yes == (plugins is Some && one_plugin(plugins->0.model())),
{
    match plugins {
        Some(plugins) => match plugins.as_items() {
            Some(items) => {
                if items.len() != 1 {
                    return false;
                }
                assert(plugins.model().items() == Some(crate::json::models(items@)));
                assert(crate::json::models(items@)[0] == items@[0].model());
                match items[0].as_members() {
                    Some(members) => {
                        assert(member_models(members@).len() == members@.len());
                        members.len() == 2 && items[0].says("name", "asr") && items[0].says(
                            "source",
                            "./plugins/asr",
                        )
                    },
                    None => false,
                }
            },
            None => false,
        },
        None => false,
    }
}

/// Why what is there cannot be installed for a provider.
pub open spec fn layout_fault(installer: ProviderInstaller, reads: LayoutReads) -> Option<
    ProviderInstallError,
> {
    match installer.provider {
        OnboardingProvider::ClaudeCode => match (
            required_value(reads.first),
            required_value(reads.second),
        ) {
            (Err(error), _) => Some(error),
            (Ok(_), Err(error)) => Some(error),
            (Ok(marketplace), Ok(plugin)) => if !plugin_assets_ok(
                marketplace,
                plugin,
                installer.version@,
            ) {
                Some(ProviderInstallError::Conflict)
            } else {
                match reads.third {
                    FileRead::Failed(error) => Some(error),
                    FileRead::Found(_) => Some(ProviderInstallError::Conflict),
                    FileRead::Absent => match required(reads.fourth) {
                        Err(error) => Some(error),
                        Ok(_) => match reads.config {
                            Err(error) => Some(error),
                            Ok(_) => None,
                        },
                    },
                }
            },
        },
        OnboardingProvider::CodexCli => match required(reads.first) {
            Err(error) => Some(error),
            Ok(_) => match reads.config {
                Err(error) => Some(error),
                Ok(_) => None,
            },
        },
        OnboardingProvider::Omp => match required_value(reads.first) {
            Err(error) => Some(error),
            Ok(package) => if package.text_at("name"@) != Some(OMP_PACKAGE@) || package.text_at(
                "version"@,
            ) != Some(installer.version@) {
                Some(ProviderInstallError::Conflict)
            } else {
                match (required(reads.second), required(reads.third)) {
                    (Err(error), _) => Some(error),
                    (Ok(_), Err(error)) => Some(error),
                    (Ok(_), Ok(_)) => match reads.config {
                        Err(error) => Some(error),
                        Ok(_) => None,
                    },
                }
            },
        },
    }
}

/// What tells the plugin host where its sessions belong.
pub open spec fn descriptor_model(executable: Seq<char>, profile: Seq<char>, workspace: Seq<char>) -> JsonModel {
    JsonModel::Object(
        seq![
            ("version"@, JsonModel::Unsigned(1)),
            ("executable"@, JsonModel::Text(executable)),
            ("profile"@, JsonModel::Text(profile)),
            ("workspace"@, JsonModel::Text(workspace)),
        ],
    )
}

/// The steps that set up a provider.
pub open spec fn steps_of(provider: OnboardingProvider) -> Seq<Step> {
    match provider {
        OnboardingProvider::ClaudeCode => seq![
            Step::ClaudeMarketplace,
            Step::ClaudePlugin,
            Step::ClaudeMcp,
        ],
        OnboardingProvider::CodexCli => seq![Step::CodexMcp],
        OnboardingProvider::Omp => seq![Step::OmpLink],
    }
}

/// The files that the provider's own commands write.
pub open spec fn destinations_of(
    installer: ProviderInstaller,
    config: Seq<char>,
    named: bool,
) -> Seq<Seq<char>> {
    match installer.provider {
        OnboardingProvider::ClaudeCode => seq![
            joined(config, "settings.json"@),
            joined(config, "plugins/known_marketplaces.json"@),
            joined(config, "plugins/installed_plugins.json"@),
            joined(
                plugin_cache(config, installer.version@),
                kebab_case(".claude_plugin/plugin.json"@),
            ),
            joined(
                if named {
                    config
                } else {
                    installer.home@
                },
                respelled(".claude_json"@, '.'),
            ),
        ],
        OnboardingProvider::CodexCli => seq![joined(config, "config.toml"@)],
        OnboardingProvider::Omp => seq![
            joined(config, "plugins/package.json"@),
            joined(config, "plugins/omp-plugins.lock.json"@),
        ],
    }
}

/// The directory that a version of the plugin is copied to.
pub open spec fn plugin_cache(config: Seq<char>, version: Seq<char>) -> Seq<char> {
    joined(joined(config, "plugins/cache/asr-local/asr"@), version)
}

/// Whether the files that are to be installed are the ones for a provider.
pub open spec fn files_of(
    files: Seq<FileInstall>,
    installer: ProviderInstaller,
    reads: LayoutReads,
    workspace: Seq<char>,
) -> bool {
    match installer.provider {
        OnboardingProvider::ClaudeCode => files.len() == 0,
        OnboardingProvider::CodexCli => {
            &&& files.len() == 1
            &&& files[0].record.path@ == joined(installer.home@, ".agents/skills/asr/SKILL.md"@)
            &&& required(reads.first) == Ok::<Seq<u8>, ProviderInstallError>(files[0].bytes@)
            &&& files[0].record.sha256@ == digest_text(files[0].bytes@)
            &&& !files[0].record.private
        },
        OnboardingProvider::Omp => {
            &&& files.len() == 1
            &&& files[0].record.path@ == joined(installer.private_root@, "hosts/omp.json"@)
            &&& files[0].bytes@ == encoded_json(
                descriptor_model(installer.executable@, installer.profile@, workspace),
            )
            &&& files[0].record.sha256@ == digest_text(files[0].bytes@)
            &&& files[0].record.private
        },
    }
}

fn copy_of(bytes: &Vec<u8>) -> (copy: Vec<u8>)
    ensures
        copy@ == bytes@,
{
    let mut copy: Vec<u8> = Vec::new();
    let mut i: usize = 0;
    while i < bytes.len()
        invariant
            i <= bytes@.len(),
            copy@ == bytes@.take(i as int),
        decreases bytes.len() - i,
    {
        copy.push(bytes[i]);
        assert(bytes@.take(i + 1) =~= bytes@.take(i as int).push(bytes@[i as int]));
        i += 1;
    }
    assert(bytes@.take(i as int) =~= bytes@);
    copy
}

impl ProviderInstaller {
    /// The files of the distribution that are read before anything is installed.
    pub fn layout_paths(&self) -> (paths: Vec<String>)
        ensures
            texts(paths@) == asset_paths(self.provider, self.integrations_dir@),
    {
        let dir = self.integrations_dir.as_str();
        let paths = match self.provider {
            OnboardingProvider::ClaudeCode => {
                let root = join(dir, kebab("claude_plugin").as_str());
                vec![
                    join(root.as_str(), kebab(".claude_plugin/marketplace.json").as_str()),
                    join(root.as_str(), kebab("plugins/asr/.claude_plugin/plugin.json").as_str()),
                    join(root.as_str(), "plugins/asr/.mcp.json"),
                    join(root.as_str(), "plugins/asr/skills/workspace/SKILL.md"),
                ]
            },
            OnboardingProvider::CodexCli => vec![join(dir, "codex/skills/asr/SKILL.md")],
            OnboardingProvider::Omp => vec![
                join(dir, "omp/package.json"),
                join(dir, "omp/index.js"),
                join(dir, "omp/skills/asr/SKILL.md"),
            ],
        };
        assert(texts(paths@) =~= asset_paths(self.provider, self.integrations_dir@));
        paths
    }

    fn claude_layout(&self, reads: &LayoutReads) -> (destinations: Result<
        Vec<String>,
        ProviderInstallError,
    >)
        requires
            self.provider is ClaudeCode,
        ensures
            match layout_fault(*self, *reads) {
                Some(fault) => destinations matches Err(error) && error == fault,
                None => destinations matches Ok(destinations) && reads.config is Ok && texts(
                    destinations@,
                ) == destinations_of(*self, reads.config->Ok_0@, reads.config_named),
            },
    {
        let marketplace = match reads.first.required_json() {
            Ok(value) => value,
            Err(error) => {
                return Err(error);
            },
        };
        let plugin = match reads.second.required_json() {
            Ok(value) => value,
            Err(error) => {
                return Err(error);
            },
        };
        let owner = match marketplace.get("owner") {
            Some(owner) => owner.says("name", "Agent Session Router"),
            None => false,
        };
        let offered = is_one_plugin(marketplace.get("plugins"));
        if !marketplace.says("name", "asr-local") || !owner || !offered || !plugin.says(
            "name",
            "asr",
        ) || !plugin.says("version", self.version.as_str()) || plugin.get("mcpServers").is_some() {
            return Err(ProviderInstallError::Conflict);
        }
        match &reads.third {
            FileRead::Failed(error) => {
                return Err(*error);
            },
            FileRead::Found(_) => {
                return Err(ProviderInstallError::Conflict);
            },
            FileRead::Absent => {},
        }
        if let Err(error) = reads.fourth.required_bytes() {
            return Err(error);
        }
        let config = match &reads.config {
            Ok(config) => config.as_str(),
            Err(error) => {
                return Err(*error);
            },
        };
        let own = respell(".claude_json", '.');
        let cache = join(
            join(config, "plugins/cache/asr-local/asr").as_str(),
            self.version.as_str(),
        );
        let destinations = vec![
            join(config, "settings.json"),
            join(config, "plugins/known_marketplaces.json"),
            join(config, "plugins/installed_plugins.json"),
            join(cache.as_str(), kebab(".claude_plugin/plugin.json").as_str()),
            if reads.config_named {
                join(config, own.as_str())
            } else {
                join(self.home.as_str(), own.as_str())
            },
        ];
        assert(texts(destinations@) =~= destinations_of(
            *self,
            reads.config->Ok_0@,
            reads.config_named,
        ));
        Ok(destinations)
    }

    /// Decides what is installed for the provider, where what is there is of this version.
    pub fn prepare_layout(&mut self, reads: &LayoutReads, workspace: &WorkspaceName) -> (prepared: Result<
        (),
        ProviderInstallError,
    >)
        requires
            old(self).files@.len() == 0,
        ensures
            prepared == (match layout_fault(*old(self), *reads) {
                Some(fault) => Err::<(), ProviderInstallError>(fault),
                None => Ok(()),
            }),
            *final(self) == (ProviderInstaller {
                files: final(self).files,
                steps: final(self).steps,
                native_destinations: final(self).native_destinations,
                omp_link_destination: final(self).omp_link_destination,
                ..*old(self)
            }),
            match prepared {
                Ok(()) => {
                    &&& files_of(final(self).files@, *old(self), *reads, workspace@)
                    &&& final(self).steps@ == steps_of(old(self).provider)
                    &&& reads.config is Ok
                    &&& texts(final(self).native_destinations@) == destinations_of(
                        *old(self),
                        reads.config->Ok_0@,
                        reads.config_named,
                    )
                    &&& crate::text::opt_text(final(self).omp_link_destination)
                        == if old(self).provider is Omp {
                        Some(
                            joined(
                                joined(reads.config->Ok_0@, "plugins/node_modules"@),
                                OMP_PACKAGE@,
                            ),
                        )
                    } else {
                        crate::text::opt_text(old(self).omp_link_destination)
                    }
                },
                Err(_) => *final(self) == *old(self),
            },
    {
        match self.provider {
            OnboardingProvider::ClaudeCode => {
                let destinations = match self.claude_layout(reads) {
                    Ok(destinations) => destinations,
                    Err(error) => {
                        return Err(error);
                    },
                };
                self.steps = vec![Step::ClaudeMarketplace, Step::ClaudePlugin, Step::ClaudeMcp];
                self.native_destinations = destinations;
                Ok(())
            },
            OnboardingProvider::CodexCli => {
                let bytes = match reads.first.required_bytes() {
                    Ok(bytes) => copy_of(bytes),
                    Err(error) => {
                        return Err(error);
                    },
                };
                let config = match &reads.config {
                    Ok(config) => config.as_str(),
                    Err(error) => {
                        return Err(*error);
                    },
                };
                let path = join(self.home.as_str(), ".agents/skills/asr/SKILL.md");
                self.files = vec![file_install(path, bytes, false)];
                self.steps = vec![Step::CodexMcp];
                let destinations = vec![join(config, "config.toml")];
                assert(texts(destinations@) =~= seq![joined(config@, "config.toml"@)]);
                self.native_destinations = destinations;
                Ok(())
            },
            OnboardingProvider::Omp => {
                let package = match reads.first.required_json() {
                    Ok(value) => value,
                    Err(error) => {
                        return Err(error);
                    },
                };
                if !package.says("name", OMP_PACKAGE) || !package.says(
                    "version",
                    self.version.as_str(),
                ) {
                    return Err(ProviderInstallError::Conflict);
                }
                if let Err(error) = reads.second.required_bytes() {
                    return Err(error);
                }
                if let Err(error) = reads.third.required_bytes() {
                    return Err(error);
                }
                let config = match &reads.config {
                    Ok(config) => config.as_str(),
                    Err(error) => {
                        return Err(*error);
                    },
                };
                let descriptor = object(
                    vec![
                        field("version", Json::Unsigned(1)),
                        field("executable", Json::of_text(self.executable.as_str())),
                        field("profile", Json::of_text(self.profile.as_str())),
                        field("workspace", Json::of_text(workspace.as_str())),
                    ],
                );
                assert(descriptor.model()->Object_0 =~= descriptor_model(
                    self.executable@,
                    self.profile@,
                    workspace@,
                )->Object_0);
                let bytes = encode_json(&descriptor);
                let path = join(self.private_root.as_str(), "hosts/omp.json");
                self.files = vec![file_install(path, bytes, true)];
                self.steps = vec![Step::OmpLink];
                let modules = join(config, "plugins/node_modules");
                self.omp_link_destination = Some(join(modules.as_str(), OMP_PACKAGE));
                let destinations = vec![
                    join(config, "plugins/package.json"),
                    join(config, "plugins/omp-plugins.lock.json"),
                ];
                assert(texts(destinations@) =~= seq![
                    joined(config@, "plugins/package.json"@),
                    joined(config@, "plugins/omp-plugins.lock.json"@),
                ]);
                self.native_destinations = destinations;
                Ok(())
            },
        }
    }
}

/// A command that a provider must understand, and the words that its help must hold.
pub struct Feature {
    pub arguments: Vec<String>,
    pub required: Vec<String>,
}

/// A feature by its texts.
pub open spec fn feature_texts(feature: Feature) -> (Seq<Seq<char>>, Seq<Seq<char>>) {
    (texts(feature.arguments@), texts(feature.required@))
}

/// The commands that a provider must understand.
pub open spec fn features_of(provider: OnboardingProvider) -> Seq<(Seq<Seq<char>>, Seq<Seq<char>>)> {
    match provider {
        OnboardingProvider::ClaudeCode => seq![
            (seq!["plugin"@, "marketplace"@, "add"@, "--help"@], seq!["--scope"@]),
            (seq!["plugin"@, "marketplace"@, "list"@, "--help"@], seq!["--json"@]),
            (seq!["plugin"@, "install"@, "--help"@], seq!["--scope"@]),
            (seq!["plugin"@, "list"@, "--help"@], seq!["--json"@]),
            (seq!["mcp"@, "add"@, "--help"@], seq!["--scope"@, "--transport"@]),
            (seq!["mcp"@, "get"@, "--help"@], seq!["get"@]),
        ],
        OnboardingProvider::CodexCli => seq![
            (seq!["mcp"@, "add"@, "--help"@], seq!["COMMAND"@]),
            (seq!["mcp"@, "get"@, "--help"@], seq!["--json"@]),
            (seq!["mcp"@, "list"@, "--help"@], seq!["--json"@]),
        ],
        OnboardingProvider::Omp => seq![
            (seq!["plugin"@, "link"@, "--help"@], seq!["link"@, "--scope"@]),
            (seq!["plugin"@, "enable"@, "--help"@], seq!["enable"@, "--scope"@]),
            (seq!["plugin"@, "list"@, "--help"@], seq!["list"@, "--json"@]),
        ],
    }
}

fn feature(arguments: &[&str], required: &[&str]) -> (feature: Feature)
    ensures
        feature_texts(feature) == (literals(arguments@), literals(required@)),
{
    let mut first: Vec<String> = Vec::new();
    let mut second: Vec<String> = Vec::new();
    assert(texts(first@) =~= Seq::<Seq<char>>::empty());
    push_texts(&mut first, arguments);
    push_texts(&mut second, required);
    assert(Seq::<Seq<char>>::empty() + literals(arguments@) =~= literals(arguments@));
    assert(Seq::<Seq<char>>::empty() + literals(required@) =~= literals(required@));
    Feature { arguments: first, required: second }
}

/// The commands that a provider must understand.
pub fn required_features(provider: OnboardingProvider) -> (features: Vec<Feature>)
    ensures
        features@.map_values(|f: Feature| feature_texts(f)) == features_of(provider),
{
    let features = match provider {
        OnboardingProvider::ClaudeCode => vec![
            feature(&["plugin", "marketplace", "add", "--help"], &["--scope"]),
            feature(&["plugin", "marketplace", "list", "--help"], &["--json"]),
            feature(&["plugin", "install", "--help"], &["--scope"]),
            feature(&["plugin", "list", "--help"], &["--json"]),
            feature(&["mcp", "add", "--help"], &["--scope", "--transport"]),
            feature(&["mcp", "get", "--help"], &["get"]),
        ],
        OnboardingProvider::CodexCli => vec![
            feature(&["mcp", "add", "--help"], &["COMMAND"]),
            feature(&["mcp", "get", "--help"], &["--json"]),
            feature(&["mcp", "list", "--help"], &["--json"]),
        ],
        OnboardingProvider::Omp => vec![
            feature(&["plugin", "link", "--help"], &["link", "--scope"]),
            feature(&["plugin", "enable", "--help"], &["enable", "--scope"]),
            feature(&["plugin", "list", "--help"], &["list", "--json"]),
        ],
    };
    proof {
        let given = features@.map_values(|f: Feature| feature_texts(f));
        let wanted = features_of(provider);
        assert(given.len() == wanted.len());
        assert forall|i: int| 0 <= i < given.len() implies given[i] == wanted[i] by {
            assert(given[i].0 =~= wanted[i].0);
            assert(given[i].1 =~= wanted[i].1);
        }
        assert(given =~= wanted);
    }
    features
}

/// The command by which a provider tells how far a step is registered, without the program.
pub open spec fn inspection(step: Step) -> Seq<Seq<char>> {
    match step {
        Step::ClaudeMarketplace => seq!["plugin"@, "marketplace"@, "list"@, "--json"@],
        Step::ClaudePlugin => seq!["plugin"@, "list"@, "--json"@],
        Step::ClaudeMcp => seq!["mcp"@, "get"@, CLAUDE_MCP@],
        Step::CodexMcp => seq!["mcp"@, "get"@, CODEX_MCP@, "--json"@],
        Step::OmpLink => seq!["plugin"@, "list"@, "--json"@],
        Step::OmpEnable => seq!["plugin"@, "list"@, "--json"@],
    }
}

/// The command by which a provider lists all tools, without the program: where one is not
/// told of, only that shows that it is not there.
pub open spec fn tool_listing() -> Seq<Seq<char>> {
    seq!["mcp"@, "list"@, "--json"@]
}

fn owned_texts(words: &[&str]) -> (list: Vec<String>)
    ensures
        texts(list@) == literals(words@),
{
    let mut list: Vec<String> = Vec::new();
    assert(texts(list@) =~= Seq::<Seq<char>>::empty());
    push_texts(&mut list, words);
    assert(Seq::<Seq<char>>::empty() + literals(words@) =~= literals(words@));
    list
}

/// The command by which a provider tells how far a step is registered.
pub fn inspect_arguments(step: Step) -> (arguments: Vec<String>)
    ensures
        texts(arguments@) == inspection(step),
{
    let arguments = match step {
        Step::ClaudeMarketplace => owned_texts(&["plugin", "marketplace", "list", "--json"]),
        Step::ClaudePlugin => owned_texts(&["plugin", "list", "--json"]),
        Step::ClaudeMcp => owned_texts(&["mcp", "get", CLAUDE_MCP]),
        Step::CodexMcp => owned_texts(&["mcp", "get", CODEX_MCP, "--json"]),
        Step::OmpLink => owned_texts(&["plugin", "list", "--json"]),
        Step::OmpEnable => owned_texts(&["plugin", "list", "--json"]),
    };
    assert(texts(arguments@) =~= inspection(step));
    arguments
}

/// The command by which a provider lists all tools.
pub fn list_arguments() -> (arguments: Vec<String>)
    ensures
        texts(arguments@) == tool_listing(),
{
    let arguments = owned_texts(&["mcp", "list", "--json"]);
    assert(texts(arguments@) =~= tool_listing());
    arguments
}

/// The files that are compared to tell whether an installed plugin is the one of the
/// distribution.
pub struct PluginFiles {
    pub installed_manifest: String,
    pub manifest: String,
    pub installed_skill: String,
    pub skill: String,
    /// The tools that an installed plugin would bring: it is to have none.
    pub tools: String,
}

/// Whether these are the files of a plugin that is installed at a place.
pub open spec fn compares_plugin(
    files: PluginFiles,
    integrations_dir: Seq<char>,
    installed: Seq<char>,
) -> bool {
    let source = joined(integrations_dir, kebab_case("claude_plugin/plugins/asr"@));
    let manifest = kebab_case(".claude_plugin/plugin.json"@);
    let skill = "skills/workspace/SKILL.md"@;
    &&& files.installed_manifest@ == joined(installed, manifest)
    &&& files.manifest@ == joined(source, manifest)
    &&& files.installed_skill@ == joined(installed, skill)
    &&& files.skill@ == joined(source, skill)
    &&& files.tools@ == joined(installed, ".mcp.json"@)
}

impl ProviderInstaller {
    /// The files that are compared of a plugin that is installed at a place.
    pub fn plugin_files(&self, installed: &str) -> (files: PluginFiles)
        ensures
            compares_plugin(files, self.integrations_dir@, installed@),
    {
        let source = join(
            self.integrations_dir.as_str(),
            kebab("claude_plugin/plugins/asr").as_str(),
        );
        let manifest = kebab(".claude_plugin/plugin.json");
        PluginFiles {
            installed_manifest: join(installed, manifest.as_str()),
            manifest: join(source.as_str(), manifest.as_str()),
            installed_skill: join(installed, "skills/workspace/SKILL.md"),
            skill: join(source.as_str(), "skills/workspace/SKILL.md"),
            tools: join(installed, ".mcp.json"),
        }
    }

    /// Where the package of the distribution lies that a provider links.
    pub fn package_source(&self) -> (path: String)
        ensures
            path@ == joined(self.integrations_dir@, "omp"@),
    {
        join(self.integrations_dir.as_str(), "omp")
    }
}

/// The variable that a provider takes the place of its configuration from, and the place
/// below the home directory that it takes else. One provider has rules of its own.
pub open spec fn config_place(provider: OnboardingProvider) -> Option<(Seq<char>, Seq<char>)> {
    match provider {
        OnboardingProvider::ClaudeCode => Some(
            ("CLAUDE_CONFIG_DIR"@, "."@ + first_word("claude_code"@)),
        ),
        OnboardingProvider::CodexCli => Some(("CODEX_HOME"@, ".codex"@)),
        OnboardingProvider::Omp => None,
    }
}

/// The variable and the default place of a provider's configuration.
pub fn config_variable(provider: OnboardingProvider) -> (place: Option<(&'static str, String)>)
    ensures
        (match place {
            Some((name, default)) => Some((name@, default@)),
            None => None,
        }) == config_place(provider),
{
    match provider {
        OnboardingProvider::ClaudeCode => Some(
            ("CLAUDE_CONFIG_DIR", concat(".", word("claude_code").as_str())),
        ),
        OnboardingProvider::CodexCli => Some(("CODEX_HOME", ".codex".to_owned())),
        OnboardingProvider::Omp => None,
    }
}

/// What a program of a provider printed, and whether it succeeded.
pub struct CliOutput {
    pub success: bool,
    pub stdout: Vec<u8>,
    pub stderr: Vec<u8>,
}

/// Whether a help text tells of a feature.
pub open spec fn feature_shown(output: CliOutput, required: Seq<Seq<char>>) -> bool {
    &&& output.success
    &&& vstd::utf8::valid_utf8(output.stdout@)
    &&& forall|i: int|
        0 <= i < required.len() ==> has_part(
            vstd::utf8::decode_utf8(output.stdout@),
            #[trigger] required[i],
        )
}

/// Refuses a provider whose help does not tell of a feature.
pub fn check_feature(output: &CliOutput, required: &Vec<String>, provider: OnboardingProvider) -> (checked: Result<
    (),
    ProviderInstallError,
>)
    ensures
        checked == if feature_shown(*output, texts(required@)) {
            Ok::<(), ProviderInstallError>(())
        } else {
            Err(ProviderInstallError::Requirement(provider))
        },
{
    let help = match utf8_text(output.stdout.as_slice()) {
        Some(help) => help,
        None => {
            return Err(ProviderInstallError::Requirement(provider));
        },
    };
    if !output.success {
        return Err(ProviderInstallError::Requirement(provider));
    }
    let mut i: usize = 0;
    while i < required.len()
        invariant
            i <= required@.len(),
            help@ == vstd::utf8::decode_utf8(output.stdout@),
            forall|j: int| 0 <= j < i ==> has_part(help@, #[trigger] texts(required@)[j]),
        decreases required.len() - i,
    {
        if !contains_part(help.as_str(), required[i].as_str()) {
            assert(!has_part(help@, texts(required@)[i as int]));
            return Err(ProviderInstallError::Requirement(provider));
        }
        assert(has_part(help@, texts(required@)[i as int]));
        i += 1;
    }
    Ok(())
}

/// Why a program could not be started.
#[derive(Clone, Copy, Debug, PartialEq, Eq, Structural)]
pub enum SpawnError {
    PermissionDenied,
    NotFound,
    Other,
}

pub fn spawn_error(error: SpawnError, provider: OnboardingProvider) -> (fault: ProviderInstallError)
    ensures
        fault == (match error {
            SpawnError::PermissionDenied => ProviderInstallError::Permission,
            SpawnError::NotFound => ProviderInstallError::Requirement(provider),
            SpawnError::Other => ProviderInstallError::CommandFailed,
        }),
{
    match error {
        SpawnError::PermissionDenied => ProviderInstallError::Permission,
        SpawnError::NotFound => ProviderInstallError::Requirement(provider),
        SpawnError::Other => ProviderInstallError::CommandFailed,
    }
}

/// How a program ended: whether it succeeded, and what it printed, as far as it was read.
pub enum CliEnd {
    Exited(CliOutput),
    /// Its end could not be awaited, or what it printed not be read.
    Lost,
    /// It took too long, and was killed.
    TimedOut,
}

/// The output of a program that ended in time and printed no more than is read.
pub fn cli_output(end: CliEnd) -> (output: Result<CliOutput, ProviderInstallError>)
    ensures
        output == (match end {
            CliEnd::Exited(output) => if output.stdout@.len() > crate::onboarding::host::MAX_BYTES
                || output.stderr@.len() > crate::onboarding::host::MAX_BYTES {
                Err::<CliOutput, ProviderInstallError>(ProviderInstallError::CommandFailed)
            } else {
                Ok(output)
            },
            _ => Err(ProviderInstallError::CommandFailed),
        }),
{
    match end {
        CliEnd::Exited(output) => {
            if output.stdout.len() > crate::onboarding::host::MAX_BYTES || output.stderr.len()
                > crate::onboarding::host::MAX_BYTES {
                return Err(ProviderInstallError::CommandFailed);
            }
            Ok(output)
        },
        CliEnd::Lost | CliEnd::TimedOut => Err(ProviderInstallError::CommandFailed),
    }
}

/// The variables that a program of a provider does not inherit: they tell of this program's
/// own sessions, or are secret.
pub open spec fn withheld() -> Seq<Seq<char>> {
    seq![
        "ASR_EXECUTABLE"@,
        "ASR_PROFILE"@,
        "ASR_CREDENTIAL_FILE"@,
        "ASR_WORKSPACE"@,
        "ROUTER_TOKEN"@,
    ]
}

pub fn withheld_variables() -> (names: Vec<String>)
    ensures
        texts(names@) == withheld(),
{
    let mut names: Vec<String> = Vec::new();
    push_texts(
        &mut names,
        &[
            "ASR_EXECUTABLE",
            "ASR_PROFILE",
            "ASR_CREDENTIAL_FILE",
            "ASR_WORKSPACE",
            "ROUTER_TOKEN",
        ],
    );
    assert(texts(names@) =~= withheld());
    names
}

/// What is to be done once a provider is set up.
pub open spec fn next_action_text(
    provider: OnboardingProvider,
    executable: Seq<char>,
    profile: Seq<char>,
    workspace: Seq<char>,
) -> Seq<char> {
    match provider {
        OnboardingProvider::ClaudeCode => "Restart "@ + respelled("Claude_Code"@, ' ') + " with "@
            + shell_word(executable) + " --profile "@ + shell_word(profile) + respelled(
            "_claude_"@,
            ' ',
        ) + "--workspace "@ + shell_word(workspace)
            + ". This existing launcher opts into the development Channel; organization policy must allow it. Then run /asr:workspace status and use the actual MCP workspace_list and workspace_members tools to confirm your identity. Installation alone does not activate this conversation."@,
        OnboardingProvider::CodexCli =>
            "Start a new Codex CLI session with `codex`, then select $asr (or use /skills) and request `$asr workspace status`. Use the actual MCP workspace_list and workspace_members tools to confirm your identity; installation does not activate the current session."@,
        OnboardingProvider::Omp =>
            "Exit and restart the OMP process with `omp`, then run `/asr workspace status`. Confirm your identity with the actual MCP workspace_list and workspace_members tools. A command reload is not a plugin-registry restart."@,
    }
}

/// What is to be done once a provider is set up.
pub fn next_action(
    provider: OnboardingProvider,
    executable: &str,
    profile: &str,
    workspace: &WorkspaceName,
) -> (text: String)
    ensures
        text@ == next_action_text(provider, executable@, profile@, workspace@),
{
    match provider {
        OnboardingProvider::ClaudeCode => {
            let mut text = concat3("Restart ", respell("Claude_Code", ' ').as_str(), " with ");
            text.append(shell_quote(executable).as_str());
            text.append(" --profile ");
            text.append(shell_quote(profile).as_str());
            text.append(respell("_claude_", ' ').as_str());
            text.append("--workspace ");
            text.append(shell_quote(workspace.as_str()).as_str());
            text.append(
                ". This existing launcher opts into the development Channel; organization policy must allow it. Then run /asr:workspace status and use the actual MCP workspace_list and workspace_members tools to confirm your identity. Installation alone does not activate this conversation.",
            );
            text
        },
        OnboardingProvider::CodexCli =>
            "Start a new Codex CLI session with `codex`, then select $asr (or use /skills) and request `$asr workspace status`. Use the actual MCP workspace_list and workspace_members tools to confirm your identity; installation does not activate the current session.".to_owned(),
        OnboardingProvider::Omp =>
            "Exit and restart the OMP process with `omp`, then run `/asr workspace status`. Confirm your identity with the actual MCP workspace_list and workspace_members tools. A command reload is not a plugin-registry restart.".to_owned(),
    }
}

} // verus!
