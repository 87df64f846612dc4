//! What providers have registered, told from what their programs print. A registration
//! counts only where it is exactly the one that would be made.

use vstd::prelude::*;

use crate::json::{models, parse_json, parsed_json, Json, JsonModel};
use crate::onboarding::host::{absolute_path, whole_path};
use crate::onboarding::providers::{
    required, role_text, tool_arguments, CliOutput, FileRead, ProviderInstallError,
    ProviderInstaller, Registered, Step, CLAUDE_MCP, CODEX_MCP, OMP_PACKAGE,
};
use crate::onboarding::OnboardingProvider;
use crate::paths::{is_same_path, join, joined, same_path};
use crate::text::{
    concat, concat3, given, kebab, kebab_case, lines_of, respell, respelled, same_bytes, same_text,
    split_lines, starts_with, texts, trim, trimmed, utf8_text,
};

verus! {

/// The JSON that a program printed, where it succeeded.
pub open spec fn printed(output: CliOutput, provider: OnboardingProvider) -> Result<
    JsonModel,
    ProviderInstallError,
> {
    if !output.success {
        Err(ProviderInstallError::CommandFailed)
    } else {
        match parsed_json(output.stdout@) {
            Some(value) => Ok(value),
            None => Err(ProviderInstallError::Requirement(provider)),
        }
    }
}

/// The JSON that a program printed, where it succeeded.
pub fn printed_json(output: &CliOutput, provider: OnboardingProvider) -> (value: Result<
    Json,
    ProviderInstallError,
>)
    ensures
        match printed(*output, provider) {
            Ok(model) => value matches Ok(value) && value.model() == model,
            Err(error) => value matches Err(fault) && fault == error,
        },
{
    if !output.success {
        return Err(ProviderInstallError::CommandFailed);
    }
    match parse_json(output.stdout.as_slice()) {
        Some(value) => Ok(value),
        None => Err(ProviderInstallError::Requirement(provider)),
    }
}

/// What a list of registrations is of.
#[derive(Clone, Copy, Debug, PartialEq, Eq, Structural)]
pub enum Registry {
    Marketplaces,
    Plugins,
    Tools,
    Packages,
}

/// The member that names an entry.
pub open spec fn naming(registry: Registry) -> Seq<char> {
    if registry is Plugins {
        "id"@
    } else {
        "name"@
    }
}

fn name_key(registry: Registry) -> (key: &'static str)
    ensures
        key@ == naming(registry),
{
    match registry {
        Registry::Plugins => "id",
        _ => "name",
    }
}

/// Whether a name is one that this program registers under, or once did.
pub open spec fn own_name(registry: Registry, name: Seq<char>) -> bool {
    match registry {
        Registry::Marketplaces => name == "asr-local"@,
        Registry::Plugins => name == "asr"@ || "asr@"@.is_prefix_of(name),
        Registry::Tools => name == CODEX_MCP@,
        Registry::Packages => name == OMP_PACKAGE@ || name == "agent-session-router"@,
    }
}

/// Whether an entry is one of this program.
pub open spec fn own_entry(registry: Registry, entry: JsonModel) -> bool {
    entry.text_at(naming(registry)) matches Some(name) && own_name(registry, name)
}

fn is_own(registry: Registry, entry: &Json) -> (own: bool)
    ensures
        own == own_entry(registry, entry.model()),
{
    match entry.text_at(name_key(registry)) {
        Some(name) => match registry {
            Registry::Marketplaces => same_text(name, "asr-local"),
            Registry::Plugins => same_text(name, "asr") || starts_with(name, "asr@"),
            Registry::Tools => same_text(name, CODEX_MCP),
            Registry::Packages => same_text(name, OMP_PACKAGE) || same_text(
                name,
                "agent-session-router",
            ),
        },
        None => false,
    }
}

/// Whether every entry of a list has a name.
pub open spec fn all_named(registry: Registry, entries: Seq<JsonModel>) -> bool {
    forall|i: int| 0 <= i < entries.len() ==> (#[trigger] entries[i]).text_at(naming(registry)) is Some
}

/// The place of the first entry of this program from a place on, the length where there is
/// none.
pub open spec fn own_from(registry: Registry, entries: Seq<JsonModel>, from: int) -> int
    decreases entries.len() - from,
{
    if from >= entries.len() {
        entries.len() as int
    } else if own_entry(registry, entries[from]) {
        from
    } else {
        own_from(registry, entries, from + 1)
    }
}

/// The entry of this program.
pub enum OwnEntry<'a> {
    Nothing,
    One(&'a Json),
    Many,
}

/// The entry of this program in a list, by its model: none, or one unless there are more.
pub open spec fn own_of(registry: Registry, entries: Seq<JsonModel>) -> Option<Option<JsonModel>> {
    let first = own_from(registry, entries, 0);
    if first >= entries.len() {
        None
    } else if own_from(registry, entries, first + 1) < entries.len() {
        Some(None)
    } else {
        Some(Some(entries[first]))
    }
}

fn all_have_names(registry: Registry, entries: &Vec<Json>) -> (yes: bool)
    ensures
        yes == all_named(registry, models(entries@)),
{
    let mut i: usize = 0;
    while i < entries.len()
        invariant
            i <= entries@.len(),
            forall|j: int|
                0 <= j < i ==> (#[trigger] models(entries@)[j]).text_at(naming(registry)) is Some,
        decreases entries.len() - i,
    {
        assert(models(entries@)[i as int] == entries@[i as int].model());
        if entries[i].text_at(name_key(registry)).is_none() {
            assert(models(entries@)[i as int].text_at(naming(registry)) is None);
            return false;
        }
        i += 1;
    }
    true
}

fn own_place(registry: Registry, entries: &Vec<Json>, from: usize) -> (place: usize)
    requires
        from <= entries@.len(),
    ensures
        place == own_from(registry, models(entries@), from as int),
        from <= place <= entries@.len(),
{
    let mut i: usize = from;
    while i < entries.len()
        invariant
            from <= i <= entries@.len(),
            own_from(registry, models(entries@), from as int) == own_from(
                registry,
                models(entries@),
                i as int,
            ),
        decreases entries.len() - i,
    {
        assert(models(entries@)[i as int] == entries@[i as int].model());
        if is_own(registry, &entries[i]) {
            return i;
        }
        i += 1;
    }
    i
}

fn find_own(registry: Registry, entries: &Vec<Json>) -> (own: OwnEntry<'_>)
    ensures
        match own_of(registry, models(entries@)) {
            None => own is Nothing,
            Some(None) => own is Many,
            Some(Some(entry)) => own matches OwnEntry::One(found) && found.model() == entry,
        },
{
    let first = own_place(registry, entries, 0);
    if first >= entries.len() {
        return OwnEntry::Nothing;
    }
    let second = own_place(registry, entries, first + 1);
    if second < entries.len() {
        return OwnEntry::Many;
    }
    assert(models(entries@)[first as int] == entries@[first as int].model());
    OwnEntry::One(&entries[first])
}

/// Whether a marketplace is the one of a distribution.
pub open spec fn marketplace_ok(entry: JsonModel, dir: Seq<char>) -> bool {
    &&& entry.text_at("source"@) == Some("directory"@)
    &&& entry.text_at("path"@) == Some(joined(dir, kebab_case("claude_plugin"@)))
    &&& entry.text_at("installLocation"@) == Some(joined(dir, kebab_case("claude_plugin"@)))
}

/// How far the marketplace is registered, told from the list of all.
pub open spec fn marketplace_state(value: JsonModel, dir: Seq<char>, provider: OnboardingProvider) -> Result<
    Registered,
    ProviderInstallError,
> {
    match value.items() {
        None => Err(ProviderInstallError::Requirement(provider)),
        Some(entries) => if !all_named(Registry::Marketplaces, entries) {
            Err(ProviderInstallError::Requirement(provider))
        } else {
            match own_of(Registry::Marketplaces, entries) {
                None => Ok(Registered::Absent),
                Some(Some(entry)) => if marketplace_ok(entry, dir) {
                    Ok(Registered::Exact)
                } else {
                    Err(ProviderInstallError::Conflict)
                },
                Some(None) => Err(ProviderInstallError::Conflict),
            }
        },
    }
}

/// What the list of plugins says of the one of this program.
pub enum PluginEntry {
    Absent,
    /// It was copied to a path.
    Installed { path: String, enabled: Option<bool> },
}

/// A plugin by its model: its path, and whether it is enabled.
pub open spec fn plugin_of(
    value: JsonModel,
    version: Seq<char>,
    provider: OnboardingProvider,
    current: Option<Seq<char>>,
) -> Result<Option<(Seq<char>, Option<bool>)>, ProviderInstallError> {
    match value.items() {
        None => Err(ProviderInstallError::Requirement(provider)),
        Some(entries) => if !all_named(Registry::Plugins, entries) {
            Err(ProviderInstallError::Requirement(provider))
        } else {
            match own_of(Registry::Plugins, entries) {
                None => Ok(None),
                Some(None) => Err(ProviderInstallError::Conflict),
                Some(Some(entry)) => if entry.text_at("id"@) != Some("asr@asr-local"@)
                    || entry.text_at("scope"@) != Some("user"@) || entry.text_at("version"@)
                    != Some(version) {
                    Err(ProviderInstallError::Conflict)
                } else {
                    match entry.text_at("installPath"@) {
                        None => Err(ProviderInstallError::Conflict),
                        Some(path) => match whole_path(Some(path), current) {
                            Err(error) => Err(error),
                            Ok(path) => Ok(Some((path, entry.at("enabled"@).boolean()))),
                        },
                    }
                },
            }
        },
    }
}

/// What is read to compare a plugin with the one of the distribution.
pub struct PluginReads {
    pub installed_manifest: FileRead,
    pub manifest: FileRead,
    pub installed_skill: FileRead,
    pub skill: FileRead,
    /// The tools that the installed plugin brings, which has none.
    pub tools: FileRead,
}

/// Why two files are not the same.
pub open spec fn copies_fault(a: FileRead, b: FileRead) -> Option<ProviderInstallError> {
    match (required(a), required(b)) {
        (Err(error), _) => Some(error),
        (Ok(_), Err(error)) => Some(error),
        (Ok(a), Ok(b)) => if a == b {
            None
        } else {
            Some(ProviderInstallError::Conflict)
        },
    }
}

fn check_copies(a: &FileRead, b: &FileRead) -> (checked: Result<(), ProviderInstallError>)
    ensures
        checked == (match copies_fault(*a, *b) {
            Some(fault) => Err::<(), ProviderInstallError>(fault),
            None => Ok(()),
        }),
{
    match a.required_bytes() {
        Err(error) => Err(error),
        Ok(left) => match b.required_bytes() {
            Err(error) => Err(error),
            Ok(right) => if same_bytes(left.as_slice(), right.as_slice()) {
                Ok(())
            } else {
                Err(ProviderInstallError::Conflict)
            },
        },
    }
}

/// Whether something is enabled.
pub open spec fn enabled_state(enabled: Option<bool>, provider: OnboardingProvider) -> Result<
    Registered,
    ProviderInstallError,
> {
    match enabled {
        Some(true) => Ok(Registered::Exact),
        Some(false) => Ok(Registered::Disabled),
        None => Err(ProviderInstallError::Requirement(provider)),
    }
}

fn state_of(enabled: Option<bool>, provider: OnboardingProvider) -> (state: Result<
    Registered,
    ProviderInstallError,
>)
    ensures
        state == enabled_state(enabled, provider),
{
    match enabled {
        Some(on) => if on {
            Ok(Registered::Exact)
        } else {
            Ok(Registered::Disabled)
        },
        None => Err(ProviderInstallError::Requirement(provider)),
    }
}

/// How far an installed plugin is registered: its files are those of the distribution.
pub open spec fn plugin_state(
    reads: PluginReads,
    enabled: Option<bool>,
    provider: OnboardingProvider,
) -> Result<Registered, ProviderInstallError> {
    match copies_fault(reads.installed_manifest, reads.manifest) {
        Some(fault) => Err(fault),
        None => match copies_fault(reads.installed_skill, reads.skill) {
            Some(fault) => Err(fault),
            None => match reads.tools {
                FileRead::Failed(error) => Err(error),
                FileRead::Found(_) => Err(ProviderInstallError::Conflict),
                FileRead::Absent => enabled_state(enabled, provider),
            },
        },
    }
}

/// Whether a member is null, or not there.
pub open spec fn null_or_absent(value: JsonModel, key: Seq<char>) -> bool {
    match value.get(key) {
        Some(member) => member is Null,
        None => true,
    }
}

fn is_null_or_absent(value: &Json, key: &str) -> (yes: bool)
    ensures
        yes == null_or_absent(value.model(), key@),
{
    match value.get(key) {
        Some(member) => member.is_null(),
        None => true,
    }
}

/// Whether a value is null, or holds nothing.
pub open spec fn empty_or_null(value: JsonModel) -> bool {
    match value {
        JsonModel::Null => true,
        JsonModel::Object(members) => members.len() == 0,
        JsonModel::Array(items) => items.len() == 0,
        _ => false,
    }
}

fn is_empty_or_null(value: Option<&Json>) -> (yes: bool)
    ensures
        yes == (match value {
            Some(value) => empty_or_null(value.model()),
            None => true,
        }),
{
    match value {
        None => true,
        Some(value) => {
            if value.is_null() {
                return true;
            }
            match value.as_members() {
                Some(members) => {
                    assert(crate::json::member_models(members@).len() == members@.len());
                    return members.len() == 0;
                },
                None => {},
            }
            match value.as_items() {
                Some(items) => {
                    assert(models(items@).len() == items@.len());
                    items.len() == 0
                },
                None => false,
            }
        },
    }
}

/// Whether a list holds the texts of another.
pub open spec fn lists(value: JsonModel, list: Seq<Seq<char>>) -> bool {
    &&& value matches JsonModel::Array(items)
    &&& items.len() == list.len()
    &&& forall|i: int| 0 <= i < list.len() ==> (#[trigger] items[i]).text() == Some(list[i])
}

fn is_list(found: Option<&Json>, list: &Vec<String>) -> (yes: bool)
    ensures
        yes == (match found {
            Some(value) => lists(value.model(), texts(list@)),
            None => false,
        }),
{
    match found {
        None => false,
        Some(value) => match value.as_items() {
            None => false,
            Some(items) => {
                assert(value.model().items() == Some(models(items@)));
                assert(models(items@).len() == items@.len());
                if items.len() != list.len() {
                    return false;
                }
                let mut i: usize = 0;
                while i < items.len()
                    invariant
                        i <= items@.len(),
                        found == Some(value),
                        items@.len() == list@.len(),
                        value.model() == JsonModel::Array(models(items@)),
                        models(items@).len() == items@.len(),
                        forall|j: int|
                            0 <= j < i ==> (#[trigger] models(items@)[j]).text() == Some(
                                texts(list@)[j],
                            ),
                    decreases items.len() - i,
                {
                    assert(models(items@)[i as int] == items@[i as int].model());
                    let same = match items[i].as_text() {
                        Some(text) => same_text(text, list[i].as_str()),
                        None => false,
                    };
                    if !same {
                        assert(models(items@)[i as int].text() != Some(texts(list@)[i as int]));
                        return false;
                    }
                    i += 1;
                }
                true
            },
        },
    }
}

/// Whether a tool server is the one of this program: it is enabled, starts this program
/// with its arguments, and nothing else is set.
pub open spec fn tools_ok(entry: JsonModel, executable: Seq<char>, profile: Seq<char>) -> bool {
    let transport = entry.at("transport"@);
    &&& entry.text_at("name"@) == Some(CODEX_MCP@)
    &&& entry.at("enabled"@).boolean() == Some(true)
    &&& null_or_absent(entry, "disabled_reason"@)
    &&& transport.text_at("type"@) == Some("stdio"@)
    &&& transport.text_at("command"@) == Some(executable)
    &&& lists(transport.at("args"@), tool_arguments(profile, role_text(Step::CodexMcp)))
    &&& empty_or_null(transport.at("env"@))
    &&& empty_or_null(transport.at("env_vars"@))
    &&& null_or_absent(transport, "cwd"@)
    &&& null_or_absent(entry, "enabled_tools"@)
    &&& null_or_absent(entry, "disabled_tools"@)
}

/// How far the tool server is registered, told from asking for it: where that fails, the
/// list of all must tell.
pub open spec fn tools_state(
    output: CliOutput,
    executable: Seq<char>,
    profile: Seq<char>,
    provider: OnboardingProvider,
) -> Result<Option<Registered>, ProviderInstallError> {
    if !output.success {
        Ok(None)
    } else {
        match parsed_json(output.stdout@) {
            None => Err(ProviderInstallError::Requirement(provider)),
            Some(entry) => if tools_ok(entry, executable, profile) {
                Ok(Some(Registered::Exact))
            } else {
                Err(ProviderInstallError::Conflict)
            },
        }
    }
}

/// Whether the list of all tool servers shows that there is none of this program.
pub open spec fn tools_absent(value: JsonModel, provider: OnboardingProvider) -> Result<
    Registered,
    ProviderInstallError,
> {
    match value.items() {
        None => Err(ProviderInstallError::Requirement(provider)),
        Some(entries) => if !all_named(Registry::Tools, entries) {
            Err(ProviderInstallError::Requirement(provider))
        } else if own_from(Registry::Tools, entries, 0) < entries.len() {
            Err(ProviderInstallError::Conflict)
        } else {
            Ok(Registered::Absent)
        },
    }
}

/// What the list of packages says of the one of this program.
pub enum PackageEntry {
    Absent,
    /// It is linked from a path.
    Linked { path: Option<String>, features: bool, enabled: Option<bool> },
}

/// Whether a plugin of a marketplace takes a name of this program.
pub open spec fn takes_name(entry: JsonModel, key: Seq<char>) -> bool {
    entry.text_at(key) matches Some(name) && (name == OMP_PACKAGE@ || name == "asr"@
        || "asr@"@.is_prefix_of(name))
}

fn is_taking(entry: &Json, key: &str) -> (yes: bool)
    ensures
        yes == takes_name(entry.model(), key@),
{
    match entry.text_at(key) {
        Some(name) => same_text(name, OMP_PACKAGE) || same_text(name, "asr") || starts_with(
            name,
            "asr@",
        ),
        None => false,
    }
}

/// Whether any plugin of a marketplace takes a name of this program.
pub open spec fn name_taken(entries: Seq<JsonModel>) -> bool {
    exists|i: int|
        0 <= i < entries.len() && (takes_name(#[trigger] entries[i], "name"@) || takes_name(
            entries[i],
            "id"@,
        ))
}

fn is_name_taken(entries: &Vec<Json>) -> (yes: bool)
    ensures
        yes == name_taken(models(entries@)),
{
    let mut i: usize = 0;
    while i < entries.len()
        invariant
            i <= entries@.len(),
            forall|j: int|
                0 <= j < i ==> !takes_name(#[trigger] models(entries@)[j], "name"@) && !takes_name(
                    models(entries@)[j],
                    "id"@,
                ),
        decreases entries.len() - i,
    {
        assert(models(entries@)[i as int] == entries@[i as int].model());
        if is_taking(&entries[i], "name") || is_taking(&entries[i], "id") {
            return true;
        }
        i += 1;
    }
    false
}

/// A package by its model: its path, whether features of it are chosen, and whether it is
/// enabled.
pub open spec fn package_of(value: JsonModel, version: Seq<char>, provider: OnboardingProvider) -> Result<
    Option<(Option<Seq<char>>, bool, Option<bool>)>,
    ProviderInstallError,
> {
    match (value.at("npm"@).items(), value.at("marketplace"@).items()) {
        (Some(entries), Some(others)) => if !all_named(Registry::Packages, entries) {
            Err(ProviderInstallError::Requirement(provider))
        } else if name_taken(others) {
            Err(ProviderInstallError::Conflict)
        } else {
            match own_of(Registry::Packages, entries) {
                None => Ok(None),
                Some(None) => Err(ProviderInstallError::Conflict),
                Some(Some(entry)) => if entry.text_at("name"@) != Some(OMP_PACKAGE@)
                    || entry.text_at("version"@) != Some(version) {
                    Err(ProviderInstallError::Conflict)
                } else {
                    Ok(
                        Some(
                            (
                                entry.text_at("path"@),
                                !empty_or_null(entry.at("enabledFeatures"@)),
                                entry.at("enabled"@).boolean(),
                            ),
                        ),
                    )
                },
            }
        },
        _ => Err(ProviderInstallError::Requirement(provider)),
    }
}

/// How far a linked package is registered. `installed` and `expected` are the places that
/// its path and that of the distribution come down to, none where there is none.
pub open spec fn package_state(
    installed: Option<Seq<char>>,
    expected: Option<Seq<char>>,
    features: bool,
    enabled: Option<bool>,
    provider: OnboardingProvider,
) -> Result<Registered, ProviderInstallError> {
    match (installed, expected) {
        (None, _) => Err(ProviderInstallError::Conflict),
        (Some(_), None) => Err(ProviderInstallError::Io),
        (Some(installed), Some(expected)) => if !same_path(installed, expected) || features {
            Err(ProviderInstallError::Conflict)
        } else {
            enabled_state(enabled, provider)
        },
    }
}

/// How far a linked package is registered.
pub fn inspect_package(
    installed: Option<&str>,
    expected: Option<&str>,
    features: bool,
    enabled: Option<bool>,
    provider: OnboardingProvider,
) -> (state: Result<Registered, ProviderInstallError>)
    ensures
        state == package_state(given(installed), given(expected), features, enabled, provider),
{
    match installed {
        None => Err(ProviderInstallError::Conflict),
        Some(installed) => match expected {
            None => Err(ProviderInstallError::Io),
            Some(expected) => if !is_same_path(installed, expected) || features {
                Err(ProviderInstallError::Conflict)
            } else {
                state_of(enabled, provider)
            },
        },
    }
}

/// How many of some lines, without the white space at their ends, are a text.
pub open spec fn times(lines: Seq<Seq<char>>, text: Seq<char>) -> nat
    decreases lines.len(),
{
    if lines.len() == 0 {
        0
    } else {
        times(lines.drop_last(), text) + if lines.last() == text {
            1nat
        } else {
            0
        }
    }
}

/// The lines of a text without the white space at their ends.
pub open spec fn trimmed_lines(text: Seq<char>) -> Seq<Seq<char>> {
    lines_of(text).map_values(|line: Seq<char>| trimmed(line))
}

/// A list of texts with blanks between.
pub open spec fn spaced(list: Seq<Seq<char>>) -> Seq<char>
    decreases list.len(),
{
    if list.len() == 0 {
        Seq::empty()
    } else if list.len() == 1 {
        list[0]
    } else {
        spaced(list.drop_last()) + " "@ + list.last()
    }
}

/// The line that tells which program a tool server starts.
pub open spec fn command_line(executable: Seq<char>) -> Seq<char> {
    "Command: "@ + executable
}

/// The line that tells with which arguments.
pub open spec fn args_line(profile: Seq<char>) -> Seq<char> {
    "Args: "@ + spaced(tool_arguments(profile, role_text(Step::ClaudeMcp)))
}

/// Whether a line may stand in the description of the tool server of this program.
pub open spec fn known_line(line: Seq<char>, executable: Seq<char>, profile: Seq<char>) -> bool {
    ||| line.len() == 0
    ||| line == "agent-session-router-channel:"@
    ||| line == "Scope: User config (available in all your projects)"@
    ||| line == "Type: stdio"@
    ||| line == command_line(executable)
    ||| line == args_line(profile)
    ||| line == "Environment:"@
    ||| "Status:"@.is_prefix_of(line)
    ||| ("To remove this server, run:"@ + respelled("_claude_"@, ' ') + "mcp remove "@).is_prefix_of(
        line,
    )
}

/// Whether a description is that of the tool server of this program, line by line.
pub open spec fn channel_ok(text: Seq<char>, executable: Seq<char>, profile: Seq<char>) -> bool {
    let lines = trimmed_lines(text);
    &&& lines.len() > 0 && lines[0] == "agent-session-router-channel:"@
    &&& times(lines, "Scope: User config (available in all your projects)"@) == 1
    &&& times(lines, "Type: stdio"@) == 1
    &&& times(lines, command_line(executable)) == 1
    &&& times(lines, args_line(profile)) == 1
    &&& forall|i: int| 0 <= i < lines.len() ==> known_line(#[trigger] lines[i], executable, profile)
}

/// How far the tool server is registered, told from asking for it. That it is absent must
/// be said in so many words.
pub open spec fn channel_state(
    output: CliOutput,
    executable: Seq<char>,
    profile: Seq<char>,
    provider: OnboardingProvider,
) -> Result<Registered, ProviderInstallError> {
    if !output.success {
        if output.stdout@.len() == 0 && vstd::utf8::valid_utf8(output.stderr@) && trimmed(
            vstd::utf8::decode_utf8(output.stderr@),
        ) == "No MCP server found with name: "@ + CLAUDE_MCP@ {
            Ok(Registered::Absent)
        } else {
            Err(ProviderInstallError::CommandFailed)
        }
    } else if !vstd::utf8::valid_utf8(output.stdout@) {
        Err(ProviderInstallError::Requirement(provider))
    } else if channel_ok(vstd::utf8::decode_utf8(output.stdout@), executable, profile) {
        Ok(Registered::Exact)
    } else {
        Err(ProviderInstallError::Conflict)
    }
}

fn count_lines(lines: &Vec<String>, text: &str) -> (count: usize)
    ensures
        count == times(texts(lines@), text@),
{
    let mut count: usize = 0;
    let mut i: usize = 0;
    let ghost all = texts(lines@);
    assert(all.take(0) =~= Seq::<Seq<char>>::empty());
    while i < lines.len()
        invariant
            i <= lines@.len(),
            count <= i,
            all == texts(lines@),
            count == times(all.take(i as int), text@),
        decreases lines.len() - i,
    {
        assert(all.take(i + 1).drop_last() =~= all.take(i as int));
        assert(all.take(i + 1).last() == lines@[i as int]@);
        if same_text(lines[i].as_str(), text) {
            count += 1;
        }
        i += 1;
    }
    assert(all.take(i as int) =~= all);
    count
}

fn trim_lines(text: &str) -> (lines: Vec<String>)
    ensures
        texts(lines@) == trimmed_lines(text@),
{
    let whole = split_lines(text);
    let mut lines: Vec<String> = Vec::new();
    let mut i: usize = 0;
    while i < whole.len()
        invariant
            i <= whole@.len(),
            texts(whole@) == lines_of(text@),
            lines@.len() == i,
            forall|j: int| 0 <= j < i ==> (#[trigger] lines@[j])@ == trimmed(texts(whole@)[j]),
        decreases whole.len() - i,
    {
        let line = trim(whole[i].as_str());
        assert(line@ == trimmed(texts(whole@)[i as int]));
        lines.push(line);
        i += 1;
    }
    assert(texts(whole@).len() == whole@.len());
    assert(texts(lines@) =~= trimmed_lines(text@));
    lines
}

impl ProviderInstaller {
    /// How far the marketplace is registered.
    pub fn inspect_marketplace(&self, value: &Json) -> (state: Result<
        Registered,
        ProviderInstallError,
    >)
        ensures
            state == marketplace_state(value.model(), self.integrations_dir@, self.provider),
    {
        let entries = match value.as_items() {
            Some(entries) => entries,
            None => {
                return Err(ProviderInstallError::Requirement(self.provider));
            },
        };
        if !all_have_names(Registry::Marketplaces, entries) {
            return Err(ProviderInstallError::Requirement(self.provider));
        }
        match find_own(Registry::Marketplaces, entries) {
            OwnEntry::Nothing => Ok(Registered::Absent),
            OwnEntry::Many => Err(ProviderInstallError::Conflict),
            OwnEntry::One(entry) => {
                let place = join(self.integrations_dir.as_str(), kebab("claude_plugin").as_str());
                if entry.says("source", "directory") && entry.says("path", place.as_str())
                    && entry.says("installLocation", place.as_str()) {
                    Ok(Registered::Exact)
                } else {
                    Err(ProviderInstallError::Conflict)
                }
            },
        }
    }

    /// What the list of plugins says of the one of this program.
    pub fn plugin_entry(&self, value: &Json, current: Option<&str>) -> (entry: Result<
        PluginEntry,
        ProviderInstallError,
    >)
        ensures
            match plugin_of(value.model(), self.version@, self.provider, given(current)) {
                Err(error) => entry matches Err(fault) && fault == error,
                Ok(None) => entry matches Ok(entry) && entry is Absent,
                Ok(Some((place, on))) => entry matches Ok(PluginEntry::Installed { path, enabled })
                    && path@ == place && enabled == on,
            },
    {
        let entries = match value.as_items() {
            Some(entries) => entries,
            None => {
                return Err(ProviderInstallError::Requirement(self.provider));
            },
        };
        if !all_have_names(Registry::Plugins, entries) {
            return Err(ProviderInstallError::Requirement(self.provider));
        }
        match find_own(Registry::Plugins, entries) {
            OwnEntry::Nothing => Ok(PluginEntry::Absent),
            OwnEntry::Many => Err(ProviderInstallError::Conflict),
            OwnEntry::One(entry) => {
                if !entry.says("id", "asr@asr-local") || !entry.says("scope", "user")
                    || !entry.says("version", self.version.as_str()) {
                    return Err(ProviderInstallError::Conflict);
                }
                let enabled = match entry.get("enabled") {
                    Some(enabled) => enabled.as_bool(),
                    None => None,
                };
                match entry.text_at("installPath") {
                    None => Err(ProviderInstallError::Conflict),
                    Some(path) => match absolute_path(Some(path), current) {
                        Err(error) => Err(error),
                        Ok(path) => Ok(PluginEntry::Installed { path, enabled }),
                    },
                }
            },
        }
    }

    /// How far an installed plugin is registered.
    pub fn inspect_plugin(&self, reads: &PluginReads, enabled: Option<bool>) -> (state: Result<
        Registered,
        ProviderInstallError,
    >)
        ensures
            state == plugin_state(*reads, enabled, self.provider),
    {
        if let Err(error) = check_copies(&reads.installed_manifest, &reads.manifest) {
            return Err(error);
        }
        if let Err(error) = check_copies(&reads.installed_skill, &reads.skill) {
            return Err(error);
        }
        match &reads.tools {
            FileRead::Failed(error) => Err(*error),
            FileRead::Found(_) => Err(ProviderInstallError::Conflict),
            FileRead::Absent => state_of(enabled, self.provider),
        }
    }

    /// How far the tool server is registered, or nothing where the list of all must tell.
    pub fn inspect_codex_mcp(&self, output: &CliOutput) -> (state: Result<
        Option<Registered>,
        ProviderInstallError,
    >)
        ensures
            state == tools_state(*output, self.executable@, self.profile@, self.provider),
    {
        if !output.success {
            return Ok(None);
        }
        let entry = match parse_json(output.stdout.as_slice()) {
            Some(entry) => entry,
            None => {
                return Err(ProviderInstallError::Requirement(self.provider));
            },
        };
        let enabled = match entry.get("enabled") {
            Some(enabled) => match enabled.as_bool() {
                Some(on) => on,
                None => false,
            },
            None => false,
        };
        let arguments = self.mcp_arguments("codex-cli");
        let transport = match entry.get("transport") {
            Some(transport) => transport,
            None => {
                return Err(ProviderInstallError::Conflict);
            },
        };
        if !entry.says("name", CODEX_MCP) || !enabled || !is_null_or_absent(
            &entry,
            "disabled_reason",
        ) || !transport.says("type", "stdio") || !transport.says(
            "command",
            self.executable.as_str(),
        ) || !is_list(transport.get("args"), &arguments) || !is_empty_or_null(transport.get("env"))
            || !is_empty_or_null(transport.get("env_vars")) || !is_null_or_absent(transport, "cwd")
            || !is_null_or_absent(&entry, "enabled_tools") || !is_null_or_absent(
            &entry,
            "disabled_tools",
        ) {
            return Err(ProviderInstallError::Conflict);
        }
        Ok(Some(Registered::Exact))
    }

    /// Whether the list of all tool servers shows that there is none of this program.
    pub fn inspect_codex_list(&self, value: &Json) -> (state: Result<
        Registered,
        ProviderInstallError,
    >)
        ensures
            state == tools_absent(value.model(), self.provider),
    {
        let entries = match value.as_items() {
            Some(entries) => entries,
            None => {
                return Err(ProviderInstallError::Requirement(self.provider));
            },
        };
        if !all_have_names(Registry::Tools, entries) {
            return Err(ProviderInstallError::Requirement(self.provider));
        }
        if own_place(Registry::Tools, entries, 0) < entries.len() {
            return Err(ProviderInstallError::Conflict);
        }
        Ok(Registered::Absent)
    }

    /// How far the tool server is registered, told from its description.
    pub fn inspect_claude_mcp(&self, output: &CliOutput) -> (state: Result<
        Registered,
        ProviderInstallError,
    >)
        ensures
            state == channel_state(*output, self.executable@, self.profile@, self.provider),
    {
        if !output.success {
            let absent = concat("No MCP server found with name: ", CLAUDE_MCP);
            let said = match utf8_text(output.stderr.as_slice()) {
                Some(text) => same_text(trim(text.as_str()).as_str(), absent.as_str()),
                None => false,
            };
            if output.stdout.len() == 0 && said {
                return Ok(Registered::Absent);
            }
            return Err(ProviderInstallError::CommandFailed);
        }
        let text = match utf8_text(output.stdout.as_slice()) {
            Some(text) => text,
            None => {
                return Err(ProviderInstallError::Requirement(self.provider));
            },
        };
        let lines = trim_lines(text.as_str());
        let command = concat("Command: ", self.executable.as_str());
        let role = kebab("claude_channel");
        let head = concat3("--profile ", self.profile.as_str(), " mcp ");
        let args = concat3("Args: ", head.as_str(), role.as_str());
        proof {
            let list = tool_arguments(self.profile@, role@);
            reveal_strlit("--profile ");
            reveal_strlit("--profile");
            reveal_strlit(" ");
            reveal_strlit(" mcp ");
            reveal_strlit("mcp");
            reveal_with_fuel(spaced, 4);
            assert(list.drop_last() =~= seq!["--profile"@, self.profile@, "mcp"@]);
            assert(list.drop_last().drop_last() =~= seq!["--profile"@, self.profile@]);
            assert(list.drop_last().drop_last().drop_last() =~= seq!["--profile"@]);
            assert(spaced(list) =~= "--profile "@ + self.profile@ + " mcp "@ + role@);
            assert(args@ =~= args_line(self.profile@));
            assert(lines@.len() > 0 ==> texts(lines@)[0] == lines@[0]@);
            assert(texts(lines@).len() == lines@.len());
        }
        if lines.len() == 0 || !same_text(lines[0].as_str(), "agent-session-router-channel:")
            || count_lines(&lines, "Scope: User config (available in all your projects)") != 1
            || count_lines(&lines, "Type: stdio") != 1 || count_lines(&lines, command.as_str()) != 1
            || count_lines(&lines, args.as_str()) != 1 {
            return Err(ProviderInstallError::Conflict);
        }
        let removal = concat3(
            "To remove this server, run:",
            respell("_claude_", ' ').as_str(),
            "mcp remove ",
        );
        let mut i: usize = 0;
        while i < lines.len()
            invariant
                i <= lines@.len(),
                texts(lines@) == trimmed_lines(text@),
                command@ == command_line(self.executable@),
                args@ == args_line(self.profile@),
                removal@ == "To remove this server, run:"@ + respelled("_claude_"@, ' ')
                    + "mcp remove "@,
                output.success,
                vstd::utf8::valid_utf8(output.stdout@),
                text@ == vstd::utf8::decode_utf8(output.stdout@),
                forall|j: int|
                    0 <= j < i ==> known_line(
                        #[trigger] texts(lines@)[j],
                        self.executable@,
                        self.profile@,
                    ),
            decreases lines.len() - i,
        {
            let line = lines[i].as_str();
            let known = line.unicode_len() == 0 || same_text(line, "agent-session-router-channel:")
                || same_text(line, "Scope: User config (available in all your projects)")
                || same_text(line, "Type: stdio") || same_text(line, command.as_str()) || same_text(
                line,
                args.as_str(),
            ) || same_text(line, "Environment:") || starts_with(line, "Status:") || starts_with(
                line,
                removal.as_str(),
            );
            assert(known == known_line(texts(lines@)[i as int], self.executable@, self.profile@));
            if !known {
                return Err(ProviderInstallError::Conflict);
            }
            i += 1;
        }
        Ok(Registered::Exact)
    }

    /// What the list of packages says of the one of this program.
    pub fn package_entry(&self, value: &Json) -> (entry: Result<PackageEntry, ProviderInstallError>)
        ensures
            match package_of(value.model(), self.version@, self.provider) {
                Err(error) => entry matches Err(fault) && fault == error,
                Ok(None) => entry matches Ok(entry) && entry is Absent,
                Ok(Some((place, chosen, on))) => entry matches Ok(
                    PackageEntry::Linked { path, features, enabled },
                ) && crate::text::opt_text(path) == place && features == chosen && enabled == on,
            },
    {
        let entries = match value.get("npm") {
            Some(list) => list.as_items(),
            None => None,
        };
        let others = match value.get("marketplace") {
            Some(list) => list.as_items(),
            None => None,
        };
        match (entries, others) {
            (Some(entries), Some(others)) => {
                if !all_have_names(Registry::Packages, entries) {
                    return Err(ProviderInstallError::Requirement(self.provider));
                }
                if is_name_taken(others) {
                    return Err(ProviderInstallError::Conflict);
                }
                match find_own(Registry::Packages, entries) {
                    OwnEntry::Nothing => Ok(PackageEntry::Absent),
                    OwnEntry::Many => Err(ProviderInstallError::Conflict),
                    OwnEntry::One(entry) => {
                        if !entry.says("name", OMP_PACKAGE) || !entry.says(
                            "version",
                            self.version.as_str(),
                        ) {
                            return Err(ProviderInstallError::Conflict);
                        }
                        let enabled = match entry.get("enabled") {
                            Some(enabled) => enabled.as_bool(),
                            None => None,
                        };
                        let path = match entry.text_at("path") {
                            Some(path) => Some(path.to_owned()),
                            None => None,
                        };
                        let features = !is_empty_or_null(entry.get("enabledFeatures"));
                        Ok(PackageEntry::Linked { path, features, enabled })
                    },
                }
            },
            _ => Err(ProviderInstallError::Requirement(self.provider)),
        }
    }
}

/// A tool server that is registered exactly starts this program and nothing else.
pub proof fn exact_tools_start_this_program(
    output: CliOutput,
    executable: Seq<char>,
    profile: Seq<char>,
    provider: OnboardingProvider,
)
    requires
        tools_state(output, executable, profile, provider) == Ok::<
            Option<Registered>,
            ProviderInstallError,
        >(Some(Registered::Exact)),
    ensures
        parsed_json(output.stdout@) is Some,
        ({
            let entry = parsed_json(output.stdout@)->0;
            &&& entry.at("transport"@).text_at("command"@) == Some(executable)
            &&& lists(
                entry.at("transport"@).at("args"@),
                tool_arguments(profile, role_text(Step::CodexMcp)),
            )
        }),
{
}

/// That asking for a registration failed is no proof that there is none: only a list of
/// all, or the very words, tell so.
pub proof fn failure_is_not_absence(
    output: CliOutput,
    executable: Seq<char>,
    profile: Seq<char>,
    provider: OnboardingProvider,
)
    requires
        !output.success,
    ensures
        tools_state(output, executable, profile, provider) == Ok::<
            Option<Registered>,
            ProviderInstallError,
        >(None),
        printed(output, provider) is Err,
        output.stdout@.len() > 0 ==> channel_state(output, executable, profile, provider) is Err,
{
}

} // verus!
