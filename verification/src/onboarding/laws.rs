//! What holds of an installation as a whole: how its parts fit together.

use vstd::prelude::*;

use crate::json::{parsed_json, Json, JsonModel};
use crate::onboarding::providers::{
    CliOutput, PluginFiles, ProviderInstallError, ProviderInstaller, Registered, Step,
};
use crate::onboarding::registry::{
    name_taken, takes_name, times, trimmed_lines, PackageEntry, PluginEntry,
};
use crate::paths::joined;
use crate::text::{kebab_case, texts};

verus! {

/// A JSON list of texts.
pub open spec fn text_list(list: Seq<Seq<char>>) -> JsonModel {
    JsonModel::Array(Seq::new(list.len(), |i: int| JsonModel::Text(list[i])))
}

/// Nothing is told under a key.
pub open spec fn untold(value: JsonModel, key: Seq<char>) -> bool {
    value.get(key) is None || value.get(key) == Some(JsonModel::Null)
}

/// Nothing is told under a key, or a value that holds nothing.
pub open spec fn told_empty(value: JsonModel, key: Seq<char>) -> bool {
    untold(value, key) || value.get(key) == Some(JsonModel::Object(Seq::empty())) || value.get(key)
        == Some(JsonModel::Array(Seq::empty()))
}

/// A tool server of the Codex CLI is taken as registered exactly where it is what the command
/// of the step makes it: the name before the two dashes, and behind them this program's own
/// executable with the profile and the role as its arguments, and nothing else set.
pub proof fn codex_tools_are_checked_as_registered(
    installer: ProviderInstaller,
    argv: Vec<String>,
    output: CliOutput,
    state: Result<Option<Registered>, ProviderInstallError>,
)
    requires
        call_ensures(ProviderInstaller::argv, (&installer, Step::CodexMcp), argv),
        call_ensures(ProviderInstaller::inspect_codex_mcp, (&installer, &output), state),
        output.success,
        parsed_json(output.stdout@) is Some,
    ensures
        ({
            let words = texts(argv@);
            let launched = words.skip(5);
            let entry = parsed_json(output.stdout@)->0;
            let transport = entry.at("transport"@);
            &&& words.take(5) == seq![
                installer.program@,
                "mcp"@,
                "add"@,
                "agent_session_router"@,
                "--"@,
            ]
            &&& launched == seq![
                installer.executable@,
                "--profile"@,
                installer.profile@,
                "mcp"@,
                "codex-cli"@,
            ]
            &&& (state == Ok::<_, ProviderInstallError>(Some(Registered::Exact))) == ({
                &&& entry.text_at("name"@) == Some(words[3])
                &&& entry.get("enabled"@) == Some(JsonModel::Bool(true))
                &&& transport.text_at("type"@) == Some("stdio"@)
                &&& transport.text_at("command"@) == Some(launched[0])
                &&& transport.get("args"@) == Some(text_list(launched.skip(1)))
                &&& told_empty(transport, "env"@) && told_empty(transport, "env_vars"@)
                &&& untold(transport, "cwd"@) && untold(entry, "disabled_reason"@)
                &&& untold(entry, "enabled_tools"@) && untold(entry, "disabled_tools"@)
            })
            &&& state is Ok || state == Err::<Option<Registered>, _>(ProviderInstallError::Conflict)
        }),
{
    let words = texts(argv@);
    let launched = words.skip(5);
    let entry = parsed_json(output.stdout@)->0;
    let transport = entry.at("transport"@);
    assert(words.take(5) =~= seq![
        installer.program@,
        "mcp"@,
        "add"@,
        "agent_session_router"@,
        "--"@,
    ]);
    assert(launched =~= seq![
        installer.executable@,
        "--profile"@,
        installer.profile@,
        "mcp"@,
        "codex-cli"@,
    ]);
    let arguments = launched.skip(1);
    match transport.get("args"@) {
        Some(JsonModel::Array(items)) => {
            if items.len() == arguments.len() && forall|i: int|
                0 <= i < arguments.len() ==> (#[trigger] items[i]).text() == Some(arguments[i]) {
                assert forall|i: int| 0 <= i < items.len() implies #[trigger] items[i]
                    == JsonModel::Text(arguments[i]) by {
                    assert(items[i].text() == Some(arguments[i]));
                }
                assert(items =~= text_list(arguments)->Array_0);
            }
            if JsonModel::Array(items) == text_list(arguments) {
                assert forall|i: int| 0 <= i < arguments.len() implies (#[trigger] items[i]).text()
                    == Some(arguments[i]) by {}
            }
        },
        _ => {},
    }
    assert forall|v: JsonModel, k: Seq<char>| #[trigger]
        crate::onboarding::registry::null_or_absent(v, k) == untold(v, k) by {}
    assert forall|v: JsonModel, k: Seq<char>|
        crate::onboarding::registry::empty_or_null(#[trigger] v.at(k)) == told_empty(v, k) by {
        match v.get(k) {
            Some(JsonModel::Object(members)) => {
                if members.len() == 0 {
                    assert(members =~= Seq::empty());
                }
            },
            Some(JsonModel::Array(items)) => {
                if items.len() == 0 {
                    assert(items =~= Seq::empty());
                }
            },
            _ => {},
        }
    }
}

/// The description of a channel that the command of the step makes is taken as exact: its
/// command and its arguments are the words behind the two dashes, this program's own
/// executable with the profile and the role.
pub proof fn channels_are_checked_as_registered(
    installer: ProviderInstaller,
    argv: Vec<String>,
    output: CliOutput,
    state: Result<Registered, ProviderInstallError>,
)
    requires
        call_ensures(ProviderInstaller::argv, (&installer, Step::ClaudeMcp), argv),
        call_ensures(ProviderInstaller::inspect_claude_mcp, (&installer, &output), state),
        output.success,
        vstd::utf8::valid_utf8(output.stdout@),
    ensures
        ({
            let words = texts(argv@);
            let launched = words.skip(9);
            let role = kebab_case("claude_channel"@);
            let lines = trimmed_lines(vstd::utf8::decode_utf8(output.stdout@));
            let command = "Command: "@ + launched[0];
            let arguments = "Args: "@ + (launched[1] + " "@ + launched[2] + " "@ + launched[3] + " "@
                + launched[4]);
            &&& words.take(9) == seq![
                installer.program@,
                "mcp"@,
                "add"@,
                "--transport"@,
                "stdio"@,
                "--scope"@,
                "user"@,
                "agent-session-router-channel"@,
                "--"@,
            ]
            &&& launched == seq![
                installer.executable@,
                "--profile"@,
                installer.profile@,
                "mcp"@,
                role,
            ]
            &&& state == Ok::<_, ProviderInstallError>(Registered::Exact) ==> times(lines, command)
                == 1 && times(lines, arguments) == 1 && lines[0] == words[7] + ":"@
            &&& lines == seq![
                words[7] + ":"@,
                "Scope: User config (available in all your projects)"@,
                "Type: stdio"@,
                command,
                arguments,
            ] ==> state == Ok::<_, ProviderInstallError>(Registered::Exact)
        }),
{
    let words = texts(argv@);
    let launched = words.skip(9);
    let role = kebab_case("claude_channel"@);
    assert(words.take(9) =~= seq![
        installer.program@,
        "mcp"@,
        "add"@,
        "--transport"@,
        "stdio"@,
        "--scope"@,
        "user"@,
        "agent-session-router-channel"@,
        "--"@,
    ]);
    assert(launched =~= seq![
        installer.executable@,
        "--profile"@,
        installer.profile@,
        "mcp"@,
        role,
    ]);
    let lines = trimmed_lines(vstd::utf8::decode_utf8(output.stdout@));
    let command = "Command: "@ + launched[0];
    let arguments = "Args: "@ + (launched[1] + " "@ + launched[2] + " "@ + launched[3] + " "@
        + launched[4]);
    let list = launched.skip(1);
    assert(crate::onboarding::registry::spaced(list) == launched[1] + " "@ + launched[2] + " "@
        + launched[3] + " "@ + launched[4]) by {
        reveal_with_fuel(crate::onboarding::registry::spaced, 5);
        assert(list.drop_last().last() == launched[3]);
        assert(list.drop_last().drop_last().last() == launched[2]);
        assert(list.drop_last().drop_last().drop_last()[0] == launched[1]);
    }
    assert(list =~= crate::onboarding::providers::tool_arguments(installer.profile@, role));
    let header = words[7] + ":"@;
    assert(header =~= "agent-session-router-channel:"@) by {
        reveal_strlit("agent-session-router-channel");
        reveal_strlit(":");
        reveal_strlit("agent-session-router-channel:");
    }
    let scope = "Scope: User config (available in all your projects)"@;
    let kind = "Type: stdio"@;
    if lines == seq![header, scope, kind, command, arguments] {
        reveal_strlit("agent-session-router-channel:");
        reveal_strlit("Scope: User config (available in all your projects)");
        reveal_strlit("Type: stdio");
        reveal_strlit("Command: ");
        reveal_strlit("Args: ");
        assert(header[0] == 'a' && scope[0] == 'S' && kind[0] == 'T' && command[0] == 'C'
            && arguments[0] == 'A');
        reveal_with_fuel(times, 6);
        let four = lines.drop_last();
        let three = four.drop_last();
        let two = three.drop_last();
        let one = two.drop_last();
        assert(four.last() == command && three.last() == kind && two.last() == scope && one.last()
            == header);
        assert(one.drop_last().len() == 0);
    }
}

/// The marketplace is checked to lie where the command of the step says that it lies.
pub proof fn marketplaces_are_checked_where_they_are_added(
    installer: ProviderInstaller,
    argv: Vec<String>,
    value: Json,
    entry: JsonModel,
    state: Result<Registered, ProviderInstallError>,
)
    requires
        call_ensures(ProviderInstaller::argv, (&installer, Step::ClaudeMarketplace), argv),
        call_ensures(ProviderInstaller::inspect_marketplace, (&installer, &value), state),
        value.model() == JsonModel::Array(seq![entry]),
        entry.text_at("name"@) == Some("asr-local"@),
    ensures
        ({
            let words = texts(argv@);
            &&& words == seq![
                installer.program@,
                "plugin"@,
                "marketplace"@,
                "add"@,
                joined(installer.integrations_dir@, kebab_case("claude_plugin"@)),
                "--scope"@,
                "user"@,
            ]
            &&& (state == Ok::<_, ProviderInstallError>(Registered::Exact)) == (entry.text_at(
                "source"@,
            ) == Some("directory"@) && entry.text_at("path"@) == Some(words[4]) && entry.text_at(
                "installLocation"@,
            ) == Some(words[4]))
            &&& state is Ok || state == Err::<Registered, _>(ProviderInstallError::Conflict)
        }),
{
    let words = texts(argv@);
    assert(words =~= seq![
        installer.program@,
        "plugin"@,
        "marketplace"@,
        "add"@,
        joined(installer.integrations_dir@, kebab_case("claude_plugin"@)),
        "--scope"@,
        "user"@,
    ]);
    let entries = value.model()->Array_0;
    assert(entries[0] == entry);
    reveal_with_fuel(crate::onboarding::registry::own_from, 3);
}

/// Where a registry lists nothing of this program, nothing is registered; where it lists two
/// things of this program, that is a conflict, and none of them is taken.
pub proof fn registries_are_read_alike(
    installer: ProviderInstaller,
    value: Json,
    marketplace: Result<Registered, ProviderInstallError>,
    plugin: Result<PluginEntry, ProviderInstallError>,
    tools: Result<Registered, ProviderInstallError>,
    current: Option<&str>,
)
    requires
        call_ensures(ProviderInstaller::inspect_marketplace, (&installer, &value), marketplace),
        call_ensures(ProviderInstaller::plugin_entry, (&installer, &value, current), plugin),
        call_ensures(ProviderInstaller::inspect_codex_list, (&installer, &value), tools),
    ensures
        value.model() == JsonModel::Array(Seq::empty()) ==> marketplace == Ok::<
            _,
            ProviderInstallError,
        >(Registered::Absent) && tools == Ok::<_, ProviderInstallError>(Registered::Absent) && (
        plugin matches Ok(entry) && entry is Absent),
        !(value.model() is Array) ==> marketplace is Err && plugin is Err && tools is Err,
        value.model() matches JsonModel::Array(entries) ==> (entries.len() == 1
            && entries[0].text_at("name"@) == Some("agent_session_router"@) ==> tools == Err::<
            Registered,
            _,
        >(ProviderInstallError::Conflict)),
{
    match value.model() {
        JsonModel::Array(entries) => {
            reveal_with_fuel(crate::onboarding::registry::own_from, 3);
        },
        _ => {},
    }
}

/// An installed plugin is compared file by file with the one that the marketplace of the
/// distribution offers, and is to bring no tools of its own.
pub proof fn plugins_are_compared_with_the_distribution(
    installer: ProviderInstaller,
    installed: &str,
    files: PluginFiles,
)
    requires
        call_ensures(ProviderInstaller::plugin_files, (&installer, installed), files),
    ensures
        ({
            let source = joined(
                installer.integrations_dir@,
                kebab_case("claude_plugin/plugins/asr"@),
            );
            let manifest = kebab_case(".claude_plugin/plugin.json"@);
            &&& files.manifest@ == joined(source, manifest)
            &&& files.installed_manifest@ == joined(installed@, manifest)
            &&& files.skill@ == joined(source, "skills/workspace/SKILL.md"@)
            &&& files.installed_skill@ == joined(installed@, "skills/workspace/SKILL.md"@)
            &&& files.tools@ == joined(installed@, ".mcp.json"@)
        }),
{
}

/// The entry at a place is the one that was found: it has the name and the version.
pub open spec fn is_enabled_entry(
    value: JsonModel,
    k: int,
    name: Seq<char>,
    version: Seq<char>,
    found: PackageEntry,
) -> bool {
    let entries = value.at("npm"@).items()->0;
    &&& 0 <= k < entries.len()
    &&& entries[k].text_at("name"@) == Some(name)
    &&& entries[k].text_at("version"@) == Some(version)
    &&& crate::text::opt_text(found->path) == entries[k].text_at("path"@)
    &&& found->enabled == entries[k].at("enabled"@).boolean()
}

proof fn own_entries_are_in_range(
    registry: crate::onboarding::registry::Registry,
    entries: Seq<JsonModel>,
    from: int,
)
    requires
        0 <= from <= entries.len(),
    ensures
        from <= crate::onboarding::registry::own_from(registry, entries, from) <= entries.len(),
    decreases entries.len() - from,
{
    if from < entries.len() {
        own_entries_are_in_range(registry, entries, from + 1);
    }
}

/// What is linked is the package of the distribution, and what is enabled is the package that
/// the registry is asked for.
pub proof fn packages_are_linked_and_enabled(
    installer: ProviderInstaller,
    link: Vec<String>,
    enable: Vec<String>,
    plugin: Vec<String>,
    source: String,
    value: Json,
    listed: Result<PackageEntry, ProviderInstallError>,
)
    requires
        call_ensures(ProviderInstaller::argv, (&installer, Step::OmpLink), link),
        call_ensures(ProviderInstaller::argv, (&installer, Step::OmpEnable), enable),
        call_ensures(ProviderInstaller::argv, (&installer, Step::ClaudePlugin), plugin),
        call_ensures(ProviderInstaller::package_source, (&installer,), source),
        call_ensures(ProviderInstaller::package_entry, (&installer, &value), listed),
    ensures
        texts(link@) == seq![
            installer.program@,
            "plugin"@,
            "link"@,
            source@,
            "--scope"@,
            "user"@,
        ],
        source@ == joined(installer.integrations_dir@, "omp"@),
        texts(enable@) == seq![
            installer.program@,
            "plugin"@,
            "enable"@,
            "@agent-session-router/omp-integration"@,
            "--scope"@,
            "user"@,
        ],
        texts(plugin@) == seq![
            installer.program@,
            "plugin"@,
            "install"@,
            "asr@asr-local"@,
            "--scope"@,
            "user"@,
        ],
        listed is Ok && listed->Ok_0 is Linked ==> exists|k: int|
            is_enabled_entry(value.model(), k, texts(enable@)[3], installer.version@, listed->Ok_0),
{
    assert(texts(link@) =~= seq![
        installer.program@,
        "plugin"@,
        "link"@,
        source@,
        "--scope"@,
        "user"@,
    ]);
    assert(texts(enable@) =~= seq![
        installer.program@,
        "plugin"@,
        "enable"@,
        "@agent-session-router/omp-integration"@,
        "--scope"@,
        "user"@,
    ]);
    assert(texts(plugin@) =~= seq![
        installer.program@,
        "plugin"@,
        "install"@,
        "asr@asr-local"@,
        "--scope"@,
        "user"@,
    ]);
    if listed is Ok && listed->Ok_0 is Linked {
        let entries = value.model().at("npm"@).items()->0;
        let registry = crate::onboarding::registry::Registry::Packages;
        own_entries_are_in_range(registry, entries, 0);
        let k = crate::onboarding::registry::own_from(registry, entries, 0);
        assert(is_enabled_entry(
            value.model(),
            k,
            texts(enable@)[3],
            installer.version@,
            listed->Ok_0,
        ));
    }
}

/// Nothing is linked where no package is listed and no plugin of a marketplace takes a name of
/// this program; where one does, that is a conflict.
pub proof fn taken_names_are_in_conflict(
    installer: ProviderInstaller,
    value: Json,
    listed: Result<PackageEntry, ProviderInstallError>,
    i: int,
)
    requires
        call_ensures(ProviderInstaller::package_entry, (&installer, &value), listed),
        value.model().at("npm"@).items() == Some(Seq::<JsonModel>::empty()),
        value.model().at("marketplace"@).items() is Some,
    ensures
        value.model().at("marketplace"@).items()->0.len() == 0 ==> listed is Ok && listed->Ok_0
            is Absent,
        0 <= i < value.model().at("marketplace"@).items()->0.len() && (
        value.model().at("marketplace"@).items()->0[i].text_at("name"@) == Some("asr"@)
            || value.model().at("marketplace"@).items()->0[i].text_at("id"@) == Some("asr"@))
            ==> listed is Err && listed->Err_0 is Conflict,
{
    let others = value.model().at("marketplace"@).items()->0;
    if 0 <= i < others.len() {
        assert(takes_name(others[i], "name"@) || takes_name(others[i], "id"@) ==> name_taken(others));
    }
}

} // verus!
