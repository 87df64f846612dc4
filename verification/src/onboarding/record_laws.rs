//! What holds of what is recorded of an installation: what was planned, what may be gone on with,
//! and what is verified of it afterwards.

use vstd::prelude::*;

use crate::digest::digest_text;
use crate::ids::{hyphenated_text, parsed_uuid, simple_text, Uuid};
use crate::json::{parsed_json, Json};
use crate::net::{HostModel, Ipv4, UrlParts};
use crate::onboarding::bundle::{receipt_from, receipt_place, writes};
use crate::onboarding::host::{
    absolute_path, check_destination, check_read, omp_config_roots, program_path, steady_digest, temporary_file, EnvValue,
    FileFacts, FileStamp, OmpEnvironment, OmpRoots,
};
use crate::onboarding::install::{
    binding_from, bound_invite, ca_directory, stored_routes, CaRead, InstallError,
    OnboardingProfile, ProfileBinding, StoredRoute,
};
use crate::onboarding::journal::{
    is_temporary_name, journal_directories, validate_private_metadata, ActionRecord, ActionStatus,
    InstallAction, JournalError, JournalState, OpenFacts,
};
use crate::onboarding::prompt::{render_prompt, InfoAddress};
use crate::onboarding::providers::{
    file_install, journal_error, FileInstall, FileRead, Ownership, ProviderInstallError,
    ProviderInstaller, RecordedFile, Registered, Step,
};
use crate::onboarding::registry::{inspect_package, PluginReads};
use crate::onboarding::routes::{validate_owned_tailnet, RouteError};
use crate::onboarding::setup::{
    action_for_file, action_status, command_texts, ownership_file, planned_status, record_of_file,
    verify_recorded, FileHash, LinkPlace, PathReads, RecordedReads,
};
use crate::onboarding::{
    profile_candidate, valid_sha256, OnboardingProvider, OnboardingRoute, OnboardingTicket,
    TicketError, TicketVerdicts,
};
use crate::paths::{absolute, goes_up, joined, parent_of, path_names, same_path};
use crate::process::{RuntimeRecord, TailscaleSnapshot};
use crate::protocol::{AgentClient, AgentSide};
use crate::text::{byte_length, no_control, opt_text, texts};

verus! {

/// How far an action is: as far as the first record of it says, and nowhere without one.
pub proof fn actions_are_as_far_as_recorded(
    actions: Vec<ActionRecord>,
    action: InstallAction,
    path: &str,
    status: Option<ActionStatus>,
    found: Option<(&str, ActionStatus)>,
    i: int,
)
    requires
        call_ensures(action_status, (&actions, &action), status),
        call_ensures(action_for_file, (&actions, path), found),
        0 <= i < actions@.len(),
        actions@[i].intent matches InstallAction::File { path: own, sha256 } && same_path(
            own@,
            path@,
        ),
        forall|j: int|
            0 <= j < i ==> !((#[trigger] actions@[j]).intent matches InstallAction::File {
                path: own,
                sha256,
            } && same_path(own@, path@)),
    ensures
        found matches Some((digest, own)) && digest@ == actions@[i].intent->sha256@ && own
            == actions@[i].status,
{
    the_record_is_found(actions@, path@, i);
}

proof fn the_record_is_found(actions: Seq<ActionRecord>, path: Seq<char>, i: int)
    requires
        0 <= i < actions.len(),
        actions[i].intent matches InstallAction::File { path: own, sha256 } && same_path(own@, path),
        forall|j: int|
            0 <= j < i ==> !((#[trigger] actions[j]).intent matches InstallAction::File {
                path: own,
                sha256,
            } && same_path(own@, path)),
    ensures
        crate::onboarding::setup::record_of_file(actions, path) == Some(
            (actions[i].intent->sha256@, actions[i].status),
        ),
    decreases i,
{
    if i > 0 {
        let rest = actions.drop_first();
        assert(!(actions[0].intent matches InstallAction::File { path: own, sha256 } && same_path(
            own@,
            path,
        )));
        assert forall|j: int| 0 <= j < i - 1 implies !((
        #[trigger] rest[j]).intent matches InstallAction::File { path: own, sha256 } && same_path(
            own@,
            path,
        )) by {
            assert(rest[j] == actions[j + 1]);
        }
        assert(rest[i - 1] == actions[i]);
        the_record_is_found(rest, path, i - 1);
    }
}

/// An action that is recorded first is as far as its record says, and nothing recorded is
/// nowhere.
pub proof fn recorded_actions_are_found(
    actions: Vec<ActionRecord>,
    action: InstallAction,
    status: Option<ActionStatus>,
    same: bool,
)
    requires
        call_ensures(action_status, (&actions, &action), status),
        actions@.len() > 0 ==> call_ensures(
            InstallAction::equals,
            (&actions@[0].intent, &action),
            same,
        ),
    ensures
        actions@.len() == 0 ==> status is None,
        actions@.len() > 0 && same ==> status == Some(actions@[0].status),
        actions@.len() == 1 && !same ==> status is None,
{
    reveal_with_fuel(crate::onboarding::setup::status_of, 2);
}

/// Where the plugin host links a package there may be nothing, or the link of this program's own.
pub proof fn links_are_this_programs_own(
    installer: ProviderInstaller,
    actions: Vec<ActionRecord>,
    place: LinkPlace,
    uid: u32,
    linked: Result<bool, ProviderInstallError>,
)
    requires
        call_ensures(
            ProviderInstaller::check_omp_link_destination,
            (&installer, &actions, &place, uid),
            linked,
        ),
    ensures
        installer.omp_link_destination is None ==> linked == Ok::<_, ProviderInstallError>(false),
        installer.omp_link_destination is Some && place is Absent ==> linked == Ok::<
            _,
            ProviderInstallError,
        >(false),
        installer.omp_link_destination is Some && (place matches LinkPlace::Failed(error))
            ==> linked == Err::<bool, _>(place->Failed_0),
        installer.omp_link_destination is Some && actions@.len() == 0 && place is Present
            ==> linked == Err::<bool, _>(ProviderInstallError::Conflict),
        installer.omp_link_destination is Some && (place matches LinkPlace::Present {
            link,
            uid: owner,
            links,
            target,
            unchanged,
        } && (!link || owner != uid || links != 1 || !unchanged || opt_text(target) != Some(
            joined(installer.integrations_dir@, "omp"@),
        ))) ==> linked == Err::<bool, _>(ProviderInstallError::Conflict),
        linked == Ok::<_, ProviderInstallError>(true) ==> place is Present,
        installer.omp_link_destination is Some && actions@.len() == 1
            && crate::onboarding::providers::step_intent(
            installer,
            Step::OmpLink,
            actions@[0].intent,
        ) && (place matches LinkPlace::Present { link, uid: owner, links, target, unchanged } && link
            && owner == uid && links == 1 && unchanged && opt_text(target) == Some(
            joined(installer.integrations_dir@, "omp"@),
        )) ==> linked == Ok::<_, ProviderInstallError>(true),
{
    reveal_with_fuel(crate::onboarding::setup::step_status, 2);
}

/// What the paths of a set-up must be like: the home and the configuration are there, the
/// program is the very one, the provider can change its files, and nothing of another's is in
/// the way.
pub proof fn paths_are_as_they_must_be(
    installer: ProviderInstaller,
    actions: Vec<ActionRecord>,
    reads: PathReads,
    checked: Result<(), ProviderInstallError>,
)
    requires
        call_ensures(ProviderInstaller::check_paths, (&installer, &actions, &reads), checked),
    ensures
        reads.home == Ok::<_, ProviderInstallError>(false) ==> checked == Err::<(), _>(
            ProviderInstallError::Permission,
        ),
        (reads.home matches Err(error)) ==> checked == Err::<(), _>(reads.home->Err_0),
        reads.home == Ok::<_, ProviderInstallError>(true) && reads.root == Ok::<
            _,
            ProviderInstallError,
        >(false) ==> checked == Err::<(), _>(ProviderInstallError::Permission),
        checked is Ok ==> reads.home == Ok::<_, ProviderInstallError>(true) && reads.root == Ok::<
            _,
            ProviderInstallError,
        >(true) && reads.link is Ok && reads.manifest_place is Ok && reads.manifest is Ok,
        checked is Ok && reads.manifest == Ok::<_, ProviderInstallError>(false) ==> !(record_of_file(
            actions@,
            ownership_file(installer.private_root@, installer.provider),
        ) matches Some((_, status)) && status is Applied),
        checked is Ok ==> (reads.executable matches FileHash::Hash(digest) && digest@
            == installer.executable_sha256@),
        checked is Ok && installer.provider is ClaudeCode && actions@.len() == 0 ==> reads.cache
            == Ok::<_, ProviderInstallError>(false),
        checked is Ok && reads.manifest == Ok::<_, ProviderInstallError>(true) ==> reads.recorded
            is Ok,
        checked is Ok && installer.files@.len() > 0 && reads.places@.len() > 0 ==> reads.places@[0]
            is Ok,
        reads.home == Ok::<_, ProviderInstallError>(true) && reads.root == Ok::<
            _,
            ProviderInstallError,
        >(true) && (reads.executable matches FileHash::Hash(digest) && digest@
            == installer.executable_sha256@) && reads.destinations@.len() == 0 && reads.link is Ok
            && !(installer.provider is ClaudeCode) && installer.files@.len() == 0
            && reads.manifest_place is Ok && reads.manifest == Ok::<_, ProviderInstallError>(true)
            && reads.recorded is Ok ==> checked is Ok,
        reads.home == Ok::<_, ProviderInstallError>(true) && reads.root == Ok::<
            _,
            ProviderInstallError,
        >(true) && (reads.executable matches FileHash::Hash(digest) && digest@
            == installer.executable_sha256@) && reads.destinations@.len() > 0
            && reads.destinations@[0] is Err ==> checked == Err::<(), _>(
            reads.destinations@[0]->Err_0,
        ),
{
    reveal_with_fuel(crate::onboarding::setup::step_status, 2);
    reveal_with_fuel(crate::onboarding::setup::first_fault, 2);
    reveal_with_fuel(crate::onboarding::setup::files_fault, 2);
}

/// What was installed is verified by its record: the record is the one that was written, of this
/// journal, and the program is still the very one.
pub proof fn installations_are_verified_by_their_record(
    root: &str,
    state: JournalState,
    reads: RecordedReads,
    checked: Result<(), ProviderInstallError>,
)
    requires
        call_ensures(verify_recorded, (root, &state, &reads), checked),
    ensures
        (reads.bytes matches FileRead::Failed(error)) ==> checked == Err::<(), _>(
            reads.bytes->Failed_0,
        ),
        reads.bytes is Absent || (reads.bytes is Found && reads.ownership is None) ==> checked
            == Err::<(), _>(ProviderInstallError::Conflict),
        checked is Ok ==> reads.bytes is Found && reads.ownership is Some,
        checked is Ok ==> ({
            let own = reads.ownership->0;
            &&& own.version == 1 && own.invite_id == state.invite_id && own.enrollment_id
                == state.enrollment_id && own.provider == state.provider && own.server_id
                == state.server_id
            &&& own.profile@ == state.profile_name@ && own.workspace@ == state.workspace@
            &&& own.manifest_sha256@ == state.manifest_sha256@ && same_path(
                own.executable@,
                state.executable@,
            )
            &&& reads.executable matches FileHash::Hash(digest) && digest@
                == own.executable_sha256@
            &&& state.provider is CodexCli ==> own.files@.len() == 1 && own.commands@.len() == 1
            &&& state.provider is ClaudeCode ==> own.files@.len() == 0 && own.commands@.len() == 3
            &&& state.provider is Omp ==> own.files@.len() == 1 && 1 <= own.commands@.len() <= 2
            &&& state.actions@.len() > 0
        }),
        checked is Ok && reads.ownership->0.files@.len() > 0 ==> reads.files@.len() > 0 && (
        reads.files@[0] matches FileHash::Hash(digest) && digest@
            == reads.ownership->0.files@[0].sha256@),
        checked is Ok && reads.ownership->0.files@.len() > 0 ==> planned_status(
            state.actions@,
            reads.ownership->0.files@[0],
        ) == Some(ActionStatus::Applied),
{
    reveal_with_fuel(crate::onboarding::setup::owned_files_fault, 2);
    reveal_with_fuel(crate::onboarding::setup::status_of, 2);
    reveal_with_fuel(crate::onboarding::setup::file_status, 2);
}

/// Where the plugin host keeps its configuration: below the home, by the name that is said or
/// its own, and below that of its profile.
pub proof fn plugin_hosts_keep_their_configuration(
    home: &str,
    env: OmpEnvironment,
    current: Option<&str>,
    roots: Result<OmpRoots, ProviderInstallError>,
)
    requires
        call_ensures(omp_config_roots, (home, &env, current), roots),
        absolute(home@),
        !goes_up(joined(home@, ".omp"@)),
        absolute(joined(home@, ".omp"@)),
        crate::text::no_control(joined(home@, ".omp"@)),
        joined(home@, ".omp"@).len() > 0,
    ensures
        env.config_dir is Opaque ==> roots == Err::<OmpRoots, _>(ProviderInstallError::Permission),
        (env.config_dir matches EnvValue::Text(name) && absolute(name@)) ==> roots == Err::<
            OmpRoots,
            _,
        >(ProviderInstallError::Permission),
        env.config_dir is Unset && env.omp_profile is Unset && env.pi_profile is Unset
            && env.data_home is Unset ==> (roots matches Ok(own) && own.root@ == joined(
            home@,
            ".omp"@,
        ) && own.data is None),
        env.config_dir is Unset && (env.omp_profile matches EnvValue::Text(name) && name@ == ".."@)
            ==> roots == Err::<OmpRoots, _>(ProviderInstallError::Permission),
        (env.config_dir is Unset && (env.omp_profile matches EnvValue::Text(name) && name@
            == "work"@) && env.data_home is Unset) ==> (roots matches Ok(own) && own.root@
            == joined(joined(joined(home@, ".omp"@), "profiles"@), "work"@)),
        (env.config_dir is Unset && (env.omp_profile matches EnvValue::Text(name) && name@
            == "default"@) && env.data_home is Unset) ==> (roots matches Ok(own) && own.root@
            == joined(home@, ".omp"@)),
{
    reveal_strlit("..");
    reveal_strlit(".");
    reveal_strlit("default");
    reveal_strlit("work");
    reveal_strlit(".omp");
    reveal_strlit("/");
    assert("/"@.len() == 1 && "work"@.len() == 4 && "default"@.len() == 7 && "."@.len() == 1);
    assert(!absolute(".omp"@)) by {
        assert(".omp"@[0] != "/"@[0]);
        assert(".omp"@.subrange(0, 1)[0] == ".omp"@[0]);
    }
}

/// Which files can be changed and read: those that the user may write, of at most a mebibyte,
/// that do not change while they are read.
pub proof fn files_are_read_while_they_are_steady(
    facts: Option<&FileFacts>,
    accessible: bool,
    checked: Result<(), ProviderInstallError>,
    bytes: Vec<u8>,
    read: Result<Vec<u8>, ProviderInstallError>,
    before: FileStamp,
    later: FileStamp,
    digest: Result<String, ProviderInstallError>,
    slice: &[u8],
    id: Uuid,
    name: String,
)
    requires
        call_ensures(check_destination, (facts, accessible), checked),
        call_ensures(check_read, (bytes,), read),
        call_ensures(steady_digest, (&before, &later, slice), digest),
        call_ensures(temporary_file, (id,), name),
    ensures
        facts is None ==> checked is Ok,
        facts is Some ==> (checked is Ok <==> facts->0.mode & 0o200 != 0 && accessible),
        checked is Err ==> checked->Err_0 is Permission,
        read is Ok <==> bytes@.len() <= 1_048_576,
        read is Ok ==> read->Ok_0 == bytes,
        read is Err ==> read->Err_0 is Conflict,
        digest is Ok <==> before == later,
        digest is Ok ==> digest->Ok_0@ == digest_text(slice@),
        digest is Err ==> digest->Err_0 is Conflict,
        name@ == ".onboarding-"@ + hyphenated_text(id.value) + ".tmp"@,
{
}

/// The invitation that a profile is bound to is named by the place of its credential, two
/// directories above it.
pub proof fn profiles_name_their_invitation(
    profile: OnboardingProfile,
    provider: OnboardingProvider,
    id: Result<Uuid, InstallError>,
    none: Result<Uuid, InstallError>,
    path: &str,
    directory: Result<String, InstallError>,
)
    requires
        call_ensures(bound_invite, (Some(&profile), provider), id),
        call_ensures(bound_invite, (None, provider), none),
        call_ensures(ca_directory, (path,), directory),
    ensures
        none == Err::<Uuid, _>(InstallError::NotConfigured),
        profile.bindings@.len() == 0 ==> id == Err::<Uuid, _>(InstallError::NotConfigured),
        profile.bindings@.len() == 1 && profile.bindings@[0].provider != provider ==> id == Err::<
            Uuid,
            _,
        >(InstallError::NotConfigured),
        profile.bindings@.len() >= 1 && profile.bindings@[0].provider == provider ==> ({
            let names = path_names(profile.bindings@[0].credential_file@);
            &&& names.len() < 3 ==> id == Err::<Uuid, _>(InstallError::InvalidConfiguration)
            &&& names.len() >= 3 && parsed_uuid(names[names.len() - 3]) is None ==> id == Err::<
                Uuid,
                _,
            >(InstallError::InvalidConfiguration)
            &&& names.len() >= 3 && parsed_uuid(names[names.len() - 3]) is Some ==> id is Ok
                && Some(id->Ok_0.value) == parsed_uuid(names[names.len() - 3])
        }),
        parent_of(path@) matches Some(above) ==> directory is Ok && directory->Ok_0@ == joined(
            above,
            "onboarding/ca"@,
        ),
        parent_of(path@) is None ==> directory is Err && directory->Err_0 is InvalidConfiguration,
{
    reveal_with_fuel(crate::onboarding::install::binding_from, 2);
}

/// The routes of a profile are those stored, in their order, with their certificates.
pub proof fn stored_routes_are_read_back(
    routes: Vec<StoredRoute>,
    reads: Vec<CaRead>,
    list: Option<Vec<OnboardingRoute>>,
    i: int,
)
    requires
        reads@.len() == routes@.len(),
        call_ensures(stored_routes, (&routes, &reads), list),
        0 <= i < routes@.len(),
    ensures
        list matches Some(own) ==> own@.len() == routes@.len() && own@[i].kind == routes@[i].kind
            && own@[i].router_url@ == routes@[i].router_url@,
        list matches Some(own) ==> (reads@[i] is Nothing ==> own@[i].ca_pem is None),
        list is Some ==> (reads@[i] matches CaRead::Bytes(bytes) ==> list->0@[i].ca_pem is Some
            && list->0@[i].ca_pem->0@ == vstd::utf8::decode_utf8(bytes@)),
        list is Some ==> !(reads@[i] is Failed),
        list is Some ==> (reads@[i] matches CaRead::Bytes(bytes) ==> vstd::utf8::valid_utf8(bytes@)),
        (forall|j: int|
            0 <= j < reads@.len() ==> ((#[trigger] reads@[j]) is Nothing || (
            reads@[j] matches CaRead::Bytes(bytes) && vstd::utf8::valid_utf8(bytes@)))) ==> list
            is Some,
{
    if list is Some {
        assert(crate::onboarding::install::route_of(list->0@[i], routes@[i], reads@[i]));
    }
}

/// A URL on the tailnet is advertised where it leads to this router: at an address of this
/// machine, at the port that the router owns, which is forwarded to the router.
pub proof fn tailnet_routes_lead_to_the_router(
    runtime: RuntimeRecord,
    url: UrlParts,
    snapshot: TailscaleSnapshot,
    verdict: Result<(), RouteError>,
)
    requires
        call_ensures(validate_owned_tailnet, (&runtime, &url, &snapshot), verdict),
    ensures
        verdict is Ok ==> runtime.share_mode is Tailscale && runtime.owned_serve is Some && url.port
            == Some(runtime.owned_serve->0.port),
        verdict is Ok ==> (url.model().host matches Some(HostModel::Ipv4(ip))
            && snapshot.self_ipv4@.contains(ip)),
        verdict is Ok ==> snapshot.tcp_forwards@.dom().contains(runtime.owned_serve->0.port)
            && snapshot.tcp_forwards@[runtime.owned_serve->0.port]@ == runtime.owned_serve->0.target@,
        verdict is Ok ==> (crate::net::parsed_url(runtime.control_url@) matches Some(control)
            && control.scheme == "ws"@ && control.host == Some(
            HostModel::Ipv4(Ipv4 { a: 127, b: 0, c: 0, d: 1 }),
        ) && control.port == Some(runtime.owned_serve->0.port)),
        runtime.owned_serve is None || !(runtime.share_mode is Tailscale) ==> verdict is Err,
{
}

/// Where a journal lies, step by step, and by which name a credential is written first.
pub proof fn journals_lie_below_the_configuration(
    parent: &str,
    invite_id: Uuid,
    provider: OnboardingProvider,
    paths: Result<Vec<String>, JournalError>,
    facts: OpenFacts,
    uid: u32,
    checked: Result<(), JournalError>,
    name: &str,
    temporary: bool,
)
    requires
        call_ensures(journal_directories, (parent, invite_id, provider), paths),
        call_ensures(validate_private_metadata, (&facts, uid), checked),
        call_ensures(is_temporary_name, (name,), temporary),
    ensures
        paths is Ok <==> invite_id.value != 0,
        paths is Err ==> paths->Err_0 is Invalid,
        paths matches Ok(own) ==> texts(own@).len() == 4 && texts(own@)[0] == parent@ && texts(
            own@,
        )[1] == joined(parent@, "onboarding"@) && texts(own@)[2] == joined(
            texts(own@)[1],
            hyphenated_text(invite_id.value),
        ) && texts(own@)[3] == joined(
            texts(own@)[2],
            crate::onboarding::provider_text(provider),
        ),
        checked is Ok <==> facts.is_file && facts.uid == uid && facts.mode & 0o777 == 0o600,
        checked is Err ==> checked->Err_0 is Permissions,
        temporary ==> name@.len() == 12 + 36 + 4,
{
    if temporary {
        let id = choose|id: u128|
            name@ == #[trigger] crate::onboarding::journal::temporary_name(id)
                && crate::ids::version_of(id) == 4;
        crate::ids::hyphenated_text_is_plain(id);
        reveal_strlit(".credential-");
        reveal_strlit(".tmp");
    }
}

/// What a provider's sessions register as, and which profile an invitation proposes.
pub proof fn providers_register_as_themselves(
    provider: OnboardingProvider,
    identity: (AgentSide, AgentClient),
    explicit: Option<&str>,
    server_id: Uuid,
    name: String,
    value: &str,
    digest: bool,
)
    requires
        call_ensures(OnboardingProvider::identity, (provider,), identity),
        call_ensures(profile_candidate, (explicit, server_id), name),
        call_ensures(valid_sha256, (value,), digest),
    ensures
        provider is ClaudeCode ==> identity == (AgentSide::Claude, AgentClient::ClaudeCode),
        provider is CodexCli ==> identity == (AgentSide::Codex, AgentClient::CodexCli),
        provider is Omp ==> identity == (AgentSide::Generic, AgentClient::Omp),
        explicit is Some ==> name@ == explicit->0@,
        explicit is None ==> name@ == "asr-"@ + simple_text(server_id.value).subrange(0, 8),
        digest ==> value@.len() == 64,
        value@.len() == 64 && (forall|i: int|
            0 <= i < value@.len() ==> ('0' <= #[trigger] value@[i] <= '9') || ('a' <= value@[i]
                <= 'f')) <==> digest,
{
    if digest {
        assert forall|i: int| 0 <= i < value@.len() implies ('0' <= #[trigger] value@[i] <= '9') || (
        'a' <= value@[i] <= 'f') by {}
    }
}

/// A prompt is written of a ticket that is good and short, whose routes all lead to routers; it
/// tells the server, the profile and the workspace, and warns where it is for this machine alone.
pub proof fn prompts_tell_their_ticket(
    ticket: OnboardingTicket,
    verdicts: TicketVerdicts,
    json: &str,
    urls: Vec<InfoAddress>,
    template: &str,
    prompt: Result<String, TicketError>,
    verdict: Result<(), TicketError>,
)
    requires
        call_ensures(render_prompt, (&ticket, verdicts, json, &urls, template), prompt),
        call_ensures(OnboardingTicket::validate, (&ticket, verdicts), verdict),
    ensures
        verdict is Err ==> prompt is Err && prompt->Err_0 == verdict->Err_0,
        verdict is Ok && byte_length(json@) > 131_072 ==> prompt == Err::<String, _>(
            TicketError::Invalid,
        ),
        verdict is Ok && byte_length(json@) <= 131_072 && urls@.len() == 0 && ticket.routes@.len() > 0
            ==> prompt == Err::<String, _>(TicketError::InvalidRoute),
        prompt is Ok ==> ("# ASR workspace onboarding\n\n"@ + "Server: `"@ + hyphenated_text(
            ticket.server_id.value,
        ) + "`\nProfile: `"@ + ticket.profile_name@ + "`\nWorkspace: `"@ + ticket.workspace@
            + "`\n\n"@).is_prefix_of(prompt->Ok_0@),
{
    if prompt is Ok {
        let head = "# ASR workspace onboarding\n\n"@ + "Server: `"@ + hyphenated_text(
            ticket.server_id.value,
        ) + "`\nProfile: `"@ + ticket.profile_name@ + "`\nWorkspace: `"@ + ticket.workspace@
            + "`\n\n"@;
        assert(prompt->Ok_0@.subrange(0, head.len() as int) =~= head);
    }
}

/// What was installed is recorded with what the journal says of the invitation and what the
/// installation says of itself: every file with its digest, and every command.
pub proof fn installations_are_recorded_whole(
    installer: ProviderInstaller,
    state: JournalState,
    record: Ownership,
    i: int,
    step: InstallAction,
)
    requires
        call_ensures(ProviderInstaller::ownership, (&installer, &state), record),
    ensures
        record.version == 1,
        record.invite_id == state.invite_id && record.enrollment_id == state.enrollment_id,
        record.server_id == state.server_id && record.workspace@ == state.workspace@,
        record.manifest_sha256@ == state.manifest_sha256@,
        record.provider == installer.provider && record.profile@ == installer.profile@,
        record.asr_version@ == installer.version@,
        record.executable@ == installer.executable@ && record.executable_sha256@
            == installer.executable_sha256@,
        record.integrations_dir@ == installer.integrations_dir@,
        record.files@.len() == installer.files@.len(),
        0 <= i < installer.files@.len() ==> record.files@[i].path@
            == installer.files@[i].record.path@ && record.files@[i].sha256@
            == installer.files@[i].record.sha256@ && record.files@[i].private
            == installer.files@[i].record.private,
        record.commands@.len() >= installer.steps@.len(),
        !(installer.provider is Omp) ==> record.commands@.len() == installer.steps@.len(),
        record.commands@.len() <= installer.steps@.len() + 1,
        0 <= i < installer.steps@.len() && call_ensures(
            ProviderInstaller::command_intent,
            (&installer, installer.steps@[i]),
            step,
        ) ==> (step is Command && texts(step->argv@) == texts(record.commands@[i]@)),
{
    if 0 <= i < installer.files@.len() {
        assert(record.files@[i].path@ == installer.files@[i].record.path@);
    }
    assert(command_texts(record.commands@).len() == record.commands@.len());
    if 0 <= i < installer.steps@.len() {
        assert(command_texts(record.commands@)[i] == texts(record.commands@[i]@));
    }
}

/// Two actions write the same file only where both write one and their paths are the same.
pub proof fn commands_write_no_file(
    action: InstallAction,
    other: InstallAction,
    same: bool,
    back: bool,
)
    requires
        call_ensures(InstallAction::writes_same, (&action, &other), same),
        call_ensures(InstallAction::writes_same, (&other, &action), back),
    ensures
        action is Command || other is Command ==> !same,
        action is File && other is File && action->path@ == other->path@ ==> same,
        action is File && other is File ==> (same <==> same_path(action->path@, other->path@)),
        same == back,
{
}

/// A file that must be there is read as it is; one that is not there, or is no JSON where JSON is
/// asked for, is refused, and a failure is passed on.
pub proof fn required_files_are_there(
    read: FileRead,
    bytes: Result<&Vec<u8>, ProviderInstallError>,
    value: Result<Json, ProviderInstallError>,
)
    requires
        call_ensures(FileRead::required_bytes, (&read,), bytes),
        call_ensures(FileRead::required_json, (&read,), value),
    ensures
        bytes is Ok <==> read is Found,
        (read matches FileRead::Found(own)) ==> bytes->Ok_0@ == read->Found_0@,
        read is Absent ==> bytes->Err_0 is Io && value is Err && value->Err_0 is Io,
        (read matches FileRead::Failed(own)) ==> bytes->Err_0 == read->Failed_0 && value is Err
            && value->Err_0 == read->Failed_0,
        read is Found ==> (value is Ok <==> parsed_json(read->Found_0@) is Some),
        read is Found && value is Err ==> value->Err_0 is Conflict,
        value matches Ok(own) ==> Some(own.model()) == parsed_json(read->Found_0@),
{
}

/// The receipt of a file is the first record that writes it, applied where it must be.
pub proof fn receipts_are_the_first_of_their_file(
    actions: Vec<ActionRecord>,
    path: &str,
    applied: bool,
    place: Option<usize>,
    i: int,
)
    requires
        call_ensures(receipt_place, (&actions, path, applied), place),
        0 <= i < actions@.len(),
        actions@[i].intent matches InstallAction::File { path: own, .. } && same_path(own@, path@),
        !applied || actions@[i].status is Applied,
    ensures
        place matches Some(at) && at <= i && (actions@[at as int].intent matches InstallAction::File {
            path: own,
            ..
        } && same_path(own@, path@)) && (applied ==> actions@[at as int].status is Applied),
{
    receipts_come_early(actions@, path@, applied, 0, i);
}

proof fn receipts_come_early(
    actions: Seq<ActionRecord>,
    path: Seq<char>,
    applied: bool,
    from: int,
    i: int,
)
    requires
        0 <= from <= i < actions.len(),
        writes(actions[i], path, applied),
    ensures
        receipt_from(actions, path, applied, from) <= i,
    decreases i - from,
{
    if !writes(actions[from], path, applied) {
        receipts_come_early(actions, path, applied, from + 1, i);
    }
}

/// A package or plugin is registered where it is the distribution's own and brings nothing else:
/// what differs is in conflict, whether or not it is enabled.
pub proof fn registrations_are_of_the_distribution(
    installer: ProviderInstaller,
    installed: Option<&str>,
    expected: Option<&str>,
    features: bool,
    enabled: Option<bool>,
    package: Result<Registered, ProviderInstallError>,
    reads: PluginReads,
    plugin: Result<Registered, ProviderInstallError>,
)
    requires
        call_ensures(
            inspect_package,
            (installed, expected, features, enabled, installer.provider),
            package,
        ),
        call_ensures(ProviderInstaller::inspect_plugin, (&installer, &reads, enabled), plugin),
    ensures
        package is Ok ==> !features && installed is Some && expected is Some && same_path(
            installed->0@,
            expected->0@,
        ),
        installed is None || features && expected is Some ==> package is Err && package->Err_0
            is Conflict,
        installed is Some && expected is None ==> package is Err && package->Err_0 is Io,
        plugin is Ok ==> reads.tools is Absent && reads.installed_manifest is Found
            && reads.manifest is Found && reads.installed_skill is Found && reads.skill is Found,
        plugin is Ok ==> reads.installed_manifest->Found_0@ == reads.manifest->Found_0@
            && reads.installed_skill->Found_0@ == reads.skill->Found_0@,
        package is Ok && plugin is Ok ==> package == plugin,
        package is Ok && enabled == Some(true) ==> package->Ok_0 is Exact,
        package is Ok && enabled == Some(false) ==> !(package->Ok_0 is Exact),
        plugin is Ok && enabled == Some(true) ==> plugin->Ok_0 is Exact,
{
}

/// A path is used as it is where it begins at the root, and from the current directory otherwise;
/// one that is empty or goes up is not used.
pub proof fn paths_are_taken_from_here(
    path: &str,
    current: Option<&str>,
    whole: Result<String, ProviderInstallError>,
    none: Result<String, ProviderInstallError>,
)
    requires
        call_ensures(absolute_path, (Some(path), current), whole),
        call_ensures(absolute_path, (None, current), none),
    ensures
        none is Err && none->Err_0 is Permission,
        path@.len() == 0 || goes_up(path@) ==> whole is Err && whole->Err_0 is Permission,
        whole is Ok && absolute(path@) ==> whole->Ok_0@ == path@,
        whole is Ok && !absolute(path@) ==> current is Some && whole->Ok_0@ == joined(
            current->0@,
            path@,
        ),
        whole is Err ==> whole->Err_0 is Permission || current is None && whole->Err_0 is Io,
        path@.len() > 0 && !goes_up(path@) && no_control(path@) && (current is Some || absolute(
            path@,
        )) ==> whole is Ok,
{
}

/// The program of a provider lies in a directory under the provider's own name, and its tools are
/// started with the profile and the role.
pub proof fn programs_are_found_by_name(
    directory: &str,
    codex: String,
    omp: String,
    installer: ProviderInstaller,
    role: &str,
    arguments: Vec<String>,
)
    requires
        call_ensures(program_path, (directory, OnboardingProvider::CodexCli), codex),
        call_ensures(program_path, (directory, OnboardingProvider::Omp), omp),
        call_ensures(ProviderInstaller::mcp_arguments, (&installer, role), arguments),
    ensures
        codex@ == joined(directory@, "codex"@),
        omp@ == joined(directory@, "omp"@),
        arguments@.len() == 4,
        arguments@[0]@ == "--profile"@ && arguments@[1]@ == installer.profile@,
        arguments@[2]@ == "mcp"@ && arguments@[3]@ == role@,
{
    assert(texts(arguments@).len() == 4);
    assert(forall|i: int|
        0 <= i < arguments@.len() ==> texts(arguments@)[i] == (#[trigger] arguments@[i])@);
}

/// The binding of a provider is the first that is the provider's own.
pub proof fn bindings_are_the_first_of_their_provider(
    profile: OnboardingProfile,
    provider: OnboardingProvider,
    found: Option<&ProfileBinding>,
    i: int,
)
    requires
        call_ensures(OnboardingProfile::binding, (&profile, provider), found),
        0 <= i < profile.bindings@.len(),
    ensures
        found matches Some(own) ==> own.provider == provider,
        profile.bindings@[i].provider == provider ==> found is Some,
        profile.bindings@[i].provider == provider && (forall|j: int|
            0 <= j < i ==> (#[trigger] profile.bindings@[j]).provider != provider) ==> found == Some(
            &profile.bindings@[i],
        ),
{
    bindings_come_early(profile.bindings@, provider, 0, i);
}

proof fn bindings_come_early(
    bindings: Seq<ProfileBinding>,
    provider: OnboardingProvider,
    from: int,
    i: int,
)
    requires
        0 <= from <= bindings.len(),
        0 <= i < bindings.len(),
    ensures
        from <= binding_from(bindings, provider, from) <= bindings.len(),
        binding_from(bindings, provider, from) < bindings.len() ==> bindings[binding_from(
            bindings,
            provider,
            from,
        )].provider == provider,
        from <= i && bindings[i].provider == provider ==> binding_from(bindings, provider, from)
            <= i,
    decreases bindings.len() - from,
{
    if from < bindings.len() && bindings[from].provider != provider {
        bindings_come_early(bindings, provider, from + 1, i);
    }
}

/// The action that writes a file writes its digest to its path; a journal's fault is a matter of
/// permission, a conflict, or a failure to read or write.
pub proof fn files_are_written_as_recorded(
    path: String,
    bytes: Vec<u8>,
    private: bool,
    file: FileInstall,
    action: InstallAction,
    error: JournalError,
    fault: ProviderInstallError,
)
    requires
        call_ensures(file_install, (path, bytes, private), file),
        call_ensures(RecordedFile::intent, (&file.record,), action),
        call_ensures(journal_error, (error,), fault),
    ensures
        file.bytes == bytes && file.record.private == private,
        action is File && action->path@ == path@ && action->sha256@ == digest_text(bytes@),
        fault is Permission <==> error is Permissions,
        fault is Conflict <==> error is Conflict || error is Invalid,
        !(fault is Permission) && !(fault is Conflict) ==> fault is Io,
{
}

} // verus!
