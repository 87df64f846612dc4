//! The installation of an onboarding on a host: in which order it is done, from where it
//! goes on, and what is told of it.

use vstd::prelude::*;

use crate::ids::{hyphenated_text, Uuid};
use crate::onboarding::journal::{journal_code, JournalError, JournalState, Stage};
use crate::onboarding::providers::{
    next_action, next_action_text, provider_advice, provider_fault_code, ProviderInstallError,
};
use crate::onboarding::{
    provider_text, ticket_fault, OnboardingProvider, OnboardingRoute, OnboardingTicket, RouteKind,
    TicketVerdicts,
};
use crate::paths::{
    absolute, components, goes_up, has_parent, is_absolute, is_same_path, join, joined, parent,
    parent_of, path_names, same_path,
};
use crate::protocol::WorkspaceName;
use crate::shell::{quote_literal, shell_literal};
use crate::text::{concat3, given, opt_text, same_text, texts, utf8_text};

verus! {

/// What is told of an installation: nothing of the invitation's or the credential's secrets.
pub struct InstallReport {
    pub profile: String,
    pub provider: OnboardingProvider,
    pub server_id: Uuid,
    pub workspace: WorkspaceName,
    pub route: String,
    pub stage: Stage,
    pub transport: Option<&'static str>,
    pub activation: &'static str,
    pub next_action: String,
}

/// Why a distribution could not be installed.
#[derive(Clone, Copy, Debug, PartialEq, Eq, Structural)]
pub enum BundleInstallKind {
    UnsupportedTarget,
    HomeUnavailable,
    Other,
}

/// Why an installation fails.
pub enum InstallError {
    InvalidTicket,
    ProviderMismatch,
    InvalidInviteId,
    InvalidConfiguration,
    NotConfigured,
    BundleConflict,
    /// No route could be used, as whoever tried says.
    Route { code: String, message: String },
    Bundle { kind: BundleInstallKind, code: String },
    Journal(JournalError),
    Provider(ProviderInstallError),
}

/// What is told of a fault: whether it lies in how the program was used, under which code,
/// and what is to be done.
pub struct CliError {
    pub usage: bool,
    pub code: String,
    pub message: String,
}

/// The code of a fault.
pub open spec fn install_code(error: InstallError) -> Seq<char> {
    match error {
        InstallError::InvalidTicket => "invalid_ticket"@,
        InstallError::ProviderMismatch => "provider_mismatch"@,
        InstallError::InvalidInviteId => "invalid_invite_id"@,
        InstallError::InvalidConfiguration => "invalid_configuration"@,
        InstallError::NotConfigured => "onboarding_not_configured"@,
        InstallError::BundleConflict => "bootstrap_install_conflict"@,
        InstallError::Route { code, .. } => code@,
        InstallError::Bundle { code, .. } => code@,
        InstallError::Journal(error) => journal_code(error),
        InstallError::Provider(error) => provider_fault_code(error),
    }
}

/// What is to be done about the fault of a journal.
pub open spec fn journal_advice(error: JournalError) -> Seq<char> {
    match error {
        JournalError::ConfigurationBusy =>
            "another onboarding command holds the configuration lock; retry after it finishes"@,
        JournalError::NotFound =>
            "no journal exists for this invitation and provider; run onboarding install with the original invitation"@,
        JournalError::InviteUnavailable =>
            "the invitation or credential is unavailable; ask the server operator to inspect revocation before requesting another invitation"@,
        JournalError::ProfileConflict | JournalError::BindingConflict =>
            "existing profile or provider identity conflicts; retain it and ask the server operator for a distinct profile invitation"@,
        JournalError::Unavailable | JournalError::RateLimited =>
            "enrollment could not be confirmed; resume the same invitation without creating another identity"@,
        _ =>
            "onboarding state could not be safely updated; preserve the journal and resolve its configuration or permissions"@,
    }
}

/// What is to be done about a fault.
pub open spec fn install_advice(error: InstallError) -> Seq<char> {
    match error {
        InstallError::InvalidTicket => "provide the complete invitation JSON on stdin"@,
        InstallError::ProviderMismatch =>
            "use the provider specified by this invitation; other providers need a new invitation"@,
        InstallError::InvalidInviteId => "invite ID must not be nil"@,
        InstallError::InvalidConfiguration => "the saved onboarding configuration is invalid"@,
        InstallError::NotConfigured =>
            "this profile has no onboarding binding for the selected provider"@,
        InstallError::BundleConflict =>
            "the installed distribution or its private receipt is missing, unsafe, or changed; restore the original installation before resuming"@,
        InstallError::Route { message, .. } => message@,
        InstallError::Bundle { kind, .. } => match kind {
            BundleInstallKind::UnsupportedTarget =>
                "this OS/architecture needs a supported bootstrap artifact from the server operator"@,
            BundleInstallKind::HomeUnavailable =>
                "set HOME to your existing private home directory"@,
            BundleInstallKind::Other =>
                "restore the trusted bootstrap distribution or resolve the local installation conflict; no invitation was exchanged"@,
        },
        InstallError::Journal(error) => journal_advice(error),
        InstallError::Provider(error) => provider_advice(error),
    }
}

fn advise(error: JournalError) -> (advice: &'static str)
    ensures
        advice@ == journal_advice(error),
{
    match error {
        JournalError::ConfigurationBusy =>
            "another onboarding command holds the configuration lock; retry after it finishes",
        JournalError::NotFound =>
            "no journal exists for this invitation and provider; run onboarding install with the original invitation",
        JournalError::InviteUnavailable =>
            "the invitation or credential is unavailable; ask the server operator to inspect revocation before requesting another invitation",
        JournalError::ProfileConflict | JournalError::BindingConflict =>
            "existing profile or provider identity conflicts; retain it and ask the server operator for a distinct profile invitation",
        JournalError::Unavailable | JournalError::RateLimited =>
            "enrollment could not be confirmed; resume the same invitation without creating another identity",
        _ =>
            "onboarding state could not be safely updated; preserve the journal and resolve its configuration or permissions",
    }
}

impl InstallError {
    /// What is told of this fault.
    pub fn report(&self) -> (told: CliError)
        ensures
            told.usage == (self is InvalidTicket || self is ProviderMismatch || self
                is InvalidInviteId),
            told.code@ == install_code(*self),
            told.message@ == install_advice(*self),
    {
        match self {
            InstallError::InvalidTicket => CliError {
                usage: true,
                code: "invalid_ticket".to_owned(),
                message: "provide the complete invitation JSON on stdin".to_owned(),
            },
            InstallError::ProviderMismatch => CliError {
                usage: true,
                code: "provider_mismatch".to_owned(),
                message: "use the provider specified by this invitation; other providers need a new invitation".to_owned(),
            },
            InstallError::InvalidInviteId => CliError {
                usage: true,
                code: "invalid_invite_id".to_owned(),
                message: "invite ID must not be nil".to_owned(),
            },
            InstallError::InvalidConfiguration => CliError {
                usage: false,
                code: "invalid_configuration".to_owned(),
                message: "the saved onboarding configuration is invalid".to_owned(),
            },
            InstallError::NotConfigured => CliError {
                usage: false,
                code: "onboarding_not_configured".to_owned(),
                message: "this profile has no onboarding binding for the selected provider".to_owned(),
            },
            InstallError::BundleConflict => CliError {
                usage: false,
                code: "bootstrap_install_conflict".to_owned(),
                message: "the installed distribution or its private receipt is missing, unsafe, or changed; restore the original installation before resuming".to_owned(),
            },
            InstallError::Route { code, message } => CliError {
                usage: false,
                code: code.as_str().to_owned(),
                message: message.as_str().to_owned(),
            },
            InstallError::Bundle { kind, code } => CliError {
                usage: false,
                code: code.as_str().to_owned(),
                message: match kind {
                    BundleInstallKind::UnsupportedTarget =>
                        "this OS/architecture needs a supported bootstrap artifact from the server operator".to_owned(),
                    BundleInstallKind::HomeUnavailable =>
                        "set HOME to your existing private home directory".to_owned(),
                    BundleInstallKind::Other =>
                        "restore the trusted bootstrap distribution or resolve the local installation conflict; no invitation was exchanged".to_owned(),
                },
            },
            InstallError::Journal(error) => CliError {
                usage: false,
                code: error.code().to_owned(),
                message: advise(*error).to_owned(),
            },
            InstallError::Provider(error) => CliError {
                usage: false,
                code: error.code().to_owned(),
                message: error.next_action(),
            },
        }
    }
}

/// The command that goes on with an installation.
pub open spec fn resume_command(state: JournalState) -> Seq<char> {
    shell_literal(state.executable@) + " onboarding resume "@ + hyphenated_text(
        state.invite_id.value,
    ) + " --provider "@ + provider_text(state.provider)
}

pub fn resume_action(state: &JournalState) -> (command: String)
    ensures
        command@ == resume_command(*state),
{
    let head = concat3(
        quote_literal(state.executable.as_str()).as_str(),
        " onboarding resume ",
        state.invite_id.to_text().as_str(),
    );
    concat3(head.as_str(), " --provider ", state.provider.as_str().as_str())
}

/// What is told of a fault once there is a journal: how to go on.
pub fn with_resume(told: CliError, state: &JournalState) -> (more: CliError)
    ensures
        more.usage == told.usage,
        more.code == told.code,
        more.message@ == told.message@
            + "; preserve this invitation's journal and resume with: "@ + resume_command(*state),
{
    let message = concat3(
        told.message.as_str(),
        "; preserve this invitation's journal and resume with: ",
        resume_action(state).as_str(),
    );
    CliError { usage: told.usage, code: told.code, message }
}

/// Whether a report is the one of a journal, at an address.
pub open spec fn report_of(
    told: InstallReport,
    state: JournalState,
    route: Seq<char>,
    transport: Option<Seq<char>>,
) -> bool {
    &&& told.profile@ == state.profile_name@
    &&& told.provider == state.provider
    &&& told.server_id == state.server_id
    &&& told.workspace@ == state.workspace@
    &&& told.route@ == route
    &&& told.stage == state.stage
    &&& given(told.transport) == transport
    &&& told.activation@ == if state.stage is Configured {
        "restart_required"@
    } else {
        "not_checked"@
    }
    &&& told.next_action@ == if state.stage is Configured {
        next_action_text(
            state.provider,
            state.executable@,
            state.profile_name@,
            state.workspace@,
        )
    } else {
        resume_command(state)
    }
}

/// What is told of an installation.
pub fn report(state: &JournalState, route: String, transport: Option<&'static str>) -> (told: InstallReport)
    ensures
        report_of(told, *state, route@, given(transport)),
{
    let configured = state.stage == Stage::Configured;
    InstallReport {
        profile: state.profile_name.as_str().to_owned(),
        provider: state.provider,
        server_id: state.server_id,
        workspace: state.workspace.copy(),
        route,
        stage: state.stage,
        transport,
        activation: if configured {
            "restart_required"
        } else {
            "not_checked"
        },
        next_action: if configured {
            next_action(
                state.provider,
                state.executable.as_str(),
                state.profile_name.as_str(),
                &state.workspace,
            )
        } else {
            resume_action(state)
        },
    }
}

/// Where the configuration lies, from the path that is set for it and the current
/// directory, none where one is unknown.
pub fn configuration_path(path: Option<&str>, current: Option<&str>) -> (whole: Result<
    String,
    InstallError,
>)
    ensures
        match path {
            None => whole matches Err(error) && error is InvalidConfiguration,
            Some(path) => if absolute(path@) {
                if goes_up(path@) {
                    whole matches Err(error) && error is InvalidConfiguration
                } else {
                    whole matches Ok(whole) && whole@ == path@
                }
            } else {
                match current {
                    None => whole matches Err(error) && error is InvalidConfiguration,
                    Some(current) => if goes_up(joined(current@, path@)) {
                        whole matches Err(error) && error is InvalidConfiguration
                    } else {
                        whole matches Ok(whole) && whole@ == joined(current@, path@)
                    },
                }
            },
        },
{
    let whole = match path {
        None => {
            return Err(InstallError::InvalidConfiguration);
        },
        Some(path) => if is_absolute(path) {
            path.to_owned()
        } else {
            match current {
                None => {
                    return Err(InstallError::InvalidConfiguration);
                },
                Some(current) => join(current, path),
            }
        },
    };
    if has_parent(whole.as_str()) {
        return Err(InstallError::InvalidConfiguration);
    }
    Ok(whole)
}

/// Where the certificates of routes are kept, beside the configuration.
pub fn ca_directory(path: &str) -> (directory: Result<String, InstallError>)
    ensures
        match parent_of(path@) {
            Some(above) => directory matches Ok(directory) && directory@ == joined(
                above,
                "onboarding/ca"@,
            ),
            None => directory matches Err(error) && error is InvalidConfiguration,
        },
{
    match parent(path) {
        Some(above) => Ok(join(above.as_str(), "onboarding/ca")),
        None => Err(InstallError::InvalidConfiguration),
    }
}

/// What a profile binds a provider to.
pub struct ProfileBinding {
    pub provider: OnboardingProvider,
    pub workspace: WorkspaceName,
    pub credential_file: String,
}

/// A route of a profile. Its certificate lies in a file.
pub struct StoredRoute {
    pub kind: RouteKind,
    pub router_url: String,
    pub ca_file: Option<String>,
}

/// A profile of the configuration, as far as an onboarding knows it.
pub struct OnboardingProfile {
    pub server_id: Option<Uuid>,
    pub router_url: String,
    pub bindings: Vec<ProfileBinding>,
    pub routes: Vec<StoredRoute>,
}

/// The place of the binding of a provider from a place on, the length where there is none.
pub open spec fn binding_from(
    bindings: Seq<ProfileBinding>,
    provider: OnboardingProvider,
    from: int,
) -> int
    decreases bindings.len() - from,
{
    if from >= bindings.len() {
        bindings.len() as int
    } else if bindings[from].provider == provider {
        from
    } else {
        binding_from(bindings, provider, from + 1)
    }
}

impl OnboardingProfile {
    /// The binding of a provider.
    pub fn binding(&self, provider: OnboardingProvider) -> (binding: Option<&ProfileBinding>)
        ensures
            ({
                let place = binding_from(self.bindings@, provider, 0);
                match binding {
                    Some(binding) => place < self.bindings@.len() && *binding
                        == self.bindings@[place],
                    None => place == self.bindings@.len(),
                }
            }),
    {
        let mut i: usize = 0;
        while i < self.bindings.len()
            invariant
                i <= self.bindings@.len(),
                binding_from(self.bindings@, provider, 0) == binding_from(
                    self.bindings@,
                    provider,
                    i as int,
                ),
            decreases self.bindings.len() - i,
        {
            if self.bindings[i].provider == provider {
                return Some(&self.bindings[i]);
            }
            i += 1;
        }
        None
    }
}

/// Whether a profile is bound to what a journal records.
pub open spec fn profile_bound(profile: OnboardingProfile, state: JournalState) -> bool {
    let place = binding_from(profile.bindings@, state.provider, 0);
    &&& profile.server_id == Some(state.server_id)
    &&& place < profile.bindings@.len()
    &&& profile.bindings@[place].workspace@ == state.workspace@
    &&& same_path(profile.bindings@[place].credential_file@, state.credential_file@)
    &&& profile.routes@.len() > 0
}

/// Refuses a profile that is not bound to what a journal records.
pub fn check_profile(profile: Option<&OnboardingProfile>, state: &JournalState) -> (checked: Result<
    (),
    InstallError,
>)
    ensures
        match profile {
            None => checked matches Err(error) && error is NotConfigured,
            Some(profile) => if profile_bound(*profile, *state) {
                checked is Ok
            } else {
                checked matches Err(error) && error is InvalidConfiguration
            },
        },
{
    match profile {
        None => Err(InstallError::NotConfigured),
        Some(profile) => {
            let server = match profile.server_id {
                Some(id) => id == state.server_id,
                None => false,
            };
            let bound = match profile.binding(state.provider) {
                Some(binding) => binding.workspace.same(&state.workspace) && is_same_path(
                    binding.credential_file.as_str(),
                    state.credential_file.as_str(),
                ),
                None => false,
            };
            if !server || !bound || profile.routes.len() == 0 {
                return Err(InstallError::InvalidConfiguration);
            }
            Ok(())
        },
    }
}

/// The invitation whose journal a credential lies in, if its path tells.
pub open spec fn invite_of(credential_file: Seq<char>) -> Option<Seq<char>> {
    let names = path_names(credential_file);
    if names.len() < 3 {
        None
    } else {
        Some(names[names.len() - 3])
    }
}

/// The invitation that a profile is bound to: its binding leads to the journal, and no other
/// is looked for.
pub fn bound_invite(profile: Option<&OnboardingProfile>, provider: OnboardingProvider) -> (id: Result<
    Uuid,
    InstallError,
>)
    ensures
        match profile {
            None => id matches Err(error) && error is NotConfigured,
            Some(profile) => {
                let place = binding_from(profile.bindings@, provider, 0);
                if place >= profile.bindings@.len() {
                    id matches Err(error) && error is NotConfigured
                } else {
                    match invite_of(profile.bindings@[place].credential_file@) {
                        None => id matches Err(error) && error is InvalidConfiguration,
                        Some(name) => match crate::ids::parsed_uuid(name) {
                            Some(value) => id matches Ok(id) && id.value == value,
                            None => id matches Err(error) && error is InvalidConfiguration,
                        },
                    }
                }
            },
        },
{
    let profile = match profile {
        Some(profile) => profile,
        None => {
            return Err(InstallError::NotConfigured);
        },
    };
    let binding = match profile.binding(provider) {
        Some(binding) => binding,
        None => {
            return Err(InstallError::NotConfigured);
        },
    };
    let names = components(binding.credential_file.as_str());
    let n: usize = names.len();
    assert(texts(names@).len() == n);
    if n < 3 {
        return Err(InstallError::InvalidConfiguration);
    }
    assert(texts(names@)[n - 3] == names@[n - 3]@);
    match Uuid::parse(names[n - 3].as_str()) {
        Some(id) => Ok(id),
        None => Err(InstallError::InvalidConfiguration),
    }
}

/// The certificate of a stored route, as far as it could be read.
pub enum CaRead {
    /// The route has none.
    Nothing,
    Bytes(Vec<u8>),
    Failed,
}

/// The certificate of a route, by its text: none where it could not be read.
pub open spec fn ca_text(read: CaRead) -> Option<Option<Seq<char>>> {
    match read {
        CaRead::Nothing => Some(None),
        CaRead::Bytes(bytes) => if vstd::utf8::valid_utf8(bytes@) {
            Some(Some(vstd::utf8::decode_utf8(bytes@)))
        } else {
            None
        },
        CaRead::Failed => None,
    }
}

/// Whether a route is a stored one, with its certificate.
pub open spec fn route_of(route: OnboardingRoute, stored: StoredRoute, read: CaRead) -> bool {
    &&& route.kind == stored.kind
    &&& route.router_url@ == stored.router_url@
    &&& Some(opt_text(route.ca_pem)) == ca_text(read)
}

/// The routes of a profile, with their certificates, or nothing where one could not be read.
/// There is one reading for each route.
pub fn stored_routes(routes: &Vec<StoredRoute>, reads: &Vec<CaRead>) -> (list: Option<
    Vec<OnboardingRoute>,
>)
    requires
        reads@.len() == routes@.len(),
    ensures
        match list {
            Some(list) => list@.len() == routes@.len() && forall|i: int|
                0 <= i < routes@.len() ==> route_of(#[trigger] list@[i], routes@[i], reads@[i]),
            None => exists|i: int| 0 <= i < reads@.len() && ca_text(#[trigger] reads@[i]) is None,
        },
{
    let mut list: Vec<OnboardingRoute> = Vec::new();
    let mut i: usize = 0;
    while i < routes.len()
        invariant
            i <= routes@.len(),
            reads@.len() == routes@.len(),
            list@.len() == i,
            forall|j: int| 0 <= j < i ==> route_of(#[trigger] list@[j], routes@[j], reads@[j]),
        decreases routes.len() - i,
    {
        let ca_pem = match &reads[i] {
            CaRead::Nothing => None,
            CaRead::Bytes(bytes) => match utf8_text(bytes.as_slice()) {
                Some(text) => Some(text),
                None => {
                    assert(ca_text(reads@[i as int]) is None);
                    return None;
                },
            },
            CaRead::Failed => {
                assert(ca_text(reads@[i as int]) is None);
                return None;
            },
        };
        list.push(
            OnboardingRoute {
                kind: routes[i].kind,
                router_url: routes[i].router_url.as_str().to_owned(),
                ca_pem,
            },
        );
        i += 1;
    }
    Some(list)
}

/// What is to be done to install, or to go on with an installation.
#[derive(Clone, Copy, Debug, PartialEq, Eq, Structural)]
pub enum FlowPhase {
    /// The lock of the configuration is to be taken.
    Lock,
    /// The journal is to be loaded.
    Load,
    /// The journal that is there is to be prepared again, to show that the ticket is its own.
    Prepare,
    /// The configuration is to be asked whether the onboarding fits it.
    CheckBinding,
    /// The distribution that is there is to be looked at.
    Reuse,
    /// The routes are to be tried. The flag tells whether the manifest must be offered.
    Probe { manifest: bool },
    /// The distribution is to be installed.
    InstallBundle,
    /// The journal is to be prepared.
    PrepareNew,
    /// The receipt of the distribution is to be recorded.
    RecordBundle,
    /// What the provider needs is to be checked.
    Preflight,
    /// The credential is to be enrolled.
    Enroll,
    /// The provider is to be set up.
    Configure,
    /// What was installed is to be verified.
    Verify,
    /// The journal is to be marked configured.
    MarkConfigured,
    /// The distribution of a configured journal is to be verified.
    VerifyBundle,
    /// What was installed for a configured journal is to be verified.
    VerifyConfigured,
    /// The profile of a configured journal is to be read.
    BindProfile,
    Finished,
    Failed,
}

/// How that went.
pub enum FlowEvent {
    Done,
    /// Whether the distribution that is there is used again.
    Reused(bool),
    /// A route can be used, at an address.
    Routed(String),
    /// The distribution was installed, its program at a path.
    Bundled(String),
    /// The profile has an address.
    Bound(String),
    Failed(InstallError),
}

/// An installation.
pub struct InstallFlow {
    pub phase: FlowPhase,
    /// Whether it is only gone on with, without a ticket at hand.
    pub resuming: bool,
    /// Whether there is a journal: then it is told how to go on where something fails.
    pub journaled: bool,
    /// Whether the distribution that is there is used again.
    pub local: bool,
    /// The address that is reported.
    pub route: Option<String>,
    pub error: Option<InstallError>,
}

/// What is to be done with a journal that is there. One that is configured is only looked
/// at: it has no invitation any more.
pub open spec fn continue_with(state: JournalState) -> Result<FlowPhase, InstallError> {
    if state.stage is Configured {
        Ok(FlowPhase::VerifyBundle)
    } else if state.ticket is None {
        Err(InstallError::InvalidTicket)
    } else {
        Ok(FlowPhase::CheckBinding)
    }
}

/// The phase that comes next, or why nothing does. `state` is the journal, where there is one.
pub open spec fn flow_next(flow: InstallFlow, state: Option<JournalState>, event: FlowEvent) -> Result<
    FlowPhase,
    InstallError,
> {
    match (flow.phase, event) {
        (FlowPhase::Finished, _) => Ok(flow.phase),
        (FlowPhase::Failed, _) => Ok(flow.phase),
        (FlowPhase::Load, FlowEvent::Failed(error)) => if error == InstallError::Journal(
            JournalError::NotFound,
        ) && !flow.resuming {
            Ok(FlowPhase::CheckBinding)
        } else {
            Err(error)
        },
        (_, FlowEvent::Failed(error)) => Err(error),
        (FlowPhase::Lock, FlowEvent::Done) => Ok(FlowPhase::Load),
        (FlowPhase::Load, FlowEvent::Done) => if !flow.resuming {
            Ok(FlowPhase::Prepare)
        } else {
            match state {
                Some(state) => continue_with(state),
                None => Ok(flow.phase),
            }
        },
        (FlowPhase::Prepare, FlowEvent::Done) => match state {
            Some(state) => continue_with(state),
            None => Ok(flow.phase),
        },
        (FlowPhase::CheckBinding, FlowEvent::Done) => if flow.journaled {
            Ok(FlowPhase::Reuse)
        } else {
            Ok(FlowPhase::Probe { manifest: true })
        },
        (FlowPhase::Reuse, FlowEvent::Reused(local)) => Ok(FlowPhase::Probe { manifest: !local }),
        (FlowPhase::Probe { .. }, FlowEvent::Routed(_)) => if flow.local {
            Ok(FlowPhase::Preflight)
        } else {
            Ok(FlowPhase::InstallBundle)
        },
        (FlowPhase::InstallBundle, FlowEvent::Bundled(executable)) => if !flow.journaled {
            Ok(FlowPhase::PrepareNew)
        } else {
            match state {
                Some(state) => if same_path(executable@, state.executable@) {
                    Ok(FlowPhase::RecordBundle)
                } else {
                    Err(InstallError::BundleConflict)
                },
                None => Ok(flow.phase),
            }
        },
        (FlowPhase::PrepareNew, FlowEvent::Done) => Ok(FlowPhase::RecordBundle),
        (FlowPhase::RecordBundle, FlowEvent::Done) => Ok(FlowPhase::Preflight),
        (FlowPhase::Preflight, FlowEvent::Done) => Ok(FlowPhase::Enroll),
        (FlowPhase::Enroll, FlowEvent::Done) => Ok(FlowPhase::Configure),
        (FlowPhase::Configure, FlowEvent::Done) => Ok(FlowPhase::Verify),
        (FlowPhase::Verify, FlowEvent::Done) => Ok(FlowPhase::MarkConfigured),
        (FlowPhase::MarkConfigured, FlowEvent::Done) => Ok(FlowPhase::Finished),
        (FlowPhase::VerifyBundle, FlowEvent::Done) => Ok(FlowPhase::VerifyConfigured),
        (FlowPhase::VerifyConfigured, FlowEvent::Done) => Ok(FlowPhase::BindProfile),
        (FlowPhase::BindProfile, FlowEvent::Bound(_)) => Ok(FlowPhase::Finished),
        _ => Ok(flow.phase),
    }
}

/// Whether there is a journal once something has been done.
pub open spec fn flow_journaled(flow: InstallFlow, event: FlowEvent) -> bool {
    flow.journaled || (event is Done && (flow.phase is Prepare || flow.phase is PrepareNew || (
    flow.phase is Load && flow.resuming)))
}

/// The address that is reported once something has been done.
pub open spec fn flow_route(flow: InstallFlow, event: FlowEvent) -> Option<String> {
    match (flow.phase, event) {
        (FlowPhase::Probe { .. }, FlowEvent::Routed(url)) => Some(url),
        (FlowPhase::BindProfile, FlowEvent::Bound(url)) => Some(url),
        _ => flow.route,
    }
}

/// Why an installation cannot even begin.
pub open spec fn install_fault(
    ticket: OnboardingTicket,
    verdicts: TicketVerdicts,
    provider: OnboardingProvider,
) -> Option<InstallError> {
    if ticket_fault(ticket, verdicts) is Some {
        Some(InstallError::InvalidTicket)
    } else if ticket.provider matches Some(bound) && bound != provider {
        Some(InstallError::ProviderMismatch)
    } else {
        None
    }
}

impl InstallFlow {
    fn start(resuming: bool, error: Option<InstallError>) -> (flow: InstallFlow)
        ensures
            flow == (InstallFlow {
                phase: if error is Some {
                    FlowPhase::Failed
                } else {
                    FlowPhase::Lock
                },
                resuming,
                journaled: false,
                local: false,
                route: None,
                error,
            }),
    {
        InstallFlow {
            phase: if error.is_some() {
                FlowPhase::Failed
            } else {
                FlowPhase::Lock
            },
            resuming,
            journaled: false,
            local: false,
            route: None,
            error,
        }
    }

    /// An installation with a ticket begins.
    pub fn install(ticket: &OnboardingTicket, verdicts: TicketVerdicts, provider: OnboardingProvider) -> (flow: InstallFlow)
        ensures
            flow == (InstallFlow {
                phase: if install_fault(*ticket, verdicts, provider) is Some {
                    FlowPhase::Failed
                } else {
                    FlowPhase::Lock
                },
                resuming: false,
                journaled: false,
                local: false,
                route: None,
                error: install_fault(*ticket, verdicts, provider),
            }),
    {
        if let Err(_) = ticket.validate(verdicts) {
            return InstallFlow::start(false, Some(InstallError::InvalidTicket));
        }
        let bound = match ticket.provider {
            Some(bound) => bound == provider,
            None => true,
        };
        if !bound {
            return InstallFlow::start(false, Some(InstallError::ProviderMismatch));
        }
        InstallFlow::start(false, None)
    }

    /// Going on with an installation begins.
    pub fn resume(invite_id: Uuid) -> (flow: InstallFlow)
        ensures
            flow == (InstallFlow {
                phase: if invite_id.value == 0 {
                    FlowPhase::Failed
                } else {
                    FlowPhase::Lock
                },
                resuming: true,
                journaled: false,
                local: false,
                route: None,
                error: if invite_id.value == 0 {
                    Some(InstallError::InvalidInviteId)
                } else {
                    None
                },
            }),
    {
        if invite_id.is_nil() {
            InstallFlow::start(true, Some(InstallError::InvalidInviteId))
        } else {
            InstallFlow::start(true, None)
        }
    }

    fn go(state: Option<&JournalState>, phase: FlowPhase) -> (next: Result<FlowPhase, InstallError>)
        ensures
            next == (match state {
                Some(state) => continue_with(*state),
                None => Ok(phase),
            }),
    {
        match state {
            Some(state) => if state.stage == Stage::Configured {
                Ok(FlowPhase::VerifyBundle)
            } else if state.ticket.is_none() {
                Err(InstallError::InvalidTicket)
            } else {
                Ok(FlowPhase::CheckBinding)
            },
            None => Ok(phase),
        }
    }

    /// Something was done. `state` is the journal, where there is one.
    pub fn step(self, state: Option<&JournalState>, event: FlowEvent) -> (next: InstallFlow)
        ensures
            ({
                let given = match state {
                    Some(state) => Some(*state),
                    None => None::<JournalState>,
                };
                match flow_next(self, given, event) {
                    Ok(phase) => next == (InstallFlow {
                        phase,
                        journaled: flow_journaled(self, event),
                        local: match (self.phase, event) {
                            (FlowPhase::Reuse, FlowEvent::Reused(local)) => local,
                            _ => self.local,
                        },
                        route: flow_route(self, event),
                        ..self
                    }),
                    Err(error) => next == (InstallFlow {
                        phase: FlowPhase::Failed,
                        journaled: flow_journaled(self, event),
                        route: flow_route(self, event),
                        error: Some(error),
                        ..self
                    }),
                }
            }),
    {
        let InstallFlow { phase, resuming, journaled, local, route, error } = self;
        let mut journaled = journaled;
        let mut local = local;
        let mut route = route;
        let next: Result<FlowPhase, InstallError> = match (phase, event) {
            (FlowPhase::Finished, _) => Ok(phase),
            (FlowPhase::Failed, _) => Ok(phase),
            (FlowPhase::Load, FlowEvent::Failed(error)) => match error {
                InstallError::Journal(JournalError::NotFound) => if resuming {
                    Err(error)
                } else {
                    Ok(FlowPhase::CheckBinding)
                },
                _ => Err(error),
            },
            (_, FlowEvent::Failed(error)) => Err(error),
            (FlowPhase::Lock, FlowEvent::Done) => Ok(FlowPhase::Load),
            (FlowPhase::Load, FlowEvent::Done) => if !resuming {
                Ok(FlowPhase::Prepare)
            } else {
                journaled = true;
                InstallFlow::go(state, phase)
            },
            (FlowPhase::Prepare, FlowEvent::Done) => {
                journaled = true;
                InstallFlow::go(state, phase)
            },
            (FlowPhase::CheckBinding, FlowEvent::Done) => if journaled {
                Ok(FlowPhase::Reuse)
            } else {
                Ok(FlowPhase::Probe { manifest: true })
            },
            (FlowPhase::Reuse, FlowEvent::Reused(reused)) => {
                local = reused;
                Ok(FlowPhase::Probe { manifest: !reused })
            },
            (FlowPhase::Probe { .. }, FlowEvent::Routed(url)) => {
                route = Some(url);
                if local {
                    Ok(FlowPhase::Preflight)
                } else {
                    Ok(FlowPhase::InstallBundle)
                }
            },
            (FlowPhase::InstallBundle, FlowEvent::Bundled(executable)) => if !journaled {
                Ok(FlowPhase::PrepareNew)
            } else {
                match state {
                    Some(state) => if is_same_path(executable.as_str(), state.executable.as_str()) {
                        Ok(FlowPhase::RecordBundle)
                    } else {
                        Err(InstallError::BundleConflict)
                    },
                    None => Ok(phase),
                }
            },
            (FlowPhase::PrepareNew, FlowEvent::Done) => {
                journaled = true;
                Ok(FlowPhase::RecordBundle)
            },
            (FlowPhase::RecordBundle, FlowEvent::Done) => Ok(FlowPhase::Preflight),
            (FlowPhase::Preflight, FlowEvent::Done) => Ok(FlowPhase::Enroll),
            (FlowPhase::Enroll, FlowEvent::Done) => Ok(FlowPhase::Configure),
            (FlowPhase::Configure, FlowEvent::Done) => Ok(FlowPhase::Verify),
            (FlowPhase::Verify, FlowEvent::Done) => Ok(FlowPhase::MarkConfigured),
            (FlowPhase::MarkConfigured, FlowEvent::Done) => Ok(FlowPhase::Finished),
            (FlowPhase::VerifyBundle, FlowEvent::Done) => Ok(FlowPhase::VerifyConfigured),
            (FlowPhase::VerifyConfigured, FlowEvent::Done) => Ok(FlowPhase::BindProfile),
            (FlowPhase::BindProfile, FlowEvent::Bound(url)) => {
                route = Some(url);
                Ok(FlowPhase::Finished)
            },
            _ => Ok(phase),
        };
        match next {
            Ok(phase) => InstallFlow { phase, resuming, journaled, local, route, error },
            Err(fault) => InstallFlow {
                phase: FlowPhase::Failed,
                resuming,
                journaled,
                local,
                route,
                error: Some(fault),
            },
        }
    }

    /// What is told of a failure. Once there is a journal, it is told how to go on.
    pub fn failure(&self, state: Option<&JournalState>) -> (told: Option<CliError>)
        ensures
            match self.error {
                None => told is None,
                Some(error) => {
                    &&& told matches Some(told)
                    &&& told.code@ == install_code(error)
                    &&& told.usage == (error is InvalidTicket || error is ProviderMismatch || error
                        is InvalidInviteId)
                    &&& told.message@ == (match (self.journaled, state) {
                        (true, Some(state)) => install_advice(error)
                            + "; preserve this invitation's journal and resume with: "@
                            + resume_command(*state),
                        _ => install_advice(error),
                    })
                },
            },
    {
        match &self.error {
            None => None,
            Some(error) => {
                let told = error.report();
                if self.journaled {
                    match state {
                        Some(state) => Some(with_resume(told, state)),
                        None => Some(told),
                    }
                } else {
                    Some(told)
                }
            },
        }
    }
}

/// The credential is enrolled only once everything that the provider needs has been
/// checked, and the journal marked configured only once what was installed has been
/// verified.
pub proof fn installation_is_in_order(flow: InstallFlow, state: Option<JournalState>, event: FlowEvent)
    ensures
        ({
            let next = flow_next(flow, state, event);
            &&& next == Ok::<FlowPhase, InstallError>(FlowPhase::Enroll) && !(flow.phase is Enroll)
                ==> flow.phase is Preflight
            &&& next == Ok::<FlowPhase, InstallError>(FlowPhase::MarkConfigured) && !(flow.phase
                is MarkConfigured) ==> flow.phase is Verify
            &&& next == Ok::<FlowPhase, InstallError>(FlowPhase::Finished) && !(flow.phase
                is Finished) ==> flow.phase is MarkConfigured || flow.phase is BindProfile
        }),
{
}

/// Whether a phase only looks at what is there.
pub open spec fn only_looks(phase: FlowPhase) -> bool {
    phase is VerifyBundle || phase is VerifyConfigured || phase is BindProfile || phase is Finished
        || phase is Failed
}

/// A configured onboarding is only looked at: its invitation is never exchanged again, and
/// nothing is installed.
pub proof fn configured_onboardings_are_left_alone(
    flow: InstallFlow,
    state: JournalState,
    event: FlowEvent,
)
    ensures
        state.stage is Configured && (flow.phase is Prepare || (flow.phase is Load
            && flow.resuming)) && event is Done ==> flow_next(flow, Some(state), event) == Ok::<
            FlowPhase,
            InstallError,
        >(FlowPhase::VerifyBundle),
        only_looks(flow.phase) ==> (flow_next(flow, Some(state), event) matches Ok(next)
            ==> only_looks(next)),
{
}

/// What is to be done to tell of an onboarding.
#[derive(Clone, Copy, Debug, PartialEq, Eq, Structural)]
pub enum StatusPhase {
    /// The journal that the profile is bound to is to be loaded.
    Load,
    /// The profile is to be compared with the journal.
    BindProfile,
    /// The distribution is to be verified.
    VerifyBundle,
    /// What was installed is to be verified.
    VerifyRecorded,
    /// The routes are to be tried.
    Probe,
    Told,
    Failed,
}

/// What is to be done once something has been. No program of a provider is run.
pub open spec fn status_next(
    phase: StatusPhase,
    state: JournalState,
    profile_name: Seq<char>,
) -> Result<StatusPhase, InstallError> {
    match phase {
        StatusPhase::Load => Ok(StatusPhase::BindProfile),
        StatusPhase::BindProfile => if state.profile_name@ != profile_name {
            Err(InstallError::InvalidConfiguration)
        } else if state.stage is Configured {
            Ok(StatusPhase::VerifyBundle)
        } else {
            Ok(StatusPhase::Probe)
        },
        StatusPhase::VerifyBundle => Ok(StatusPhase::VerifyRecorded),
        StatusPhase::VerifyRecorded => Ok(StatusPhase::Probe),
        StatusPhase::Probe => Ok(StatusPhase::Told),
        _ => Ok(phase),
    }
}

/// What is to be done once something has been done without a fault.
pub fn next_status(phase: StatusPhase, state: &JournalState, profile_name: &str) -> (next: Result<
    StatusPhase,
    InstallError,
>)
    ensures
        next == status_next(phase, *state, profile_name@),
{
    match phase {
        StatusPhase::Load => Ok(StatusPhase::BindProfile),
        StatusPhase::BindProfile => if !same_text(state.profile_name.as_str(), profile_name) {
            Err(InstallError::InvalidConfiguration)
        } else if state.stage == Stage::Configured {
            Ok(StatusPhase::VerifyBundle)
        } else {
            Ok(StatusPhase::Probe)
        },
        StatusPhase::VerifyBundle => Ok(StatusPhase::VerifyRecorded),
        StatusPhase::VerifyRecorded => Ok(StatusPhase::Probe),
        StatusPhase::Probe => Ok(StatusPhase::Told),
        _ => Ok(phase),
    }
}

/// How trying the routes went.
pub enum ProbeOutcome {
    Reachable(String),
    NoReachableRoute,
    Failed(InstallError),
}

/// What is told of an onboarding once its routes have been tried: that none is reached is
/// no failure.
pub fn status_report(state: &JournalState, profile_url: &str, outcome: ProbeOutcome) -> (told: Result<
    InstallReport,
    InstallError,
>)
    ensures
        match outcome {
            ProbeOutcome::Failed(error) => told matches Err(fault) && fault == error,
            ProbeOutcome::Reachable(url) => told matches Ok(told) && report_of(
                told,
                *state,
                url@,
                Some("reachable"@),
            ),
            ProbeOutcome::NoReachableRoute => told matches Ok(told) && report_of(
                told,
                *state,
                profile_url@,
                Some("unreachable"@),
            ),
        },
{
    match outcome {
        ProbeOutcome::Reachable(url) => Ok(report(state, url, Some("reachable"))),
        ProbeOutcome::NoReachableRoute => Ok(
            report(state, profile_url.to_owned(), Some("unreachable")),
        ),
        ProbeOutcome::Failed(error) => Err(error),
    }
}

} // verus!
