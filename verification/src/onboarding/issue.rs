//! Issuing an invitation through the owned router's authenticated connection: a machine
//! that is told what happened and says what to do next.

use vstd::prelude::*;
use vstd::string::*;

use crate::credentials::{CredentialFile, CredentialRole};
use crate::ids::Uuid;
use crate::onboarding::prompt::{
    prompt_fault, prompt_text, render_prompt, script_text, InfoAddress,
};
use crate::onboarding::routes::RouteError;
use crate::onboarding::{
    profile_name, proposed_profile, BootstrapArtifact, IssuedInvite, OnboardingInfo,
    OnboardingProvider, OnboardingRoute, OnboardingTicket, TicketError, TicketVerdicts,
    MAX_TICKET_BYTES, VERSION,
};
use crate::process::RuntimeRecord;
use crate::protocol::{code_text, RouterErrorCode, WorkspaceName, PROTOCOL_VERSION};
use crate::tasks::MAX_SAFE_INTEGER;
use crate::text::{holds_text, opt_text, same_text};

verus! {

/// What an invitation is issued for.
pub struct PromptOptions {
    pub workspace: WorkspaceName,
    pub create_workspace: bool,
    pub name: Option<String>,
    pub provider: Option<OnboardingProvider>,
    pub endpoints: Vec<String>,
    pub ca_file: Option<String>,
}

/// The certificates that a router is trusted by, beside those of the system: a file that is
/// given, else one that the environment names.
pub open spec fn ca_choice(given: Option<Seq<char>>, environment: Option<Seq<char>>) -> Option<
    Seq<char>,
> {
    match (given, environment) {
        (Some(path), _) => Some(path),
        (None, Some(path)) => if path.len() > 0 {
            Some(path)
        } else {
            None
        },
        (None, None) => None,
    }
}

pub fn choose_ca(given: &Option<String>, environment: Option<String>) -> (path: Option<String>)
    ensures
        opt_text(path) == ca_choice(opt_text(*given), opt_text(environment)),
{
    match given {
        Some(path) => Some(path.as_str().to_owned()),
        None => match environment {
            Some(path) => if path.as_str().unicode_len() > 0 {
                Some(path)
            } else {
                None
            },
            None => None,
        },
    }
}

/// An invitation that was issued, with its prompt.
#[derive(PartialEq)]
pub struct IssuedPrompt {
    pub text: String,
    pub invite_id: Uuid,
    pub expires_at: i64,
    pub workspace: WorkspaceName,
    pub provider: Option<OnboardingProvider>,
}

/// Why an invitation was not issued.
#[derive(Clone, Copy, Debug, PartialEq, Eq, Structural)]
pub enum PromptError {
    RouterNotRunning,
    OwnedRuntimeInvalid,
    OwnedRouterUnreachable,
    AdminCredentialInvalid,
    PermissionDenied,
    AssetsInvalid,
    AssetsMissing,
    ManifestMismatch,
    RouteTlsFailed,
    InvalidServerInfo,
    InvalidProfile,
    Route(RouteError),
    InvalidTicket,
    TicketTooLarge,
    AdminConnectionFailed,
    IssueUnconfirmed,
    ServerIdentityMismatch,
    Router(RouterErrorCode),
}

/// The code of an error, but for those of routes.
pub open spec fn prompt_error_text(error: PromptError) -> Option<Seq<char>> {
    match error {
        PromptError::RouterNotRunning => Some("router_not_running"@),
        PromptError::OwnedRuntimeInvalid => Some("owned_runtime_invalid"@),
        PromptError::OwnedRouterUnreachable => Some("owned_router_unreachable"@),
        PromptError::AdminCredentialInvalid => Some("admin_credential_invalid"@),
        PromptError::PermissionDenied => Some("permission_denied"@),
        PromptError::AssetsInvalid => Some("bootstrap_assets_invalid"@),
        PromptError::AssetsMissing => Some("bootstrap_assets_missing"@),
        PromptError::ManifestMismatch => Some("bootstrap_manifest_mismatch"@),
        PromptError::RouteTlsFailed => Some("route_tls_failed"@),
        PromptError::InvalidServerInfo => Some("invalid_server_info"@),
        PromptError::InvalidProfile => Some("invalid_profile"@),
        PromptError::Route(_) => None,
        PromptError::InvalidTicket => Some("invalid_ticket"@),
        PromptError::TicketTooLarge => Some("ticket_too_large"@),
        PromptError::AdminConnectionFailed => Some("admin_connection_failed"@),
        PromptError::IssueUnconfirmed => Some("invitation_issue_unconfirmed"@),
        PromptError::ServerIdentityMismatch => Some("server_identity_mismatch"@),
        PromptError::Router(code) => Some(code_text(code)),
    }
}

impl PromptError {
    /// The code of this error; an error of a route has the code of that error.
    pub fn code(self) -> (code: Option<&'static str>)
        ensures
            self is Route || (match code {
                Some(text) => Some(text@),
                None => None,
            }) == prompt_error_text(self),
            self matches PromptError::Route(RouteError::InvalidRoutes) ==> (code matches Some(text)
                && text@ == "route_invalid"@),
            self matches PromptError::Route(RouteError::KindRequired) ==> (code matches Some(text)
                && text@ == "route_kind_required"@),
    {
        match self {
            PromptError::RouterNotRunning => Some("router_not_running"),
            PromptError::OwnedRuntimeInvalid => Some("owned_runtime_invalid"),
            PromptError::OwnedRouterUnreachable => Some("owned_router_unreachable"),
            PromptError::AdminCredentialInvalid => Some("admin_credential_invalid"),
            PromptError::PermissionDenied => Some("permission_denied"),
            PromptError::AssetsInvalid => Some("bootstrap_assets_invalid"),
            PromptError::AssetsMissing => Some("bootstrap_assets_missing"),
            PromptError::ManifestMismatch => Some("bootstrap_manifest_mismatch"),
            PromptError::RouteTlsFailed => Some("route_tls_failed"),
            PromptError::InvalidServerInfo => Some("invalid_server_info"),
            PromptError::InvalidProfile => Some("invalid_profile"),
            PromptError::Route(error) => error.code(),
            PromptError::InvalidTicket => Some("invalid_ticket"),
            PromptError::TicketTooLarge => Some("ticket_too_large"),
            PromptError::AdminConnectionFailed => Some("admin_connection_failed"),
            PromptError::IssueUnconfirmed => Some("invitation_issue_unconfirmed"),
            PromptError::ServerIdentityMismatch => Some("server_identity_mismatch"),
            PromptError::Router(code) => Some(code.as_str()),
        }
    }
}

/// The administrator of the owned router: an operator of all workspaces.
pub open spec fn is_admin(credential: CredentialFile) -> bool {
    &&& credential.role is Operator
    &&& credential.subject@ == "admin"@
    &&& credential.workspaces@.len() == 0
}

/// What a server says of itself that speaks this protocol.
pub open spec fn info_ok(info: OnboardingInfo) -> bool {
    &&& info.version == VERSION
    &&& info.protocol_version == PROTOCOL_VERSION
    &&& info.server_id.value != 0
}

/// How much a server may say of itself.
pub const MAX_INFO_BYTES: usize = 16 * 1024;

/// What the server's answer to an HTTP request about itself amounts to: only a success
/// counts, and only if it is a description of a server that speaks this protocol.
pub open spec fn info_answer(status: u16, decoded: Option<OnboardingInfo>) -> Result<
    OnboardingInfo,
    PromptError,
> {
    if status != 200 {
        Err(PromptError::OwnedRouterUnreachable)
    } else {
        match decoded {
            Some(info) => if info_ok(info) {
                Ok(info)
            } else {
                Err(PromptError::InvalidServerInfo)
            },
            None => Err(PromptError::InvalidServerInfo),
        }
    }
}

/// The server's answer to an HTTP request about itself. `decoded` is nothing where the
/// answer is too long or describes no server.
pub fn accept_info(status: u16, decoded: Option<OnboardingInfo>) -> (info: Result<
    OnboardingInfo,
    PromptError,
>)
    ensures
        info == info_answer(status, decoded),
{
    if status != 200 {
        return Err(PromptError::OwnedRouterUnreachable);
    }
    match decoded {
        Some(info) => if info.version != VERSION || info.protocol_version != PROTOCOL_VERSION
            || info.server_id.is_nil() {
            Err(PromptError::InvalidServerInfo)
        } else {
            Ok(info)
        },
        None => Err(PromptError::InvalidServerInfo),
    }
}

/// The bootstrap assets that the router serves.
#[derive(Debug, PartialEq)]
pub struct BootstrapFacts {
    pub manifest_sha256: String,
    pub artifacts: Vec<BootstrapArtifact>,
}

/// What the router answered to a request for an invitation.
#[derive(PartialEq)]
pub enum InviteResponse {
    Issued(IssuedInvite),
    Refused(RouterErrorCode),
    Other,
}

/// What a ticket's prompt is rendered from, beside the ticket.
#[derive(PartialEq)]
pub struct PromptMaterial {
    pub verdicts: TicketVerdicts,
    /// The ticket's text.
    pub json: String,
    /// The addresses where the routers behind the ticket's routes tell of themselves.
    pub urls: Vec<InfoAddress>,
    /// The script with names between marks.
    pub template: String,
}

/// What keeps the prompt of a ticket from being rendered, if anything.
pub open spec fn material_fault(ticket: OnboardingTicket, material: PromptMaterial) -> Option<
    TicketError,
> {
    prompt_fault(
        ticket,
        material.verdicts,
        material.json@,
        material.urls@,
        material.template@,
    )
}

/// The prompt of a ticket.
pub open spec fn material_text(ticket: OnboardingTicket, material: PromptMaterial) -> Seq<char> {
    prompt_text(
        ticket,
        script_text(material.template@, ticket, material.json@, material.urls@)->0,
    )
}

fn render(ticket: &OnboardingTicket, material: &PromptMaterial) -> (prompt: Option<String>)
    ensures
        match prompt {
            Some(text) => material_fault(*ticket, *material) is None && text@ == material_text(
                *ticket,
                *material,
            ),
            None => material_fault(*ticket, *material) is Some,
        },
{
    match render_prompt(
        ticket,
        material.verdicts,
        material.json.as_str(),
        &material.urls,
        material.template.as_str(),
    ) {
        Ok(text) => Some(text),
        Err(_) => None,
    }
}

/// What happened outside.
#[derive(PartialEq)]
pub enum IssueEvent {
    Done,
    /// What was looked for does not exist.
    Missing,
    Failed,
    /// There is no address to ask at.
    Unaddressed,
    /// The certificates that are trusted could not be had.
    Untrusted,
    Runtime(Option<RuntimeRecord>),
    Admin(CredentialFile),
    Assets(Option<BootstrapFacts>),
    /// The status of the server's answer, and what it says of itself, nothing where that is
    /// too long or describes no server.
    Info(u16, Option<OnboardingInfo>),
    /// The verdict of the rules for profile names on the proposed one.
    ProfileVerdict(bool),
    Routes(Result<Vec<OnboardingRoute>, RouteError>),
    /// The ticket's text has so many bytes.
    Encoded(usize),
    /// What the ticket's prompt is rendered from.
    Material(PromptMaterial),
    Response(InviteResponse),
}

/// How far issuing an invitation has come; each phase names what it waits for.
#[derive(Clone, Copy, Debug, PartialEq, Eq, Structural)]
pub enum IssuePhase {
    Inspect,
    ReadRuntime,
    Probe,
    ReadAdmin,
    LoadAssets,
    AskInfo,
    JudgeProfile,
    PrepareRoutes,
    /// The ticket is written with stand-ins for what the router hands out.
    Encode,
    /// The prompt is rendered with those stand-ins.
    Rehearse,
    Connect,
    /// The router is asked for an invitation: from here on there is one.
    Issue,
    Render,
    Issued,
    Failed(PromptError),
}

/// The issuing of an invitation.
pub struct IssueMachine {
    options: PromptOptions,
    runtime: Option<RuntimeRecord>,
    assets: Option<BootstrapFacts>,
    server_id: Uuid,
    profile: Option<String>,
    ticket: Option<OnboardingTicket>,
    material: Option<PromptMaterial>,
    text: Option<String>,
    phase: IssuePhase,
}

impl IssueMachine {
    pub closed spec fn asked(self) -> PromptOptions {
        self.options
    }

    pub closed spec fn target(self) -> Option<RuntimeRecord> {
        self.runtime
    }

    pub closed spec fn bootstrap(self) -> Option<BootstrapFacts> {
        self.assets
    }

    pub closed spec fn server(self) -> Uuid {
        self.server_id
    }

    pub closed spec fn chosen_profile(self) -> Option<Seq<char>> {
        opt_text(self.profile)
    }

    pub closed spec fn draft(self) -> Option<OnboardingTicket> {
        self.ticket
    }

    /// What the prompt of the issued ticket was rendered from.
    pub closed spec fn rendered_from(self) -> Option<PromptMaterial> {
        self.material
    }

    /// The prompt of the issued ticket.
    pub closed spec fn rendered(self) -> Option<Seq<char>> {
        opt_text(self.text)
    }

    pub closed spec fn at(self) -> IssuePhase {
        self.phase
    }

    /// What a phase works on has been brought before, and a ticket that is issued has its
    /// prompt.
    pub open spec fn wf(self) -> bool {
        match self.at() {
            IssuePhase::Inspect | IssuePhase::ReadRuntime | IssuePhase::Failed(_) => true,
            IssuePhase::Probe | IssuePhase::ReadAdmin | IssuePhase::LoadAssets => self.target()
                is Some,
            IssuePhase::AskInfo => self.target() is Some && self.bootstrap() is Some,
            IssuePhase::JudgeProfile => self.target() is Some && self.bootstrap() is Some
                && self.server().value != 0,
            IssuePhase::PrepareRoutes => self.target() is Some && self.bootstrap() is Some
                && self.server().value != 0 && self.chosen_profile() is Some,
            IssuePhase::Issued => {
                &&& self.target() is Some
                &&& self.draft() is Some
                &&& self.rendered_from() is Some
                &&& material_fault(self.draft()->0, self.rendered_from()->0) is None
                &&& self.rendered() == Some(
                    material_text(self.draft()->0, self.rendered_from()->0),
                )
            },
            _ => self.target() is Some && self.draft() is Some,
        }
    }
}

/// The answer of the router fits the ticket that it was asked for.
pub open spec fn invite_fits(invite: IssuedInvite, ticket: OnboardingTicket) -> bool {
    &&& invite.server_id == ticket.server_id
    &&& invite.workspace@ == ticket.workspace@
    &&& invite.provider == ticket.provider
}

/// What becomes of the phase when something failed without a reason of its own.
pub open spec fn failure_of(phase: IssuePhase) -> PromptError {
    match phase {
        IssuePhase::Inspect | IssuePhase::ReadRuntime => PromptError::OwnedRuntimeInvalid,
        IssuePhase::Probe | IssuePhase::AskInfo => PromptError::OwnedRouterUnreachable,
        IssuePhase::ReadAdmin => PromptError::AdminCredentialInvalid,
        IssuePhase::LoadAssets => PromptError::AssetsInvalid,
        IssuePhase::JudgeProfile => PromptError::InvalidProfile,
        IssuePhase::Connect => PromptError::AdminConnectionFailed,
        IssuePhase::Issue => PromptError::IssueUnconfirmed,
        _ => PromptError::InvalidTicket,
    }
}

/// The phase that an event leads to. An event that the phase does not wait for changes
/// nothing.
pub open spec fn issue_next(m: IssueMachine, event: IssueEvent) -> IssuePhase {
    let phase = m.at();
    match (phase, event) {
        (IssuePhase::Issued, _) => phase,
        (IssuePhase::Failed(_), _) => phase,
        (_, IssueEvent::Failed) => IssuePhase::Failed(failure_of(phase)),
        (IssuePhase::AskInfo | IssuePhase::Connect, IssueEvent::Unaddressed) => IssuePhase::Failed(
            PromptError::OwnedRuntimeInvalid,
        ),
        (IssuePhase::AskInfo, IssueEvent::Untrusted) => IssuePhase::Failed(
            PromptError::RouteTlsFailed,
        ),
        (IssuePhase::Inspect, IssueEvent::Done) => IssuePhase::ReadRuntime,
        (IssuePhase::Inspect, IssueEvent::Missing) => IssuePhase::Failed(
            PromptError::RouterNotRunning,
        ),
        (IssuePhase::ReadRuntime, IssueEvent::Runtime(found)) => if found is Some {
            IssuePhase::Probe
        } else {
            IssuePhase::Failed(PromptError::RouterNotRunning)
        },
        (IssuePhase::Probe, IssueEvent::Done) => IssuePhase::ReadAdmin,
        (IssuePhase::ReadAdmin, IssueEvent::Admin(credential)) => if is_admin(credential) {
            IssuePhase::LoadAssets
        } else {
            IssuePhase::Failed(PromptError::PermissionDenied)
        },
        (IssuePhase::LoadAssets, IssueEvent::Assets(found)) => if found is Some {
            IssuePhase::AskInfo
        } else {
            IssuePhase::Failed(PromptError::AssetsMissing)
        },
        (IssuePhase::AskInfo, IssueEvent::Info(status, decoded)) => match info_answer(
            status,
            decoded,
        ) {
            Err(error) => IssuePhase::Failed(error),
            Ok(info) => if opt_text(info.manifest_sha256) != Some(
                m.bootstrap()->0.manifest_sha256@,
            ) {
                IssuePhase::Failed(PromptError::ManifestMismatch)
            } else {
                IssuePhase::JudgeProfile
            },
        },
        (IssuePhase::JudgeProfile, IssueEvent::ProfileVerdict(accepted)) => if accepted
            && proposed_profile(opt_text(m.asked().name), m.server()) != "local"@ {
            IssuePhase::PrepareRoutes
        } else {
            IssuePhase::Failed(PromptError::InvalidProfile)
        },
        (IssuePhase::PrepareRoutes, IssueEvent::Routes(Ok(_))) => IssuePhase::Encode,
        (IssuePhase::PrepareRoutes, IssueEvent::Routes(Err(error))) => IssuePhase::Failed(
            PromptError::Route(error),
        ),
        (IssuePhase::Encode, IssueEvent::Encoded(bytes)) => if bytes > MAX_TICKET_BYTES {
            IssuePhase::Failed(PromptError::TicketTooLarge)
        } else {
            IssuePhase::Rehearse
        },
        (IssuePhase::Rehearse, IssueEvent::Material(material)) => if material_fault(
            m.draft()->0,
            material,
        ) is None {
            IssuePhase::Connect
        } else {
            IssuePhase::Failed(PromptError::InvalidTicket)
        },
        (IssuePhase::Connect, IssueEvent::Done) => IssuePhase::Issue,
        (IssuePhase::Issue, IssueEvent::Response(response)) => match response {
            InviteResponse::Issued(invite) => if invite_fits(invite, m.draft()->0) {
                IssuePhase::Render
            } else {
                IssuePhase::Failed(PromptError::ServerIdentityMismatch)
            },
            InviteResponse::Refused(code) => IssuePhase::Failed(PromptError::Router(code)),
            InviteResponse::Other => IssuePhase::Failed(PromptError::ServerIdentityMismatch),
        },
        (IssuePhase::Render, IssueEvent::Material(material)) => if material_fault(
            m.draft()->0,
            material,
        ) is None {
            IssuePhase::Issued
        } else {
            IssuePhase::Failed(PromptError::InvalidTicket)
        },
        _ => phase,
    }
}

/// What the prompt of the issued ticket was rendered from, after an event.
pub open spec fn rendered_from_after(m: IssueMachine, event: IssueEvent) -> Option<
    PromptMaterial,
> {
    match (m.at(), event) {
        (IssuePhase::Render, IssueEvent::Material(material)) => if material_fault(
            m.draft()->0,
            material,
        ) is None {
            Some(material)
        } else {
            m.rendered_from()
        },
        _ => m.rendered_from(),
    }
}

/// The ticket with stand-ins of full width for what the router hands out.
pub open spec fn is_draft(m: IssueMachine, routes: Seq<OnboardingRoute>, ticket: OnboardingTicket) -> bool {
    &&& ticket.version == VERSION
    &&& ticket.server_id == m.server()
    &&& ticket.invite_id.value != 0
    &&& ticket.invite_token@ == Seq::new(43, |i: int| 'A')
    &&& ticket.expires_at == MAX_SAFE_INTEGER
    &&& Some(ticket.profile_name@) == m.chosen_profile()
    &&& ticket.workspace@ == m.asked().workspace@
    &&& ticket.provider == m.asked().provider
    &&& ticket.routes@ == routes
    &&& ticket.manifest_sha256@ == m.bootstrap()->0.manifest_sha256@
    &&& ticket.artifacts@ == m.bootstrap()->0.artifacts@
}

/// What an event makes of the ticket: it is drafted once the routes are known, and takes
/// its identifier, its secret and its expiry from the router.
pub open spec fn ticket_after(
    m: IssueMachine,
    event: IssueEvent,
    after: Option<OnboardingTicket>,
) -> bool {
    match (m.at(), event) {
        (IssuePhase::PrepareRoutes, IssueEvent::Routes(Ok(routes))) => after matches Some(ticket)
            && is_draft(m, routes@, ticket),
        (IssuePhase::Issue, IssueEvent::Response(InviteResponse::Issued(invite))) => {
            if invite_fits(invite, m.draft()->0) {
                after == Some(
                    OnboardingTicket {
                        invite_id: invite.invite_id,
                        invite_token: invite.invite_token,
                        expires_at: invite.expires_at,
                        ..m.draft()->0
                    },
                )
            } else {
                after == m.draft()
            }
        },
        _ => after == m.draft(),
    }
}

/// What an event makes of what was brought before.
pub open spec fn brought_after(m: IssueMachine, event: IssueEvent, after: IssueMachine) -> bool {
    &&& after.target() == (match (m.at(), event) {
        (IssuePhase::ReadRuntime, IssueEvent::Runtime(found)) => found,
        _ => m.target(),
    })
    &&& after.server() == (match (m.at(), event) {
        (IssuePhase::AskInfo, IssueEvent::Info(status, decoded)) => match info_answer(
            status,
            decoded,
        ) {
            Ok(info) => info.server_id,
            Err(_) => m.server(),
        },
        _ => m.server(),
    })
    &&& after.chosen_profile() == (match (m.at(), event) {
        (IssuePhase::JudgeProfile, IssueEvent::ProfileVerdict(_)) => if issue_next(
            m,
            event,
        ) is PrepareRoutes {
            Some(proposed_profile(opt_text(m.asked().name), m.server()))
        } else {
            m.chosen_profile()
        },
        _ => m.chosen_profile(),
    })
    &&& match (m.at(), event) {
        (IssuePhase::LoadAssets, IssueEvent::Assets(found)) => after.bootstrap() == found,
        (IssuePhase::PrepareRoutes, IssueEvent::Routes(Ok(_))) => after.bootstrap() is None,
        _ => after.bootstrap() == m.bootstrap(),
    }
}

fn stand_in_token() -> (token: String)
    ensures
        token@ == Seq::new(43, |i: int| 'A'),
{
    let mut token = String::new();
    let mut i: usize = 0;
    while i < 43
        invariant
            i <= 43,
            token@ =~= Seq::new(i as nat, |i: int| 'A'),
        decreases 43 - i,
    {
        token.append("A");
        proof {
            reveal_strlit("A");
        }
        assert(token@ =~= Seq::new((i + 1) as nat, |i: int| 'A'));
        i += 1;
    }
    token
}

fn check_admin(credential: &CredentialFile) -> (yes: bool)
    ensures
        yes == is_admin(*credential),
{
    matches!(credential.role, CredentialRole::Operator) && same_text(
        credential.subject.as_str(),
        "admin",
    ) && credential.workspaces.len() == 0
}

fn failure(phase: IssuePhase) -> (error: PromptError)
    ensures
        error == failure_of(phase),
{
    match phase {
        IssuePhase::Inspect | IssuePhase::ReadRuntime => PromptError::OwnedRuntimeInvalid,
        IssuePhase::Probe | IssuePhase::AskInfo => PromptError::OwnedRouterUnreachable,
        IssuePhase::ReadAdmin => PromptError::AdminCredentialInvalid,
        IssuePhase::LoadAssets => PromptError::AssetsInvalid,
        IssuePhase::JudgeProfile => PromptError::InvalidProfile,
        IssuePhase::Connect => PromptError::AdminConnectionFailed,
        IssuePhase::Issue => PromptError::IssueUnconfirmed,
        _ => PromptError::InvalidTicket,
    }
}

impl IssueMachine {
    pub fn new(options: PromptOptions) -> (machine: IssueMachine)
        ensures
            machine.wf(),
            machine.asked() == options,
            machine.at() is Inspect,
            machine.target() is None,
            machine.bootstrap() is None,
            machine.chosen_profile() is None,
            machine.draft() is None,
            machine.rendered_from() is None,
    {
        IssueMachine {
            options,
            runtime: None,
            assets: None,
            server_id: Uuid::nil(),
            profile: None,
            ticket: None,
            material: None,
            text: None,
            phase: IssuePhase::Inspect,
        }
    }

    pub fn phase(&self) -> (phase: IssuePhase)
        ensures
            phase == self.at(),
    {
        self.phase
    }

    pub fn options(&self) -> (options: &PromptOptions)
        ensures
            *options == self.asked(),
    {
        &self.options
    }

    pub fn runtime(&self) -> (runtime: Option<&RuntimeRecord>)
        ensures
            runtime == (match self.target() {
                Some(found) => Some(&found),
                None => None,
            }),
    {
        self.runtime.as_ref()
    }

    /// The server that issues, once it has said who it is.
    pub fn server_id(&self) -> (id: Uuid)
        ensures
            id == self.server(),
    {
        self.server_id
    }

    /// The bootstrap assets, until they are part of the ticket.
    pub fn assets(&self) -> (assets: Option<&BootstrapFacts>)
        ensures
            assets == (match self.bootstrap() {
                Some(found) => Some(&found),
                None => None,
            }),
    {
        self.assets.as_ref()
    }

    /// The ticket, once it is drafted.
    pub fn ticket(&self) -> (ticket: Option<&OnboardingTicket>)
        ensures
            ticket == (match self.draft() {
                Some(found) => Some(&found),
                None => None,
            }),
    {
        self.ticket.as_ref()
    }

    fn take_info(&mut self, status: u16, decoded: Option<OnboardingInfo>)
        requires
            old(self).wf(),
            old(self).at() is AskInfo,
        ensures
            final(self).wf(),
            final(self).asked() == old(self).asked(),
            final(self).at() == issue_next(*old(self), IssueEvent::Info(status, decoded)),
            ticket_after(*old(self), IssueEvent::Info(status, decoded), final(self).draft()),
            brought_after(*old(self), IssueEvent::Info(status, decoded), *final(self)),
            final(self).rendered_from() == old(self).rendered_from(),
    {
        match accept_info(status, decoded) {
            Err(error) => {
                self.phase = IssuePhase::Failed(error);
            },
            Ok(info) => {
                self.server_id = info.server_id;
                let matching = match &self.assets {
                    Some(assets) => holds_text(
                        &info.manifest_sha256,
                        assets.manifest_sha256.as_str(),
                    ),
                    None => false,
                };
                self.phase = if matching {
                    IssuePhase::JudgeProfile
                } else {
                    IssuePhase::Failed(PromptError::ManifestMismatch)
                };
            },
        }
    }

    fn take_verdict(&mut self, accepted: bool)
        requires
            old(self).wf(),
            old(self).at() is JudgeProfile,
        ensures
            final(self).wf(),
            final(self).asked() == old(self).asked(),
            final(self).at() == issue_next(*old(self), IssueEvent::ProfileVerdict(accepted)),
            ticket_after(*old(self), IssueEvent::ProfileVerdict(accepted), final(self).draft()),
            brought_after(*old(self), IssueEvent::ProfileVerdict(accepted), *final(self)),
            final(self).rendered_from() == old(self).rendered_from(),
    {
        let explicit = match &self.options.name {
            Some(name) => Some(name.as_str()),
            None => None,
        };
        match profile_name(explicit, self.server_id, accepted) {
            Ok(name) => {
                self.profile = Some(name);
                self.phase = IssuePhase::PrepareRoutes;
            },
            Err(_) => {
                self.phase = IssuePhase::Failed(PromptError::InvalidProfile);
            },
        }
    }

    fn take_routes(&mut self, routes: Vec<OnboardingRoute>)
        requires
            old(self).wf(),
            old(self).at() is PrepareRoutes,
        ensures
            final(self).wf(),
            final(self).asked() == old(self).asked(),
            final(self).at() == issue_next(*old(self), IssueEvent::Routes(Ok(routes))),
            ticket_after(*old(self), IssueEvent::Routes(Ok(routes)), final(self).draft()),
            brought_after(*old(self), IssueEvent::Routes(Ok(routes)), *final(self)),
            final(self).rendered_from() == old(self).rendered_from(),
    {
        if let Some(assets) = self.assets.take() {
            let profile_name = match &self.profile {
                Some(name) => name.clone(),
                None => String::new(),
            };
            self.ticket = Some(
                OnboardingTicket {
                    version: VERSION,
                    server_id: self.server_id,
                    invite_id: Uuid::fresh(),
                    invite_token: stand_in_token(),
                    expires_at: MAX_SAFE_INTEGER,
                    profile_name,
                    workspace: self.options.workspace.copy(),
                    provider: self.options.provider,
                    routes,
                    manifest_sha256: assets.manifest_sha256,
                    artifacts: assets.artifacts,
                },
            );
        }
        self.phase = IssuePhase::Encode;
    }

    fn take_response(&mut self, response: InviteResponse)
        requires
            old(self).wf(),
            old(self).at() is Issue,
        ensures
            final(self).wf(),
            final(self).asked() == old(self).asked(),
            final(self).at() == issue_next(*old(self), IssueEvent::Response(response)),
            ticket_after(*old(self), IssueEvent::Response(response), final(self).draft()),
            brought_after(*old(self), IssueEvent::Response(response), *final(self)),
            final(self).rendered_from() == old(self).rendered_from(),
    {
        match response {
            InviteResponse::Issued(invite) => {
                if let Some(ticket) = self.ticket.take() {
                    let mut ticket = ticket;
                    let provider = match (invite.provider, ticket.provider) {
                        (Some(a), Some(b)) => a == b,
                        (None, None) => true,
                        _ => false,
                    };
                    if invite.server_id == ticket.server_id && invite.workspace.same(
                        &ticket.workspace,
                    ) && provider {
                        ticket.invite_id = invite.invite_id;
                        ticket.invite_token = invite.invite_token;
                        ticket.expires_at = invite.expires_at;
                        self.phase = IssuePhase::Render;
                    } else {
                        self.phase = IssuePhase::Failed(PromptError::ServerIdentityMismatch);
                    }
                    self.ticket = Some(ticket);
                }
            },
            InviteResponse::Refused(code) => {
                self.phase = IssuePhase::Failed(PromptError::Router(code));
            },
            InviteResponse::Other => {
                self.phase = IssuePhase::Failed(PromptError::ServerIdentityMismatch);
            },
        }
    }

    fn take_material(&mut self, material: PromptMaterial)
        requires
            old(self).wf(),
            old(self).at() is Rehearse || old(self).at() is Render,
        ensures
            final(self).wf(),
            final(self).asked() == old(self).asked(),
            final(self).at() == issue_next(*old(self), IssueEvent::Material(material)),
            ticket_after(*old(self), IssueEvent::Material(material), final(self).draft()),
            brought_after(*old(self), IssueEvent::Material(material), *final(self)),
            final(self).rendered_from() == rendered_from_after(
                *old(self),
                IssueEvent::Material(material),
            ),
    {
        let rendered = match &self.ticket {
            Some(ticket) => render(ticket, &material),
            None => None,
        };
        match rendered {
            Some(text) => if let IssuePhase::Rehearse = self.phase {
                self.phase = IssuePhase::Connect;
            } else {
                self.material = Some(material);
                self.text = Some(text);
                self.phase = IssuePhase::Issued;
            },
            None => {
                self.phase = IssuePhase::Failed(PromptError::InvalidTicket);
            },
        }
    }

    /// Takes what happened and says what is waited for next.
    pub fn step(&mut self, event: IssueEvent) -> (phase: IssuePhase)
        requires
            old(self).wf(),
        ensures
            final(self).wf(),
            final(self).asked() == old(self).asked(),
            final(self).at() == issue_next(*old(self), event),
            ticket_after(*old(self), event, final(self).draft()),
            brought_after(*old(self), event, *final(self)),
            final(self).rendered_from() == rendered_from_after(*old(self), event),
            phase == final(self).at(),
    {
        match self.phase {
            IssuePhase::Issued => return self.phase,
            IssuePhase::Failed(_) => return self.phase,
            _ => {},
        }
        match event {
            IssueEvent::Failed => {
                self.phase = IssuePhase::Failed(failure(self.phase));
            },
            IssueEvent::Unaddressed => {
                match self.phase {
                    IssuePhase::AskInfo | IssuePhase::Connect => {
                        self.phase = IssuePhase::Failed(PromptError::OwnedRuntimeInvalid);
                    },
                    _ => {},
                }
            },
            IssueEvent::Untrusted => {
                if let IssuePhase::AskInfo = self.phase {
                    self.phase = IssuePhase::Failed(PromptError::RouteTlsFailed);
                }
            },
            IssueEvent::Done => {
                self.phase = match self.phase {
                    IssuePhase::Inspect => IssuePhase::ReadRuntime,
                    IssuePhase::Probe => IssuePhase::ReadAdmin,
                    IssuePhase::Connect => IssuePhase::Issue,
                    other => other,
                };
            },
            IssueEvent::Missing => {
                if let IssuePhase::Inspect = self.phase {
                    self.phase = IssuePhase::Failed(PromptError::RouterNotRunning);
                }
            },
            IssueEvent::Runtime(found) => {
                if let IssuePhase::ReadRuntime = self.phase {
                    self.phase = if found.is_some() {
                        IssuePhase::Probe
                    } else {
                        IssuePhase::Failed(PromptError::RouterNotRunning)
                    };
                    self.runtime = found;
                }
            },
            IssueEvent::Admin(credential) => {
                if let IssuePhase::ReadAdmin = self.phase {
                    self.phase = if check_admin(&credential) {
                        IssuePhase::LoadAssets
                    } else {
                        IssuePhase::Failed(PromptError::PermissionDenied)
                    };
                }
            },
            IssueEvent::Assets(found) => {
                if let IssuePhase::LoadAssets = self.phase {
                    self.phase = if found.is_some() {
                        IssuePhase::AskInfo
                    } else {
                        IssuePhase::Failed(PromptError::AssetsMissing)
                    };
                    self.assets = found;
                }
            },
            IssueEvent::Info(status, decoded) => {
                if let IssuePhase::AskInfo = self.phase {
                    self.take_info(status, decoded);
                }
            },
            IssueEvent::ProfileVerdict(accepted) => {
                if let IssuePhase::JudgeProfile = self.phase {
                    self.take_verdict(accepted);
                }
            },
            IssueEvent::Routes(routes) => {
                if let IssuePhase::PrepareRoutes = self.phase {
                    match routes {
                        Ok(routes) => self.take_routes(routes),
                        Err(error) => {
                            self.phase = IssuePhase::Failed(PromptError::Route(error));
                        },
                    }
                }
            },
            IssueEvent::Encoded(bytes) => {
                if let IssuePhase::Encode = self.phase {
                    self.phase = if bytes > MAX_TICKET_BYTES {
                        IssuePhase::Failed(PromptError::TicketTooLarge)
                    } else {
                        IssuePhase::Rehearse
                    };
                }
            },
            IssueEvent::Material(material) => {
                match self.phase {
                    IssuePhase::Rehearse | IssuePhase::Render => self.take_material(material),
                    _ => {},
                }
            },
            IssueEvent::Response(response) => {
                if let IssuePhase::Issue = self.phase {
                    self.take_response(response);
                }
            },
        }
        self.phase
    }

    /// The invitation that was issued, with its prompt.
    pub fn finish(self) -> (issued: Option<IssuedPrompt>)
        requires
            self.wf(),
        ensures
            (issued is Some) == (self.at() is Issued),
            issued matches Some(prompt) ==> {
                let ticket = self.draft()->0;
                let material = self.rendered_from()->0;
                &&& prompt.text@ == prompt_text(
                    ticket,
                    script_text(material.template@, ticket, material.json@, material.urls@)->0,
                )
                &&& prompt.invite_id == ticket.invite_id
                &&& prompt.expires_at == ticket.expires_at
                &&& prompt.workspace == ticket.workspace
                &&& prompt.provider == ticket.provider
            },
    {
        match (self.phase, self.ticket, self.text) {
            (IssuePhase::Issued, Some(ticket), Some(text)) => Some(
                IssuedPrompt {
                    text,
                    invite_id: ticket.invite_id,
                    expires_at: ticket.expires_at,
                    workspace: ticket.workspace,
                    provider: ticket.provider,
                },
            ),
            _ => None,
        }
    }
}

/// Nothing is asked of the router before the whole prompt was rehearsed: the router is
/// connected to only after the rehearsal, and asked for an invitation only after that.
pub proof fn issuing_follows_rehearsal(m: IssueMachine, event: IssueEvent)
    ensures
        issue_next(m, event) is Issue && !(m.at() is Issue) ==> m.at() is Connect && event is Done,
        issue_next(m, event) is Connect && !(m.at() is Connect) ==> m.at() is Rehearse && (
        event matches IssueEvent::Material(material) && material_fault(m.draft()->0, material)
            is None),
        issue_next(m, event) is Rehearse && !(m.at() is Rehearse) ==> m.at() is Encode,
{
}

/// What is issued is the prompt of the ticket that the router handed out: it is rendered
/// only once the router has answered, and nothing changes the ticket after that.
pub proof fn the_issued_ticket_is_rendered(m: IssueMachine, event: IssueEvent)
    ensures
        issue_next(m, event) is Issued && !(m.at() is Issued) ==> m.at() is Render && (
        event matches IssueEvent::Material(material) && material_fault(m.draft()->0, material)
            is None && rendered_from_after(m, event) == Some(material)),
        issue_next(m, event) is Render && !(m.at() is Render) ==> m.at() is Issue && (
        event matches IssueEvent::Response(InviteResponse::Issued(invite)) && invite_fits(
            invite,
            m.draft()->0,
        )),
        m.at() is Render || m.at() is Issued ==> forall|after: Option<OnboardingTicket>|
            ticket_after(m, event, after) ==> after == m.draft(),
{
}

/// Only the administrator's credential leads on.
pub proof fn issuing_needs_the_administrator(m: IssueMachine, event: IssueEvent)
    ensures
        issue_next(m, event) is LoadAssets && !(m.at() is LoadAssets) ==> (
        event matches IssueEvent::Admin(credential) && is_admin(credential)),
{
}

} // verus!
