//! Onboarding: the ticket that invites a provider, with the routes and artifacts that it
//! names.

pub mod bundle;
pub mod ca;
pub mod changes;
pub mod enroll;
pub mod host;
pub mod install;
pub mod invite_laws;
pub mod issue;
pub mod journal;
pub mod journal_laws;
pub mod laws;
pub mod layout_laws;
pub mod prompt;
pub mod providers;
pub mod record_laws;
pub mod registry;
pub mod routes;
pub mod setup;
pub mod setup_laws;

pub use ca::{validate_ca_pem, MAX_CA_BYTES};
use vstd::prelude::*;
use vstd::string::*;

use crate::digest::sha256_text;
use crate::ids::{simple_text, uuid_simple_text, Uuid};
use crate::net::{parse_url, parsed_url, Host, HostModel, UrlModel, UrlParts};
use crate::onboarding::ca::ca_bundle;
use crate::protocol::{AgentClient, AgentSide, WorkspaceName};
use crate::text::{
    chars_of, concat, concat3, copy_option, eq_ignoring_case, kebab, kebab_case, opt_text,
    same_ignoring_case, same_option, same_text,
};

verus! {

pub const VERSION: u8 = 1;

/// How long an invitation can be used.
pub const INVITE_LIFETIME_MS: i64 = 600_000;

pub const MAX_TICKET_BYTES: usize = 131_072;

pub const MAX_ENROLLMENT_BYTES: usize = 4_096;

/// The largest artifact.
pub const MAX_ARTIFACT_BYTES: u64 = 536_870_912;

/// The targets that artifacts are built for.
pub const TARGETS: [&'static str; 4] = [
    "aarch64-apple-darwin",
    "x86_64-apple-darwin",
    "aarch64-unknown-linux-gnu",
    "x86_64-unknown-linux-gnu",
];

/// The target at a place of the list.
pub open spec fn target_text(i: int) -> Seq<char> {
    if i == 0 {
        "aarch64-apple-darwin"@
    } else if i == 1 {
        "x86_64-apple-darwin"@
    } else if i == 2 {
        "aarch64-unknown-linux-gnu"@
    } else {
        "x86_64-unknown-linux-gnu"@
    }
}

/// A target that artifacts are built for.
pub open spec fn supported_target(target: Seq<char>) -> bool {
    exists|i: int| 0 <= i < 4 && target == #[trigger] target_text(i)
}

#[derive(Clone, Copy, Debug, PartialEq, Eq, Structural)]
pub enum OnboardingProvider {
    ClaudeCode,
    CodexCli,
    Omp,
}

/// The name of a provider.
pub open spec fn provider_text(provider: OnboardingProvider) -> Seq<char> {
    match provider {
        OnboardingProvider::ClaudeCode => kebab_case("claude_code"@),
        OnboardingProvider::CodexCli => kebab_case("codex_cli"@),
        OnboardingProvider::Omp => "omp"@,
    }
}

/// The side and client that sessions of a provider register as.
pub open spec fn provider_identity(provider: OnboardingProvider) -> (AgentSide, AgentClient) {
    match provider {
        OnboardingProvider::ClaudeCode => (AgentSide::Claude, AgentClient::ClaudeCode),
        OnboardingProvider::CodexCli => (AgentSide::Codex, AgentClient::CodexCli),
        OnboardingProvider::Omp => (AgentSide::Generic, AgentClient::Omp),
    }
}

impl OnboardingProvider {
    pub fn as_str(self) -> (text: String)
        ensures
            text@ == provider_text(self),
    {
        match self {
            OnboardingProvider::ClaudeCode => kebab("claude_code"),
            OnboardingProvider::CodexCli => kebab("codex_cli"),
            OnboardingProvider::Omp => "omp".to_owned(),
        }
    }

    pub fn identity(self) -> (identity: (AgentSide, AgentClient))
        ensures
            identity == provider_identity(self),
    {
        match self {
            OnboardingProvider::ClaudeCode => (AgentSide::Claude, AgentClient::ClaudeCode),
            OnboardingProvider::CodexCli => (AgentSide::Codex, AgentClient::CodexCli),
            OnboardingProvider::Omp => (AgentSide::Generic, AgentClient::Omp),
        }
    }
}

/// Every provider registers as a client that its side has.
pub proof fn identities_are_consistent(provider: OnboardingProvider)
    ensures
        crate::protocol::client_of_side(
            provider_identity(provider).0,
            provider_identity(provider).1,
        ),
{
}

/// How a route reaches the router.
#[derive(Clone, Copy, Debug, PartialEq, Eq, Structural)]
pub enum RouteKind {
    Tailnet,
    Lan,
    Public,
    Local,
}

#[derive(Debug, PartialEq)]
pub struct OnboardingRoute {
    pub kind: RouteKind,
    pub router_url: String,
    pub ca_pem: Option<String>,
}

#[derive(Debug, PartialEq)]
pub struct BootstrapArtifact {
    pub target: String,
    pub binary_file: String,
    pub binary_sha256: String,
    pub archive_file: String,
    pub archive_sha256: String,
    pub binary_bytes: u64,
    pub archive_bytes: u64,
}

#[derive(Debug, PartialEq)]
pub struct BootstrapManifest {
    pub version: u8,
    pub asr_version: String,
    pub artifacts: Vec<BootstrapArtifact>,
}

#[derive(Debug, PartialEq)]
pub struct OnboardingInfo {
    pub version: u8,
    pub server_id: Uuid,
    pub protocol_version: u8,
    pub manifest_sha256: Option<String>,
    pub available_targets: Vec<String>,
}

/// An invitation: who issued it, what it permits and how the router is reached.
#[derive(PartialEq)]
pub struct OnboardingTicket {
    pub version: u8,
    pub server_id: Uuid,
    pub invite_id: Uuid,
    pub invite_token: String,
    pub expires_at: i64,
    pub profile_name: String,
    pub workspace: WorkspaceName,
    pub provider: Option<OnboardingProvider>,
    pub routes: Vec<OnboardingRoute>,
    pub manifest_sha256: String,
    pub artifacts: Vec<BootstrapArtifact>,
}

#[derive(PartialEq)]
pub struct EnrollmentRequest {
    pub version: u8,
    pub server_id: Uuid,
    pub invite_id: Uuid,
    pub invite_token: String,
    pub enrollment_id: Uuid,
    pub provider: OnboardingProvider,
    pub credential_id: Uuid,
    pub credential_token: String,
}

#[derive(Debug, PartialEq)]
pub struct EnrollmentResponse {
    pub version: u8,
    pub server_id: Uuid,
    pub invite_id: Uuid,
    pub claims: crate::credentials::PublicCredentialClaims,
}

#[derive(PartialEq)]
pub struct IssuedInvite {
    pub server_id: Uuid,
    pub invite_id: Uuid,
    pub invite_token: String,
    pub expires_at: i64,
    pub workspace: WorkspaceName,
    pub provider: Option<OnboardingProvider>,
}

#[derive(Clone, Copy, Debug, PartialEq, Eq, Structural)]
pub enum EnrollmentError {
    Malformed,
    InviteUnavailable,
    Unavailable,
}

impl EnrollmentError {
    /// The text of this error.
    pub fn as_str(self) -> (text: &'static str)
        ensures
            text@ == (match self {
                EnrollmentError::Malformed => "malformed_request"@,
                EnrollmentError::InviteUnavailable => "invite_unavailable"@,
                EnrollmentError::Unavailable => "service_unavailable"@,
            }),
    {
        match self {
            EnrollmentError::Malformed => "malformed_request",
            EnrollmentError::InviteUnavailable => "invite_unavailable",
            EnrollmentError::Unavailable => "service_unavailable",
        }
    }
}

#[derive(Clone, Copy, Debug, PartialEq, Eq, Structural)]
pub enum TicketError {
    Invalid,
    UnsupportedTarget,
    InvalidRoute,
    InvalidCa,
}

impl TicketError {
    /// The text of this error.
    pub fn as_str(self) -> (text: &'static str)
        ensures
            text@ == (match self {
                TicketError::Invalid => "invalid_ticket"@,
                TicketError::UnsupportedTarget => "unsupported_target"@,
                TicketError::InvalidRoute => "invalid_route"@,
                TicketError::InvalidCa => "invalid_ca"@,
            }),
    {
        match self {
            TicketError::Invalid => "invalid_ticket",
            TicketError::UnsupportedTarget => "unsupported_target",
            TicketError::InvalidRoute => "invalid_route",
            TicketError::InvalidCa => "invalid_ca",
        }
    }
}

/// Whether a text is that of a SHA-256 digest.
pub fn valid_sha256(value: &str) -> (yes: bool)
    ensures
        yes == sha256_text(value@),
{
    let chars = chars_of(value);
    if chars.len() != 64 {
        return false;
    }
    let mut i: usize = 0;
    while i < chars.len()
        invariant
            i <= chars.len() == 64,
            chars@ == value@,
            forall|j: int| 0 <= j < i ==> crate::text::lower_hex(#[trigger] value@[j]),
        decreases chars.len() - i,
    {
        let c = chars[i];
        if !(('0' <= c && c <= '9') || ('a' <= c && c <= 'f')) {
            assert(!crate::text::lower_hex(value@[i as int]));
            return false;
        }
        i += 1;
    }
    true
}

/// What is wrong with the artifact at a place of a list, if anything.
pub open spec fn artifact_fault(artifacts: Seq<BootstrapArtifact>, i: int) -> Option<TicketError> {
    let artifact = artifacts[i];
    if !supported_target(artifact.target@) {
        Some(TicketError::UnsupportedTarget)
    } else if (exists|j: int| 0 <= j < i && (#[trigger] artifacts[j]).target@ == artifact.target@)
        || artifact.binary_file@ != "asr-"@ + artifact.target@ || artifact.archive_file@
        != "agent-session-router-"@ + artifact.target@ + ".tar.gz"@ || !sha256_text(
        artifact.binary_sha256@,
    ) || !sha256_text(artifact.archive_sha256@) || !(1 <= artifact.binary_bytes
        <= MAX_ARTIFACT_BYTES) || !(1 <= artifact.archive_bytes <= MAX_ARTIFACT_BYTES) {
        Some(TicketError::Invalid)
    } else {
        None
    }
}

/// What is wrong with the first `n` artifacts of a list, if anything.
pub open spec fn artifacts_fault_before(artifacts: Seq<BootstrapArtifact>, n: int) -> Option<
    TicketError,
>
    decreases n,
{
    if n <= 0 {
        None
    } else {
        match artifacts_fault_before(artifacts, n - 1) {
            Some(fault) => Some(fault),
            None => artifact_fault(artifacts, n - 1),
        }
    }
}

/// What is wrong with a list of artifacts, if anything: the first fault counts.
pub open spec fn artifacts_fault(artifacts: Seq<BootstrapArtifact>) -> Option<TicketError> {
    if !(1 <= artifacts.len() <= 4) {
        Some(TicketError::Invalid)
    } else {
        artifacts_fault_before(artifacts, artifacts.len() as int)
    }
}

/// A fault stays the first one.
proof fn artifacts_fault_stays(artifacts: Seq<BootstrapArtifact>, n: int, m: int)
    requires
        0 <= n <= m,
        artifacts_fault_before(artifacts, n) is Some,
    ensures
        artifacts_fault_before(artifacts, m) == artifacts_fault_before(artifacts, n),
    decreases m - n,
{
    if n < m {
        artifacts_fault_stays(artifacts, n, m - 1);
    }
}

/// Without a fault in the list of artifacts there is none at any place.
pub proof fn no_artifact_fault(artifacts: Seq<BootstrapArtifact>, n: int, i: int)
    requires
        0 <= i < n,
        artifacts_fault_before(artifacts, n) is None,
    ensures
        artifact_fault(artifacts, i) is None,
    decreases n,
{
    if i < n - 1 {
        no_artifact_fault(artifacts, n - 1, i);
    }
}

fn is_supported_target(target: &str) -> (yes: bool)
    ensures
        yes == supported_target(target@),
{
    let a = same_text(target, "aarch64-apple-darwin");
    let b = same_text(target, "x86_64-apple-darwin");
    let c = same_text(target, "aarch64-unknown-linux-gnu");
    let d = same_text(target, "x86_64-unknown-linux-gnu");
    proof {
        assert(a == (target@ == target_text(0)));
        assert(b == (target@ == target_text(1)));
        assert(c == (target@ == target_text(2)));
        assert(d == (target@ == target_text(3)));
    }
    a || b || c || d
}

fn named_before(artifacts: &Vec<BootstrapArtifact>, i: usize) -> (yes: bool)
    requires
        i < artifacts@.len(),
    ensures
        yes == exists|j: int|
            0 <= j < i && (#[trigger] artifacts@[j]).target@ == artifacts@[i as int].target@,
{
    let mut j: usize = 0;
    while j < i
        invariant
            j <= i < artifacts@.len(),
            forall|k: int|
                0 <= k < j ==> (#[trigger] artifacts@[k]).target@ != artifacts@[i as int].target@,
        decreases i - j,
    {
        if same_text(artifacts[j].target.as_str(), artifacts[i].target.as_str()) {
            return true;
        }
        j += 1;
    }
    false
}

/// Refuses a list of artifacts that a ticket may not name.
pub fn validate_artifacts(artifacts: &Vec<BootstrapArtifact>) -> (verdict: Result<(), TicketError>)
    ensures
        verdict == (match artifacts_fault(artifacts@) {
            Some(fault) => Err::<(), TicketError>(fault),
            None => Ok(()),
        }),
{
    if artifacts.len() == 0 || artifacts.len() > 4 {
        return Err(TicketError::Invalid);
    }
    let mut i: usize = 0;
    while i < artifacts.len()
        invariant
            i <= artifacts@.len(),
            1 <= artifacts@.len() <= 4,
            artifacts_fault_before(artifacts@, i as int) is None,
        decreases artifacts.len() - i,
    {
        let artifact = &artifacts[i];
        proof {
            if artifact_fault(artifacts@, i as int) is Some {
                artifacts_fault_stays(artifacts@, i + 1, artifacts@.len() as int);
            }
        }
        if !is_supported_target(artifact.target.as_str()) {
            return Err(TicketError::UnsupportedTarget);
        }
        let binary = concat("asr-", artifact.target.as_str());
        let archive = concat3("agent-session-router-", artifact.target.as_str(), ".tar.gz");
        if named_before(artifacts, i) || !same_text(artifact.binary_file.as_str(), binary.as_str())
            || !same_text(artifact.archive_file.as_str(), archive.as_str()) || !valid_sha256(
            artifact.binary_sha256.as_str(),
        ) || !valid_sha256(artifact.archive_sha256.as_str()) || artifact.binary_bytes == 0
            || artifact.binary_bytes > MAX_ARTIFACT_BYTES || artifact.archive_bytes == 0
            || artifact.archive_bytes > MAX_ARTIFACT_BYTES {
            return Err(TicketError::Invalid);
        }
        i += 1;
    }
    Ok(())
}

/// The host is the machine itself.
pub open spec fn loopback_host(host: HostModel) -> bool {
    match host {
        HostModel::Ipv4(ip) => ip.loopback(),
        HostModel::Ipv6(ip) => ip.loopback(),
        HostModel::Domain(name) => same_ignoring_case(name, "localhost"@),
    }
}

/// No router can be reached at the host.
pub open spec fn unusable_host(host: HostModel) -> bool {
    match host {
        HostModel::Ipv4(ip) => ip.unusable(),
        HostModel::Ipv6(ip) => ip.unusable(),
        HostModel::Domain(_) => false,
    }
}

/// A URL that names the router's endpoint and nothing else.
pub open spec fn plain_endpoint(url: UrlModel) -> bool {
    &&& url.path == "/ws"@
    &&& url.username.len() == 0
    &&& url.password is None
    &&& url.query is None
    &&& url.fragment is None
}

/// The URL fits a kind of route. Only a tailnet and the machine itself may be reached
/// without TLS.
pub open spec fn route_url_ok(kind: RouteKind, url: UrlModel) -> bool {
    &&& plain_endpoint(url)
    &&& url.host matches Some(host) && !unusable_host(host) && match kind {
        RouteKind::Local => loopback_host(host) && (url.scheme == "ws"@ || url.scheme == "wss"@),
        RouteKind::Lan => !loopback_host(host) && url.scheme == "wss"@,
        RouteKind::Public => !loopback_host(host) && url.scheme == "wss"@,
        RouteKind::Tailnet => url.scheme == "ws"@ && (host matches HostModel::Ipv4(ip)
            && ip.tailscale()),
    }
}

/// What is wrong with a route's certificate bundle, if anything.
pub open spec fn route_ca_fault(ca: Option<Seq<char>>, url: UrlModel) -> Option<TicketError> {
    match ca {
        Some(pem) => if url.scheme != "wss"@ || !ca_bundle(pem) {
            Some(TicketError::InvalidCa)
        } else {
            None
        },
        None => None,
    }
}

/// What is wrong with the route at a place of a list, if anything. No kind stands twice,
/// and a local route stands alone.
pub open spec fn route_fault(routes: Seq<OnboardingRoute>, i: int) -> Option<TicketError> {
    let route = routes[i];
    if (exists|j: int| 0 <= j < i && (#[trigger] routes[j]).kind == route.kind) || (
    route.kind is Local && routes.len() != 1) {
        Some(TicketError::InvalidRoute)
    } else {
        match parsed_url(route.router_url@) {
            None => Some(TicketError::InvalidRoute),
            Some(url) => if !route_url_ok(route.kind, url) {
                Some(TicketError::InvalidRoute)
            } else {
                route_ca_fault(opt_text(route.ca_pem), url)
            },
        }
    }
}

/// What is wrong with the first `n` routes of a list, if anything.
pub open spec fn routes_fault_before(routes: Seq<OnboardingRoute>, n: int) -> Option<TicketError>
    decreases n,
{
    if n <= 0 {
        None
    } else {
        match routes_fault_before(routes, n - 1) {
            Some(fault) => Some(fault),
            None => route_fault(routes, n - 1),
        }
    }
}

/// What is wrong with a list of routes, if anything: the first fault counts.
pub open spec fn routes_fault(routes: Seq<OnboardingRoute>) -> Option<TicketError> {
    if !(1 <= routes.len() <= 4) {
        Some(TicketError::InvalidRoute)
    } else {
        routes_fault_before(routes, routes.len() as int)
    }
}

/// A fault stays the first one.
proof fn routes_fault_stays(routes: Seq<OnboardingRoute>, n: int, m: int)
    requires
        0 <= n <= m,
        routes_fault_before(routes, n) is Some,
    ensures
        routes_fault_before(routes, m) == routes_fault_before(routes, n),
    decreases m - n,
{
    if n < m {
        routes_fault_stays(routes, n, m - 1);
    }
}

/// Without a fault in the list there is none at any place.
pub proof fn no_route_fault(routes: Seq<OnboardingRoute>, n: int, i: int)
    requires
        0 <= i < n,
        routes_fault_before(routes, n) is None,
    ensures
        route_fault(routes, i) is None,
    decreases n,
{
    if i < n - 1 {
        no_route_fault(routes, n - 1, i);
    }
}

fn kind_before(routes: &Vec<OnboardingRoute>, i: usize) -> (yes: bool)
    requires
        i < routes@.len(),
    ensures
        yes == exists|j: int|
            0 <= j < i && (#[trigger] routes@[j]).kind == routes@[i as int].kind,
{
    let mut j: usize = 0;
    while j < i
        invariant
            j <= i < routes@.len(),
            forall|k: int| 0 <= k < j ==> (#[trigger] routes@[k]).kind != routes@[i as int].kind,
        decreases i - j,
    {
        if routes[j].kind == routes[i].kind {
            return true;
        }
        j += 1;
    }
    false
}

fn is_loopback_host(host: &Host) -> (yes: bool)
    ensures
        yes == loopback_host(host.model()),
{
    match host {
        Host::Ipv4(ip) => ip.is_loopback(),
        Host::Ipv6(ip) => ip.is_loopback(),
        Host::Domain(name) => eq_ignoring_case(name.as_str(), "localhost"),
    }
}

fn is_unusable_host(host: &Host) -> (yes: bool)
    ensures
        yes == unusable_host(host.model()),
{
    match host {
        Host::Ipv4(ip) => ip.is_unusable(),
        Host::Ipv6(ip) => ip.is_unusable(),
        Host::Domain(_) => false,
    }
}

pub(crate) fn is_plain_endpoint(url: &UrlParts) -> (yes: bool)
    ensures
        yes == plain_endpoint(url.model()),
{
    same_text(url.path.as_str(), "/ws") && url.username.as_str().is_empty()
        && url.password.is_none() && url.query.is_none() && url.fragment.is_none()
}

/// Whether a URL fits a kind of route.
pub fn check_route_url(kind: RouteKind, url: &UrlParts) -> (yes: bool)
    ensures
        yes == route_url_ok(kind, url.model()),
{
    if !is_plain_endpoint(url) {
        return false;
    }
    let host = match &url.host {
        Some(host) => host,
        None => return false,
    };
    if is_unusable_host(host) {
        return false;
    }
    let loopback = is_loopback_host(host);
    let plain = same_text(url.scheme.as_str(), "ws");
    let secure = same_text(url.scheme.as_str(), "wss");
    match kind {
        RouteKind::Local => loopback && (plain || secure),
        RouteKind::Lan | RouteKind::Public => !loopback && secure,
        RouteKind::Tailnet => plain && match host {
            Host::Ipv4(ip) => ip.is_tailscale(),
            _ => false,
        },
    }
}

fn check_route_ca(ca: &Option<String>, url: &UrlParts) -> (verdict: Result<(), TicketError>)
    ensures
        verdict == (match route_ca_fault(opt_text(*ca), url.model()) {
            Some(fault) => Err::<(), TicketError>(fault),
            None => Ok(()),
        }),
{
    match ca {
        Some(pem) => if !same_text(url.scheme.as_str(), "wss") {
            Err(TicketError::InvalidCa)
        } else {
            validate_ca_pem(pem.as_str())
        },
        None => Ok(()),
    }
}

/// Refuses a list of routes that a ticket may not name.
pub fn validate_routes(routes: &Vec<OnboardingRoute>) -> (verdict: Result<(), TicketError>)
    ensures
        verdict == (match routes_fault(routes@) {
            Some(fault) => Err::<(), TicketError>(fault),
            None => Ok(()),
        }),
{
    if routes.len() == 0 || routes.len() > 4 {
        return Err(TicketError::InvalidRoute);
    }
    let mut i: usize = 0;
    while i < routes.len()
        invariant
            i <= routes@.len(),
            1 <= routes@.len() <= 4,
            routes_fault_before(routes@, i as int) is None,
        decreases routes.len() - i,
    {
        let route = &routes[i];
        proof {
            if route_fault(routes@, i as int) is Some {
                routes_fault_stays(routes@, i + 1, routes@.len() as int);
            }
        }
        if kind_before(routes, i) || (route.kind == RouteKind::Local && routes.len() != 1) {
            return Err(TicketError::InvalidRoute);
        }
        let url = match parse_url(route.router_url.as_str()) {
            Some(url) => url,
            None => return Err(TicketError::InvalidRoute),
        };
        if !check_route_url(route.kind, &url) {
            return Err(TicketError::InvalidRoute);
        }
        if let Err(fault) = check_route_ca(&route.ca_pem, &url) {
            return Err(fault);
        }
        i += 1;
    }
    Ok(())
}

/// The verdicts on a ticket of the rules for profile names and for secret tokens.
#[derive(Clone, Copy, Debug, PartialEq, Eq, Structural)]
pub struct TicketVerdicts {
    pub profile_name: bool,
    pub invite_token: bool,
}

/// What is wrong with a ticket, if anything.
pub open spec fn ticket_fault(ticket: OnboardingTicket, verdicts: TicketVerdicts) -> Option<
    TicketError,
> {
    if ticket.version != VERSION || ticket.server_id.value == 0 || ticket.invite_id.value == 0
        || ticket.expires_at <= 0 || ticket.profile_name@ == "local"@ || !verdicts.profile_name
        || !sha256_text(ticket.manifest_sha256@) || !verdicts.invite_token {
        Some(TicketError::Invalid)
    } else {
        match routes_fault(ticket.routes@) {
            Some(fault) => Some(fault),
            None => artifacts_fault(ticket.artifacts@),
        }
    }
}

impl OnboardingTicket {
    /// The ticket of a ticket file. `decoded` is what decoding the bytes gave, nothing
    /// where they do not make a ticket.
    pub fn parse(
        bytes: &[u8],
        decoded: Option<OnboardingTicket>,
        verdicts: TicketVerdicts,
    ) -> (ticket: Result<OnboardingTicket, TicketError>)
        ensures
            ticket == (if bytes@.len() > MAX_TICKET_BYTES {
                Err::<OnboardingTicket, TicketError>(TicketError::Invalid)
            } else {
                match decoded {
                    None => Err(TicketError::Invalid),
                    Some(ticket) => match ticket_fault(ticket, verdicts) {
                        Some(fault) => Err(fault),
                        None => Ok(ticket),
                    },
                }
            }),
    {
        if bytes.len() > MAX_TICKET_BYTES {
            return Err(TicketError::Invalid);
        }
        match decoded {
            Some(ticket) => match ticket.validate(verdicts) {
                Ok(()) => Ok(ticket),
                Err(fault) => Err(fault),
            },
            None => Err(TicketError::Invalid),
        }
    }

    /// Refuses a ticket that cannot be used.
    pub fn validate(&self, verdicts: TicketVerdicts) -> (verdict: Result<(), TicketError>)
        ensures
            verdict == (match ticket_fault(*self, verdicts) {
                Some(fault) => Err::<(), TicketError>(fault),
                None => Ok(()),
            }),
    {
        if self.version != VERSION || self.server_id.is_nil() || self.invite_id.is_nil()
            || self.expires_at <= 0 || same_text(self.profile_name.as_str(), "local")
            || !verdicts.profile_name || !valid_sha256(self.manifest_sha256.as_str())
            || !verdicts.invite_token {
            return Err(TicketError::Invalid);
        }
        match validate_routes(&self.routes) {
            Ok(()) => validate_artifacts(&self.artifacts),
            Err(fault) => Err(fault),
        }
    }
}

impl OnboardingRoute {
    /// Whether two routes are the same.
    pub open spec fn same(self, other: OnboardingRoute) -> bool {
        &&& self.kind == other.kind
        &&& self.router_url@ == other.router_url@
        &&& opt_text(self.ca_pem) == opt_text(other.ca_pem)
    }

    /// Whether two routes are the same.
    pub fn equals(&self, other: &OnboardingRoute) -> (same: bool)
        ensures
            same == self.same(*other),
    {
        self.kind == other.kind && same_text(self.router_url.as_str(), other.router_url.as_str())
            && same_option(&self.ca_pem, &other.ca_pem)
    }

    /// Another copy of this route.
    pub fn copy(&self) -> (copy: OnboardingRoute)
        ensures
            copy.same(*self),
    {
        OnboardingRoute {
            kind: self.kind,
            router_url: self.router_url.as_str().to_owned(),
            ca_pem: copy_option(&self.ca_pem),
        }
    }
}

impl BootstrapArtifact {
    /// Whether two artifacts are the same.
    pub open spec fn same(self, other: BootstrapArtifact) -> bool {
        &&& self.target@ == other.target@
        &&& self.binary_file@ == other.binary_file@
        &&& self.binary_sha256@ == other.binary_sha256@
        &&& self.archive_file@ == other.archive_file@
        &&& self.archive_sha256@ == other.archive_sha256@
        &&& self.binary_bytes == other.binary_bytes
        &&& self.archive_bytes == other.archive_bytes
    }

    /// Whether two artifacts are the same.
    pub fn equals(&self, other: &BootstrapArtifact) -> (same: bool)
        ensures
            same == self.same(*other),
    {
        same_text(self.target.as_str(), other.target.as_str()) && same_text(
            self.binary_file.as_str(),
            other.binary_file.as_str(),
        ) && same_text(self.binary_sha256.as_str(), other.binary_sha256.as_str()) && same_text(
            self.archive_file.as_str(),
            other.archive_file.as_str(),
        ) && same_text(self.archive_sha256.as_str(), other.archive_sha256.as_str())
            && self.binary_bytes == other.binary_bytes && self.archive_bytes == other.archive_bytes
    }

    /// Another copy of this artifact.
    pub fn copy(&self) -> (copy: BootstrapArtifact)
        ensures
            copy.same(*self),
    {
        BootstrapArtifact {
            target: self.target.as_str().to_owned(),
            binary_file: self.binary_file.as_str().to_owned(),
            binary_sha256: self.binary_sha256.as_str().to_owned(),
            archive_file: self.archive_file.as_str().to_owned(),
            archive_sha256: self.archive_sha256.as_str().to_owned(),
            binary_bytes: self.binary_bytes,
            archive_bytes: self.archive_bytes,
        }
    }
}

/// Whether two lists of routes are the same.
pub open spec fn same_routes(a: Seq<OnboardingRoute>, b: Seq<OnboardingRoute>) -> bool {
    a.len() == b.len() && forall|i: int| 0 <= i < a.len() ==> (#[trigger] a[i]).same(b[i])
}

/// Whether two lists of artifacts are the same.
pub open spec fn same_artifacts(a: Seq<BootstrapArtifact>, b: Seq<BootstrapArtifact>) -> bool {
    a.len() == b.len() && forall|i: int| 0 <= i < a.len() ==> (#[trigger] a[i]).same(b[i])
}

fn equal_routes(a: &Vec<OnboardingRoute>, b: &Vec<OnboardingRoute>) -> (same: bool)
    ensures
        same == same_routes(a@, b@),
{
    if a.len() != b.len() {
        return false;
    }
    let mut i: usize = 0;
    while i < a.len()
        invariant
            i <= a@.len() == b@.len(),
            forall|j: int| 0 <= j < i ==> (#[trigger] a@[j]).same(b@[j]),
        decreases a.len() - i,
    {
        if !a[i].equals(&b[i]) {
            assert(!a@[i as int].same(b@[i as int]));
            return false;
        }
        i += 1;
    }
    true
}

fn equal_artifacts(a: &Vec<BootstrapArtifact>, b: &Vec<BootstrapArtifact>) -> (same: bool)
    ensures
        same == same_artifacts(a@, b@),
{
    if a.len() != b.len() {
        return false;
    }
    let mut i: usize = 0;
    while i < a.len()
        invariant
            i <= a@.len() == b@.len(),
            forall|j: int| 0 <= j < i ==> (#[trigger] a@[j]).same(b@[j]),
        decreases a.len() - i,
    {
        if !a[i].equals(&b[i]) {
            assert(!a@[i as int].same(b@[i as int]));
            return false;
        }
        i += 1;
    }
    true
}

fn copy_routes(list: &Vec<OnboardingRoute>) -> (copy: Vec<OnboardingRoute>)
    ensures
        same_routes(copy@, list@),
{
    let mut copy: Vec<OnboardingRoute> = Vec::new();
    let mut i: usize = 0;
    while i < list.len()
        invariant
            i <= list@.len(),
            copy@.len() == i,
            forall|j: int| 0 <= j < i ==> (#[trigger] copy@[j]).same(list@[j]),
        decreases list.len() - i,
    {
        copy.push(list[i].copy());
        i += 1;
    }
    copy
}

fn copy_artifacts(list: &Vec<BootstrapArtifact>) -> (copy: Vec<BootstrapArtifact>)
    ensures
        same_artifacts(copy@, list@),
{
    let mut copy: Vec<BootstrapArtifact> = Vec::new();
    let mut i: usize = 0;
    while i < list.len()
        invariant
            i <= list@.len(),
            copy@.len() == i,
            forall|j: int| 0 <= j < i ==> (#[trigger] copy@[j]).same(list@[j]),
        decreases list.len() - i,
    {
        copy.push(list[i].copy());
        i += 1;
    }
    copy
}

impl OnboardingTicket {
    /// Whether two tickets are the same.
    pub open spec fn same(self, other: OnboardingTicket) -> bool {
        &&& self.version == other.version
        &&& self.server_id == other.server_id
        &&& self.invite_id == other.invite_id
        &&& self.invite_token@ == other.invite_token@
        &&& self.expires_at == other.expires_at
        &&& self.profile_name@ == other.profile_name@
        &&& self.workspace@ == other.workspace@
        &&& self.provider == other.provider
        &&& same_routes(self.routes@, other.routes@)
        &&& self.manifest_sha256@ == other.manifest_sha256@
        &&& same_artifacts(self.artifacts@, other.artifacts@)
    }

    /// Whether two tickets are the same.
    pub fn equals(&self, other: &OnboardingTicket) -> (same: bool)
        ensures
            same == self.same(*other),
    {
        let bound = match (self.provider, other.provider) {
            (Some(a), Some(b)) => a == b,
            (None, None) => true,
            _ => false,
        };
        self.version == other.version && self.server_id == other.server_id && self.invite_id
            == other.invite_id && same_text(self.invite_token.as_str(), other.invite_token.as_str())
            && self.expires_at == other.expires_at && same_text(
            self.profile_name.as_str(),
            other.profile_name.as_str(),
        ) && self.workspace.same(&other.workspace) && bound && equal_routes(
            &self.routes,
            &other.routes,
        ) && same_text(self.manifest_sha256.as_str(), other.manifest_sha256.as_str())
            && equal_artifacts(&self.artifacts, &other.artifacts)
    }

    /// Another copy of this ticket.
    pub fn copy(&self) -> (copy: OnboardingTicket)
        ensures
            copy.same(*self),
    {
        OnboardingTicket {
            version: self.version,
            server_id: self.server_id,
            invite_id: self.invite_id,
            invite_token: self.invite_token.as_str().to_owned(),
            expires_at: self.expires_at,
            profile_name: self.profile_name.as_str().to_owned(),
            workspace: self.workspace.copy(),
            provider: self.provider,
            routes: copy_routes(&self.routes),
            manifest_sha256: self.manifest_sha256.as_str().to_owned(),
            artifacts: copy_artifacts(&self.artifacts),
        }
    }
}

proof fn same_routes_same_fault(a: Seq<OnboardingRoute>, b: Seq<OnboardingRoute>, n: int)
    requires
        same_routes(a, b),
        n <= a.len(),
    ensures
        routes_fault_before(a, n) == routes_fault_before(b, n),
    decreases n,
{
    if n > 0 {
        same_routes_same_fault(a, b, n - 1);
        let i = n - 1;
        assert(a[i].same(b[i]));
        assert forall|j: int| 0 <= j < i implies (#[trigger] a[j]).same(b[j]) by {}
        assert(route_fault(a, i) == route_fault(b, i)) by {
            if exists|j: int| 0 <= j < i && (#[trigger] a[j]).kind == a[i].kind {
                let j = choose|j: int| 0 <= j < i && (#[trigger] a[j]).kind == a[i].kind;
                assert(a[j].same(b[j]));
                assert(b[j].kind == b[i].kind);
            }
            if exists|j: int| 0 <= j < i && (#[trigger] b[j]).kind == b[i].kind {
                let j = choose|j: int| 0 <= j < i && (#[trigger] b[j]).kind == b[i].kind;
                assert(a[j].same(b[j]));
                assert(a[j].kind == a[i].kind);
            }
        }
    }
}

proof fn same_artifacts_same_fault(a: Seq<BootstrapArtifact>, b: Seq<BootstrapArtifact>, n: int)
    requires
        same_artifacts(a, b),
        n <= a.len(),
    ensures
        artifacts_fault_before(a, n) == artifacts_fault_before(b, n),
    decreases n,
{
    if n > 0 {
        same_artifacts_same_fault(a, b, n - 1);
        let i = n - 1;
        assert(a[i].same(b[i]));
        assert(artifact_fault(a, i) == artifact_fault(b, i)) by {
            if exists|j: int| 0 <= j < i && (#[trigger] a[j]).target@ == a[i].target@ {
                let j = choose|j: int| 0 <= j < i && (#[trigger] a[j]).target@ == a[i].target@;
                assert(a[j].same(b[j]));
                assert(b[j].target@ == b[i].target@);
            }
            if exists|j: int| 0 <= j < i && (#[trigger] b[j]).target@ == b[i].target@ {
                let j = choose|j: int| 0 <= j < i && (#[trigger] b[j]).target@ == b[i].target@;
                assert(a[j].same(b[j]));
                assert(a[j].target@ == a[i].target@);
            }
        }
    }
}

/// Two tickets that are the same are as good as each other.
pub proof fn same_tickets_same_fault(
    a: OnboardingTicket,
    b: OnboardingTicket,
    verdicts: TicketVerdicts,
)
    requires
        a.same(b),
    ensures
        ticket_fault(a, verdicts) == ticket_fault(b, verdicts),
{
    same_routes_same_fault(a.routes@, b.routes@, a.routes@.len() as int);
    same_artifacts_same_fault(a.artifacts@, b.artifacts@, a.artifacts@.len() as int);
}

/// The subject that the holder of an invitation enrolls under.
pub open spec fn subject_of(invite_id: Uuid) -> Seq<char> {
    "asr-"@ + simple_text(invite_id.value)
}

/// The subject that the holder of an invitation enrolls under.
pub fn invite_subject(invite_id: Uuid) -> (subject: String)
    ensures
        subject@ == subject_of(invite_id),
{
    concat("asr-", uuid_simple_text(invite_id).as_str())
}

/// The profile name that an invitation proposes: the explicit one, else one made of the
/// first eight digits of the server's identifier.
pub open spec fn proposed_profile(explicit: Option<Seq<char>>, server_id: Uuid) -> Seq<char> {
    match explicit {
        Some(name) => name,
        None => "asr-"@ + simple_text(server_id.value).subrange(0, 8),
    }
}

/// The profile name that an invitation proposes.
pub fn profile_candidate(explicit: Option<&str>, server_id: Uuid) -> (name: String)
    ensures
        name@ == proposed_profile(
            match explicit {
                Some(name) => Some(name@),
                None => None,
            },
            server_id,
        ),
{
    match explicit {
        Some(name) => name.to_owned(),
        None => {
            let digits = uuid_simple_text(server_id);
            concat("asr-", digits.as_str().substring_char(0, 8))
        },
    }
}

/// The profile name of an invitation; `accepted` is the verdict of the rules for profile
/// names on the proposed one. The built-in profile is never replaced.
pub fn profile_name(explicit: Option<&str>, server_id: Uuid, accepted: bool) -> (name: Result<
    String,
    TicketError,
>)
    ensures
        ({
            let proposed = proposed_profile(
                match explicit {
                    Some(name) => Some(name@),
                    None => None,
                },
                server_id,
            );
            match name {
                Ok(text) => server_id.value != 0 && proposed != "local"@ && accepted && text@
                    == proposed,
                Err(fault) => fault == TicketError::Invalid && (server_id.value == 0 || proposed
                    == "local"@ || !accepted),
            }
        }),
{
    if server_id.is_nil() {
        return Err(TicketError::Invalid);
    }
    let name = profile_candidate(explicit, server_id);
    if same_text(name.as_str(), "local") || !accepted {
        return Err(TicketError::Invalid);
    }
    Ok(name)
}

} // verus!
