//! The router process: what is launched, what is recorded of it, and how it is shared.

pub mod child;
pub mod child_laws;
pub mod cleanup;
pub mod launch;
pub mod laws;
pub mod start;
pub mod startup;
pub mod stop;
pub mod store;
pub mod tailscale;

use std::collections::BTreeMap;

use vstd::prelude::*;

use crate::ids::Uuid;
use crate::net::{parse_url, parsed_url, Host, HostModel, IpAddress, Ipv4, UrlModel, UrlParts};
use crate::onboarding::{is_plain_endpoint, plain_endpoint};
use crate::paths::{is_same_path, same_path};
use crate::text::{concat, decimal, decimal_text, opt_text, same_text};

verus! {

broadcast use vstd::std_specs::btree::group_btree_axioms;

pub const STARTUP_TIMEOUT_MS: u64 = 5_000;

pub const SHUTDOWN_TIMEOUT_MS: u64 = 30_000;

pub const MAX_STARTUP_FRAME_BYTES: usize = 4_096;

pub const MAX_RUNTIME_RECORD_BYTES: usize = 65_536;

pub const MAX_COMMAND_OUTPUT_BYTES: usize = 1_048_576;

pub const RUNTIME_FILE_NAME: &'static str = "router-runtime.json";

pub const LOCK_FILE_NAME: &'static str = "launcher.lock";

/// How a running router is shared.
#[derive(Clone, Copy, Debug, PartialEq, Eq, Structural)]
pub enum RuntimeShareMode {
    Local,
    Tailscale,
    Lan,
}

/// How a router is asked to be shared.
#[derive(Clone, Copy, Debug, PartialEq, Eq, Structural)]
pub enum ShareRequest {
    Local,
    Auto,
    Tailscale,
    Lan,
}

#[derive(Clone, Copy, Debug, PartialEq, Eq, Structural)]
pub enum ProbeFailure {
    ConnectionRefused,
    Tls,
    Authentication,
    MarkerMismatch,
    Transport,
}

#[derive(Clone, Copy, Debug, PartialEq, Eq, Structural)]
pub enum RouterLaunchError {
    RouterBusy,
    InstanceChanged,
    Interrupted,
    Permissions,
    Io,
    InvalidRuntimeRecord,
    RuntimeRecordTooLarge,
    StartupProtocol,
    StartupTimeout,
    ShutdownTimeout,
    ChildLaunch,
    ChildTerminated,
    Health(ProbeFailure),
    AdminAuthentication,
    AdminProtocol,
    TlsRequired,
    TlsInvalid,
    TailscaleUnavailable,
    TailscaleStatus,
    TailscaleMappingConflict,
    TailscaleCommand,
    Profile,
}

/// The text of a launch error.
pub open spec fn launch_error_text(error: RouterLaunchError) -> Seq<char> {
    match error {
        RouterLaunchError::RouterBusy => "router_busy"@,
        RouterLaunchError::InstanceChanged => "router_instance_changed"@,
        RouterLaunchError::Interrupted => "interrupted"@,
        RouterLaunchError::Permissions => "launcher_permissions"@,
        RouterLaunchError::Io => "launcher_io"@,
        RouterLaunchError::InvalidRuntimeRecord => "runtime_record_invalid"@,
        RouterLaunchError::RuntimeRecordTooLarge => "runtime_record_too_large"@,
        RouterLaunchError::StartupProtocol => "startup_protocol_error"@,
        RouterLaunchError::StartupTimeout => "startup_timeout"@,
        RouterLaunchError::ShutdownTimeout => "shutdown_timeout"@,
        RouterLaunchError::ChildLaunch => "child_launch_failed"@,
        RouterLaunchError::ChildTerminated => "child_terminated"@,
        RouterLaunchError::Health(ProbeFailure::ConnectionRefused) => "health_ConnectionRefused"@,
        RouterLaunchError::Health(ProbeFailure::Tls) => "health_Tls"@,
        RouterLaunchError::Health(ProbeFailure::Authentication) => "health_Authentication"@,
        RouterLaunchError::Health(ProbeFailure::MarkerMismatch) => "health_MarkerMismatch"@,
        RouterLaunchError::Health(ProbeFailure::Transport) => "health_Transport"@,
        RouterLaunchError::AdminAuthentication => "admin_authentication_failed"@,
        RouterLaunchError::AdminProtocol => "admin_protocol_error"@,
        RouterLaunchError::TlsRequired => "tls_configuration_required"@,
        RouterLaunchError::TlsInvalid => "tls_configuration_invalid"@,
        RouterLaunchError::TailscaleUnavailable => "tailscale_unavailable"@,
        RouterLaunchError::TailscaleStatus => "tailscale_status_invalid"@,
        RouterLaunchError::TailscaleMappingConflict => "tailscale_mapping_conflict"@,
        RouterLaunchError::TailscaleCommand => "tailscale_command_failed"@,
        RouterLaunchError::Profile => "profile_update_failed"@,
    }
}

impl RouterLaunchError {
    /// The text of this error.
    pub fn as_str(self) -> (text: &'static str)
        ensures
            text@ == launch_error_text(self),
    {
        match self {
            RouterLaunchError::RouterBusy => "router_busy",
            RouterLaunchError::InstanceChanged => "router_instance_changed",
            RouterLaunchError::Interrupted => "interrupted",
            RouterLaunchError::Permissions => "launcher_permissions",
            RouterLaunchError::Io => "launcher_io",
            RouterLaunchError::InvalidRuntimeRecord => "runtime_record_invalid",
            RouterLaunchError::RuntimeRecordTooLarge => "runtime_record_too_large",
            RouterLaunchError::StartupProtocol => "startup_protocol_error",
            RouterLaunchError::StartupTimeout => "startup_timeout",
            RouterLaunchError::ShutdownTimeout => "shutdown_timeout",
            RouterLaunchError::ChildLaunch => "child_launch_failed",
            RouterLaunchError::ChildTerminated => "child_terminated",
            RouterLaunchError::Health(ProbeFailure::ConnectionRefused) => {
                "health_ConnectionRefused"
            },
            RouterLaunchError::Health(ProbeFailure::Tls) => "health_Tls",
            RouterLaunchError::Health(ProbeFailure::Authentication) => "health_Authentication",
            RouterLaunchError::Health(ProbeFailure::MarkerMismatch) => "health_MarkerMismatch",
            RouterLaunchError::Health(ProbeFailure::Transport) => "health_Transport",
            RouterLaunchError::AdminAuthentication => "admin_authentication_failed",
            RouterLaunchError::AdminProtocol => "admin_protocol_error",
            RouterLaunchError::TlsRequired => "tls_configuration_required",
            RouterLaunchError::TlsInvalid => "tls_configuration_invalid",
            RouterLaunchError::TailscaleUnavailable => "tailscale_unavailable",
            RouterLaunchError::TailscaleStatus => "tailscale_status_invalid",
            RouterLaunchError::TailscaleMappingConflict => "tailscale_mapping_conflict",
            RouterLaunchError::TailscaleCommand => "tailscale_command_failed",
            RouterLaunchError::Profile => "profile_update_failed",
        }
    }
}

/// A port of the tailnet that a router owns.
#[derive(Debug, PartialEq)]
pub struct OwnedServe {
    pub instance_id: Uuid,
    pub port: u16,
    pub target: String,
}

/// Where a tailnet port of a router leads.
pub open spec fn loopback_target(port: u16) -> Seq<char> {
    "tcp://127.0.0.1:"@ + decimal_text(port as nat)
}

/// A tailnet port of the router with the given instance.
pub open spec fn serve_ok(serve: OwnedServe, instance: Uuid) -> bool {
    &&& serve.instance_id == instance
    &&& serve.port != 0
    &&& serve.target@ == loopback_target(serve.port)
}

impl OwnedServe {
    /// The tailnet port that leads to the same port of the machine itself.
    pub fn loopback(instance_id: Uuid, port: u16) -> (serve: OwnedServe)
        ensures
            serve.instance_id == instance_id,
            serve.port == port,
            serve.target@ == loopback_target(port),
            port != 0 ==> serve_ok(serve, instance_id),
    {
        OwnedServe {
            instance_id,
            port,
            target: concat("tcp://127.0.0.1:", decimal(port as u64).as_str()),
        }
    }

    /// Refuses a tailnet port that is not of the given instance.
    pub fn validate(&self, record_instance: Uuid) -> (verdict: Result<(), RouterLaunchError>)
        ensures
            verdict == if serve_ok(*self, record_instance) {
                Ok::<(), RouterLaunchError>(())
            } else {
                Err(RouterLaunchError::InvalidRuntimeRecord)
            },
    {
        let target = concat("tcp://127.0.0.1:", decimal(self.port as u64).as_str());
        if self.instance_id != record_instance || self.port == 0 || !same_text(
            self.target.as_str(),
            target.as_str(),
        ) {
            return Err(RouterLaunchError::InvalidRuntimeRecord);
        }
        Ok(())
    }

    /// Another copy of this.
    pub fn copy(&self) -> (serve: OwnedServe)
        ensures
            serve == *self,
    {
        OwnedServe {
            instance_id: self.instance_id,
            port: self.port,
            target: self.target.clone(),
        }
    }
}

/// What is recorded of a running router.
#[derive(Debug, PartialEq)]
pub struct RuntimeRecord {
    pub instance_id: Uuid,
    pub control_url: String,
    pub share_mode: RuntimeShareMode,
    pub advertised_url: Option<String>,
    pub owned_serve: Option<OwnedServe>,
}

/// A URL of the router's endpoint.
pub open spec fn router_url(url: UrlModel) -> bool {
    &&& url.scheme == "ws"@ || url.scheme == "wss"@
    &&& url.host is Some
    &&& plain_endpoint(url)
}

/// A text that spells a URL of the router's endpoint.
pub open spec fn router_url_text(value: Seq<char>) -> bool {
    parsed_url(value) matches Some(url) && router_url(url)
}

/// A record that may be acted upon. A router owns a tailnet port exactly where it is
/// shared over one.
pub open spec fn record_ok(record: RuntimeRecord) -> bool {
    &&& record.instance_id.value != 0
    &&& router_url_text(record.control_url@)
    &&& (opt_text(record.advertised_url) matches Some(url) ==> router_url_text(url))
    &&& match record.owned_serve {
        Some(serve) => record.share_mode is Tailscale && serve_ok(serve, record.instance_id),
        None => !(record.share_mode is Tailscale),
    }
}

pub(crate) fn is_router_url(url: &UrlParts) -> (yes: bool)
    ensures
        yes == router_url(url.model()),
{
    (same_text(url.scheme.as_str(), "ws") || same_text(url.scheme.as_str(), "wss"))
        && url.host.is_some() && is_plain_endpoint(url)
}

/// The parts of a text that spells a URL of the router's endpoint.
pub fn validate_router_url(value: &str) -> (url: Result<UrlParts, RouterLaunchError>)
    ensures
        match url {
            Ok(url) => router_url_text(value@) && parsed_url(value@) == Some(url.model()),
            Err(error) => !router_url_text(value@) && error
                == RouterLaunchError::InvalidRuntimeRecord,
        },
{
    match parse_url(value) {
        Some(url) => if is_router_url(&url) {
            Ok(url)
        } else {
            Err(RouterLaunchError::InvalidRuntimeRecord)
        },
        None => Err(RouterLaunchError::InvalidRuntimeRecord),
    }
}

impl RuntimeRecord {
    /// Another copy of this.
    pub fn copy(&self) -> (record: RuntimeRecord)
        ensures
            record == *self,
    {
        RuntimeRecord {
            instance_id: self.instance_id,
            control_url: self.control_url.clone(),
            share_mode: self.share_mode,
            advertised_url: match &self.advertised_url {
                Some(url) => Some(url.clone()),
                None => None,
            },
            owned_serve: match &self.owned_serve {
                Some(serve) => Some(serve.copy()),
                None => None,
            },
        }
    }

    /// Refuses a record that may not be acted upon.
    pub fn validate(&self) -> (verdict: Result<(), RouterLaunchError>)
        ensures
            verdict == if record_ok(*self) {
                Ok::<(), RouterLaunchError>(())
            } else {
                Err(RouterLaunchError::InvalidRuntimeRecord)
            },
    {
        if self.instance_id.is_nil() || validate_router_url(self.control_url.as_str()).is_err() {
            return Err(RouterLaunchError::InvalidRuntimeRecord);
        }
        if let Some(url) = &self.advertised_url {
            if validate_router_url(url.as_str()).is_err() {
                return Err(RouterLaunchError::InvalidRuntimeRecord);
            }
        }
        match (self.share_mode, &self.owned_serve) {
            (RuntimeShareMode::Tailscale, Some(serve)) => serve.validate(self.instance_id),
            (RuntimeShareMode::Tailscale, None) => Err(RouterLaunchError::InvalidRuntimeRecord),
            (_, Some(_)) => Err(RouterLaunchError::InvalidRuntimeRecord),
            (_, None) => Ok(()),
        }
    }
}

/// What a router answers when it is asked for its health.
#[derive(Debug, PartialEq)]
pub struct HealthMarker {
    pub service: String,
    pub protocol_version: u8,
    pub status: String,
    pub instance_id: Uuid,
}

/// The answer of a healthy router with the given instance.
pub open spec fn healthy(marker: HealthMarker, instance: Uuid) -> bool {
    &&& marker.service@ == "agent-session-router"@
    &&& marker.protocol_version == crate::protocol::PROTOCOL_VERSION
    &&& marker.status@ == "ok"@
    &&& marker.instance_id == instance
}

impl HealthMarker {
    /// Refuses an answer that is not of a healthy router with the given instance.
    pub fn verify(&self, expected_instance: Uuid) -> (verdict: Result<(), RouterLaunchError>)
        ensures
            verdict == if healthy(*self, expected_instance) {
                Ok::<(), RouterLaunchError>(())
            } else {
                Err(RouterLaunchError::Health(ProbeFailure::MarkerMismatch))
            },
    {
        if !same_text(self.service.as_str(), "agent-session-router") || self.protocol_version != 2
            || !same_text(self.status.as_str(), "ok") || self.instance_id != expected_instance {
            return Err(RouterLaunchError::Health(ProbeFailure::MarkerMismatch));
        }
        Ok(())
    }
}

/// What Tailscale says of the machine.
#[derive(Debug, PartialEq)]
pub struct TailscaleSnapshot {
    pub backend_running: bool,
    pub self_ipv4: Vec<Ipv4>,
    pub online_peer_ipv4: Vec<Ipv4>,
    /// The TCP ports that are forwarded, with their targets.
    pub tcp_forwards: BTreeMap<u16, String>,
}

/// Every address of a list is of the range that Tailscale hands out.
pub open spec fn all_tailscale(addresses: Seq<Ipv4>) -> bool {
    forall|i: int| 0 <= i < addresses.len() ==> (#[trigger] addresses[i]).tailscale()
}

/// Tailscale runs and the machine has an address of it.
pub open spec fn snapshot_ok(snapshot: TailscaleSnapshot) -> bool {
    &&& snapshot.backend_running
    &&& snapshot.self_ipv4@.len() > 0
    &&& all_tailscale(snapshot.self_ipv4@)
    &&& all_tailscale(snapshot.online_peer_ipv4@)
}

/// Where a port is forwarded to, nothing where it is not forwarded.
pub open spec fn forward_of(snapshot: TailscaleSnapshot, port: u16) -> Option<Seq<char>> {
    if snapshot.tcp_forwards@.dom().contains(port) {
        Some(snapshot.tcp_forwards@[port]@)
    } else {
        None
    }
}

fn are_tailscale(addresses: &Vec<Ipv4>) -> (yes: bool)
    ensures
        yes == all_tailscale(addresses@),
{
    let mut i: usize = 0;
    while i < addresses.len()
        invariant
            i <= addresses.len(),
            forall|j: int| 0 <= j < i ==> (#[trigger] addresses@[j]).tailscale(),
        decreases addresses.len() - i,
    {
        if !addresses[i].is_tailscale() {
            return false;
        }
        i += 1;
    }
    true
}

pub(crate) fn has_address(addresses: &Vec<Ipv4>, address: Ipv4) -> (yes: bool)
    ensures
        yes == addresses@.contains(address),
{
    let mut i: usize = 0;
    while i < addresses.len()
        invariant
            i <= addresses.len(),
            forall|j: int| 0 <= j < i ==> addresses@[j] != address,
        decreases addresses.len() - i,
    {
        if addresses[i] == address {
            return true;
        }
        i += 1;
    }
    false
}

impl TailscaleSnapshot {
    /// The addresses of the machine and of the peers that are online.
    pub fn all_online_ipv4(&self) -> (addresses: Vec<Ipv4>)
        ensures
            addresses@ == self.self_ipv4@ + self.online_peer_ipv4@,
    {
        let mut addresses: Vec<Ipv4> = Vec::new();
        let mut i: usize = 0;
        while i < self.self_ipv4.len()
            invariant
                i <= self.self_ipv4@.len(),
                addresses@ == self.self_ipv4@.take(i as int),
            decreases self.self_ipv4.len() - i,
        {
            addresses.push(self.self_ipv4[i]);
            assert(addresses@ =~= self.self_ipv4@.take(i + 1));
            i += 1;
        }
        assert(addresses@ =~= self.self_ipv4@ + self.online_peer_ipv4@.take(0));
        let mut k: usize = 0;
        while k < self.online_peer_ipv4.len()
            invariant
                k <= self.online_peer_ipv4@.len(),
                addresses@ == self.self_ipv4@ + self.online_peer_ipv4@.take(k as int),
            decreases self.online_peer_ipv4.len() - k,
        {
            addresses.push(self.online_peer_ipv4[k]);
            assert(addresses@ =~= self.self_ipv4@ + self.online_peer_ipv4@.take(k + 1));
            k += 1;
        }
        assert(self.online_peer_ipv4@.take(k as int) =~= self.online_peer_ipv4@);
        addresses
    }

    /// Refuses a snapshot of a machine that has no tailnet to share over.
    pub fn validate(&self) -> (verdict: Result<(), RouterLaunchError>)
        ensures
            verdict == if snapshot_ok(*self) {
                Ok::<(), RouterLaunchError>(())
            } else {
                Err(RouterLaunchError::TailscaleUnavailable)
            },
    {
        if !self.backend_running || self.self_ipv4.len() == 0 || !are_tailscale(&self.self_ipv4)
            || !are_tailscale(&self.online_peer_ipv4) {
            return Err(RouterLaunchError::TailscaleUnavailable);
        }
        Ok(())
    }

    /// Where a port is forwarded to.
    pub fn forward(&self, port: u16) -> (target: Option<&String>)
        ensures
            (match target {
                Some(text) => Some(text@),
                None => None,
            }) == forward_of(*self, port),
    {
        self.tcp_forwards.get(&port)
    }

    /// Whether a port is forwarded to where a tailnet port of the router leads.
    pub fn forwards(&self, serve: &OwnedServe) -> (yes: bool)
        ensures
            yes == (forward_of(*self, serve.port) == Some(serve.target@)),
    {
        match self.forward(serve.port) {
            Some(target) => same_text(target.as_str(), serve.target.as_str()),
            None => false,
        }
    }
}

/// The address that a router listens at.
#[derive(Clone, Copy, Debug, PartialEq, Eq, Structural)]
pub struct BindAddress {
    pub ip: IpAddress,
    pub port: u16,
}

/// The files and the URL that a router serves TLS with.
#[derive(Debug)]
pub struct TlsSettings {
    pub certificate_file: String,
    pub private_key_file: String,
    pub public_url: String,
    pub ca_file: Option<String>,
}

/// Whether two settings are one: a file may be spelled in two ways.
pub open spec fn same_tls(a: TlsSettings, b: TlsSettings) -> bool {
    &&& same_path(a.certificate_file@, b.certificate_file@)
    &&& same_path(a.private_key_file@, b.private_key_file@)
    &&& a.public_url@ == b.public_url@
    &&& match (a.ca_file, b.ca_file) {
        (Some(a), Some(b)) => same_path(a@, b@),
        (None, None) => true,
        _ => false,
    }
}

impl PartialEq for TlsSettings {
    fn eq(&self, other: &Self) -> (same: bool) {
        let ca = match (&self.ca_file, &other.ca_file) {
            (Some(a), Some(b)) => is_same_path(a.as_str(), b.as_str()),
            (None, None) => true,
            _ => false,
        };
        ca && is_same_path(self.certificate_file.as_str(), other.certificate_file.as_str())
            && is_same_path(self.private_key_file.as_str(), other.private_key_file.as_str())
            && same_text(self.public_url.as_str(), other.public_url.as_str())
    }
}

impl vstd::std_specs::cmp::PartialEqSpecImpl for TlsSettings {
    open spec fn obeys_eq_spec() -> bool {
        true
    }

    open spec fn eq_spec(&self, other: &Self) -> bool {
        same_tls(*self, *other)
    }
}

/// How a router is shared. Beyond the machine itself it is reached over TLS or over the
/// tailnet, never in the clear.
pub open spec fn share_mode_of(
    request: ShareRequest,
    bind: BindAddress,
    tls: bool,
    tailscale: Option<TailscaleSnapshot>,
) -> Result<RuntimeShareMode, RouterLaunchError> {
    let loopback = bind.ip.loopback();
    match request {
        ShareRequest::Local => if loopback {
            Ok(RuntimeShareMode::Local)
        } else {
            Err(RouterLaunchError::TlsRequired)
        },
        ShareRequest::Lan => if !loopback && tls {
            Ok(RuntimeShareMode::Lan)
        } else {
            Err(RouterLaunchError::TlsRequired)
        },
        ShareRequest::Tailscale => if tls || !loopback {
            Err(RouterLaunchError::TlsInvalid)
        } else if tailscale matches Some(snapshot) && snapshot_ok(snapshot) {
            Ok(RuntimeShareMode::Tailscale)
        } else {
            Err(RouterLaunchError::TailscaleUnavailable)
        },
        ShareRequest::Auto => if tls {
            if loopback {
                Ok(RuntimeShareMode::Local)
            } else {
                Ok(RuntimeShareMode::Lan)
            }
        } else if !loopback {
            Err(RouterLaunchError::TlsRequired)
        } else if tailscale matches Some(snapshot) && snapshot_ok(snapshot) {
            Ok(RuntimeShareMode::Tailscale)
        } else {
            Ok(RuntimeShareMode::Local)
        },
    }
}

/// How a router is shared, or why it cannot be.
pub fn resolve_share_mode(
    request: ShareRequest,
    bind: BindAddress,
    tls: Option<&TlsSettings>,
    tailscale: Option<&TailscaleSnapshot>,
) -> (mode: Result<RuntimeShareMode, RouterLaunchError>)
    ensures
        mode == share_mode_of(
            request,
            bind,
            tls is Some,
            match tailscale {
                Some(snapshot) => Some(*snapshot),
                None => None,
            },
        ),
{
    let loopback = bind.ip.is_loopback();
    let tailnet = match tailscale {
        Some(snapshot) => snapshot.validate().is_ok(),
        None => false,
    };
    match request {
        ShareRequest::Local => if loopback {
            Ok(RuntimeShareMode::Local)
        } else {
            Err(RouterLaunchError::TlsRequired)
        },
        ShareRequest::Lan => if loopback || tls.is_none() {
            Err(RouterLaunchError::TlsRequired)
        } else {
            Ok(RuntimeShareMode::Lan)
        },
        ShareRequest::Tailscale => if tls.is_some() || !loopback {
            Err(RouterLaunchError::TlsInvalid)
        } else if tailnet {
            Ok(RuntimeShareMode::Tailscale)
        } else {
            Err(RouterLaunchError::TailscaleUnavailable)
        },
        ShareRequest::Auto => if tls.is_some() {
            if loopback {
                Ok(RuntimeShareMode::Local)
            } else {
                Ok(RuntimeShareMode::Lan)
            }
        } else if !loopback {
            Err(RouterLaunchError::TlsRequired)
        } else if tailnet {
            Ok(RuntimeShareMode::Tailscale)
        } else {
            Ok(RuntimeShareMode::Local)
        },
    }
}

/// Nothing is shared in the clear beyond the machine itself: a router that listens
/// elsewhere is shared over the LAN with TLS, and one that is shared over the tailnet
/// listens at the machine itself, on a working tailnet.
pub proof fn sharing_is_never_plaintext(
    request: ShareRequest,
    bind: BindAddress,
    tls: bool,
    tailscale: Option<TailscaleSnapshot>,
)
    ensures
        !bind.ip.loopback() && share_mode_of(request, bind, tls, tailscale) is Ok
            ==> share_mode_of(request, bind, tls, tailscale) == Ok::<_, RouterLaunchError>(
            RuntimeShareMode::Lan,
        ) && tls,
        share_mode_of(request, bind, tls, tailscale) == Ok::<_, RouterLaunchError>(
            RuntimeShareMode::Lan,
        ) ==> tls,
        share_mode_of(request, bind, tls, tailscale) == Ok::<_, RouterLaunchError>(
            RuntimeShareMode::Tailscale,
        ) ==> bind.ip.loopback() && (tailscale matches Some(snapshot) && snapshot_ok(snapshot)),
{
}

/// A router's URL on the tailnet: at an address of a machine that is online.
pub open spec fn tailscale_router_url(url: UrlModel, snapshot: TailscaleSnapshot) -> bool {
    &&& url.scheme == "ws"@
    &&& url.path == "/ws"@
    &&& url.query is None
    &&& url.fragment is None
    &&& url.host matches Some(HostModel::Ipv4(ip)) && (snapshot.self_ipv4@
        + snapshot.online_peer_ipv4@).contains(ip)
    &&& url.port is Some
}

/// What is wrong with a router's URL on the tailnet, if anything.
pub open spec fn tailscale_url_fault(
    url: Option<UrlModel>,
    snapshot: TailscaleSnapshot,
) -> Option<RouterLaunchError> {
    if !snapshot_ok(snapshot) {
        Some(RouterLaunchError::TailscaleUnavailable)
    } else if !(url matches Some(parts) && tailscale_router_url(parts, snapshot)) {
        Some(RouterLaunchError::TailscaleStatus)
    } else {
        None
    }
}

/// Refuses a router's URL on the tailnet that is not at a machine that is online.
pub fn validate_tailscale_router_url(value: &str, snapshot: &TailscaleSnapshot) -> (verdict: Result<
    (),
    RouterLaunchError,
>)
    ensures
        verdict == (match tailscale_url_fault(parsed_url(value@), *snapshot) {
            Some(error) => Err::<(), RouterLaunchError>(error),
            None => Ok(()),
        }),
{
    if let Err(error) = snapshot.validate() {
        return Err(error);
    }
    let url = match parse_url(value) {
        Some(url) => url,
        None => return Err(RouterLaunchError::TailscaleStatus),
    };
    if !same_text(url.scheme.as_str(), "ws") || !same_text(url.path.as_str(), "/ws")
        || url.query.is_some() || url.fragment.is_some() {
        return Err(RouterLaunchError::TailscaleStatus);
    }
    let online = snapshot.all_online_ipv4();
    let present = match &url.host {
        Some(Host::Ipv4(ip)) => has_address(&online, *ip),
        _ => false,
    };
    if !present || url.port.is_none() {
        return Err(RouterLaunchError::TailscaleStatus);
    }
    Ok(())
}

/// The URL that a router with TLS is known under.
pub open spec fn public_router_url(value: Seq<char>, port: u16) -> bool {
    parsed_url(value) matches Some(url) && router_url(url) && url.scheme == "wss"@ && url.known_port
        == Some(port)
}

/// Refuses a public URL without TLS or with another port.
pub fn validate_public_router_url(value: &str, expected_port: u16) -> (verdict: Result<
    (),
    RouterLaunchError,
>)
    ensures
        verdict == if public_router_url(value@, expected_port) {
            Ok::<(), RouterLaunchError>(())
        } else {
            Err(RouterLaunchError::TlsInvalid)
        },
{
    match validate_router_url(value) {
        Ok(url) => match url.known_port {
            Some(port) if port == expected_port && same_text(url.scheme.as_str(), "wss") => Ok(()),
            _ => Err(RouterLaunchError::TlsInvalid),
        },
        Err(_) => Err(RouterLaunchError::TlsInvalid),
    }
}

/// What is known of a file.
#[derive(Clone, Copy, Debug, PartialEq, Eq, Structural)]
pub struct FileFacts {
    pub is_symlink: bool,
    pub is_dir: bool,
    pub is_file: bool,
    pub uid: u32,
    pub mode: u32,
}

/// A directory that only its owner can reach into.
pub open spec fn private_directory(facts: FileFacts, uid: u32) -> bool {
    !facts.is_symlink && facts.is_dir && facts.uid == uid && facts.mode & 0o077 == 0
}

/// A file that only its owner can reach.
pub open spec fn private_file(facts: FileFacts, uid: u32) -> bool {
    facts.is_file && facts.uid == uid && facts.mode & 0o077 == 0
}

/// A private file that its owner reads and writes and does not execute.
pub open spec fn private_data_file(facts: FileFacts, uid: u32) -> bool {
    private_file(facts, uid) && facts.mode & 0o777 == 0o600
}

/// Refuses a directory that others can reach into. `facts` is what is known of the path
/// itself, nothing where it cannot be looked at.
pub fn validate_private_directory(path: &str, facts: Option<FileFacts>, uid: u32) -> (verdict: Result<
    (),
    RouterLaunchError,
>)
    ensures
        verdict == if crate::paths::absolute(path@) && (facts matches Some(known)
            && private_directory(known, uid)) {
            Ok::<(), RouterLaunchError>(())
        } else {
            Err(RouterLaunchError::Permissions)
        },
{
    if !crate::paths::is_absolute(path) {
        return Err(RouterLaunchError::Permissions);
    }
    match facts {
        Some(known) if !known.is_symlink && known.is_dir && known.uid == uid && known.mode & 0o077
            == 0 => Ok(()),
        _ => Err(RouterLaunchError::Permissions),
    }
}

/// Refuses a file that others can reach.
pub fn validate_private_file_metadata(facts: FileFacts, uid: u32) -> (verdict: Result<
    (),
    RouterLaunchError,
>)
    ensures
        verdict == if private_file(facts, uid) {
            Ok::<(), RouterLaunchError>(())
        } else {
            Err(RouterLaunchError::Permissions)
        },
{
    if !facts.is_file || facts.uid != uid || facts.mode & 0o077 != 0 {
        return Err(RouterLaunchError::Permissions);
    }
    Ok(())
}

/// Refuses a file that is not its owner's private data.
pub fn validate_owned_file_0600(facts: FileFacts, uid: u32) -> (verdict: Result<
    (),
    RouterLaunchError,
>)
    ensures
        verdict == if private_data_file(facts, uid) {
            Ok::<(), RouterLaunchError>(())
        } else {
            Err(RouterLaunchError::Permissions)
        },
{
    if let Err(error) = validate_private_file_metadata(facts, uid) {
        return Err(error);
    }
    if facts.mode & 0o777 != 0o600 {
        return Err(RouterLaunchError::Permissions);
    }
    Ok(())
}

/// One variable of an environment.
#[derive(Debug, PartialEq)]
pub struct EnvEntry {
    pub key: String,
    pub value: String,
}

/// The last value of a variable among the first `n` of an environment.
pub open spec fn env_value(environment: Seq<EnvEntry>, n: int, key: Seq<char>) -> Option<Seq<char>>
    decreases n,
{
    if n <= 0 {
        None
    } else if environment[n - 1].key@ == key {
        Some(environment[n - 1].value@)
    } else {
        env_value(environment, n - 1, key)
    }
}

/// The last value of a variable of an environment.
pub fn env_lookup(environment: &Vec<EnvEntry>, key: &str) -> (value: Option<String>)
    ensures
        opt_text(value) == env_value(environment@, environment@.len() as int, key@),
{
    let mut i: usize = environment.len();
    while i > 0
        invariant
            i <= environment@.len(),
            env_value(environment@, environment@.len() as int, key@) == env_value(
                environment@,
                i as int,
                key@,
            ),
        decreases i,
    {
        if same_text(environment[i - 1].key.as_str(), key) {
            return Some(environment[i - 1].value.clone());
        }
        i -= 1;
    }
    None
}

/// What is known of the files that TLS needs: whether the certificate is a file, and the
/// facts of the private key; nothing where one cannot be looked at.
#[derive(Clone, Copy, Debug, PartialEq, Eq, Structural)]
pub struct TlsFileFacts {
    pub certificate_is_file: Option<bool>,
    pub private_key: Option<FileFacts>,
    pub uid: u32,
}

/// The variables that TLS is configured with: certificate, private key, public URL and,
/// optional, the CA file.
pub open spec fn tls_variables(environment: Seq<EnvEntry>) -> (
    Option<Seq<char>>,
    Option<Seq<char>>,
    Option<Seq<char>>,
    Option<Seq<char>>,
) {
    let n = environment.len() as int;
    (
        env_value(environment, n, "ROUTER_TLS_CERT"@),
        env_value(environment, n, "ROUTER_TLS_KEY"@),
        env_value(environment, n, "ROUTER_PUBLIC_URL"@),
        env_value(environment, n, "ASR_CA_FILE"@),
    )
}

/// The files that TLS needs may be used.
pub open spec fn tls_files_ok(files: TlsFileFacts) -> bool {
    &&& files.certificate_is_file == Some(true)
    &&& files.private_key matches Some(key) && private_file(key, files.uid)
}

/// What is wrong with the TLS configuration of an environment, if anything: all three
/// variables are set or none is, and a router that listens beyond the machine itself has
/// them.
pub open spec fn tls_fault(
    bind: BindAddress,
    environment: Seq<EnvEntry>,
    files: TlsFileFacts,
) -> Option<RouterLaunchError> {
    match tls_variables(environment) {
        (Some(_), Some(_), Some(url), _) => if !tls_files_ok(files) || !public_router_url(
            url,
            bind.port,
        ) {
            Some(RouterLaunchError::TlsInvalid)
        } else {
            None
        },
        (None, None, None, _) => if !bind.ip.loopback() {
            Some(RouterLaunchError::TlsRequired)
        } else {
            None
        },
        _ => Some(RouterLaunchError::TlsInvalid),
    }
}

/// The TLS settings of an environment.
pub fn tls_settings_from_environment(
    bind: BindAddress,
    environment: &Vec<EnvEntry>,
    files: TlsFileFacts,
) -> (settings: Result<Option<TlsSettings>, RouterLaunchError>)
    ensures
        match settings {
            Err(error) => tls_fault(bind, environment@, files) == Some(error),
            Ok(None) => tls_fault(bind, environment@, files) is None && tls_variables(
                environment@,
            ).0 is None,
            Ok(Some(tls)) => tls_fault(bind, environment@, files) is None && tls_variables(
                environment@,
            ) == (
                Some(tls.certificate_file@),
                Some(tls.private_key_file@),
                Some(tls.public_url@),
                opt_text(tls.ca_file),
            ),
        },
{
    let certificate = env_lookup(environment, "ROUTER_TLS_CERT");
    let private_key = env_lookup(environment, "ROUTER_TLS_KEY");
    let public_url = env_lookup(environment, "ROUTER_PUBLIC_URL");
    let ca_file = env_lookup(environment, "ASR_CA_FILE");
    match (certificate, private_key, public_url) {
        (Some(certificate_file), Some(private_key_file), Some(public_url)) => {
            match files.certificate_is_file {
                Some(true) => {},
                _ => return Err(RouterLaunchError::TlsInvalid),
            }
            match files.private_key {
                Some(key) => if validate_private_file_metadata(key, files.uid).is_err() {
                    return Err(RouterLaunchError::TlsInvalid);
                },
                None => return Err(RouterLaunchError::TlsInvalid),
            }
            if let Err(error) = validate_public_router_url(public_url.as_str(), bind.port) {
                return Err(error);
            }
            Ok(Some(TlsSettings { certificate_file, private_key_file, public_url, ca_file }))
        },
        (None, None, None) => if bind.ip.is_loopback() {
            Ok(None)
        } else {
            Err(RouterLaunchError::TlsRequired)
        },
        _ => Err(RouterLaunchError::TlsInvalid),
    }
}

} // verus!
