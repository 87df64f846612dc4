//! The routes that an invitation advertises: which they are, and that each of them leads
//! to this router.

use vstd::prelude::*;

use crate::net::{
    localhost, parse_url, parsed_url, Host, HostModel, IpAddress, Ipv4, UrlModel, UrlParts,
};
use crate::onboarding::{routes_fault, validate_routes, OnboardingRoute, RouteKind};
use crate::process::{
    forward_of, has_address, is_router_url, record_ok, router_url, tailscale_url_fault,
    validate_tailscale_router_url, RuntimeRecord, RuntimeShareMode, TailscaleSnapshot,
};
use crate::text::{chars_of, find_char, opt_text, place_of, same_text, starts_with, text_between};

verus! {

#[derive(Clone, Copy, Debug, PartialEq, Eq, Structural)]
pub enum RouteError {
    InvalidRuntime,
    InvalidRoutes,
    KindRequired,
    InvalidCa,
    TailnetUnverified,
    NoReachableRoute,
}

impl RouteError {
    /// The code of an error that looking at addresses can give.
    pub fn code(self) -> (code: Option<&'static str>)
        ensures
            (match code {
                Some(text) => Some(text@),
                None => None,
            }) == (match self {
                RouteError::InvalidRoutes => Some("route_invalid"@),
                RouteError::KindRequired => Some("route_kind_required"@),
                _ => None,
            }),
    {
        match self {
            RouteError::InvalidRoutes => Some("route_invalid"),
            RouteError::KindRequired => Some("route_kind_required"),
            _ => None,
        }
    }
}

/// A URL that a route may lead to: the router's endpoint at a real port.
pub open spec fn route_endpoint(url: UrlModel) -> bool {
    router_url(url) && url.port != Some(0u16)
}

/// A text that spells a URL that a route may lead to.
pub open spec fn route_endpoint_text(value: Seq<char>) -> bool {
    parsed_url(value) matches Some(url) && route_endpoint(url)
}

/// The parts of a URL that a route may lead to.
pub fn parse_router_url(value: &str) -> (url: Result<UrlParts, RouteError>)
    ensures
        match url {
            Ok(parts) => route_endpoint_text(value@) && parsed_url(value@) == Some(parts.model()),
            Err(error) => !route_endpoint_text(value@) && error == RouteError::InvalidRoutes,
        },
{
    let url = match parse_url(value) {
        Some(url) => url,
        None => return Err(RouteError::InvalidRoutes),
    };
    let zero = match url.port {
        Some(port) => port == 0,
        None => false,
    };
    if !is_router_url(&url) || zero {
        return Err(RouteError::InvalidRoutes);
    }
    Ok(url)
}

/// What is wrong with the addresses of a route of a kind, if anything: there is one, each
/// can be reached, and each is of the machine itself exactly where the route is local.
pub open spec fn addresses_fault(addresses: Seq<IpAddress>, kind: RouteKind) -> Option<RouteError> {
    if addresses.len() == 0 {
        Some(RouteError::KindRequired)
    } else if exists|i: int|
        0 <= i < addresses.len() && ((#[trigger] addresses[i]).unusable() || addresses[i].loopback()
            != (kind is Local)) {
        Some(RouteError::InvalidRoutes)
    } else {
        None
    }
}

/// Refuses the addresses of a route of a kind.
pub fn validate_addresses(addresses: &[IpAddress], kind: RouteKind) -> (verdict: Result<(), RouteError>)
    ensures
        verdict == (match addresses_fault(addresses@, kind) {
            Some(error) => Err::<(), RouteError>(error),
            None => Ok(()),
        }),
{
    if addresses.len() == 0 {
        return Err(RouteError::KindRequired);
    }
    let local = matches!(kind, RouteKind::Local);
    let mut i: usize = 0;
    while i < addresses.len()
        invariant
            i <= addresses@.len(),
            addresses@.len() > 0,
            local == (kind is Local),
            forall|j: int|
                0 <= j < i ==> !(#[trigger] addresses@[j]).unusable() && addresses@[j].loopback()
                    == local,
        decreases addresses.len() - i,
    {
        if addresses[i].is_unusable() || addresses[i].is_loopback() != local {
            return Err(RouteError::InvalidRoutes);
        }
        i += 1;
    }
    Ok(())
}

/// The kind of route that an address speaks for. An address that is neither private nor
/// public leaves the kind open; one that cannot be reached is refused.
pub open spec fn address_kind(address: IpAddress) -> Result<RouteKind, RouteError> {
    if address.loopback() {
        Ok(RouteKind::Local)
    } else {
        let lan = match address {
            IpAddress::V4(ip) => ip.private(),
            IpAddress::V6(ip) => ip.unique_local(),
        };
        let public = match address {
            IpAddress::V4(ip) => ip.global(),
            IpAddress::V6(ip) => ip.global(),
        };
        if lan {
            Ok(RouteKind::Lan)
        } else if public {
            Ok(RouteKind::Public)
        } else if address.unusable() {
            Err(RouteError::InvalidRoutes)
        } else {
            Err(RouteError::KindRequired)
        }
    }
}

/// The kind that the first `n` addresses agree on, nothing where there are none.
pub open spec fn kind_of_first(addresses: Seq<IpAddress>, n: int) -> Result<
    Option<RouteKind>,
    RouteError,
>
    decreases n,
{
    if n <= 0 {
        Ok(None)
    } else {
        match kind_of_first(addresses, n - 1) {
            Err(error) => Err(error),
            Ok(before) => match address_kind(addresses[n - 1]) {
                Err(error) => Err(error),
                Ok(kind) => if before matches Some(other) && other != kind {
                    Err(RouteError::KindRequired)
                } else {
                    Ok(Some(kind))
                },
            },
        }
    }
}

/// The kind of route that some addresses agree on.
pub open spec fn kind_of_addresses(addresses: Seq<IpAddress>) -> Result<RouteKind, RouteError> {
    match kind_of_first(addresses, addresses.len() as int) {
        Err(error) => Err(error),
        Ok(Some(kind)) => Ok(kind),
        Ok(None) => Err(RouteError::KindRequired),
    }
}

proof fn kind_error_stays(addresses: Seq<IpAddress>, n: int, m: int)
    requires
        0 <= n <= m,
        kind_of_first(addresses, n) is Err,
    ensures
        kind_of_first(addresses, m) == kind_of_first(addresses, n),
    decreases m - n,
{
    if n < m {
        kind_error_stays(addresses, n, m - 1);
    }
}

fn classify_address(address: IpAddress) -> (kind: Result<RouteKind, RouteError>)
    ensures
        kind == address_kind(address),
{
    if address.is_loopback() {
        return Ok(RouteKind::Local);
    }
    let (lan, public) = match address {
        IpAddress::V4(ip) => (ip.is_private(), ip.is_global()),
        IpAddress::V6(ip) => (ip.is_unique_local(), ip.is_global()),
    };
    if lan {
        Ok(RouteKind::Lan)
    } else if public {
        Ok(RouteKind::Public)
    } else if address.is_unusable() {
        Err(RouteError::InvalidRoutes)
    } else {
        Err(RouteError::KindRequired)
    }
}

/// The kind of route that some addresses agree on.
pub fn classify_addresses(addresses: &[IpAddress]) -> (kind: Result<RouteKind, RouteError>)
    ensures
        kind == kind_of_addresses(addresses@),
{
    let mut classified: Option<RouteKind> = None;
    let mut i: usize = 0;
    while i < addresses.len()
        invariant
            i <= addresses@.len(),
            kind_of_first(addresses@, i as int) == Ok::<_, RouteError>(classified),
        decreases addresses.len() - i,
    {
        proof {
            if kind_of_first(addresses@, i + 1) is Err {
                kind_error_stays(addresses@, i + 1, addresses@.len() as int);
            }
        }
        match classify_address(addresses[i]) {
            Ok(kind) => {
                if let Some(previous) = classified {
                    if previous != kind {
                        return Err(RouteError::KindRequired);
                    }
                }
                classified = Some(kind);
            },
            Err(error) => return Err(error),
        }
        i += 1;
    }
    match classified {
        Some(kind) => Ok(kind),
        None => Err(RouteError::KindRequired),
    }
}

proof fn classified_address_fits(address: IpAddress, kind: RouteKind)
    requires
        address_kind(address) == Ok::<_, RouteError>(kind),
    ensures
        !address.unusable(),
        address.loopback() == (kind is Local),
        !(kind is Tailnet),
{
}

proof fn classified_prefix_fits(addresses: Seq<IpAddress>, n: int, kind: RouteKind, i: int)
    requires
        0 <= i < n,
        kind_of_first(addresses, n) == Ok::<_, RouteError>(Some(kind)),
    ensures
        !addresses[i].unusable(),
        addresses[i].loopback() == (kind is Local),
        !(kind is Tailnet),
    decreases n,
{
    classified_address_fits(addresses[n - 1], kind);
    if i < n - 1 {
        assert(n - 1 > 0);
        let before = kind_of_first(addresses, n - 1);
        if before == Ok::<Option<RouteKind>, RouteError>(None) {
            nothing_classified_means_nothing(addresses, n - 1);
        }
        classified_prefix_fits(addresses, n - 1, kind, i);
    }
}

proof fn nothing_classified_means_nothing(addresses: Seq<IpAddress>, n: int)
    requires
        kind_of_first(addresses, n) == Ok::<Option<RouteKind>, RouteError>(None),
    ensures
        n <= 0,
{
}

/// Addresses that agree on a kind are fit for a route of that kind, and that kind is never
/// the tailnet.
pub proof fn classified_addresses_are_valid(addresses: Seq<IpAddress>, kind: RouteKind)
    requires
        kind_of_addresses(addresses) == Ok::<_, RouteError>(kind),
    ensures
        addresses_fault(addresses, kind) is None,
        !(kind is Tailnet),
{
    let n = addresses.len() as int;
    assert(n > 0);
    assert forall|i: int| 0 <= i < n implies !(#[trigger] addresses[i]).unusable()
        && addresses[i].loopback() == (kind is Local) by {
        classified_prefix_fits(addresses, n, kind, i);
    }
    classified_prefix_fits(addresses, n, kind, 0);
}

/// What is wrong with advertising a URL on the tailnet, if anything: it is at an address of
/// this machine, at the port that the router owns, and that port leads to the router.
pub open spec fn owned_tailnet_fault(
    runtime: RuntimeRecord,
    url: UrlModel,
    snapshot: TailscaleSnapshot,
) -> Option<RouteError> {
    if tailscale_url_fault(parsed_url(url.text), snapshot) is Some {
        Some(RouteError::TailnetUnverified)
    } else {
        match (runtime.owned_serve, url.host) {
            (Some(serve), Some(HostModel::Ipv4(address))) => match parsed_url(
                runtime.control_url@,
            ) {
                Some(control) => if !route_endpoint(control) {
                    Some(RouteError::InvalidRoutes)
                } else if runtime.share_mode is Tailscale && snapshot.self_ipv4@.contains(address)
                    && url.port == Some(serve.port) && control.scheme == "ws"@ && control.port
                    == Some(serve.port) && control.host == Some(HostModel::Ipv4(localhost()))
                    && forward_of(snapshot, serve.port) == Some(serve.target@) {
                    None
                } else {
                    Some(RouteError::TailnetUnverified)
                },
                None => Some(RouteError::InvalidRoutes),
            },
            _ => Some(RouteError::TailnetUnverified),
        }
    }
}

/// Refuses to advertise a URL on the tailnet that does not lead to this router.
pub fn validate_owned_tailnet(
    runtime: &RuntimeRecord,
    url: &UrlParts,
    snapshot: &TailscaleSnapshot,
) -> (verdict: Result<(), RouteError>)
    ensures
        verdict == (match owned_tailnet_fault(*runtime, url.model(), *snapshot) {
            Some(error) => Err::<(), RouteError>(error),
            None => Ok(()),
        }),
{
    if validate_tailscale_router_url(url.text.as_str(), snapshot).is_err() {
        return Err(RouteError::TailnetUnverified);
    }
    let (serve, address) = match (&runtime.owned_serve, &url.host) {
        (Some(serve), Some(Host::Ipv4(address))) => (serve, *address),
        _ => return Err(RouteError::TailnetUnverified),
    };
    let control = match parse_router_url(runtime.control_url.as_str()) {
        Ok(control) => control,
        Err(error) => return Err(error),
    };
    let at_port = match url.port {
        Some(port) => port == serve.port,
        None => false,
    };
    let control_port = match control.port {
        Some(port) => port == serve.port,
        None => false,
    };
    let control_host = match &control.host {
        Some(Host::Ipv4(ip)) => *ip == Ipv4 { a: 127, b: 0, c: 0, d: 1 },
        _ => false,
    };
    if matches!(runtime.share_mode, RuntimeShareMode::Tailscale) && has_address(
        &snapshot.self_ipv4,
        address,
    ) && at_port && same_text(control.scheme.as_str(), "ws") && control_port && control_host
        && snapshot.forwards(serve) {
        Ok(())
    } else {
        Err(RouteError::TailnetUnverified)
    }
}

/// The kind of route that a word names.
pub open spec fn kind_named(word: Seq<char>) -> Option<RouteKind> {
    if word == "tailnet"@ {
        Some(RouteKind::Tailnet)
    } else if word == "lan"@ {
        Some(RouteKind::Lan)
    } else if word == "public"@ {
        Some(RouteKind::Public)
    } else if word == "local"@ {
        Some(RouteKind::Local)
    } else {
        None
    }
}

/// The route that an endpoint option `KIND=URL` names.
pub open spec fn endpoint_route(endpoint: Seq<char>) -> Option<(RouteKind, Seq<char>)> {
    let at = place_of(endpoint, '=', 0);
    if at >= endpoint.len() {
        None
    } else {
        let url = endpoint.subrange(at + 1, endpoint.len() as int);
        match kind_named(endpoint.subrange(0, at)) {
            Some(kind) => if route_endpoint_text(url) {
                Some((kind, url))
            } else {
                None
            },
            None => None,
        }
    }
}

/// The route that an endpoint option `KIND=URL` names.
pub fn parse_endpoint(endpoint: &str) -> (route: Result<OnboardingRoute, RouteError>)
    ensures
        match route {
            Ok(route) => endpoint_route(endpoint@) == Some((route.kind, route.router_url@))
                && route.ca_pem is None,
            Err(error) => endpoint_route(endpoint@) is None && error == RouteError::InvalidRoutes,
        },
{
    let chars = chars_of(endpoint);
    let at = find_char(&chars, '=', 0);
    if at >= chars.len() {
        return Err(RouteError::InvalidRoutes);
    }
    let word = text_between(&chars, 0, at);
    let router_url = text_between(&chars, at + 1, chars.len());
    let kind = if same_text(word.as_str(), "tailnet") {
        RouteKind::Tailnet
    } else if same_text(word.as_str(), "lan") {
        RouteKind::Lan
    } else if same_text(word.as_str(), "public") {
        RouteKind::Public
    } else if same_text(word.as_str(), "local") {
        RouteKind::Local
    } else {
        return Err(RouteError::InvalidRoutes);
    };
    match parse_router_url(router_url.as_str()) {
        Ok(_) => Ok(OnboardingRoute { kind, router_url, ca_pem: None }),
        Err(error) => Err(error),
    }
}

/// The routes that endpoint options name.
pub open spec fn endpoint_routes(endpoints: Seq<String>, routes: Seq<OnboardingRoute>) -> bool {
    &&& routes.len() == endpoints.len()
    &&& forall|i: int|
        0 <= i < endpoints.len() ==> (#[trigger] routes[i]).ca_pem is None && endpoint_route(
            endpoints[i]@,
        ) == Some((routes[i].kind, routes[i].router_url@))
}

/// Every endpoint option names a route.
pub open spec fn endpoints_ok(endpoints: Seq<String>) -> bool {
    forall|i: int| 0 <= i < endpoints.len() ==> endpoint_route((#[trigger] endpoints[i])@) is Some
}

fn parse_endpoints(endpoints: &Vec<String>) -> (routes: Result<Vec<OnboardingRoute>, RouteError>)
    ensures
        match routes {
            Ok(list) => endpoints_ok(endpoints@) && endpoint_routes(endpoints@, list@),
            Err(error) => !endpoints_ok(endpoints@) && error == RouteError::InvalidRoutes,
        },
{
    let mut routes: Vec<OnboardingRoute> = Vec::new();
    let mut i: usize = 0;
    while i < endpoints.len()
        invariant
            i <= endpoints@.len(),
            routes@.len() == i,
            forall|j: int|
                0 <= j < i ==> endpoint_route((#[trigger] endpoints@[j])@) is Some,
            forall|j: int|
                0 <= j < i ==> (#[trigger] routes@[j]).ca_pem is None && endpoint_route(
                    endpoints@[j]@,
                ) == Some((routes@[j].kind, routes@[j].router_url@)),
        decreases endpoints.len() - i,
    {
        match parse_endpoint(endpoints[i].as_str()) {
            Ok(route) => routes.push(route),
            Err(error) => return Err(error),
        }
        i += 1;
    }
    Ok(routes)
}

/// How far the preparation of routes has come.
#[derive(Clone, Copy, Debug, PartialEq, Eq, Structural)]
pub enum RoutePhase {
    /// What kind of route does the router's own endpoint make?
    Classify,
    ReadCa,
    /// What does Tailscale say?
    Survey,
    /// Where does the route at a place lead?
    Resolve(usize),
    /// Does the route at a place reach this server?
    Probe(usize),
    Prepared,
    Failed(RouteError),
}

/// What happened outside.
#[derive(Debug, PartialEq)]
pub enum RouteEvent {
    /// The addresses of a route's host.
    Addresses(Vec<IpAddress>),
    /// The certificate bundle that was configured.
    Ca(Option<String>),
    Snapshot(TailscaleSnapshot),
    /// The route reaches this server.
    Reached,
    Failed(RouteError),
}

/// What is to be done next.
#[derive(Clone, Copy, Debug, PartialEq, Eq, Structural)]
pub enum RouteAction {
    /// Look up the addresses of the route at a place.
    Resolve(usize),
    ReadCa,
    Snapshot,
    /// Ask the server behind the route at a place who it is.
    Probe(usize),
    Return(Option<RouteError>),
}

/// What a phase asks for.
pub open spec fn route_action(phase: RoutePhase) -> RouteAction {
    match phase {
        RoutePhase::Classify => RouteAction::Resolve(0),
        RoutePhase::ReadCa => RouteAction::ReadCa,
        RoutePhase::Survey => RouteAction::Snapshot,
        RoutePhase::Resolve(i) => RouteAction::Resolve(i),
        RoutePhase::Probe(i) => RouteAction::Probe(i),
        RoutePhase::Prepared => RouteAction::Return(None),
        RoutePhase::Failed(error) => RouteAction::Return(Some(error)),
    }
}

/// The preparation of the routes that an invitation advertises.
pub struct RoutePreparation {
    runtime: RuntimeRecord,
    routes: Vec<OnboardingRoute>,
    snapshot: Option<TailscaleSnapshot>,
    phase: RoutePhase,
}

/// Every route leads to a URL that a route may lead to.
pub open spec fn all_endpoints(routes: Seq<OnboardingRoute>) -> bool {
    forall|i: int|
        0 <= i < routes.len() ==> route_endpoint_text((#[trigger] routes[i]).router_url@)
}

/// One of the routes goes over the tailnet.
pub open spec fn has_tailnet(routes: Seq<OnboardingRoute>) -> bool {
    exists|i: int| 0 <= i < routes.len() && (#[trigger] routes[i]).kind is Tailnet
}

/// A route carries the configured certificate bundle exactly where it is reached over TLS.
pub open spec fn with_ca(
    before: Seq<OnboardingRoute>,
    ca: Option<Seq<char>>,
    after: Seq<OnboardingRoute>,
) -> bool {
    &&& after.len() == before.len()
    &&& forall|i: int|
        0 <= i < before.len() ==> {
            &&& (#[trigger] after[i]).kind == before[i].kind
            &&& after[i].router_url@ == before[i].router_url@
            &&& opt_text(after[i].ca_pem) == if "wss:"@.is_prefix_of(before[i].router_url@) {
                ca
            } else {
                opt_text(before[i].ca_pem)
            }
        }
}

impl RoutePreparation {
    pub closed spec fn record(self) -> RuntimeRecord {
        self.runtime
    }

    pub closed spec fn list(self) -> Seq<OnboardingRoute> {
        self.routes@
    }

    pub closed spec fn seen(self) -> Option<TailscaleSnapshot> {
        self.snapshot
    }

    pub closed spec fn at(self) -> RoutePhase {
        self.phase
    }

    /// The routes are well formed, the place at hand is one of the list, and past the
    /// survey Tailscale has been asked wherever a route goes over the tailnet.
    pub open spec fn wf(self) -> bool {
        let looking = self.at() is Resolve || self.at() is Probe || self.at() is Prepared;
        &&& !(self.at() is Failed) ==> all_endpoints(self.list())
        &&& self.at() is Classify ==> self.list().len() == 1
        &&& (self.at() is ReadCa || self.at() is Survey || looking) ==> routes_fault(self.list())
            is None
        &&& looking && has_tailnet(self.list()) ==> self.seen() is Some
        &&& match self.at() {
            RoutePhase::Resolve(i) => i < self.list().len(),
            RoutePhase::Probe(i) => i < self.list().len(),
            _ => true,
        }
    }
}

/// The phase behind the look at one route's addresses.
pub open spec fn resolved(p: RoutePreparation, i: int, addresses: Seq<IpAddress>) -> RoutePhase {
    let route = p.list()[i];
    match addresses_fault(addresses, route.kind) {
        Some(error) => RoutePhase::Failed(error),
        None => {
            let fault = if route.kind is Tailnet {
                owned_tailnet_fault(p.record(), parsed_url(route.router_url@)->0, p.seen()->0)
            } else {
                None
            };
            match fault {
                Some(error) => RoutePhase::Failed(error),
                None => if i + 1 < p.list().len() {
                    RoutePhase::Resolve((i + 1) as usize)
                } else {
                    RoutePhase::Probe(0)
                },
            }
        },
    }
}

/// The kind that the router's own endpoint makes: beyond the machine itself it has to be
/// reached over TLS.
pub open spec fn own_kind(url: Seq<char>, addresses: Seq<IpAddress>) -> Result<RouteKind, RouteError> {
    match kind_of_addresses(addresses) {
        Err(error) => Err(error),
        Ok(kind) => if !(kind is Local) && !(parsed_url(url) matches Some(parts) && parts.scheme
            == "wss"@) {
            Err(RouteError::InvalidRoutes)
        } else {
            Ok(kind)
        },
    }
}

/// What an event makes of the phase and of the routes.
pub open spec fn route_step(
    p: RoutePreparation,
    event: RouteEvent,
    phase: RoutePhase,
    routes: Seq<OnboardingRoute>,
) -> bool {
    match (p.at(), event) {
        (RoutePhase::Prepared, _) => phase == p.at() && routes == p.list(),
        (RoutePhase::Failed(_), _) => phase == p.at() && routes == p.list(),
        (_, RouteEvent::Failed(error)) => phase == RoutePhase::Failed(error) && routes == p.list(),
        (RoutePhase::Classify, RouteEvent::Addresses(addresses)) => match own_kind(
            p.list()[0].router_url@,
            addresses@,
        ) {
            Err(error) => phase == RoutePhase::Failed(error) && routes == p.list(),
            Ok(kind) => {
                &&& routes == p.list().update(0, (OnboardingRoute { kind, ..p.list()[0] }))
                &&& phase == if routes_fault(routes) is Some {
                    RoutePhase::Failed(RouteError::InvalidRoutes)
                } else {
                    RoutePhase::ReadCa
                }
            },
        },
        (RoutePhase::ReadCa, RouteEvent::Ca(ca)) => {
            &&& with_ca(p.list(), opt_text(ca), routes)
            &&& phase == if routes_fault(routes) is Some {
                RoutePhase::Failed(RouteError::InvalidRoutes)
            } else if has_tailnet(routes) {
                RoutePhase::Survey
            } else {
                RoutePhase::Resolve(0)
            }
        },
        (RoutePhase::Survey, RouteEvent::Snapshot(_)) => phase == RoutePhase::Resolve(0) && routes
            == p.list(),
        (RoutePhase::Resolve(i), RouteEvent::Addresses(addresses)) => phase == resolved(
            p,
            i as int,
            addresses@,
        ) && routes == p.list(),
        (RoutePhase::Probe(i), RouteEvent::Reached) => routes == p.list() && phase == if i + 1
            < p.list().len() {
            RoutePhase::Probe((i + 1) as usize)
        } else {
            RoutePhase::Prepared
        },
        _ => phase == p.at() && routes == p.list(),
    }
}

fn action_of(phase: RoutePhase) -> (action: RouteAction)
    ensures
        action == route_action(phase),
{
    match phase {
        RoutePhase::Classify => RouteAction::Resolve(0),
        RoutePhase::ReadCa => RouteAction::ReadCa,
        RoutePhase::Survey => RouteAction::Snapshot,
        RoutePhase::Resolve(i) => RouteAction::Resolve(i),
        RoutePhase::Probe(i) => RouteAction::Probe(i),
        RoutePhase::Prepared => RouteAction::Return(None),
        RoutePhase::Failed(error) => RouteAction::Return(Some(error)),
    }
}

fn any_tailnet(routes: &Vec<OnboardingRoute>) -> (yes: bool)
    ensures
        yes == has_tailnet(routes@),
{
    let mut i: usize = 0;
    while i < routes.len()
        invariant
            i <= routes@.len(),
            forall|j: int| 0 <= j < i ==> !((#[trigger] routes@[j]).kind is Tailnet),
        decreases routes.len() - i,
    {
        if matches!(routes[i].kind, RouteKind::Tailnet) {
            return true;
        }
        i += 1;
    }
    false
}

fn attach_ca(routes: &Vec<OnboardingRoute>, ca: &Option<String>) -> (with: Vec<OnboardingRoute>)
    ensures
        with_ca(routes@, opt_text(*ca), with@),
{
    let mut with: Vec<OnboardingRoute> = Vec::new();
    let mut i: usize = 0;
    while i < routes.len()
        invariant
            i <= routes@.len(),
            with@.len() == i,
            forall|j: int|
                0 <= j < i ==> {
                    &&& (#[trigger] with@[j]).kind == routes@[j].kind
                    &&& with@[j].router_url@ == routes@[j].router_url@
                    &&& opt_text(with@[j].ca_pem) == if "wss:"@.is_prefix_of(
                        routes@[j].router_url@,
                    ) {
                        opt_text(*ca)
                    } else {
                        opt_text(routes@[j].ca_pem)
                    }
                },
        decreases routes.len() - i,
    {
        let route = &routes[i];
        let chosen = if starts_with(route.router_url.as_str(), "wss:") {
            ca
        } else {
            &route.ca_pem
        };
        let ca_pem = match chosen {
            Some(pem) => Some(pem.clone()),
            None => None,
        };
        with.push(
            OnboardingRoute { kind: route.kind, router_url: route.router_url.clone(), ca_pem },
        );
        i += 1;
    }
    with
}

/// The URL of the router's own endpoint: the advertised one where there is one.
pub open spec fn own_url(runtime: RuntimeRecord) -> Seq<char> {
    match opt_text(runtime.advertised_url) {
        Some(url) => url,
        None => runtime.control_url@,
    }
}

/// The phase that the preparation begins with: the endpoint options where there are any,
/// else the router's own endpoint.
pub open spec fn first_phase(
    runtime: RuntimeRecord,
    endpoints: Seq<String>,
    routes: Seq<OnboardingRoute>,
) -> RoutePhase {
    if !record_ok(runtime) {
        RoutePhase::Failed(RouteError::InvalidRuntime)
    } else if endpoints.len() > 4 {
        RoutePhase::Failed(RouteError::InvalidRoutes)
    } else if endpoints.len() == 0 {
        if !route_endpoint_text(own_url(runtime)) {
            RoutePhase::Failed(RouteError::InvalidRoutes)
        } else if runtime.share_mode is Tailscale {
            if routes_fault(routes) is Some {
                RoutePhase::Failed(RouteError::InvalidRoutes)
            } else {
                RoutePhase::ReadCa
            }
        } else {
            RoutePhase::Classify
        }
    } else if !endpoints_ok(endpoints) || routes_fault(routes) is Some {
        RoutePhase::Failed(RouteError::InvalidRoutes)
    } else {
        RoutePhase::ReadCa
    }
}

impl RoutePreparation {
    /// Begins the preparation. Endpoint options replace the router's own endpoint.
    pub fn begin(runtime: RuntimeRecord, endpoints: &Vec<String>) -> (p: RoutePreparation)
        ensures
            p.wf(),
            p.record() == runtime,
            p.seen() is None,
            p.at() == first_phase(runtime, endpoints@, p.list()),
            record_ok(runtime) && endpoints@.len() == 0 && route_endpoint_text(own_url(runtime))
                ==> p.list().len() == 1 && p.list()[0].router_url@ == own_url(runtime)
                && p.list()[0].ca_pem is None && (runtime.share_mode is Tailscale
                ==> p.list()[0].kind is Tailnet),
            record_ok(runtime) && 0 < endpoints@.len() <= 4 && endpoints_ok(endpoints@)
                ==> endpoint_routes(endpoints@, p.list()),
    {
        let mut routes: Vec<OnboardingRoute> = Vec::new();
        if runtime.validate().is_err() {
            let phase = RoutePhase::Failed(RouteError::InvalidRuntime);
            return RoutePreparation { runtime, routes, snapshot: None, phase };
        }
        if endpoints.len() > 4 {
            let phase = RoutePhase::Failed(RouteError::InvalidRoutes);
            return RoutePreparation { runtime, routes, snapshot: None, phase };
        }
        if endpoints.len() == 0 {
            let router_url = match &runtime.advertised_url {
                Some(url) => url.clone(),
                None => runtime.control_url.clone(),
            };
            if let Err(error) = parse_router_url(router_url.as_str()) {
                let phase = RoutePhase::Failed(error);
                return RoutePreparation { runtime, routes, snapshot: None, phase };
            }
            let tailnet = matches!(runtime.share_mode, RuntimeShareMode::Tailscale);
            let kind = if tailnet {
                RouteKind::Tailnet
            } else {
                RouteKind::Local
            };
            routes.push(OnboardingRoute { kind, router_url, ca_pem: None });
            let phase = if !tailnet {
                RoutePhase::Classify
            } else if validate_routes(&routes).is_err() {
                RoutePhase::Failed(RouteError::InvalidRoutes)
            } else {
                RoutePhase::ReadCa
            };
            return RoutePreparation { runtime, routes, snapshot: None, phase };
        }
        let phase = match parse_endpoints(endpoints) {
            Ok(list) => {
                routes = list;
                proof {
                    assert forall|i: int| 0 <= i < routes@.len() implies route_endpoint_text(
                        (#[trigger] routes@[i]).router_url@,
                    ) by {
                        assert(endpoint_route(endpoints@[i]@) is Some);
                    }
                }
                if validate_routes(&routes).is_err() {
                    RoutePhase::Failed(RouteError::InvalidRoutes)
                } else {
                    RoutePhase::ReadCa
                }
            },
            Err(error) => RoutePhase::Failed(error),
        };
        RoutePreparation { runtime, routes, snapshot: None, phase }
    }

    /// What is to be done now.
    pub fn action(&self) -> (action: RouteAction)
        ensures
            action == route_action(self.at()),
    {
        action_of(self.phase)
    }

    pub fn routes(&self) -> (routes: &Vec<OnboardingRoute>)
        ensures
            routes@ == self.list(),
    {
        &self.routes
    }

    pub fn into_routes(self) -> (routes: Vec<OnboardingRoute>)
        ensures
            routes@ == self.list(),
    {
        self.routes
    }

    fn look(&self, i: usize, addresses: &Vec<IpAddress>) -> (phase: RoutePhase)
        requires
            self.wf(),
            self.at() == RoutePhase::Resolve(i),
        ensures
            phase == resolved(*self, i as int, addresses@),
    {
        let route = &self.routes[i];
        if let Err(error) = validate_addresses(addresses.as_slice(), route.kind) {
            return RoutePhase::Failed(error);
        }
        if matches!(route.kind, RouteKind::Tailnet) {
            assert(route_endpoint_text(route.router_url@));
            assert(has_tailnet(self.list()));
            match (parse_url(route.router_url.as_str()), &self.snapshot) {
                (Some(url), Some(snapshot)) => {
                    if let Err(error) = validate_owned_tailnet(&self.runtime, &url, snapshot) {
                        return RoutePhase::Failed(error);
                    }
                },
                _ => return RoutePhase::Failed(RouteError::InvalidRoutes),
            }
        }
        if i + 1 < self.routes.len() {
            RoutePhase::Resolve(i + 1)
        } else {
            RoutePhase::Probe(0)
        }
    }

    /// Takes what happened and says what to do next.
    pub fn step(&mut self, event: RouteEvent) -> (action: RouteAction)
        requires
            old(self).wf(),
        ensures
            final(self).wf(),
            final(self).record() == old(self).record(),
            route_step(*old(self), event, final(self).at(), final(self).list()),
            final(self).seen() == (match (old(self).at(), event) {
                (RoutePhase::Survey, RouteEvent::Snapshot(snapshot)) => Some(snapshot),
                _ => old(self).seen(),
            }),
            action == route_action(final(self).at()),
    {
        match self.phase {
            RoutePhase::Prepared => return action_of(self.phase),
            RoutePhase::Failed(_) => return action_of(self.phase),
            _ => {},
        }
        if let RouteEvent::Failed(error) = event {
            self.phase = RoutePhase::Failed(error);
            return action_of(self.phase);
        }
        match (self.phase, event) {
            (RoutePhase::Classify, RouteEvent::Addresses(addresses)) => {
                let url = match parse_url(self.routes[0].router_url.as_str()) {
                    Some(url) => url,
                    None => {
                        assert(route_endpoint_text(self.routes@[0].router_url@));
                        return action_of(self.phase);
                    },
                };
                match classify_addresses(addresses.as_slice()) {
                    Err(error) => {
                        self.phase = RoutePhase::Failed(error);
                    },
                    Ok(kind) => {
                        if !matches!(kind, RouteKind::Local) && !same_text(
                            url.scheme.as_str(),
                            "wss",
                        ) {
                            self.phase = RoutePhase::Failed(RouteError::InvalidRoutes);
                        } else {
                            let ghost before = self.routes@;
                            let route = &self.routes[0];
                            let ca_pem = match &route.ca_pem {
                                Some(pem) => Some(pem.clone()),
                                None => None,
                            };
                            let route = OnboardingRoute {
                                kind,
                                router_url: route.router_url.clone(),
                                ca_pem,
                            };
                            let mut routes: Vec<OnboardingRoute> = Vec::new();
                            routes.push(route);
                            assert(routes@ =~= before.update(
                                0,
                                (OnboardingRoute { kind, ..before[0] }),
                            ));
                            let valid = validate_routes(&routes).is_ok();
                            self.routes = routes;
                            self.phase = if valid {
                                RoutePhase::ReadCa
                            } else {
                                RoutePhase::Failed(RouteError::InvalidRoutes)
                            };
                        }
                    },
                }
            },
            (RoutePhase::ReadCa, RouteEvent::Ca(ca)) => {
                let routes = attach_ca(&self.routes, &ca);
                proof {
                    assert forall|i: int| 0 <= i < routes@.len() implies route_endpoint_text(
                        (#[trigger] routes@[i]).router_url@,
                    ) by {
                        assert(route_endpoint_text(self.routes@[i].router_url@));
                    }
                }
                let valid = validate_routes(&routes).is_ok();
                let tailnet = any_tailnet(&routes);
                self.routes = routes;
                self.phase = if !valid {
                    RoutePhase::Failed(RouteError::InvalidRoutes)
                } else if tailnet {
                    RoutePhase::Survey
                } else {
                    RoutePhase::Resolve(0)
                };
            },
            (RoutePhase::Survey, RouteEvent::Snapshot(snapshot)) => {
                self.snapshot = Some(snapshot);
                self.phase = RoutePhase::Resolve(0);
            },
            (RoutePhase::Resolve(i), RouteEvent::Addresses(addresses)) => {
                let phase = self.look(i, &addresses);
                self.phase = phase;
            },
            (RoutePhase::Probe(i), RouteEvent::Reached) => {
                self.phase = if i + 1 < self.routes.len() {
                    RoutePhase::Probe(i + 1)
                } else {
                    RoutePhase::Prepared
                };
            },
            _ => {},
        }
        action_of(self.phase)
    }
}

/// How the addresses of a URL's host are found.
#[derive(Debug, PartialEq)]
pub enum HostLookup {
    /// The URL itself says the address.
    Known(IpAddress),
    /// The host's name has to be looked up, for a port.
    Name(String, u16),
    Failed(RouteError),
}

/// How the addresses of a URL's host are found.
pub fn host_lookup(url: &UrlParts) -> (lookup: HostLookup)
    ensures
        match (url.model().host, lookup) {
            (Some(HostModel::Ipv4(ip)), HostLookup::Known(address)) => address == IpAddress::V4(ip),
            (Some(HostModel::Ipv6(ip)), HostLookup::Known(address)) => address == IpAddress::V6(ip),
            (Some(HostModel::Domain(name)), HostLookup::Name(text, port)) => text@ == name
                && url.known_port == Some(port),
            (Some(HostModel::Domain(_)), HostLookup::Failed(error)) => url.known_port is None
                && error == RouteError::InvalidRoutes,
            (None, HostLookup::Failed(error)) => error == RouteError::InvalidRoutes,
            _ => false,
        },
{
    match &url.host {
        Some(Host::Ipv4(ip)) => HostLookup::Known(IpAddress::V4(*ip)),
        Some(Host::Ipv6(ip)) => HostLookup::Known(IpAddress::V6(*ip)),
        Some(Host::Domain(name)) => match url.known_port {
            Some(port) => HostLookup::Name(name.clone(), port),
            None => HostLookup::Failed(RouteError::InvalidRoutes),
        },
        None => HostLookup::Failed(RouteError::InvalidRoutes),
    }
}

/// The event that a lookup of a name is: a name without addresses leaves the kind open.
pub fn looked_up(addresses: Option<Vec<IpAddress>>) -> (event: RouteEvent)
    ensures
        event == (match addresses {
            Some(list) => if list@.len() > 0 {
                RouteEvent::Addresses(list)
            } else {
                RouteEvent::Failed(RouteError::KindRequired)
            },
            None => RouteEvent::Failed(RouteError::KindRequired),
        }),
{
    match addresses {
        Some(list) => if list.len() > 0 {
            RouteEvent::Addresses(list)
        } else {
            RouteEvent::Failed(RouteError::KindRequired)
        },
        None => RouteEvent::Failed(RouteError::KindRequired),
    }
}

/// Routes that are prepared may be advertised: a ticket takes them, each leads to a URL
/// that a route may lead to, and the last thing that happened was that one of them reached
/// the server.
pub proof fn prepared_routes_are_valid(
    before: RoutePreparation,
    event: RouteEvent,
    after: RoutePreparation,
)
    requires
        before.wf(),
        !(before.at() is Prepared),
        route_step(before, event, after.at(), after.list()),
        after.at() is Prepared,
    ensures
        routes_fault(after.list()) is None,
        all_endpoints(after.list()),
        before.at() == RoutePhase::Probe((after.list().len() - 1) as usize),
        event is Reached,
{
}

} // verus!
