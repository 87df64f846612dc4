//! What holds of invitations: which routes they may name, what makes a ticket good, and how an
//! invitation is issued.

use vstd::prelude::*;

use crate::credentials::CredentialFile;
use crate::digest::sha256_text;
use crate::ids::{simple_text, Uuid};
use crate::net::{parsed_url, HostModel, IpAddress, UrlParts};
use crate::onboarding::ca::ca_bundle;
use crate::onboarding::issue::{
    accept_info, brought_after, choose_ca, issue_next, material_fault, rendered_from_after,
    ticket_after, BootstrapFacts, InviteResponse, IssueEvent, IssueMachine, IssuePhase,
    PromptError, PromptMaterial,
};
use crate::onboarding::routes::{
    address_kind, classify_addresses, host_lookup, kind_of_first, looked_up, parse_endpoint,
    parse_router_url, route_action, route_step, validate_addresses, HostLookup, RouteAction,
    RouteError, RouteEvent, RoutePhase, RoutePreparation,
};
use crate::onboarding::{
    artifacts_fault_before, check_route_url, invite_subject, no_artifact_fault, no_route_fault,
    plain_endpoint, profile_name, routes_fault_before, validate_artifacts, validate_routes,
    BootstrapArtifact, IssuedInvite, OnboardingInfo, OnboardingRoute, OnboardingTicket, RouteKind,
    TicketError, TicketVerdicts,
};
use crate::process::RuntimeRecord;
use crate::text::opt_text;

verus! {

/// Which URLs a route of a kind may lead to: only a tailnet and the machine itself are reached
/// without TLS, a tailnet only at one of its own addresses, and nothing but a local route
/// leads to the machine itself.
pub proof fn routes_lead_where_their_kind_says(kind: RouteKind, url: UrlParts, fits: bool)
    requires
        call_ensures(check_route_url, (kind, &url), fits),
    ensures
        fits ==> url.model().path == "/ws"@ && url.model().username.len() == 0
            && url.model().password is None && url.model().query is None && url.model().fragment
            is None && url.model().host is Some,
        fits && (kind is Lan || kind is Public) ==> url.model().scheme == "wss"@,
        fits && kind is Tailnet ==> url.model().scheme == "ws"@ && (url.model().host matches Some(
            HostModel::Ipv4(ip),
        ) && ip.a == 100 && 64 <= ip.b <= 127),
        fits && (url.model().host matches Some(HostModel::Ipv4(ip)) && ip.a == 127) ==> kind
            is Local,
        fits && kind is Local ==> match url.model().host {
            Some(HostModel::Ipv4(ip)) => ip.a == 127,
            Some(HostModel::Ipv6(ip)) => ip.loopback(),
            _ => true,
        },
        plain_endpoint(url.model()) && kind is Tailnet && url.model().scheme == "ws"@ && (
        url.model().host matches Some(HostModel::Ipv4(ip)) && ip.a == 100 && 64 <= ip.b <= 127)
            ==> fits,
        plain_endpoint(url.model()) && (kind is Lan || kind is Public) && url.model().scheme
            == "wss"@ && (url.model().host matches Some(HostModel::Ipv4(ip)) && ip.a == 10)
            ==> fits,
        plain_endpoint(url.model()) && kind is Local && url.model().scheme == "ws"@ && (
        url.model().host matches Some(HostModel::Ipv4(ip)) && ip.a == 127) ==> fits,
        plain_endpoint(url.model()) && kind is Local && url.model().scheme == "wss"@ && (
        url.model().host matches Some(HostModel::Ipv4(ip)) && ip.a == 127) ==> fits,
{
}

/// A route that is good by itself and beside the others.
pub open spec fn good_route(routes: Seq<OnboardingRoute>, i: int) -> bool {
    &&& forall|j: int| 0 <= j < i ==> (#[trigger] routes[j]).kind != routes[i].kind
    &&& routes[i].kind is Local ==> routes.len() == 1
    &&& parsed_url(routes[i].router_url@) matches Some(url)
    &&& crate::onboarding::route_url_ok(routes[i].kind, url)
    &&& opt_text(routes[i].ca_pem) matches Some(pem) ==> url.scheme == "wss"@ && ca_bundle(pem)
}

/// A list of routes is good exactly where there are one to four, each is good, no kind stands
/// twice and a local route stands alone.
pub proof fn lists_of_routes_are_good_route_by_route(
    routes: Vec<OnboardingRoute>,
    verdict: Result<(), TicketError>,
)
    requires
        call_ensures(validate_routes, (&routes,), verdict),
    ensures
        verdict is Ok <==> 1 <= routes@.len() <= 4 && forall|i: int|
            0 <= i < routes@.len() ==> #[trigger] good_route(routes@, i),
        verdict is Err ==> verdict == Err::<(), _>(TicketError::InvalidRoute) || verdict == Err::<
            (),
            _,
        >(TicketError::InvalidCa),
{
    let list = routes@;
    routes_are_faultless_or_not(list, list.len() as int);
    if verdict is Ok {
        assert forall|i: int| 0 <= i < list.len() implies #[trigger] good_route(list, i) by {
            no_route_fault(list, list.len() as int, i);
        }
    }
}

proof fn routes_are_faultless_or_not(routes: Seq<OnboardingRoute>, n: int)
    requires
        0 <= n <= routes.len(),
    ensures
        (forall|i: int| 0 <= i < n ==> #[trigger] good_route(routes, i)) ==> routes_fault_before(
            routes,
            n,
        ) is None,
        routes_fault_before(routes, n) matches Some(fault) ==> fault is InvalidRoute
            || fault is InvalidCa,
    decreases n,
{
    if n > 0 {
        routes_are_faultless_or_not(routes, n - 1);
        if forall|i: int| 0 <= i < n ==> #[trigger] good_route(routes, i) {
            assert(good_route(routes, n - 1));
            assert(forall|j: int|
                0 <= j < n - 1 ==> (#[trigger] routes[j]).kind != routes[n - 1].kind);
        }
    }
}

/// An artifact that is good by itself and beside the others.
pub open spec fn good_artifact(artifacts: Seq<BootstrapArtifact>, i: int) -> bool {
    let artifact = artifacts[i];
    &&& artifact.target@ == "aarch64-apple-darwin"@ || artifact.target@ == "x86_64-apple-darwin"@
        || artifact.target@ == "aarch64-unknown-linux-gnu"@ || artifact.target@
        == "x86_64-unknown-linux-gnu"@
    &&& forall|j: int| 0 <= j < i ==> (#[trigger] artifacts[j]).target@ != artifact.target@
    &&& artifact.binary_file@ == "asr-"@ + artifact.target@
    &&& artifact.archive_file@ == "agent-session-router-"@ + artifact.target@ + ".tar.gz"@
    &&& sha256_text(artifact.binary_sha256@)
    &&& sha256_text(artifact.archive_sha256@)
    &&& 1 <= artifact.binary_bytes <= 536_870_912
    &&& 1 <= artifact.archive_bytes <= 536_870_912
}

/// A list of artifacts is good exactly where there are one to four, each is good and no target
/// stands twice.
pub proof fn lists_of_artifacts_are_good_one_by_one(
    artifacts: Vec<BootstrapArtifact>,
    verdict: Result<(), TicketError>,
)
    requires
        call_ensures(validate_artifacts, (&artifacts,), verdict),
    ensures
        verdict is Ok <==> 1 <= artifacts@.len() <= 4 && forall|i: int|
            0 <= i < artifacts@.len() ==> #[trigger] good_artifact(artifacts@, i),
        verdict is Err ==> verdict == Err::<(), _>(TicketError::Invalid) || verdict == Err::<(), _>(
            TicketError::UnsupportedTarget,
        ),
{
    let list = artifacts@;
    artifacts_are_faultless_or_not(list, list.len() as int);
    if verdict is Ok {
        assert forall|i: int| 0 <= i < list.len() implies #[trigger] good_artifact(list, i) by {
            no_artifact_fault(list, list.len() as int, i);
            let k = choose|k: int|
                0 <= k < 4 && list[i].target@ == #[trigger] crate::onboarding::target_text(k);
            assert(0 <= k < 4);
        }
    }
}

proof fn artifacts_are_faultless_or_not(artifacts: Seq<BootstrapArtifact>, n: int)
    requires
        0 <= n <= artifacts.len(),
    ensures
        (forall|i: int| 0 <= i < n ==> #[trigger] good_artifact(artifacts, i))
            ==> artifacts_fault_before(artifacts, n) is None,
        artifacts_fault_before(artifacts, n) matches Some(fault) ==> fault is Invalid
            || fault is UnsupportedTarget,
    decreases n,
{
    if n > 0 {
        artifacts_are_faultless_or_not(artifacts, n - 1);
        if forall|i: int| 0 <= i < n ==> #[trigger] good_artifact(artifacts, i) {
            assert(good_artifact(artifacts, n - 1));
            assert(crate::onboarding::target_text(0) == "aarch64-apple-darwin"@);
            assert(crate::onboarding::target_text(1) == "x86_64-apple-darwin"@);
            assert(crate::onboarding::target_text(2) == "aarch64-unknown-linux-gnu"@);
            assert(crate::onboarding::target_text(3) == "x86_64-unknown-linux-gnu"@);
        }
    }
}

/// A ticket can be used exactly where it is of this version, names its server and itself, has
/// an expiry, is for a profile that may be made, and its secret, its manifest,
/// its routes and its artifacts are in order.
pub proof fn tickets_are_good_as_a_whole(
    ticket: OnboardingTicket,
    verdicts: TicketVerdicts,
    verdict: Result<(), TicketError>,
    routes: Result<(), TicketError>,
    artifacts: Result<(), TicketError>,
)
    requires
        call_ensures(OnboardingTicket::validate, (&ticket, verdicts), verdict),
        call_ensures(validate_routes, (&ticket.routes,), routes),
        call_ensures(validate_artifacts, (&ticket.artifacts,), artifacts),
    ensures
        ({
            let itself = ticket.version == 1 && ticket.server_id.value != 0
                && ticket.invite_id.value != 0 && ticket.expires_at > 0 && ticket.profile_name@
                != "local"@ && verdicts.profile_name && verdicts.invite_token && sha256_text(
                ticket.manifest_sha256@,
            );
            &&& verdict is Ok <==> itself && routes is Ok && artifacts is Ok
            &&& !itself ==> verdict == Err::<(), _>(TicketError::Invalid)
            &&& itself && routes is Err ==> verdict == routes
            &&& itself && routes is Ok ==> verdict == artifacts
        }),
{
}

/// Under which subject an invitation is enrolled and which profile it proposes: both made of
/// what the server and the invitation are called; the built-in profile is never proposed.
pub proof fn names_are_made_of_identifiers(
    invite_id: Uuid,
    subject: String,
    explicit: Option<&str>,
    server_id: Uuid,
    accepted: bool,
    name: Result<String, TicketError>,
)
    requires
        call_ensures(invite_subject, (invite_id,), subject),
        call_ensures(profile_name, (explicit, server_id, accepted), name),
    ensures
        subject@ == "asr-"@ + simple_text(invite_id.value),
        name is Ok ==> accepted && server_id.value != 0 && name->Ok_0@ != "local"@ && (explicit
            is Some ==> name->Ok_0@ == explicit->0@) && (explicit is None ==> name->Ok_0@
            == "asr-"@ + simple_text(server_id.value).take(8)),
        name is Err ==> name == Err::<String, _>(TicketError::Invalid),
        accepted && server_id.value != 0 && explicit is Some && explicit->0@ != "local"@ ==> name
            is Ok,
{
    crate::ids::simple_text_is_hex(server_id.value);
    assert(simple_text(server_id.value).take(8) =~= simple_text(server_id.value).subrange(0, 8));
}

/// What one address says of the route that leads to it: the machine itself, a private network
/// or the public internet; anything else leaves it open or cannot be reached.
pub open spec fn speaks_for(address: IpAddress, kind: RouteKind) -> bool {
    match kind {
        RouteKind::Local => address.loopback(),
        RouteKind::Lan => !address.loopback() && (match address {
            IpAddress::V4(ip) => ip.a == 10 || (ip.a == 172 && 16 <= ip.b <= 31) || (ip.a == 192
                && ip.b == 168),
            IpAddress::V6(ip) => 0xfc00 <= ip.s0 <= 0xfdff,
        }),
        RouteKind::Public => !address.loopback() && (match address {
            IpAddress::V4(ip) => ip.global(),
            IpAddress::V6(ip) => ip.global() && !(0xfc00 <= ip.s0 <= 0xfdff),
        }),
        RouteKind::Tailnet => false,
    }
}

/// Some addresses make a route of a kind exactly where there is one and every one of them
/// speaks for that kind.
pub proof fn addresses_agree_on_a_kind(
    addresses: &[IpAddress],
    kind: Result<RouteKind, RouteError>,
)
    requires
        call_ensures(classify_addresses, (addresses,), kind),
    ensures
        forall|k: RouteKind|
            kind == Ok::<_, RouteError>(k) <==> addresses@.len() > 0 && forall|i: int|
                0 <= i < addresses@.len() ==> #[trigger] speaks_for(addresses@[i], k),
        addresses@.len() == 0 ==> kind == Err::<RouteKind, _>(RouteError::KindRequired),
        kind is Err ==> kind == Err::<RouteKind, _>(RouteError::KindRequired) || kind == Err::<
            RouteKind,
            _,
        >(RouteError::InvalidRoutes),
{
    let n = addresses@.len() as int;
    assert forall|k: RouteKind| kind == Ok::<_, RouteError>(k) <==> n > 0 && forall|i: int|
        0 <= i < n ==> #[trigger] speaks_for(addresses@[i], k) by {
        first_addresses_agree(addresses@, n, k);
    }
    first_addresses_fail_alike(addresses@, n);
}

proof fn first_addresses_agree(addresses: Seq<IpAddress>, n: int, k: RouteKind)
    requires
        0 <= n <= addresses.len(),
    ensures
        kind_of_first(addresses, n) == Ok::<_, RouteError>(Some(k)) <==> n > 0 && forall|i: int|
            0 <= i < n ==> #[trigger] speaks_for(addresses[i], k),
        kind_of_first(addresses, n) == Ok::<_, RouteError>(None::<RouteKind>) <==> n == 0,
    decreases n,
{
    if n > 0 {
        first_addresses_agree(addresses, n - 1, k);
        let last = addresses[n - 1];
        assert(address_kind(last) == Ok::<_, RouteError>(k) <==> speaks_for(last, k));
        if kind_of_first(addresses, n) == Ok::<_, RouteError>(Some(k)) {
            if n > 1 {
                assert(kind_of_first(addresses, n - 1) == Ok::<_, RouteError>(Some(k)));
            }
        }
        if n > 0 && forall|i: int| 0 <= i < n ==> #[trigger] speaks_for(addresses[i], k) {
            assert(speaks_for(addresses[n - 1], k));
        }
    }
}

proof fn first_addresses_fail_alike(addresses: Seq<IpAddress>, n: int)
    ensures
        kind_of_first(addresses, n) matches Err(error) ==> error is KindRequired
            || error is InvalidRoutes,
    decreases n,
{
    if n > 0 {
        first_addresses_fail_alike(addresses, n - 1);
    }
}

/// The addresses of a route fit its kind where there is one, each can be reached, and each is
/// of the machine itself exactly where the route is local.
pub proof fn addresses_fit_their_route(
    addresses: &[IpAddress],
    kind: RouteKind,
    verdict: Result<(), RouteError>,
)
    requires
        call_ensures(validate_addresses, (addresses, kind), verdict),
    ensures
        verdict is Ok <==> addresses@.len() > 0 && forall|i: int|
            0 <= i < addresses@.len() ==> !(#[trigger] addresses@[i]).unusable() && (
            addresses@[i].loopback() <==> kind is Local),
        addresses@.len() == 0 ==> verdict == Err::<(), _>(RouteError::KindRequired),
        addresses@.len() > 0 && verdict is Err ==> verdict == Err::<(), _>(
            RouteError::InvalidRoutes,
        ),
{
}

/// Which addresses no router can be reached at, and which are of the machine itself.
pub proof fn some_addresses_lead_nowhere(address: IpAddress)
    ensures
        address matches IpAddress::V4(ip) && ip.a == 0 && ip.b == 0 && ip.c == 0 && ip.d == 0
            ==> address.unusable(),
        address matches IpAddress::V4(ip) && ip.a == 169 && ip.b == 254 ==> address.unusable(),
        address matches IpAddress::V4(ip) && 224 <= ip.a <= 239 ==> address.unusable(),
        address matches IpAddress::V4(ip) && 1 <= ip.a <= 223 && ip.a != 169
            ==> !address.unusable(),
        address matches IpAddress::V4(ip) ==> (address.loopback() <==> ip.a == 127),
        address matches IpAddress::V6(ip) ==> (address.loopback() <==> ip.s0 == 0 && ip.s1 == 0
            && ip.s2 == 0 && ip.s3 == 0 && ip.s4 == 0 && ip.s5 == 0 && ip.s6 == 0 && ip.s7 == 1),
        speaks_for(address, RouteKind::Public) ==> !speaks_for(address, RouteKind::Lan)
            && !address.unusable(),
        address matches IpAddress::V4(ip) && (ip.a == 8 || ip.a == 1) ==> speaks_for(
            address,
            RouteKind::Public,
        ),
        address matches IpAddress::V4(ip) && ip.a == 100 && 64 <= ip.b <= 127 ==> !speaks_for(
            address,
            RouteKind::Public,
        ) && !speaks_for(address, RouteKind::Lan),
{
}

/// An endpoint option is a word for a kind, an equals sign and a URL: the route is of that kind
/// and leads to that URL, and any other option is refused.
pub proof fn endpoints_name_a_kind_and_a_url(
    word: Seq<char>,
    url: Seq<char>,
    endpoint: &str,
    route: Result<OnboardingRoute, RouteError>,
    parsed: Result<UrlParts, RouteError>,
    text: &str,
)
    requires
        call_ensures(parse_endpoint, (endpoint,), route),
        endpoint@ == word + "="@ + url,
        forall|i: int| 0 <= i < word.len() ==> #[trigger] word[i] != '=',
        text@ == url,
        call_ensures(parse_router_url, (text,), parsed),
    ensures
        route is Ok <==> parsed is Ok && (word == "tailnet"@ || word == "lan"@ || word == "public"@
            || word == "local"@),
        route is Ok ==> route->Ok_0.router_url@ == url && route->Ok_0.ca_pem is None && (word
            == "tailnet"@ <==> route->Ok_0.kind is Tailnet) && (word == "lan"@
            <==> route->Ok_0.kind is Lan) && (word == "public"@ <==> route->Ok_0.kind is Public)
            && (word == "local"@ <==> route->Ok_0.kind is Local),
        route is Err ==> route == Err::<OnboardingRoute, _>(RouteError::InvalidRoutes),
{
    reveal_strlit("=");
    reveal_strlit("tailnet");
    reveal_strlit("lan");
    reveal_strlit("public");
    reveal_strlit("local");
    assert("tailnet"@.len() == 7 && "lan"@.len() == 3 && "public"@.len() == 6 && "local"@.len()
        == 5);
    first_sign_is_found(endpoint@, word.len() as int, 0);
    assert(endpoint@.subrange(0, word.len() as int) =~= word);
    assert(endpoint@.subrange(word.len() as int + 1, endpoint@.len() as int) =~= url);
}

proof fn first_sign_is_found(text: Seq<char>, at: int, from: int)
    requires
        0 <= from <= at < text.len(),
        text[at] == '=',
        forall|i: int| from <= i < at ==> #[trigger] text[i] != '=',
    ensures
        crate::text::place_of(text, '=', from) == at,
    decreases at - from,
{
    if from < at {
        first_sign_is_found(text, at, from + 1);
    }
}

/// Where the addresses of a host come from: from the URL itself, or from a lookup of its name
/// for its port; a name without addresses leaves the kind of the route open.
pub proof fn hosts_are_looked_up_by_name(
    url: UrlParts,
    lookup: HostLookup,
    addresses: Option<Vec<IpAddress>>,
    event: RouteEvent,
)
    requires
        call_ensures(host_lookup, (&url,), lookup),
        call_ensures(looked_up, (addresses,), event),
    ensures
        url.model().host matches Some(HostModel::Ipv4(ip)) ==> lookup == HostLookup::Known(
            IpAddress::V4(ip),
        ),
        url.model().host matches Some(HostModel::Ipv6(ip)) ==> lookup == HostLookup::Known(
            IpAddress::V6(ip),
        ),
        (url.model().host matches Some(HostModel::Domain(name)) && url.known_port is Some) ==> (
        lookup matches HostLookup::Name(text, port) && text@ == url.model().host->0->Domain_0
            && port == url.known_port->0),
        event is Addresses <==> addresses is Some && addresses->0@.len() > 0,
        event matches RouteEvent::Addresses(list) ==> Some(list) == addresses,
        !(event is Addresses) ==> event == RouteEvent::Failed(RouteError::KindRequired),
{
}

/// What the preparation of routes asks for in a state.
pub open spec fn route_asks(p: RoutePreparation) -> RouteAction {
    route_action(p.at())
}

/// A step of the preparation of routes.
pub open spec fn route_steps(
    a: RoutePreparation,
    event: RouteEvent,
    b: RoutePreparation,
) -> bool {
    &&& a.wf()
    &&& b.wf()
    &&& b.record() == a.record()
    &&& route_step(a, event, b.at(), b.list())
    &&& b.seen() == (match (a.at(), event) {
        (RoutePhase::Survey, RouteEvent::Snapshot(snapshot)) => Some(snapshot),
        _ => a.seen(),
    })
}

/// Every call of the preparation takes such a step.
pub proof fn route_calls_take_steps(
    p: &mut RoutePreparation,
    event: RouteEvent,
    action: RouteAction,
)
    requires
        old(p).wf(),
        call_ensures(RoutePreparation::step, (p, event), action),
    ensures
        route_steps(*old(p), event, *final(p)),
        action == route_asks(*final(p)),
{
}

/// How the routes are looked at: one behind the other, each at its addresses, and then each is
/// asked for the server behind it; only once every one of them has reached it the routes are
/// prepared. What fails on the way fails the preparation as it is.
pub proof fn routes_are_looked_at_one_by_one(
    a: RoutePreparation,
    event: RouteEvent,
    b: RoutePreparation,
)
    requires
        route_steps(a, event, b),
    ensures
        route_asks(b) == RouteAction::Return(None) && !(route_asks(a) is Return) ==> event
            is Reached && route_asks(a) == RouteAction::Probe((a.list().len() - 1) as usize),
        route_asks(a) matches RouteAction::Probe(i) && event is Reached && i + 1 < a.list().len()
            ==> route_asks(b) == RouteAction::Probe((route_asks(a)->Probe_0 + 1) as usize),
        route_asks(a) matches RouteAction::Probe(i) && event is Reached && i + 1
            == a.list().len() ==> route_asks(b) == RouteAction::Return(None),
        route_asks(b) matches RouteAction::Probe(i) && !(route_asks(a) is Probe)
            ==> route_asks(b) == RouteAction::Probe(0) && event is Addresses && a.at()
            == RoutePhase::Resolve((a.list().len() - 1) as usize),
        event matches RouteEvent::Failed(error) && !(route_asks(a) is Return) ==> route_asks(b)
            == RouteAction::Return(Some(event->Failed_0)),
        route_asks(a) is ReadCa && event is Ca ==> (route_asks(b) is Return || b.list().len()
            == a.list().len() && forall|i: int|
            0 <= i < b.list().len() ==> (#[trigger] b.list()[i]).kind == a.list()[i].kind
                && b.list()[i].router_url@ == a.list()[i].router_url@),
        route_asks(a) is ReadCa && event is Ca && !(route_asks(b) is Return) ==> (route_asks(b)
            is Snapshot <==> exists|i: int|
            0 <= i < b.list().len() && (#[trigger] b.list()[i]).kind is Tailnet),
        route_asks(a) is Return ==> route_asks(b) == route_asks(a),
{
}

/// A state of the issuing of an invitation, and the next one.
pub open spec fn issue_steps(a: IssueMachine, event: IssueEvent, b: IssueMachine) -> bool {
    &&& a.wf()
    &&& b.wf()
    &&& b.asked() == a.asked()
    &&& b.at() == issue_next(a, event)
    &&& ticket_after(a, event, b.draft())
    &&& brought_after(a, event, b)
    &&& b.rendered_from() == rendered_from_after(a, event)
}

/// Every call of the issuing takes such a step.
pub proof fn issue_calls_take_steps(m: &mut IssueMachine, event: IssueEvent, phase: IssuePhase)
    requires
        old(m).wf(),
        call_ensures(IssueMachine::step, (m, event), phase),
    ensures
        issue_steps(*old(m), event, *final(m)),
        phase == final(m).at(),
{
}

/// The issuing of an invitation, where nothing goes wrong: the router must run and answer, the
/// administrator's credential and the assets are there, the server says who it is and that it
/// serves those assets, the prompt is rehearsed, and then the router is asked. What is issued
/// is the ticket of that server for the asked workspace and provider, over the prepared routes,
/// with those assets and with what the router handed out.
#[verifier::rlimit(60)]
pub proof fn invitations_are_issued_in_order(
    m: Seq<IssueMachine>,
    e: Seq<IssueEvent>,
    runtime: RuntimeRecord,
    admin: CredentialFile,
    facts: BootstrapFacts,
    info: OnboardingInfo,
    routes: Vec<OnboardingRoute>,
    bytes: usize,
    rehearsed: PromptMaterial,
    invite: IssuedInvite,
    rendered: PromptMaterial,
)
    requires
        m.len() == e.len() + 1,
        forall|i: int| 0 <= i < e.len() ==> issue_steps(m[i], #[trigger] e[i], m[i + 1]),
        m[0].at() is Inspect,
        admin.role is Operator,
        admin.subject@ == "admin"@,
        admin.workspaces@.len() == 0,
        info.version == 1,
        info.protocol_version == 2,
        info.server_id.value != 0,
        opt_text(info.manifest_sha256) == Some(facts.manifest_sha256@),
        opt_text(m[0].asked().name) matches Some(name) && name != "local"@,
        bytes <= 131_072,
        material_fault(m[9].draft()->0, rehearsed) is None,
        invite.server_id == info.server_id,
        invite.workspace@ == m[0].asked().workspace@,
        invite.provider == m[0].asked().provider,
        material_fault(m[12].draft()->0, rendered) is None,
        e == seq![
            IssueEvent::Done,
            IssueEvent::Runtime(Some(runtime)),
            IssueEvent::Done,
            IssueEvent::Admin(admin),
            IssueEvent::Assets(Some(facts)),
            IssueEvent::Info(200, Some(info)),
            IssueEvent::ProfileVerdict(true),
            IssueEvent::Routes(Ok(routes)),
            IssueEvent::Encoded(bytes),
            IssueEvent::Material(rehearsed),
            IssueEvent::Done,
            IssueEvent::Response(InviteResponse::Issued(invite)),
            IssueEvent::Material(rendered),
        ],
    ensures
        m[1].at() is ReadRuntime,
        m[2].at() is Probe,
        m[3].at() is ReadAdmin,
        m[4].at() is LoadAssets,
        m[5].at() is AskInfo,
        m[6].at() is JudgeProfile,
        m[7].at() is PrepareRoutes,
        m[8].at() is Encode,
        m[9].at() is Rehearse,
        m[10].at() is Connect,
        m[11].at() is Issue,
        m[12].at() is Render,
        m[13].at() is Issued,
        m[13].target() == Some(runtime),
        m[13].draft() matches Some(ticket) && ticket.version == 1 && ticket.server_id
            == info.server_id && ticket.invite_id == invite.invite_id && ticket.invite_token@
            == invite.invite_token@ && ticket.expires_at == invite.expires_at
            && ticket.profile_name@ == opt_text(m[0].asked().name)->0 && ticket.workspace@
            == m[0].asked().workspace@ && ticket.provider == m[0].asked().provider
            && ticket.routes@ == routes@ && ticket.manifest_sha256@ == facts.manifest_sha256@
            && ticket.artifacts@ == facts.artifacts@,
{
    assert(issue_steps(m[0], e[0], m[1]));
    assert(issue_steps(m[1], e[1], m[2]));
    assert(issue_steps(m[2], e[2], m[3]));
    assert(issue_steps(m[3], e[3], m[4]));
    assert(issue_steps(m[4], e[4], m[5]));
    assert(issue_steps(m[5], e[5], m[6]));
    assert(issue_steps(m[6], e[6], m[7]));
    assert(issue_steps(m[7], e[7], m[8]));
    assert(issue_steps(m[8], e[8], m[9]));
    assert(issue_steps(m[9], e[9], m[10]));
    assert(issue_steps(m[10], e[10], m[11]));
    assert(issue_steps(m[11], e[11], m[12]));
    assert(issue_steps(m[12], e[12], m[13]));
}

/// What is wrong on the way to an invitation is reported for what it is.
pub proof fn issuing_fails_for_its_reason(a: IssueMachine, event: IssueEvent, b: IssueMachine)
    requires
        issue_steps(a, event, b),
    ensures
        a.at() is Inspect && event is Missing ==> b.at() == IssuePhase::Failed(
            PromptError::RouterNotRunning,
        ),
        a.at() is ReadRuntime && event == IssueEvent::Runtime(None) ==> b.at()
            == IssuePhase::Failed(PromptError::RouterNotRunning),
        a.at() is ReadAdmin && (event matches IssueEvent::Admin(credential) && !(
        credential.role is Operator && credential.subject@ == "admin"@
            && credential.workspaces@.len() == 0)) ==> b.at() == IssuePhase::Failed(
            PromptError::PermissionDenied,
        ),
        a.at() is LoadAssets && event == IssueEvent::Assets(None) ==> b.at() == IssuePhase::Failed(
            PromptError::AssetsMissing,
        ),
        a.at() is AskInfo && (event matches IssueEvent::Info(status, _) && status != 200) ==> b.at()
            == IssuePhase::Failed(PromptError::OwnedRouterUnreachable),
        a.at() is AskInfo && event is Untrusted ==> b.at() == IssuePhase::Failed(
            PromptError::RouteTlsFailed,
        ),
        a.at() is JudgeProfile && event == IssueEvent::ProfileVerdict(false) ==> b.at()
            == IssuePhase::Failed(PromptError::InvalidProfile),
        a.at() is PrepareRoutes && (event matches IssueEvent::Routes(Err(error))) ==> b.at()
            == IssuePhase::Failed(PromptError::Route(event->Routes_0->Err_0)),
        a.at() is Encode && (event matches IssueEvent::Encoded(bytes) && bytes > 131_072)
            ==> b.at() == IssuePhase::Failed(PromptError::TicketTooLarge),
        a.at() is Connect && event is Failed ==> b.at() == IssuePhase::Failed(
            PromptError::AdminConnectionFailed,
        ),
        a.at() is Issue && event is Failed ==> b.at() == IssuePhase::Failed(
            PromptError::IssueUnconfirmed,
        ),
        a.at() is Issue && (event matches IssueEvent::Response(InviteResponse::Refused(code)))
            ==> b.at() == IssuePhase::Failed(
            PromptError::Router(event->Response_0->Refused_0),
        ),
        a.at() is Issue && event is Response && b.at() is Render ==> (event->Response_0 matches
            InviteResponse::Issued(invite) && invite.server_id == a.draft()->0.server_id
            && invite.workspace@ == a.draft()->0.workspace@ && invite.provider
            == a.draft()->0.provider),
        a.at() is Probe && event is Failed ==> b.at() == IssuePhase::Failed(
            PromptError::OwnedRouterUnreachable,
        ),
        (a.at() is Inspect || a.at() is ReadRuntime) && event is Failed ==> b.at()
            == IssuePhase::Failed(PromptError::OwnedRuntimeInvalid),
        a.at() is ReadAdmin && event is Failed ==> b.at() == IssuePhase::Failed(
            PromptError::AdminCredentialInvalid,
        ),
        a.at() is LoadAssets && event is Failed ==> b.at() == IssuePhase::Failed(
            PromptError::AssetsInvalid,
        ),
{
}

/// What a server says of itself counts where it answered well, in this version of the protocol
/// and under a name; the certificates are those that are given, before those of the
/// environment.
pub proof fn servers_and_certificates_are_chosen(
    status: u16,
    decoded: Option<OnboardingInfo>,
    info: Result<OnboardingInfo, PromptError>,
    given: Option<String>,
    environment: Option<String>,
    path: Option<String>,
)
    requires
        call_ensures(accept_info, (status, decoded), info),
        call_ensures(choose_ca, (&given, environment), path),
    ensures
        info is Ok <==> status == 200 && (decoded matches Some(said) && said.version == 1
            && said.protocol_version == 2 && said.server_id.value != 0),
        info is Ok ==> Some(info->Ok_0) == decoded,
        status != 200 ==> info == Err::<OnboardingInfo, _>(PromptError::OwnedRouterUnreachable),
        status == 200 && info is Err ==> info == Err::<OnboardingInfo, _>(
            PromptError::InvalidServerInfo,
        ),
        given is Some ==> opt_text(path) == opt_text(given),
        given is None && environment is Some && environment->0@.len() > 0 ==> opt_text(path)
            == opt_text(environment),
        given is None && (environment is None || environment->0@.len() == 0) ==> path is None,
{
}

} // verus!
