//! The routes of an invitation.

use asr::ids::Uuid;
use asr::net::{Host, IpAddress, Ipv4, UrlParts};
use asr::onboarding::routes::{
    classify_addresses, host_lookup, looked_up, parse_endpoint, parse_router_url,
    validate_addresses, validate_owned_tailnet, HostLookup, RouteAction, RouteError, RouteEvent,
    RoutePreparation,
};
use asr::onboarding::RouteKind;
use asr::process::{OwnedServe, RuntimeRecord, RuntimeShareMode, TailscaleSnapshot};

fn address(value: &str) -> IpAddress {
    let text = if value.contains(':') {
        format!("ws://[{value}]/ws")
    } else {
        format!("ws://{value}/ws")
    };
    match UrlParts::parse(&text).unwrap().host.unwrap() {
        Host::Ipv4(ip) => IpAddress::V4(ip),
        Host::Ipv6(ip) => IpAddress::V6(ip),
        Host::Domain(name) => panic!("{name} is no address"),
    }
}

fn classify(values: &[&str]) -> Result<RouteKind, RouteError> {
    classify_addresses(&values.iter().map(|value| address(value)).collect::<Vec<_>>())
}

#[test]
fn classification_requires_consistent_routable_addresses() {
    assert_eq!(
        classify(&["10.2.3.4", "172.31.0.1", "192.168.0.1", "fd00::1"]).unwrap(),
        RouteKind::Lan
    );
    assert_eq!(
        classify(&["8.8.8.8", "2606:4700:4700::1111"]).unwrap(),
        RouteKind::Public
    );
    assert_eq!(classify(&["127.0.0.1", "::1"]).unwrap(), RouteKind::Local);
    for addresses in [
        &["10.0.0.1", "8.8.8.8"][..],
        &["127.0.0.1", "10.0.0.1"],
        &["100.64.0.1"],
        &["192.0.2.1"],
        &["2001:db8::1"],
        &[],
    ] {
        assert_eq!(classify(addresses).unwrap_err().code(), Some("route_kind_required"));
    }
    for value in [
        "0.0.0.0",
        "::",
        "169.254.1.1",
        "fe80::1",
        "224.0.0.1",
        "ff02::1",
        "::ffff:127.0.0.1",
    ] {
        assert_eq!(classify(&[value]).unwrap_err().code(), Some("route_invalid"));
    }
}

fn tailnet(instance_id: Uuid) -> (RuntimeRecord, TailscaleSnapshot) {
    let serve = OwnedServe::loopback(instance_id, 8787);
    let runtime = RuntimeRecord {
        instance_id,
        control_url: "ws://127.0.0.1:8787/ws".into(),
        share_mode: RuntimeShareMode::Tailscale,
        advertised_url: None,
        owned_serve: Some(serve.copy()),
    };
    let snapshot = TailscaleSnapshot {
        backend_running: true,
        self_ipv4: vec![Ipv4 { a: 100, b: 64, c: 0, d: 1 }],
        online_peer_ipv4: vec![Ipv4 { a: 100, b: 64, c: 0, d: 2 }],
        tcp_forwards: [(8787, serve.target)].into(),
    };
    (runtime, snapshot)
}

#[test]
fn tailnet_advertisement_requires_self_and_the_owned_mapping() {
    let (runtime, mut snapshot) = tailnet(Uuid::fresh());
    let own = UrlParts::parse("ws://100.64.0.1:8787/ws").unwrap();
    validate_owned_tailnet(&runtime, &own, &snapshot).unwrap();
    let peer = UrlParts::parse("ws://100.64.0.2:8787/ws").unwrap();
    assert!(validate_owned_tailnet(&runtime, &peer, &snapshot).is_err());
    snapshot.tcp_forwards.insert(8787, "tcp://127.0.0.1:9999".into());
    assert!(validate_owned_tailnet(&runtime, &own, &snapshot).is_err());
    snapshot.tcp_forwards.clear();
    assert!(validate_owned_tailnet(&runtime, &own, &snapshot).is_err());
}

#[test]
fn classified_addresses_fit_their_kind() {
    for (list, kind) in [
        (vec!["10.2.3.4", "fd00::1"], RouteKind::Lan),
        (vec!["8.8.8.8"], RouteKind::Public),
        (vec!["::1"], RouteKind::Local),
    ] {
        let addresses = list.iter().map(|value| address(value)).collect::<Vec<_>>();
        assert_eq!(classify_addresses(&addresses).unwrap(), kind);
        assert!(validate_addresses(&addresses, kind).is_ok());
    }
    assert!(validate_addresses(&[address("127.0.0.1")], RouteKind::Lan).is_err());
    assert!(validate_addresses(&[address("10.0.0.1")], RouteKind::Local).is_err());
    assert!(validate_addresses(&[], RouteKind::Lan).is_err());
}

#[test]
fn route_urls_lead_to_the_endpoint() {
    assert!(parse_router_url("wss://router.example/ws").is_ok());
    for value in [
        "http://router.example/ws",
        "wss://router.example/other",
        "wss://user@router.example/ws",
        "wss://router.example/ws?x=1",
        "no url",
    ] {
        assert!(parse_router_url(value).is_err(), "{value}");
    }
}

#[test]
fn endpoints_name_their_kind() {
    let route = parse_endpoint("public=wss://router.example/ws").unwrap();
    assert_eq!(route.kind, RouteKind::Public);
    assert_eq!(route.router_url, "wss://router.example/ws");
    assert_eq!(route.ca_pem, None);
    assert!(parse_endpoint("somewhere=wss://router.example/ws").is_err());
    assert!(parse_endpoint("wss://router.example/ws").is_err());
}

#[test]
fn hosts_are_looked_up_by_name_only() {
    let known = UrlParts::parse("ws://10.0.0.1:9000/ws").unwrap();
    assert!(matches!(host_lookup(&known), HostLookup::Known(IpAddress::V4(ip)) if ip.a == 10));
    let named = UrlParts::parse("wss://router.example/ws").unwrap();
    assert!(matches!(host_lookup(&named), HostLookup::Name(name, 443) if name == "router.example"));
    assert!(matches!(looked_up(None), RouteEvent::Failed(_)));
    assert!(matches!(
        looked_up(Some(vec![address("10.0.0.1")])),
        RouteEvent::Addresses(list) if list.len() == 1
    ));
}

#[test]
fn tailnet_routes_are_prepared_from_the_snapshot() {
    let (mut runtime, snapshot) = tailnet(Uuid::fresh());
    runtime.advertised_url = Some("ws://100.64.0.1:8787/ws".into());
    let mut preparation = RoutePreparation::begin(runtime, &Vec::new());
    let mut action = preparation.action();
    let mut rounds = 0;
    loop {
        rounds += 1;
        assert!(rounds < 10);
        action = match action {
            RouteAction::Resolve(_) => {
                preparation.step(RouteEvent::Addresses(vec![address("100.64.0.1")]))
            }
            RouteAction::ReadCa => preparation.step(RouteEvent::Ca(None)),
            RouteAction::Snapshot => preparation.step(RouteEvent::Snapshot(TailscaleSnapshot {
                backend_running: true,
                self_ipv4: snapshot.self_ipv4.clone(),
                online_peer_ipv4: snapshot.online_peer_ipv4.clone(),
                tcp_forwards: snapshot.tcp_forwards.clone(),
            })),
            RouteAction::Probe(_) => preparation.step(RouteEvent::Reached),
            RouteAction::Return(error) => {
                assert!(error.is_none());
                break;
            }
        };
    }
    let routes = preparation.into_routes();
    assert_eq!(routes.len(), 1);
    assert_eq!(routes[0].kind, RouteKind::Tailnet);
    assert_eq!(routes[0].router_url, "ws://100.64.0.1:8787/ws");
}

#[test]
fn unverified_endpoints_end_the_preparation() {
    let (mut runtime, _) = tailnet(Uuid::fresh());
    runtime.share_mode = RuntimeShareMode::Local;
    runtime.owned_serve = None;
    let preparation = RoutePreparation::begin(runtime, &vec!["bad".to_owned()]);
    assert!(matches!(preparation.action(), RouteAction::Return(Some(_))));
}
