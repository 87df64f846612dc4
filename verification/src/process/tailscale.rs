//! Reading what the Tailscale command line says.

use std::collections::BTreeMap;

use vstd::prelude::*;

use crate::json::{member_models, parse_json, parsed_json, Json, JsonModel, Member};
use crate::net::{IpAddress, Ipv4};
use crate::process::{
    all_tailscale, snapshot_ok, OwnedServe, RouterLaunchError, TailscaleSnapshot,
};
use crate::text::{concat, decimal, decimal_text, parse_u16, same_text, texts, u16_of};

verus! {

broadcast use vstd::std_specs::btree::group_btree_axioms;

/// A machine of the tailnet. An address that cannot be read is missing.
#[derive(PartialEq)]
pub struct TailscaleNode {
    pub online: bool,
    pub addresses: Vec<Option<IpAddress>>,
}

/// What `tailscale status` says.
#[derive(PartialEq)]
pub struct TailscaleStatus {
    pub backend_state: String,
    pub self_node: TailscaleNode,
    pub peers: Vec<TailscaleNode>,
}

/// The IPv4 addresses among the first `n` of a list: nothing where one of them cannot be
/// read or is not of the range that Tailscale hands out. IPv6 addresses are passed over.
pub open spec fn tailnet_addresses(values: Seq<Option<IpAddress>>, n: int) -> Option<Seq<Ipv4>>
    decreases n,
{
    if n <= 0 {
        Some(Seq::empty())
    } else {
        match (tailnet_addresses(values, n - 1), values[n - 1]) {
            (Some(before), Some(IpAddress::V6(_))) => Some(before),
            (Some(before), Some(IpAddress::V4(ip))) => if ip.tailscale() {
                Some(before.push(ip))
            } else {
                None
            },
            _ => None,
        }
    }
}

/// The addresses of the online machines among the first `n` of a list.
pub open spec fn online_addresses(peers: Seq<TailscaleNode>, n: int) -> Option<Seq<Ipv4>>
    decreases n,
{
    if n <= 0 {
        Some(Seq::empty())
    } else {
        let peer = peers[n - 1];
        match online_addresses(peers, n - 1) {
            None => None,
            Some(before) => if !peer.online {
                Some(before)
            } else {
                match tailnet_addresses(peer.addresses@, peer.addresses@.len() as int) {
                    Some(own) => Some(before + own),
                    None => None,
                }
            },
        }
    }
}

proof fn unread_address_spoils_list(values: Seq<Option<IpAddress>>, n: int, m: int)
    requires
        0 <= n <= m,
        tailnet_addresses(values, n) is None,
    ensures
        tailnet_addresses(values, m) is None,
    decreases m - n,
{
    if n < m {
        unread_address_spoils_list(values, n, m - 1);
    }
}

proof fn unread_peer_spoils_list(peers: Seq<TailscaleNode>, n: int, m: int)
    requires
        0 <= n <= m,
        online_addresses(peers, n) is None,
    ensures
        online_addresses(peers, m) is None,
    decreases m - n,
{
    if n < m {
        unread_peer_spoils_list(peers, n, m - 1);
    }
}

/// The IPv4 addresses of a list.
pub fn parse_tailscale_addresses(values: &Vec<Option<IpAddress>>) -> (addresses: Result<
    Vec<Ipv4>,
    RouterLaunchError,
>)
    ensures
        match addresses {
            Ok(list) => tailnet_addresses(values@, values@.len() as int) == Some(list@),
            Err(error) => tailnet_addresses(values@, values@.len() as int) is None && error
                == RouterLaunchError::TailscaleStatus,
        },
{
    let mut addresses: Vec<Ipv4> = Vec::new();
    let mut i: usize = 0;
    while i < values.len()
        invariant
            i <= values@.len(),
            tailnet_addresses(values@, i as int) == Some(addresses@),
        decreases values.len() - i,
    {
        proof {
            if tailnet_addresses(values@, i + 1) is None {
                unread_address_spoils_list(values@, i + 1, values@.len() as int);
            }
        }
        match values[i] {
            Some(IpAddress::V4(ip)) => if ip.is_tailscale() {
                addresses.push(ip);
            } else {
                return Err(RouterLaunchError::TailscaleStatus);
            },
            Some(IpAddress::V6(_)) => {},
            None => return Err(RouterLaunchError::TailscaleStatus),
        }
        i += 1;
    }
    Ok(addresses)
}

fn online_peer_addresses(peers: &Vec<TailscaleNode>) -> (addresses: Result<
    Vec<Ipv4>,
    RouterLaunchError,
>)
    ensures
        match addresses {
            Ok(list) => online_addresses(peers@, peers@.len() as int) == Some(list@),
            Err(error) => online_addresses(peers@, peers@.len() as int) is None && error
                == RouterLaunchError::TailscaleStatus,
        },
{
    let mut addresses: Vec<Ipv4> = Vec::new();
    let mut i: usize = 0;
    while i < peers.len()
        invariant
            i <= peers@.len(),
            online_addresses(peers@, i as int) == Some(addresses@),
        decreases peers.len() - i,
    {
        if peers[i].online {
            match parse_tailscale_addresses(&peers[i].addresses) {
                Ok(own) => {
                    let mut own = own;
                    addresses.append(&mut own);
                },
                Err(error) => {
                    proof {
                        unread_peer_spoils_list(peers@, i + 1, peers@.len() as int);
                    }
                    return Err(error);
                },
            }
        }
        i += 1;
    }
    Ok(addresses)
}

/// The targets of some forwards.
pub open spec fn forward_texts(forwards: Map<u16, String>) -> Map<u16, Seq<char>> {
    forwards.map_values(|target: String| target@)
}

/// The forwards among the first `n` members of the table of ports: nothing where a port
/// is no port number, stands twice, or has no configuration.
pub open spec fn forwards_among(members: Seq<(Seq<char>, JsonModel)>, n: int) -> Option<
    Map<u16, Seq<char>>,
>
    decreases n,
{
    if n <= 0 {
        Some(Map::empty())
    } else {
        let (key, config) = members[n - 1];
        match (forwards_among(members, n - 1), u16_of(key)) {
            (Some(before), Some(port)) => if port != 0 && config is Object && !before.dom().contains(
                port,
            ) {
                Some(
                    before.insert(
                        port,
                        match config.text_at("TCPForward"@) {
                            Some(target) => "tcp://"@ + target,
                            None => Seq::empty(),
                        },
                    ),
                )
            } else {
                None
            },
            _ => None,
        }
    }
}

/// The forwards that `tailscale serve status` lists.
pub open spec fn serve_forwards(value: Option<JsonModel>) -> Option<Map<u16, Seq<char>>> {
    match value {
        Some(root) => if !(root is Object) {
            None
        } else {
            match root.get("TCP"@) {
                None => Some(Map::empty()),
                Some(JsonModel::Object(members)) => forwards_among(members, members.len() as int),
                Some(_) => None,
            }
        },
        None => None,
    }
}

proof fn bad_port_spoils_table(members: Seq<(Seq<char>, JsonModel)>, n: int, m: int)
    requires
        0 <= n <= m,
        forwards_among(members, n) is None,
    ensures
        forwards_among(members, m) is None,
    decreases m - n,
{
    if n < m {
        bad_port_spoils_table(members, n, m - 1);
    }
}

fn read_forwards(members: &Vec<Member>) -> (forwards: Result<
    BTreeMap<u16, String>,
    RouterLaunchError,
>)
    ensures
        ({
            let all = forwards_among(member_models(members@), members@.len() as int);
            match forwards {
                Ok(map) => all == Some(forward_texts(map@)),
                Err(error) => all is None && error == RouterLaunchError::TailscaleStatus,
            }
        }),
{
    let ghost all = member_models(members@);
    let mut forwards: BTreeMap<u16, String> = BTreeMap::new();
    assert(forward_texts(forwards@) =~= Map::<u16, Seq<char>>::empty());
    let mut i: usize = 0;
    while i < members.len()
        invariant
            i <= members@.len(),
            all == member_models(members@),
            forwards_among(all, i as int) == Some(forward_texts(forwards@)),
        decreases members.len() - i,
    {
        let config = &members[i].value;
        assert(all[i as int] == (members@[i as int].key@, config.model()));
        proof {
            if forwards_among(all, i + 1) is None {
                bad_port_spoils_table(all, i + 1, all.len() as int);
            }
        }
        let port = match parse_u16(members[i].key.as_str()) {
            Some(port) => port,
            None => return Err(RouterLaunchError::TailscaleStatus),
        };
        if port == 0 || !config.is_object() || forwards.contains_key(&port) {
            return Err(RouterLaunchError::TailscaleStatus);
        }
        let target = match config.text_at("TCPForward") {
            Some(target) => concat("tcp://", target),
            None => String::new(),
        };
        let ghost before = forwards@;
        forwards.insert(port, target);
        assert(forward_texts(forwards@) =~= forward_texts(before).insert(port, target@));
        i += 1;
    }
    Ok(forwards)
}

/// The forwards that `tailscale serve status` lists.
pub fn parse_serve_status(bytes: &[u8]) -> (forwards: Result<
    BTreeMap<u16, String>,
    RouterLaunchError,
>)
    ensures
        match forwards {
            Ok(map) => serve_forwards(parsed_json(bytes@)) == Some(forward_texts(map@)),
            Err(error) => serve_forwards(parsed_json(bytes@)) is None && error
                == RouterLaunchError::TailscaleStatus,
        },
{
    match parse_json(bytes) {
        Some(root) => read_serve_status(&root),
        None => Err(RouterLaunchError::TailscaleStatus),
    }
}

/// The forwards that a decoded `tailscale serve status` lists.
pub fn read_serve_status(root: &Json) -> (forwards: Result<BTreeMap<u16, String>, RouterLaunchError>)
    ensures
        match forwards {
            Ok(map) => serve_forwards(Some(root.model())) == Some(forward_texts(map@)),
            Err(error) => serve_forwards(Some(root.model())) is None && error
                == RouterLaunchError::TailscaleStatus,
        },
{
    if !root.is_object() {
        return Err(RouterLaunchError::TailscaleStatus);
    }
    match root.get("TCP") {
        None => {
            let none: BTreeMap<u16, String> = BTreeMap::new();
            assert(forward_texts(none@) =~= Map::<u16, Seq<char>>::empty());
            Ok(none)
        },
        Some(tcp) => match tcp.as_members() {
            Some(members) => read_forwards(members),
            None => Err(RouterLaunchError::TailscaleStatus),
        },
    }
}

/// The snapshot that the two commands together make.
pub open spec fn snapshot_of(
    status: Option<TailscaleStatus>,
    serve: Seq<u8>,
) -> Result<(bool, Seq<Ipv4>, Seq<Ipv4>, Map<u16, Seq<char>>), RouterLaunchError> {
    match status {
        None => Err(RouterLaunchError::TailscaleStatus),
        Some(status) => {
            let own = tailnet_addresses(
                status.self_node.addresses@,
                status.self_node.addresses@.len() as int,
            );
            let peers = online_addresses(status.peers@, status.peers@.len() as int);
            match (own, peers, serve_forwards(parsed_json(serve))) {
                (Some(own), Some(peers), Some(forwards)) => if status.backend_state@ == "Running"@
                    && own.len() > 0 && all_tailscale(own) && all_tailscale(peers) {
                    Ok((true, own, peers, forwards))
                } else {
                    Err(RouterLaunchError::TailscaleUnavailable)
                },
                _ => Err(RouterLaunchError::TailscaleStatus),
            }
        },
    }
}

/// The snapshot that the two commands together make. `status` is what decoding the first
/// one's output gave, nothing where it cannot be decoded.
pub fn parse_tailscale_snapshot(status: Option<TailscaleStatus>, serve: &[u8]) -> (snapshot: Result<
    TailscaleSnapshot,
    RouterLaunchError,
>)
    ensures
        match snapshot {
            Ok(snapshot) => snapshot_ok(snapshot) && snapshot_of(status, serve@) == Ok::<
                _,
                RouterLaunchError,
            >(
                (
                    snapshot.backend_running,
                    snapshot.self_ipv4@,
                    snapshot.online_peer_ipv4@,
                    forward_texts(snapshot.tcp_forwards@),
                ),
            ),
            Err(error) => snapshot_of(status, serve@) == Err::<
                (bool, Seq<Ipv4>, Seq<Ipv4>, Map<u16, Seq<char>>),
                _,
            >(error),
        },
{
    let status = match status {
        Some(status) => status,
        None => return Err(RouterLaunchError::TailscaleStatus),
    };
    let self_ipv4 = match parse_tailscale_addresses(&status.self_node.addresses) {
        Ok(addresses) => addresses,
        Err(error) => return Err(error),
    };
    let online_peer_ipv4 = match online_peer_addresses(&status.peers) {
        Ok(addresses) => addresses,
        Err(error) => return Err(error),
    };
    let tcp_forwards = match parse_serve_status(serve) {
        Ok(forwards) => forwards,
        Err(error) => return Err(error),
    };
    let backend_running = same_text(status.backend_state.as_str(), "Running");
    let snapshot = TailscaleSnapshot { backend_running, self_ipv4, online_peer_ipv4, tcp_forwards };
    match snapshot.validate() {
        Ok(()) => Ok(snapshot),
        Err(error) => Err(error),
    }
}

/// The arguments that show the state of the tailnet.
pub fn status_arguments() -> (arguments: Vec<String>)
    ensures
        texts(arguments@) == seq!["status"@, "--json"@],
{
    let arguments: Vec<String> = vec!["status".to_owned(), "--json".to_owned()];
    assert(texts(arguments@) =~= seq!["status"@, "--json"@]);
    arguments
}

/// The arguments that show the ports that are forwarded.
pub fn serve_status_arguments() -> (arguments: Vec<String>)
    ensures
        texts(arguments@) == seq!["serve"@, "status"@, "--json"@],
{
    let arguments: Vec<String> = vec![
        "serve".to_owned(),
        "status".to_owned(),
        "--json".to_owned(),
    ];
    assert(texts(arguments@) =~= seq!["serve"@, "status"@, "--json"@]);
    arguments
}

/// The arguments that forward a tailnet port.
pub fn enable_arguments(serve: &OwnedServe) -> (arguments: Vec<String>)
    ensures
        texts(arguments@) == seq![
            "serve"@,
            "--bg"@,
            "--tcp="@ + decimal_text(serve.port as nat),
            serve.target@,
        ],
{
    let arguments: Vec<String> = vec![
        "serve".to_owned(),
        "--bg".to_owned(),
        concat("--tcp=", decimal(serve.port as u64).as_str()),
        serve.target.clone(),
    ];
    assert(texts(arguments@) =~= seq![
        "serve"@,
        "--bg"@,
        "--tcp="@ + decimal_text(serve.port as nat),
        serve.target@,
    ]);
    arguments
}

/// The arguments that stop forwarding a tailnet port.
pub fn disable_arguments(serve: &OwnedServe) -> (arguments: Vec<String>)
    ensures
        texts(arguments@) == seq![
            "serve"@,
            "--tcp="@ + decimal_text(serve.port as nat),
            "off"@,
        ],
{
    let arguments: Vec<String> = vec![
        "serve".to_owned(),
        concat("--tcp=", decimal(serve.port as u64).as_str()),
        "off".to_owned(),
    ];
    assert(texts(arguments@) =~= seq![
        "serve"@,
        "--tcp="@ + decimal_text(serve.port as nat),
        "off"@,
    ]);
    arguments
}

} // verus!
