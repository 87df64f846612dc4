//! Internet addresses by their numbers, and URLs by their parts.

use vstd::prelude::*;

verus! {

/// An IPv4 address, octet by octet.
#[derive(Clone, Copy, Debug, PartialEq, Eq, Structural)]
pub struct Ipv4 {
    pub a: u8,
    pub b: u8,
    pub c: u8,
    pub d: u8,
}

/// An IPv6 address, segment by segment.
#[derive(Clone, Copy, Debug, PartialEq, Eq, Structural)]
pub struct Ipv6 {
    pub s0: u16,
    pub s1: u16,
    pub s2: u16,
    pub s3: u16,
    pub s4: u16,
    pub s5: u16,
    pub s6: u16,
    pub s7: u16,
}

#[derive(Clone, Copy, Debug, PartialEq, Eq, Structural)]
pub enum IpAddress {
    V4(Ipv4),
    V6(Ipv6),
}

/// 127.0.0.1.
pub open spec fn localhost() -> Ipv4 {
    Ipv4 { a: 127, b: 0, c: 0, d: 1 }
}

impl Ipv4 {
    /// 127.0.0.0/8.
    pub open spec fn loopback(self) -> bool {
        self.a == 127
    }

    /// 10.0.0.0/8, 172.16.0.0/12 and 192.168.0.0/16.
    pub open spec fn private(self) -> bool {
        self.a == 10 || (self.a == 172 && 16 <= self.b <= 31) || (self.a == 192 && self.b == 168)
    }

    /// 169.254.0.0/16.
    pub open spec fn link_local(self) -> bool {
        self.a == 169 && self.b == 254
    }

    /// 192.0.2.0/24, 198.51.100.0/24 and 203.0.113.0/24.
    pub open spec fn documentation(self) -> bool {
        (self.a == 192 && self.b == 0 && self.c == 2) || (self.a == 198 && self.b == 51 && self.c
            == 100) || (self.a == 203 && self.b == 0 && self.c == 113)
    }

    /// 0.0.0.0, 169.254.0.0/16, 224.0.0.0/4 and 255.255.255.255: addresses that no router
    /// can be reached at.
    pub open spec fn unusable(self) -> bool {
        ||| self == (Ipv4 { a: 0, b: 0, c: 0, d: 0 })
        ||| self.link_local()
        ||| 224 <= self.a <= 239
        ||| self == (Ipv4 { a: 255, b: 255, c: 255, d: 255 })
    }

    /// 100.64.0.0/10, the range that Tailscale hands out.
    pub open spec fn tailscale(self) -> bool {
        self.a == 100 && 64 <= self.b <= 127
    }

    /// Reachable from the public internet.
    pub open spec fn global(self) -> bool {
        &&& !self.private()
        &&& !self.loopback()
        &&& !self.link_local()
        &&& !self.documentation()
        &&& 0 < self.a < 224
        &&& !self.tailscale()
        &&& !(self.a == 192 && self.b == 0 && self.c == 0 && self.d != 9 && self.d != 10)
        &&& !(self.a == 192 && self.b == 88 && self.c == 99)
        &&& !(self.a == 198 && (self.b == 18 || self.b == 19))
    }

    pub fn is_loopback(self) -> (yes: bool)
        ensures
            yes == self.loopback(),
    {
        self.a == 127
    }

    pub fn is_private(self) -> (yes: bool)
        ensures
            yes == self.private(),
    {
        self.a == 10 || (self.a == 172 && 16 <= self.b && self.b <= 31) || (self.a == 192 && self.b
            == 168)
    }

    pub fn is_unusable(self) -> (yes: bool)
        ensures
            yes == self.unusable(),
    {
        (self.a == 0 && self.b == 0 && self.c == 0 && self.d == 0) || (self.a == 169 && self.b
            == 254) || (224 <= self.a && self.a <= 239) || (self.a == 255 && self.b == 255 && self.c
            == 255 && self.d == 255)
    }

    pub fn is_tailscale(self) -> (yes: bool)
        ensures
            yes == self.tailscale(),
    {
        self.a == 100 && 64 <= self.b && self.b <= 127
    }

    pub fn is_global(self) -> (yes: bool)
        ensures
            yes == self.global(),
    {
        let documentation = (self.a == 192 && self.b == 0 && self.c == 2) || (self.a == 198
            && self.b == 51 && self.c == 100) || (self.a == 203 && self.b == 0 && self.c == 113);
        !(self.is_private() || self.is_loopback() || (self.a == 169 && self.b == 254)
            || documentation || self.a == 0 || self.a >= 224 || self.is_tailscale() || (self.a
            == 192 && self.b == 0 && self.c == 0 && self.d != 9 && self.d != 10) || (self.a == 192
            && self.b == 88 && self.c == 99) || (self.a == 198 && (self.b == 18 || self.b == 19)))
    }
}

impl Ipv6 {
    /// ::1.
    pub open spec fn loopback(self) -> bool {
        self == (Ipv6 { s0: 0, s1: 0, s2: 0, s3: 0, s4: 0, s5: 0, s6: 0, s7: 1 })
    }

    /// fc00::/7.
    pub open spec fn unique_local(self) -> bool {
        0xfc00 <= self.s0 <= 0xfdff
    }

    /// ::, fe80::/10, ff00::/8 and ::ffff:0:0/96: addresses that no router can be reached
    /// at.
    pub open spec fn unusable(self) -> bool {
        ||| self == (Ipv6 { s0: 0, s1: 0, s2: 0, s3: 0, s4: 0, s5: 0, s6: 0, s7: 0 })
        ||| 0xfe80 <= self.s0 <= 0xfebf
        ||| self.s0 >= 0xff00
        ||| self.s0 == 0 && self.s1 == 0 && self.s2 == 0 && self.s3 == 0 && self.s4 == 0 && self.s5
            == 0xffff
    }

    /// The assignments of 2001::/23 that are globally reachable.
    pub open spec fn global_protocol_assignment(self) -> bool {
        ||| self.s1 == 1 && self.s2 == 0 && self.s3 == 0 && self.s4 == 0 && self.s5 == 0 && self.s6
            == 0 && 1 <= self.s7 <= 3
        ||| self.s1 == 3
        ||| self.s1 == 4 && self.s2 == 0x112
        ||| 0x20 <= self.s1 <= 0x3f
    }

    /// Reachable from the public internet: the well-known translation prefix 64:ff9b::/96
    /// and 2000::/3 without its reserved parts.
    pub open spec fn global(self) -> bool {
        ||| self.s0 == 0x64 && self.s1 == 0xff9b && self.s2 == 0 && self.s3 == 0 && self.s4 == 0
            && self.s5 == 0
        ||| {
            &&& 0x2000 <= self.s0 <= 0x3fff
            &&& !(self.s0 == 0x2001 && self.s1 <= 0x1ff && !self.global_protocol_assignment())
            &&& !(self.s0 == 0x2001 && self.s1 == 0xdb8)
            &&& self.s0 != 0x2002
            &&& !(self.s0 == 0x3fff && self.s1 <= 0xfff)
        }
    }

    pub fn is_loopback(self) -> (yes: bool)
        ensures
            yes == self.loopback(),
    {
        self.s0 == 0 && self.s1 == 0 && self.s2 == 0 && self.s3 == 0 && self.s4 == 0 && self.s5 == 0
            && self.s6 == 0 && self.s7 == 1
    }

    pub fn is_unique_local(self) -> (yes: bool)
        ensures
            yes == self.unique_local(),
    {
        0xfc00 <= self.s0 && self.s0 <= 0xfdff
    }

    pub fn is_unusable(self) -> (yes: bool)
        ensures
            yes == self.unusable(),
    {
        let low = self.s0 == 0 && self.s1 == 0 && self.s2 == 0 && self.s3 == 0 && self.s4 == 0;
        (low && self.s5 == 0 && self.s6 == 0 && self.s7 == 0) || (0xfe80 <= self.s0 && self.s0
            <= 0xfebf) || self.s0 >= 0xff00 || (low && self.s5 == 0xffff)
    }

    pub fn is_global(self) -> (yes: bool)
        ensures
            yes == self.global(),
    {
        if self.s0 == 0x64 && self.s1 == 0xff9b && self.s2 == 0 && self.s3 == 0 && self.s4 == 0
            && self.s5 == 0 {
            return true;
        }
        let assignment = (self.s1 == 1 && self.s2 == 0 && self.s3 == 0 && self.s4 == 0 && self.s5
            == 0 && self.s6 == 0 && 1 <= self.s7 && self.s7 <= 3) || self.s1 == 3 || (self.s1 == 4
            && self.s2 == 0x112) || (0x20 <= self.s1 && self.s1 <= 0x3f);
        0x2000 <= self.s0 && self.s0 <= 0x3fff && !(self.s0 == 0x2001 && ((self.s1 <= 0x1ff
            && !assignment) || self.s1 == 0xdb8)) && self.s0 != 0x2002 && !(self.s0 == 0x3fff
            && self.s1 <= 0xfff)
    }
}

impl IpAddress {
    pub open spec fn loopback(self) -> bool {
        match self {
            IpAddress::V4(ip) => ip.loopback(),
            IpAddress::V6(ip) => ip.loopback(),
        }
    }

    /// No router can be reached at the address.
    pub open spec fn unusable(self) -> bool {
        match self {
            IpAddress::V4(ip) => ip.unusable(),
            IpAddress::V6(ip) => ip.unusable(),
        }
    }

    pub fn is_loopback(self) -> (yes: bool)
        ensures
            yes == self.loopback(),
    {
        match self {
            IpAddress::V4(ip) => ip.is_loopback(),
            IpAddress::V6(ip) => ip.is_loopback(),
        }
    }

    pub fn is_unusable(self) -> (yes: bool)
        ensures
            yes == self.unusable(),
    {
        match self {
            IpAddress::V4(ip) => ip.is_unusable(),
            IpAddress::V6(ip) => ip.is_unusable(),
        }
    }
}

/// The host of a URL.
#[derive(Debug, PartialEq, Eq)]
pub enum Host {
    Domain(String),
    Ipv4(Ipv4),
    Ipv6(Ipv6),
}

/// A URL by its parts.
#[derive(Debug, PartialEq, Eq)]
pub struct UrlParts {
    pub text: String,
    pub scheme: String,
    pub username: String,
    pub password: Option<String>,
    pub host: Option<Host>,
    /// The port that the URL spells.
    pub port: Option<u16>,
    /// That port, or the well-known one of the scheme.
    pub known_port: Option<u16>,
    pub path: String,
    pub query: Option<String>,
    pub fragment: Option<String>,
}

/// The host of a URL, as mathematics has it.
pub enum HostModel {
    Domain(Seq<char>),
    Ipv4(Ipv4),
    Ipv6(Ipv6),
}

/// The parts of a URL, as mathematics has them.
pub struct UrlModel {
    pub text: Seq<char>,
    pub scheme: Seq<char>,
    pub username: Seq<char>,
    pub password: Option<Seq<char>>,
    pub host: Option<HostModel>,
    pub port: Option<u16>,
    pub known_port: Option<u16>,
    pub path: Seq<char>,
    pub query: Option<Seq<char>>,
    pub fragment: Option<Seq<char>>,
}

impl Host {
    pub open spec fn model(self) -> HostModel {
        match self {
            Host::Domain(name) => HostModel::Domain(name@),
            Host::Ipv4(ip) => HostModel::Ipv4(ip),
            Host::Ipv6(ip) => HostModel::Ipv6(ip),
        }
    }
}

impl UrlParts {
    pub open spec fn model(self) -> UrlModel {
        UrlModel {
            text: self.text@,
            scheme: self.scheme@,
            username: self.username@,
            password: crate::text::opt_text(self.password),
            host: match self.host {
                Some(host) => Some(host.model()),
                None => None,
            },
            port: self.port,
            known_port: self.known_port,
            path: self.path@,
            query: crate::text::opt_text(self.query),
            fragment: crate::text::opt_text(self.fragment),
        }
    }
}

/// The parts of the URL that a text spells, but for its host.
pub uninterp spec fn url_parts(text: Seq<char>) -> Option<UrlModel>;

/// The host of the URL that a text spells.
pub uninterp spec fn url_host(text: Seq<char>) -> Option<HostModel>;

/// The parts of the URL that a text spells.
#[verifier::opaque]
pub open spec fn parsed_url(text: Seq<char>) -> Option<UrlModel> {
    match url_parts(text) {
        Some(parts) => Some(UrlModel { host: url_host(text), ..parts }),
        None => None,
    }
}

/// `url::Url::parse`, with the accessors of `url::Url` but for its host: the parts of the
/// URL that a text spells, or nothing where it spells none, as a function of the text alone.
#[verifier::external_body]
fn parse_parts(text: &str) -> (parts: Option<UrlParts>)
    ensures
        (match parts {
            Some(url) => Some(url.model()),
            None => None,
        }) == url_parts(text@),
{
    url::Url::parse(text).ok().map(|url| UrlParts {
        text: url.as_str().to_owned(),
        scheme: url.scheme().to_owned(),
        username: url.username().to_owned(),
        password: url.password().map(str::to_owned),
        host: None,
        port: url.port(),
        known_port: url.port_or_known_default(),
        path: url.path().to_owned(),
        query: url.query().map(str::to_owned),
        fragment: url.fragment().map(str::to_owned),
    })
}

/// `url::Url::host` of what `url::Url::parse` reads: the host of the URL that a text spells,
/// variant for variant, or nothing where it has none, as a function of the text alone.
#[verifier::external_body]
fn parse_host(text: &str) -> (host: Option<Host>)
    ensures
        (match host {
            Some(host) => Some(host.model()),
            None => None,
        }) == url_host(text@),
{
    let url = url::Url::parse(text).ok()?;
    url.host().map(|host| match host {
        url::Host::Domain(name) => Host::Domain(name.to_owned()),
        url::Host::Ipv4(ip) => {
            let [a, b, c, d] = ip.octets();
            Host::Ipv4(Ipv4 { a, b, c, d })
        },
        url::Host::Ipv6(ip) => {
            let [s0, s1, s2, s3, s4, s5, s6, s7] = ip.segments();
            Host::Ipv6(Ipv6 { s0, s1, s2, s3, s4, s5, s6, s7 })
        },
    })
}

/// A URL with another path.
pub uninterp spec fn url_with_path(text: Seq<char>, path: Seq<char>) -> Option<Seq<char>>;

/// `url::Url::set_path` on what `url::Url::parse` reads: the URL with another path, or nothing
/// where the text spells no URL, as a function of the two texts alone.
#[verifier::external_body]
pub(crate) fn replace_path(text: &str, path: &str) -> (url: Option<String>)
    ensures
        crate::text::opt_text(url) == url_with_path(text@, path@),
{
    let mut url = url::Url::parse(text).ok()?;
    url.set_path(path);
    Some(url.into())
}

/// The parts of the URL that a text spells.
pub(crate) fn parse_url(text: &str) -> (parts: Option<UrlParts>)
    ensures
        (match parts {
            Some(url) => Some(url.model()),
            None => None,
        }) == parsed_url(text@),
{
    proof {
        reveal(parsed_url);
    }
    match parse_parts(text) {
        Some(parts) => Some(UrlParts { host: parse_host(text), ..parts }),
        None => None,
    }
}

impl UrlParts {
    /// The parts of the URL that a text spells.
    pub fn parse(text: &str) -> (parts: Option<UrlParts>)
        ensures
            (match parts {
                Some(url) => Some(url.model()),
                None => None,
            }) == parsed_url(text@),
    {
        parse_url(text)
    }
}

} // verus!
