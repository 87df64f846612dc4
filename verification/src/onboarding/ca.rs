//! The certificate bundles that routes may carry.

use vstd::prelude::*;
use vstd::string::*;
use vstd::utf8::*;

use crate::onboarding::TicketError;
use crate::text::{
    alphanumeric, blank, byte_len, byte_length, chars_of, is_blank, lines_of, same_text,
    split_lines, texts,
};

verus! {

/// The largest certificate bundle of a route.
pub const MAX_CA_BYTES: usize = 65_536;

/// The certificates that a PEM text holds.
pub uninterp spec fn pem_certificates(pem: Seq<char>) -> Option<Seq<Seq<u8>>>;

/// Whether a DER certificate can be a root of trust.
pub uninterp spec fn trusted_root(der: Seq<u8>) -> bool;

/// `rustls_pemfile::certs`: the DER certificates of a PEM text in order, or nothing where
/// reading one of its sections fails, as a function of the text alone.
#[verifier::external_body]
fn read_certificates(pem: &str) -> (certificates: Option<Vec<Vec<u8>>>)
    ensures
        (match certificates {
            Some(list) => Some(list@.map_values(|der: Vec<u8>| der@)),
            None => None,
        }) == pem_certificates(pem@),
{
    rustls_pemfile::certs(&mut pem.as_bytes())
        .map(|certificate| certificate.map(|der| der.as_ref().to_vec()))
        .collect::<Result<Vec<Vec<u8>>, std::io::Error>>()
        .ok()
}

/// `rustls::RootCertStore::add`: whether the store takes a DER certificate as a root, as a
/// function of its bytes alone.
#[verifier::external_body]
fn is_trusted_root(der: &[u8]) -> (yes: bool)
    ensures
        yes == trusted_root(der@),
{
    rustls::RootCertStore::empty().add(rustls::pki_types::CertificateDer::from(der)).is_ok()
}

/// A line of base64.
pub open spec fn base64_line(line: Seq<char>) -> bool {
    &&& line.len() > 0
    &&& forall|i: int|
        0 <= i < line.len() ==> (alphanumeric(#[trigger] line[i]) || line[i] == '+' || line[i]
            == '/' || line[i] == '=')
}

/// Whether the first `n` lines leave a certificate open, nothing where one of them is out
/// of place. Certificates are the only sections, and between them there are only blank
/// lines.
pub open spec fn open_after(lines: Seq<Seq<char>>, n: int) -> Option<bool>
    decreases n,
{
    if n <= 0 {
        Some(false)
    } else {
        match open_after(lines, n - 1) {
            None => None,
            Some(active) => {
                let line = lines[n - 1];
                if line == "-----BEGIN CERTIFICATE-----"@ && !active {
                    Some(true)
                } else if line == "-----END CERTIFICATE-----"@ && active {
                    Some(false)
                } else if !active && blank(line) {
                    Some(false)
                } else if active && base64_line(line) {
                    Some(true)
                } else {
                    None
                }
            },
        }
    }
}

/// A certificate bundle that a route may carry: a limited text of nothing but complete
/// certificates, at least one, each fit to be a root of trust.
pub open spec fn ca_bundle(pem: Seq<char>) -> bool {
    &&& pem.len() > 0
    &&& byte_length(pem) <= MAX_CA_BYTES
    &&& open_after(lines_of(pem), lines_of(pem).len() as int) == Some(false)
    &&& pem_certificates(pem) matches Some(certificates) && certificates.len() > 0 && forall|i: int|
        0 <= i < certificates.len() ==> trusted_root(#[trigger] certificates[i])
}

fn is_base64_line(line: &str) -> (yes: bool)
    ensures
        yes == base64_line(line@),
{
    let chars = chars_of(line);
    if chars.len() == 0 {
        return false;
    }
    let mut i: usize = 0;
    while i < chars.len()
        invariant
            i <= chars.len(),
            chars@ == line@,
            forall|j: int|
                0 <= j < i ==> (alphanumeric(#[trigger] line@[j]) || line@[j] == '+' || line@[j]
                    == '/' || line@[j] == '='),
        decreases chars.len() - i,
    {
        let c = chars[i];
        if !(('0' <= c && c <= '9') || ('A' <= c && c <= 'Z') || ('a' <= c && c <= 'z') || c == '+'
            || c == '/' || c == '=') {
            assert(!alphanumeric(line@[i as int]));
            return false;
        }
        i += 1;
    }
    true
}

/// A line that is out of place leaves the lines behind it out of place.
proof fn closed_stays_closed(lines: Seq<Seq<char>>, n: int, m: int)
    requires
        0 <= n <= m,
        open_after(lines, n) is None,
    ensures
        open_after(lines, m) is None,
    decreases m - n,
{
    if n < m {
        closed_stays_closed(lines, n, m - 1);
    }
}

/// Whether a text is made of complete certificates and blank lines.
fn has_pem_shape(pem: &str) -> (yes: bool)
    ensures
        yes == (open_after(lines_of(pem@), lines_of(pem@).len() as int) == Some(false)),
{
    let lines = split_lines(pem);
    let ghost all = lines_of(pem@);
    let mut active = false;
    let mut i: usize = 0;
    while i < lines.len()
        invariant
            i <= lines.len(),
            all == texts(lines@),
            all == lines_of(pem@),
            open_after(all, i as int) == Some(active),
        decreases lines.len() - i,
    {
        let line = lines[i].as_str();
        assert(line@ == all[i as int]);
        if !active && same_text(line, "-----BEGIN CERTIFICATE-----") {
            active = true;
        } else if active && same_text(line, "-----END CERTIFICATE-----") {
            active = false;
        } else if !active && is_blank(line) {
        } else if active && is_base64_line(line) {
        } else {
            proof {
                assert(open_after(all, i + 1) is None);
                closed_stays_closed(all, i + 1, all.len() as int);
            }
            return false;
        }
        i += 1;
    }
    !active
}

/// Refuses a certificate bundle that a route may not carry.
pub fn validate_ca_pem(pem: &str) -> (verdict: Result<(), TicketError>)
    ensures
        verdict == if ca_bundle(pem@) {
            Ok::<(), TicketError>(())
        } else {
            Err(TicketError::InvalidCa)
        },
{
    if pem.is_empty() || byte_len(pem) > MAX_CA_BYTES || !has_pem_shape(pem) {
        return Err(TicketError::InvalidCa);
    }
    let certificates = match read_certificates(pem) {
        Some(list) => list,
        None => return Err(TicketError::InvalidCa),
    };
    check_roots(&certificates)
}

/// Refuses a list of certificates that is empty or holds one that cannot be a root.
fn check_roots(certificates: &Vec<Vec<u8>>) -> (verdict: Result<(), TicketError>)
    ensures
        ({
            let all = certificates@.map_values(|der: Vec<u8>| der@);
            verdict == if all.len() > 0 && forall|i: int|
                0 <= i < all.len() ==> trusted_root(#[trigger] all[i]) {
                Ok::<(), TicketError>(())
            } else {
                Err(TicketError::InvalidCa)
            }
        }),
{
    let ghost all = certificates@.map_values(|der: Vec<u8>| der@);
    if certificates.len() == 0 {
        return Err(TicketError::InvalidCa);
    }
    let mut i: usize = 0;
    while i < certificates.len()
        invariant
            i <= certificates.len(),
            all == certificates@.map_values(|der: Vec<u8>| der@),
            forall|j: int| 0 <= j < i ==> trusted_root(#[trigger] all[j]),
        decreases certificates.len() - i,
    {
        assert(all[i as int] == certificates@[i as int]@);
        if !is_trusted_root(certificates[i].as_slice()) {
            assert(!trusted_root(all[i as int]));
            return Err(TicketError::InvalidCa);
        }
        i += 1;
    }
    Ok(())
}

} // verus!
