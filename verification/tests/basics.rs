//! Texts, paths, identifiers, digests, shell words, addresses and JSON.

use std::path::Path;

use asr::bounded::BoundedBody;
use asr::digest::digest;
use asr::ids::Uuid;
use asr::json::{field, integer, object, uuid_value, Json};
use asr::net::{Host, Ipv4, Ipv6, UrlParts};
use asr::paths::{
    components, has_parent, is_absolute, is_same_path, is_steady, join, parent, rest_below,
};
use asr::shell::{quote_literal, shell_quote};
use asr::tasks::{is_positive_safe, is_safe_cursor};
use asr::text::{
    contains_part, decimal, eq_ignoring_case, hex, is_blank, join_lines, kebab, parse_u16, parse_u64,
    respell, same_text, split_lines, trim, word,
};

#[test]
fn texts_are_compared_and_cut() {
    assert!(same_text("gr\u{fc}n", "gr\u{fc}n"));
    assert!(!same_text("a", "b"));
    assert!(eq_ignoring_case("Application/JSON", "application/json"));
    assert!(!eq_ignoring_case("application/jsonp", "application/json"));
    assert!(contains_part("a secret word", "secret"));
    assert!(!contains_part("a secret word", "secrets"));
    assert!(contains_part("x", ""));
    assert_eq!(trim(" \t\u{a0}word\r\n"), "word");
    assert_eq!(trim("  "), "");
    assert!(is_blank(" \n"));
    assert!(!is_blank(" a "));
    assert_eq!(split_lines("a\r\nb\n\nc"), vec!["a", "b", "", "c"]);
    assert_eq!(split_lines(""), Vec::<String>::new());
    assert_eq!(split_lines("a\n"), vec!["a"]);
    assert_eq!(join_lines(&vec!["a".to_owned(), "b".to_owned()]), "a\nb");
}

#[test]
fn numbers_are_spelled_and_read() {
    assert_eq!(decimal(0), "0");
    assert_eq!(decimal(18_446_744_073_709_551_615), "18446744073709551615");
    assert_eq!(parse_u16("65535"), Some(65_535));
    assert_eq!(parse_u16("65536"), None);
    assert_eq!(parse_u16("+7"), Some(7));
    assert_eq!(parse_u16("-7"), None);
    assert_eq!(parse_u16(""), None);
    assert_eq!(parse_u16("+"), None);
    assert_eq!(parse_u64("18446744073709551615"), Some(18_446_744_073_709_551_615));
    assert_eq!(parse_u64("18446744073709551616"), None);
    assert_eq!(hex(&[0, 15, 255]), "000fff");
}

#[test]
fn names_are_respelled() {
    assert_eq!(kebab("codex_cli"), "codex-cli");
    assert_eq!(respell("a_b_c", '/'), "a/b/c");
    assert_eq!(word("codex_cli"), "codex");
    assert_eq!(word("omp"), "omp");
}

#[test]
fn paths_are_joined_and_taken_apart() {
    assert!(is_absolute("/a"));
    assert!(!is_absolute("a/b"));
    assert_eq!(join("/a", "b"), "/a/b");
    assert_eq!(join("/a/", "b"), "/a/b");
    assert_eq!(join("/a", "/b"), "/b");
    assert_eq!(join("", "b"), "b");
    assert_eq!(components("/a//./b/"), vec!["a", "b"]);
    assert!(has_parent("/a/../b"));
    assert!(!has_parent("/a/..b"));
    assert!(is_steady("a"));
    assert!(!is_steady(""));
    assert!(!is_steady("../a"));
    assert_eq!(parent("/a/b"), Some("/a".to_owned()));
    assert_eq!(parent("/a"), Some("/".to_owned()));
    assert_eq!(parent("/"), None);
    assert_eq!(parent("a"), Some("".to_owned()));
}

const SPELLINGS: [&str; 26] = [
    "", "/", "//", ".", "./", "/.", "..", "a", "./a", "a/", "a/.", "a/./", "/a", "//a", "/a//b",
    "/a/./b", "/a/b", "/a/b/.", "a/b", "a//b/", "./a//./b", "/a/../b", "~", "~/", "~//./x//y/.",
    ".a/b",
];

#[test]
fn paths_are_told_apart_by_their_parts() {
    for one in SPELLINGS {
        for other in SPELLINGS {
            assert_eq!(is_same_path(one, other), Path::new(one) == Path::new(other), "{one} {other}");
        }
        let above = Path::new(one).parent().map(|path| path.to_str().unwrap().to_owned());
        assert_eq!(parent(one), above, "{one}");
        if let Ok(rest) = Path::new(one).strip_prefix("~") {
            assert_eq!(rest_below(one), rest.to_str().unwrap(), "{one}");
        }
    }
    assert!(is_same_path("/a//b", "/a/./b/"));
    assert!(!is_same_path("a", "./a"));
    assert!(!is_same_path("a", "/a"));
}

#[test]
fn identifiers_are_read_back() {
    let id = Uuid { value: 0x0123_4567_89ab_4def_8123_4567_89ab_cdef };
    assert_eq!(id.to_text(), "01234567-89ab-4def-8123-456789abcdef");
    assert_eq!(Uuid::parse(&id.to_text()), Some(id));
    assert_eq!(Uuid::parse("0123456789AB4DEF8123456789ABCDEF"), Some(id));
    assert_eq!(Uuid::parse("0123"), None);
    assert!(Uuid::nil().is_nil());
    assert_eq!(Uuid::nil().to_text(), "00000000-0000-0000-0000-000000000000");
    let fresh = Uuid::fresh();
    assert!(!fresh.is_nil());
    assert_eq!(&fresh.to_text()[14..15], "4");
    assert!(Uuid::fresh() != fresh);
}

#[test]
fn digests_are_sha_256() {
    assert_eq!(
        digest(b""),
        "e3b0c44298fc1c149afbf4c8996fb92427ae41e4649b934ca495991b7852b855"
    );
    assert_eq!(
        digest(b"abc"),
        "ba7816bf8f01cfea414140de5dae2223b00361a396177a9cb410ff61f20015ad"
    );
}

#[test]
fn shell_words_quote_single_quotes() {
    assert_eq!(quote_literal("it's"), "'it'\\''s'");
    assert_eq!(shell_quote("it's"), "'it'\"'\"'s'");
    assert_eq!(shell_quote("$HOME `x`"), "'$HOME `x`'");
    assert_eq!(quote_literal(""), "''");
}

#[test]
fn urls_are_taken_apart() {
    let url = UrlParts::parse("wss://user:pw@Example.COM:8443/ws?x=1#y").unwrap();
    assert_eq!(url.scheme, "wss");
    assert_eq!(url.username, "user");
    assert_eq!(url.password, Some("pw".to_owned()));
    assert!(matches!(&url.host, Some(Host::Domain(name)) if name == "example.com"));
    assert_eq!(url.port, Some(8443));
    assert_eq!(url.path, "/ws");
    assert_eq!(url.query, Some("x=1".to_owned()));
    assert_eq!(url.fragment, Some("y".to_owned()));
    let plain = UrlParts::parse("ws://127.0.0.1/ws").unwrap();
    assert!(matches!(plain.host, Some(Host::Ipv4(Ipv4 { a: 127, b: 0, c: 0, d: 1 }))));
    assert_eq!(plain.port, None);
    assert_eq!(plain.known_port, Some(80));
    let six = UrlParts::parse("ws://[2001:db8::1]/ws").unwrap();
    assert!(matches!(six.host, Some(Host::Ipv6(Ipv6 { s0: 0x2001, s1: 0xdb8, s7: 1, .. }))));
    assert!(UrlParts::parse("no url").is_none());
}

#[test]
fn addresses_are_told_apart() {
    assert!(Ipv4 { a: 127, b: 9, c: 9, d: 9 }.is_loopback());
    assert!(Ipv4 { a: 172, b: 31, c: 0, d: 1 }.is_private());
    assert!(!Ipv4 { a: 172, b: 32, c: 0, d: 1 }.is_private());
    assert!(Ipv4 { a: 100, b: 64, c: 0, d: 1 }.is_tailscale());
    assert!(Ipv4 { a: 100, b: 127, c: 255, d: 255 }.is_tailscale());
    assert!(!Ipv4 { a: 100, b: 128, c: 0, d: 0 }.is_tailscale());
    assert!(Ipv4 { a: 8, b: 8, c: 8, d: 8 }.is_global());
    assert!(!Ipv4 { a: 192, b: 0, c: 2, d: 1 }.is_global());
    assert!(Ipv4 { a: 0, b: 0, c: 0, d: 0 }.is_unusable());
    let six = |s0, s7| Ipv6 { s0, s1: 0, s2: 0, s3: 0, s4: 0, s5: 0, s6: 0, s7 };
    assert!(six(0, 1).is_loopback());
    assert!(six(0xfd00, 1).is_unique_local());
    assert!(six(0xff02, 1).is_unusable());
    assert!(six(0x2606, 1).is_global());
    assert!(!six(0xfd00, 1).is_global());
}

#[test]
fn json_members_are_found() {
    let value = object(vec![
        field("a", Json::of_text("x")),
        field("b", Json::Array(vec![Json::Bool(true), Json::Null])),
        field("n", integer(-3)),
        field("id", uuid_value(Uuid { value: 7 })),
    ]);
    assert!(value.says("a", "x"));
    assert!(!value.says("b", "x"));
    assert_eq!(value.text_at("id"), Some("00000000-0000-0000-0000-000000000007"));
    assert!(value.get("missing").is_none());
    assert_eq!(value.get("b").unwrap().as_items().unwrap().len(), 2);
    assert!(value.get("b").unwrap().as_items().unwrap()[1].is_null());
    assert!(matches!(value.get("n"), Some(Json::Negative(-3))));
    assert!(matches!(integer(4), Json::Unsigned(4)));
    assert!(value.copy().says("a", "x"));
}

#[test]
fn bodies_are_bounded() {
    let mut body = BoundedBody::new(4);
    assert!(body.push(b"ab"));
    assert!(body.push(b"cd"));
    assert!(!body.push(b"e"));
    let mut small = BoundedBody::new(4);
    assert!(small.push(b"abc"));
    assert_eq!(small.into_bytes(), b"abc".to_vec());
}

#[test]
fn safe_integers_have_bounds() {
    assert!(is_positive_safe(1));
    assert!(!is_positive_safe(0));
    assert!(is_positive_safe(9_007_199_254_740_991));
    assert!(!is_positive_safe(9_007_199_254_740_992));
    assert!(is_safe_cursor(0));
    assert!(!is_safe_cursor(-1));
}
