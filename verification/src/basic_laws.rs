//! What holds of texts, numbers, paths, addresses and identifiers.

use vstd::prelude::*;

use crate::bounded::BoundedBody;
use crate::ids::{hyphenated_text, Uuid};
use crate::json::{integer, uuid_value, Json, JsonModel};
use crate::net::{Ipv4, Ipv6};
use crate::paths::{
    absolute, has_parent, is_absolute, is_same_path, join, last_part, names_end, parent,
};
use crate::text::{
    all_digits, all_printable, contains_part, decimal, decimal_text, digits_value, ends_with,
    eq_ignoring_case, has_char, hex, is_blank, join_lines, kebab, lines_from, parse_u16, parse_u64,
    place_in_range, place_of, respell, same_text, split_lines, starts_with, texts, trim, trimmed,
    white_space,
};

verus! {

/// A number that is written is read back, and what is no number is not read.
pub proof fn numbers_are_read_back(value: u64, text: String, spelled: &str, read: Option<u64>)
    requires
        call_ensures(decimal, (value,), text),
        spelled@ == text@,
        call_ensures(parse_u64, (spelled,), read),
    ensures
        read == Some(value),
        text@.len() > 0,
        forall|i: int| 0 <= i < text@.len() ==> '0' <= #[trigger] text@[i] <= '9',
{
    digits_are_the_number(value as nat);
    let digits = decimal_text(value as nat);
    assert(digits[0] != '+');
}

/// The digits of a number are digits, and their value is the number.
proof fn digits_are_the_number(value: nat)
    ensures
        all_digits(decimal_text(value)),
        digits_value(decimal_text(value)) == value,
    decreases value,
{
    if value < 10 {
        let digits = decimal_text(value);
        assert(digits.drop_last() =~= Seq::<char>::empty());
        assert(digits_value(digits.drop_last()) == 0);
        assert(digits.last() as nat - '0' as nat == value);
    } else {
        digits_are_the_number(value / 10);
        let digits = decimal_text(value);
        assert(digits.drop_last() =~= decimal_text(value / 10));
        assert(digits.last() as nat - '0' as nat == value % 10);
        assert forall|i: int| 0 <= i < digits.len() implies '0' <= #[trigger] digits[i] <= '9' by {
            if i < digits.len() - 1 {
                assert(digits[i] == digits.drop_last()[i]);
            }
        }
    }
}

/// Numbers are read alike, and those of sixteen bits are those that fit.
pub proof fn numbers_fit_their_width(text: &str, small: Option<u16>, large: Option<u64>)
    requires
        call_ensures(parse_u16, (text,), small),
        call_ensures(parse_u64, (text,), large),
    ensures
        small is Some <==> large is Some && large->0 <= 65_535,
        small is Some ==> small->0 == large->0,
        text@.len() == 0 ==> large is None,
        text@.len() == 1 && text@[0] == '+' ==> large is None,
        text@.len() > 0 && (exists|i: int|
            1 <= i < text@.len() && !('0' <= #[trigger] text@[i] <= '9')) ==> large is None,
        text@.len() > 0 && text@[0] == '-' ==> large is None,
{
    let digits = crate::text::unsigned_digits(text@);
    if text@.len() > 0 && (exists|i: int|
        1 <= i < text@.len() && !('0' <= #[trigger] text@[i] <= '9')) {
        let i = choose|i: int| 1 <= i < text@.len() && !('0' <= #[trigger] text@[i] <= '9');
        if text@[0] == '+' {
            assert(digits[i - 1] == text@[i]);
        } else {
            assert(digits[i] == text@[i]);
        }
    }
    if text@.len() > 0 && text@[0] == '-' {
        assert(digits[0] == '-');
    }
}

/// A trimmed text begins and ends with no white space, is part of the text, and what is trimmed
/// is not trimmed again.
pub proof fn trimmed_texts_are_bare(text: &str, rest: String, spelled: &str, again: String)
    requires
        call_ensures(trim, (text,), rest),
        spelled@ == rest@,
        call_ensures(trim, (spelled,), again),
    ensures
        rest@.len() > 0 ==> !white_space(rest@[0]) && !white_space(rest@.last()),
        again@ == rest@,
        rest@.len() <= text@.len(),
        text@.len() > 0 && !white_space(text@[0]) && !white_space(text@.last()) ==> rest@ == text@,
{
    trimming_stops(text@);
    trimming_stops(rest@);
}

proof fn trimming_stops(text: Seq<char>)
    ensures
        trimmed(text).len() > 0 ==> !white_space(trimmed(text)[0]) && !white_space(
            trimmed(text).last(),
        ),
        trimmed(text).len() <= text.len(),
    decreases text.len(),
{
    if text.len() > 0 && white_space(text[0]) {
        trimming_stops(text.drop_first());
    } else if text.len() > 0 && white_space(text.last()) {
        trimming_stops(text.drop_last());
    }
}

/// What is white space, and what is a control character.
pub proof fn blanks_and_controls_are_told(
    text: &str,
    blank: bool,
    printable: bool,
    i: int,
)
    requires
        call_ensures(is_blank, (text,), blank),
        call_ensures(all_printable, (text,), printable),
        0 <= i < text@.len(),
    ensures
        'a' <= text@[i] <= 'z' || '0' <= text@[i] <= '9' ==> !blank,
        text@[i] == '\n' || text@[i] == '\r' || text@[i] == '\t' || text@[i] == '\u{0}' || text@[i]
            == '\u{1b}' || text@[i] == '\u{7f}' || text@[i] == '\u{85}' ==> !printable,
        text@.len() == 1 && (text@[i] == ' ' || text@[i] == '\t' || text@[i] == '\n' || text@[i]
            == '\r' || text@[i] == '\u{a0}') ==> blank,
        text@.len() == 1 && ' ' <= text@[i] <= '~' ==> printable,
        text@.len() == 1 && text@[i] >= '\u{a0}' ==> printable,
{
}

/// Where one text stands in another.
pub proof fn parts_are_found(
    text: &str,
    part: &str,
    begins: bool,
    ends: bool,
    found: bool,
    same: bool,
    folded: bool,
)
    requires
        call_ensures(starts_with, (text, part), begins),
        call_ensures(ends_with, (text, part), ends),
        call_ensures(contains_part, (text, part), found),
        call_ensures(same_text, (text, part), same),
        call_ensures(eq_ignoring_case, (text, part), folded),
    ensures
        begins || ends ==> found,
        same ==> begins && ends && folded,
        begins && text@.len() == part@.len() ==> same,
        part@.len() == 0 ==> begins && ends && found,
        text@.len() < part@.len() ==> !found,
        begins ==> text@.take(part@.len() as int) == part@,
        ends ==> text@.skip(text@.len() - part@.len()) == part@,
        folded ==> text@.len() == part@.len(),
{
    if begins {
        assert(text@.subrange(0, part@.len() as int) =~= part@);
        assert(crate::text::stands_at(text@, part@, 0));
        assert(text@.take(part@.len() as int) =~= part@);
        if text@.len() == part@.len() {
            assert(text@ =~= part@);
        }
    }
    if ends {
        let place = text@.len() - part@.len();
        assert(text@.subrange(place, text@.len() as int) =~= part@);
        assert(crate::text::stands_at(text@, part@, place));
        assert(text@.skip(place) =~= part@);
    }
    if part@.len() == 0 {
        assert(part@ =~= Seq::<char>::empty());
        assert(part@.is_prefix_of(text@));
        assert(text@.subrange(text@.len() as int, text@.len() as int) =~= part@);
        assert(part@.is_suffix_of(text@));
        assert(text@.subrange(0, 0) =~= part@);
        assert(crate::text::stands_at(text@, part@, 0));
    }
}

/// A text that is respelled has the mark where it had underscores, and is else as it was.
pub proof fn respelled_texts_keep_their_letters(
    text: &str,
    mark: char,
    other: String,
    kebab_text: String,
    i: int,
    spelled: &str,
    left: bool,
)
    requires
        call_ensures(respell, (text, mark), other),
        call_ensures(kebab, (text,), kebab_text),
        0 <= i < text@.len(),
        mark != '_',
        spelled@ == other@,
        call_ensures(has_char, (spelled, '_'), left),
    ensures
        other@.len() == text@.len() && kebab_text@.len() == text@.len(),
        text@[i] == '_' ==> other@[i] == mark && kebab_text@[i] == '-',
        text@[i] != '_' ==> other@[i] == text@[i] && kebab_text@[i] == text@[i],
        !left,
{
    assert forall|k: int| 0 <= k < other@.len() implies other@[k] != '_' by {}
}

/// A path below another is the other, a solidus and the name; an absolute one stands for itself.
pub proof fn paths_are_joined(
    path: &str,
    name: &str,
    whole: String,
    a: bool,
    b: bool,
    spelled: &str,
    c: bool,
)
    requires
        call_ensures(join, (path, name), whole),
        call_ensures(is_absolute, (path,), a),
        call_ensures(is_absolute, (name,), b),
        spelled@ == whole@,
        call_ensures(is_absolute, (spelled,), c),
    ensures
        b ==> whole@ == name@,
        !b && path@.len() == 0 ==> whole@ == name@,
        !b && path@.len() > 0 && path@.last() == '/' ==> whole@ == path@ + name@,
        !b && path@.len() > 0 && path@.last() != '/' ==> whole@ == path@ + seq!['/'] + name@,
        a ==> c,
        a <==> path@.len() > 0 && path@[0] == '/',
{
    reveal_strlit("/");
    assert("/"@ =~= seq!['/']);
    if path@.len() > 0 {
        let end = path@.subrange(path@.len() - 1, path@.len() as int);
        if path@.last() == '/' {
            assert(end =~= "/"@);
            assert("/"@.is_suffix_of(path@));
        } else {
            if "/"@.is_suffix_of(path@) {
                assert(end =~= "/"@);
                assert(end[0] == path@.last());
            }
        }
        if path@[0] == '/' {
            assert(path@.subrange(0, 1) =~= "/"@);
        } else if "/"@.is_prefix_of(path@) {
            assert(path@.subrange(0, 1)[0] == path@[0]);
        }
    } else {
        assert(path@ =~= Seq::<char>::empty());
        assert(path@ + name@ =~= name@);
    }
    if a && !b {
        assert(whole@.subrange(0, 1) =~= path@.subrange(0, 1));
    }
}

/// The directory of a name below a path is the path.
pub proof fn names_lie_in_their_directory(
    path: &str,
    name: &str,
    whole: String,
    spelled: &str,
    above: Option<String>,
)
    requires
        call_ensures(join, (path, name), whole),
        spelled@ == whole@,
        call_ensures(parent, (spelled,), above),
        path@.len() > 1,
        absolute(path@),
        path@.last() != '/',
        path@.last() != '.',
        name@.len() > 0,
        !name@.contains('/'),
        name@ != seq!['.'],
    ensures
        above is Some,
        above->0@ == path@,
{
    reveal_strlit("/");
    assert("/"@ =~= seq!['/']);
    let n = path@.len() as int;
    let p = whole@;
    assert(!absolute(name@)) by {
        if absolute(name@) {
            assert(name@.subrange(0, 1)[0] == name@[0]);
            assert(name@[0] == '/');
        }
    }
    assert(!"/"@.is_suffix_of(path@)) by {
        if "/"@.is_suffix_of(path@) {
            assert(path@.subrange(n - 1, n)[0] == path@.last());
        }
    }
    assert(p =~= path@ + seq!['/'] + name@);
    assert(absolute(p)) by {
        assert(path@.subrange(0, 1) =~= p.subrange(0, 1));
        assert(path@.subrange(0, 1) =~= "/"@);
    }
    assert(crate::paths::names_start(p) == 1);
    assert forall|k: int| n < k < p.len() implies p[k] != '/' by {
        assert(p[k] == name@[k - n - 1]);
    }
    assert(p[n] == '/');
    parts_begin_behind(p, 1, n + 1, p.len() as int);
    let part = last_part(p, 1, p.len() as int);
    assert(part == n + 1);
    assert(p.subrange(part, p.len() as int) =~= name@);
    assert(names_end(p, 1, p.len() as int) == p.len());
    let inner = last_part(p, 1, n);
    parts_are_no_later(p, 1, n);
    assert(p[n - 1] == path@.last());
    assert(inner < n);
    let last = p.subrange(inner, n);
    assert(last[last.len() - 1] == p[n - 1]);
    assert(names_end(p, 1, n) == n);
    assert(p.take(n) =~= path@);
}

proof fn parts_begin_behind(path: Seq<char>, start: int, part: int, end: int)
    requires
        start <= part - 1,
        part <= end <= path.len(),
        part >= 1,
        path[part - 1] == '/',
        forall|k: int| part <= k < end ==> path[k] != '/',
    ensures
        last_part(path, start, end) == part,
    decreases end - part,
{
    if end > part {
        parts_begin_behind(path, start, part, end - 1);
    }
}

proof fn parts_are_no_later(path: Seq<char>, start: int, end: int)
    requires
        0 <= start < end <= path.len(),
        path[end - 1] != '/',
    ensures
        start <= last_part(path, start, end) < end,
    decreases end - start,
{
    reveal_with_fuel(last_part, 3);
    if end - 1 > start && path[end - 2] != '/' {
        parts_are_no_later(path, start, end - 1);
    }
}

/// Spellings of one path are alike either way.
pub proof fn spellings_are_alike(a: &str, b: &str, ab: bool, ba: bool, aa: bool, up: bool, also: bool)
    requires
        call_ensures(is_same_path, (a, b), ab),
        call_ensures(is_same_path, (b, a), ba),
        call_ensures(is_same_path, (a, a), aa),
        call_ensures(has_parent, (a,), up),
        call_ensures(has_parent, (b,), also),
    ensures
        aa,
        ab == ba,
        ab && up ==> also,
        ab ==> absolute(a@) == absolute(b@),
        a@ == b@ ==> ab,
{
}

/// Which IPv4 addresses are of which range.
pub proof fn v4_addresses_are_of_their_range(
    ip: Ipv4,
    loopback: bool,
    private: bool,
    unusable: bool,
    tailscale: bool,
    global: bool,
)
    requires
        call_ensures(Ipv4::is_loopback, (ip,), loopback),
        call_ensures(Ipv4::is_private, (ip,), private),
        call_ensures(Ipv4::is_unusable, (ip,), unusable),
        call_ensures(Ipv4::is_tailscale, (ip,), tailscale),
        call_ensures(Ipv4::is_global, (ip,), global),
    ensures
        loopback <==> ip.a == 127,
        private <==> ip.a == 10 || ip.a == 172 && 16 <= ip.b <= 31 || ip.a == 192 && ip.b == 168,
        tailscale <==> ip.a == 100 && 64 <= ip.b <= 127,
        ip.a == 169 && ip.b == 254 ==> unusable,
        224 <= ip.a <= 239 ==> unusable,
        ip == (Ipv4 { a: 0, b: 0, c: 0, d: 0 }) || ip == (Ipv4 { a: 255, b: 255, c: 255, d: 255 })
            ==> unusable,
        1 <= ip.a <= 168 || 170 <= ip.a <= 223 ==> !unusable,
        global ==> !loopback && !private && !tailscale && !unusable && ip.a != 0 && ip.a < 224,
        ip.a == 198 && (ip.b == 18 || ip.b == 19) ==> !global,
        ip.a == 198 && ip.b == 51 && ip.c == 100 || ip.a == 203 && ip.b == 0 && ip.c == 113 || ip.a
            == 192 && ip.b == 0 && ip.c == 2 || ip.a == 192 && ip.b == 88 && ip.c == 99 ==> !global,
        1 <= ip.a <= 9 || 11 <= ip.a <= 99 || 101 <= ip.a <= 126 || 128 <= ip.a <= 168 || 170
            <= ip.a <= 171 || 173 <= ip.a <= 191 || 193 <= ip.a <= 197 || 199 <= ip.a <= 202 || 204
            <= ip.a <= 223 ==> global,
{
}

/// Which IPv6 addresses are of which range.
pub proof fn v6_addresses_are_of_their_range(
    ip: Ipv6,
    loopback: bool,
    local: bool,
    unusable: bool,
    global: bool,
)
    requires
        call_ensures(Ipv6::is_loopback, (ip,), loopback),
        call_ensures(Ipv6::is_unique_local, (ip,), local),
        call_ensures(Ipv6::is_unusable, (ip,), unusable),
        call_ensures(Ipv6::is_global, (ip,), global),
    ensures
        loopback ==> ip.s0 == 0 && ip.s6 == 0 && ip.s7 == 1,
        ip.s0 == 0 && ip.s1 == 0 && ip.s2 == 0 && ip.s3 == 0 && ip.s4 == 0 && ip.s5 == 0 && ip.s6
            == 0 ==> (loopback <==> ip.s7 == 1) && (unusable <==> ip.s7 == 0),
        local <==> 0xfc00 <= ip.s0 <= 0xfdff,
        0xfe80 <= ip.s0 <= 0xfebf || ip.s0 >= 0xff00 ==> unusable,
        1 <= ip.s0 < 0xfe80 || 0xfec0 <= ip.s0 < 0xff00 ==> !unusable,
        ip.s0 == 0 && ip.s1 == 0 && ip.s2 == 0 && ip.s3 == 0 && ip.s4 == 0 && ip.s5 == 0xffff
            ==> unusable,
        global ==> !loopback && !local && !unusable,
        global ==> 0x2000 <= ip.s0 <= 0x3fff || ip.s0 == 0x64 && ip.s1 == 0xff9b,
        ip.s0 == 0x2001 && ip.s1 == 0xdb8 || ip.s0 == 0x2002 || ip.s0 == 0x3fff && ip.s1 <= 0xfff
            ==> !global,
        0x2003 <= ip.s0 <= 0x3ffe || ip.s0 == 0x2000 ==> global,
        ip.s0 == 0x2001 && ip.s1 == 0 ==> !global,
        ip.s0 == 0x2001 && 0x20 <= ip.s1 <= 0x3f ==> global,
        ip.s0 == 0x2001 && ip.s1 >= 0x200 && ip.s1 != 0xdb8 ==> global,
{
}

/// An identifier that is written is read back, and only the first of all is nil.
pub proof fn identifiers_are_read_back(
    id: Uuid,
    text: String,
    spelled: &str,
    read: Option<Uuid>,
    nil: bool,
    none: Uuid,
    value: Json,
)
    requires
        call_ensures(Uuid::to_text, (id,), text),
        spelled@ == text@,
        call_ensures(Uuid::parse, (spelled,), read),
        call_ensures(Uuid::is_nil, (id,), nil),
        call_ensures(Uuid::nil, (), none),
        call_ensures(uuid_value, (id,), value),
    ensures
        read == Some(id),
        nil <==> id == none,
        value.model() == JsonModel::Text(text@),
        text@.len() == 36 && text@[8] == '-' && text@[13] == '-' && text@[18] == '-' && text@[23]
            == '-',
{
    crate::ids::hyphenated_text_is_plain(id.value);
    let digits = crate::ids::simple_text(id.value);
    assert(hyphenated_text(id.value)[8] == '-');
    assert(hyphenated_text(id.value)[13] == '-');
    assert(hyphenated_text(id.value)[18] == '-');
    assert(hyphenated_text(id.value)[23] == '-');
}

/// A whole number as a JSON value is the number.
pub proof fn integers_are_kept(value: i64, number: Json, read: Option<u64>)
    requires
        call_ensures(integer, (value,), number),
        call_ensures(Json::as_unsigned, (&number,), read),
    ensures
        value >= 0 ==> read is Some && read->0 == value,
        value < 0 ==> read is None && number.model() == JsonModel::Negative(value),
{
}

/// The member of an object is the first of its key.
pub proof fn members_are_the_first_of_their_key(
    value: Json,
    key: &str,
    found: Option<&Json>,
    text: Option<&str>,
    members: Seq<(Seq<char>, JsonModel)>,
    i: int,
)
    requires
        call_ensures(Json::get, (&value, key), found),
        call_ensures(Json::text_at, (&value, key), text),
        value.model() == JsonModel::Object(members),
        0 <= i < members.len(),
        members[i].0 == key@,
        forall|j: int| 0 <= j < i ==> (#[trigger] members[j]).0 != key@,
    ensures
        found is Some && found->0.model() == members[i].1,
        members[i].1 is Text ==> text is Some && members[i].1 == JsonModel::Text(text->0@),
        !(members[i].1 is Text) ==> text is None,
{
    the_first_is_found(members, key@, i);
}

proof fn the_first_is_found(members: Seq<(Seq<char>, JsonModel)>, key: Seq<char>, i: int)
    requires
        0 <= i < members.len(),
        members[i].0 == key,
        forall|j: int| 0 <= j < i ==> (#[trigger] members[j]).0 != key,
    ensures
        crate::json::member(members, key) == Some(members[i].1),
    decreases i,
{
    if i > 0 {
        let rest = members.drop_first();
        assert(members[0].0 != key);
        assert forall|j: int| 0 <= j < i - 1 implies (#[trigger] rest[j]).0 != key by {
            assert(rest[j] == members[j + 1]);
        }
        the_first_is_found(rest, key, i - 1);
    }
}

/// A body is collected chunk by chunk up to its limit, and one chunk too many changes nothing.
pub proof fn bodies_are_collected_up_to_their_limit(
    body: &mut BoundedBody,
    chunk: &[u8],
    taken: bool,
)
    requires
        old(body).wf(),
        call_ensures(BoundedBody::push, (body, chunk), taken),
    ensures
        taken <==> old(body).held().len() + chunk@.len() <= old(body).limit(),
        taken ==> final(body).held() == old(body).held() + chunk@,
        !taken ==> final(body).held() == old(body).held(),
        final(body).limit() == old(body).limit(),
        final(body).held().len() <= final(body).limit(),
{
}

/// The lines of a text: what stands before its first line feed, and then the lines of what
/// follows; a text without a line feed is one line, and an empty one none.
pub proof fn lines_end_at_line_feeds(
    line: Seq<char>,
    rest: &str,
    whole: &str,
    lines: Vec<String>,
    later: Vec<String>,
)
    requires
        call_ensures(split_lines, (whole,), lines),
        call_ensures(split_lines, (rest,), later),
        !line.contains('\n'),
    ensures
        whole@ == line + seq!['\n'] + rest@ && !(line.len() > 0 && line.last() == '\r') ==> texts(
            lines@,
        ) == seq![line] + texts(later@),
        whole@ == line + seq!['\r'] + seq!['\n'] + rest@ ==> texts(lines@) == seq![line] + texts(
            later@,
        ),
        whole@ == line && line.len() > 0 ==> texts(lines@) == seq![line],
        whole@.len() == 0 ==> lines@.len() == 0,
{
    place_in_range(whole@, '\n', 0);
    let end = place_of(whole@, '\n', 0);
    if whole@ == line + seq!['\n'] + rest@ {
        let front = line + seq!['\n'];
        assert(whole@[line.len() as int] == '\n');
        assert(forall|i: int| 0 <= i < line.len() ==> whole@[i] == line[i]);
        assert(forall|i: int| 0 <= i < line.len() ==> line.contains(#[trigger] line[i]));
        if end < line.len() {
            assert(line.contains(line[end]));
        }
        assert(end == line.len());
        assert(whole@ =~= front + rest@);
        later_lines_are_of_the_rest(front, rest@, 0);
        assert(whole@.subrange(0, end) =~= line);
    }
    if whole@ == line + seq!['\r'] + seq!['\n'] + rest@ {
        let front = line + seq!['\r'] + seq!['\n'];
        let n = line.len() as int;
        assert(whole@[n + 1] == '\n' && whole@[n] == '\r');
        assert(forall|i: int| 0 <= i < line.len() ==> whole@[i] == line[i]);
        if end < n {
            assert(line.contains(line[end]));
        }
        assert(end == n + 1);
        assert(whole@ =~= front + rest@);
        later_lines_are_of_the_rest(front, rest@, 0);
        assert(whole@.subrange(0, n) =~= line);
    }
    if whole@ == line && line.len() > 0 {
        if end < line.len() {
            assert(line.contains(line[end]));
        }
        assert(whole@.subrange(0, end) =~= line);
        assert(lines_from(whole@, end + 1).len() == 0);
        assert(texts(lines@) =~= seq![line]);
    }
    if whole@.len() == 0 {
        assert(texts(lines@).len() == 0);
    }
}

proof fn later_places_are_of_the_rest(front: Seq<char>, rest: Seq<char>, c: char, from: int)
    requires
        0 <= from,
    ensures
        from <= rest.len() ==> place_of(front + rest, c, front.len() + from) == front.len()
            + place_of(rest, c, from),
    decreases rest.len() - from,
{
    if from < rest.len() {
        later_places_are_of_the_rest(front, rest, c, from + 1);
        assert((front + rest)[front.len() + from] == rest[from]);
    }
}

proof fn later_lines_are_of_the_rest(front: Seq<char>, rest: Seq<char>, from: int)
    requires
        0 <= from,
    ensures
        lines_from(front + rest, front.len() + from) == lines_from(rest, from),
    decreases rest.len() + 1 - from,
{
    if from < rest.len() {
        let whole = front + rest;
        let n = front.len() as int;
        later_places_are_of_the_rest(front, rest, '\n', from);
        place_in_range(rest, '\n', from);
        let end = place_of(rest, '\n', from);
        later_lines_are_of_the_rest(front, rest, end + 1);
        assert(whole.subrange(n + from, n + end) =~= rest.subrange(from, end));
        if end > from {
            assert(whole[n + end - 1] == rest[end - 1]);
            assert(whole.subrange(n + from, n + end - 1) =~= rest.subrange(from, end - 1));
        }
        assert(n + (end + 1) == n + end + 1);
    }
}

/// Lines are joined by line feeds: one alone stands as it is, and one more stands behind a line
/// feed.
pub proof fn lines_are_joined_by_line_feeds(
    list: Vec<String>,
    text: String,
    longer: Vec<String>,
    longer_text: String,
    last: Seq<char>,
)
    requires
        call_ensures(join_lines, (&list,), text),
        call_ensures(join_lines, (&longer,), longer_text),
        texts(longer@) == texts(list@).push(last),
    ensures
        list@.len() == 0 ==> text@.len() == 0 && longer_text@ == last,
        list@.len() > 0 ==> longer_text@ == text@ + seq!['\n'] + last,
{
    assert(texts(longer@).drop_last() =~= texts(list@));
    assert(texts(longer@).last() == last);
}

/// Bytes are spelled with two digits each, the higher first, from 0 to 9 and from a to f.
pub proof fn bytes_are_spelled_in_hexadecimal(bytes: &[u8], text: String, i: int)
    requires
        call_ensures(hex, (bytes,), text),
        0 <= i < bytes@.len(),
    ensures
        text@.len() == 2 * bytes@.len(),
        bytes@[i] / 16 < 10 ==> text@[2 * i] as int == 48 + bytes@[i] / 16,
        bytes@[i] / 16 >= 10 ==> text@[2 * i] as int == 87 + bytes@[i] / 16,
        bytes@[i] % 16 < 10 ==> text@[2 * i + 1] as int == 48 + bytes@[i] % 16,
        bytes@[i] % 16 >= 10 ==> text@[2 * i + 1] as int == 87 + bytes@[i] % 16,
{
    assert((2 * i) / 2 == i && (2 * i) % 2 == 0);
    assert((2 * i + 1) / 2 == i && (2 * i + 1) % 2 == 1);
}

} // verus!
