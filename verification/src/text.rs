//! Texts and bytes: comparison, search and construction of strings, each stated over
//! the sequence of characters that a string holds.

use vstd::prelude::*;
use vstd::string::*;
use vstd::utf8::*;

verus! {

broadcast use {vstd::string::group_string_axioms, vstd::utf8::is_ascii_chars_encode_utf8};

/// An ASCII letter or digit.
pub open spec fn alphanumeric(c: char) -> bool {
    ('0' <= c <= '9') || ('A' <= c <= 'Z') || ('a' <= c <= 'z')
}

/// A lower-case hexadecimal digit.
pub open spec fn lower_hex(c: char) -> bool {
    ('0' <= c <= '9') || ('a' <= c <= 'f')
}

/// A control character: the general category `Cc` of Unicode.
pub open spec fn control(c: char) -> bool {
    c <= '\u{1f}' || '\u{7f}' <= c <= '\u{9f}'
}

/// Every character of a text is printable.
pub open spec fn no_control(text: Seq<char>) -> bool {
    forall|i: int| 0 <= i < text.len() ==> !control(#[trigger] text[i])
}

/// The number of bytes of a text in UTF-8.
pub open spec fn byte_length(text: Seq<char>) -> nat {
    encode_utf8(text).len()
}

/// The texts that a list of strings holds.
pub open spec fn texts(list: Seq<String>) -> Seq<Seq<char>> {
    list.map_values(|s: String| s@)
}

/// The text that an optional string holds.
pub open spec fn opt_text(value: Option<String>) -> Option<Seq<char>> {
    match value {
        Some(s) => Some(s@),
        None => None,
    }
}

/// The characters of a text, if there is one.
pub open spec fn given(value: Option<&str>) -> Option<Seq<char>> {
    match value {
        Some(value) => Some(value@),
        None => None,
    }
}

/// ASCII upper-case letters folded to lower case.
pub open spec fn ascii_lower(c: char) -> char {
    if 'A' <= c <= 'Z' {
        (c as u32 + 32) as char
    } else {
        c
    }
}

pub open spec fn same_ignoring_case(a: Seq<char>, b: Seq<char>) -> bool {
    &&& a.len() == b.len()
    &&& forall|i: int| 0 <= i < a.len() ==> ascii_lower(#[trigger] a[i]) == ascii_lower(b[i])
}

/// The decimal digits of a number.
pub open spec fn decimal_text(value: nat) -> Seq<char>
    decreases value,
{
    if value < 10 {
        seq![('0' as u32 + value) as char]
    } else {
        decimal_text(value / 10).push(('0' as u32 + value % 10) as char)
    }
}

/// One lower-case hexadecimal digit.
pub open spec fn hex_digit(value: int) -> char {
    if value < 10 {
        ('0' as u32 + value) as char
    } else {
        ('a' as u32 + (value - 10)) as char
    }
}

/// The lower-case hexadecimal text of some bytes, two digits to a byte.
pub open spec fn hex_text(bytes: Seq<u8>) -> Seq<char> {
    Seq::new(
        2 * bytes.len(),
        |i: int|
            if i % 2 == 0 {
                hex_digit(bytes[i / 2] as int / 16)
            } else {
                hex_digit(bytes[i / 2] as int % 16)
            },
    )
}

/// `String::push`: the character is put behind the text.
#[verifier::external_body]
fn push_char(text: &mut String, c: char)
    ensures
        final(text)@ == old(text)@.push(c),
{
    text.push(c);
}

/// `std::str::from_utf8`: the text of some bytes, where they are valid UTF-8.
#[verifier::external_body]
pub(crate) fn utf8_text(bytes: &[u8]) -> (text: Option<String>)
    ensures
        text is Some == valid_utf8(bytes@),
        text matches Some(text) ==> text@ == decode_utf8(bytes@),
{
    std::str::from_utf8(bytes).ok().map(str::to_owned)
}

/// The characters of a text, in order.
pub fn chars_of(text: &str) -> (chars: Vec<char>)
    ensures
        chars@ == text@,
{
    let mut chars: Vec<char> = Vec::new();
    for c in iter: text.chars()
        invariant
            iter.seq() == text@,
            chars@ == text@.take(iter.index() as int),
    {
        chars.push(c);
        assert(chars@ =~= text@.take(iter.index() as int + 1));
    }
    assert(text@.take(text@.len() as int) =~= text@);
    chars
}

/// The string of some characters.
pub fn text_of(chars: &[char]) -> (text: String)
    ensures
        text@ == chars@,
{
    let mut text = String::new();
    let mut i: usize = 0;
    while i < chars.len()
        invariant
            i <= chars.len(),
            text@ == chars@.take(i as int),
        decreases chars.len() - i,
    {
        push_char(&mut text, chars[i]);
        assert(chars@.take(i + 1) =~= chars@.take(i as int).push(chars[i as int]));
        i += 1;
    }
    assert(chars@.take(i as int) =~= chars@);
    text
}

/// Whether two texts hold the same characters.
pub fn same_text(a: &str, b: &str) -> (same: bool)
    ensures
        same == (a@ == b@),
{
    let left = a.as_bytes();
    let right = b.as_bytes();
    proof {
        encode_utf8_decode_utf8(a@);
        encode_utf8_decode_utf8(b@);
    }
    same_bytes(left, right)
}

/// Whether two byte strings are equal.
pub fn same_bytes(left: &[u8], right: &[u8]) -> (same: bool)
    ensures
        same == (left@ == right@),
{
    if left.len() != right.len() {
        return false;
    }
    let mut i: usize = 0;
    while i < left.len()
        invariant
            left.len() == right.len(),
            i <= left.len(),
            left@.take(i as int) == right@.take(i as int),
        decreases left.len() - i,
    {
        if left[i] != right[i] {
            return false;
        }
        assert(left@.take(i + 1) =~= left@.take(i as int).push(left[i as int]));
        assert(right@.take(i + 1) =~= right@.take(i as int).push(right[i as int]));
        i += 1;
    }
    assert(left@.take(i as int) =~= left@);
    assert(right@.take(i as int) =~= right@);
    true
}

/// Whether an optional string holds the given text.
pub fn holds_text(value: &Option<String>, expected: &str) -> (same: bool)
    ensures
        same == (opt_text(*value) == Some(expected@)),
{
    match value {
        Some(s) => same_text(s.as_str(), expected),
        None => false,
    }
}

/// Whether two optional strings hold the same text, or neither holds one.
pub fn same_option(a: &Option<String>, b: &Option<String>) -> (same: bool)
    ensures
        same == (opt_text(*a) == opt_text(*b)),
{
    match (a, b) {
        (Some(x), Some(y)) => same_text(x.as_str(), y.as_str()),
        (None, None) => true,
        _ => false,
    }
}

/// The number of bytes of a text.
pub fn byte_len(text: &str) -> (len: usize)
    ensures
        len == byte_length(text@),
{
    text.as_bytes().len()
}

/// Whether a text begins with a prefix.
pub fn starts_with(text: &str, prefix: &str) -> (yes: bool)
    ensures
        yes == prefix@.is_prefix_of(text@),
{
    let chars = chars_of(text);
    let head = chars_of(prefix);
    if head.len() > chars.len() {
        return false;
    }
    let mut i: usize = 0;
    while i < head.len()
        invariant
            i <= head.len() <= chars.len(),
            chars@ == text@,
            head@ == prefix@,
            forall|j: int| 0 <= j < i ==> head[j] == chars[j],
        decreases head.len() - i,
    {
        if head[i] != chars[i] {
            assert(prefix@[i as int] != text@.subrange(0, prefix@.len() as int)[i as int]);
            return false;
        }
        i += 1;
    }
    assert(prefix@ =~= text@.subrange(0, prefix@.len() as int));
    true
}

/// Whether a text ends with a suffix.
pub fn ends_with(text: &str, suffix: &str) -> (yes: bool)
    ensures
        yes == suffix@.is_suffix_of(text@),
{
    let chars = chars_of(text);
    let tail = chars_of(suffix);
    if tail.len() > chars.len() {
        return false;
    }
    let offset: usize = chars.len() - tail.len();
    let mut i: usize = 0;
    while i < tail.len()
        invariant
            i <= tail.len() <= chars.len(),
            offset == chars.len() - tail.len(),
            chars@ == text@,
            tail@ == suffix@,
            forall|j: int| 0 <= j < i ==> tail[j] == chars[offset + j],
        decreases tail.len() - i,
    {
        if tail[i] != chars[offset + i] {
            assert(suffix@[i as int] != text@.subrange(offset as int, text@.len() as int)[i as int]);
            return false;
        }
        i += 1;
    }
    assert(suffix@ =~= text@.subrange(offset as int, text@.len() as int));
    true
}

/// Whether a text occurs in a list of texts.
pub fn is_one_of(text: &str, list: &[&str]) -> (found: bool)
    ensures
        found == list@.map_values(|s: &str| s@).contains(text@),
{
    let ghost known = list@.map_values(|s: &str| s@);
    let mut i: usize = 0;
    while i < list.len()
        invariant
            i <= list.len(),
            known == list@.map_values(|s: &str| s@),
            forall|j: int| 0 <= j < i ==> #[trigger] known[j] != text@,
        decreases list.len() - i,
    {
        if same_text(text, list[i]) {
            assert(known[i as int] == text@);
            return true;
        }
        i += 1;
    }
    assert(!known.contains(text@));
    false
}

/// Whether a character occurs in a text.
pub fn has_char(text: &str, wanted: char) -> (found: bool)
    ensures
        found == text@.contains(wanted),
{
    let chars = chars_of(text);
    let mut i: usize = 0;
    while i < chars.len()
        invariant
            i <= chars.len(),
            chars@ == text@,
            forall|j: int| 0 <= j < i ==> chars[j] != wanted,
        decreases chars.len() - i,
    {
        if chars[i] == wanted {
            assert(text@[i as int] == wanted);
            return true;
        }
        i += 1;
    }
    false
}

/// Whether a text holds no control character.
pub fn all_printable(text: &str) -> (yes: bool)
    ensures
        yes == no_control(text@),
{
    let chars = chars_of(text);
    let mut i: usize = 0;
    while i < chars.len()
        invariant
            i <= chars.len(),
            chars@ == text@,
            forall|j: int| 0 <= j < i ==> !control(#[trigger] text@[j]),
        decreases chars.len() - i,
    {
        let c = chars[i];
        if c <= '\u{1f}' || ('\u{7f}' <= c && c <= '\u{9f}') {
            assert(control(text@[i as int]));
            return false;
        }
        i += 1;
    }
    true
}

fn lower_of(c: char) -> (lower: u32)
    ensures
        lower == ascii_lower(c) as u32,
{
    if 'A' <= c && c <= 'Z' {
        c as u32 + 32
    } else {
        c as u32
    }
}

/// Whether two texts are equal once ASCII letters are folded.
pub fn eq_ignoring_case(a: &str, b: &str) -> (same: bool)
    ensures
        same == same_ignoring_case(a@, b@),
{
    let left = chars_of(a);
    let right = chars_of(b);
    if left.len() != right.len() {
        return false;
    }
    let mut i: usize = 0;
    while i < left.len()
        invariant
            left@ == a@,
            right@ == b@,
            left.len() == right.len(),
            i <= left.len(),
            forall|j: int| 0 <= j < i ==> ascii_lower(#[trigger] a@[j]) == ascii_lower(b@[j]),
        decreases left.len() - i,
    {
        if lower_of(left[i]) != lower_of(right[i]) {
            assert(ascii_lower(a@[i as int]) != ascii_lower(b@[i as int]));
            return false;
        }
        assert(ascii_lower(a@[i as int]) == ascii_lower(b@[i as int]));
        i += 1;
    }
    true
}

/// Two texts, one behind the other.
pub fn concat(a: &str, b: &str) -> (joined: String)
    ensures
        joined@ == a@ + b@,
{
    let mut joined = a.to_owned();
    joined.append(b);
    joined
}

/// Three texts, one behind the other.
pub fn concat3(a: &str, b: &str, c: &str) -> (joined: String)
    ensures
        joined@ == a@ + b@ + c@,
{
    let mut joined = a.to_owned();
    joined.append(b);
    joined.append(c);
    joined
}

fn digit_char(value: u32) -> (c: char)
    requires
        value < 10,
    ensures
        c == ('0' as u32 + value) as char,
{
    match value {
        0 => '0',
        1 => '1',
        2 => '2',
        3 => '3',
        4 => '4',
        5 => '5',
        6 => '6',
        7 => '7',
        8 => '8',
        _ => '9',
    }
}

fn hex_char(value: u8) -> (c: char)
    requires
        value < 16,
    ensures
        c == hex_digit(value as int),
{
    match value {
        10 => 'a',
        11 => 'b',
        12 => 'c',
        13 => 'd',
        14 => 'e',
        15 => 'f',
        _ => digit_char(value as u32),
    }
}

/// A number in decimal.
pub fn decimal(value: u64) -> (text: String)
    ensures
        text@ == decimal_text(value as nat),
    decreases value,
{
    let mut text = if value < 10 {
        String::new()
    } else {
        decimal(value / 10)
    };
    push_char(&mut text, digit_char((value % 10) as u32));
    assert(text@ =~= decimal_text(value as nat));
    text
}

/// Some bytes in lower-case hexadecimal.
pub fn hex(bytes: &[u8]) -> (text: String)
    ensures
        text@ == hex_text(bytes@),
{
    let mut text = String::new();
    let mut i: usize = 0;
    while i < bytes.len()
        invariant
            i <= bytes.len(),
            text@ == hex_text(bytes@.take(i as int)),
        decreases bytes.len() - i,
    {
        let ghost before = text@;
        push_char(&mut text, hex_char(bytes[i] / 16));
        push_char(&mut text, hex_char(bytes[i] % 16));
        assert(text@ =~= hex_text(bytes@.take(i + 1))) by {
            assert forall|j: int| 0 <= j < text@.len() implies text@[j] == hex_text(
                bytes@.take(i + 1),
            )[j] by {
                if j < before.len() {
                    assert(before[j] == hex_text(bytes@.take(i as int))[j]);
                }
            }
        }
        i += 1;
    }
    assert(bytes@.take(i as int) =~= bytes@);
    text
}

/// White space: the Unicode property `White_Space`.
pub open spec fn white_space(c: char) -> bool {
    ||| '\u{9}' <= c <= '\u{d}'
    ||| c == '\u{20}' || c == '\u{85}' || c == '\u{a0}' || c == '\u{1680}'
    ||| '\u{2000}' <= c <= '\u{200a}'
    ||| c == '\u{2028}' || c == '\u{2029}' || c == '\u{202f}' || c == '\u{205f}' || c == '\u{3000}'
}

fn is_white_space(c: char) -> (white: bool)
    ensures
        white == white_space(c),
{
    ('\u{9}' <= c && c <= '\u{d}') || c == '\u{20}' || c == '\u{85}' || c == '\u{a0}' || c
        == '\u{1680}' || ('\u{2000}' <= c && c <= '\u{200a}') || c == '\u{2028}' || c == '\u{2029}'
        || c == '\u{202f}' || c == '\u{205f}' || c == '\u{3000}'
}

/// Every character of a text is white space.
pub open spec fn blank(text: Seq<char>) -> bool {
    forall|i: int| 0 <= i < text.len() ==> white_space(#[trigger] text[i])
}

/// Whether a text is empty or white space throughout.
pub fn is_blank(text: &str) -> (yes: bool)
    ensures
        yes == blank(text@),
{
    let chars = chars_of(text);
    let mut i: usize = 0;
    while i < chars.len()
        invariant
            i <= chars.len(),
            chars@ == text@,
            forall|j: int| 0 <= j < i ==> white_space(#[trigger] text@[j]),
        decreases chars.len() - i,
    {
        if !is_white_space(chars[i]) {
            assert(!white_space(text@[i as int]));
            return false;
        }
        i += 1;
    }
    true
}

/// The first place of a character at or behind a place, the length where there is none.
pub open spec fn place_of(text: Seq<char>, c: char, from: int) -> int
    decreases text.len() - from,
{
    if from >= text.len() {
        text.len() as int
    } else if text[from] == c {
        from
    } else {
        place_of(text, c, from + 1)
    }
}

/// The line of a text that begins at a place and ends before another: a carriage return
/// before a line feed belongs to the line's end.
pub open spec fn line_between(text: Seq<char>, from: int, end: int) -> Seq<char> {
    if end < text.len() && end > from && text[end - 1] == '\r' {
        text.subrange(from, end - 1)
    } else {
        text.subrange(from, end)
    }
}

/// The lines of a text from a place on.
pub open spec fn lines_from(text: Seq<char>, from: int) -> Seq<Seq<char>>
    decreases text.len() + 1 - from,
    when 0 <= from
{
    if from >= text.len() {
        Seq::empty()
    } else {
        let end = place_of(text, '\n', from);
        proof {
            place_in_range(text, '\n', from);
        }
        seq![line_between(text, from, end)] + lines_from(text, end + 1)
    }
}

/// The lines of a text, without their ends.
pub open spec fn lines_of(text: Seq<char>) -> Seq<Seq<char>> {
    lines_from(text, 0)
}

pub proof fn place_in_range(text: Seq<char>, c: char, from: int)
    requires
        0 <= from <= text.len(),
    ensures
        from <= place_of(text, c, from) <= text.len(),
        place_of(text, c, from) < text.len() ==> text[place_of(text, c, from)] == c,
        forall|i: int| from <= i < place_of(text, c, from) ==> text[i] != c,
    decreases text.len() - from,
{
    if from < text.len() && text[from] != c {
        place_in_range(text, c, from + 1);
    }
}

/// The first place of a character at or behind a place, the length where there is none.
pub fn find_char(chars: &Vec<char>, c: char, from: usize) -> (place: usize)
    requires
        from <= chars@.len(),
    ensures
        place == place_of(chars@, c, from as int),
        from <= place <= chars@.len(),
{
    let mut i: usize = from;
    while i < chars.len() && chars[i] != c
        invariant
            from <= i <= chars@.len(),
            place_of(chars@, c, from as int) == place_of(chars@, c, i as int),
        decreases chars@.len() - i,
    {
        i += 1;
    }
    i
}

/// Whether two lists hold the same texts.
pub fn same_texts(a: &Vec<String>, b: &Vec<String>) -> (same: bool)
    ensures
        same == (texts(a@) == texts(b@)),
{
    if a.len() != b.len() {
        assert(texts(a@).len() != texts(b@).len());
        return false;
    }
    let mut i: usize = 0;
    while i < a.len()
        invariant
            i <= a@.len() == b@.len(),
            forall|j: int| 0 <= j < i ==> #[trigger] texts(a@)[j] == texts(b@)[j],
        decreases a.len() - i,
    {
        if !same_text(a[i].as_str(), b[i].as_str()) {
            assert(texts(a@)[i as int] != texts(b@)[i as int]);
            return false;
        }
        i += 1;
    }
    assert(texts(a@) =~= texts(b@));
    true
}

/// The characters of a range as a string.
pub fn text_between(chars: &Vec<char>, from: usize, end: usize) -> (text: String)
    requires
        from <= end <= chars@.len(),
    ensures
        text@ == chars@.subrange(from as int, end as int),
{
    let mut text = String::new();
    let mut i: usize = from;
    while i < end
        invariant
            from <= i <= end <= chars@.len(),
            text@ == chars@.subrange(from as int, i as int),
        decreases end - i,
    {
        push_char(&mut text, chars[i]);
        assert(chars@.subrange(from as int, i + 1) =~= chars@.subrange(from as int, i as int).push(
            chars@[i as int],
        ));
        i += 1;
    }
    text
}

/// The lines of a text, without their ends.
pub fn split_lines(text: &str) -> (lines: Vec<String>)
    ensures
        texts(lines@) == lines_of(text@),
{
    let chars = chars_of(text);
    let mut lines: Vec<String> = Vec::new();
    let mut from: usize = 0;
    while from < chars.len()
        invariant
            from <= chars@.len(),
            chars@ == text@,
            texts(lines@) + lines_from(text@, from as int) == lines_of(text@),
        decreases chars@.len() - from,
    {
        let ghost before = lines@;
        proof {
            place_in_range(text@, '\n', from as int);
        }
        let end = find_char(&chars, '\n', from);
        let line = if end < chars.len() && end > from && chars[end - 1] == '\r' {
            text_between(&chars, from, end - 1)
        } else {
            text_between(&chars, from, end)
        };
        lines.push(line);
        proof {
            let rest = lines_from(text@, end + 1);
            assert(lines_from(text@, from as int) == seq![line_between(text@, from as int, end as int)]
                + rest);
            assert(texts(lines@) =~= texts(before).push(line_between(text@, from as int, end as int)));
            assert(texts(lines@) + rest =~= texts(before) + (seq![
                line_between(text@, from as int, end as int),
            ] + rest));
            if end == chars@.len() {
                assert(lines_from(text@, end + 1) =~= lines_from(text@, end as int));
            }
        }
        if end < chars.len() {
            from = end + 1;
        } else {
            from = end;
        }
    }
    assert(texts(lines@) + lines_from(text@, from as int) =~= texts(lines@));
    lines
}

/// The number that decimal digits spell.
pub open spec fn digits_value(digits: Seq<char>) -> nat
    decreases digits.len(),
{
    if digits.len() == 0 {
        0
    } else {
        digits_value(digits.drop_last()) * 10 + (digits.last() as nat - '0' as nat) as nat
    }
}

/// At least one decimal digit and nothing else.
pub open spec fn all_digits(text: Seq<char>) -> bool {
    text.len() > 0 && forall|i: int| 0 <= i < text.len() ==> '0' <= #[trigger] text[i] <= '9'
}

/// The digits of a number's text: a plus sign may stand before them.
pub open spec fn unsigned_digits(text: Seq<char>) -> Seq<char> {
    if text.len() > 0 && text[0] == '+' {
        text.skip(1)
    } else {
        text
    }
}

/// The number up to a bound that a text spells: digits, with a plus sign before them or not.
pub open spec fn number_up_to(text: Seq<char>, bound: u64) -> Option<u64> {
    let digits = unsigned_digits(text);
    if all_digits(digits) && digits_value(digits) <= bound {
        Some(digits_value(digits) as u64)
    } else {
        None
    }
}

/// The 16-bit number that a text spells: digits, with a plus sign before them or not.
pub open spec fn u16_of(text: Seq<char>) -> Option<u16> {
    let digits = unsigned_digits(text);
    if all_digits(digits) && digits_value(digits) <= 0xffff {
        Some(digits_value(digits) as u16)
    } else {
        None
    }
}

/// The 64-bit number that a text spells: digits, with a plus sign before them or not.
pub open spec fn u64_of(text: Seq<char>) -> Option<u64> {
    number_up_to(text, u64::MAX)
}

proof fn digits_grow(digits: Seq<char>, n: int)
    requires
        all_digits(digits),
        0 <= n <= digits.len(),
    ensures
        digits_value(digits.take(n)) <= digits_value(digits),
    decreases digits.len() - n,
{
    if n < digits.len() {
        digits_grow(digits, n + 1);
        assert(digits.take(n + 1).drop_last() =~= digits.take(n));
        assert('0' <= digits[n]);
    } else {
        assert(digits.take(n) =~= digits);
    }
}

/// The number up to a bound that a text spells.
fn parse_number(text: &str, bound: u64) -> (number: Option<u64>)
    ensures
        number == number_up_to(text@, bound),
{
    let chars = chars_of(text);
    let start: usize = if chars.len() > 0 && chars[0] == '+' {
        1
    } else {
        0
    };
    let ghost digits = unsigned_digits(text@);
    assert(digits =~= text@.skip(start as int));
    if start == chars.len() {
        return None;
    }
    // Every character is looked at before the value is, so that a stray one counts.
    let mut i: usize = start;
    while i < chars.len()
        invariant
            start <= i <= chars@.len(),
            chars@ == text@,
            digits == text@.skip(start as int),
            digits == unsigned_digits(text@),
            forall|j: int| 0 <= j < i - start ==> '0' <= #[trigger] digits[j] <= '9',
        decreases chars@.len() - i,
    {
        let c = chars[i];
        assert(digits[i - start] == c);
        if !('0' <= c && c <= '9') {
            assert(!all_digits(digits));
            return None;
        }
        i += 1;
    }
    assert(all_digits(digits));
    let mut value: u128 = 0;
    let mut k: usize = start;
    while k < chars.len()
        invariant
            start <= k <= chars@.len(),
            chars@ == text@,
            digits == text@.skip(start as int),
            digits == unsigned_digits(text@),
            all_digits(digits),
            value == digits_value(digits.take(k - start)),
            value <= bound,
        decreases chars@.len() - k,
    {
        let c = chars[k];
        assert(digits[k - start] == c);
        proof {
            assert(digits.take(k - start + 1).drop_last() =~= digits.take(k - start));
            digits_grow(digits, k - start + 1);
        }
        value = value * 10 + (c as u128 - '0' as u128);
        if value > bound as u128 {
            return None;
        }
        k += 1;
    }
    assert(digits.take(k - start) =~= digits);
    Some(value as u64)
}

/// The 16-bit number that a text spells.
pub fn parse_u16(text: &str) -> (number: Option<u16>)
    ensures
        number == u16_of(text@),
{
    match parse_number(text, 0xffff) {
        Some(value) => Some(value as u16),
        None => None,
    }
}

/// The 64-bit number that a text spells.
pub fn parse_u64(text: &str) -> (number: Option<u64>)
    ensures
        number == u64_of(text@),
{
    parse_number(text, u64::MAX)
}

/// Some texts one behind the other, with line feeds between.
pub open spec fn lines_joined(list: Seq<Seq<char>>) -> Seq<char>
    decreases list.len(),
{
    if list.len() == 0 {
        Seq::empty()
    } else if list.len() == 1 {
        list[0]
    } else {
        lines_joined(list.drop_last()) + seq!['\n'] + list.last()
    }
}

/// Some texts one behind the other, with line feeds between.
pub fn join_lines(list: &Vec<String>) -> (text: String)
    ensures
        text@ == lines_joined(texts(list@)),
{
    let mut text = String::new();
    let mut i: usize = 0;
    assert(texts(list@).take(0) =~= Seq::<Seq<char>>::empty());
    assert(text@ =~= Seq::<char>::empty());
    while i < list.len()
        invariant
            i <= list@.len(),
            text@ == lines_joined(texts(list@).take(i as int)),
        decreases list.len() - i,
    {
        let ghost before = text@;
        let ghost all = texts(list@);
        if i > 0 {
            push_char(&mut text, '\n');
        }
        text.append(list[i].as_str());
        proof {
            let now = all.take(i as int + 1);
            assert(now.drop_last() =~= all.take(i as int));
            assert(now.last() == list@[i as int]@);
            if i == 0 {
                assert(before =~= Seq::<char>::empty());
                assert(text@ =~= list@[0]@);
            } else {
                assert(text@ =~= before + seq!['\n'] + list@[i as int]@);
            }
        }
        i += 1;
    }
    assert(texts(list@).take(list@.len() as int) =~= texts(list@));
    text
}

/// Whether a text stands in another at a place.
pub open spec fn stands_at(text: Seq<char>, part: Seq<char>, place: int) -> bool {
    0 <= place && place + part.len() <= text.len() && text.subrange(
        place,
        place + part.len(),
    ) == part
}

/// Whether a text stands anywhere in another.
pub open spec fn has_part(text: Seq<char>, part: Seq<char>) -> bool {
    exists|place: int| #[trigger] stands_at(text, part, place)
}

/// Whether a text stands anywhere in another.
pub fn contains_part(text: &str, part: &str) -> (found: bool)
    ensures
        found == has_part(text@, part@),
{
    let chars = chars_of(text);
    let wanted = chars_of(part);
    if wanted.len() > chars.len() {
        return false;
    }
    let size: usize = chars.len();
    let mut place: usize = 0;
    while place <= size - wanted.len()
        invariant
            size == chars@.len(),
            chars@ == text@,
            wanted@ == part@,
            wanted@.len() <= chars@.len(),
            place <= chars@.len() - wanted@.len() + 1,
            forall|k: int| 0 <= k < place ==> !#[trigger] stands_at(text@, part@, k),
        decreases chars@.len() - wanted@.len() + 1 - place,
    {
        let mut n: usize = 0;
        while n < wanted.len() && chars[place + n] == wanted[n]
            invariant
                size == chars@.len(),
                chars@ == text@,
                wanted@ == part@,
                n <= wanted@.len(),
                place + wanted@.len() <= size,
                forall|k: int|
                    place <= k < place + n ==> #[trigger] text@[k] == part@[k - place],
            decreases wanted@.len() - n,
        {
            n += 1;
        }
        if n == wanted.len() {
            assert(text@.subrange(place as int, place + part@.len()) =~= part@);
            assert(stands_at(text@, part@, place as int));
            return true;
        }
        proof {
            if stands_at(text@, part@, place as int) {
                assert(text@.subrange(place as int, place + part@.len())[n as int]
                    == part@[n as int]);
            }
        }
        place += 1;
    }
    assert forall|k: int| !#[trigger] stands_at(text@, part@, k) by {}
    false
}

/// A text without the white space at its ends.
pub open spec fn trimmed(text: Seq<char>) -> Seq<char>
    decreases text.len(),
{
    if text.len() > 0 && white_space(text[0]) {
        trimmed(text.drop_first())
    } else if text.len() > 0 && white_space(text.last()) {
        trimmed(text.drop_last())
    } else {
        text
    }
}

/// A text without the white space at its ends.
pub fn trim(text: &str) -> (rest: String)
    ensures
        rest@ == trimmed(text@),
{
    let chars = chars_of(text);
    let mut from: usize = 0;
    assert(text@.subrange(0, text@.len() as int) =~= text@);
    while from < chars.len() && is_white_space(chars[from])
        invariant
            chars@ == text@,
            from <= chars@.len(),
            trimmed(text@) == trimmed(text@.subrange(from as int, text@.len() as int)),
        decreases chars@.len() - from,
    {
        assert(text@.subrange(from as int, text@.len() as int).drop_first() =~= text@.subrange(
            from + 1,
            text@.len() as int,
        ));
        from += 1;
    }
    let mut end: usize = chars.len();
    while end > from && is_white_space(chars[end - 1])
        invariant
            chars@ == text@,
            from <= end <= chars@.len(),
            from < chars@.len() ==> !white_space(text@[from as int]),
            trimmed(text@) == trimmed(text@.subrange(from as int, end as int)),
        decreases end,
    {
        assert(text@.subrange(from as int, end as int).drop_last() =~= text@.subrange(
            from as int,
            end - 1,
        ));
        end -= 1;
    }
    text_between(&chars, from, end)
}

/// Another copy of an optional text.
pub fn copy_option(value: &Option<String>) -> (copy: Option<String>)
    ensures
        opt_text(copy) == opt_text(*value),
{
    match value {
        Some(text) => Some(text.as_str().to_owned()),
        None => None,
    }
}

/// A text with another mark in place of each underscore: names are written in snake case
/// and travel in other spellings.
pub open spec fn respelled(text: Seq<char>, mark: char) -> Seq<char> {
    Seq::new(
        text.len(),
        |i: int|
            if text[i] == '_' {
                mark
            } else {
                text[i]
            },
    )
}

/// A text with another mark in place of each underscore.
pub fn respell(text: &str, mark: char) -> (other: String)
    ensures
        other@ == respelled(text@, mark),
{
    let chars = chars_of(text);
    let mut other = String::new();
    let mut i: usize = 0;
    while i < chars.len()
        invariant
            i <= chars@.len(),
            chars@ == text@,
            other@.len() == i,
            forall|j: int| 0 <= j < i ==> other@[j] == respelled(text@, mark)[j],
        decreases chars.len() - i,
    {
        if chars[i] == '_' {
            push_char(&mut other, mark);
        } else {
            push_char(&mut other, chars[i]);
        }
        i += 1;
    }
    assert(other@ =~= respelled(text@, mark));
    other
}

/// The first word of a name in snake case.
pub open spec fn first_word(name: Seq<char>) -> Seq<char> {
    name.subrange(0, place_of(name, '_', 0))
}

/// The first word of a name in snake case.
pub fn word(name: &str) -> (first: String)
    ensures
        first@ == first_word(name@),
{
    let chars = chars_of(name);
    let end = find_char(&chars, '_', 0);
    text_between(&chars, 0, end)
}

/// A name in kebab case, from its snake case.
pub open spec fn kebab_case(name: Seq<char>) -> Seq<char> {
    respelled(name, '-')
}

/// A name in kebab case, from its snake case.
pub fn kebab(name: &str) -> (other: String)
    ensures
        other@ == kebab_case(name@),
{
    respell(name, '-')
}

} // verus!
