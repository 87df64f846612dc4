//! Universally unique identifiers, held as the 128-bit number that their text spells.

use vstd::arithmetic::power::pow;
use vstd::prelude::*;

use crate::text::{hex_digit, lower_hex};

verus! {

/// A universally unique identifier.
#[derive(Clone, Copy, Debug, PartialEq, Eq, Structural)]
pub struct Uuid {
    pub value: u128,
}

/// The hexadecimal digit of a 128-bit number at a place counted from the left.
pub open spec fn nibble(value: u128, place: int) -> int {
    (value as int / pow(16, (31 - place) as nat)) % 16
}

/// The 32 lower-case hexadecimal digits of an identifier.
pub open spec fn simple_text(value: u128) -> Seq<char> {
    Seq::new(32, |i: int| hex_digit(nibble(value, i)))
}

/// The hyphenated text of an identifier: its digits in groups of 8, 4, 4, 4 and 12.
pub open spec fn hyphenated_text(value: u128) -> Seq<char> {
    let digits = simple_text(value);
    digits.subrange(0, 8) + seq!['-'] + digits.subrange(8, 12) + seq!['-'] + digits.subrange(12, 16)
        + seq!['-'] + digits.subrange(16, 20) + seq!['-'] + digits.subrange(20, 32)
}

/// The version number that an identifier carries: the first digit of its third group.
pub open spec fn version_of(value: u128) -> int {
    nibble(value, 12)
}

/// What `uuid::Uuid::parse_str` reads in a text.
pub uninterp spec fn parsed_uuid(text: Seq<char>) -> Option<u128>;

/// `uuid::Uuid::parse_str`: the identifier that a text spells in one of the forms that
/// the crate reads, as a function of the text alone. The crate reads back every hyphenated
/// text.
#[verifier::external_body]
pub(crate) fn parse_uuid(text: &str) -> (id: Option<Uuid>)
    ensures
        id == (match parsed_uuid(text@) {
            Some(value) => Some(Uuid { value }),
            None => None,
        }),
        forall|value: u128|
            text@ == #[trigger] hyphenated_text(value) ==> id == Some(Uuid { value }),
{
    uuid::Uuid::parse_str(text).ok().map(|id| Uuid { value: id.as_u128() })
}

/// `uuid::Uuid` as text: the lower-case hyphenated form.
#[verifier::external_body]
pub(crate) fn uuid_text(id: Uuid) -> (text: String)
    ensures
        text@ == hyphenated_text(id.value),
{
    uuid::Uuid::from_u128(id.value).hyphenated().to_string()
}

/// `uuid::Uuid::simple` as text: the 32 lower-case digits without hyphens.
#[verifier::external_body]
pub(crate) fn uuid_simple_text(id: Uuid) -> (text: String)
    ensures
        text@ == simple_text(id.value),
{
    uuid::Uuid::from_u128(id.value).simple().to_string()
}

/// `uuid::Uuid::get_version_num`: the number in the upper half of the seventh byte, which
/// is the first digit of the third group.
#[verifier::external_body]
pub(crate) fn uuid_version(id: Uuid) -> (version: usize)
    ensures
        version == version_of(id.value),
{
    uuid::Uuid::from_u128(id.value).get_version_num()
}

/// `uuid::Uuid::new_v4`: a random identifier. It is never nil and carries version 4;
/// nothing more holds of every outcome.
#[verifier::external_body]
pub(crate) fn fresh_uuid() -> (id: Uuid)
    ensures
        id.value != 0,
        version_of(id.value) == 4,
{
    Uuid { value: uuid::Uuid::new_v4().as_u128() }
}

impl Uuid {
    /// The identifier of the number zero.
    pub fn nil() -> (id: Uuid)
        ensures
            id.value == 0,
    {
        Uuid { value: 0 }
    }

    /// Whether this is the identifier of the number zero.
    pub fn is_nil(self) -> (nil: bool)
        ensures
            nil == (self.value == 0),
    {
        self.value == 0
    }

    /// The identifier that a text spells.
    pub fn parse(text: &str) -> (id: Option<Uuid>)
        ensures
            id == (match parsed_uuid(text@) {
                Some(value) => Some(Uuid { value }),
                None => None,
            }),
            forall|value: u128|
                #![trigger hyphenated_text(value)]
                text@ == hyphenated_text(value) ==> id == Some(Uuid { value }),
    {
        parse_uuid(text)
    }

    /// The hyphenated text of this identifier.
    pub fn to_text(self) -> (text: String)
        ensures
            text@ == hyphenated_text(self.value),
    {
        uuid_text(self)
    }

    /// A new identifier, drawn at random.
    pub fn fresh() -> (id: Uuid)
        ensures
            id.value != 0,
            version_of(id.value) == 4,
    {
        fresh_uuid()
    }
}

/// An identifier's digits are lower-case hexadecimal digits.
pub proof fn simple_text_is_hex(value: u128)
    ensures
        simple_text(value).len() == 32,
        forall|i: int| 0 <= i < 32 ==> lower_hex(#[trigger] simple_text(value)[i]),
{
}

/// The hyphenated text has 36 characters, each a hyphen or a lower-case hexadecimal
/// digit, and begins with a digit.
pub proof fn hyphenated_text_is_plain(value: u128)
    ensures
        hyphenated_text(value).len() == 36,
        lower_hex(hyphenated_text(value)[0]),
        forall|i: int|
            0 <= i < 36 ==> #[trigger] hyphenated_text(value)[i] == '-' || lower_hex(
                hyphenated_text(value)[i],
            ),
{
    simple_text_is_hex(value);
}

} // verus!
