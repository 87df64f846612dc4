//! JSON values as plain data, with the reading and writing of JSON text.

use vstd::prelude::*;
use vstd::utf8::*;

use crate::ids::{hyphenated_text, Uuid};
use crate::text::{byte_length, hex_digit, same_text, texts};

verus! {

broadcast use vstd::std_specs::vec::axiom_vec_index_decreases;

/// A JSON value. A number that is not an integer of 64 bits is kept as its text.
#[derive(Debug, PartialEq)]
pub enum Json {
    Null,
    Bool(bool),
    Unsigned(u64),
    Negative(i64),
    Real(String),
    Text(String),
    Array(Vec<Json>),
    Object(Vec<Member>),
}

/// One member of a JSON object.
#[derive(Debug, PartialEq)]
pub struct Member {
    pub key: String,
    pub value: Json,
}

/// A JSON value as mathematics has it.
pub enum JsonModel {
    Null,
    Bool(bool),
    Unsigned(u64),
    Negative(i64),
    Real(Seq<char>),
    Text(Seq<char>),
    Array(Seq<JsonModel>),
    Object(Seq<(Seq<char>, JsonModel)>),
}

impl Json {
    /// The value that this holds.
    pub open spec fn model(self) -> JsonModel
        decreases self,
    {
        match self {
            Json::Null => JsonModel::Null,
            Json::Bool(b) => JsonModel::Bool(b),
            Json::Unsigned(n) => JsonModel::Unsigned(n),
            Json::Negative(n) => JsonModel::Negative(n),
            Json::Real(text) => JsonModel::Real(text@),
            Json::Text(text) => JsonModel::Text(text@),
            Json::Array(items) => JsonModel::Array(
                Seq::new(
                    items.len() as nat,
                    |i: int|
                        if 0 <= i < items.len() {
                            items[i].model()
                        } else {
                            JsonModel::Null
                        },
                ),
            ),
            Json::Object(members) => JsonModel::Object(
                Seq::new(
                    members.len() as nat,
                    |i: int|
                        if 0 <= i < members.len() {
                            (members[i].key@, members[i].value.model())
                        } else {
                            (Seq::empty(), JsonModel::Null)
                        },
                ),
            ),
        }
    }
}

/// The first member of an object under a key.
pub open spec fn member(members: Seq<(Seq<char>, JsonModel)>, key: Seq<char>) -> Option<JsonModel>
    decreases members.len(),
{
    if members.len() == 0 {
        None
    } else if members[0].0 == key {
        Some(members[0].1)
    } else {
        member(members.drop_first(), key)
    }
}

impl JsonModel {
    /// The member of an object under a key; nothing of any other value.
    pub open spec fn get(self, key: Seq<char>) -> Option<JsonModel> {
        match self {
            JsonModel::Object(members) => member(members, key),
            _ => None,
        }
    }

    /// The member of an object under a key, null where there is none.
    pub open spec fn at(self, key: Seq<char>) -> JsonModel {
        match self.get(key) {
            Some(value) => value,
            None => JsonModel::Null,
        }
    }

    pub open spec fn text(self) -> Option<Seq<char>> {
        match self {
            JsonModel::Text(text) => Some(text),
            _ => None,
        }
    }

    /// The text of the member under a key, if it is a text.
    pub open spec fn text_at(self, key: Seq<char>) -> Option<Seq<char>> {
        self.at(key).text()
    }

    pub open spec fn unsigned(self) -> Option<u64> {
        match self {
            JsonModel::Unsigned(n) => Some(n),
            _ => None,
        }
    }

    pub open spec fn boolean(self) -> Option<bool> {
        match self {
            JsonModel::Bool(b) => Some(b),
            _ => None,
        }
    }

    pub open spec fn items(self) -> Option<Seq<JsonModel>> {
        match self {
            JsonModel::Array(items) => Some(items),
            _ => None,
        }
    }

    /// The keys of an object in order.
    pub open spec fn keys(self) -> Seq<Seq<char>> {
        match self {
            JsonModel::Object(members) => members.map_values(|m: (Seq<char>, JsonModel)| m.0),
            _ => Seq::empty(),
        }
    }
}

/// The models of a list of values.
pub open spec fn models(items: Seq<Json>) -> Seq<JsonModel> {
    items.map_values(|item: Json| item.model())
}

/// The models of a list of members.
pub open spec fn member_models(members: Seq<Member>) -> Seq<(Seq<char>, JsonModel)> {
    members.map_values(|m: Member| (m.key@, m.value.model()))
}

/// An array is modelled item by item.
pub proof fn array_model(items: Vec<Json>)
    ensures
        Json::Array(items).model() == JsonModel::Array(models(items@)),
{
    assert(Json::Array(items).model()->Array_0 =~= models(items@));
}

/// An object is modelled member by member.
pub proof fn object_model(members: Vec<Member>)
    ensures
        Json::Object(members).model() == JsonModel::Object(member_models(members@)),
{
    assert(Json::Object(members).model()->Object_0 =~= member_models(members@));
}

/// What lies behind a prefix without the key is what the whole holds.
proof fn member_skips(members: Seq<(Seq<char>, JsonModel)>, key: Seq<char>, n: int)
    requires
        0 <= n <= members.len(),
        forall|i: int| 0 <= i < n ==> (#[trigger] members[i]).0 != key,
    ensures
        member(members, key) == member(members.skip(n), key),
    decreases n,
{
    if n == 0 {
        assert(members.skip(0) =~= members);
    } else {
        let rest = members.drop_first();
        assert forall|i: int| 0 <= i < n - 1 implies (#[trigger] rest[i]).0 != key by {
            assert(rest[i] == members[i + 1]);
        }
        assert(members[0].0 != key);
        member_skips(rest, key, n - 1);
        assert(rest.skip(n - 1) =~= members.skip(n));
    }
}

/// An object holds a member under a key exactly where one of its keys is that key.
pub proof fn member_exists(members: Seq<(Seq<char>, JsonModel)>, key: Seq<char>)
    ensures
        member(members, key) is Some <==> exists|i: int|
            0 <= i < members.len() && (#[trigger] members[i]).0 == key,
    decreases members.len(),
{
    if members.len() > 0 {
        let rest = members.drop_first();
        member_exists(rest, key);
        if members[0].0 != key {
            if exists|i: int| 0 <= i < members.len() && (#[trigger] members[i]).0 == key {
                let i = choose|i: int| 0 <= i < members.len() && (#[trigger] members[i]).0 == key;
                assert(rest[i - 1] == members[i]);
            }
            if exists|i: int| 0 <= i < rest.len() && (#[trigger] rest[i]).0 == key {
                let i = choose|i: int| 0 <= i < rest.len() && (#[trigger] rest[i]).0 == key;
                assert(members[i + 1] == rest[i]);
            }
        } else {
            assert(members[0].0 == key);
        }
    }
}

impl Json {
    /// The member of an object under a key.
    pub fn get(&self, key: &str) -> (found: Option<&Json>)
        ensures
            (match found {
                Some(value) => Some(value.model()),
                None => None,
            }) == self.model().get(key@),
    {
        match self {
            Json::Object(members) => {
                let ghost model = member_models(members@);
                proof {
                    object_model(*members);
                }
                let mut i: usize = 0;
                while i < members.len()
                    invariant
                        i <= members.len(),
                        model == member_models(members@),
                        self.model() == JsonModel::Object(model),
                        forall|j: int| 0 <= j < i ==> (#[trigger] model[j]).0 != key@,
                    decreases members.len() - i,
                {
                    if same_text(members[i].key.as_str(), key) {
                        proof {
                            member_skips(model, key@, i as int);
                            assert(model.skip(i as int)[0] == model[i as int]);
                        }
                        return Some(&members[i].value);
                    }
                    i += 1;
                }
                proof {
                    member_skips(model, key@, model.len() as int);
                }
                None
            },
            _ => None,
        }
    }

    /// The text of the member under a key, if there is one and it is a text.
    pub fn text_at(&self, key: &str) -> (text: Option<&str>)
        ensures
            (match text {
                Some(s) => Some(s@),
                None => None,
            }) == self.model().text_at(key@),
    {
        match self.get(key) {
            Some(value) => value.as_text(),
            None => None,
        }
    }

    /// Whether the member under a key is the given text.
    pub fn says(&self, key: &str, expected: &str) -> (same: bool)
        ensures
            same == (self.model().text_at(key@) == Some(expected@)),
    {
        match self.text_at(key) {
            Some(text) => same_text(text, expected),
            None => false,
        }
    }

    pub fn as_text(&self) -> (text: Option<&str>)
        ensures
            (match text {
                Some(s) => Some(s@),
                None => None,
            }) == self.model().text(),
    {
        match self {
            Json::Text(text) => Some(text.as_str()),
            _ => None,
        }
    }

    pub fn as_unsigned(&self) -> (number: Option<u64>)
        ensures
            number == self.model().unsigned(),
    {
        match self {
            Json::Unsigned(n) => Some(*n),
            _ => None,
        }
    }

    pub fn as_bool(&self) -> (value: Option<bool>)
        ensures
            value == self.model().boolean(),
    {
        match self {
            Json::Bool(b) => Some(*b),
            _ => None,
        }
    }

    pub fn as_items(&self) -> (items: Option<&Vec<Json>>)
        ensures
            (match items {
                Some(list) => Some(models(list@)),
                None => None,
            }) == self.model().items(),
    {
        match self {
            Json::Array(items) => {
                proof {
                    array_model(*items);
                }
                Some(items)
            },
            _ => None,
        }
    }

    pub fn as_members(&self) -> (members: Option<&Vec<Member>>)
        ensures
            (match members {
                Some(list) => self.model() == JsonModel::Object(member_models(list@)),
                None => !(self.model() is Object),
            }),
    {
        match self {
            Json::Object(members) => {
                proof {
                    object_model(*members);
                }
                Some(members)
            },
            _ => None,
        }
    }

    pub fn is_object(&self) -> (yes: bool)
        ensures
            yes == (self.model() is Object),
    {
        matches!(self, Json::Object(_))
    }

    pub fn is_null(&self) -> (yes: bool)
        ensures
            yes == (self.model() is Null),
    {
        matches!(self, Json::Null)
    }

    /// A text value.
    pub fn of_text(text: &str) -> (value: Json)
        ensures
            value.model() == JsonModel::Text(text@),
    {
        Json::Text(text.to_owned())
    }

    /// Another value that holds the same.
    pub fn copy(&self) -> (same: Json)
        ensures
            same.model() == self.model(),
        decreases self,
    {
        match self {
            Json::Null => Json::Null,
            Json::Bool(b) => Json::Bool(*b),
            Json::Unsigned(n) => Json::Unsigned(*n),
            Json::Negative(n) => Json::Negative(*n),
            Json::Real(text) => Json::Real(text.clone()),
            Json::Text(text) => Json::Text(text.clone()),
            Json::Array(items) => {
                let mut copies: Vec<Json> = Vec::new();
                let mut i: usize = 0;
                while i < items.len()
                    invariant
                        i <= items.len(),
                        copies.len() == i,
                        decreases_to!(self => items),
                        forall|j: int| 0 <= j < i ==> (#[trigger] copies[j]).model() == items[j].model(),
                    decreases items.len() - i,
                {
                    copies.push(items[i].copy());
                    i += 1;
                }
                proof {
                    array_model(*items);
                    array_model(copies);
                    assert(models(copies@) =~= models(items@));
                }
                Json::Array(copies)
            },
            Json::Object(members) => {
                let mut copies: Vec<Member> = Vec::new();
                let mut i: usize = 0;
                while i < members.len()
                    invariant
                        i <= members.len(),
                        copies.len() == i,
                        decreases_to!(self => members),
                        forall|j: int|
                            0 <= j < i ==> (#[trigger] copies[j]).value.model()
                                == members[j].value.model() && copies[j].key@ == members[j].key@,
                    decreases members.len() - i,
                {
                    assert(decreases_to!(members => members[i as int]));
                    let value = members[i].value.copy();
                    copies.push(Member { key: members[i].key.clone(), value });
                    i += 1;
                }
                proof {
                    object_model(*members);
                    object_model(copies);
                    assert(member_models(copies@) =~= member_models(members@));
                }
                Json::Object(copies)
            },
        }
    }
}

/// A member with the given key and value.
pub fn field(key: &str, value: Json) -> (member: Member)
    ensures
        member.key@ == key@,
        member.value == value,
{
    Member { key: key.to_owned(), value }
}

/// An object of the given members.
pub fn object(members: Vec<Member>) -> (value: Json)
    ensures
        value.model() == JsonModel::Object(member_models(members@)),
{
    proof {
        object_model(members);
    }
    Json::Object(members)
}

/// A whole number as a JSON value.
pub open spec fn integer_model(value: i64) -> JsonModel {
    if value >= 0 {
        JsonModel::Unsigned(value as u64)
    } else {
        JsonModel::Negative(value)
    }
}

/// A whole number as a JSON value.
pub fn integer(value: i64) -> (number: Json)
    ensures
        number.model() == integer_model(value),
{
    if value >= 0 {
        Json::Unsigned(value as u64)
    } else {
        Json::Negative(value)
    }
}

/// An identifier as a JSON value: its hyphenated text.
pub open spec fn uuid_model(id: Uuid) -> JsonModel {
    JsonModel::Text(hyphenated_text(id.value))
}

/// An identifier as a JSON value.
pub fn uuid_value(id: Uuid) -> (value: Json)
    ensures
        value.model() == uuid_model(id),
{
    Json::Text(id.to_text())
}

/// The value that a JSON text spells.
pub uninterp spec fn parsed_json(bytes: Seq<u8>) -> Option<JsonModel>;

/// The compact JSON text of a value.
pub uninterp spec fn encoded_json(value: JsonModel) -> Seq<u8>;

#[verifier::external_type_specification]
#[verifier::external_body]
pub struct ExValue(serde_json::Value);

/// A `serde_json::Value` as a value of this module, variant for variant. The numbers of
/// `serde_json::Number` that fit neither `u64` nor `i64` are kept as their text.
#[verifier::external_body]
fn from_value(value: serde_json::Value) -> Json {
    match value {
        serde_json::Value::Null => Json::Null,
        serde_json::Value::Bool(b) => Json::Bool(b),
        serde_json::Value::Number(n) => match (n.as_u64(), n.as_i64()) {
            (Some(v), _) => Json::Unsigned(v),
            (None, Some(v)) => Json::Negative(v),
            (None, None) => Json::Real(n.to_string()),
        },
        serde_json::Value::String(text) => Json::Text(text),
        serde_json::Value::Array(items) => Json::Array(items.into_iter().map(from_value).collect()),
        serde_json::Value::Object(map) => Json::Object(
            map.into_iter().map(|(key, value)| Member { key, value: from_value(value) }).collect()),
    }
}

/// A value of this module as a `serde_json::Value`, variant for variant.
#[verifier::external_body]
pub(crate) fn to_value(json: &Json) -> serde_json::Value {
    match json {
        Json::Null => serde_json::Value::Null,
        Json::Bool(b) => serde_json::Value::Bool(*b),
        Json::Unsigned(n) => serde_json::Value::from(*n),
        Json::Negative(n) => serde_json::Value::from(*n),
        Json::Real(text) => serde_json::from_str(text).unwrap_or(serde_json::Value::Null),
        Json::Text(text) => serde_json::Value::String(text.clone()),
        Json::Array(items) => serde_json::Value::Array(items.iter().map(to_value).collect()),
        Json::Object(members) => serde_json::Value::Object(
            members.iter().map(|m| (m.key.clone(), to_value(&m.value))).collect()),
    }
}

/// `serde_json::from_slice` into a `serde_json::Value`: the value that the whole of the
/// bytes spells, or nothing where they are no JSON text, as a function of the bytes alone.
#[verifier::external_body]
pub(crate) fn parse_json(bytes: &[u8]) -> (value: Option<Json>)
    ensures
        (match value {
            Some(json) => Some(json.model()),
            None => None,
        }) == parsed_json(bytes@),
{
    serde_json::from_slice(bytes).ok().map(from_value)
}

/// `serde_json::to_vec` of a `serde_json::Value`: the compact text of the value, as a
/// function of the value alone. Compact text holds no line feed: between tokens there is
/// no white space, and within texts control characters are escaped.
#[verifier::external_body]
pub(crate) fn encode_json(value: &Json) -> (bytes: Vec<u8>)
    ensures
        bytes@ == encoded_json(value.model()),
        forall|i: int| 0 <= i < bytes@.len() ==> #[trigger] bytes@[i] != 10u8,
{
    serde_json::to_vec(&to_value(value)).unwrap_or_default()
}

/// How JSON spells one character of a text.
pub open spec fn json_escape(c: char) -> Seq<char> {
    if c == '"' || c == '\\' {
        seq!['\\', c]
    } else if c == '\u{8}' {
        seq!['\\', 'b']
    } else if c == '\t' {
        seq!['\\', 't']
    } else if c == '\n' {
        seq!['\\', 'n']
    } else if c == '\u{c}' {
        seq!['\\', 'f']
    } else if c == '\r' {
        seq!['\\', 'r']
    } else if (c as u32) < 32 {
        seq!['\\', 'u', '0', '0', hex_digit(c as int / 16), hex_digit(c as int % 16)]
    } else {
        seq![c]
    }
}

/// The escaped characters of a text, one behind the other.
pub open spec fn json_escaped(text: Seq<char>) -> Seq<char>
    decreases text.len(),
{
    if text.len() == 0 {
        Seq::empty()
    } else {
        json_escaped(text.drop_last()) + json_escape(text.last())
    }
}

/// A text as a JSON string.
pub open spec fn json_quoted(text: Seq<char>) -> Seq<char> {
    seq!['"'] + json_escaped(text) + seq!['"']
}

/// `serde_json::to_string` of a string: the text between quotation marks, with quotation
/// marks, reverse solidi and the control characters below the space escaped.
#[verifier::external_body]
pub(crate) fn encode_text(text: &str) -> (quoted: String)
    ensures
        quoted@ == json_quoted(text@),
{
    serde_json::to_string(text).unwrap_or_default()
}

/// Some texts as JSON strings, one behind the other with commas between.
pub open spec fn json_items(list: Seq<Seq<char>>) -> Seq<char>
    decreases list.len(),
{
    if list.len() == 0 {
        Seq::empty()
    } else if list.len() == 1 {
        json_quoted(list[0])
    } else {
        json_items(list.drop_last()) + seq![','] + json_quoted(list.last())
    }
}

/// Some texts as a JSON array of strings.
pub open spec fn json_list(list: Seq<Seq<char>>) -> Seq<char> {
    seq!['['] + json_items(list) + seq![']']
}

/// `serde_json::to_string` of a list of strings: the strings as JSON has them, between
/// square brackets and with commas between, without white space.
#[verifier::external_body]
pub(crate) fn encode_texts(list: &[String]) -> (text: String)
    ensures
        text@ == json_list(texts(list@)),
{
    serde_json::to_string(list).unwrap_or_default()
}

/// The number of bytes that a text takes as a JSON string.
pub open spec fn json_text_length(text: Seq<char>) -> nat {
    byte_length(json_quoted(text))
}

} // verus!
