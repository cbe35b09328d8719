//! JSON documents as plain trees. Reading and writing JSON text is done by
//! `serde_json`; everything that inspects or builds a tree is verified here.

use vstd::prelude::*;
use vstd::string::*;
use crate::text::same;

verus! {

/// A JSON document held as plain values.
#[derive(Debug, PartialEq, Eq)]
pub enum Json {
    Null,
    Bool(bool),
    /// An integer that fits `i64`.
    Int(i64),
    /// A non-negative integer, used for values above `i64::MAX`.
    Natural(u64),
    /// A number with a fraction or an exponent, kept as its JSON text.
    Fraction(String),
    Text(String),
    List(Vec<Json>),
    /// The members of an object, in the order they are held.
    Object(Vec<(String, Json)>),
}

/// The mathematical value of a [`Json`] tree.
pub ghost enum JsonValue {
    Null,
    Bool(bool),
    Int(int),
    Fraction(Seq<char>),
    Text(Seq<char>),
    List(Seq<JsonValue>),
    Object(Seq<(Seq<char>, JsonValue)>),
}

/// The value of the first member named `key`, if there is one.
pub open spec fn lookup(members: Seq<(Seq<char>, JsonValue)>, key: Seq<char>) -> Option<
    JsonValue,
>
    decreases members.len(),
{
    if members.len() == 0 {
        None
    } else if members[0].0 == key {
        Some(members[0].1)
    } else {
        lookup(members.drop_first(), key)
    }
}

impl JsonValue {
    /// The member `key` of an object; `None` for anything that is not an
    /// object or has no such member.
    pub open spec fn member(self, key: Seq<char>) -> Option<JsonValue> {
        match self {
            JsonValue::Object(members) => lookup(members, key),
            _ => None,
        }
    }

    /// The elements of an array; `None` for anything else.
    pub open spec fn elements(self) -> Option<Seq<JsonValue>> {
        match self {
            JsonValue::List(items) => Some(items),
            _ => None,
        }
    }

    /// The characters of a string; `None` for anything else.
    pub open spec fn string(self) -> Option<Seq<char>> {
        match self {
            JsonValue::Text(text) => Some(text),
            _ => None,
        }
    }

    /// The integer, where the value is one that fits `i64`.
    pub open spec fn integer(self) -> Option<int> {
        match self {
            JsonValue::Int(number) if number <= i64::MAX => Some(number),
            _ => None,
        }
    }
}

/// The value that a tree stands for.
pub open spec fn value_of(json: Json) -> JsonValue
    decreases json,
{
    match json {
        Json::Null => JsonValue::Null,
        Json::Bool(flag) => JsonValue::Bool(flag),
        Json::Int(number) => JsonValue::Int(number as int),
        Json::Natural(number) => JsonValue::Int(number as int),
        Json::Fraction(text) => JsonValue::Fraction(text@),
        Json::Text(text) => JsonValue::Text(text@),
        Json::List(items) => JsonValue::List(
            Seq::new(
                items@.len(),
                |i: int|
                    if 0 <= i < items@.len() {
                        value_of(items@[i])
                    } else {
                        JsonValue::Null
                    },
            ),
        ),
        Json::Object(members) => JsonValue::Object(
            Seq::new(
                members@.len(),
                |i: int|
                    if 0 <= i < members@.len() {
                        (members@[i].0@, value_of(members@[i].1))
                    } else {
                        (Seq::empty(), JsonValue::Null)
                    },
            ),
        ),
    }
}

impl View for Json {
    type V = JsonValue;

    open spec fn view(&self) -> JsonValue {
        value_of(*self)
    }
}

/// Looking a key up in the tail of a member list is looking it up in the
/// list, once the members before the tail are known not to carry the key.
proof fn lemma_lookup_skip(members: Seq<(Seq<char>, JsonValue)>, key: Seq<char>, from: int)
    requires
        0 <= from <= members.len(),
        forall|j: int| 0 <= j < from ==> members[j].0 != key,
    ensures
        lookup(members, key) == lookup(members.subrange(from, members.len() as int), key),
    decreases from,
{
    if from == 0 {
        assert(members.subrange(0, members.len() as int) =~= members);
    } else {
        lemma_lookup_skip(members.drop_first(), key, from - 1);
        assert(members.drop_first().subrange(from - 1, members.len() - 1) =~= members.subrange(
            from,
            members.len() as int,
        ));
    }
}

impl Json {
    /// The member `key` of an object.
    pub fn get(&self, key: &str) -> (found: Option<&Json>)
        ensures
            match found {
                Some(value) => self@.member(key@) == Some(value@),
                None => self@.member(key@) is None,
            },
    {
        match self {
            Json::Object(members) => {
                let ghost all = members_view(members@);
                assert(self@ == JsonValue::Object(all)) by {
                    assert(self@->Object_0 =~= all);
                }
                let mut i: usize = 0;
                while i < members.len()
                    invariant
                        0 <= i <= members.len(),
                        self@ == JsonValue::Object(all),
                        all == members_view(members@),
                        forall|j: int| 0 <= j < i ==> all[j].0 != key@,
                    decreases members.len() - i,
                {
                    if same(members[i].0.as_str(), key) {
                        proof {
                            lemma_lookup_skip(all, key@, i as int);
                        }
                        return Some(&members[i].1);
                    }
                    i += 1;
                }
                proof {
                    lemma_lookup_skip(all, key@, all.len() as int);
                }
                None
            },
            _ => None,
        }
    }

    /// The elements of an array.
    pub fn as_array(&self) -> (items: Option<&Vec<Json>>)
        ensures
            match items {
                Some(list) => self@.elements() == Some(list_view(list@)),
                None => self@.elements() is None,
            },
    {
        match self {
            Json::List(items) => {
                assert(self@->List_0 =~= list_view(items@));
                Some(items)
            },
            _ => None,
        }
    }

    /// The characters of a string.
    pub fn as_str(&self) -> (text: Option<&str>)
        ensures
            match text {
                Some(characters) => self@.string() == Some(characters@),
                None => self@.string() is None,
            },
    {
        match self {
            Json::Text(text) => Some(text.as_str()),
            _ => None,
        }
    }

    /// The integer, where the value is one that fits `i64`.
    pub fn as_i64(&self) -> (number: Option<i64>)
        ensures
            match number {
                Some(value) => self@.integer() == Some(value as int),
                None => self@.integer() is None,
            },
    {
        match self {
            Json::Int(number) => Some(*number),
            Json::Natural(number) => {
                if *number <= 0x7fff_ffff_ffff_ffff {
                    Some(*number as i64)
                } else {
                    None
                }
            },
            _ => None,
        }
    }
}

impl Json {
    /// A JSON string with the characters of `text`.
    pub fn text(text: &str) -> (json: Json)
        ensures
            json@ == JsonValue::Text(text@),
    {
        Json::Text(text.to_owned())
    }

    /// A JSON array of the given elements.
    pub fn list(items: Vec<Json>) -> (json: Json)
        ensures
            json@ == JsonValue::List(list_view(items@)),
    {
        let json = Json::List(items);
        assert(json@->List_0 =~= list_view(items@));
        json
    }

    /// A JSON object of the given members.
    pub fn object(members: Vec<(String, Json)>) -> (json: Json)
        ensures
            json@ == JsonValue::Object(members_view(members@)),
    {
        let json = Json::Object(members);
        assert(json@->Object_0 =~= members_view(members@));
        json
    }

    /// The object with the one member `key`.
    pub fn single(key: &str, value: Json) -> (json: Json)
        ensures
            json@ == JsonValue::Object(seq![(key@, value@)]),
    {
        let mut members: Vec<(String, Json)> = Vec::new();
        members.push((key.to_owned(), value));
        assert(members_view(members@) =~= seq![(key@, value@)]);
        Json::object(members)
    }

    /// The object with the two members `first_key` and `second_key`, in
    /// that order.
    pub fn pair(first_key: &str, first: Json, second_key: &str, second: Json) -> (json: Json)
        ensures
            json@ == JsonValue::Object(seq![(first_key@, first@), (second_key@, second@)]),
    {
        let mut members: Vec<(String, Json)> = Vec::new();
        members.push((first_key.to_owned(), first));
        members.push((second_key.to_owned(), second));
        assert(members_view(members@) =~= seq![(first_key@, first@), (second_key@, second@)]);
        Json::object(members)
    }
}

/// The values of a list of trees, element by element.
pub open spec fn list_view(items: Seq<Json>) -> Seq<JsonValue> {
    Seq::new(items.len(), |i: int| items[i]@)
}

/// The values of a list of named trees, member by member.
pub open spec fn members_view(members: Seq<(String, Json)>) -> Seq<(Seq<char>, JsonValue)> {
    Seq::new(members.len(), |i: int| (members[i].0@, members[i].1@))
}

/// What `serde_json` makes of a JSON text: the value it stands for, or the
/// message of the error that `serde_json` reports for it.
pub uninterp spec fn json_parse(text: Seq<char>) -> Result<JsonValue, Seq<char>>;

/// The compact JSON text that `serde_json` writes for a value.
pub uninterp spec fn json_text(value: JsonValue) -> Seq<char>;

#[verifier::external_type_specification]
#[verifier::external_body]
pub struct ExValue(serde_json::Value);

/// Copies a `serde_json::Value` into a tree, variant by variant. An integer
/// becomes `Int` where `Number::as_i64` yields it and `Natural` where only
/// `Number::as_u64` does; any other number keeps its text.
#[verifier::external_body]
fn from_serde(value: &serde_json::Value) -> Json {
    match value {
        serde_json::Value::Null => Json::Null,
        serde_json::Value::Bool(flag) => Json::Bool(*flag),
        serde_json::Value::Number(n) => match (n.as_i64(), n.as_u64()) {
            (Some(i), _) => Json::Int(i),
            (_, Some(u)) => Json::Natural(u),
            _ => Json::Fraction(n.to_string()),
        },
        serde_json::Value::String(text) => Json::Text(text.clone()),
        serde_json::Value::Array(items) => Json::List(items.iter().map(from_serde).collect()),
        serde_json::Value::Object(map) => Json::Object(
            map.iter().map(|(key, item)| (key.clone(), from_serde(item))).collect(),
        ),
    }
}

/// Copies a tree into a `serde_json::Value`, variant by variant. Members are
/// inserted into the object in order, so of two members with one name the
/// later one stays. A `Fraction` is read back from its text.
#[verifier::external_body]
fn to_serde(json: &Json) -> serde_json::Value {
    match json {
        Json::Null => serde_json::Value::Null,
        Json::Bool(flag) => serde_json::Value::Bool(*flag),
        Json::Int(number) => serde_json::Value::from(*number),
        Json::Natural(number) => serde_json::Value::from(*number),
        Json::Fraction(text) => serde_json::from_str(text).unwrap_or(serde_json::Value::Null),
        Json::Text(text) => serde_json::Value::String(text.clone()),
        Json::List(items) => serde_json::Value::Array(items.iter().map(to_serde).collect()),
        Json::Object(members) => serde_json::Value::Object(
            members.iter().map(|(key, item)| (key.clone(), to_serde(item))).collect(),
        ),
    }
}

/// `serde_json::from_str` on a `serde_json::Value`: the tree of the value
/// read, or the text of the error. The contract claims only that the outcome
/// is a fixed function of the text.
#[verifier::external_body]
fn decode(text: &str) -> (outcome: Result<Json, String>)
    ensures
        match outcome {
            Ok(json) => json_parse(text@) == Ok::<JsonValue, Seq<char>>(json@),
            Err(message) => json_parse(text@) == Err::<JsonValue, Seq<char>>(message@),
        },
{
    match serde_json::from_str::<serde_json::Value>(text) {
        Ok(value) => Ok(from_serde(&value)),
        Err(error) => Err(error.to_string()),
    }
}

/// `serde_json::Value::to_string`: the compact JSON text of a tree. The
/// contract claims only that the text is a fixed function of the tree's value.
#[verifier::external_body]
fn encode(json: &Json) -> (text: String)
    ensures
        text@ == json_text(json@),
{
    to_serde(json).to_string()
}

impl Json {
    /// Reads a JSON text.
    pub fn parse(text: &str) -> (outcome: Result<Json, String>)
        ensures
            match outcome {
                Ok(json) => json_parse(text@) == Ok::<JsonValue, Seq<char>>(json@),
                Err(message) => json_parse(text@) == Err::<JsonValue, Seq<char>>(message@),
            },
    {
        decode(text)
    }

    /// Writes the tree as compact JSON text.
    pub fn render(&self) -> (text: String)
        ensures
            text@ == json_text(self@),
    {
        encode(self)
    }
}

} // verus!
