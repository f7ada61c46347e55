//! JSON values as the catalog reads and writes them.

use serde_json::{Number, Value};
use vstd::prelude::*;

verus! {

#[verifier::external_type_specification]
#[verifier::external_body]
pub struct ExSerdeJsonNumber(serde_json::Number);

#[verifier::external_type_specification]
#[verifier::external_body]
pub struct ExSerdeJsonValue(serde_json::Value);

#[verifier::external_type_specification]
#[verifier::external_body]
pub struct ExSerdeJsonError(serde_json::Error);

/// A JSON number: an unsigned integer that fits 64 bits, or any other number
/// (negative, fractional, or too large), carried as `serde_json` holds it.
#[derive(Debug)]
pub enum JsonNumber {
    Unsigned(u64),
    Other(Number),
}

/// One member of a JSON object.
#[derive(Debug)]
pub struct Member {
    pub name: String,
    pub value: Json,
}

/// A JSON value.
#[derive(Debug)]
pub enum Json {
    Null,
    Bool(bool),
    Number(JsonNumber),
    Text(String),
    Array(Vec<Json>),
    Object(Vec<Member>),
}

/// The mathematical value of a [`JsonNumber`].
pub enum NumberValue {
    Unsigned(u64),
    Other(Number),
}

/// The mathematical value of a [`Json`]: members of an object keep their order.
pub enum JsonValue {
    Null,
    Bool(bool),
    Number(NumberValue),
    Text(Seq<char>),
    Array(Seq<JsonValue>),
    Object(Seq<(Seq<char>, JsonValue)>),
}

impl View for JsonNumber {
    type V = NumberValue;

    open spec fn view(&self) -> NumberValue {
        match self {
            JsonNumber::Unsigned(n) => NumberValue::Unsigned(*n),
            JsonNumber::Other(n) => NumberValue::Other(*n),
        }
    }
}

impl View for Json {
    type V = JsonValue;

    open spec fn view(&self) -> JsonValue
        decreases self,
    {
        match self {
            Json::Null => JsonValue::Null,
            Json::Bool(b) => JsonValue::Bool(*b),
            Json::Number(n) => JsonValue::Number(n@),
            Json::Text(text) => JsonValue::Text(text@),
            Json::Array(items) => JsonValue::Array(
                Seq::new(
                    items@.len(),
                    |i: int|
                        if 0 <= i < items@.len() {
                            items@[i].view()
                        } else {
                            JsonValue::Null
                        },
                ),
            ),
            Json::Object(members) => JsonValue::Object(
                Seq::new(
                    members@.len(),
                    |i: int|
                        if 0 <= i < members@.len() {
                            (members@[i].name@, members@[i].value.view())
                        } else {
                            (Seq::empty(), JsonValue::Null)
                        },
                ),
            ),
        }
    }
}

/// The members of an object as pairs of name and value, in their order.
pub open spec fn members_view(members: Seq<Member>) -> Seq<(Seq<char>, JsonValue)> {
    Seq::new(members.len(), |i: int| (members[i].name@, members[i].value@))
}

/// The items of an array as values, in their order.
pub open spec fn items_view(items: Seq<Json>) -> Seq<JsonValue> {
    Seq::new(items.len(), |i: int| items[i]@)
}

/// The value of an array is the list of its items' values.
pub proof fn lemma_array_view(json: Json)
    requires
        json is Array,
    ensures
        json@ == JsonValue::Array(items_view(json->Array_0@)),
{
    reveal_with_fuel(<Json as View>::view, 2);
    assert(json@->Array_0 =~= items_view(json->Array_0@));
}

/// The value of an object is the list of its members' names and values.
pub proof fn lemma_object_view(json: Json)
    requires
        json is Object,
    ensures
        json@ == JsonValue::Object(members_view(json->Object_0@)),
{
    reveal_with_fuel(<Json as View>::view, 2);
    assert(json@->Object_0 =~= members_view(json->Object_0@));
}

/// The value that an object gives a name: that of the last member so named.
pub open spec fn member_of(members: Seq<(Seq<char>, JsonValue)>, name: Seq<char>) -> Option<
    JsonValue,
>
    decreases members.len(),
{
    if members.len() == 0 {
        None
    } else if members.last().0 == name {
        Some(members.last().1)
    } else {
        member_of(members.drop_last(), name)
    }
}

/// A member after which no member has its name gives the name its value.
pub proof fn lemma_member_at(members: Seq<(Seq<char>, JsonValue)>, i: int)
    requires
        0 <= i < members.len(),
        forall|j: int| i < j < members.len() ==> members[j].0 != members[i].0,
    ensures
        member_of(members, members[i].0) == Some(members[i].1),
    decreases members.len(),
{
    if i < members.len() - 1 {
        let front = members.drop_last();
        assert(forall|j: int| 0 <= j < front.len() ==> front[j] == members[j]);
        lemma_member_at(front, i);
    }
}

/// What `serde_json::from_str` makes of a text read as a `serde_json::Value`:
/// the value, or nothing where the text is not JSON.
pub uninterp spec fn parsed(text: Seq<char>) -> Option<JsonValue>;

/// What `serde_json::to_string_pretty` writes for a value, or nothing where
/// it cannot write it.
pub uninterp spec fn printed(value: JsonValue) -> Option<Seq<char>>;

/// Why a text could not be read, or a value not be written: the message of
/// the error that `serde_json` gave.
#[derive(Debug)]
pub struct JsonError {
    pub detail: String,
}

/// `Clone` of `serde_json::Number`: the copy is the same number.
pub assume_specification[ <serde_json::Number as Clone>::clone ](n: &serde_json::Number) -> (r:
    serde_json::Number)
    ensures
        r == *n,
;

/// Hands a `serde_json::Value` over as a [`Json`], variant by variant: a
/// number that `serde_json::Number::as_u64` yields becomes `Unsigned`, any
/// other stays as it is; the members of an object come in the order in which
/// `serde_json::Map::iter` gives them, which is the order of their insertion
/// (the crate is built with `preserve_order`). Nothing is claimed of the
/// result.
#[verifier::external_body]
fn json_of_tree(tree: &Value) -> Json {
    match tree {
        Value::Null => Json::Null,
        Value::Bool(b) => Json::Bool(*b),
        Value::Number(n) => Json::Number(
            n.as_u64().map_or_else(|| JsonNumber::Other(n.clone()), JsonNumber::Unsigned),
        ),
        Value::String(text) => Json::Text(text.clone()),
        Value::Array(items) => Json::Array(items.iter().map(json_of_tree).collect()),
        Value::Object(map) => Json::Object(
            map.iter().map(|(k, v)| Member { name: k.clone(), value: json_of_tree(v) }).collect(),
        ),
    }
}

/// Hands a [`Json`] over as a `serde_json::Value`, variant by variant; the
/// members of an object are collected into a `serde_json::Map` in their
/// order. Nothing is claimed of the result.
#[verifier::external_body]
fn tree_of_json(json: &Json) -> Value {
    match json {
        Json::Null => Value::Null,
        Json::Bool(b) => Value::Bool(*b),
        Json::Number(JsonNumber::Unsigned(n)) => Value::from(*n),
        Json::Number(JsonNumber::Other(n)) => Value::Number(n.clone()),
        Json::Text(text) => Value::String(text.clone()),
        Json::Array(items) => Value::Array(items.iter().map(tree_of_json).collect()),
        Json::Object(members) => Value::Object(
            members.iter().map(|m| (m.name.clone(), tree_of_json(&m.value))).collect(),
        ),
    }
}

/// Calls `serde_json::from_str` for a `serde_json::Value`. The contract names
/// the outcome [`parsed`]: the value read when the call succeeds, nothing when
/// it fails.
#[verifier::external_body]
fn serde_from_str(text: &str) -> (r: Result<Json, serde_json::Error>)
    ensures
        match r {
            Ok(json) => parsed(text@) == Some(json@),
            Err(_) => parsed(text@) is None,
        },
{
    let tree: Value = serde_json::from_str(text)?;
    Ok(json_of_tree(&tree))
}

/// Calls `serde_json::to_string_pretty` on the value as a `serde_json::Value`.
/// The contract names the outcome [`printed`]: the text written when the call
/// succeeds, nothing when it fails.
#[verifier::external_body]
fn serde_to_string_pretty(json: &Json) -> (r: Result<String, serde_json::Error>)
    ensures
        match r {
            Ok(text) => printed(json@) == Some(text@),
            Err(_) => printed(json@) is None,
        },
{
    serde_json::to_string_pretty(&tree_of_json(json))
}

impl Json {
    /// Reads a JSON text.
    pub fn parse(text: &str) -> (r: Result<Json, JsonError>)
        ensures
            match r {
                Ok(json) => parsed(text@) == Some(json@),
                Err(_) => parsed(text@) is None,
            },
    {
        match serde_from_str(text) {
            Ok(json) => Ok(json),
            Err(error) => Err(JsonError { detail: error.to_string() }),
        }
    }

    /// The object of some members.
    pub fn object(members: Vec<Member>) -> (r: Json)
        ensures
            r@ == JsonValue::Object(members_view(members@)),
    {
        let r = Json::Object(members);
        proof {
            lemma_object_view(r);
        }
        r
    }

    /// The array of some items.
    pub fn array(items: Vec<Json>) -> (r: Json)
        ensures
            r@ == JsonValue::Array(items_view(items@)),
    {
        let r = Json::Array(items);
        proof {
            lemma_array_view(r);
        }
        r
    }

    /// The members, where the value is an object.
    pub fn as_members(&self) -> (r: Option<&Vec<Member>>)
        ensures
            match r {
                Some(members) => self@ == JsonValue::Object(members_view(members@)),
                None => !(self@ is Object),
            },
    {
        match self {
            Json::Object(members) => {
                proof {
                    lemma_object_view(*self);
                }
                Some(members)
            },
            _ => None,
        }
    }

    /// The items, where the value is an array.
    pub fn as_items(&self) -> (r: Option<&Vec<Json>>)
        ensures
            match r {
                Some(items) => self@ == JsonValue::Array(items_view(items@)),
                None => !(self@ is Array),
            },
    {
        match self {
            Json::Array(items) => {
                proof {
                    lemma_array_view(*self);
                }
                Some(items)
            },
            _ => None,
        }
    }

    /// Writes the value as indented JSON text.
    pub fn to_pretty_text(&self) -> (r: Result<String, JsonError>)
        ensures
            match r {
                Ok(text) => printed(self@) == Some(text@),
                Err(_) => printed(self@) is None,
            },
    {
        match serde_to_string_pretty(self) {
            Ok(text) => Ok(text),
            Err(error) => Err(JsonError { detail: error.to_string() }),
        }
    }
}

impl Member {
    /// The member of a name and a value.
    pub fn new(name: &str, value: Json) -> (r: Member)
        ensures
            r.name@ == name@,
            r.value == value,
    {
        Member { name: name.to_owned(), value }
    }
}

/// Finds the value that a list of members gives a name.
pub fn find_member<'a>(members: &'a Vec<Member>, name: &str) -> (r: Option<&'a Json>)
    ensures
        match r {
            Some(json) => member_of(members_view(members@), name@) == Some(json@),
            None => member_of(members_view(members@), name@) is None,
        },
{
    let wanted = name.to_owned();
    let mut i: usize = members.len();
    assert(members_view(members@).take(i as int) =~= members_view(members@));
    while i > 0
        invariant
            i <= members.len(),
            wanted@ == name@,
            member_of(members_view(members@), name@) == member_of(
                members_view(members@).take(i as int),
                name@,
            ),
        decreases i,
    {
        let ghost front = members_view(members@).take(i as int);
        assert(front.drop_last() =~= members_view(members@).take(i - 1));
        if members[i - 1].name == wanted {
            return Some(&members[i - 1].value);
        }
        i -= 1;
    }
    None
}

impl Clone for JsonNumber {
    fn clone(&self) -> (r: Self)
        ensures
            r@ == self@,
    {
        match self {
            JsonNumber::Unsigned(n) => JsonNumber::Unsigned(*n),
            JsonNumber::Other(n) => JsonNumber::Other(n.clone()),
        }
    }
}

impl Clone for Json {
    fn clone(&self) -> (r: Self)
        ensures
            r@ == self@,
        decreases self,
    {
        match self {
            Json::Null => Json::Null,
            Json::Bool(b) => Json::Bool(*b),
            Json::Number(n) => Json::Number(n.clone()),
            Json::Text(text) => Json::Text(text.clone()),
            Json::Array(items) => {
                let mut copied: Vec<Json> = Vec::new();
                let mut i: usize = 0;
                while i < items.len()
                    invariant
                        i <= items.len(),
                        copied@.len() == i,
                        forall|k: int| 0 <= k < i ==> copied@[k]@ == items@[k]@,
                        self == Json::Array(*items),
                    decreases items.len() - i,
                {
                    proof {
                        vstd::std_specs::vec::axiom_vec_index_decreases(*items, i as int);
                        assert(decreases_to!(self => self->Array_0));
                    }
                    copied.push(items[i].clone());
                    i += 1;
                }
                let r = Json::Array(copied);
                assert(r@->Array_0 =~= self@->Array_0);
                r
            },
            Json::Object(members) => {
                let mut copied: Vec<Member> = Vec::new();
                let mut i: usize = 0;
                while i < members.len()
                    invariant
                        i <= members.len(),
                        copied@.len() == i,
                        forall|k: int|
                            0 <= k < i ==> copied@[k].name@ == members@[k].name@ && copied@[k].value@
                                == members@[k].value@,
                        self == Json::Object(*members),
                    decreases members.len() - i,
                {
                    let member = &members[i];
                    proof {
                        vstd::std_specs::vec::axiom_vec_index_decreases(*members, i as int);
                        assert(decreases_to!(self => self->Object_0));
                        assert(decreases_to!(members[i as int] => members[i as int].value));
                    }
                    copied.push(Member { name: member.name.clone(), value: member.value.clone() });
                    i += 1;
                }
                let r = Json::Object(copied);
                assert(r@->Object_0 =~= self@->Object_0);
                r
            },
        }
    }
}

} // verus!
