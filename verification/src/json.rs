//! JSON documents as a tree of the library's own, read from text by
//! `serde_json`.

use crate::number::Float64;
use crate::text::same_text;
use vstd::prelude::*;

verus! {

/// A JSON number, in the three readings that the parser offers of it.
#[derive(Clone, Copy, Debug)]
pub struct JsonNumber {
    /// The number as an unsigned integer, where it is one.
    pub unsigned: Option<u64>,
    /// The number as a signed integer, where it is one.
    pub signed: Option<i64>,
    /// The number as binary64, where it can be read so.
    pub binary64: Option<Float64>,
}

/// A JSON document, or a part of one.
#[derive(Debug)]
pub enum Json {
    Null,
    Bool(bool),
    Number(JsonNumber),
    Text(String),
    Array(Vec<Json>),
    /// The members of an object, each with its name.
    Object(Vec<(String, Json)>),
}

/// The mathematical value of a [`Json`] tree.
pub enum JsonValue {
    Null,
    Bool(bool),
    Number(JsonNumber),
    Text(Seq<char>),
    Array(Seq<JsonValue>),
    Object(Seq<(Seq<char>, JsonValue)>),
}

/// The value of a tree.
pub open spec fn value_of(j: Json) -> JsonValue
    decreases j,
{
    match j {
        Json::Null => JsonValue::Null,
        Json::Bool(b) => JsonValue::Bool(b),
        Json::Number(n) => JsonValue::Number(n),
        Json::Text(s) => JsonValue::Text(s@),
        Json::Array(items) => JsonValue::Array(values_of(items@)),
        Json::Object(members) => JsonValue::Object(members_of(members@)),
    }
}

/// The values of the items of an array, in order.
pub open spec fn values_of(items: Seq<Json>) -> Seq<JsonValue>
    decreases items,
{
    if items.len() == 0 {
        Seq::empty()
    } else {
        values_of(items.drop_last()).push(value_of(items.last()))
    }
}

/// The members of an object, in order, each name with its value.
pub open spec fn members_of(members: Seq<(String, Json)>) -> Seq<(Seq<char>, JsonValue)>
    decreases members,
{
    if members.len() == 0 {
        Seq::empty()
    } else {
        members_of(members.drop_last()).push((members.last().0@, value_of(members.last().1)))
    }
}

impl View for Json {
    type V = JsonValue;

    open spec fn view(&self) -> JsonValue {
        value_of(*self)
    }
}

/// The values of an array's items stand at the items' places.
pub proof fn lemma_values_of(items: Seq<Json>)
    ensures
        values_of(items).len() == items.len(),
        forall|i: int| 0 <= i < items.len() ==> #[trigger] values_of(items)[i] == items[i]@,
    decreases items.len(),
{
    if items.len() > 0 {
        lemma_values_of(items.drop_last());
    }
}

/// The members of an object stand at their places, each under its name.
pub proof fn lemma_members_of(members: Seq<(String, Json)>)
    ensures
        members_of(members).len() == members.len(),
        forall|i: int|
            0 <= i < members.len() ==> #[trigger] members_of(members)[i] == (
                members[i].0@,
                members[i].1@,
            ),
    decreases members.len(),
{
    if members.len() > 0 {
        lemma_members_of(members.drop_last());
    }
}

/// The value of the first member called `name`, if there is one.
pub open spec fn lookup(members: Seq<(Seq<char>, JsonValue)>, name: Seq<char>) -> Option<
    JsonValue,
>
    decreases members.len(),
{
    if members.len() == 0 {
        None
    } else if members[0].0 == name {
        Some(members[0].1)
    } else {
        lookup(members.drop_first(), name)
    }
}

impl JsonValue {
    /// The member called `name`, where this is an object that has one.
    pub open spec fn member(self, name: Seq<char>) -> Option<JsonValue> {
        match self {
            JsonValue::Object(members) => lookup(members, name),
            _ => None,
        }
    }

    /// The characters, where this is a string.
    pub open spec fn text(self) -> Option<Seq<char>> {
        match self {
            JsonValue::Text(s) => Some(s),
            _ => None,
        }
    }

    /// The truth value, where this is one.
    pub open spec fn flag(self) -> Option<bool> {
        match self {
            JsonValue::Bool(b) => Some(b),
            _ => None,
        }
    }

    /// The unsigned integer, where this is a number that is one.
    pub open spec fn unsigned(self) -> Option<u64> {
        match self {
            JsonValue::Number(n) => n.unsigned,
            _ => None,
        }
    }

    /// The binary64 reading, where this is a number that has one.
    pub open spec fn binary64(self) -> Option<Float64> {
        match self {
            JsonValue::Number(n) => n.binary64,
            _ => None,
        }
    }

    /// The items, where this is an array.
    pub open spec fn items(self) -> Option<Seq<JsonValue>> {
        match self {
            JsonValue::Array(items) => Some(items),
            _ => None,
        }
    }
}

/// What `serde_json` reads from `text`: the document's value, or nothing
/// where `text` is not one JSON document.
pub uninterp spec fn json_document(text: Seq<char>) -> Option<JsonValue>;

/// A value of `serde_json`, `serde_json::Value`, carried as it is until it
/// is turned into a tree of this library.
#[verifier::external_type_specification]
#[verifier::external_body]
pub struct ExValue(serde_json::Value);

/// A number of `serde_json`, `serde_json::Number`, carried as it is until
/// its readings are taken.
#[verifier::external_type_specification]
#[verifier::external_body]
pub struct ExNumber(serde_json::Number);

/// The three readings of a number of `serde_json`.
///
/// Calls `Number::as_u64`, `Number::as_i64` and `Number::as_f64` and keeps
/// what each returns; nothing is claimed of the readings.
#[verifier::external_body]
fn number_from(n: &serde_json::Number) -> JsonNumber {
    JsonNumber {
        unsigned: n.as_u64(),
        signed: n.as_i64(),
        binary64: n.as_f64().map(|x| Float64::from_bits(x.to_bits())),
    }
}

/// A value of `serde_json` as a tree of this library, variant by variant;
/// the members of an object come in the order in which its map hands them
/// out. Nothing is claimed of the tree.
#[verifier::external_body]
fn tree_from(v: serde_json::Value) -> Json {
    match v {
        serde_json::Value::Null => Json::Null,
        serde_json::Value::Bool(b) => Json::Bool(b),
        serde_json::Value::Number(n) => Json::Number(number_from(&n)),
        serde_json::Value::String(s) => Json::Text(s),
        serde_json::Value::Array(a) => Json::Array(a.into_iter().map(tree_from).collect()),
        serde_json::Value::Object(o) => Json::Object(
            o.into_iter().map(|(k, v)| (k, tree_from(v))).collect(),
        ),
    }
}

/// Reads one JSON document from `text`.
///
/// Calls `serde_json::from_str` for a `serde_json::Value`. The contract
/// gives the result a name, [`json_document`]: what comes back depends on
/// the text alone, and is nothing exactly where `serde_json` reports an
/// error.
#[verifier::external_body]
pub(crate) fn parse_document(text: &str) -> (r: Option<Json>)
    ensures
        match r {
            Some(j) => json_document(text@) == Some(j@),
            None => json_document(text@) is None,
        },
{
    match serde_json::from_str::<serde_json::Value>(text) {
        Ok(v) => Some(tree_from(v)),
        Err(_) => None,
    }
}

impl Json {
    /// The member called `name`, where this is an object that has one.
    pub fn member(&self, name: &str) -> (r: Option<&Json>)
        ensures
            match r {
                Some(j) => self@.member(name@) == Some(j@),
                None => self@.member(name@) is None,
            },
    {
        match self {
            Json::Object(members) => {
                let ghost all = members_of(members@);
                proof {
                    lemma_members_of(members@);
                    assert(all.subrange(0, all.len() as int) == all);
                }
                let mut i: usize = 0;
                while i < members.len()
                    invariant
                        i <= members.len(),
                        self@ == JsonValue::Object(all),
                        all == members_of(members@),
                        all.len() == members.len(),
                        forall|k: int|
                            0 <= k < members.len() ==> #[trigger] all[k] == (
                                members@[k].0@,
                                members@[k].1@,
                            ),
                        lookup(all, name@) == lookup(
                            all.subrange(i as int, all.len() as int),
                            name@,
                        ),
                    decreases members.len() - i,
                {
                    let ghost rest = all.subrange(i as int, all.len() as int);
                    proof {
                        assert(rest.drop_first() == all.subrange(i + 1, all.len() as int));
                    }
                    if same_text(members[i].0.as_str(), name) {
                        return Some(&members[i].1);
                    }
                    i += 1;
                }
                None
            },
            _ => None,
        }
    }

    /// The string, where this is one.
    pub fn as_text(&self) -> (r: Option<&String>)
        ensures
            match r {
                Some(s) => self@.text() == Some(s@),
                None => self@.text() is None,
            },
    {
        match self {
            Json::Text(s) => Some(s),
            _ => None,
        }
    }

    /// The truth value, where this is one.
    pub fn as_flag(&self) -> (r: Option<bool>)
        ensures
            r == self@.flag(),
    {
        match self {
            Json::Bool(b) => Some(*b),
            _ => None,
        }
    }

    /// The unsigned integer, where this is a number that is one.
    pub fn as_unsigned(&self) -> (r: Option<u64>)
        ensures
            r == self@.unsigned(),
    {
        match self {
            Json::Number(n) => n.unsigned,
            _ => None,
        }
    }

    /// The binary64 reading, where this is a number that has one.
    pub fn as_binary64(&self) -> (r: Option<Float64>)
        ensures
            r == self@.binary64(),
    {
        match self {
            Json::Number(n) => n.binary64,
            _ => None,
        }
    }

    /// The items, where this is an array.
    pub fn as_items(&self) -> (r: Option<&Vec<Json>>)
        ensures
            match r {
                Some(items) => self@.items() == Some(values_of(items@)),
                None => self@.items() is None,
            },
    {
        match self {
            Json::Array(items) => Some(items),
            _ => None,
        }
    }

    /// Whether this is an object.
    pub fn is_object(&self) -> (r: bool)
        ensures
            r == (self@ is Object),
    {
        match self {
            Json::Object(_) => true,
            _ => false,
        }
    }
}

/// A copy of a list of trees.
pub fn clone_items(items: &Vec<Json>) -> (r: Vec<Json>)
    ensures
        values_of(r@) == values_of(items@),
{
    let mut copy: Vec<Json> = Vec::new();
    let mut i: usize = 0;
    while i < items.len()
        invariant
            i <= items.len(),
            copy.len() == i,
            forall|k: int| 0 <= k < i ==> copy@[k]@ == items@[k]@,
        decreases items.len() - i,
    {
        let item = items[i].clone();
        copy.push(item);
        i += 1;
    }
    proof {
        lemma_values_of(copy@);
        lemma_values_of(items@);
    }
    copy
}

impl Clone for Json {
    /// A copy of the whole tree.
    fn clone(&self) -> (r: Json)
        ensures
            r@ == self@,
        decreases self,
    {
        match self {
            Json::Null => Json::Null,
            Json::Bool(b) => Json::Bool(*b),
            Json::Number(n) => Json::Number(*n),
            Json::Text(s) => Json::Text(s.clone()),
            Json::Array(items) => {
                let mut copy: Vec<Json> = Vec::new();
                let mut i: usize = 0;
                while i < items.len()
                    invariant
                        i <= items.len(),
                        self is Array,
                        self->Array_0 == *items,
                        copy.len() == i,
                        forall|k: int| 0 <= k < i ==> copy@[k]@ == items@[k]@,
                    decreases items.len() - i,
                {
                    let item = items[i].clone();
                    copy.push(item);
                    i += 1;
                }
                proof {
                    lemma_values_of(copy@);
                    lemma_values_of(items@);
                    assert(values_of(copy@) =~= values_of(items@));
                }
                Json::Array(copy)
            },
            Json::Object(members) => {
                let mut copy: Vec<(String, Json)> = Vec::new();
                let mut i: usize = 0;
                while i < members.len()
                    invariant
                        i <= members.len(),
                        self is Object,
                        self->Object_0 == *members,
                        copy.len() == i,
                        forall|k: int|
                            0 <= k < i ==> copy@[k].0@ == members@[k].0@ && copy@[k].1@
                                == members@[k].1@,
                    decreases members.len() - i,
                {
                    let name = members[i].0.clone();
                    let value = members[i].1.clone();
                    copy.push((name, value));
                    i += 1;
                }
                proof {
                    lemma_members_of(copy@);
                    lemma_members_of(members@);
                    assert(members_of(copy@) =~= members_of(members@));
                }
                Json::Object(copy)
            },
        }
    }
}

} // verus!
