//! JSON documents as values of the library's own, and how to look into them.

use crate::engine::same_text;
use serde_json::Value;
use vstd::prelude::*;

verus! {

/// A JSON document. An object keeps its members in a list; a number is an
/// integer, or the text of a number that is none.
#[derive(Debug, PartialEq, Eq)]
pub enum JsonValue {
    Null,
    Bool(bool),
    Integer(i128),
    Real(String),
    Text(String),
    Array(Vec<JsonValue>),
    Object(Vec<(String, JsonValue)>),
}

pub enum JsonModel {
    Null,
    Bool(bool),
    Integer(i128),
    Real(Seq<char>),
    Text(Seq<char>),
    Array(Seq<JsonModel>),
    Object(Seq<(Seq<char>, JsonModel)>),
}

impl JsonValue {
    pub open spec fn model(self) -> JsonModel
        decreases self,
    {
        match self {
            JsonValue::Null => JsonModel::Null,
            JsonValue::Bool(b) => JsonModel::Bool(b),
            JsonValue::Integer(n) => JsonModel::Integer(n),
            JsonValue::Real(t) => JsonModel::Real(t@),
            JsonValue::Text(t) => JsonModel::Text(t@),
            JsonValue::Array(items) => JsonModel::Array(
                Seq::new(
                    items@.len(),
                    |i: int|
                        if 0 <= i < items@.len() {
                            items@[i].model()
                        } else {
                            JsonModel::Null
                        },
                ),
            ),
            JsonValue::Object(members) => JsonModel::Object(
                Seq::new(
                    members@.len(),
                    |i: int|
                        if 0 <= i < members@.len() {
                            (members@[i].0@, members@[i].1.model())
                        } else {
                            (Seq::empty(), JsonModel::Null)
                        },
                ),
            ),
        }
    }
}

impl View for JsonValue {
    type V = JsonModel;

    open spec fn view(&self) -> JsonModel {
        self.model()
    }
}

/// `serde_json::Value`, which the parser hands out.
#[verifier::external_type_specification]
#[verifier::external_body]
pub struct ExJsonTree(serde_json::Value);

/// The document that `serde_json::from_str` reads from a text, or the message
/// of the error with which it refuses the text.
pub uninterp spec fn json_document(text: Seq<char>) -> Result<JsonModel, Seq<char>>;

pub open spec fn parsed_view(r: Result<JsonValue, String>) -> Result<JsonModel, Seq<char>> {
    match r {
        Ok(v) => Ok(v@),
        Err(e) => Err(e@),
    }
}

/// Rewrites a `serde_json::Value` as a `JsonValue`, variant by variant: the
/// members of an object in the order in which its map hands them out, a
/// number as an integer where `Number::as_u64` or `Number::as_i64` gives one
/// and as its text otherwise. Nothing is claimed of the result here; what
/// `parse_json` claims rests on this rewriting.
#[verifier::external_body]
fn json_of_tree(tree: &Value) -> JsonValue {
    match tree {
        Value::Null => JsonValue::Null,
        Value::Bool(b) => JsonValue::Bool(*b),
        Value::Number(n) => match (n.as_u64(), n.as_i64()) {
            (Some(u), _) => JsonValue::Integer(u.into()),
            (_, Some(i)) => JsonValue::Integer(i.into()),
            _ => JsonValue::Real(n.to_string()),
        },
        Value::String(s) => JsonValue::Text(s.clone()),
        Value::Array(a) => JsonValue::Array(a.iter().map(json_of_tree).collect()),
        Value::Object(m) => JsonValue::Object(
            m.iter().map(|(k, v)| (k.clone(), json_of_tree(v))).collect(),
        ),
    }
}

/// Reads `text` with `serde_json::from_str` as a `serde_json::Value` and
/// rewrites the value, or hands out the message of the error. What is read
/// depends on the text alone; the contract names it and claims nothing else.
#[verifier::external_body]
fn read_document(text: &str) -> (r: Result<JsonValue, String>)
    ensures
        parsed_view(r) == json_document(text@),
{
    match serde_json::from_str::<Value>(text) {
        Ok(tree) => Ok(json_of_tree(&tree)),
        Err(e) => Err(e.to_string()),
    }
}

/// The value of the first member of `members` with the given key.
pub open spec fn lookup(members: Seq<(Seq<char>, JsonModel)>, key: Seq<char>, from: int) -> Option<
    JsonModel,
>
    decreases members.len() - from,
{
    if 0 <= from < members.len() {
        if members[from].0 == key {
            Some(members[from].1)
        } else {
            lookup(members, key, from + 1)
        }
    } else {
        None
    }
}

/// The member of an object with the given key; nothing for any other value.
pub open spec fn member(value: JsonModel, key: Seq<char>) -> Option<JsonModel> {
    match value {
        JsonModel::Object(members) => lookup(members, key, 0),
        _ => None,
    }
}

/// The element of an array at the given position; nothing for any other
/// value.
pub open spec fn element(value: JsonModel, index: int) -> Option<JsonModel> {
    match value {
        JsonModel::Array(items) => if 0 <= index < items.len() {
            Some(items[index])
        } else {
            None
        },
        _ => None,
    }
}

pub open spec fn as_text(value: JsonModel) -> Option<Seq<char>> {
    match value {
        JsonModel::Text(t) => Some(t),
        _ => None,
    }
}

pub open spec fn option_model(value: Option<&JsonValue>) -> Option<JsonModel> {
    match value {
        Some(v) => Some(v@),
        None => None,
    }
}

/// The document that a text holds, or the message that says why it holds
/// none.
pub fn parse_json(text: &str) -> (r: Result<JsonValue, String>)
    ensures
        parsed_view(r) == json_document(text@),
{
    read_document(text)
}

impl JsonValue {
    /// The member with the given key, where this is an object that has one.
    pub fn get(&self, key: &str) -> (r: Option<&JsonValue>)
        ensures
            option_model(r) == member(self@, key@),
    {
        match self {
            JsonValue::Object(members) => {
                let mut i: usize = 0;
                while i < members.len()
                    invariant
                        i <= members.len(),
                        self@ matches JsonModel::Object(ms) && ms.len() == members@.len()
                            && lookup(ms, key@, i as int) == lookup(ms, key@, 0) && forall|
                            j: int,
                        |
                            0 <= j < ms.len() ==> #[trigger] ms[j] == (
                                members@[j].0@,
                                members@[j].1.model(),
                            ),
                    decreases members.len() - i,
                {
                    if same_text(members[i].0.as_str(), key) {
                        return Some(&members[i].1);
                    }
                    i += 1;
                }
                None
            },
            _ => None,
        }
    }

    /// The element at the given position, where this is an array that has one.
    pub fn at(&self, index: usize) -> (r: Option<&JsonValue>)
        ensures
            option_model(r) == element(self@, index as int),
    {
        match self {
            JsonValue::Array(items) => if index < items.len() {
                Some(&items[index])
            } else {
                None
            },
            _ => None,
        }
    }

    /// The text, where this is a string.
    pub fn text(&self) -> (r: Option<&String>)
        ensures
            match r {
                Some(t) => as_text(self@) == Some(t@),
                None => as_text(self@) is None,
            },
    {
        match self {
            JsonValue::Text(t) => Some(t),
            _ => None,
        }
    }
}

} // verus!
