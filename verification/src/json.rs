//! JSON documents as plain values.
//!
//! Reading the text of a document is left to `serde_json`; what comes back is
//! copied into `Json`, and everything the registry asks of a document is
//! answered here.

use crate::text::same_text;
use vstd::prelude::*;

verus! {

/// A JSON document. Numbers are kept without their value: nothing here reads
/// one. The members of an object stand in the order in which the parser's map
/// yields them.
#[derive(Debug, PartialEq, Eq)]
pub enum Json {
    Null,
    Bool(bool),
    Number,
    Text(String),
    Array(Vec<Json>),
    Object(Vec<Member>),
}

/// One member of a JSON object.
#[derive(Debug, PartialEq, Eq)]
pub struct Member {
    pub name: String,
    pub value: Json,
}

/// What a `Json` stands for.
pub ghost enum JsonValue {
    Null,
    Bool(bool),
    Number,
    Text(Seq<char>),
    Array(Seq<JsonValue>),
    Object(Seq<MemberValue>),
}

/// What a `Member` stands for.
pub ghost struct MemberValue {
    pub name: Seq<char>,
    pub value: JsonValue,
}

impl View for Json {
    type V = JsonValue;

    open spec fn view(&self) -> JsonValue
        decreases self,
    {
        match self {
            Json::Null => JsonValue::Null,
            Json::Bool(b) => JsonValue::Bool(*b),
            Json::Number => JsonValue::Number,
            Json::Text(s) => JsonValue::Text(s@),
            Json::Array(items) => JsonValue::Array(
                Seq::new(
                    items@.len(),
                    |i: int|
                        if 0 <= i < items@.len() {
                            items@[i].view()
                        } else {
                            JsonValue::Null
                        },
                ),
            ),
            Json::Object(members) => JsonValue::Object(
                Seq::new(
                    members@.len(),
                    |i: int|
                        if 0 <= i < members@.len() {
                            MemberValue {
                                name: members@[i].name@,
                                value: members@[i].value.view(),
                            }
                        } else {
                            MemberValue { name: Seq::<char>::empty(), value: JsonValue::Null }
                        },
                ),
            ),
        }
    }
}

impl DeepView for Json {
    type V = JsonValue;

    open spec fn deep_view(&self) -> JsonValue {
        self@
    }
}

/// The value of the first member named `key` among `members[from..]`.
pub open spec fn member_from(members: Seq<MemberValue>, key: Seq<char>, from: int)
    -> Option<JsonValue>
    decreases members.len() - from,
{
    if from < 0 || from >= members.len() {
        None
    } else if members[from].name == key {
        Some(members[from].value)
    } else {
        member_from(members, key, from + 1)
    }
}

/// The member `key` of a document: `None` where the document is no object or
/// has no such member.
pub open spec fn member_of(doc: JsonValue, key: Seq<char>) -> Option<JsonValue> {
    match doc {
        JsonValue::Object(members) => member_from(members, key, 0),
        _ => None,
    }
}

/// The text of a document that is a string.
pub open spec fn text_of_value(doc: JsonValue) -> Option<Seq<char>> {
    match doc {
        JsonValue::Text(s) => Some(s),
        _ => None,
    }
}

/// The text of the member `key`, where the document has it and it is a string.
pub open spec fn text_member(doc: JsonValue, key: Seq<char>) -> Option<Seq<char>> {
    match member_of(doc, key) {
        Some(JsonValue::Text(s)) => Some(s),
        _ => None,
    }
}

/// The document that a text denotes, or `None` where the text is not JSON.
pub uninterp spec fn json_parse(text: Seq<char>) -> Option<JsonValue>;

/// The document that a parsed value holds.
pub uninterp spec fn json_value(value: serde_json::Value) -> JsonValue;

/// `serde_json::Value`, which passes through this module unopened.
#[verifier::external_type_specification]
#[verifier::external_body]
pub struct ExSerdeValue(serde_json::Value);

/// Reads a document by `serde_json::from_str`. The contract only names the
/// outcome: what the value holds is `json_parse` of the text, and `None`
/// stands for the crate's error.
#[verifier::external_body]
fn read_value(text: &str) -> (r: Option<serde_json::Value>)
    ensures
        match r {
            Some(value) => json_parse(text@) == Some(json_value(value)),
            None => json_parse(text@) is None,
        },
{
    serde_json::from_str::<serde_json::Value>(text).ok()
}

/// Copies a `serde_json::Value` into a `Json`, variant by variant.
#[verifier::external_body]
fn copy_value(value: &serde_json::Value) -> (r: Json)
    ensures
        r@ == json_value(*value),
{
    match value {
        serde_json::Value::Null => Json::Null,
        serde_json::Value::Bool(b) => Json::Bool(*b),
        serde_json::Value::Number(_) => Json::Number,
        serde_json::Value::String(s) => Json::Text(s.clone()),
        serde_json::Value::Array(items) => Json::Array(items.iter().map(copy_value).collect()),
        serde_json::Value::Object(members) => Json::Object(
            members.iter().map(|(k, v)| Member { name: k.clone(), value: copy_value(v) }).collect(),
        ),
    }
}

impl Json {
    /// Reads a document from its text.
    pub fn parse(text: &str) -> (r: Option<Json>)
        ensures
            r.deep_view() == json_parse(text@),
    {
        match read_value(text) {
            Some(value) => Some(copy_value(&value)),
            None => None,
        }
    }

    /// The member `key` of an object; the first, should the name occur twice.
    pub fn member(&self, key: &str) -> (r: Option<&Json>)
        ensures
            r.deep_view() == member_of(self@, key@),
    {
        match self {
            Json::Object(members) => {
                let mut i: usize = 0;
                while i < members.len()
                    invariant
                        i <= members.len(),
                        self@ matches JsonValue::Object(ms) && ms.len() == members.len()
                            && member_from(ms, key@, 0) == member_from(ms, key@, i as int)
                            && forall|j: int|
                            0 <= j < ms.len() ==> ms[j].name == members@[j].name@ && ms[j].value
                                == members@[j].value@,
                    decreases members.len() - i,
                {
                    if same_text(members[i].name.as_str(), key) {
                        return Some(&members[i].value);
                    }
                    i = i + 1;
                }
                None
            },
            _ => None,
        }
    }

    /// The text of a document that is a string.
    pub fn as_text(&self) -> (r: Option<&str>)
        ensures
            r.deep_view() == text_of_value(self@),
    {
        match self {
            Json::Text(s) => Some(s.as_str()),
            _ => None,
        }
    }

    /// The truth value of a document that is a boolean.
    pub fn as_bool(&self) -> (r: Option<bool>)
        ensures
            r == (match self@ {
                JsonValue::Bool(b) => Some(b),
                _ => None,
            }),
    {
        match self {
            Json::Bool(b) => Some(*b),
            _ => None,
        }
    }

    /// The items of a document that is an array.
    pub fn as_array(&self) -> (r: Option<&Vec<Json>>)
        ensures
            r.deep_view() == (match self@ {
                JsonValue::Array(items) => Some(items),
                _ => None,
            }),
    {
        match self {
            Json::Array(items) => {
                assert(items.deep_view() =~= self@->Array_0);
                Some(items)
            },
            _ => None,
        }
    }

    /// Whether the document is `null`.
    pub fn is_null(&self) -> (r: bool)
        ensures
            r == (self@ == JsonValue::Null),
    {
        match self {
            Json::Null => true,
            _ => false,
        }
    }
}

} // verus!
