//! JSON documents as plain values, with the accessors that the schema and
//! query readers use.

use vstd::prelude::*;
use crate::text::same_text;

verus! {

/// `serde_json::Value`, carried through as an opaque value.
#[verifier::external_type_specification]
#[verifier::external_body]
pub struct ExJsonValue(serde_json::Value);

/// A JSON number: its value as a signed and as an unsigned 64-bit integer
/// where it has one, and its text.
#[derive(Clone, Debug, PartialEq, Eq)]
pub struct JsonNumber {
    pub integer: Option<i64>,
    pub unsigned: Option<u64>,
    pub text: String,
}

/// A JSON document. An object keeps its members in the order in which the
/// parser hands them out.
#[derive(Debug, PartialEq, Eq)]
pub enum Json {
    Null,
    Bool(bool),
    Number(JsonNumber),
    Text(String),
    Array(Vec<Json>),
    Object(Vec<(String, Json)>),
}

/// The document that `serde_json::from_str` reads from a text, `None` where
/// it reports an error.
pub uninterp spec fn json_of_text(text: Seq<char>) -> Option<Json>;

/// The compact text that `serde_json::Value`'s `to_string` writes for a
/// document.
pub uninterp spec fn json_text(doc: Json) -> Seq<char>;

/// The first member of `entries` that is named `key`.
pub open spec fn find_member(entries: Seq<(String, Json)>, key: Seq<char>) -> Option<Json>
    decreases entries.len(),
{
    if entries.len() == 0 {
        None
    } else if entries[0].0@ == key {
        Some(entries[0].1)
    } else {
        find_member(entries.drop_first(), key)
    }
}

/// Turns a `serde_json::Value` into a `Json`, variant by variant; a number
/// gives what `Number::as_i64`, `Number::as_u64` and its `to_string` return.
#[verifier::external_body]
fn json_from_outside(v: serde_json::Value) -> Json {
    match v {
        serde_json::Value::Null => Json::Null,
        serde_json::Value::Bool(b) => Json::Bool(b),
        serde_json::Value::Number(n) => Json::Number(JsonNumber { integer: n.as_i64(), unsigned: n.as_u64(), text: n.to_string() }),
        serde_json::Value::String(s) => Json::Text(s),
        serde_json::Value::Array(items) => Json::Array(items.into_iter().map(json_from_outside).collect()),
        serde_json::Value::Object(m) => Json::Object(m.into_iter().map(|(k, v)| (k, json_from_outside(v))).collect()),
    }
}

/// Turns a `Json` into a `serde_json::Value`, variant by variant; a number
/// is read back from its text with `serde_json::from_str`.
#[verifier::external_body]
fn json_to_outside(doc: &Json) -> serde_json::Value {
    match doc {
        Json::Null => serde_json::Value::Null,
        Json::Bool(b) => serde_json::Value::Bool(*b),
        Json::Number(n) => serde_json::from_str(&n.text).unwrap_or(serde_json::Value::Null),
        Json::Text(s) => serde_json::Value::String(s.clone()),
        Json::Array(items) => serde_json::Value::Array(items.iter().map(json_to_outside).collect()),
        Json::Object(m) => serde_json::Value::Object(m.iter().map(|(k, v)| (k.clone(), json_to_outside(v))).collect()),
    }
}

/// `serde_json::from_str` at type `serde_json::Value`: the result is the
/// named document of the text, `None` where the text is not JSON.
#[verifier::external_body]
pub(crate) fn read_json(text: &str) -> (r: Option<Json>)
    ensures
        r == json_of_text(text@),
{
    serde_json::from_str::<serde_json::Value>(text).ok().map(json_from_outside)
}

/// `serde_json::Value`'s `to_string`: the result is the named compact text
/// of the document.
#[verifier::external_body]
pub(crate) fn write_json(doc: &Json) -> (r: String)
    ensures
        r@ == json_text(*doc),
{
    json_to_outside(doc).to_string()
}

impl Json {
    /// The member named `key` of an object; `None` for a missing member and
    /// for a document that is no object.
    pub open spec fn member(&self, key: Seq<char>) -> Option<Json> {
        match self {
            Json::Object(entries) => find_member(entries@, key),
            _ => None,
        }
    }

    /// The text of a string.
    pub open spec fn text_of(&self) -> Option<Seq<char>> {
        match self {
            Json::Text(s) => Some(s@),
            _ => None,
        }
    }

    /// The value of a boolean.
    pub open spec fn bool_of(&self) -> Option<bool> {
        match self {
            Json::Bool(b) => Some(*b),
            _ => None,
        }
    }

    /// The items of an array.
    pub open spec fn items_of(&self) -> Option<Seq<Json>> {
        match self {
            Json::Array(items) => Some(items@),
            _ => None,
        }
    }

    /// The members of an object.
    pub open spec fn entries_of(&self) -> Option<Seq<(String, Json)>> {
        match self {
            Json::Object(entries) => Some(entries@),
            _ => None,
        }
    }

    /// Reads a document from its text; `None` where the text is not JSON.
    pub fn parse(text: &str) -> (r: Option<Json>)
        ensures
            r == json_of_text(text@),
    {
        read_json(text)
    }

    /// The compact text of the document.
    pub fn render(&self) -> (r: String)
        ensures
            r@ == json_text(*self),
    {
        write_json(self)
    }

    /// An integer number.
    pub fn integer(i: i64) -> (r: Json)
        ensures
            r is Number,
            r->Number_0.integer == Some(i),
            r->Number_0.unsigned == (if i >= 0 {
                Some(i as u64)
            } else {
                None
            }),
            r->Number_0.text@ == crate::text::decimal_text(i as int),
    {
        let unsigned = if i >= 0 {
            Some(i as u64)
        } else {
            None
        };
        Json::Number(JsonNumber { integer: Some(i), unsigned, text: crate::text::decimal(i) })
    }

    /// Whether the document is null.
    pub fn is_null(&self) -> (r: bool)
        ensures
            r == (*self == Json::Null),
    {
        match self {
            Json::Null => true,
            _ => false,
        }
    }

    /// Looks a member up by name.
    pub fn get(&self, key: &str) -> (r: Option<&Json>)
        ensures
            match r {
                Some(v) => self.member(key@) == Some(*v),
                None => self.member(key@).is_none(),
            },
    {
        match self {
            Json::Object(entries) => {
                let mut i: usize = 0;
                assert(entries@.skip(0) =~= entries@);
                while i < entries.len()
                    invariant
                        i <= entries.len(),
                        self.member(key@) == find_member(entries@, key@),
                        find_member(entries@, key@) == find_member(entries@.skip(i as int), key@),
                    decreases entries.len() - i,
                {
                    proof {
                        assert(entries@.skip(i as int).drop_first() =~= entries@.skip(i as int + 1));
                        assert(entries@.skip(i as int)[0] == entries@[i as int]);
                    }
                    if same_text(&entries[i].0, key) {
                        assert(entries@.skip(i as int).len() > 0);
                        assert(find_member(entries@.skip(i as int), key@) == Some(entries@[i as int].1));
                        return Some(&entries[i].1);
                    }
                    i = i + 1;
                }
                None
            },
            _ => None,
        }
    }

    /// The text of a string, none for another document.
    pub fn as_text(&self) -> (r: Option<&String>)
        ensures
            match r {
                Some(s) => self.text_of() == Some(s@),
                None => self.text_of().is_none(),
            },
    {
        match self {
            Json::Text(s) => Some(s),
            _ => None,
        }
    }

    /// The value of a boolean, none for another document.
    pub fn as_bool(&self) -> (r: Option<bool>)
        ensures
            r == self.bool_of(),
    {
        match self {
            Json::Bool(b) => Some(*b),
            _ => None,
        }
    }

    /// The items of an array, none for another document.
    pub fn as_array(&self) -> (r: Option<&Vec<Json>>)
        ensures
            match r {
                Some(items) => self.items_of() == Some(items@),
                None => self.items_of().is_none(),
            },
    {
        match self {
            Json::Array(items) => Some(items),
            _ => None,
        }
    }

    /// The members of an object, none for another document.
    pub fn as_object(&self) -> (r: Option<&Vec<(String, Json)>>)
        ensures
            match r {
                Some(entries) => self.entries_of() == Some(entries@),
                None => self.entries_of().is_none(),
            },
    {
        match self {
            Json::Object(entries) => Some(entries),
            _ => None,
        }
    }
}

} // verus!
