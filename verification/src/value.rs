//! The values that are bound to the placeholders of a statement.

use vstd::prelude::*;
use crate::json::{Json, json_text};
use crate::sql::{bound_form, double_form, double_value};

verus! {

/// A value bound to one placeholder. A double is kept as its decimal text.
#[derive(Clone, Debug, PartialEq, Eq)]
pub enum SqlValue {
    Bool(bool),
    Int(i32),
    BigInt(i64),
    BigUnsigned(u64),
    Double(String),
    Text(String),
    Null,
}

/// What a `SqlValue` is.
pub enum SqlValueView {
    Bool(bool),
    Int(i32),
    BigInt(i64),
    BigUnsigned(u64),
    Double(Seq<char>),
    Text(Seq<char>),
    Null,
}

impl View for SqlValue {
    type V = SqlValueView;

    open spec fn view(&self) -> SqlValueView {
        match self {
            SqlValue::Bool(b) => SqlValueView::Bool(*b),
            SqlValue::Int(i) => SqlValueView::Int(*i),
            SqlValue::BigInt(i) => SqlValueView::BigInt(*i),
            SqlValue::BigUnsigned(u) => SqlValueView::BigUnsigned(*u),
            SqlValue::Double(t) => SqlValueView::Double(t@),
            SqlValue::Text(t) => SqlValueView::Text(t@),
            SqlValue::Null => SqlValueView::Null,
        }
    }
}

/// The views of a sequence of values.
pub open spec fn views_of(values: Seq<SqlValue>) -> Seq<SqlValueView> {
    values.map_values(|v: SqlValue| v@)
}

/// The value that a JSON value is bound as: an integer as a 64-bit integer,
/// another number as the double of its text, a string and a boolean as themselves, null
/// as null, an array or object as its compact JSON text.
pub open spec fn bound_value(doc: Json) -> SqlValueView {
    match doc {
        Json::Null => SqlValueView::Null,
        Json::Bool(b) => SqlValueView::Bool(b),
        Json::Number(n) => match n.integer {
            Some(i) => SqlValueView::BigInt(i),
            None => double_form(n.text@),
        },
        Json::Text(s) => SqlValueView::Text(s@),
        _ => SqlValueView::Text(json_text(doc)),
    }
}

impl SqlValue {
    /// The value that a JSON value is bound as. It reads back from the
    /// builder as itself.
    pub fn from_json(doc: &Json) -> (r: SqlValue)
        ensures
            r@ == bound_value(*doc),
            bound_form(r@) == r@,
    {
        match doc {
            Json::Null => SqlValue::Null,
            Json::Bool(b) => SqlValue::Bool(*b),
            Json::Number(n) => match n.integer {
                Some(i) => SqlValue::BigInt(i),
                None => double_value(n.text.as_str()),
            },
            Json::Text(s) => SqlValue::Text(s.clone()),
            _ => SqlValue::Text(doc.render()),
        }
    }
}

} // verus!
