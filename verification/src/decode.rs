//! The decoder from raw row cells to typed domain values.
//!
//! A cell arrives as what the driver reports for it under each native
//! representation. The column's schema hints are consulted first, in a
//! fixed order; a cell without hints goes through the representations in
//! the order integer, float, text, blob, boolean.

use vstd::prelude::*;
use vstd::string::StrSliceExecFns;
use crate::json::{Json, json_of_text};
use crate::schema::{Column, Format, JsonType, SchemaDocument, first_named};
use crate::text::{decimal, decimal_text};

verus! {

/// A double as the driver reports it: its IEEE-754 bits, and its decimal
/// text.
#[derive(Clone, Debug, PartialEq, Eq)]
pub struct RawFloat {
    pub bits: u64,
    pub text: String,
}

/// What the driver reports for one cell under each native representation;
/// `None` where the cell cannot be read that way.
#[derive(Clone, Debug, PartialEq, Eq)]
pub struct RawCell {
    pub integer: Option<i64>,
    pub float: Option<RawFloat>,
    pub text: Option<String>,
    pub bytes: Option<Vec<u8>>,
    pub boolean: Option<bool>,
}

/// A typed value of a record. A double is held as its IEEE-754 bits; a
/// decimal, a date, a date-time and a UUID as their text.
#[derive(Debug, PartialEq, Eq)]
pub enum RustValue {
    BigInt(i64),
    Double(u64),
    String(String),
    Bool(bool),
    DateTime(String),
    Date(String),
    Json(Json),
    Blob(Vec<u8>),
    Uuid(String),
    Decimal(String),
    Null,
}

/// What a `RustValue` is.
pub enum RustValueView {
    BigInt(i64),
    Double(u64),
    String(Seq<char>),
    Bool(bool),
    DateTime(Seq<char>),
    Date(Seq<char>),
    Json(Json),
    Blob(Seq<u8>),
    Uuid(Seq<char>),
    Decimal(Seq<char>),
    Null,
}

impl View for RustValue {
    type V = RustValueView;

    open spec fn view(&self) -> RustValueView {
        match self {
            RustValue::BigInt(i) => RustValueView::BigInt(*i),
            RustValue::Double(b) => RustValueView::Double(*b),
            RustValue::String(s) => RustValueView::String(s@),
            RustValue::Bool(b) => RustValueView::Bool(*b),
            RustValue::Blob(b) => RustValueView::Blob(b@),
            RustValue::DateTime(s) => RustValueView::DateTime(s@),
            RustValue::Date(s) => RustValueView::Date(s@),
            RustValue::Uuid(s) => RustValueView::Uuid(s@),
            RustValue::Decimal(s) => RustValueView::Decimal(s@),
            RustValue::Json(j) => RustValueView::Json(*j),
            RustValue::Null => RustValueView::Null,
        }
    }
}

/// Whether the hints flag the column as a decimal.
pub open spec fn hints_decimal(hint: Option<Column>) -> bool {
    hint.is_some() && hint.unwrap().is_decimal
}

/// The format that the hints give, if any.
pub open spec fn hints_format(hint: Option<Column>) -> Option<Format> {
    match hint {
        Some(c) => c.format,
        None => None,
    }
}

/// The JSON type that the hints give, if any.
pub open spec fn hints_type(hint: Option<Column>) -> Option<JsonType> {
    match hint {
        Some(c) => c.json_type,
        None => None,
    }
}

/// The value of a decimal column: its text where it has one, else the text
/// of its float, else null.
pub open spec fn decoded_decimal(cell: RawCell) -> RustValueView {
    match cell.text {
        Some(t) => RustValueView::Decimal(t@),
        None => match cell.float {
            Some(f) => RustValueView::Decimal(f.text@),
            None => RustValueView::Null,
        },
    }
}

/// The value of a binary column: its bytes where it has some, else the
/// UTF-8 bytes of its text, else null.
pub open spec fn decoded_binary(cell: RawCell) -> RustValueView {
    match cell.bytes {
        Some(b) => RustValueView::Blob(b@),
        None => match cell.text {
            Some(t) => RustValueView::Blob(vstd::utf8::encode_utf8(t@)),
            None => RustValueView::Null,
        },
    }
}

/// The value of the text of an object or array column, given what the
/// JSON parser made of it: the document, or the text itself where it is
/// not JSON.
pub open spec fn structured(text: Seq<char>, parsed: Option<Json>) -> RustValueView {
    match parsed {
        Some(doc) => RustValueView::Json(doc),
        None => RustValueView::String(text),
    }
}

/// The value of a text under the hints: a date-time, date or UUID by the
/// format; the parsed document for an object or array column whose text is
/// JSON; the text itself otherwise.
pub open spec fn decoded_text(hint: Option<Column>, text: Seq<char>) -> RustValueView {
    match hints_format(hint) {
        Some(Format::DateTime) => RustValueView::DateTime(text),
        Some(Format::Date) => RustValueView::Date(text),
        Some(Format::Uuid) => RustValueView::Uuid(text),
        _ => if hints_type(hint) == Some(JsonType::Object) || hints_type(hint) == Some(
            JsonType::Array,
        ) {
            structured(text, json_of_text(text))
        } else {
            RustValueView::String(text)
        },
    }
}

/// The value that a cell decodes to under the hints of its column. From
/// the top: a decimal column; a binary column; an integer, as a boolean on a
/// boolean column; a float; a text; a blob; a boolean; null.
pub open spec fn decoded(hint: Option<Column>, cell: RawCell) -> RustValueView {
    if hints_decimal(hint) {
        decoded_decimal(cell)
    } else if hints_format(hint) == Some(Format::Binary) {
        decoded_binary(cell)
    } else if cell.integer.is_some() {
        if hints_type(hint) == Some(JsonType::Boolean) {
            RustValueView::Bool(cell.integer.unwrap() != 0)
        } else {
            RustValueView::BigInt(cell.integer.unwrap())
        }
    } else if cell.float.is_some() {
        RustValueView::Double(cell.float.unwrap().bits)
    } else if cell.text.is_some() {
        decoded_text(hint, cell.text.unwrap()@)
    } else if cell.bytes.is_some() {
        RustValueView::Blob(cell.bytes.unwrap()@)
    } else if cell.boolean.is_some() {
        RustValueView::Bool(cell.boolean.unwrap())
    } else {
        RustValueView::Null
    }
}

/// The hints for a column name: the first column of that name, none where
/// there is no schema or no such column.
pub open spec fn hint_for(schema: Option<SchemaDocument>, name: Seq<char>) -> Option<Column> {
    match schema {
        Some(doc) => match first_named(doc.columns@, name) {
            Some(i) => Some(doc.columns@[i]),
            None => None,
        },
        None => None,
    }
}

/// The key of a row as text: the decimal text of the key cell's integer,
/// else the cell's text, else none.
pub open spec fn key_text(cell: RawCell) -> Option<Seq<char>> {
    match cell.integer {
        Some(i) => Some(decimal_text(i as int)),
        None => match cell.text {
            Some(t) => Some(t@),
            None => None,
        },
    }
}

fn copy_bytes(bytes: &Vec<u8>) -> (r: Vec<u8>)
    ensures
        r@ == bytes@,
{
    let mut out: Vec<u8> = Vec::new();
    let mut i: usize = 0;
    while i < bytes.len()
        invariant
            i <= bytes.len(),
            out@ =~= bytes@.take(i as int),
        decreases bytes.len() - i,
    {
        out.push(bytes[i]);
        i = i + 1;
    }
    assert(bytes@.take(i as int) =~= bytes@);
    out
}

/// The value of the text of an object or array column, given what the
/// JSON parser made of it.
pub fn structured_value(text: &String, parsed: Option<Json>) -> (r: RustValue)
    ensures
        r@ == structured(text@, parsed),
{
    match parsed {
        Some(doc) => RustValue::Json(doc),
        None => RustValue::String(text.clone()),
    }
}

fn decode_text(hint: Option<&Column>, text: &String) -> (r: RustValue)
    ensures
        r@ == decoded_text(
            match hint {
                Some(c) => Some(*c),
                None => None,
            },
            text@,
        ),
{
    let format = match hint {
        Some(c) => c.format,
        None => None,
    };
    let json_type = match hint {
        Some(c) => c.json_type,
        None => None,
    };
    match format {
        Some(Format::DateTime) => RustValue::DateTime(text.clone()),
        Some(Format::Date) => RustValue::Date(text.clone()),
        Some(Format::Uuid) => RustValue::Uuid(text.clone()),
        _ => {
            let is_structured = match json_type {
                Some(JsonType::Object) => true,
                Some(JsonType::Array) => true,
                _ => false,
            };
            if is_structured {
                structured_value(text, Json::parse(text.as_str()))
            } else {
                RustValue::String(text.clone())
            }
        },
    }
}

/// Decodes one cell under the hints of its column.
pub fn decode_cell(hint: Option<&Column>, cell: &RawCell) -> (r: RustValue)
    ensures
        r@ == decoded(
            match hint {
                Some(c) => Some(*c),
                None => None,
            },
            *cell,
        ),
{
    let is_decimal = match hint {
        Some(c) => c.is_decimal,
        None => false,
    };
    let format = match hint {
        Some(c) => c.format,
        None => None,
    };
    let json_type = match hint {
        Some(c) => c.json_type,
        None => None,
    };
    let is_binary = match format {
        Some(Format::Binary) => true,
        _ => false,
    };
    let is_boolean = match json_type {
        Some(JsonType::Boolean) => true,
        _ => false,
    };
    if is_decimal {
        return match &cell.text {
            Some(t) => RustValue::Decimal(t.clone()),
            None => match &cell.float {
                Some(f) => RustValue::Decimal(f.text.clone()),
                None => RustValue::Null,
            },
        };
    }
    if is_binary {
        return match &cell.bytes {
            Some(b) => RustValue::Blob(copy_bytes(b)),
            None => match &cell.text {
                Some(t) => RustValue::Blob(t.as_str().as_bytes_vec()),
                None => RustValue::Null,
            },
        };
    }
    if let Some(v) = cell.integer {
        return if is_boolean {
            RustValue::Bool(v != 0)
        } else {
            RustValue::BigInt(v)
        };
    }
    if let Some(f) = &cell.float {
        return RustValue::Double(f.bits);
    }
    if let Some(t) = &cell.text {
        return decode_text(hint, t);
    }
    if let Some(b) = &cell.bytes {
        return RustValue::Blob(copy_bytes(b));
    }
    if let Some(b) = cell.boolean {
        return RustValue::Bool(b);
    }
    RustValue::Null
}

/// Whether `out` is the decoding of `row` under the schema: the same
/// columns in the same order, each with the value that its cell decodes to
/// under the hints for its name.
pub open spec fn row_decoded(
    out: Seq<(String, RustValue)>,
    schema: Option<SchemaDocument>,
    row: Seq<(String, RawCell)>,
) -> bool {
    &&& out.len() == row.len()
    &&& forall|i: int|
        0 <= i < row.len() ==> (#[trigger] out[i]).0@ == row[i].0@ && out[i].1@ == decoded(
            hint_for(schema, row[i].0@),
            row[i].1,
        )
}

/// Decodes a row: every cell under the hints that the schema has for its
/// column, in the row's order.
pub fn decode_row(schema: Option<&SchemaDocument>, row: &Vec<(String, RawCell)>) -> (out: Vec<
    (String, RustValue),
>)
    ensures
        row_decoded(
            out@,
            match schema {
                Some(doc) => Some(*doc),
                None => None,
            },
            row@,
        ),
{
    let ghost schema_view: Option<SchemaDocument> = match schema {
        Some(doc) => Some(*doc),
        None => None,
    };
    let mut out: Vec<(String, RustValue)> = Vec::new();
    let mut i: usize = 0;
    while i < row.len()
        invariant
            i <= row.len(),
            schema_view == match schema {
                Some(doc) => Some(*doc),
                None => None,
            },
            out@.len() == i,
            forall|k: int|
                0 <= k < i ==> (#[trigger] out@[k]).0@ == row@[k].0@ && out@[k].1@ == decoded(
                    hint_for(schema_view, row@[k].0@),
                    row@[k].1,
                ),
        decreases row.len() - i,
    {
        let hint = match schema {
            Some(doc) => doc.column(row[i].0.as_str()),
            None => None,
        };
        let value = decode_cell(hint, &row[i].1);
        out.push((row[i].0.clone(), value));
        i = i + 1;
    }
    out
}

/// The key of a row as text, read from the cell of the key column.
pub fn row_key(cell: &RawCell) -> (r: Option<String>)
    ensures
        match r {
            Some(t) => key_text(*cell) == Some(t@),
            None => key_text(*cell).is_none(),
        },
{
    match cell.integer {
        Some(i) => Some(decimal(i)),
        None => match &cell.text {
            Some(t) => Some(t.clone()),
            None => None,
        },
    }
}

/// On a boolean column that is neither decimal nor binary, a cell that
/// reads as an integer decodes to a boolean, true exactly where the integer
/// is not zero: never to an integer.
pub proof fn lemma_integer_on_boolean_column(column: Column, cell: RawCell)
    requires
        column.json_type == Some(JsonType::Boolean),
        !column.is_decimal,
        column.format != Some(Format::Binary),
        cell.integer.is_some(),
    ensures
        decoded(Some(column), cell) == RustValueView::Bool(cell.integer.unwrap() != 0),
        !(decoded(Some(column), cell) is BigInt),
{
}

/// On a decimal column, a cell that reads as text decodes to the decimal
/// with exactly that text.
pub proof fn lemma_text_on_decimal_column(column: Column, cell: RawCell)
    requires
        column.is_decimal,
        cell.text.is_some(),
    ensures
        decoded(Some(column), cell) == RustValueView::Decimal(cell.text.unwrap()@),
{
}

} // verus!
