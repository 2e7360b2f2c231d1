//! Schema documents: the typed description of a model's columns, read once
//! from the JSON that registers the model.

use vstd::prelude::*;
use crate::error::OrmError;
use crate::json::{Json, json_of_text};
use crate::text::{same_text, uppercase, uppercased};

verus! {

/// The JSON type of a column. `Other` stands for a type name that is none
/// of the six.
#[derive(Clone, Copy, Debug, PartialEq, Eq, Structural)]
pub enum JsonType {
    Integer,
    String,
    Number,
    Boolean,
    Object,
    Array,
    Other,
}

/// The format of a string column.
#[derive(Clone, Copy, Debug, PartialEq, Eq, Structural)]
pub enum Format {
    Date,
    DateTime,
    Uuid,
    Binary,
}

/// What happens to a row when the row that it refers to is deleted.
#[derive(Clone, Copy, Debug, PartialEq, Eq, Structural)]
pub enum DeleteAction {
    Cascade,
    Restrict,
    SetNull,
    SetDefault,
    NoAction,
}

/// A reference from a column to a column of another table.
#[derive(Clone, Debug, PartialEq, Eq)]
pub struct ForeignKey {
    pub to_table: String,
    pub to_column: String,
    pub on_delete: DeleteAction,
}

/// One column of a model.
#[derive(Clone, Debug, PartialEq, Eq)]
pub struct Column {
    pub name: String,
    pub json_type: Option<JsonType>,
    pub format: Option<Format>,
    pub nullable: bool,
    pub is_decimal: bool,
    pub is_primary_key: bool,
    pub is_autoincrement: bool,
    pub is_unique: bool,
    pub is_indexed: bool,
    pub foreign_key: Option<ForeignKey>,
}

/// The columns of a model, in the order of the document's `properties`.
#[derive(Clone, Debug, PartialEq, Eq)]
pub struct SchemaDocument {
    pub columns: Vec<Column>,
}

/// The text of a member, where the member is a string.
pub open spec fn member_text(doc: Json, key: Seq<char>) -> Option<Seq<char>> {
    match doc.member(key) {
        Some(Json::Text(s)) => Some(s@),
        _ => None,
    }
}

/// The value of a boolean member, `default` where the member is missing or
/// no boolean.
pub open spec fn member_flag(doc: Json, key: Seq<char>, default: bool) -> bool {
    match doc.member(key) {
        Some(Json::Bool(b)) => b,
        _ => default,
    }
}

/// The members of the `anyOf` array of a column, where it has one.
pub open spec fn union_members(info: Json) -> Seq<Json> {
    match info.member("anyOf"@) {
        Some(Json::Array(items)) => items@,
        _ => Seq::empty(),
    }
}

/// The first `type` among the members that is a string other than `null`.
pub open spec fn first_type(items: Seq<Json>) -> Option<Seq<char>>
    decreases items.len(),
{
    if items.len() == 0 {
        None
    } else {
        match member_text(items[0], "type"@) {
            Some(t) => if t != "null"@ {
                Some(t)
            } else {
                first_type(items.drop_first())
            },
            None => first_type(items.drop_first()),
        }
    }
}

/// Whether one of the members has the `type` `null`.
pub open spec fn has_null(items: Seq<Json>) -> bool {
    exists|i: int| 0 <= i < items.len() && member_text(#[trigger] items[i], "type"@) == Some("null"@)
}

/// Whether one of the members has a `pattern`.
pub open spec fn has_pattern(items: Seq<Json>) -> bool {
    exists|i: int| 0 <= i < items.len() && (#[trigger] items[i]).member("pattern"@).is_some()
}

/// The type name of a column: its own `type`, else the first type of its
/// `anyOf` members that is not `null`.
pub open spec fn resolved_type(info: Json) -> Option<Seq<char>> {
    match member_text(info, "type"@) {
        Some(t) => Some(t),
        None => first_type(union_members(info)),
    }
}

/// The JSON type that a type name stands for.
pub open spec fn json_type_named(name: Seq<char>) -> JsonType {
    if name == "integer"@ {
        JsonType::Integer
    } else if name == "string"@ {
        JsonType::String
    } else if name == "number"@ {
        JsonType::Number
    } else if name == "boolean"@ {
        JsonType::Boolean
    } else if name == "object"@ {
        JsonType::Object
    } else if name == "array"@ {
        JsonType::Array
    } else {
        JsonType::Other
    }
}

/// The format that a format name stands for, none for an unknown name.
pub open spec fn format_named(name: Seq<char>) -> Option<Format> {
    if name == "date-time"@ {
        Some(Format::DateTime)
    } else if name == "date"@ {
        Some(Format::Date)
    } else if name == "uuid"@ {
        Some(Format::Uuid)
    } else if name == "binary"@ {
        Some(Format::Binary)
    } else {
        None
    }
}

/// The delete action that a text names, in any case; `Cascade` where it
/// names none.
pub open spec fn action_named(name: Seq<char>) -> DeleteAction {
    action_of_upper(uppercased(name))
}

/// The delete action that a text in upper case names; `Cascade` where it
/// names none.
pub open spec fn action_of_upper(upper: Seq<char>) -> DeleteAction {
    if upper == "RESTRICT"@ {
        DeleteAction::Restrict
    } else if upper == "SET NULL"@ {
        DeleteAction::SetNull
    } else if upper == "SET DEFAULT"@ {
        DeleteAction::SetDefault
    } else if upper == "NO ACTION"@ {
        DeleteAction::NoAction
    } else {
        DeleteAction::Cascade
    }
}

/// The text, or the default where there is none.
pub open spec fn text_or(t: Option<Seq<char>>, default: Seq<char>) -> Seq<char> {
    match t {
        Some(s) => s,
        None => default,
    }
}

/// Whether `fk` is what the `foreign_key` member of a column says: an
/// object gives a reference to `to_table` (empty where missing), to
/// `to_column` (`id` where missing), with the action of `on_delete`
/// (cascade where missing); anything else gives none.
pub open spec fn foreign_key_reads(fk: Option<ForeignKey>, info: Json) -> bool {
    match info.member("foreign_key"@) {
        Some(Json::Object(entries)) => {
            let meta = Json::Object(entries);
            fk.is_some() && fk.unwrap().to_table@ == text_or(member_text(meta, "to_table"@), ""@)
                && fk.unwrap().to_column@ == text_or(member_text(meta, "to_column"@), "id"@)
                && fk.unwrap().on_delete == action_named(
                text_or(member_text(meta, "on_delete"@), "CASCADE"@),
            )
        },
        _ => fk.is_none(),
    }
}

/// Whether `c` is the column that the member `name` with value `info`
/// describes.
pub open spec fn column_reads(c: Column, name: Seq<char>, info: Json) -> bool {
    &&& c.name@ == name
    &&& c.json_type == match resolved_type(info) {
        Some(t) => Some(json_type_named(t)),
        None => None,
    }
    &&& c.format == match member_text(info, "format"@) {
        Some(f) => format_named(f),
        None => None,
    }
    &&& c.nullable == has_null(union_members(info))
    &&& c.is_decimal == has_pattern(union_members(info))
    &&& c.is_primary_key == member_flag(info, "primary_key"@, false)
    &&& c.is_autoincrement == member_flag(info, "autoincrement"@, true)
    &&& c.is_unique == member_flag(info, "unique"@, false)
    &&& c.is_indexed == member_flag(info, "index"@, false)
    &&& foreign_key_reads(c.foreign_key, info)
}

/// Whether a document is a schema: a JSON object with a member
/// `properties` that is a JSON object, which maps each column name to what
/// describes the column.
pub open spec fn is_schema(doc: Json) -> bool {
    match doc.member("properties"@) {
        Some(Json::Object(_)) => true,
        _ => false,
    }
}

/// The members of the `properties` object of a schema, none for a
/// document that is no schema.
pub open spec fn properties_of(doc: Json) -> Seq<(String, Json)> {
    match doc.member("properties"@) {
        Some(Json::Object(entries)) => entries@,
        _ => Seq::empty(),
    }
}

/// The schema that a text describes: the document of the text, where the
/// text is JSON and the document is a schema; none otherwise.
pub open spec fn schema_of_text(text: Seq<char>) -> Option<Json> {
    match json_of_text(text) {
        Some(doc) => if is_schema(doc) {
            Some(doc)
        } else {
            None
        },
        None => None,
    }
}

/// Whether `columns` are the columns that the members describe, one for
/// one and in order.
pub open spec fn columns_read(columns: Seq<Column>, entries: Seq<(String, Json)>) -> bool {
    &&& columns.len() == entries.len()
    &&& forall|i: int|
        0 <= i < columns.len() ==> column_reads(#[trigger] columns[i], entries[i].0@, entries[i].1)
}

/// The index of the first column flagged as primary key.
pub open spec fn first_key(columns: Seq<Column>) -> Option<int>
    decreases columns.len(),
{
    if columns.len() == 0 {
        None
    } else if columns[0].is_primary_key {
        Some(0)
    } else {
        match first_key(columns.drop_first()) {
            Some(i) => Some(i + 1),
            None => None,
        }
    }
}

/// The index of the first column with the given name.
pub open spec fn first_named(columns: Seq<Column>, name: Seq<char>) -> Option<int>
    decreases columns.len(),
{
    if columns.len() == 0 {
        None
    } else if columns[0].name@ == name {
        Some(0)
    } else {
        match first_named(columns.drop_first(), name) {
            Some(i) => Some(i + 1),
            None => None,
        }
    }
}

fn text_member<'a>(doc: &'a Json, key: &str) -> (r: Option<&'a String>)
    ensures
        match r {
            Some(s) => member_text(*doc, key@) == Some(s@),
            None => member_text(*doc, key@).is_none(),
        },
{
    match doc.get(key) {
        Some(v) => v.as_text(),
        None => None,
    }
}

fn flag_member(doc: &Json, key: &str, default: bool) -> (r: bool)
    ensures
        r == member_flag(*doc, key@, default),
{
    match doc.get(key) {
        Some(v) => match v.as_bool() {
            Some(b) => b,
            None => default,
        },
        None => default,
    }
}

/// The JSON type that a type name stands for.
pub fn json_type_from(name: &String) -> (r: JsonType)
    ensures
        r == json_type_named(name@),
{
    if same_text(name, "integer") {
        JsonType::Integer
    } else if same_text(name, "string") {
        JsonType::String
    } else if same_text(name, "number") {
        JsonType::Number
    } else if same_text(name, "boolean") {
        JsonType::Boolean
    } else if same_text(name, "object") {
        JsonType::Object
    } else if same_text(name, "array") {
        JsonType::Array
    } else {
        JsonType::Other
    }
}

/// The format that a format name stands for.
pub fn format_from(name: &String) -> (r: Option<Format>)
    ensures
        r == format_named(name@),
{
    if same_text(name, "date-time") {
        Some(Format::DateTime)
    } else if same_text(name, "date") {
        Some(Format::Date)
    } else if same_text(name, "uuid") {
        Some(Format::Uuid)
    } else if same_text(name, "binary") {
        Some(Format::Binary)
    } else {
        None
    }
}

/// The delete action that a text in upper case names.
pub fn action_from_upper(upper: &String) -> (r: DeleteAction)
    ensures
        r == action_of_upper(upper@),
{
    if same_text(upper, "RESTRICT") {
        DeleteAction::Restrict
    } else if same_text(upper, "SET NULL") {
        DeleteAction::SetNull
    } else if same_text(upper, "SET DEFAULT") {
        DeleteAction::SetDefault
    } else if same_text(upper, "NO ACTION") {
        DeleteAction::NoAction
    } else {
        DeleteAction::Cascade
    }
}

/// The delete action that a text names, in any case.
pub fn action_from(name: &str) -> (r: DeleteAction)
    ensures
        r == action_named(name@),
{
    let upper = uppercase(name);
    action_from_upper(&upper)
}

/// What the `anyOf` members of a column say: the first type that is not
/// `null`, whether `null` is among the types, and whether a member has a
/// pattern.
fn scan_union(items: &Vec<Json>) -> (r: (Option<JsonType>, bool, bool))
    ensures
        r.0 == match first_type(items@) {
            Some(t) => Some(json_type_named(t)),
            None => None,
        },
        r.1 == has_null(items@),
        r.2 == has_pattern(items@),
{
    let mut found: Option<JsonType> = None;
    let mut nullable = false;
    let mut decimal = false;
    let mut i: usize = 0;
    assert(items@.skip(0) =~= items@);
    while i < items.len()
        invariant
            i <= items.len(),
            match found {
                Some(t) => first_type(items@).is_some() && t == json_type_named(
                    first_type(items@).unwrap(),
                ),
                None => first_type(items@) == first_type(items@.skip(i as int)),
            },
            nullable == has_null(items@.take(i as int)),
            decimal == has_pattern(items@.take(i as int)),
        decreases items.len() - i,
    {
        proof {
            assert(items@.skip(i as int).drop_first() =~= items@.skip(i as int + 1));
            assert(items@.skip(i as int)[0] == items@[i as int]);
        }
        let ghost before = items@.take(i as int);
        let ghost after = items@.take(i as int + 1);
        match text_member(&items[i], "type") {
            Some(t) => {
                if same_text(t, "null") {
                    nullable = true;
                    assert(after[i as int] == items@[i as int]);
                } else {
                    if found.is_none() {
                        found = Some(json_type_from(t));
                    }
                }
            },
            None => {},
        }
        if items[i].get("pattern").is_some() {
            decimal = true;
            assert(after[i as int] == items@[i as int]);
        }
        proof {
            assert(forall|k: int| 0 <= k < i ==> before[k] == after[k]);
            assert(after[i as int] == items@[i as int]);
            if has_null(before) {
                let k = choose|k: int|
                    0 <= k < before.len() && member_text(#[trigger] before[k], "type"@) == Some(
                        "null"@,
                    );
                assert(after[k] == before[k]);
            }
            if has_null(after) && !nullable {
                let k = choose|k: int|
                    0 <= k < after.len() && member_text(#[trigger] after[k], "type"@) == Some(
                        "null"@,
                    );
                assert(k < i);
                assert(before[k] == after[k]);
            }
            if has_pattern(before) {
                let k = choose|k: int|
                    0 <= k < before.len() && (#[trigger] before[k]).member("pattern"@).is_some();
                assert(after[k] == before[k]);
            }
            if has_pattern(after) && !decimal {
                let k = choose|k: int|
                    0 <= k < after.len() && (#[trigger] after[k]).member("pattern"@).is_some();
                assert(k < i);
                assert(before[k] == after[k]);
            }
        }
        i = i + 1;
    }
    assert(items@.take(i as int) =~= items@);
    (found, nullable, decimal)
}

fn read_foreign_key(info: &Json) -> (r: Option<ForeignKey>)
    ensures
        foreign_key_reads(r, *info),
{
    match info.get("foreign_key") {
        Some(meta) => match meta {
            Json::Object(_) => {
                let to_table = match text_member(meta, "to_table") {
                    Some(t) => t.clone(),
                    None => "".to_owned(),
                };
                let to_column = match text_member(meta, "to_column") {
                    Some(t) => t.clone(),
                    None => "id".to_owned(),
                };
                let on_delete = match text_member(meta, "on_delete") {
                    Some(t) => action_from(t.as_str()),
                    None => action_from("CASCADE"),
                };
                Some(ForeignKey { to_table, to_column, on_delete })
            },
            _ => None,
        },
        None => None,
    }
}

impl Column {
    /// Reads the column that a member of `properties` describes.
    pub fn from_json(name: &String, info: &Json) -> (c: Column)
        ensures
            column_reads(c, name@, *info),
    {
        let own_type = match text_member(info, "type") {
            Some(t) => Some(json_type_from(t)),
            None => None,
        };
        let scanned = match info.get("anyOf") {
            Some(v) => match v.as_array() {
                Some(items) => scan_union(items),
                None => {
                    proof {
                        lemma_empty_union();
                    }
                    (None, false, false)
                },
            },
            None => {
                proof {
                    lemma_empty_union();
                }
                (None, false, false)
            },
        };
        let json_type = match own_type {
            Some(t) => Some(t),
            None => scanned.0,
        };
        let format = match text_member(info, "format") {
            Some(f) => format_from(f),
            None => None,
        };
        Column {
            name: name.clone(),
            json_type,
            format,
            nullable: scanned.1,
            is_decimal: scanned.2,
            is_primary_key: flag_member(info, "primary_key", false),
            is_autoincrement: flag_member(info, "autoincrement", true),
            is_unique: flag_member(info, "unique", false),
            is_indexed: flag_member(info, "index", false),
            foreign_key: read_foreign_key(info),
        }
    }
}

/// A column with no `anyOf` members has no type from them, is not nullable
/// and is no decimal.
proof fn lemma_empty_union()
    ensures
        first_type(Seq::<Json>::empty()).is_none(),
        !has_null(Seq::<Json>::empty()),
        !has_pattern(Seq::<Json>::empty()),
{
}

impl SchemaDocument {
    /// Reads the columns from a schema: the members of its `properties`
    /// object, in order. A document that is no schema (it is no JSON
    /// object, or it has no `properties` member, or that member is no JSON
    /// object) is an invalid schema.
    pub fn from_json(doc: &Json) -> (r: Result<SchemaDocument, OrmError>)
        ensures
            match r {
                Ok(schema) => is_schema(*doc) && columns_read(schema.columns@, properties_of(*doc)),
                Err(e) => e == OrmError::InvalidSchema && !is_schema(*doc),
            },
    {
        let entries = match doc.get("properties") {
            Some(Json::Object(entries)) => entries,
            _ => {
                return Err(OrmError::InvalidSchema);
            },
        };
        let mut columns: Vec<Column> = Vec::new();
        let mut i: usize = 0;
        while i < entries.len()
            invariant
                i <= entries.len(),
                columns@.len() == i,
                forall|k: int|
                    0 <= k < i ==> column_reads(
                        #[trigger] columns@[k],
                        entries@[k].0@,
                        entries@[k].1,
                    ),
            decreases entries.len() - i,
        {
            columns.push(Column::from_json(&entries[i].0, &entries[i].1));
            i = i + 1;
        }
        Ok(SchemaDocument { columns })
    }

    /// The first column flagged as primary key.
    pub fn primary_key(&self) -> (r: Option<&Column>)
        ensures
            match r {
                Some(c) => first_key(self.columns@).is_some() && *c == self.columns@[first_key(
                    self.columns@,
                ).unwrap()],
                None => first_key(self.columns@).is_none(),
            },
    {
        let mut i: usize = 0;
        assert(self.columns@.skip(0) =~= self.columns@);
        while i < self.columns.len()
            invariant
                i <= self.columns.len(),
                first_key(self.columns@) == match first_key(self.columns@.skip(i as int)) {
                    Some(k) => Some(k + i),
                    None => None,
                },
            decreases self.columns.len() - i,
        {
            proof {
                assert(self.columns@.skip(i as int).drop_first() =~= self.columns@.skip(
                    i as int + 1,
                ));
                assert(self.columns@.skip(i as int)[0] == self.columns@[i as int]);
            }
            if self.columns[i].is_primary_key {
                return Some(&self.columns[i]);
            }
            i = i + 1;
        }
        None
    }

    /// The first column with the given name.
    pub fn column(&self, name: &str) -> (r: Option<&Column>)
        ensures
            match r {
                Some(c) => first_named(self.columns@, name@).is_some() && *c
                    == self.columns@[first_named(self.columns@, name@).unwrap()],
                None => first_named(self.columns@, name@).is_none(),
            },
    {
        let mut i: usize = 0;
        assert(self.columns@.skip(0) =~= self.columns@);
        while i < self.columns.len()
            invariant
                i <= self.columns.len(),
                first_named(self.columns@, name@) == match first_named(
                    self.columns@.skip(i as int),
                    name@,
                ) {
                    Some(k) => Some(k + i),
                    None => None,
                },
            decreases self.columns.len() - i,
        {
            proof {
                assert(self.columns@.skip(i as int).drop_first() =~= self.columns@.skip(
                    i as int + 1,
                ));
                assert(self.columns@.skip(i as int)[0] == self.columns@[i as int]);
            }
            if same_text(&self.columns[i].name, name) {
                return Some(&self.columns[i]);
            }
            i = i + 1;
        }
        None
    }
}

} // verus!
