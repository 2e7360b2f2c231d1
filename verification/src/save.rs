//! The compiler from records to `INSERT` statements: single-record upsert
//! and bulk insert, and the resolution of the generated key.

use vstd::prelude::*;
use crate::compile::Statement;
use crate::error::OrmError;
use crate::json::Json;
use crate::schema::{Column, SchemaDocument, first_key};
use crate::sql::{
    InsertShape, bound_form, insert_begin, insert_binds, insert_build, insert_conflict,
    insert_row, insert_shape, insert_sql, lemma_held_as_they_are, names_of,
    read_back_as_they_are,
};
use crate::text::{lowercase, lowercased, same_text};
use crate::value::{SqlValue, SqlValueView, bound_value, views_of};

verus! {

/// The name of the key column of a schema, where it has one.
pub open spec fn key_name(columns: Seq<Column>) -> Option<Seq<char>> {
    match first_key(columns) {
        Some(i) => Some(columns[i].name@),
        None => None,
    }
}

/// Whether the key of a schema is generated: a schema without a key counts
/// as generated.
pub open spec fn key_generated(columns: Seq<Column>) -> bool {
    match first_key(columns) {
        Some(i) => columns[i].is_autoincrement,
        None => true,
    }
}

/// Whether a member of a record is left out of the statement: the key
/// column, where the key is generated and the record gives null for it.
pub open spec fn is_left_out(e: (String, Json), key: Option<Seq<char>>, generated: bool) -> bool {
    key == Some(e.0@) && generated && e.1 == Json::Null
}

/// The columns of the statement for a record: the names of its members
/// that are not left out, in order.
pub open spec fn record_columns(
    entries: Seq<(String, Json)>,
    key: Option<Seq<char>>,
    generated: bool,
) -> Seq<Seq<char>>
    decreases entries.len(),
{
    if entries.len() == 0 {
        Seq::empty()
    } else {
        let rest = record_columns(entries.drop_last(), key, generated);
        if is_left_out(entries.last(), key, generated) {
            rest
        } else {
            rest.push(entries.last().0@)
        }
    }
}

/// The values of the statement for a record, one for each column.
pub open spec fn record_values(
    entries: Seq<(String, Json)>,
    key: Option<Seq<char>>,
    generated: bool,
) -> Seq<SqlValueView>
    decreases entries.len(),
{
    if entries.len() == 0 {
        Seq::empty()
    } else {
        let rest = record_values(entries.drop_last(), key, generated);
        if is_left_out(entries.last(), key, generated) {
            rest
        } else {
            rest.push(bound_value(entries.last().1))
        }
    }
}

/// Whether the record gives a value other than null for the key column.
pub open spec fn key_supplied(entries: Seq<(String, Json)>, key: Option<Seq<char>>) -> bool
    decreases entries.len(),
{
    if entries.len() == 0 {
        false
    } else {
        key_supplied(entries.drop_last(), key) || (key == Some(entries.last().0@)
            && entries.last().1 != Json::Null)
    }
}

/// The columns other than the key, in order.
pub open spec fn other_columns(columns: Seq<Seq<char>>, key: Seq<char>) -> Seq<Seq<char>>
    decreases columns.len(),
{
    if columns.len() == 0 {
        Seq::empty()
    } else {
        let rest = other_columns(columns.drop_last(), key);
        if columns.last() == key {
            rest
        } else {
            rest.push(columns.last())
        }
    }
}

/// The conflict clause of the statement for a record: where the schema has
/// a key that the record supplies or that is not generated, a conflict on
/// the key overwrites the other columns of the statement, if there are any.
pub open spec fn record_conflict(
    entries: Seq<(String, Json)>,
    key: Option<Seq<char>>,
    generated: bool,
) -> Option<(Seq<char>, Seq<Seq<char>>)> {
    match key {
        Some(k) => {
            let others = other_columns(record_columns(entries, key, generated), k);
            if (key_supplied(entries, key) || !generated) && others.len() > 0 {
                Some((k, others))
            } else {
                None
            }
        },
        None => None,
    }
}

/// A sequence with the one row, or with none where the row is empty.
pub open spec fn rows_of(values: Seq<SqlValueView>) -> Seq<Seq<SqlValueView>> {
    if values.len() > 0 {
        seq![values]
    } else {
        Seq::empty()
    }
}

/// What `compile_save` inserts, or why the record has no statement: a
/// record that is no JSON object is an invalid record.
pub open spec fn save_plan(model: Seq<char>, columns: Seq<Column>, record: Json) -> Result<
    InsertShape,
    OrmError,
> {
    match record {
        Json::Object(entries) => {
            let key = key_name(columns);
            let generated = key_generated(columns);
            Ok(
                InsertShape {
                    table: lowercased(model),
                    columns: record_columns(entries@, key, generated),
                    rows: rows_of(record_values(entries@, key, generated)),
                    conflict: record_conflict(entries@, key, generated),
                },
            )
        },
        _ => Err(OrmError::InvalidRecordJson),
    }
}

/// Whether a statement is the `INSERT` of a shape, with its values.
pub open spec fn inserts(st: Statement, shape: InsertShape) -> bool {
    st.sql@ == insert_sql(shape) && st.bind_views() == insert_binds(shape)
}

/// The key column of a schema and whether the key is generated.
pub fn key_of(schema: &SchemaDocument) -> (r: (Option<&String>, bool))
    ensures
        match r.0 {
            Some(name) => key_name(schema.columns@) == Some(name@),
            None => key_name(schema.columns@).is_none(),
        },
        r.1 == key_generated(schema.columns@),
{
    match schema.primary_key() {
        Some(c) => (Some(&c.name), c.is_autoincrement),
        None => (None, true),
    }
}

fn names_key(key: Option<&String>, name: &String) -> (r: bool)
    ensures
        r == match key {
            Some(k) => k@ == name@,
            None => false,
        },
{
    match key {
        Some(k) => same_text(name, k.as_str()),
        None => false,
    }
}

/// The columns other than the key, in order.
fn columns_but(columns: &Vec<String>, key: &String) -> (r: Vec<String>)
    ensures
        names_of(r@) == other_columns(names_of(columns@), key@),
{
    let mut out: Vec<String> = Vec::new();
    let mut i: usize = 0;
    let ghost all = names_of(columns@);
    assert(all.take(0) =~= Seq::empty());
    while i < columns.len()
        invariant
            i <= columns.len(),
            all == names_of(columns@),
            names_of(out@) =~= other_columns(all.take(i as int), key@),
        decreases columns.len() - i,
    {
        proof {
            assert(all.take(i as int + 1).drop_last() =~= all.take(i as int));
            assert(all.take(i as int + 1).last() == columns@[i as int]@);
        }
        if !same_text(&columns[i], key.as_str()) {
            out.push(columns[i].clone());
        }
        i = i + 1;
    }
    assert(all.take(i as int) =~= all);
    out
}

/// Compiles a record into the `INSERT` that saves it: one column and one
/// value for each member, but for a generated key that the record leaves
/// null; and, where the key is supplied or not generated, a conflict clause
/// on the key that overwrites all other supplied columns.
pub fn compile_save(model: &str, schema: &SchemaDocument, record: &Json) -> (r: Result<
    Statement,
    OrmError,
>)
    ensures
        match r {
            Ok(st) => save_plan(model@, schema.columns@, *record).is_ok() && st.sql@ == insert_sql(
                save_plan(model@, schema.columns@, *record).unwrap(),
            ) && st.bind_views() == insert_binds(
                save_plan(model@, schema.columns@, *record).unwrap(),
            ),
            Err(e) => save_plan(model@, schema.columns@, *record) == Err::<InsertShape, OrmError>(e),
        },
{
    let entries = match record {
        Json::Object(entries) => entries,
        _ => {
            return Err(OrmError::InvalidRecordJson);
        },
    };
    let (key, generated) = key_of(schema);
    let ghost key_view = key_name(schema.columns@);
    let mut columns: Vec<String> = Vec::new();
    let mut values: Vec<SqlValue> = Vec::new();
    let mut supplied = false;
    let mut i: usize = 0;
    assert(entries@.take(0) =~= Seq::empty());
    while i < entries.len()
        invariant
            i <= entries.len(),
            key_view == key_name(schema.columns@),
            match key {
                Some(name) => key_view == Some(name@),
                None => key_view.is_none(),
            },
            names_of(columns@) =~= record_columns(entries@.take(i as int), key_view, generated),
            views_of(values@) =~= record_values(entries@.take(i as int), key_view, generated),
            forall|k: int| 0 <= k < values@.len() ==> bound_form((#[trigger] values@[k])@) == values@[k]@,
            supplied == key_supplied(entries@.take(i as int), key_view),
        decreases entries.len() - i,
    {
        proof {
            assert(entries@.take(i as int + 1).drop_last() =~= entries@.take(i as int));
            assert(entries@.take(i as int + 1).last() == entries@[i as int]);
        }
        let is_key = names_key(key, &entries[i].0);
        let is_null = entries[i].1.is_null();
        if is_key && !is_null {
            supplied = true;
        }
        if !(is_key && generated && is_null) {
            columns.push(entries[i].0.clone());
            values.push(SqlValue::from_json(&entries[i].1));
        }
        i = i + 1;
    }
    assert(entries@.take(i as int) =~= entries@);
    let table = lowercase(model);
    let mut insert = insert_begin(table.as_str(), &columns);
    proof {
        lemma_as_many_values(entries@, key_view, generated);
        assert(views_of(values@).len() == values@.len());
        assert(names_of(columns@).len() == columns@.len());
        assert forall|k: int| 0 <= k < views_of(values@).len() implies bound_form(
            #[trigger] views_of(values@)[k],
        ) == views_of(values@)[k] by {
            assert(views_of(values@)[k] == values@[k]@);
        }
        lemma_held_as_they_are(views_of(values@));
    }
    insert_row(&mut insert, &values);
    match key {
        Some(name) => {
            if supplied || !generated {
                let others = columns_but(&columns, name);
                if others.len() > 0 {
                    insert_conflict(&mut insert, name.as_str(), &others);
                }
                assert(names_of(others@).len() == others@.len());
            }
        },
        None => {},
    }
    let built = insert_build(&insert);
    proof {
        let plan = save_plan(model@, schema.columns@, *record).unwrap();
        let shape = insert_shape(insert);
        assert(shape.rows =~= plan.rows);
        assert(shape.conflict == plan.conflict);
        assert(shape == plan);
    }
    Ok(Statement { sql: built.0, binds: built.1 })
}

/// The columns that a conflict overwrites are the columns of the statement
/// but for the key: the key itself is never overwritten.
pub proof fn lemma_conflict_spares_the_key(columns: Seq<Seq<char>>, key: Seq<char>)
    ensures
        !other_columns(columns, key).contains(key),
        forall|c: Seq<char>|
            other_columns(columns, key).contains(c) <==> (columns.contains(c) && c != key),
    decreases columns.len(),
{
    let out = other_columns(columns, key);
    if columns.len() > 0 {
        let rest = columns.drop_last();
        let last = columns.last();
        let rest_out = other_columns(rest, key);
        lemma_conflict_spares_the_key(rest, key);
        assert forall|c: Seq<char>| out.contains(c) implies columns.contains(c) && c != key by {
            let i = choose|i: int| 0 <= i < out.len() && out[i] == c;
            if last != key && i == rest_out.len() {
                assert(columns[columns.len() - 1] == c);
            } else {
                assert(rest_out[i] == c);
                assert(rest_out.contains(c));
                assert(rest.contains(c));
                let j = choose|j: int| 0 <= j < rest.len() && rest[j] == c;
                assert(columns[j] == c);
            }
        }
        assert forall|c: Seq<char>| columns.contains(c) && c != key implies out.contains(c) by {
            let j = choose|j: int| 0 <= j < columns.len() && columns[j] == c;
            if j == columns.len() - 1 {
                assert(out[out.len() - 1] == c);
            } else {
                assert(rest[j] == c);
                assert(rest.contains(c));
                assert(rest_out.contains(c));
                let i = choose|i: int| 0 <= i < rest_out.len() && rest_out[i] == c;
                assert(out[i] == c);
            }
        }
    } else {
        assert(out.len() == 0);
    }
}

/// A record that supplies no value for a generated key gives a statement
/// without the key column and without a conflict clause: the row is
/// inserted and the database generates its key.
pub proof fn lemma_absent_generated_key_is_left_out(entries: Seq<(String, Json)>, key: Seq<char>)
    requires
        !key_supplied(entries, Some(key)),
    ensures
        !record_columns(entries, Some(key), true).contains(key),
        record_conflict(entries, Some(key), true).is_none(),
    decreases entries.len(),
{
    let columns = record_columns(entries, Some(key), true);
    if entries.len() > 0 {
        let rest = entries.drop_last();
        lemma_absent_generated_key_is_left_out(rest, key);
        let rest_columns = record_columns(rest, Some(key), true);
        if columns.contains(key) {
            let i = choose|i: int| 0 <= i < columns.len() && columns[i] == key;
            if i < rest_columns.len() {
                assert(rest_columns[i] == key);
            }
        }
    } else {
        assert(columns.len() == 0);
    }
}

/// A record that supplies its key with at least one other column gives a
/// statement whose conflict clause is on the key and overwrites exactly
/// the other columns of the statement; the key column itself is in the
/// statement and is not overwritten.
pub proof fn lemma_supplied_key_updates_the_rest(
    entries: Seq<(String, Json)>,
    key: Seq<char>,
    generated: bool,
)
    requires
        key_supplied(entries, Some(key)),
        other_columns(record_columns(entries, Some(key), generated), key).len() > 0,
    ensures
        record_conflict(entries, Some(key), generated) == Some(
            (key, other_columns(record_columns(entries, Some(key), generated), key)),
        ),
        !other_columns(record_columns(entries, Some(key), generated), key).contains(key),
        forall|c: Seq<char>|
            record_columns(entries, Some(key), generated).contains(c) && c != key
                ==> other_columns(record_columns(entries, Some(key), generated), key).contains(c),
{
    lemma_conflict_spares_the_key(record_columns(entries, Some(key), generated), key);
}

/// A record has as many values as columns.
pub proof fn lemma_as_many_values(
    entries: Seq<(String, Json)>,
    key: Option<Seq<char>>,
    generated: bool,
)
    ensures
        record_values(entries, key, generated).len() == record_columns(
            entries,
            key,
            generated,
        ).len(),
    decreases entries.len(),
{
    if entries.len() > 0 {
        lemma_as_many_values(entries.drop_last(), key, generated);
    }
}

/// Whether every record is a JSON object.
pub open spec fn all_objects(records: Seq<Json>) -> bool {
    forall|i: int| 0 <= i < records.len() ==> (#[trigger] records[i]) is Object
}

/// The value of a record in a column: that of its member of that name,
/// null where it has none.
pub open spec fn cell_value(record: Json, column: Seq<char>) -> SqlValueView {
    match record.member(column) {
        Some(v) => bound_value(v),
        None => SqlValueView::Null,
    }
}

/// The row of a record: its value in each column.
pub open spec fn bulk_row(record: Json, columns: Seq<Seq<char>>) -> Seq<SqlValueView> {
    Seq::new(columns.len(), |j: int| cell_value(record, columns[j]))
}

/// The rows of the records, in order; none where there is no column.
pub open spec fn bulk_rows(records: Seq<Json>, columns: Seq<Seq<char>>) -> Seq<Seq<SqlValueView>>
    decreases records.len(),
{
    if records.len() == 0 {
        Seq::empty()
    } else {
        let rest = bulk_rows(records.drop_last(), columns);
        if columns.len() > 0 {
            rest.push(bulk_row(records.last(), columns))
        } else {
            rest
        }
    }
}

/// The members of a JSON object, none for another value.
pub open spec fn members_of(record: Json) -> Seq<(String, Json)> {
    match record {
        Json::Object(entries) => entries@,
        _ => Seq::empty(),
    }
}

/// What `compile_save_bulk` inserts. Records that are no array, or one of
/// which is no object, are an invalid record. No record gives no statement.
/// Otherwise the columns are those of the first record, and every record
/// gives one row over them.
pub open spec fn bulk_plan(model: Seq<char>, columns: Seq<Column>, records: Json) -> Result<
    Option<InsertShape>,
    OrmError,
> {
    match records {
        Json::Array(items) => {
            if items@.len() == 0 {
                Ok(None)
            } else if !all_objects(items@) {
                Err(OrmError::InvalidRecordJson)
            } else {
                let names = record_columns(
                    members_of(items@[0]),
                    key_name(columns),
                    key_generated(columns),
                );
                Ok(
                    Some(
                        InsertShape {
                            table: lowercased(model),
                            columns: names,
                            rows: bulk_rows(items@, names),
                            conflict: None,
                        },
                    ),
                )
            }
        },
        _ => Err(OrmError::InvalidRecordJson),
    }
}

/// The columns of the statement for a record.
fn record_names(entries: &Vec<(String, Json)>, key: Option<&String>, generated: bool) -> (r: Vec<
    String,
>)
    ensures
        names_of(r@) == record_columns(
            entries@,
            match key {
                Some(k) => Some(k@),
                None => None,
            },
            generated,
        ),
{
    let ghost key_view: Option<Seq<char>> = match key {
        Some(k) => Some(k@),
        None => None,
    };
    let mut columns: Vec<String> = Vec::new();
    let mut i: usize = 0;
    assert(entries@.take(0) =~= Seq::empty());
    while i < entries.len()
        invariant
            i <= entries.len(),
            key_view == match key {
                Some(k) => Some(k@),
                None => None,
            },
            names_of(columns@) =~= record_columns(entries@.take(i as int), key_view, generated),
        decreases entries.len() - i,
    {
        proof {
            assert(entries@.take(i as int + 1).drop_last() =~= entries@.take(i as int));
            assert(entries@.take(i as int + 1).last() == entries@[i as int]);
        }
        let is_key = names_key(key, &entries[i].0);
        let is_null = entries[i].1.is_null();
        if !(is_key && generated && is_null) {
            columns.push(entries[i].0.clone());
        }
        i = i + 1;
    }
    assert(entries@.take(i as int) =~= entries@);
    columns
}

/// The row of a record over the columns. Each value reads back from the
/// builder as itself.
fn row_of(record: &Json, columns: &Vec<String>) -> (r: Vec<SqlValue>)
    ensures
        views_of(r@) == bulk_row(*record, names_of(columns@)),
        read_back_as_they_are(views_of(r@)),
{
    let mut row: Vec<SqlValue> = Vec::new();
    let mut j: usize = 0;
    while j < columns.len()
        invariant
            j <= columns.len(),
            row@.len() == j,
            forall|k: int| 0 <= k < j ==> (#[trigger] row@[k])@ == cell_value(*record, columns@[k]@),
            forall|k: int| 0 <= k < j ==> bound_form((#[trigger] row@[k])@) == row@[k]@,
        decreases columns.len() - j,
    {
        let value = match record.get(columns[j].as_str()) {
            Some(v) => SqlValue::from_json(v),
            None => SqlValue::Null,
        };
        row.push(value);
        j = j + 1;
    }
    assert(views_of(row@) =~= bulk_row(*record, names_of(columns@)));
    assert forall|k: int| 0 <= k < views_of(row@).len() implies bound_form(
        #[trigger] views_of(row@)[k],
    ) == views_of(row@)[k] by {
        assert(views_of(row@)[k] == row@[k]@);
    }
    row
}

/// Compiles a JSON array of records into one `INSERT` with one row for
/// each record, over the columns of the first record; `None` where the
/// array is empty.
pub fn compile_save_bulk(model: &str, schema: &SchemaDocument, records: &Json) -> (r: Result<
    Option<Statement>,
    OrmError,
>)
    ensures
        match r {
            Ok(Some(st)) => bulk_plan(model@, schema.columns@, *records).is_ok() && bulk_plan(
                model@,
                schema.columns@,
                *records,
            ).unwrap().is_some() && st.sql@ == insert_sql(
                bulk_plan(model@, schema.columns@, *records).unwrap().unwrap(),
            ) && st.bind_views() == insert_binds(
                bulk_plan(model@, schema.columns@, *records).unwrap().unwrap(),
            ),
            Ok(None) => bulk_plan(model@, schema.columns@, *records) == Ok::<
                Option<InsertShape>,
                OrmError,
            >(None),
            Err(e) => bulk_plan(model@, schema.columns@, *records) == Err::<
                Option<InsertShape>,
                OrmError,
            >(e),
        },
{
    let items = match records {
        Json::Array(items) => items,
        _ => {
            return Err(OrmError::InvalidRecordJson);
        },
    };
    if items.len() == 0 {
        return Ok(None);
    }
    let (key, generated) = key_of(schema);
    let columns = match &items[0] {
        Json::Object(entries) => record_names(entries, key, generated),
        _ => {
            assert(!(items@[0] is Object));
            return Err(OrmError::InvalidRecordJson);
        },
    };
    let table = lowercase(model);
    let mut insert = insert_begin(table.as_str(), &columns);
    let ghost names = names_of(columns@);
    let mut i: usize = 0;
    assert(items@.take(0) =~= Seq::empty());
    while i < items.len()
        invariant
            i <= items.len(),
            *records == Json::Array(*items),
            names == names_of(columns@),
            insert_shape(insert).table == lowercased(model@),
            insert_shape(insert).columns == names,
            insert_shape(insert).conflict.is_none(),
            insert_shape(insert).rows == bulk_rows(items@.take(i as int), names),
            all_objects(items@.take(i as int)),
        decreases items.len() - i,
    {
        proof {
            assert(items@.take(i as int + 1).drop_last() =~= items@.take(i as int));
            assert(items@.take(i as int + 1).last() == items@[i as int]);
        }
        match &items[i] {
            Json::Object(_) => {},
            _ => {
                assert(!(items@[i as int] is Object));
                return Err(OrmError::InvalidRecordJson);
            },
        }
        let row = row_of(&items[i], &columns);
        proof {
            lemma_held_as_they_are(views_of(row@));
        }
        assert(views_of(row@).len() == row@.len());
        assert(names.len() == columns@.len());
        insert_row(&mut insert, &row);
        proof {
            assert forall|k: int| 0 <= k < i + 1 implies (#[trigger] items@.take(i as int + 1)[k]) is Object by {
                if k < i {
                    assert(items@.take(i as int)[k] is Object);
                }
            }
        }
        i = i + 1;
    }
    assert(items@.take(i as int) =~= items@);
    let built = insert_build(&insert);
    proof {
        let plan = bulk_plan(model@, schema.columns@, *records).unwrap().unwrap();
        assert(insert_shape(insert) == plan);
    }
    Ok(Some(Statement { sql: built.0, binds: built.1 }))
}

/// Whether the key that a statement reported must be asked for again: it
/// reported none, or zero.
pub fn needs_row_id_query(reported: Option<i64>) -> (r: bool)
    ensures
        r == (reported.is_none() || reported == Some(0i64)),
{
    match reported {
        Some(id) => id == 0,
        None => true,
    }
}

/// The generated key of a save: the key that the statement reported,
/// unless it reported none or zero and the query for the last inserted row
/// gave a positive key, which then stands in its place. `queried` is what
/// that query gave on the connection that ran the statement, `None` where
/// it was not run or failed.
pub fn resolve_generated_key(reported: Option<i64>, queried: Option<i64>) -> (r: Option<i64>)
    ensures
        r == if (reported.is_none() || reported == Some(0i64)) && queried.is_some()
            && queried.unwrap() > 0 {
            queried
        } else {
            reported
        },
{
    if needs_row_id_query(reported) {
        match queried {
            Some(id) => {
                if id > 0 {
                    return Some(id);
                }
            },
            None => {},
        }
    }
    reported
}

} // verus!
