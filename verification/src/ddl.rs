//! The compiler from schema documents to table and index definitions.
//!
//! Booleans get an integer column rather than the dialect's boolean type:
//! every driver reads and writes an integer the same way. Objects and arrays
//! get a text column that holds their JSON text.

use vstd::prelude::*;
use vstd::string::StringExecFns;
use sea_query::{
    Alias, ColumnDef, ForeignKey, ForeignKeyAction, Index, SqliteQueryBuilder, Table,
    TableCreateStatement,
};
use crate::schema::{Column, DeleteAction, Format, JsonType, SchemaDocument, json_type_from, json_type_named};
use crate::text::{lowercase, lowercased};

verus! {

/// `sea_query::ColumnDef`, carried through as an opaque value.
#[verifier::external_type_specification]
#[verifier::external_body]
pub struct ExColumnDef(ColumnDef);

/// `sea_query::TableCreateStatement`, carried through as an opaque value.
#[verifier::external_type_specification]
#[verifier::external_body]
pub struct ExTableCreateStatement(TableCreateStatement);

/// The type of a column of a table.
#[derive(Clone, Copy, Debug, PartialEq, Eq, Structural)]
pub enum ColumnKind {
    Integer,
    String,
    Double,
    Text,
    DateTime,
    Date,
    Uuid,
    Blob,
}

/// A constraint on a column of a table.
#[derive(Clone, Copy, Debug, PartialEq, Eq, Structural)]
pub enum ColumnFlag {
    PrimaryKey,
    AutoIncrement,
    UniqueKey,
}

/// What a column definition holds: its name, its type where one was set,
/// and its constraints in the order in which they were added.
pub struct ColumnShape {
    pub name: Seq<char>,
    pub kind: Option<ColumnKind>,
    pub flags: Seq<ColumnFlag>,
}

/// What a foreign-key clause holds.
pub struct ForeignKeyShape {
    pub from_table: Seq<char>,
    pub from_column: Seq<char>,
    pub to_table: Seq<char>,
    pub to_column: Seq<char>,
    pub on_delete: DeleteAction,
}

/// What a `CREATE TABLE IF NOT EXISTS` statement holds.
pub struct TableShape {
    pub name: Seq<char>,
    pub columns: Seq<ColumnShape>,
    pub foreign_keys: Seq<ForeignKeyShape>,
}

/// What a `ColumnDef` holds.
pub uninterp spec fn column_shape(c: ColumnDef) -> ColumnShape;

/// What a `TableCreateStatement` holds.
pub uninterp spec fn table_shape(t: TableCreateStatement) -> TableShape;

/// The SQLite text of a `CREATE TABLE IF NOT EXISTS` statement.
pub uninterp spec fn table_sql(shape: TableShape) -> Seq<char>;

/// The SQLite text of `CREATE INDEX IF NOT EXISTS` with the given name, on
/// one column of a table.
pub uninterp spec fn index_sql(name: Seq<char>, table: Seq<char>, column: Seq<char>) -> Seq<char>;

/// The column with its type set.
pub open spec fn with_kind(c: ColumnShape, kind: ColumnKind) -> ColumnShape {
    ColumnShape { name: c.name, kind: Some(kind), flags: c.flags }
}

/// The column with one more constraint.
pub open spec fn with_flag(c: ColumnShape, flag: ColumnFlag) -> ColumnShape {
    ColumnShape { name: c.name, kind: c.kind, flags: c.flags.push(flag) }
}

/// The table with one more column.
pub open spec fn with_column(t: TableShape, c: ColumnShape) -> TableShape {
    TableShape { name: t.name, columns: t.columns.push(c), foreign_keys: t.foreign_keys }
}

/// The table with one more foreign key.
pub open spec fn with_foreign_key(t: TableShape, fk: ForeignKeyShape) -> TableShape {
    TableShape { name: t.name, columns: t.columns, foreign_keys: t.foreign_keys.push(fk) }
}

/// `ColumnDef::new`: a column with a name, no type and no constraint.
#[verifier::external_body]
pub(crate) fn column_new(name: &str) -> (c: ColumnDef)
    ensures
        column_shape(c) == (ColumnShape { name: name@, kind: None, flags: Seq::empty() }),
{
    ColumnDef::new(Alias::new(name))
}

/// `ColumnDef::integer`: sets the type to integer.
#[verifier::external_body]
pub(crate) fn column_integer(c: &mut ColumnDef)
    ensures
        column_shape(*final(c)) == with_kind(column_shape(*old(c)), ColumnKind::Integer),
{
    c.integer();
}

/// `ColumnDef::string`: sets the type to variable text.
#[verifier::external_body]
pub(crate) fn column_string(c: &mut ColumnDef)
    ensures
        column_shape(*final(c)) == with_kind(column_shape(*old(c)), ColumnKind::String),
{
    c.string();
}

/// `ColumnDef::double`: sets the type to double-precision float.
#[verifier::external_body]
pub(crate) fn column_double(c: &mut ColumnDef)
    ensures
        column_shape(*final(c)) == with_kind(column_shape(*old(c)), ColumnKind::Double),
{
    c.double();
}

/// `ColumnDef::text`: sets the type to text.
#[verifier::external_body]
pub(crate) fn column_text(c: &mut ColumnDef)
    ensures
        column_shape(*final(c)) == with_kind(column_shape(*old(c)), ColumnKind::Text),
{
    c.text();
}

/// `ColumnDef::date_time`: sets the type to date-time.
#[verifier::external_body]
pub(crate) fn column_date_time(c: &mut ColumnDef)
    ensures
        column_shape(*final(c)) == with_kind(column_shape(*old(c)), ColumnKind::DateTime),
{
    c.date_time();
}

/// `ColumnDef::date`: sets the type to date.
#[verifier::external_body]
pub(crate) fn column_date(c: &mut ColumnDef)
    ensures
        column_shape(*final(c)) == with_kind(column_shape(*old(c)), ColumnKind::Date),
{
    c.date();
}

/// `ColumnDef::uuid`: sets the type to UUID.
#[verifier::external_body]
pub(crate) fn column_uuid(c: &mut ColumnDef)
    ensures
        column_shape(*final(c)) == with_kind(column_shape(*old(c)), ColumnKind::Uuid),
{
    c.uuid();
}

/// `ColumnDef::blob`: sets the type to blob.
#[verifier::external_body]
pub(crate) fn column_blob(c: &mut ColumnDef)
    ensures
        column_shape(*final(c)) == with_kind(column_shape(*old(c)), ColumnKind::Blob),
{
    c.blob();
}

/// `ColumnDef::primary_key`: adds the primary-key constraint.
#[verifier::external_body]
pub(crate) fn column_primary_key(c: &mut ColumnDef)
    ensures
        column_shape(*final(c)) == with_flag(column_shape(*old(c)), ColumnFlag::PrimaryKey),
{
    c.primary_key();
}

/// `ColumnDef::auto_increment`: adds the auto-increment modifier.
#[verifier::external_body]
pub(crate) fn column_auto_increment(c: &mut ColumnDef)
    ensures
        column_shape(*final(c)) == with_flag(column_shape(*old(c)), ColumnFlag::AutoIncrement),
{
    c.auto_increment();
}

/// `ColumnDef::unique_key`: adds the unique constraint.
#[verifier::external_body]
pub(crate) fn column_unique_key(c: &mut ColumnDef)
    ensures
        column_shape(*final(c)) == with_flag(column_shape(*old(c)), ColumnFlag::UniqueKey),
{
    c.unique_key();
}

/// `Table::create().table(..).if_not_exists()`: a table with a name, no
/// column and no foreign key.
#[verifier::external_body]
pub(crate) fn table_new(name: &str) -> (t: TableCreateStatement)
    ensures
        table_shape(t) == (TableShape { name: name@, columns: Seq::empty(), foreign_keys: Seq::empty() }),
{
    Table::create().table(Alias::new(name)).if_not_exists().to_owned()
}

/// `TableCreateStatement::col`: the column becomes the last column.
#[verifier::external_body]
pub(crate) fn table_col(t: &mut TableCreateStatement, c: ColumnDef)
    ensures
        table_shape(*final(t)) == with_column(table_shape(*old(t)), column_shape(c)),
{
    t.col(c);
}

/// `TableCreateStatement::foreign_key` with a `ForeignKey::create()` from
/// one column to one column and a delete action: the clause becomes the
/// last foreign key.
#[verifier::external_body]
pub(crate) fn table_foreign_key(
    t: &mut TableCreateStatement,
    from_table: &str,
    from_column: &str,
    to_table: &str,
    to_column: &str,
    on_delete: DeleteAction,
)
    ensures
        table_shape(*final(t)) == with_foreign_key(
            table_shape(*old(t)),
            ForeignKeyShape {
                from_table: from_table@,
                from_column: from_column@,
                to_table: to_table@,
                to_column: to_column@,
                on_delete,
            },
        ),
{
    let action = match on_delete {
        DeleteAction::Cascade => ForeignKeyAction::Cascade,
        DeleteAction::Restrict => ForeignKeyAction::Restrict,
        DeleteAction::SetNull => ForeignKeyAction::SetNull,
        DeleteAction::SetDefault => ForeignKeyAction::SetDefault,
        DeleteAction::NoAction => ForeignKeyAction::NoAction,
    };
    let mut fk = ForeignKey::create();
    fk.from(Alias::new(from_table), Alias::new(from_column)).to(Alias::new(to_table), Alias::new(to_column)).on_delete(action);
    t.foreign_key(&mut fk);
}

/// `TableCreateStatement::build` for SQLite: the text of the statement's
/// shape.
#[verifier::external_body]
pub(crate) fn table_build(t: &TableCreateStatement) -> (sql: String)
    ensures
        sql@ == table_sql(table_shape(*t)),
{
    t.build(SqliteQueryBuilder)
}

/// `Index::create().name(..).table(..).col(..).if_not_exists()` written for
/// SQLite: the text of the index with that name on that column.
#[verifier::external_body]
pub(crate) fn index_build(name: &str, table: &str, column: &str) -> (sql: String)
    ensures
        sql@ == index_sql(name@, table@, column@),
{
    Index::create().name(name).table(Alias::new(table)).col(Alias::new(column)).if_not_exists().to_string(SqliteQueryBuilder)
}

/// The column type of a JSON type without a format: integers and booleans
/// are integers, strings and unknown types are variable text, numbers are
/// doubles, objects and arrays are text.
pub open spec fn kind_of_type(t: JsonType) -> ColumnKind {
    match t {
        JsonType::Integer => ColumnKind::Integer,
        JsonType::String => ColumnKind::String,
        JsonType::Number => ColumnKind::Double,
        JsonType::Boolean => ColumnKind::Integer,
        JsonType::Object => ColumnKind::Text,
        JsonType::Array => ColumnKind::Text,
        JsonType::Other => ColumnKind::String,
    }
}

/// The column type of a column: a string with a format has the format's
/// type, any other typed column the type of its JSON type, a column without
/// a type none.
pub open spec fn kind_of_column(c: Column) -> Option<ColumnKind> {
    match c.json_type {
        None => None,
        Some(t) => Some(
            match (t, c.format) {
                (JsonType::String, Some(Format::DateTime)) => ColumnKind::DateTime,
                (JsonType::String, Some(Format::Date)) => ColumnKind::Date,
                (JsonType::String, Some(Format::Uuid)) => ColumnKind::Uuid,
                (JsonType::String, Some(Format::Binary)) => ColumnKind::Blob,
                _ => kind_of_type(t),
            },
        ),
    }
}

/// The constraints of a column: primary key, then auto-increment where the
/// key has it, then unique.
pub open spec fn flags_of_column(c: Column) -> Seq<ColumnFlag> {
    let key = if c.is_primary_key {
        if c.is_autoincrement {
            seq![ColumnFlag::PrimaryKey, ColumnFlag::AutoIncrement]
        } else {
            seq![ColumnFlag::PrimaryKey]
        }
    } else {
        Seq::empty()
    };
    if c.is_unique {
        key.push(ColumnFlag::UniqueKey)
    } else {
        key
    }
}

/// The definition of a column.
pub open spec fn column_plan(c: Column) -> ColumnShape {
    ColumnShape { name: c.name@, kind: kind_of_column(c), flags: flags_of_column(c) }
}

/// The foreign keys of the columns of a table, in the columns' order.
pub open spec fn foreign_keys_of(table: Seq<char>, columns: Seq<Column>) -> Seq<ForeignKeyShape>
    decreases columns.len(),
{
    if columns.len() == 0 {
        Seq::empty()
    } else {
        let rest = foreign_keys_of(table, columns.drop_last());
        match columns.last().foreign_key {
            Some(fk) => rest.push(
                ForeignKeyShape {
                    from_table: table,
                    from_column: columns.last().name@,
                    to_table: fk.to_table@,
                    to_column: fk.to_column@,
                    on_delete: fk.on_delete,
                },
            ),
            None => rest,
        }
    }
}

/// The name of the index on a column of a table.
pub open spec fn index_name(table: Seq<char>, column: Seq<char>) -> Seq<char> {
    "idx_"@ + table + "_"@ + column
}

/// The index statements of the indexed columns of a table, in the columns'
/// order.
pub open spec fn index_texts(table: Seq<char>, columns: Seq<Column>) -> Seq<Seq<char>>
    decreases columns.len(),
{
    if columns.len() == 0 {
        Seq::empty()
    } else {
        let rest = index_texts(table, columns.drop_last());
        if columns.last().is_indexed {
            rest.push(index_sql(index_name(table, columns.last().name@), table, columns.last().name@))
        } else {
            rest
        }
    }
}

/// The table of a model: named by the model's name in lower case, with
/// one column for each column of the schema.
pub open spec fn table_plan(model: Seq<char>, columns: Seq<Column>) -> TableShape {
    TableShape {
        name: lowercased(model),
        columns: columns.map_values(|c: Column| column_plan(c)),
        foreign_keys: foreign_keys_of(lowercased(model), columns),
    }
}

/// The statements that create the table of a model and its indexes.
#[derive(Clone, Debug, PartialEq, Eq)]
pub struct CreatePlan {
    pub table: String,
    pub indexes: Vec<String>,
}

impl CreatePlan {
    /// The texts of the index statements.
    pub open spec fn index_views(&self) -> Seq<Seq<char>> {
        self.indexes@.map_values(|s: String| s@)
    }
}

fn apply_json_type(col_def: &mut ColumnDef, t: JsonType)
    ensures
        column_shape(*final(col_def)) == with_kind(column_shape(*old(col_def)), kind_of_type(t)),
{
    match t {
        JsonType::Integer => column_integer(col_def),
        JsonType::String => column_string(col_def),
        JsonType::Number => column_double(col_def),
        JsonType::Boolean => column_integer(col_def),
        JsonType::Object => column_text(col_def),
        JsonType::Array => column_text(col_def),
        JsonType::Other => column_string(col_def),
    }
}

/// Sets the type of a column definition from the name of a JSON type.
pub fn json_type_to_sea_query(col_def: &mut ColumnDef, json_type: &str)
    ensures
        column_shape(*final(col_def)) == with_kind(
            column_shape(*old(col_def)),
            kind_of_type(json_type_named(json_type@)),
        ),
{
    let name = json_type.to_owned();
    apply_json_type(col_def, json_type_from(&name));
}

/// The definition of one column.
fn define_column(c: &Column) -> (def: ColumnDef)
    ensures
        column_shape(def) == column_plan(*c),
{
    let mut def = column_new(c.name.as_str());
    match c.json_type {
        Some(t) => match (t, c.format) {
            (JsonType::String, Some(Format::DateTime)) => column_date_time(&mut def),
            (JsonType::String, Some(Format::Date)) => column_date(&mut def),
            (JsonType::String, Some(Format::Uuid)) => column_uuid(&mut def),
            (JsonType::String, Some(Format::Binary)) => column_blob(&mut def),
            _ => apply_json_type(&mut def, t),
        },
        None => {},
    }
    if c.is_primary_key {
        column_primary_key(&mut def);
        if c.is_autoincrement {
            column_auto_increment(&mut def);
        }
    }
    if c.is_unique {
        column_unique_key(&mut def);
    }
    proof {
        assert(column_shape(def).flags =~= flags_of_column(*c));
    }
    def
}

/// Compiles a schema into the statement that creates the model's table if
/// it does not exist, with its columns and foreign keys, and one statement
/// for each indexed column that creates the index `idx_{table}_{column}`
/// if it does not exist.
pub fn compile_create(model: &str, schema: &SchemaDocument) -> (plan: CreatePlan)
    ensures
        plan.table@ == table_sql(table_plan(model@, schema.columns@)),
        plan.index_views() == index_texts(lowercased(model@), schema.columns@),
{
    let table = lowercase(model);
    let mut statement = table_new(table.as_str());
    let mut indexes: Vec<String> = Vec::new();
    let mut i: usize = 0;
    let ghost all = schema.columns@;
    assert(all.take(0) =~= Seq::empty());
    while i < schema.columns.len()
        invariant
            i <= schema.columns.len(),
            all == schema.columns@,
            table@ == lowercased(model@),
            table_shape(statement).name == table@,
            table_shape(statement).columns =~= all.take(i as int).map_values(
                |c: Column| column_plan(c),
            ),
            table_shape(statement).foreign_keys == foreign_keys_of(table@, all.take(i as int)),
            indexes@.map_values(|s: String| s@) =~= index_texts(table@, all.take(i as int)),
        decreases schema.columns.len() - i,
    {
        let column = &schema.columns[i];
        proof {
            assert(all.take(i as int + 1).drop_last() =~= all.take(i as int));
            assert(all.take(i as int + 1).last() == all[i as int]);
        }
        let def = define_column(column);
        if column.is_indexed {
            let mut name = String::from_str("idx_");
            name.append(table.as_str());
            name.append("_");
            name.append(column.name.as_str());
            indexes.push(index_build(name.as_str(), table.as_str(), column.name.as_str()));
        }
        table_col(&mut statement, def);
        match &column.foreign_key {
            Some(fk) => {
                table_foreign_key(
                    &mut statement,
                    table.as_str(),
                    column.name.as_str(),
                    fk.to_table.as_str(),
                    fk.to_column.as_str(),
                    fk.on_delete,
                );
            },
            None => {},
        }
        i = i + 1;
    }
    proof {
        assert(all.take(i as int) =~= all);
        assert(table_shape(statement) == table_plan(model@, schema.columns@));
    }
    let sql = table_build(&statement);
    CreatePlan { table: sql, indexes }
}

} // verus!
