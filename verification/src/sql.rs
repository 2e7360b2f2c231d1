//! The statement builder of `sea_query`, as the compiler uses it: the
//! builder's values are opaque, each has a shape that says what it holds,
//! and the SQL text of a statement is a function of its shape.

use vstd::prelude::*;
use sea_query::{
    Alias, Asterisk, Condition, Expr, InsertStatement, OnConflict, Order, Query, SelectStatement,
    SimpleExpr, SqliteQueryBuilder, UpdateStatement,
};
use crate::value::{SqlValue, SqlValueView, views_of};

verus! {

/// `sea_query::Condition`, carried through as an opaque value.
#[verifier::external_type_specification]
#[verifier::external_body]
pub struct ExCondition(Condition);

/// `sea_query::SimpleExpr`, carried through as an opaque value.
#[verifier::external_type_specification]
#[verifier::external_body]
pub struct ExSimpleExpr(SimpleExpr);

/// `sea_query::SelectStatement`, carried through as an opaque value.
#[verifier::external_type_specification]
#[verifier::external_body]
pub struct ExSelectStatement(SelectStatement);

/// `sea_query::UpdateStatement`, carried through as an opaque value.
#[verifier::external_type_specification]
#[verifier::external_body]
pub struct ExUpdateStatement(UpdateStatement);

/// `sea_query::InsertStatement`, carried through as an opaque value.
#[verifier::external_type_specification]
#[verifier::external_body]
pub struct ExInsertStatement(InsertStatement);

/// `sea_query::Value`, carried through as an opaque value.
#[verifier::external_type_specification]
#[verifier::external_body]
pub struct ExSeaValue(sea_query::Value);

/// `sea_query::Values`, carried through as an opaque value.
#[verifier::external_type_specification]
#[verifier::external_body]
pub struct ExSeaValues(sea_query::Values);

/// A comparison operator of a simple predicate.
#[derive(Clone, Copy, Debug, PartialEq, Eq, Structural)]
pub enum CompareOp {
    Eq,
    Ne,
    Lt,
    Le,
    Gt,
    Ge,
}

/// The direction of an ordering clause.
#[derive(Clone, Copy, Debug, PartialEq, Eq, Structural)]
pub enum Direction {
    Asc,
    Desc,
}

/// What a predicate on one column holds. A value is given as it reads back
/// from the builder: a double with the text that its float is written
/// with, anything else as itself.
pub enum Predicate {
    Compare { column: Seq<char>, op: CompareOp, value: SqlValueView },
    IsIn { column: Seq<char>, values: Seq<SqlValueView> },
    Like { column: Seq<char>, pattern: Seq<char> },
}

/// What a condition holds: its members, whether any or all of them must
/// hold, and whether it is negated.
pub struct Group {
    pub any: bool,
    pub negated: bool,
    pub items: Seq<Filter>,
}

/// A member of a condition.
pub enum Filter {
    Nested(Group),
    Test(Predicate),
}

/// What a `SELECT` statement holds. `counter` is the expression selected in
/// place of all columns, where there is one; `filter` is the condition of
/// its `WHERE`, where it has one.
pub struct SelectShape {
    pub counter: Option<Seq<char>>,
    pub table: Seq<char>,
    pub filter: Option<Group>,
    pub orders: Seq<(Seq<char>, Direction)>,
    pub limit: Option<u64>,
    pub offset: Option<u64>,
}

/// What an `UPDATE` statement holds, each assigned value as it reads back
/// from the builder.
pub struct UpdateShape {
    pub table: Seq<char>,
    pub filter: Group,
    pub assignments: Seq<(Seq<char>, SqlValueView)>,
}

/// What an `INSERT` statement holds, each value of a row as it reads back
/// from the builder. `conflict` is the key column and the columns to
/// overwrite when a row with that key exists.
pub struct InsertShape {
    pub table: Seq<char>,
    pub columns: Seq<Seq<char>>,
    pub rows: Seq<Seq<SqlValueView>>,
    pub conflict: Option<(Seq<char>, Seq<Seq<char>>)>,
}

/// What a `Condition` holds.
pub uninterp spec fn condition_shape(c: Condition) -> Group;

/// What a `SimpleExpr` made by one of the predicate constructors holds.
pub uninterp spec fn expr_shape(e: SimpleExpr) -> Predicate;

/// What a `SelectStatement` holds.
pub uninterp spec fn select_shape(s: SelectStatement) -> SelectShape;

/// What an `UpdateStatement` holds.
pub uninterp spec fn update_shape(s: UpdateStatement) -> UpdateShape;

/// What an `InsertStatement` holds.
pub uninterp spec fn insert_shape(s: InsertStatement) -> InsertShape;

/// The SQLite text of a `SELECT` statement.
pub uninterp spec fn select_sql(shape: SelectShape) -> Seq<char>;

/// The SQLite text of an `UPDATE` statement.
pub uninterp spec fn update_sql(shape: UpdateShape) -> Seq<char>;

/// The SQLite text of an `INSERT` statement.
pub uninterp spec fn insert_sql(shape: InsertShape) -> Seq<char>;

/// The SQLite text of a `DELETE` from a table under a condition.
pub uninterp spec fn delete_sql(table: Seq<char>, filter: Group) -> Seq<char>;

/// What a `sea_query::Value` reads back as: a double as the text that
/// `to_string` writes for its float, a value of another kind that the
/// compiler makes as itself, anything else as null.
pub uninterp spec fn value_form(v: sea_query::Value) -> SqlValueView;

/// What the double of a decimal text reads back as: the text is read as a
/// 64-bit float with `str::parse` and held in a `sea_query::Value::Double`,
/// which holds nothing where the text is no float.
pub uninterp spec fn double_form(text: Seq<char>) -> SqlValueView;

/// What a value reads back as once the builder has held it.
pub open spec fn bound_form(v: SqlValueView) -> SqlValueView {
    match v {
        SqlValueView::Double(t) => double_form(t),
        _ => v,
    }
}

/// What each of the values reads back as once the builder has held it.
pub open spec fn bound_forms(values: Seq<SqlValueView>) -> Seq<SqlValueView> {
    values.map_values(|v: SqlValueView| bound_form(v))
}

/// Whether each of the values reads back from the builder as itself.
pub open spec fn read_back_as_they_are(values: Seq<SqlValueView>) -> bool {
    forall|k: int| 0 <= k < values.len() ==> bound_form(#[trigger] values[k]) == values[k]
}

/// Values that read back as themselves are what the builder holds of them.
pub proof fn lemma_held_as_they_are(values: Seq<SqlValueView>)
    requires
        read_back_as_they_are(values),
    ensures
        bound_forms(values) == values,
{
    assert(bound_forms(values) =~= values);
}

/// The group with no member.
pub open spec fn empty_group(any: bool) -> Group {
    Group { any, negated: false, items: Seq::empty() }
}

/// The group `g` after a predicate was added to it.
pub open spec fn group_with_test(g: Group, p: Predicate) -> Group {
    Group { any: g.any, negated: g.negated, items: g.items.push(Filter::Test(p)) }
}

/// The group `g` after the group `child` was added to it: a child with one
/// member that is not negated is replaced by that member.
pub open spec fn group_with_child(g: Group, child: Group) -> Group {
    let member = if child.items.len() == 1 && !child.negated {
        child.items[0]
    } else {
        Filter::Nested(child)
    };
    Group { any: g.any, negated: g.negated, items: g.items.push(member) }
}

/// The values that a predicate binds, in the order of its placeholders.
/// `IN` over no value is written as the comparison of the constants 1 and
/// 2, which are bound too.
pub open spec fn predicate_binds(p: Predicate) -> Seq<SqlValueView> {
    match p {
        Predicate::Compare { value, .. } => seq![value],
        Predicate::IsIn { values, .. } => if values.len() == 0 {
            seq![SqlValueView::Int(1), SqlValueView::Int(2)]
        } else {
            values
        },
        Predicate::Like { pattern, .. } => seq![SqlValueView::Text(pattern)],
    }
}

/// The values that the members of a condition bind, from left to right.
pub open spec fn items_binds(items: Seq<Filter>) -> Seq<SqlValueView>
    decreases items, 0int,
{
    if items.len() == 0 {
        Seq::empty()
    } else {
        items_binds(items.drop_last()) + filter_binds(items.last())
    }
}

/// The values that one member of a condition binds.
pub open spec fn filter_binds(f: Filter) -> Seq<SqlValueView>
    decreases f, 1int,
{
    match f {
        Filter::Nested(g) => items_binds(g.items),
        Filter::Test(p) => predicate_binds(p),
    }
}

/// The values that a `SELECT` binds: those of its condition, then its
/// limit, then its offset.
pub open spec fn select_binds(shape: SelectShape) -> Seq<SqlValueView> {
    let filter = match shape.filter {
        Some(g) => items_binds(g.items),
        None => Seq::empty(),
    };
    let limit = match shape.limit {
        Some(n) => seq![SqlValueView::BigUnsigned(n)],
        None => Seq::empty(),
    };
    let offset = match shape.offset {
        Some(n) => seq![SqlValueView::BigUnsigned(n)],
        None => Seq::empty(),
    };
    filter + limit + offset
}

/// The values that an `UPDATE` binds: those assigned, then those of its
/// condition.
pub open spec fn update_binds(shape: UpdateShape) -> Seq<SqlValueView> {
    shape.assignments.map_values(|a: (Seq<char>, SqlValueView)| a.1) + items_binds(
        shape.filter.items,
    )
}

/// The values that an `INSERT` binds: its rows, one after the other.
pub open spec fn insert_binds(shape: InsertShape) -> Seq<SqlValueView> {
    shape.rows.flatten()
}

/// The views of a list of names.
pub open spec fn names_of(names: Seq<String>) -> Seq<Seq<char>> {
    names.map_values(|n: String| n@)
}

/// Turns a bound value into a `sea_query::Value`, variant by variant; the
/// text of a double is read with `str::parse`.
#[verifier::external_body]
fn sea_value(v: &SqlValue) -> sea_query::Value {
    match v {
        SqlValue::Bool(b) => sea_query::Value::Bool(Some(*b)),
        SqlValue::Int(i) => sea_query::Value::Int(Some(*i)),
        SqlValue::BigInt(i) => sea_query::Value::BigInt(Some(*i)),
        SqlValue::BigUnsigned(u) => sea_query::Value::BigUnsigned(Some(*u)),
        SqlValue::Double(t) => sea_query::Value::Double(t.parse().ok()),
        SqlValue::Text(t) => sea_query::Value::String(Some(Box::new(t.clone()))),
        SqlValue::Null => sea_query::Value::String(None),
    }
}

/// Turns one `sea_query::Value` into a bound value, variant by variant; a
/// double is written with `to_string`; a variant that holds nothing, or
/// that the compiler never makes, gives `Null`. The result is what the
/// value reads back as, and holding it in the builder once more changes
/// nothing: the text that `to_string` writes for a float reads as that
/// float again.
#[verifier::external_body]
fn own_value(v: sea_query::Value) -> (r: SqlValue)
    ensures
        r@ == value_form(v),
        bound_form(r@) == r@,
{
    match v {
        sea_query::Value::Bool(Some(b)) => SqlValue::Bool(b),
        sea_query::Value::Int(Some(i)) => SqlValue::Int(i),
        sea_query::Value::BigInt(Some(i)) => SqlValue::BigInt(i),
        sea_query::Value::BigUnsigned(Some(u)) => SqlValue::BigUnsigned(u),
        sea_query::Value::Double(Some(d)) => SqlValue::Double(d.to_string()),
        sea_query::Value::String(Some(s)) => SqlValue::Text(*s),
        _ => SqlValue::Null,
    }
}

/// Turns the values that a build returns into bound values, in order.
#[verifier::external_body]
fn own_values(values: sea_query::Values) -> Vec<SqlValue> {
    values.0.into_iter().map(own_value).collect()
}

/// `str::parse` at the type of `sea_query::Value::Double`: the double of a
/// decimal text as the builder holds it. What it reads back as is the named
/// form of the text.
#[verifier::external_body]
fn sea_double(text: &str) -> (v: sea_query::Value)
    ensures
        value_form(v) == double_form(text@),
{
    sea_query::Value::Double(text.parse().ok())
}

/// The double of a decimal text as it reads back from the builder. Holding
/// the result in the builder once more changes nothing.
pub fn double_value(text: &str) -> (r: SqlValue)
    ensures
        r@ == double_form(text@),
        bound_form(r@) == r@,
{
    own_value(sea_double(text))
}

/// `Condition::all`: a condition with no member, of which all must hold.
#[verifier::external_body]
pub(crate) fn cond_all() -> (c: Condition)
    ensures
        condition_shape(c) == empty_group(false),
{
    Condition::all()
}

/// `Condition::any`: a condition with no member, of which any must hold.
#[verifier::external_body]
pub(crate) fn cond_any() -> (c: Condition)
    ensures
        condition_shape(c) == empty_group(true),
{
    Condition::any()
}

/// `Condition::add` with a predicate: the predicate becomes the last member.
#[verifier::external_body]
pub(crate) fn cond_add_test(c: Condition, e: SimpleExpr) -> (r: Condition)
    ensures
        condition_shape(r) == group_with_test(condition_shape(c), expr_shape(e)),
{
    c.add(e)
}

/// `Condition::add` with a condition: the child becomes the last member,
/// or its only member does where it has just one and is not negated.
#[verifier::external_body]
pub(crate) fn cond_add_child(c: Condition, child: Condition) -> (r: Condition)
    ensures
        condition_shape(r) == group_with_child(condition_shape(c), condition_shape(child)),
{
    c.add(child)
}

/// `Expr::col(..).eq(..)`: the column compared for equality with a value,
/// which the expression holds as the builder reads it back.
#[verifier::external_body]
pub(crate) fn expr_eq(column: &str, value: &SqlValue) -> (e: SimpleExpr)
    ensures
        expr_shape(e) == (Predicate::Compare {
            column: column@,
            op: CompareOp::Eq,
            value: bound_form(value@),
        }),
{
    Expr::col(Alias::new(column)).eq(sea_value(value))
}

/// `Expr::col(..).ne(..)`: the column compared for inequality with a value,
/// which the expression holds as the builder reads it back.
#[verifier::external_body]
pub(crate) fn expr_ne(column: &str, value: &SqlValue) -> (e: SimpleExpr)
    ensures
        expr_shape(e) == (Predicate::Compare {
            column: column@,
            op: CompareOp::Ne,
            value: bound_form(value@),
        }),
{
    Expr::col(Alias::new(column)).ne(sea_value(value))
}

/// `Expr::col(..).lt(..)`: the column compared as less than a value, which
/// the expression holds as the builder reads it back.
#[verifier::external_body]
pub(crate) fn expr_lt(column: &str, value: &SqlValue) -> (e: SimpleExpr)
    ensures
        expr_shape(e) == (Predicate::Compare {
            column: column@,
            op: CompareOp::Lt,
            value: bound_form(value@),
        }),
{
    Expr::col(Alias::new(column)).lt(sea_value(value))
}

/// `Expr::col(..).lte(..)`: the column compared as at most a value, which
/// the expression holds as the builder reads it back.
#[verifier::external_body]
pub(crate) fn expr_lte(column: &str, value: &SqlValue) -> (e: SimpleExpr)
    ensures
        expr_shape(e) == (Predicate::Compare {
            column: column@,
            op: CompareOp::Le,
            value: bound_form(value@),
        }),
{
    Expr::col(Alias::new(column)).lte(sea_value(value))
}

/// `Expr::col(..).gt(..)`: the column compared as greater than a value,
/// which the expression holds as the builder reads it back.
#[verifier::external_body]
pub(crate) fn expr_gt(column: &str, value: &SqlValue) -> (e: SimpleExpr)
    ensures
        expr_shape(e) == (Predicate::Compare {
            column: column@,
            op: CompareOp::Gt,
            value: bound_form(value@),
        }),
{
    Expr::col(Alias::new(column)).gt(sea_value(value))
}

/// `Expr::col(..).gte(..)`: the column compared as at least a value, which
/// the expression holds as the builder reads it back.
#[verifier::external_body]
pub(crate) fn expr_gte(column: &str, value: &SqlValue) -> (e: SimpleExpr)
    ensures
        expr_shape(e) == (Predicate::Compare {
            column: column@,
            op: CompareOp::Ge,
            value: bound_form(value@),
        }),
{
    Expr::col(Alias::new(column)).gte(sea_value(value))
}

/// `Expr::col(..).is_in(..)`: the column tested for membership in a list of
/// values, kept in their order, each held as the builder reads it back.
#[verifier::external_body]
pub(crate) fn expr_is_in(column: &str, values: &Vec<SqlValue>) -> (e: SimpleExpr)
    ensures
        expr_shape(e) == (Predicate::IsIn {
            column: column@,
            values: bound_forms(views_of(values@)),
        }),
{
    Expr::col(Alias::new(column)).is_in(values.iter().map(sea_value))
}

/// `Expr::col(..).like(..)`: the column matched against a pattern, which is
/// passed on as it is.
#[verifier::external_body]
pub(crate) fn expr_like(column: &str, pattern: &str) -> (e: SimpleExpr)
    ensures
        expr_shape(e) == (Predicate::Like { column: column@, pattern: pattern@ }),
{
    Expr::col(Alias::new(column)).like(pattern)
}

/// `Query::select().column(Asterisk).from(..)`: all columns of a table,
/// with no condition, ordering, limit or offset.
#[verifier::external_body]
pub(crate) fn select_table(table: &str) -> (s: SelectStatement)
    ensures
        select_shape(s).counter.is_none(),
        select_shape(s).table == table@,
        select_shape(s).filter.is_none(),
        select_shape(s).orders.len() == 0,
        select_shape(s).limit.is_none(),
        select_shape(s).offset.is_none(),
{
    Query::select().column(Asterisk).from(Alias::new(table)).to_owned()
}

/// `Query::select().column(Asterisk).from(..).cond_where(..)`: all columns
/// of a table under a condition, with no ordering, limit or offset.
#[verifier::external_body]
pub(crate) fn select_rows(table: &str, c: Condition) -> (s: SelectStatement)
    ensures
        select_shape(s).counter.is_none(),
        select_shape(s).table == table@,
        select_shape(s).filter == Some(condition_shape(c)),
        select_shape(s).orders.len() == 0,
        select_shape(s).limit.is_none(),
        select_shape(s).offset.is_none(),
{
    Query::select().column(Asterisk).from(Alias::new(table)).cond_where(c).to_owned()
}

/// `Query::select().expr(Expr::cust(..)).from(..).cond_where(..)`: one
/// custom expression over a table under a condition.
#[verifier::external_body]
pub(crate) fn select_counter(table: &str, counter: &str, c: Condition) -> (s: SelectStatement)
    ensures
        select_shape(s).counter == Some(counter@),
        select_shape(s).table == table@,
        select_shape(s).filter == Some(condition_shape(c)),
        select_shape(s).orders.len() == 0,
        select_shape(s).limit.is_none(),
        select_shape(s).offset.is_none(),
{
    Query::select().expr(Expr::cust(counter)).from(Alias::new(table)).cond_where(c).to_owned()
}

/// `SelectStatement::order_by`: one more ordering clause, after those that
/// are there.
#[verifier::external_body]
pub(crate) fn select_order(s: &mut SelectStatement, column: &str, direction: Direction)
    ensures
        select_shape(*final(s)).orders == select_shape(*old(s)).orders.push((column@, direction)),
        select_shape(*final(s)).counter == select_shape(*old(s)).counter,
        select_shape(*final(s)).table == select_shape(*old(s)).table,
        select_shape(*final(s)).filter == select_shape(*old(s)).filter,
        select_shape(*final(s)).limit == select_shape(*old(s)).limit,
        select_shape(*final(s)).offset == select_shape(*old(s)).offset,
{
    let order = match direction {
        Direction::Asc => Order::Asc,
        Direction::Desc => Order::Desc,
    };
    s.order_by(Alias::new(column), order);
}

/// `SelectStatement::limit`: sets the limit.
#[verifier::external_body]
pub(crate) fn select_limit(s: &mut SelectStatement, n: u64)
    ensures
        select_shape(*final(s)).limit == Some(n),
        select_shape(*final(s)).orders == select_shape(*old(s)).orders,
        select_shape(*final(s)).counter == select_shape(*old(s)).counter,
        select_shape(*final(s)).table == select_shape(*old(s)).table,
        select_shape(*final(s)).filter == select_shape(*old(s)).filter,
        select_shape(*final(s)).offset == select_shape(*old(s)).offset,
{
    s.limit(n);
}

/// `SelectStatement::offset`: sets the offset.
#[verifier::external_body]
pub(crate) fn select_offset(s: &mut SelectStatement, n: u64)
    ensures
        select_shape(*final(s)).offset == Some(n),
        select_shape(*final(s)).orders == select_shape(*old(s)).orders,
        select_shape(*final(s)).counter == select_shape(*old(s)).counter,
        select_shape(*final(s)).table == select_shape(*old(s)).table,
        select_shape(*final(s)).filter == select_shape(*old(s)).filter,
        select_shape(*final(s)).limit == select_shape(*old(s)).limit,
{
    s.offset(n);
}

/// `SelectStatement::build` for SQLite: the text is that of the statement's
/// shape, and the values are those that it binds, in the order of the
/// placeholders.
#[verifier::external_body]
pub(crate) fn select_build(s: &SelectStatement) -> (r: (String, Vec<SqlValue>))
    ensures
        r.0@ == select_sql(select_shape(*s)),
        views_of(r.1@) == select_binds(select_shape(*s)),
{
    let (sql, values) = s.build(SqliteQueryBuilder);
    (sql, own_values(values))
}

/// `Query::delete().from_table(..).cond_where(..).build(..)` for SQLite:
/// the text is that of a delete from the table under the condition, the
/// values are those of the condition.
#[verifier::external_body]
pub(crate) fn delete_build(table: &str, c: Condition) -> (r: (String, Vec<SqlValue>))
    ensures
        r.0@ == delete_sql(table@, condition_shape(c)),
        views_of(r.1@) == items_binds(condition_shape(c).items),
{
    let (sql, values) = Query::delete().from_table(Alias::new(table)).cond_where(c).build(SqliteQueryBuilder);
    (sql, own_values(values))
}

/// `UpdateStatement::new().table(..).cond_where(..)`: an update of a table
/// under a condition, with no assignment yet.
#[verifier::external_body]
pub(crate) fn update_begin(table: &str, c: Condition) -> (s: UpdateStatement)
    ensures
        update_shape(s).table == table@,
        update_shape(s).filter == condition_shape(c),
        update_shape(s).assignments.len() == 0,
{
    UpdateStatement::new().table(Alias::new(table)).cond_where(c).to_owned()
}

/// `UpdateStatement::value`: one more assignment, after those that are
/// there; its value is held as the builder reads it back.
#[verifier::external_body]
pub(crate) fn update_set(s: &mut UpdateStatement, column: &str, value: &SqlValue)
    ensures
        update_shape(*final(s)).assignments == update_shape(*old(s)).assignments.push(
            (column@, bound_form(value@)),
        ),
        update_shape(*final(s)).table == update_shape(*old(s)).table,
        update_shape(*final(s)).filter == update_shape(*old(s)).filter,
{
    s.value(Alias::new(column), Expr::value(sea_value(value)));
}

/// `UpdateStatement::build` for SQLite: the text is that of the statement's
/// shape, and the values are those that it binds, in the order of the
/// placeholders.
#[verifier::external_body]
pub(crate) fn update_build(s: &UpdateStatement) -> (r: (String, Vec<SqlValue>))
    ensures
        r.0@ == update_sql(update_shape(*s)),
        views_of(r.1@) == update_binds(update_shape(*s)),
{
    let (sql, values) = s.build(SqliteQueryBuilder);
    (sql, own_values(values))
}

/// `InsertStatement::new().into_table(..).columns(..)`: an insert into a
/// table over the given columns, with no row yet.
#[verifier::external_body]
pub(crate) fn insert_begin(table: &str, columns: &Vec<String>) -> (s: InsertStatement)
    ensures
        insert_shape(s).table == table@,
        insert_shape(s).columns == names_of(columns@),
        insert_shape(s).rows.len() == 0,
        insert_shape(s).conflict.is_none(),
{
    InsertStatement::new().into_table(Alias::new(table)).columns(columns.iter().map(Alias::new)).to_owned()
}

/// `InsertStatement::values` with as many values as there are columns: the
/// row is added after those that are there, each value held as the builder
/// reads it back; a row of no value is not added.
#[verifier::external_body]
pub(crate) fn insert_row(s: &mut InsertStatement, values: &Vec<SqlValue>)
    requires
        values@.len() == insert_shape(*old(s)).columns.len(),
    ensures
        values@.len() > 0 ==> insert_shape(*final(s)).rows == insert_shape(*old(s)).rows.push(
            bound_forms(views_of(values@)),
        ),
        values@.len() == 0 ==> insert_shape(*final(s)).rows == insert_shape(*old(s)).rows,
        insert_shape(*final(s)).table == insert_shape(*old(s)).table,
        insert_shape(*final(s)).columns == insert_shape(*old(s)).columns,
        insert_shape(*final(s)).conflict == insert_shape(*old(s)).conflict,
{
    let _ = s.values(values.iter().map(|v| Expr::value(sea_value(v))));
}

/// `InsertStatement::on_conflict` with `OnConflict::column(..)` and
/// `update_columns(..)`: a conflict on the key column overwrites the given
/// columns.
#[verifier::external_body]
pub(crate) fn insert_conflict(s: &mut InsertStatement, key: &str, update: &Vec<String>)
    ensures
        insert_shape(*final(s)).conflict == Some((key@, names_of(update@))),
        insert_shape(*final(s)).table == insert_shape(*old(s)).table,
        insert_shape(*final(s)).columns == insert_shape(*old(s)).columns,
        insert_shape(*final(s)).rows == insert_shape(*old(s)).rows,
{
    let mut conflict = OnConflict::column(Alias::new(key));
    conflict.update_columns(update.iter().map(Alias::new));
    s.on_conflict(conflict);
}

/// `InsertStatement::build` for SQLite: the text is that of the statement's
/// shape, and the values are those of its rows, one row after the other.
#[verifier::external_body]
pub(crate) fn insert_build(s: &InsertStatement) -> (r: (String, Vec<SqlValue>))
    ensures
        r.0@ == insert_sql(insert_shape(*s)),
        views_of(r.1@) == insert_binds(insert_shape(*s)),
{
    let (sql, values) = s.build(SqliteQueryBuilder);
    (sql, own_values(values))
}

} // verus!
