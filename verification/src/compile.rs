//! The compiler from query descriptions to parameterized SQL.

use vstd::prelude::*;
use crate::error::OrmError;
use crate::json::Json;
use crate::query::{
    QueryDef, QueryView, clause_binds, direction_from, lemma_clause_binds_in_order, order_shapes,
    where_group,
};
use crate::sql::{
    CompareOp, Group, Predicate, SelectShape, UpdateShape, cond_add_test, cond_all, delete_build,
    delete_sql, empty_group, expr_eq, group_with_test, items_binds, select_binds, select_build,
    select_counter, select_limit, select_offset, select_order, select_rows, select_shape,
    select_sql, select_table, update_begin, update_binds, update_build, update_set, update_shape,
    update_sql,
};
use crate::text::{lowercase, lowercased};
use crate::value::{SqlValue, SqlValueView, bound_value, views_of};

verus! {

/// A statement: its SQL text and the values of its placeholders, in the
/// order in which the placeholders stand in the text.
#[derive(Clone, Debug, PartialEq, Eq)]
pub struct Statement {
    pub sql: String,
    pub binds: Vec<SqlValue>,
}

impl Statement {
    /// The views of the bound values.
    pub open spec fn bind_views(&self) -> Seq<SqlValueView> {
        views_of(self.binds@)
    }
}

/// Whether a statement is the `SELECT` of a shape, with its values.
pub open spec fn selects(st: Statement, shape: SelectShape) -> bool {
    st.sql@ == select_sql(shape) && st.bind_views() == select_binds(shape)
}

/// Whether a statement is the `DELETE` from a table under a condition,
/// with its values.
pub open spec fn deletes(st: Statement, table: Seq<char>, filter: Group) -> bool {
    st.sql@ == delete_sql(table, filter) && st.bind_views() == items_binds(filter.items)
}

/// Whether a statement is the `UPDATE` of a shape, with its values.
pub open spec fn updates(st: Statement, shape: UpdateShape) -> bool {
    st.sql@ == update_sql(shape) && st.bind_views() == update_binds(shape)
}

/// What `compile_select` selects, or why the query has no statement.
pub open spec fn select_plan(q: QueryView) -> Result<SelectShape, OrmError> {
    match where_group(q.nodes) {
        Err(e) => Err(e),
        Ok(g) => Ok(
            SelectShape {
                counter: None,
                table: lowercased(q.model),
                filter: Some(g),
                orders: q.orders,
                limit: q.limit,
                offset: q.offset,
            },
        ),
    }
}

/// What `compile_count` selects, or why the query has no statement.
pub open spec fn count_plan(q: QueryView) -> Result<SelectShape, OrmError> {
    match where_group(q.nodes) {
        Err(e) => Err(e),
        Ok(g) => Ok(
            SelectShape {
                counter: Some("COUNT(*)"@),
                table: lowercased(q.model),
                filter: Some(g),
                orders: Seq::empty(),
                limit: None,
                offset: None,
            },
        ),
    }
}

/// The assignments that the members of a JSON object ask for, in order.
pub open spec fn assignment_shapes(entries: Seq<(String, Json)>) -> Seq<(Seq<char>, SqlValueView)> {
    entries.map_values(|e: (String, Json)| (e.0@, bound_value(e.1)))
}

/// What `compile_update` updates, or why it has no statement: assignments
/// that are no JSON object are an invalid record.
pub open spec fn update_plan(q: QueryView, assignments: Json) -> Result<UpdateShape, OrmError> {
    match assignments {
        Json::Object(entries) => match where_group(q.nodes) {
            Err(e) => Err(e),
            Ok(g) => Ok(
                UpdateShape {
                    table: lowercased(q.model),
                    filter: g,
                    assignments: assignment_shapes(entries@),
                },
            ),
        },
        _ => Err(OrmError::InvalidRecordJson),
    }
}

/// The condition that a column equals a text.
pub open spec fn key_group(column: Seq<char>, key: Seq<char>) -> Group {
    group_with_test(
        empty_group(false),
        Predicate::Compare { column, op: CompareOp::Eq, value: SqlValueView::Text(key) },
    )
}

/// What selecting one row by its key selects.
pub open spec fn select_by_key_shape(model: Seq<char>, column: Seq<char>, key: Seq<char>) -> SelectShape {
    SelectShape {
        counter: None,
        table: lowercased(model),
        filter: Some(key_group(column, key)),
        orders: Seq::empty(),
        limit: None,
        offset: None,
    }
}

/// What selecting every row of a model selects.
pub open spec fn select_all_shape(model: Seq<char>) -> SelectShape {
    SelectShape {
        counter: None,
        table: lowercased(model),
        filter: None,
        orders: Seq::empty(),
        limit: None,
        offset: None,
    }
}

/// The values bound by the `SELECT` of a query are those of the simple
/// nodes of its where clause from left to right, then the limit, then the
/// offset.
pub proof fn lemma_select_binds_in_order(q: QueryView)
    requires
        select_plan(q).is_ok(),
    ensures
        select_binds(select_plan(q).unwrap()) == clause_binds(q.nodes) + match q.limit {
            Some(n) => seq![SqlValueView::BigUnsigned(n)],
            None => Seq::empty(),
        } + match q.offset {
            Some(n) => seq![SqlValueView::BigUnsigned(n)],
            None => Seq::empty(),
        },
{
    lemma_clause_binds_in_order(q.nodes);
}

/// Compiles a query into a `SELECT` of all columns of the model's table:
/// the where clause, then the ordering clauses in their order, then limit
/// and offset, each bound as a value.
pub fn compile_select(q: &QueryDef) -> (r: Result<Statement, OrmError>)
    ensures
        match r {
            Ok(st) => select_plan(q@).is_ok() && st.sql@ == select_sql(select_plan(q@).unwrap())
                && st.bind_views() == select_binds(select_plan(q@).unwrap()),
            Err(e) => select_plan(q@) == Err::<SelectShape, OrmError>(e),
        },
{
    let condition = match q.to_condition() {
        Ok(c) => c,
        Err(e) => {
            return Err(e);
        },
    };
    let table = lowercase(q.model_name.as_str());
    let mut select = select_rows(table.as_str(), condition);
    match &q.order_by {
        Some(orders) => {
            let mut i: usize = 0;
            while i < orders.len()
                invariant
                    i <= orders.len(),
                    q.order_by == Some(*orders),
                    select_shape(select).orders =~= order_shapes(q.order_by).take(i as int),
                    select_shape(select).counter.is_none(),
                    select_shape(select).table == lowercased(q.model_name@),
                    select_shape(select).filter.is_some(),
                    where_group(q.where_clause@) == Ok::<Group, OrmError>(
                        select_shape(select).filter.unwrap(),
                    ),
                    select_shape(select).limit.is_none(),
                    select_shape(select).offset.is_none(),
                decreases orders.len() - i,
            {
                let direction = direction_from(orders[i].direction.as_str());
                select_order(&mut select, orders[i].column.as_str(), direction);
                i = i + 1;
            }
            assert(order_shapes(q.order_by).take(i as int) =~= order_shapes(q.order_by));
        },
        None => {},
    }
    match q.limit {
        Some(n) => {
            select_limit(&mut select, n);
        },
        None => {},
    }
    match q.offset {
        Some(n) => {
            select_offset(&mut select, n);
        },
        None => {},
    }
    let built = select_build(&select);
    proof {
        let plan = select_plan(q@).unwrap();
        let shape = select_shape(select);
        assert(shape.orders =~= plan.orders);
        assert(shape == plan);
    }
    Ok(Statement { sql: built.0, binds: built.1 })
}

/// Compiles a query into a `SELECT COUNT(*)` over the model's table under
/// the where clause; ordering and paging play no part.
pub fn compile_count(q: &QueryDef) -> (r: Result<Statement, OrmError>)
    ensures
        match r {
            Ok(st) => count_plan(q@).is_ok() && st.sql@ == select_sql(count_plan(q@).unwrap())
                && st.bind_views() == select_binds(count_plan(q@).unwrap()),
            Err(e) => count_plan(q@) == Err::<SelectShape, OrmError>(e),
        },
{
    let condition = match q.to_condition() {
        Ok(c) => c,
        Err(e) => {
            return Err(e);
        },
    };
    let table = lowercase(q.model_name.as_str());
    let select = select_counter(table.as_str(), "COUNT(*)", condition);
    let built = select_build(&select);
    proof {
        let plan = count_plan(q@).unwrap();
        let shape = select_shape(select);
        assert(shape.orders =~= plan.orders);
        assert(shape == plan);
    }
    Ok(Statement { sql: built.0, binds: built.1 })
}

/// Compiles a query into a `DELETE` from the model's table under the where
/// clause.
pub fn compile_delete(q: &QueryDef) -> (r: Result<Statement, OrmError>)
    ensures
        match r {
            Ok(st) => where_group(q.where_clause@).is_ok() && st.sql@ == delete_sql(
                lowercased(q.model_name@),
                where_group(q.where_clause@).unwrap(),
            ) && st.bind_views() == items_binds(where_group(q.where_clause@).unwrap().items),
            Err(e) => where_group(q.where_clause@) == Err::<Group, OrmError>(e),
        },
{
    let condition = match q.to_condition() {
        Ok(c) => c,
        Err(e) => {
            return Err(e);
        },
    };
    let table = lowercase(q.model_name.as_str());
    let built = delete_build(table.as_str(), condition);
    Ok(Statement { sql: built.0, binds: built.1 })
}

/// Compiles a query and a JSON object of assignments into an `UPDATE` of
/// the model's table: the assignments in the object's order, then the
/// where clause.
pub fn compile_update(q: &QueryDef, assignments: &Json) -> (r: Result<Statement, OrmError>)
    ensures
        match r {
            Ok(st) => update_plan(q@, *assignments).is_ok() && st.sql@ == update_sql(
                update_plan(q@, *assignments).unwrap(),
            ) && st.bind_views() == update_binds(update_plan(q@, *assignments).unwrap()),
            Err(e) => update_plan(q@, *assignments) == Err::<UpdateShape, OrmError>(e),
        },
{
    let entries = match assignments {
        Json::Object(entries) => entries,
        _ => {
            return Err(OrmError::InvalidRecordJson);
        },
    };
    let condition = match q.to_condition() {
        Ok(c) => c,
        Err(e) => {
            return Err(e);
        },
    };
    let table = lowercase(q.model_name.as_str());
    let mut update = update_begin(table.as_str(), condition);
    let mut i: usize = 0;
    while i < entries.len()
        invariant
            i <= entries.len(),
            update_shape(update).assignments =~= assignment_shapes(entries@).take(i as int),
            update_shape(update).table == lowercased(q.model_name@),
            where_group(q.where_clause@) == Ok::<Group, OrmError>(update_shape(update).filter),
        decreases entries.len() - i,
    {
        let value = SqlValue::from_json(&entries[i].1);
        update_set(&mut update, entries[i].0.as_str(), &value);
        i = i + 1;
    }
    let built = update_build(&update);
    proof {
        let plan = update_plan(q@, *assignments).unwrap();
        let shape = update_shape(update);
        assert(assignment_shapes(entries@).take(i as int) =~= assignment_shapes(entries@));
        assert(shape.assignments =~= plan.assignments);
        assert(shape == plan);
    }
    Ok(Statement { sql: built.0, binds: built.1 })
}

/// The `SELECT` of every row of a model's table.
pub fn compile_select_all(model: &str) -> (st: Statement)
    ensures
        st.sql@ == select_sql(select_all_shape(model@)),
        st.bind_views() == select_binds(select_all_shape(model@)),
{
    let table = lowercase(model);
    let select = select_table(table.as_str());
    let built = select_build(&select);
    proof {
        let shape = select_shape(select);
        assert(shape.orders =~= select_all_shape(model@).orders);
        assert(shape == select_all_shape(model@));
    }
    Statement { sql: built.0, binds: built.1 }
}

/// The `SELECT` of the rows of a model's table whose key column equals the
/// key, which is bound as text.
pub fn compile_select_by_key(model: &str, column: &str, key: &str) -> (st: Statement)
    ensures
        st.sql@ == select_sql(select_by_key_shape(model@, column@, key@)),
        st.bind_views() == select_binds(select_by_key_shape(model@, column@, key@)),
{
    let table = lowercase(model);
    let value = SqlValue::Text(key.to_owned());
    let condition = cond_add_test(cond_all(), expr_eq(column, &value));
    let select = select_rows(table.as_str(), condition);
    let built = select_build(&select);
    proof {
        let shape = select_shape(select);
        assert(shape.orders =~= select_by_key_shape(model@, column@, key@).orders);
        assert(shape == select_by_key_shape(model@, column@, key@));
    }
    Statement { sql: built.0, binds: built.1 }
}

/// The `DELETE` of the rows of a model's table whose key column equals the
/// key, which is bound as text.
pub fn compile_delete_by_key(model: &str, column: &str, key: &str) -> (st: Statement)
    ensures
        st.sql@ == delete_sql(lowercased(model@), key_group(column@, key@)),
        st.bind_views() == items_binds(key_group(column@, key@).items),
{
    let table = lowercase(model);
    let value = SqlValue::Text(key.to_owned());
    let condition = cond_add_test(cond_all(), expr_eq(column, &value));
    let built = delete_build(table.as_str(), condition);
    Statement { sql: built.0, binds: built.1 }
}

} // verus!
