//! Query descriptions and their compilation into conditions.

use vstd::prelude::*;
use sea_query::Condition;
use crate::error::OrmError;
use crate::json::{Json, json_text};
use crate::sql::{
    CompareOp, Direction, Filter, Group, Predicate, cond_add_child, cond_add_test, cond_all,
    cond_any, condition_shape, empty_group, expr_eq, expr_gt, expr_gte, expr_is_in, expr_like,
    expr_lt, expr_lte, expr_ne, expr_shape, group_with_child, group_with_test, items_binds,
    filter_binds, predicate_binds, bound_form, lemma_held_as_they_are, read_back_as_they_are,
};
use crate::text::{lowercase, lowercased, same_text};
use crate::value::{SqlValue, SqlValueView, bound_value, views_of};

verus! {

/// One node of a filter tree. A simple node compares `column` with `value`
/// under `operator`; a compound node joins `left` and `right` with `AND` or
/// `OR`.
#[derive(Debug, PartialEq, Eq)]
pub struct QueryNode {
    pub is_compound: bool,
    pub operator: String,
    pub column: Option<String>,
    pub value: Option<Json>,
    pub left: Option<Box<QueryNode>>,
    pub right: Option<Box<QueryNode>>,
}

/// One ordering clause. A direction other than `desc`, in any case, means
/// ascending.
#[derive(Clone, Debug, PartialEq, Eq)]
pub struct OrderBy {
    pub column: String,
    pub direction: String,
}

/// A query: the model, the filter trees that must all hold, and ordering
/// and paging.
#[derive(Debug, PartialEq, Eq)]
pub struct QueryDef {
    pub model_name: String,
    pub where_clause: Vec<QueryNode>,
    pub order_by: Option<Vec<OrderBy>>,
    pub limit: Option<u64>,
    pub offset: Option<u64>,
}

/// What a query is: its model, its nodes, its ordering clauses with their
/// directions resolved, and its paging.
pub struct QueryView {
    pub model: Seq<char>,
    pub nodes: Seq<QueryNode>,
    pub orders: Seq<(Seq<char>, Direction)>,
    pub limit: Option<u64>,
    pub offset: Option<u64>,
}

impl View for QueryDef {
    type V = QueryView;

    open spec fn view(&self) -> QueryView {
        QueryView {
            model: self.model_name@,
            nodes: self.where_clause@,
            orders: order_shapes(self.order_by),
            limit: self.limit,
            offset: self.offset,
        }
    }
}

/// The values that the items of a JSON array are bound as.
pub open spec fn bound_values(items: Seq<Json>) -> Seq<SqlValueView> {
    items.map_values(|j: Json| bound_value(j))
}

/// The pattern that `LIKE` gets from its operand: a string as it is,
/// anything else as its compact JSON text.
pub open spec fn like_pattern(value: Json) -> Seq<char> {
    match value {
        Json::Text(s) => s@,
        _ => json_text(value),
    }
}

/// The predicate of a simple node, or why it has none: `IN` over a value
/// that is no array is an invalid operand, an operator that is not known is
/// an invalid query.
pub open spec fn simple_predicate(operator: Seq<char>, column: Seq<char>, value: Json) -> Result<
    Predicate,
    OrmError,
> {
    if operator == "=="@ {
        Ok(Predicate::Compare { column, op: CompareOp::Eq, value: bound_value(value) })
    } else if operator == "!="@ {
        Ok(Predicate::Compare { column, op: CompareOp::Ne, value: bound_value(value) })
    } else if operator == "<"@ {
        Ok(Predicate::Compare { column, op: CompareOp::Lt, value: bound_value(value) })
    } else if operator == "<="@ {
        Ok(Predicate::Compare { column, op: CompareOp::Le, value: bound_value(value) })
    } else if operator == ">"@ {
        Ok(Predicate::Compare { column, op: CompareOp::Gt, value: bound_value(value) })
    } else if operator == ">="@ {
        Ok(Predicate::Compare { column, op: CompareOp::Ge, value: bound_value(value) })
    } else if operator == "IN"@ {
        match value {
            Json::Array(items) => Ok(Predicate::IsIn { column, values: bound_values(items@) }),
            _ => Err(OrmError::InvalidOperand),
        }
    } else if operator == "LIKE"@ {
        Ok(Predicate::Like { column, pattern: like_pattern(value) })
    } else {
        Err(OrmError::InvalidQueryJson)
    }
}

/// The condition of a node, or why it has none. A simple node gives a
/// condition with its predicate as only member. A compound node gives the
/// conditions of its children joined under its operator. A node that lacks
/// a part, or whose operator is not known, is an invalid query.
pub open spec fn node_group(node: QueryNode) -> Result<Group, OrmError>
    decreases node,
{
    if node.is_compound {
        match (node.left, node.right) {
            (Some(left), Some(right)) => {
                if node.operator@ != "OR"@ && node.operator@ != "AND"@ {
                    Err(OrmError::InvalidQueryJson)
                } else {
                    match node_group(*left) {
                        Err(e) => Err(e),
                        Ok(l) => match node_group(*right) {
                            Err(e) => Err(e),
                            Ok(r) => Ok(
                                group_with_child(
                                    group_with_child(empty_group(node.operator@ == "OR"@), l),
                                    r,
                                ),
                            ),
                        },
                    }
                }
            },
            _ => Err(OrmError::InvalidQueryJson),
        }
    } else {
        match (node.column, node.value) {
            (Some(column), Some(value)) => match simple_predicate(node.operator@, column@, value) {
                Err(e) => Err(e),
                Ok(p) => Ok(group_with_test(empty_group(false), p)),
            },
            _ => Err(OrmError::InvalidQueryJson),
        }
    }
}

/// The condition of a where clause: the conditions of its nodes, from left
/// to right, all of which must hold; the error of the first node that has
/// none.
pub open spec fn where_group(nodes: Seq<QueryNode>) -> Result<Group, OrmError>
    decreases nodes.len(),
{
    if nodes.len() == 0 {
        Ok(empty_group(false))
    } else {
        match where_group(nodes.drop_last()) {
            Err(e) => Err(e),
            Ok(g) => match node_group(nodes.last()) {
                Err(e) => Err(e),
                Ok(child) => Ok(group_with_child(g, child)),
            },
        }
    }
}

/// The direction that a direction text in lower case asks for: descending
/// for `desc`, ascending for anything else.
pub open spec fn direction_named(lowered: Seq<char>) -> Direction {
    if lowered == "desc"@ {
        Direction::Desc
    } else {
        Direction::Asc
    }
}

/// The direction that a direction text asks for, in any case.
pub open spec fn direction_of(text: Seq<char>) -> Direction {
    direction_named(lowercased(text))
}

/// The ordering clauses of a query, in their order.
pub open spec fn order_shapes(orders: Option<Vec<OrderBy>>) -> Seq<(Seq<char>, Direction)> {
    match orders {
        Some(list) => list@.map_values(|o: OrderBy| (o.column@, direction_of(o.direction@))),
        None => Seq::empty(),
    }
}

/// The values of a JSON array as bound values, in order. Each reads back
/// from the builder as itself.
pub fn bind_items(items: &Vec<Json>) -> (r: Vec<SqlValue>)
    ensures
        views_of(r@) == bound_values(items@),
        read_back_as_they_are(views_of(r@)),
{
    let mut out: Vec<SqlValue> = Vec::new();
    let mut i: usize = 0;
    while i < items.len()
        invariant
            i <= items.len(),
            out@.len() == i,
            forall|k: int| 0 <= k < i ==> (#[trigger] out@[k])@ == bound_value(items@[k]),
            forall|k: int| 0 <= k < i ==> bound_form((#[trigger] out@[k])@) == out@[k]@,
        decreases items.len() - i,
    {
        out.push(SqlValue::from_json(&items[i]));
        i = i + 1;
    }
    assert(views_of(out@) =~= bound_values(items@));
    assert forall|k: int| 0 <= k < views_of(out@).len() implies bound_form(
        #[trigger] views_of(out@)[k],
    ) == views_of(out@)[k] by {
        assert(views_of(out@)[k] == out@[k]@);
    }
    out
}

/// The predicate of a simple node.
fn simple_expr(operator: &String, column: &String, value: &Json) -> (r: Result<
    sea_query::SimpleExpr,
    OrmError,
>)
    ensures
        match r {
            Ok(e) => simple_predicate(operator@, column@, *value) == Ok::<Predicate, OrmError>(
                expr_shape(e),
            ),
            Err(e) => simple_predicate(operator@, column@, *value) == Err::<Predicate, OrmError>(e),
        },
{
    if same_text(operator, "==") {
        Ok(expr_eq(column.as_str(), &SqlValue::from_json(value)))
    } else if same_text(operator, "!=") {
        Ok(expr_ne(column.as_str(), &SqlValue::from_json(value)))
    } else if same_text(operator, "<") {
        Ok(expr_lt(column.as_str(), &SqlValue::from_json(value)))
    } else if same_text(operator, "<=") {
        Ok(expr_lte(column.as_str(), &SqlValue::from_json(value)))
    } else if same_text(operator, ">") {
        Ok(expr_gt(column.as_str(), &SqlValue::from_json(value)))
    } else if same_text(operator, ">=") {
        Ok(expr_gte(column.as_str(), &SqlValue::from_json(value)))
    } else if same_text(operator, "IN") {
        match value {
            Json::Array(items) => {
                let values = bind_items(items);
                proof {
                    lemma_held_as_they_are(views_of(values@));
                }
                Ok(expr_is_in(column.as_str(), &values))
            },
            _ => Err(OrmError::InvalidOperand),
        }
    } else if same_text(operator, "LIKE") {
        match value {
            Json::Text(s) => Ok(expr_like(column.as_str(), s.as_str())),
            _ => {
                let pattern = value.render();
                Ok(expr_like(column.as_str(), pattern.as_str()))
            },
        }
    } else {
        Err(OrmError::InvalidQueryJson)
    }
}

impl QueryDef {
    /// The condition of the where clause: every node's condition, all of
    /// which must hold.
    pub fn to_condition(&self) -> (r: Result<Condition, OrmError>)
        ensures
            match r {
                Ok(c) => where_group(self.where_clause@) == Ok::<Group, OrmError>(condition_shape(c)),
                Err(e) => where_group(self.where_clause@) == Err::<Group, OrmError>(e),
            },
    {
        let mut condition = cond_all();
        let mut i: usize = 0;
        assert(self.where_clause@.take(0) =~= Seq::empty());
        while i < self.where_clause.len()
            invariant
                i <= self.where_clause.len(),
                where_group(self.where_clause@.take(i as int)) == Ok::<Group, OrmError>(
                    condition_shape(condition),
                ),
            decreases self.where_clause.len() - i,
        {
            proof {
                let next = self.where_clause@.take(i as int + 1);
                assert(next.drop_last() =~= self.where_clause@.take(i as int));
                assert(next.last() == self.where_clause@[i as int]);
            }
            match QueryDef::node_to_condition(&self.where_clause[i]) {
                Ok(child) => {
                    condition = cond_add_child(condition, child);
                },
                Err(e) => {
                    proof {
                        lemma_where_error_stays(self.where_clause@, i as int + 1);
                    }
                    return Err(e);
                },
            }
            i = i + 1;
        }
        assert(self.where_clause@.take(i as int) =~= self.where_clause@);
        Ok(condition)
    }

    /// The condition of one node.
    pub fn node_to_condition(node: &QueryNode) -> (r: Result<Condition, OrmError>)
        ensures
            match r {
                Ok(c) => node_group(*node) == Ok::<Group, OrmError>(condition_shape(c)),
                Err(e) => node_group(*node) == Err::<Group, OrmError>(e),
            },
        decreases *node,
    {
        if node.is_compound {
            match (&node.left, &node.right) {
                (Some(left), Some(right)) => {
                    let is_or = same_text(&node.operator, "OR");
                    let is_and = same_text(&node.operator, "AND");
                    if !is_or && !is_and {
                        return Err(OrmError::InvalidQueryJson);
                    }
                    let l = match QueryDef::node_to_condition(&**left) {
                        Ok(c) => c,
                        Err(e) => {
                            return Err(e);
                        },
                    };
                    let r = match QueryDef::node_to_condition(&**right) {
                        Ok(c) => c,
                        Err(e) => {
                            return Err(e);
                        },
                    };
                    let start = if is_or {
                        cond_any()
                    } else {
                        cond_all()
                    };
                    Ok(cond_add_child(cond_add_child(start, l), r))
                },
                _ => Err(OrmError::InvalidQueryJson),
            }
        } else {
            match (&node.column, &node.value) {
                (Some(column), Some(value)) => match simple_expr(&node.operator, column, value) {
                    Ok(e) => Ok(cond_add_test(cond_all(), e)),
                    Err(e) => Err(e),
                },
                _ => Err(OrmError::InvalidQueryJson),
            }
        }
    }
}

/// The direction that a direction text in lower case asks for.
pub fn direction_from_lowered(lowered: &String) -> (r: Direction)
    ensures
        r == direction_named(lowered@),
{
    if same_text(lowered, "desc") {
        Direction::Desc
    } else {
        Direction::Asc
    }
}

/// The direction that a direction text asks for, in any case.
pub fn direction_from(text: &str) -> (r: Direction)
    ensures
        r == direction_of(text@),
{
    let lowered = lowercase(text);
    direction_from_lowered(&lowered)
}

/// The values that a node binds, read off the node itself: those of its
/// predicate for a simple node; those of the left child, then those of the
/// right child, for a compound node.
pub open spec fn node_binds(node: QueryNode) -> Seq<SqlValueView>
    decreases node,
{
    if node.is_compound {
        match (node.left, node.right) {
            (Some(left), Some(right)) => node_binds(*left) + node_binds(*right),
            _ => Seq::empty(),
        }
    } else {
        match (node.column, node.value) {
            (Some(column), Some(value)) => match simple_predicate(node.operator@, column@, value) {
                Ok(p) => predicate_binds(p),
                Err(_) => Seq::empty(),
            },
            _ => Seq::empty(),
        }
    }
}

/// The values that a where clause binds, read off its nodes from left to
/// right.
pub open spec fn clause_binds(nodes: Seq<QueryNode>) -> Seq<SqlValueView>
    decreases nodes.len(),
{
    if nodes.len() == 0 {
        Seq::empty()
    } else {
        clause_binds(nodes.drop_last()) + node_binds(nodes.last())
    }
}

/// A group to which a predicate is added binds what it bound, then what
/// the predicate binds.
pub proof fn lemma_test_binds_last(g: Group, p: Predicate)
    ensures
        items_binds(group_with_test(g, p).items) == items_binds(g.items) + predicate_binds(p),
{
    let items = group_with_test(g, p).items;
    assert(items.drop_last() =~= g.items);
    assert(items.last() == Filter::Test(p));
    assert(items.len() > 0);
    assert(items_binds(items) == items_binds(items.drop_last()) + filter_binds(items.last()));
    assert(filter_binds(Filter::Test(p)) == predicate_binds(p));
}

/// A group to which a child is added binds what it bound, then what the
/// child binds, whether the child stays a group or is replaced by its only
/// member.
pub proof fn lemma_child_binds_last(g: Group, child: Group)
    ensures
        items_binds(group_with_child(g, child).items) == items_binds(g.items) + items_binds(
            child.items,
        ),
{
    let items = group_with_child(g, child).items;
    assert(items.drop_last() =~= g.items);
    assert(items.len() > 0);
    assert(items_binds(items) == items_binds(items.drop_last()) + filter_binds(items.last()));
    if child.items.len() == 1 && !child.negated {
        let only = child.items[0];
        assert(items.last() == only);
        assert(child.items.drop_last() =~= Seq::<Filter>::empty());
        assert(child.items.last() == only);
        assert(items_binds(child.items) == items_binds(child.items.drop_last()) + filter_binds(
            child.items.last(),
        ));
        assert(items_binds(Seq::<Filter>::empty()) =~= Seq::<SqlValueView>::empty());
        assert(Seq::<SqlValueView>::empty() + filter_binds(only) =~= filter_binds(only));
    } else {
        assert(items.last() == Filter::Nested(child));
        assert(filter_binds(Filter::Nested(child)) == items_binds(child.items));
    }
}

/// The values that the condition of a node binds are those of its simple
/// nodes, in the order in which they stand in the tree from left to right.
pub proof fn lemma_node_binds_in_order(node: QueryNode)
    requires
        node_group(node).is_ok(),
    ensures
        items_binds(node_group(node).unwrap().items) == node_binds(node),
    decreases node,
{
    if node.is_compound {
        let left = *node.left.unwrap();
        let right = *node.right.unwrap();
        lemma_node_binds_in_order(left);
        lemma_node_binds_in_order(right);
        let l = node_group(left).unwrap();
        let r = node_group(right).unwrap();
        let start = empty_group(node.operator@ == "OR"@);
        lemma_child_binds_last(start, l);
        lemma_child_binds_last(group_with_child(start, l), r);
        assert(items_binds(start.items) =~= Seq::<SqlValueView>::empty());
        assert(Seq::<SqlValueView>::empty() + items_binds(l.items) =~= items_binds(l.items));
    } else {
        let p = simple_predicate(
            node.operator@,
            node.column.unwrap()@,
            node.value.unwrap(),
        ).unwrap();
        lemma_test_binds_last(empty_group(false), p);
        assert(Seq::<SqlValueView>::empty() + predicate_binds(p) =~= predicate_binds(p));
    }
}

/// The values that the condition of a where clause binds are those of its
/// nodes, from left to right.
pub proof fn lemma_clause_binds_in_order(nodes: Seq<QueryNode>)
    requires
        where_group(nodes).is_ok(),
    ensures
        items_binds(where_group(nodes).unwrap().items) == clause_binds(nodes),
    decreases nodes.len(),
{
    if nodes.len() > 0 {
        lemma_clause_binds_in_order(nodes.drop_last());
        lemma_node_binds_in_order(nodes.last());
        lemma_child_binds_last(
            where_group(nodes.drop_last()).unwrap(),
            node_group(nodes.last()).unwrap(),
        );
    }
}

/// A where clause with a failing prefix fails with the same error.
pub proof fn lemma_where_error_stays(nodes: Seq<QueryNode>, n: int)
    requires
        0 <= n <= nodes.len(),
        where_group(nodes.take(n)).is_err(),
    ensures
        where_group(nodes) == where_group(nodes.take(n)),
    decreases nodes.len() - n,
{
    if n < nodes.len() {
        let next = nodes.take(n + 1);
        assert(next.drop_last() =~= nodes.take(n));
        lemma_where_error_stays(nodes, n + 1);
    } else {
        assert(nodes.take(n) =~= nodes);
    }
}

} // verus!
