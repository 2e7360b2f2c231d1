//! The wire format of queries: a JSON document
//! `{model_name, where_clause, order_by?, limit?, offset?}` whose nodes are
//! `{is_compound, operator, column?, value?, left?, right?}`. An optional
//! member may be missing or null; members that are not named here are
//! ignored.

use vstd::prelude::*;
use crate::error::OrmError;
use crate::json::{Json, find_member, json_of_text};
use crate::query::{OrderBy, QueryDef, QueryNode, QueryView, direction_of, order_shapes};
use crate::sql::Direction;
use crate::text::same_text;

verus! {

/// A member that is missing or null counts as absent.
pub open spec fn present(m: Option<Json>) -> Option<Json> {
    match m {
        Some(Json::Null) => None,
        other => other,
    }
}

/// An optional string member: absent, or a string; anything else is
/// invalid.
pub open spec fn optional_text(m: Option<Json>) -> Result<Option<String>, OrmError> {
    match present(m) {
        None => Ok(None),
        Some(Json::Text(s)) => Ok(Some(s)),
        Some(_) => Err(OrmError::InvalidQueryJson),
    }
}

/// An optional count: absent, or an unsigned 64-bit integer; anything else
/// is invalid.
pub open spec fn optional_count(m: Option<Json>) -> Result<Option<u64>, OrmError> {
    match present(m) {
        None => Ok(None),
        Some(Json::Number(n)) => match n.unsigned {
            Some(u) => Ok(Some(u)),
            None => Err(OrmError::InvalidQueryJson),
        },
        Some(_) => Err(OrmError::InvalidQueryJson),
    }
}

/// A member of a document is smaller than the document.
pub proof fn lemma_member_is_smaller(doc: Json, key: Seq<char>)
    ensures
        doc.member(key).is_some() ==> decreases_to!(doc => doc.member(key).unwrap()),
{
    match doc {
        Json::Object(entries) => {
            if find_member(entries@, key).is_some() {
                let i = lemma_found_at(entries@, key);
                assert(decreases_to!(entries => entries[i]));
                assert(entries[i] == entries@[i]);
            }
        },
        _ => {},
    }
}

/// A member that is found stands at some place of the entries.
pub proof fn lemma_found_at(entries: Seq<(String, Json)>, key: Seq<char>) -> (i: int)
    requires
        find_member(entries, key).is_some(),
    ensures
        0 <= i < entries.len(),
        entries[i].0@ == key,
        find_member(entries, key) == Some(entries[i].1),
    decreases entries.len(),
{
    if entries[0].0@ == key {
        0
    } else {
        let j = lemma_found_at(entries.drop_first(), key);
        assert(entries.drop_first()[j] == entries[j + 1]);
        j + 1
    }
}

/// Removing an entry changes no member of another name.
pub proof fn lemma_find_after_remove(entries: Seq<(String, Json)>, i: int, other: Seq<char>)
    requires
        0 <= i < entries.len(),
        entries[i].0@ != other,
    ensures
        find_member(entries.remove(i), other) == find_member(entries, other),
    decreases entries.len(),
{
    if i == 0 {
        assert(entries.remove(0) =~= entries.drop_first());
    } else {
        let rest = entries.drop_first();
        assert(entries.remove(i).drop_first() =~= rest.remove(i - 1));
        assert(entries.remove(i)[0] == entries[0]);
        assert(rest[i - 1] == entries[i]);
        lemma_find_after_remove(rest, i - 1, other);
    }
}

/// The node that a document describes, or an invalid query: the document
/// is an object with a boolean `is_compound` and a string `operator`, an
/// optional string `column`, an optional `value` of any kind, and optional
/// nodes `left` and `right`.
pub open spec fn node_of(doc: Json) -> Result<QueryNode, OrmError>
    decreases doc,
{
    match (doc, doc.member("is_compound"@), doc.member("operator"@), optional_text(doc.member("column"@))) {
        (Json::Object(_), Some(Json::Bool(is_compound)), Some(Json::Text(operator)), Ok(column)) => {
            let left = match present(doc.member("left"@)) {
                None => Ok(None),
                Some(child) => {
                    proof {
                        lemma_member_is_smaller(doc, "left"@);
                    }
                    match node_of(child) {
                        Ok(node) => Ok(Some(Box::new(node))),
                        Err(e) => Err(e),
                    }
                },
            };
            let right = match present(doc.member("right"@)) {
                None => Ok(None),
                Some(child) => {
                    proof {
                        lemma_member_is_smaller(doc, "right"@);
                    }
                    match node_of(child) {
                        Ok(node) => Ok(Some(Box::new(node))),
                        Err(e) => Err(e),
                    }
                },
            };
            match (left, right) {
                (Ok(left), Ok(right)) => Ok(
                    QueryNode {
                        is_compound,
                        operator,
                        column,
                        value: present(doc.member("value"@)),
                        left,
                        right,
                    },
                ),
                _ => Err(OrmError::InvalidQueryJson),
            }
        },
        _ => Err(OrmError::InvalidQueryJson),
    }
}

/// The place of the first entry of a name.
fn position(entries: &Vec<(String, Json)>, key: &str) -> (r: Option<usize>)
    ensures
        match r {
            Some(i) => i < entries@.len() && entries@[i as int].0@ == key@ && find_member(
                entries@,
                key@,
            ) == Some(entries@[i as int].1),
            None => find_member(entries@, key@).is_none(),
        },
{
    let mut i: usize = 0;
    assert(entries@.skip(0) =~= entries@);
    while i < entries.len()
        invariant
            i <= entries.len(),
            find_member(entries@, key@) == find_member(entries@.skip(i as int), key@),
        decreases entries.len() - i,
    {
        proof {
            assert(entries@.skip(i as int).drop_first() =~= entries@.skip(i as int + 1));
            assert(entries@.skip(i as int)[0] == entries@[i as int]);
        }
        if same_text(&entries[i].0, key) {
            return Some(i);
        }
        i = i + 1;
    }
    None
}

/// Takes the first member of a name out of the entries.
fn take(entries: &mut Vec<(String, Json)>, key: &str) -> (r: Option<Json>)
    ensures
        r == find_member(old(entries)@, key@),
        forall|other: Seq<char>|
            other != key@ ==> find_member(final(entries)@, other) == find_member(
                old(entries)@,
                other,
            ),
{
    let ghost before = entries@;
    match position(entries, key) {
        Some(i) => {
            let entry = entries.remove(i);
            proof {
                assert forall|other: Seq<char>| other != key@ implies find_member(entries@, other)
                    == find_member(before, other) by {
                    lemma_find_after_remove(before, i as int, other);
                }
            }
            Some(entry.1)
        },
        None => None,
    }
}

/// The names of the members of a node differ from one another.
proof fn lemma_node_member_names()
    ensures
        "operator"@ != "is_compound"@,
        "column"@ != "is_compound"@,
        "column"@ != "operator"@,
        "value"@ != "is_compound"@,
        "value"@ != "operator"@,
        "value"@ != "column"@,
        "left"@ != "is_compound"@,
        "left"@ != "operator"@,
        "left"@ != "column"@,
        "left"@ != "value"@,
        "right"@ != "is_compound"@,
        "right"@ != "operator"@,
        "right"@ != "column"@,
        "right"@ != "value"@,
        "right"@ != "left"@,
{
    reveal_strlit("is_compound");
    reveal_strlit("operator");
    reveal_strlit("column");
    reveal_strlit("value");
    reveal_strlit("left");
    reveal_strlit("right");
    assert("is_compound"@.len() == 11);
    assert("operator"@.len() == 8);
    assert("column"@.len() == 6);
    assert("value"@.len() == 5);
    assert("left"@.len() == 4);
    assert("right"@.len() == 5);
    assert("value"@[0] == 'v');
    assert("right"@[0] == 'r');
}

impl QueryNode {
    /// Reads a node from its document.
    pub fn from_json(doc: Json) -> (r: Result<QueryNode, OrmError>)
        ensures
            r == node_of(doc),
        decreases doc,
    {
        let ghost whole = doc;
        let mut entries = match doc {
            Json::Object(entries) => entries,
            _ => {
                return Err(OrmError::InvalidQueryJson);
            },
        };
        proof {
            lemma_node_member_names();
        }
        let is_compound = match take(&mut entries, "is_compound") {
            Some(Json::Bool(b)) => b,
            _ => {
                return Err(OrmError::InvalidQueryJson);
            },
        };
        let operator = match take(&mut entries, "operator") {
            Some(Json::Text(s)) => s,
            _ => {
                return Err(OrmError::InvalidQueryJson);
            },
        };
        let column = match take(&mut entries, "column") {
            None => None,
            Some(Json::Null) => None,
            Some(Json::Text(s)) => Some(s),
            Some(_) => {
                return Err(OrmError::InvalidQueryJson);
            },
        };
        let value = match take(&mut entries, "value") {
            None => None,
            Some(Json::Null) => None,
            Some(v) => Some(v),
        };
        let left = match take(&mut entries, "left") {
            None => None,
            Some(Json::Null) => None,
            Some(child) => {
                proof {
                    lemma_member_is_smaller(whole, "left"@);
                }
                match QueryNode::from_json(child) {
                    Ok(node) => Some(Box::new(node)),
                    Err(e) => {
                        return Err(OrmError::InvalidQueryJson);
                    },
                }
            },
        };
        let right = match take(&mut entries, "right") {
            None => None,
            Some(Json::Null) => None,
            Some(child) => {
                proof {
                    lemma_member_is_smaller(whole, "right"@);
                }
                match QueryNode::from_json(child) {
                    Ok(node) => Some(Box::new(node)),
                    Err(e) => {
                        return Err(OrmError::InvalidQueryJson);
                    },
                }
            },
        };
        Ok(QueryNode { is_compound, operator, column, value, left, right })
    }
}

/// The ordering clause that a document describes, or an invalid query:
/// the document has a string `column` and a string `direction`.
pub open spec fn order_of(doc: Json) -> Result<(Seq<char>, Direction), OrmError> {
    match (doc.member("column"@), doc.member("direction"@)) {
        (Some(Json::Text(column)), Some(Json::Text(direction))) => Ok(
            (column@, direction_of(direction@)),
        ),
        _ => Err(OrmError::InvalidQueryJson),
    }
}

/// The ordering clauses that the items of an array describe, in order.
pub open spec fn orders_of(items: Seq<Json>) -> Result<Seq<(Seq<char>, Direction)>, OrmError>
    decreases items.len(),
{
    if items.len() == 0 {
        Ok(Seq::empty())
    } else {
        match (orders_of(items.drop_last()), order_of(items.last())) {
            (Ok(rest), Ok(order)) => Ok(rest.push(order)),
            _ => Err(OrmError::InvalidQueryJson),
        }
    }
}

/// The nodes that the items of an array describe, in order.
pub open spec fn nodes_of(items: Seq<Json>) -> Result<Seq<QueryNode>, OrmError>
    decreases items.len(),
{
    if items.len() == 0 {
        Ok(Seq::empty())
    } else {
        match (nodes_of(items.drop_last()), node_of(items.last())) {
            (Ok(rest), Ok(node)) => Ok(rest.push(node)),
            _ => Err(OrmError::InvalidQueryJson),
        }
    }
}

/// The optional ordering of a query: absent, or an array of ordering
/// clauses.
pub open spec fn optional_orders(m: Option<Json>) -> Result<Seq<(Seq<char>, Direction)>, OrmError> {
    match present(m) {
        None => Ok(Seq::empty()),
        Some(Json::Array(items)) => orders_of(items@),
        Some(_) => Err(OrmError::InvalidQueryJson),
    }
}

/// The query that a document describes, or an invalid query: the document
/// has a string `model_name` and an array `where_clause` of nodes, an
/// optional array `order_by` of ordering clauses, and optional counts
/// `limit` and `offset`.
pub open spec fn query_of(doc: Json) -> Result<QueryView, OrmError> {
    match (doc.member("model_name"@), doc.member("where_clause"@)) {
        (Some(Json::Text(model)), Some(Json::Array(items))) => match (
            nodes_of(items@),
            optional_orders(doc.member("order_by"@)),
            optional_count(doc.member("limit"@)),
            optional_count(doc.member("offset"@)),
        ) {
            (Ok(nodes), Ok(orders), Ok(limit), Ok(offset)) => Ok(
                QueryView { model: model@, nodes, orders, limit, offset },
            ),
            _ => Err(OrmError::InvalidQueryJson),
        },
        _ => Err(OrmError::InvalidQueryJson),
    }
}

/// Nodes with a prefix that is invalid are invalid.
pub proof fn lemma_nodes_error_stays(items: Seq<Json>, n: int)
    requires
        0 <= n <= items.len(),
        nodes_of(items.take(n)).is_err(),
    ensures
        nodes_of(items).is_err(),
    decreases items.len() - n,
{
    if n < items.len() {
        assert(items.take(n + 1).drop_last() =~= items.take(n));
        lemma_nodes_error_stays(items, n + 1);
    } else {
        assert(items.take(n) =~= items);
    }
}

/// Ordering clauses with a prefix that is invalid are invalid.
pub proof fn lemma_orders_error_stays(items: Seq<Json>, n: int)
    requires
        0 <= n <= items.len(),
        orders_of(items.take(n)).is_err(),
    ensures
        orders_of(items).is_err(),
    decreases items.len() - n,
{
    if n < items.len() {
        assert(items.take(n + 1).drop_last() =~= items.take(n));
        lemma_orders_error_stays(items, n + 1);
    } else {
        assert(items.take(n) =~= items);
    }
}

/// The names of the members of a query differ from one another.
proof fn lemma_query_member_names()
    ensures
        "where_clause"@ != "model_name"@,
        "order_by"@ != "model_name"@,
        "order_by"@ != "where_clause"@,
        "limit"@ != "model_name"@,
        "limit"@ != "where_clause"@,
        "limit"@ != "order_by"@,
        "offset"@ != "model_name"@,
        "offset"@ != "where_clause"@,
        "offset"@ != "order_by"@,
        "offset"@ != "limit"@,
{
    reveal_strlit("model_name");
    reveal_strlit("where_clause");
    reveal_strlit("order_by");
    reveal_strlit("limit");
    reveal_strlit("offset");
    assert("model_name"@.len() == 10);
    assert("where_clause"@.len() == 12);
    assert("order_by"@.len() == 8);
    assert("limit"@.len() == 5);
    assert("offset"@.len() == 6);
}

/// Reads an optional count.
fn count_from(m: Option<Json>) -> (r: Result<Option<u64>, OrmError>)
    ensures
        r == optional_count(m),
{
    match m {
        None => Ok(None),
        Some(Json::Null) => Ok(None),
        Some(Json::Number(n)) => match n.unsigned {
            Some(u) => Ok(Some(u)),
            None => Err(OrmError::InvalidQueryJson),
        },
        Some(_) => Err(OrmError::InvalidQueryJson),
    }
}

/// Reads an ordering clause.
fn order_from(doc: &Json) -> (r: Result<OrderBy, OrmError>)
    ensures
        match r {
            Ok(o) => order_of(*doc) == Ok::<(Seq<char>, Direction), OrmError>(
                (o.column@, direction_of(o.direction@)),
            ),
            Err(e) => e == OrmError::InvalidQueryJson && order_of(*doc).is_err(),
        },
{
    let column = match doc.get("column") {
        Some(Json::Text(s)) => s.clone(),
        _ => {
            return Err(OrmError::InvalidQueryJson);
        },
    };
    let direction = match doc.get("direction") {
        Some(Json::Text(s)) => s.clone(),
        _ => {
            return Err(OrmError::InvalidQueryJson);
        },
    };
    Ok(OrderBy { column, direction })
}

/// Reads the ordering clauses of an array.
fn orders_from(items: &Vec<Json>) -> (r: Result<Vec<OrderBy>, OrmError>)
    ensures
        match r {
            Ok(list) => orders_of(items@) == Ok::<Seq<(Seq<char>, Direction)>, OrmError>(
                list@.map_values(|o: OrderBy| (o.column@, direction_of(o.direction@))),
            ),
            Err(e) => e == OrmError::InvalidQueryJson && orders_of(items@).is_err(),
        },
{
    let mut list: Vec<OrderBy> = Vec::new();
    let mut i: usize = 0;
    assert(items@.take(0) =~= Seq::empty());
    while i < items.len()
        invariant
            i <= items.len(),
            orders_of(items@.take(i as int)).is_ok(),
            orders_of(items@.take(i as int)).unwrap() =~= list@.map_values(
                |o: OrderBy| (o.column@, direction_of(o.direction@)),
            ),
        decreases items.len() - i,
    {
        proof {
            assert(items@.take(i as int + 1).drop_last() =~= items@.take(i as int));
            assert(items@.take(i as int + 1).last() == items@[i as int]);
        }
        match order_from(&items[i]) {
            Ok(order) => {
                list.push(order);
            },
            Err(e) => {
                proof {
                    lemma_orders_error_stays(items@, i as int + 1);
                }
                return Err(OrmError::InvalidQueryJson);
            },
        }
        i = i + 1;
    }
    assert(items@.take(i as int) =~= items@);
    Ok(list)
}

/// Reads the nodes of an array.
fn nodes_from(source: Vec<Json>) -> (r: Result<Vec<QueryNode>, OrmError>)
    ensures
        match r {
            Ok(nodes) => nodes_of(source@) == Ok::<Seq<QueryNode>, OrmError>(nodes@),
            Err(e) => e == OrmError::InvalidQueryJson && nodes_of(source@).is_err(),
        },
{
    let ghost all = source@;
    let mut items = source;
    let mut nodes: Vec<QueryNode> = Vec::new();
    assert(all.take(0) =~= Seq::empty());
    assert(all.skip(0) =~= all);
    while items.len() > 0
        invariant
            all == source@,
            nodes@.len() + items@.len() == all.len(),
            items@ =~= all.skip(nodes@.len() as int),
            nodes_of(all.take(nodes@.len() as int)).is_ok(),
            nodes_of(all.take(nodes@.len() as int)).unwrap() =~= nodes@,
        decreases items@.len(),
    {
        let ghost k = nodes@.len() as int;
        let item = items.remove(0);
        proof {
            assert(item == all[k]);
            assert(all.skip(k).remove(0) =~= all.skip(k + 1));
            assert(all.take(k + 1).drop_last() =~= all.take(k));
            assert(all.take(k + 1).last() == all[k]);
        }
        match QueryNode::from_json(item) {
            Ok(node) => {
                nodes.push(node);
            },
            Err(e) => {
                proof {
                    lemma_nodes_error_stays(all, k + 1);
                }
                return Err(OrmError::InvalidQueryJson);
            },
        }
    }
    assert(all.take(nodes@.len() as int) =~= all);
    Ok(nodes)
}

impl QueryDef {
    /// Reads a query from its document.
    pub fn from_json(doc: Json) -> (r: Result<QueryDef, OrmError>)
        ensures
            match r {
                Ok(q) => query_of(doc) == Ok::<QueryView, OrmError>(q@),
                Err(e) => e == OrmError::InvalidQueryJson && query_of(doc).is_err(),
            },
    {
        let mut entries = match doc {
            Json::Object(entries) => entries,
            _ => {
                return Err(OrmError::InvalidQueryJson);
            },
        };
        proof {
            lemma_query_member_names();
        }
        let model_name = match take(&mut entries, "model_name") {
            Some(Json::Text(s)) => s,
            _ => {
                return Err(OrmError::InvalidQueryJson);
            },
        };
        let where_clause = match take(&mut entries, "where_clause") {
            Some(Json::Array(items)) => match nodes_from(items) {
                Ok(nodes) => nodes,
                Err(e) => {
                    return Err(e);
                },
            },
            _ => {
                return Err(OrmError::InvalidQueryJson);
            },
        };
        let order_by = match take(&mut entries, "order_by") {
            None => None,
            Some(Json::Null) => None,
            Some(Json::Array(items)) => match orders_from(&items) {
                Ok(list) => Some(list),
                Err(e) => {
                    return Err(e);
                },
            },
            Some(_) => {
                return Err(OrmError::InvalidQueryJson);
            },
        };
        let limit = match count_from(take(&mut entries, "limit")) {
            Ok(n) => n,
            Err(e) => {
                return Err(e);
            },
        };
        let offset = match count_from(take(&mut entries, "offset")) {
            Ok(n) => n,
            Err(e) => {
                return Err(e);
            },
        };
        Ok(QueryDef { model_name, where_clause, order_by, limit, offset })
    }
}

/// The query that a text describes for a model, or an invalid query: the
/// text is JSON and its document describes a query. The query is about the
/// model that the caller names, whatever the document says.
pub open spec fn query_of_text(model: Seq<char>, text: Seq<char>) -> Result<QueryView, OrmError> {
    match json_of_text(text) {
        None => Err(OrmError::InvalidQueryJson),
        Some(doc) => match query_of(doc) {
            Err(e) => Err(e),
            Ok(q) => Ok(
                QueryView {
                    model,
                    nodes: q.nodes,
                    orders: q.orders,
                    limit: q.limit,
                    offset: q.offset,
                },
            ),
        },
    }
}

/// The record, or the records, that a text describes, or an invalid
/// record: the text is JSON.
pub open spec fn record_of_text(text: Seq<char>) -> Result<Json, OrmError> {
    match json_of_text(text) {
        None => Err(OrmError::InvalidRecordJson),
        Some(doc) => Ok(doc),
    }
}

/// Reads the query that a text describes for a model.
pub fn read_query(model: &str, text: &str) -> (r: Result<QueryDef, OrmError>)
    ensures
        match r {
            Ok(q) => query_of_text(model@, text@) == Ok::<QueryView, OrmError>(q@),
            Err(e) => e == OrmError::InvalidQueryJson && query_of_text(model@, text@).is_err(),
        },
{
    let doc = match Json::parse(text) {
        Some(doc) => doc,
        None => {
            return Err(OrmError::InvalidQueryJson);
        },
    };
    match QueryDef::from_json(doc) {
        Ok(q) => {
            let mut q = q;
            q.model_name = model.to_owned();
            Ok(q)
        },
        Err(e) => Err(e),
    }
}

/// Reads the record, or the records, that a text describes.
pub fn read_record(text: &str) -> (r: Result<Json, OrmError>)
    ensures
        r == record_of_text(text@),
{
    match Json::parse(text) {
        Some(doc) => Ok(doc),
        None => Err(OrmError::InvalidRecordJson),
    }
}

} // verus!
