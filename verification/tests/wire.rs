use ferro_core::compile::compile_select;
use ferro_core::connection::connect;
use ferro_core::error::OrmError;
use ferro_core::json::Json;
use ferro_core::operations::{
    count_filtered, delete_filtered, fetch_filtered, register_model_schema, save_bulk_records,
    save_record, update_filtered,
};
use ferro_core::query::{OrderBy, QueryDef, QueryNode};
use ferro_core::state::Core;
use ferro_core::value::SqlValue;
use ferro_core::wire::{read_query, read_record};

fn doc(text: &str) -> Json {
    Json::parse(text).unwrap()
}

fn ready_core() -> Core {
    let mut core = Core::new();
    register_model_schema(&mut core, "User", r#"{"properties": {"id": {"type": "integer", "primary_key": true}}}"#).unwrap();
    connect(&mut core);
    core
}

#[test]
fn simple_node_is_read_with_its_value() {
    let node = QueryNode::from_json(doc(
        r#"{"is_compound": false, "operator": ">=", "column": "age", "value": 18, "left": null, "extra": 1}"#,
    ))
    .unwrap();
    assert_eq!(
        node,
        QueryNode {
            is_compound: false,
            operator: ">=".to_string(),
            column: Some("age".to_string()),
            value: Some(Json::integer(18)),
            left: None,
            right: None,
        }
    );
}

#[test]
fn compound_node_is_read_with_its_children() {
    let node = QueryNode::from_json(doc(
        r#"{"is_compound": true, "operator": "OR",
            "left": {"is_compound": false, "operator": ">=", "column": "age", "value": 18},
            "right": {"is_compound": false, "operator": "<", "column": "age", "value": 13}}"#,
    ))
    .unwrap();
    assert!(node.is_compound);
    assert_eq!(node.operator, "OR");
    assert_eq!(node.column, None);
    assert_eq!(node.value, None);
    assert_eq!(node.left.as_ref().unwrap().operator, ">=");
    assert_eq!(node.right.as_ref().unwrap().value, Some(Json::integer(13)));
}

#[test]
fn nodes_of_the_wrong_shape_are_invalid() {
    for text in [
        "3",
        "[]",
        "{}",
        r#"{"operator": "=="}"#,
        r#"{"is_compound": false}"#,
        r#"{"is_compound": 0, "operator": "=="}"#,
        r#"{"is_compound": false, "operator": 5}"#,
        r#"{"is_compound": false, "operator": "==", "column": 7}"#,
        r#"{"is_compound": true, "operator": "OR", "left": 3}"#,
        r#"{"is_compound": true, "operator": "OR", "right": {"is_compound": false}}"#,
    ] {
        assert_eq!(QueryNode::from_json(doc(text)), Err(OrmError::InvalidQueryJson), "{}", text);
    }
}

#[test]
fn query_document_is_read_in_full() {
    let q = QueryDef::from_json(doc(
        r#"{"model_name": "User",
            "where_clause": [{"is_compound": false, "operator": "==", "column": "a", "value": "x"},
                             {"is_compound": false, "operator": "IN", "column": "b", "value": [1, 2]}],
            "order_by": [{"column": "a", "direction": "desc"}, {"column": "b", "direction": "asc"}],
            "limit": 10, "offset": 0}"#,
    ))
    .unwrap();
    assert_eq!(q.model_name, "User");
    assert_eq!(q.where_clause.len(), 2);
    assert_eq!(q.where_clause[0].column, Some("a".to_string()));
    assert_eq!(q.where_clause[1].operator, "IN");
    assert_eq!(
        q.order_by,
        Some(vec![
            OrderBy { column: "a".to_string(), direction: "desc".to_string() },
            OrderBy { column: "b".to_string(), direction: "asc".to_string() },
        ])
    );
    assert_eq!(q.limit, Some(10));
    assert_eq!(q.offset, Some(0));
    let st = compile_select(&q).unwrap();
    assert_eq!(
        st.sql,
        r#"SELECT * FROM "user" WHERE "a" = ? AND "b" IN (?, ?) ORDER BY "a" DESC, "b" ASC LIMIT ? OFFSET ?"#
    );
    assert_eq!(
        st.binds,
        vec![
            SqlValue::Text("x".to_string()),
            SqlValue::BigInt(1),
            SqlValue::BigInt(2),
            SqlValue::BigUnsigned(10),
            SqlValue::BigUnsigned(0),
        ]
    );
}

#[test]
fn optional_members_may_be_missing_or_null() {
    let q = QueryDef::from_json(doc(r#"{"model_name": "User", "where_clause": []}"#)).unwrap();
    assert_eq!(q.order_by, None);
    assert_eq!(q.limit, None);
    assert_eq!(q.offset, None);
    let q = QueryDef::from_json(doc(
        r#"{"model_name": "User", "where_clause": [], "order_by": null, "limit": null, "offset": null}"#,
    ))
    .unwrap();
    assert_eq!(q.order_by, None);
    assert_eq!(q.limit, None);
    let q = QueryDef::from_json(doc(r#"{"model_name": "User", "where_clause": [], "order_by": []}"#)).unwrap();
    assert_eq!(q.order_by, Some(vec![]));
}

#[test]
fn query_documents_of_the_wrong_shape_are_invalid() {
    for text in [
        "null",
        r#"{"where_clause": []}"#,
        r#"{"model_name": "User"}"#,
        r#"{"model_name": 3, "where_clause": []}"#,
        r#"{"model_name": "User", "where_clause": {}}"#,
        r#"{"model_name": "User", "where_clause": null}"#,
        r#"{"model_name": "User", "where_clause": [3]}"#,
        r#"{"model_name": "User", "where_clause": [], "order_by": {}}"#,
        r#"{"model_name": "User", "where_clause": [], "order_by": [{"column": "a"}]}"#,
        r#"{"model_name": "User", "where_clause": [], "order_by": [{"column": "a", "direction": 1}]}"#,
        r#"{"model_name": "User", "where_clause": [], "limit": -1}"#,
        r#"{"model_name": "User", "where_clause": [], "limit": 1.5}"#,
        r#"{"model_name": "User", "where_clause": [], "offset": "2"}"#,
    ] {
        assert_eq!(QueryDef::from_json(doc(text)), Err(OrmError::InvalidQueryJson), "{}", text);
    }
}

#[test]
fn counts_span_the_unsigned_range() {
    let q = QueryDef::from_json(doc(
        r#"{"model_name": "User", "where_clause": [], "limit": 18446744073709551615, "offset": 9223372036854775808}"#,
    ))
    .unwrap();
    assert_eq!(q.limit, Some(u64::MAX));
    assert_eq!(q.offset, Some(9223372036854775808));
    assert_eq!(
        QueryDef::from_json(doc(r#"{"model_name": "User", "where_clause": [], "limit": 18446744073709551616}"#)),
        Err(OrmError::InvalidQueryJson)
    );
}

#[test]
fn query_text_is_about_the_named_model() {
    let q = read_query("Account", r#"{"model_name": "User", "where_clause": []}"#).unwrap();
    assert_eq!(q.model_name, "Account");
    assert_eq!(read_query("Account", "{oops"), Err(OrmError::InvalidQueryJson));
    assert_eq!(read_query("Account", "[]"), Err(OrmError::InvalidQueryJson));
    assert_eq!(read_record("{oops"), Err(OrmError::InvalidRecordJson));
    assert_eq!(read_record("[1]"), Ok(Json::Array(vec![Json::integer(1)])));
}

#[test]
fn or_query_document_compiles_to_two_placeholders_in_order() {
    let plan = fetch_filtered(
        &ready_core(),
        "User",
        r#"{"model_name": "User", "where_clause": [
            {"is_compound": true, "operator": "OR",
             "left": {"is_compound": false, "column": "age", "operator": ">=", "value": 18},
             "right": {"is_compound": false, "column": "age", "operator": "<", "value": 13}}]}"#,
        None,
    )
    .unwrap();
    assert_eq!(plan.statement.sql, r#"SELECT * FROM "user" WHERE "age" >= ? OR "age" < ?"#);
    assert_eq!(plan.statement.binds, vec![SqlValue::BigInt(18), SqlValue::BigInt(13)]);
}

#[test]
fn malformed_texts_are_refused_before_the_engine_is_asked() {
    let idle = Core::new();
    assert_eq!(fetch_filtered(&idle, "User", "nope", None).err(), Some(OrmError::InvalidQueryJson));
    assert_eq!(count_filtered(&idle, "User", "{}", None).err(), Some(OrmError::InvalidQueryJson));
    assert_eq!(delete_filtered(&idle, "User", "[]", None).err(), Some(OrmError::InvalidQueryJson));
    let q = r#"{"model_name": "User", "where_clause": []}"#;
    assert_eq!(update_filtered(&idle, "User", "nope", "{}", None).err(), Some(OrmError::InvalidQueryJson));
    assert_eq!(update_filtered(&idle, "User", q, "nope", None).err(), Some(OrmError::InvalidRecordJson));
    assert_eq!(update_filtered(&idle, "User", q, "[]", None).err(), Some(OrmError::InvalidRecordJson));
    assert_eq!(update_filtered(&idle, "User", q, "{}", None).err(), Some(OrmError::EngineNotInitialized));
    assert_eq!(fetch_filtered(&idle, "User", q, None).err(), Some(OrmError::EngineNotInitialized));
}

#[test]
fn records_are_read_after_connection_and_model_are_found() {
    let idle = Core::new();
    assert_eq!(save_record(&idle, "User", "nope", None).err(), Some(OrmError::EngineNotInitialized));
    let ready = ready_core();
    assert_eq!(save_record(&ready, "Ghost", "nope", None).err(), Some(OrmError::ModelNotFound));
    assert_eq!(save_record(&ready, "User", "nope", None).err(), Some(OrmError::InvalidRecordJson));
    assert_eq!(save_record(&ready, "User", "[]", None).err(), Some(OrmError::InvalidRecordJson));
    assert_eq!(save_bulk_records(&ready, "User", "nope").err(), Some(OrmError::InvalidRecordJson));
    assert_eq!(save_bulk_records(&ready, "User", "{}").err(), Some(OrmError::InvalidRecordJson));
    assert_eq!(save_bulk_records(&ready, "User", "[]"), Ok(None));
    assert_eq!(
        fetch_filtered(&ready, "User", r#"{"model_name": "User", "where_clause": [{"is_compound": false, "operator": "IN", "column": "a", "value": 1}]}"#, None).err(),
        Some(OrmError::InvalidOperand)
    );
}
