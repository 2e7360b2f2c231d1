use ferro_core::compile::{
    compile_count, compile_delete, compile_delete_by_key, compile_select, compile_select_all,
    compile_select_by_key, compile_update,
};
use ferro_core::error::OrmError;
use ferro_core::json::{Json, JsonNumber};
use ferro_core::query::{direction_from, direction_from_lowered, OrderBy, QueryDef, QueryNode};
use ferro_core::sql::{double_value, Direction};
use ferro_core::value::SqlValue;

fn json(text: &str) -> Json {
    Json::parse(text).unwrap()
}

fn simple(column: &str, operator: &str, value: &str) -> QueryNode {
    QueryNode {
        is_compound: false,
        operator: operator.to_string(),
        column: Some(column.to_string()),
        value: Some(json(value)),
        left: None,
        right: None,
    }
}

fn compound(operator: &str, left: QueryNode, right: QueryNode) -> QueryNode {
    QueryNode {
        is_compound: true,
        operator: operator.to_string(),
        column: None,
        value: None,
        left: Some(Box::new(left)),
        right: Some(Box::new(right)),
    }
}

fn query(nodes: Vec<QueryNode>) -> QueryDef {
    QueryDef { model_name: "User".to_string(), where_clause: nodes, order_by: None, limit: None, offset: None }
}

#[test]
fn or_of_two_comparisons_binds_left_to_right() {
    let q = query(vec![compound("OR", simple("age", ">=", "18"), simple("age", "<", "13"))]);
    let st = compile_select(&q).unwrap();
    assert_eq!(st.sql, r#"SELECT * FROM "user" WHERE "age" >= ? OR "age" < ?"#);
    assert_eq!(st.sql.matches('?').count(), 2);
    assert_eq!(st.binds, vec![SqlValue::BigInt(18), SqlValue::BigInt(13)]);
}

#[test]
fn or_below_a_top_level_and_is_parenthesized() {
    let q = query(vec![
        simple("name", "==", r#""ann""#),
        compound("OR", simple("age", ">=", "18"), simple("age", "<", "13")),
    ]);
    let st = compile_select(&q).unwrap();
    assert_eq!(st.sql, r#"SELECT * FROM "user" WHERE "name" = ? AND ("age" >= ? OR "age" < ?)"#);
    assert_eq!(
        st.binds,
        vec![SqlValue::Text("ann".to_string()), SqlValue::BigInt(18), SqlValue::BigInt(13)]
    );
}

#[test]
fn nested_compounds_keep_their_grouping() {
    let q = query(vec![compound(
        "AND",
        compound("OR", simple("a", "==", "1"), simple("b", "!=", "2")),
        compound("OR", simple("c", "<=", "3"), simple("d", ">", "4")),
    )]);
    let st = compile_select(&q).unwrap();
    assert_eq!(
        st.sql,
        r#"SELECT * FROM "user" WHERE ("a" = ? OR "b" <> ?) AND ("c" <= ? OR "d" > ?)"#
    );
    assert_eq!(
        st.binds,
        vec![SqlValue::BigInt(1), SqlValue::BigInt(2), SqlValue::BigInt(3), SqlValue::BigInt(4)]
    );
}

#[test]
fn every_comparison_operator_has_its_sign() {
    for (op, sign) in [("==", "="), ("!=", "<>"), ("<", "<"), ("<=", "<="), (">", ">"), (">=", ">=")] {
        let st = compile_select(&query(vec![simple("n", op, "5")])).unwrap();
        assert_eq!(st.sql, format!(r#"SELECT * FROM "user" WHERE "n" {} ?"#, sign));
        assert_eq!(st.binds, vec![SqlValue::BigInt(5)]);
    }
}

#[test]
fn in_takes_an_array_and_binds_each_item() {
    let st = compile_select(&query(vec![simple("id", "IN", r#"[3, "x", true, null]"#)])).unwrap();
    assert_eq!(st.sql, r#"SELECT * FROM "user" WHERE "id" IN (?, ?, ?, ?)"#);
    assert_eq!(
        st.binds,
        vec![SqlValue::BigInt(3), SqlValue::Text("x".to_string()), SqlValue::Bool(true), SqlValue::Null]
    );
}

#[test]
fn in_over_a_non_array_is_an_invalid_operand() {
    assert_eq!(compile_select(&query(vec![simple("id", "IN", "3")])), Err(OrmError::InvalidOperand));
    assert_eq!(compile_count(&query(vec![simple("id", "IN", r#""a""#)])), Err(OrmError::InvalidOperand));
    assert_eq!(compile_delete(&query(vec![simple("id", "IN", "{}")])), Err(OrmError::InvalidOperand));
}

#[test]
fn in_over_no_value_compares_two_bound_constants() {
    let st = compile_select(&query(vec![simple("id", "IN", "[]")])).unwrap();
    assert_eq!(st.sql, r#"SELECT * FROM "user" WHERE ? = ?"#);
    assert_eq!(st.binds, vec![SqlValue::Int(1), SqlValue::Int(2)]);
}

#[test]
fn like_passes_the_pattern_on_verbatim() {
    let st = compile_select(&query(vec![simple("name", "LIKE", r#""a%_\\b""#)])).unwrap();
    assert_eq!(st.sql, r#"SELECT * FROM "user" WHERE "name" LIKE ?"#);
    assert_eq!(st.binds, vec![SqlValue::Text("a%_\\b".to_string())]);
    let st = compile_select(&query(vec![simple("name", "LIKE", "[1,  2]")])).unwrap();
    assert_eq!(st.binds, vec![SqlValue::Text("[1,2]".to_string())]);
}

#[test]
fn unknown_operators_are_rejected() {
    assert_eq!(compile_select(&query(vec![simple("a", "=~", "1")])), Err(OrmError::InvalidQueryJson));
    assert_eq!(
        compile_select(&query(vec![compound("XOR", simple("a", "==", "1"), simple("b", "==", "2"))])),
        Err(OrmError::InvalidQueryJson)
    );
    assert_eq!(
        compile_select(&query(vec![compound("or", simple("a", "==", "1"), simple("b", "==", "2"))])),
        Err(OrmError::InvalidQueryJson)
    );
}

#[test]
fn nodes_that_lack_a_part_are_rejected() {
    let mut node = simple("a", "==", "1");
    node.column = None;
    assert_eq!(compile_select(&query(vec![node])), Err(OrmError::InvalidQueryJson));
    let mut node = simple("a", "==", "1");
    node.value = None;
    assert_eq!(compile_select(&query(vec![node])), Err(OrmError::InvalidQueryJson));
    let mut node = compound("AND", simple("a", "==", "1"), simple("b", "==", "2"));
    node.right = None;
    assert_eq!(compile_select(&query(vec![node])), Err(OrmError::InvalidQueryJson));
}

#[test]
fn the_first_failing_node_decides_the_error() {
    let q = query(vec![simple("a", "IN", "1"), simple("b", "??", "2")]);
    assert_eq!(compile_select(&q), Err(OrmError::InvalidOperand));
    let q = query(vec![simple("b", "??", "2"), simple("a", "IN", "1")]);
    assert_eq!(compile_select(&q), Err(OrmError::InvalidQueryJson));
}

#[test]
fn ordering_keeps_its_sequence_and_defaults_to_ascending() {
    let mut q = query(vec![]);
    q.order_by = Some(vec![
        OrderBy { column: "name".to_string(), direction: "DESC".to_string() },
        OrderBy { column: "age".to_string(), direction: "asc".to_string() },
        OrderBy { column: "id".to_string(), direction: "Desc".to_string() },
        OrderBy { column: "zip".to_string(), direction: "descending".to_string() },
    ]);
    let st = compile_select(&q).unwrap();
    assert_eq!(
        st.sql,
        r#"SELECT * FROM "user" WHERE TRUE ORDER BY "name" DESC, "age" ASC, "id" DESC, "zip" ASC"#
    );
    assert!(st.binds.is_empty());
}

#[test]
fn limit_and_offset_are_bound_after_the_filter() {
    let mut q = query(vec![simple("age", ">", "30")]);
    q.limit = Some(10);
    q.offset = Some(20);
    let st = compile_select(&q).unwrap();
    assert_eq!(st.sql, r#"SELECT * FROM "user" WHERE "age" > ? LIMIT ? OFFSET ?"#);
    assert_eq!(
        st.binds,
        vec![SqlValue::BigInt(30), SqlValue::BigUnsigned(10), SqlValue::BigUnsigned(20)]
    );
    q.limit = None;
    let st = compile_select(&q).unwrap();
    assert_eq!(st.binds, vec![SqlValue::BigInt(30), SqlValue::BigUnsigned(20)]);
}

#[test]
fn json_values_are_bound_by_their_kind() {
    assert_eq!(SqlValue::from_json(&json("7")), SqlValue::BigInt(7));
    assert_eq!(SqlValue::from_json(&json("-9223372036854775808")), SqlValue::BigInt(i64::MIN));
    assert_eq!(SqlValue::from_json(&json("1.5")), SqlValue::Double("1.5".to_string()));
    assert_eq!(SqlValue::from_json(&json(r#""t""#)), SqlValue::Text("t".to_string()));
    assert_eq!(SqlValue::from_json(&json("false")), SqlValue::Bool(false));
    assert_eq!(SqlValue::from_json(&json("null")), SqlValue::Null);
    assert_eq!(
        SqlValue::from_json(&json(r#"{"b": [1, 2], "a": null}"#)),
        SqlValue::Text(r#"{"a":null,"b":[1,2]}"#.to_string())
    );
}

#[test]
fn a_double_comes_back_from_the_builder_as_the_same_number() {
    let st = compile_select(&query(vec![simple("score", ">=", "2.50")])).unwrap();
    assert_eq!(st.binds, vec![SqlValue::Double("2.5".to_string())]);
    let big = SqlValue::from_json(&json("18446744073709551615"));
    match big {
        SqlValue::Double(text) => assert_eq!(text.parse::<f64>().unwrap(), 18446744073709551615u64 as f64),
        other => panic!("not a double: {:?}", other),
    }
}

#[test]
fn hand_made_integer_matches_the_parsed_one() {
    assert_eq!(Json::integer(42), json("42"));
    assert_eq!(
        Json::integer(-1),
        Json::Number(JsonNumber { integer: Some(-1), unsigned: None, text: "-1".to_string() })
    );
    assert_eq!(Json::integer(42).render(), "42");
}

#[test]
fn count_ignores_ordering_and_paging() {
    let mut q = query(vec![simple("age", ">", "30")]);
    q.limit = Some(1);
    q.order_by = Some(vec![OrderBy { column: "age".to_string(), direction: "desc".to_string() }]);
    let st = compile_count(&q).unwrap();
    assert_eq!(st.sql, r#"SELECT COUNT(*) FROM "user" WHERE "age" > ?"#);
    assert_eq!(st.binds, vec![SqlValue::BigInt(30)]);
}

#[test]
fn delete_compiles_the_filter() {
    let st = compile_delete(&query(vec![simple("age", "<", "13"), simple("name", "LIKE", r#""x%""#)])).unwrap();
    assert_eq!(st.sql, r#"DELETE FROM "user" WHERE "age" < ? AND "name" LIKE ?"#);
    assert_eq!(st.binds, vec![SqlValue::BigInt(13), SqlValue::Text("x%".to_string())]);
}

#[test]
fn update_binds_assignments_before_the_filter() {
    let q = query(vec![simple("id", "==", "4")]);
    let st = compile_update(&q, &json(r#"{"name": "bob", "age": 31}"#)).unwrap();
    assert_eq!(st.sql, r#"UPDATE "user" SET "age" = ?, "name" = ? WHERE "id" = ?"#);
    assert_eq!(
        st.binds,
        vec![SqlValue::BigInt(31), SqlValue::Text("bob".to_string()), SqlValue::BigInt(4)]
    );
}

#[test]
fn update_needs_an_object_of_assignments() {
    let q = query(vec![simple("id", "IN", "4")]);
    assert_eq!(compile_update(&q, &json("[1]")), Err(OrmError::InvalidRecordJson));
    assert_eq!(compile_update(&q, &json(r#"{"a": 1}"#)), Err(OrmError::InvalidOperand));
}

#[test]
fn statements_by_key_bind_the_key_as_text() {
    let st = compile_select_by_key("User", "id", "7");
    assert_eq!(st.sql, r#"SELECT * FROM "user" WHERE "id" = ?"#);
    assert_eq!(st.binds, vec![SqlValue::Text("7".to_string())]);
    let st = compile_delete_by_key("User", "id", "7");
    assert_eq!(st.sql, r#"DELETE FROM "user" WHERE "id" = ?"#);
    assert_eq!(st.binds, vec![SqlValue::Text("7".to_string())]);
    let st = compile_select_all("BlogPost");
    assert_eq!(st.sql, r#"SELECT * FROM "blogpost""#);
    assert!(st.binds.is_empty());
}

#[test]
fn to_condition_adds_every_clause() {
    let q = query(vec![simple("a", "==", "1"), simple("b", "==", "2")]);
    let condition = q.to_condition().unwrap();
    assert_eq!(condition.len(), 2);
    assert_eq!(query(vec![]).to_condition().unwrap().len(), 0);
    let one = QueryDef::node_to_condition(&compound("OR", simple("a", "==", "1"), simple("b", "==", "2"))).unwrap();
    assert_eq!(one.len(), 2);
}

#[test]
fn messages_name_the_error() {
    assert_eq!(OrmError::InvalidOperand.message(), "IN expects an array");
    assert_eq!(OrmError::TransactionNotFound.message(), "Transaction not found");
    assert_eq!(OrmError::EngineNotInitialized.message(), "Engine not initialized");
}

#[test]
fn directions_are_named_in_lower_case() {
    assert_eq!(direction_from_lowered(&"desc".to_string()), Direction::Desc);
    assert_eq!(direction_from_lowered(&"DESC".to_string()), Direction::Asc);
    assert_eq!(direction_from_lowered(&"asc".to_string()), Direction::Asc);
    assert_eq!(direction_from("DeSc"), Direction::Desc);
    assert_eq!(direction_from(""), Direction::Asc);
}

#[test]
fn a_double_is_held_as_its_float_is_written() {
    assert_eq!(double_value("2.50"), SqlValue::Double("2.5".to_string()));
    assert_eq!(double_value("1.0"), SqlValue::Double("1".to_string()));
    assert_eq!(double_value("1e2"), SqlValue::Double("100".to_string()));
    assert_eq!(double_value("-0.125"), SqlValue::Double("-0.125".to_string()));
    assert_eq!(double_value("not a number"), SqlValue::Null);
    assert_eq!(double_value("2.5"), double_value("2.50"));
    let st = compile_select(&query(vec![simple("score", "IN", "[1.0, 1.00, 2]")])).unwrap();
    assert_eq!(
        st.binds,
        vec![SqlValue::Double("1".to_string()), SqlValue::Double("1".to_string()), SqlValue::BigInt(2)]
    );
    let st = compile_update(&query(vec![]), &json(r#"{"score": 0.50}"#)).unwrap();
    assert_eq!(st.binds, vec![SqlValue::Double("0.5".to_string())]);
}
