use ferro_core::error::OrmError;
use ferro_core::json::Json;
use ferro_core::save::{compile_save, compile_save_bulk, needs_row_id_query, resolve_generated_key};
use ferro_core::schema::SchemaDocument;
use ferro_core::value::SqlValue;

fn json(text: &str) -> Json {
    Json::parse(text).unwrap()
}

fn user_schema() -> SchemaDocument {
    SchemaDocument::from_json(&json(
        r#"{"properties": {"id": {"type": "integer", "primary_key": true},
                            "name": {"type": "string"}, "age": {"type": "integer"}}}"#,
    ))
    .unwrap()
}

fn coded_schema() -> SchemaDocument {
    SchemaDocument::from_json(&json(
        r#"{"properties": {"code": {"type": "string", "primary_key": true, "autoincrement": false},
                            "label": {"type": "string"}}}"#,
    ))
    .unwrap()
}

#[test]
fn absent_generated_key_is_left_out_and_nothing_conflicts() {
    let st = compile_save("User", &user_schema(), &json(r#"{"id": null, "name": "ann", "age": 30}"#)).unwrap();
    assert_eq!(st.sql, r#"INSERT INTO "user" ("age", "name") VALUES (?, ?)"#);
    assert_eq!(st.binds, vec![SqlValue::BigInt(30), SqlValue::Text("ann".to_string())]);
    let st = compile_save("User", &user_schema(), &json(r#"{"name": "ann"}"#)).unwrap();
    assert_eq!(st.sql, r#"INSERT INTO "user" ("name") VALUES (?)"#);
}

#[test]
fn supplied_key_updates_all_other_supplied_columns() {
    let st = compile_save("User", &user_schema(), &json(r#"{"id": 5, "name": "ann", "age": 30}"#)).unwrap();
    assert_eq!(
        st.sql,
        r#"INSERT INTO "user" ("age", "id", "name") VALUES (?, ?, ?) ON CONFLICT ("id") DO UPDATE SET "age" = "excluded"."age", "name" = "excluded"."name""#
    );
    assert_eq!(
        st.binds,
        vec![SqlValue::BigInt(30), SqlValue::BigInt(5), SqlValue::Text("ann".to_string())]
    );
}

#[test]
fn supplied_key_alone_has_nothing_to_update() {
    let st = compile_save("User", &user_schema(), &json(r#"{"id": 5}"#)).unwrap();
    assert_eq!(st.sql, r#"INSERT INTO "user" ("id") VALUES (?)"#);
    assert_eq!(st.binds, vec![SqlValue::BigInt(5)]);
}

#[test]
fn key_that_is_not_generated_always_conflicts() {
    let st = compile_save("Code", &coded_schema(), &json(r#"{"code": "a", "label": "x"}"#)).unwrap();
    assert_eq!(
        st.sql,
        r#"INSERT INTO "code" ("code", "label") VALUES (?, ?) ON CONFLICT ("code") DO UPDATE SET "label" = "excluded"."label""#
    );
    let st = compile_save("Code", &coded_schema(), &json(r#"{"code": null, "label": "x"}"#)).unwrap();
    assert_eq!(
        st.sql,
        r#"INSERT INTO "code" ("code", "label") VALUES (?, ?) ON CONFLICT ("code") DO UPDATE SET "label" = "excluded"."label""#
    );
    assert_eq!(st.binds, vec![SqlValue::Null, SqlValue::Text("x".to_string())]);
}

#[test]
fn schema_without_key_never_conflicts() {
    let schema =
        SchemaDocument::from_json(&json(r#"{"properties": {"a": {"type": "integer"}}}"#)).unwrap();
    let st = compile_save("Log", &schema, &json(r#"{"a": 1, "b": [1, 2]}"#)).unwrap();
    assert_eq!(st.sql, r#"INSERT INTO "log" ("a", "b") VALUES (?, ?)"#);
    assert_eq!(st.binds, vec![SqlValue::BigInt(1), SqlValue::Text("[1,2]".to_string())]);
}

#[test]
fn record_must_be_an_object() {
    assert_eq!(compile_save("User", &user_schema(), &json("[1]")), Err(OrmError::InvalidRecordJson));
    assert_eq!(compile_save("User", &user_schema(), &json("3")), Err(OrmError::InvalidRecordJson));
}

#[test]
fn bulk_insert_is_one_statement_over_the_first_records_columns() {
    let st = compile_save_bulk(
        "User",
        &user_schema(),
        &json(r#"[{"id": null, "name": "ann", "age": 30}, {"name": "bob", "extra": 1}, {"id": 9, "age": 2, "name": "cy"}]"#),
    )
    .unwrap()
    .unwrap();
    assert_eq!(st.sql, r#"INSERT INTO "user" ("age", "name") VALUES (?, ?), (?, ?), (?, ?)"#);
    assert_eq!(
        st.binds,
        vec![
            SqlValue::BigInt(30),
            SqlValue::Text("ann".to_string()),
            SqlValue::Null,
            SqlValue::Text("bob".to_string()),
            SqlValue::BigInt(2),
            SqlValue::Text("cy".to_string()),
        ]
    );
}

#[test]
fn bulk_insert_of_nothing_has_no_statement() {
    assert_eq!(compile_save_bulk("User", &user_schema(), &json("[]")), Ok(None));
}

#[test]
fn bulk_records_must_be_an_array_of_objects() {
    assert_eq!(compile_save_bulk("User", &user_schema(), &json("{}")), Err(OrmError::InvalidRecordJson));
    assert_eq!(
        compile_save_bulk("User", &user_schema(), &json(r#"[{"name": "a"}, 3]"#)),
        Err(OrmError::InvalidRecordJson)
    );
    assert_eq!(compile_save_bulk("User", &user_schema(), &json(r#"[3]"#)), Err(OrmError::InvalidRecordJson));
}

#[test]
fn generated_key_prefers_what_the_statement_reported() {
    assert_eq!(resolve_generated_key(Some(7), Some(9)), Some(7));
    assert_eq!(resolve_generated_key(Some(7), None), Some(7));
    assert_eq!(resolve_generated_key(Some(-3), Some(9)), Some(-3));
}

#[test]
fn generated_key_falls_back_to_the_row_id_query() {
    assert_eq!(resolve_generated_key(None, Some(9)), Some(9));
    assert_eq!(resolve_generated_key(Some(0), Some(9)), Some(9));
    assert_eq!(resolve_generated_key(Some(0), Some(0)), Some(0));
    assert_eq!(resolve_generated_key(Some(0), Some(-1)), Some(0));
    assert_eq!(resolve_generated_key(None, Some(0)), None);
    assert_eq!(resolve_generated_key(None, None), None);
    assert!(needs_row_id_query(None));
    assert!(needs_row_id_query(Some(0)));
    assert!(!needs_row_id_query(Some(1)));
}
