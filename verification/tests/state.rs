use ferro_core::connection::{connect, reset_engine};
use ferro_core::decode::{RawCell, RustValue};
use ferro_core::operations::{
    begin_transaction, clear_registry, commit_transaction, count_filtered, create_tables,
    decode_model_row, live_instance,
    delete_filtered, delete_record, evict_instance, fetch_all, fetch_filtered, fetch_one,
    finish_bulk_write, internal_create_tables, register_instance, register_model_schema,
    rollback_transaction, save_bulk_records, save_record, update_filtered,
};
use ferro_core::state::{Core, EngineState, FetchOne, Route};
use ferro_core::error::OrmError;
use ferro_core::identity::{outlives_eviction, IdentityMap};
use ferro_core::registry::SchemaRegistry;
use ferro_core::text::{same_str, same_text};
use ferro_core::transaction::TransactionRegistry;
use ferro_core::value::SqlValue;

const USER: &str = r#"{"properties": {"id": {"type": "integer", "primary_key": true}, "active": {"type": "boolean"}}}"#;
const NOTE: &str = r#"{"properties": {"body": {"type": "string", "index": true}}}"#;

fn connected() -> Core {
    let mut core = Core::new();
    register_model_schema(&mut core, "User", USER).unwrap();
    register_model_schema(&mut core, "Note", NOTE).unwrap();
    connect(&mut core);
    core
}

const BY_AGE: &str = r#"{"model_name": "Anything", "where_clause": [{"is_compound": false, "operator": ">", "column": "age", "value": 3}]}"#;

#[test]
fn registry_replaces_and_reports_missing_models() {
    let mut registry = SchemaRegistry::new();
    assert_eq!(registry.get("User").err(), Some(OrmError::ModelNotFound));
    assert_eq!(registry.register("User", USER), Ok(()));
    assert_eq!(registry.get("User").unwrap().columns.len(), 2);
    assert_eq!(registry.register("Note", NOTE), Ok(()));
    assert_eq!(registry.register("User", NOTE), Ok(()));
    assert_eq!(registry.len(), 2);
    assert_eq!(registry.get("User").unwrap().columns[0].name, "body");
    assert_eq!(registry.get("Note").unwrap().columns[0].name, "body");
    assert_eq!(registry.name_at(0), "User");
    assert!(registry.lookup("user").is_none());
    registry.clear();
    assert_eq!(registry.len(), 0);
    assert_eq!(registry.get("Note").err(), Some(OrmError::ModelNotFound));
}

#[test]
fn registry_refuses_text_that_is_not_json() {
    let mut registry = SchemaRegistry::new();
    registry.register("User", USER).unwrap();
    assert_eq!(registry.register("User", "{not json"), Err(OrmError::InvalidSchema));
    assert_eq!(registry.register("Other", ""), Err(OrmError::InvalidSchema));
    assert_eq!(registry.len(), 1);
    assert_eq!(registry.get("User").unwrap().columns.len(), 2);
}

#[test]
fn identity_map_returns_the_registered_handle() {
    let mut map = IdentityMap::new();
    assert_eq!(map.get("User", "1"), None);
    map.insert("User", "1", 11);
    map.insert("User", "2", 12);
    map.insert("Note", "1", 21);
    assert_eq!(map.get("User", "1"), Some(11));
    assert_eq!(map.get("User", "1"), Some(11));
    assert_eq!(map.get("Note", "1"), Some(21));
    map.insert("User", "1", 99);
    assert_eq!(map.get("User", "1"), Some(99));
    map.evict("User", "1");
    assert_eq!(map.get("User", "1"), None);
    assert_eq!(map.get("User", "2"), Some(12));
    map.evict("User", "404");
    assert_eq!(map.get("User", "2"), Some(12));
}

#[test]
fn evicting_a_model_leaves_the_other_models() {
    let mut map = IdentityMap::new();
    map.insert("User", "1", 11);
    map.insert("User", "2", 12);
    map.insert("Note", "1", 21);
    map.evict_all_for_model("User");
    assert_eq!(map.get("User", "1"), None);
    assert_eq!(map.get("User", "2"), None);
    assert_eq!(map.get("Note", "1"), Some(21));
    map.clear();
    assert_eq!(map.get("Note", "1"), None);
    assert!(outlives_eviction("Note", "User"));
    assert!(!outlives_eviction("User", "User"));
    assert!(same_str("a", "a") && !same_str("a", "A"));
    assert!(same_text(&"a".to_string(), "a") && !same_text(&"a".to_string(), "ab"));
}

#[test]
fn transactions_are_found_only_while_under_way() {
    let mut txs = TransactionRegistry::new();
    let a = txs.begin(1);
    let b = txs.begin(2);
    assert_eq!(a.len(), 36);
    assert_ne!(a, b);
    assert_eq!(txs.connection(&a), Ok(1));
    assert_eq!(txs.connection(&b), Ok(2));
    assert_eq!(txs.connection("nope"), Err(OrmError::TransactionNotFound));
    assert_eq!(txs.finish(&a), Ok(1));
    assert_eq!(txs.connection(&a), Err(OrmError::TransactionNotFound));
    assert_eq!(txs.finish(&a), Err(OrmError::TransactionNotFound));
    assert_eq!(txs.connection(&b), Ok(2));
}

#[test]
fn engine_without_pool_refuses_pooled_operations() {
    let mut core = Core::new();
    core.registry.register("User", USER).unwrap();
    assert_eq!(core.engine, EngineState::Uninitialized);
    assert_eq!(core.route(None), Err(OrmError::EngineNotInitialized));
    assert_eq!(fetch_all(&core, "User", None).err(), Some(OrmError::EngineNotInitialized));
    assert_eq!(fetch_one(&core, "User", "1", None).err(), Some(OrmError::EngineNotInitialized));
    assert_eq!(fetch_filtered(&core, "User", BY_AGE, None).err(), Some(OrmError::EngineNotInitialized));
    assert_eq!(count_filtered(&core, "User", BY_AGE, None).err(), Some(OrmError::EngineNotInitialized));
    assert_eq!(save_record(&core, "User", "{}", None).err(), Some(OrmError::EngineNotInitialized));
    assert_eq!(save_bulk_records(&core, "User", "[]").err(), Some(OrmError::EngineNotInitialized));
    assert_eq!(delete_record(&core, "User", "1", None).err(), Some(OrmError::EngineNotInitialized));
    assert_eq!(delete_filtered(&core, "User", BY_AGE, None).err(), Some(OrmError::EngineNotInitialized));
    assert_eq!(
        update_filtered(&core, "User", BY_AGE, "{}", None).err(),
        Some(OrmError::EngineNotInitialized)
    );
    assert_eq!(create_tables(&core).err(), Some(OrmError::EngineNotInitialized));
    assert_eq!(begin_transaction(&mut core, 1), Err(OrmError::EngineNotInitialized));
    assert_eq!(internal_create_tables(&core).len(), 1);
}

#[test]
fn statements_follow_their_transaction() {
    let mut core = connected();
    let tx = begin_transaction(&mut core, 5).unwrap();
    assert_eq!(core.route(None), Ok(Route::Pool));
    assert_eq!(core.route(Some(&tx)), Ok(Route::Transaction(5)));
    assert_eq!(core.route(Some("stale")), Err(OrmError::TransactionNotFound));
    assert_eq!(fetch_all(&core, "User", Some(&tx)).unwrap().route, Route::Transaction(5));
    assert_eq!(fetch_all(&core, "User", None).unwrap().route, Route::Pool);
    assert_eq!(fetch_all(&core, "User", Some("stale")).err(), Some(OrmError::TransactionNotFound));
    assert_eq!(save_record(&core, "User", r#"{"active": true}"#, Some(&tx)).unwrap().route, Route::Transaction(5));
    assert_eq!(commit_transaction(&mut core, &tx), Ok(5));
    assert_eq!(fetch_all(&core, "User", Some(&tx)).err(), Some(OrmError::TransactionNotFound));
    assert_eq!(commit_transaction(&mut core, &tx), Err(OrmError::TransactionNotFound));
    assert_eq!(rollback_transaction(&mut core, &tx), Err(OrmError::TransactionNotFound));
    let tx = begin_transaction(&mut core, 6).unwrap();
    assert_eq!(rollback_transaction(&mut core, &tx), Ok(6));
    assert_eq!(core.route(Some(&tx)), Err(OrmError::TransactionNotFound));
}

#[test]
fn fetch_plans_carry_statement_and_key_column() {
    let core = connected();
    let plan = fetch_all(&core, "User", None).unwrap();
    assert_eq!(plan.statement.sql, r#"SELECT * FROM "user""#);
    assert_eq!(plan.key_column, Some("id".to_string()));
    assert_eq!(fetch_all(&core, "Note", None).unwrap().key_column, None);
    assert_eq!(fetch_all(&core, "Ghost", None).err(), Some(OrmError::ModelNotFound));
    let plan = fetch_filtered(&core, "User", BY_AGE, None).unwrap();
    assert_eq!(plan.statement.sql, r#"SELECT * FROM "user" WHERE "age" > ?"#);
    assert_eq!(plan.statement.binds, vec![SqlValue::BigInt(3)]);
    assert_eq!(plan.key_column, Some("id".to_string()));
    let plan = count_filtered(&core, "User", BY_AGE, None).unwrap();
    assert_eq!(plan.statement.sql, r#"SELECT COUNT(*) FROM "user" WHERE "age" > ?"#);
}

#[test]
fn fetch_one_is_served_from_the_identity_map() {
    let mut core = connected();
    match fetch_one(&core, "User", "1", None).unwrap() {
        FetchOne::Query(plan) => {
            assert_eq!(plan.statement.sql, r#"SELECT * FROM "user" WHERE "id" = ?"#);
            assert_eq!(plan.statement.binds, vec![SqlValue::Text("1".to_string())]);
            assert_eq!(plan.route, Route::Pool);
        }
        other => panic!("expected a query, got {:?}", other),
    }
    register_instance(&mut core, "User", "1", 77);
    assert_eq!(fetch_one(&core, "User", "1", None), Ok(FetchOne::Cached(77)));
    assert_eq!(fetch_one(&core, "User", "1", None), Ok(FetchOne::Cached(77)));
    assert_eq!(fetch_one(&core, "User", "1", Some("stale")), Ok(FetchOne::Cached(77)));
    evict_instance(&mut core, "User", "1");
    assert!(matches!(fetch_one(&core, "User", "1", None), Ok(FetchOne::Query(_))));
    assert_eq!(fetch_one(&core, "Note", "1", None).err(), Some(OrmError::NoPrimaryKey));
    assert_eq!(fetch_one(&core, "Ghost", "1", None).err(), Some(OrmError::ModelNotFound));
    assert_eq!(delete_record(&core, "Note", "1", None).err(), Some(OrmError::NoPrimaryKey));
    assert_eq!(delete_record(&core, "User", "1", None).unwrap().statement.sql, r#"DELETE FROM "user" WHERE "id" = ?"#);
}

#[test]
fn bulk_writes_invalidate_the_models_handles() {
    let mut core = connected();
    register_instance(&mut core, "User", "1", 77);
    register_instance(&mut core, "User", "2", 78);
    register_instance(&mut core, "Note", "1", 79);
    let plan = update_filtered(&core, "User", BY_AGE, r#"{"active": false}"#, None).unwrap();
    assert_eq!(plan.statement.sql, r#"UPDATE "user" SET "active" = ? WHERE "age" > ?"#);
    assert_eq!(plan.statement.binds, vec![SqlValue::Bool(false), SqlValue::BigInt(3)]);
    assert_eq!(fetch_one(&core, "User", "1", None), Ok(FetchOne::Cached(77)));
    finish_bulk_write(&mut core, "User");
    assert!(matches!(fetch_one(&core, "User", "1", None), Ok(FetchOne::Query(_))));
    assert!(matches!(fetch_one(&core, "User", "2", None), Ok(FetchOne::Query(_))));
    assert_eq!(core.identities.get("Note", "1"), Some(79));
    let plan = delete_filtered(&core, "User", BY_AGE, None).unwrap();
    assert_eq!(plan.statement.sql, r#"DELETE FROM "user" WHERE "age" > ?"#);
}

#[test]
fn reset_drops_the_pool_and_the_handles_but_not_the_schemas() {
    let mut core = connected();
    register_instance(&mut core, "User", "1", 77);
    reset_engine(&mut core);
    assert_eq!(core.engine, EngineState::Uninitialized);
    assert_eq!(core.identities.get("User", "1"), None);
    assert!(core.registry.get("User").is_ok());
    assert_eq!(fetch_all(&core, "User", None).err(), Some(OrmError::EngineNotInitialized));
    connect(&mut core);
    assert!(fetch_all(&core, "User", None).is_ok());
}

#[test]
fn tables_are_planned_for_every_model_in_registration_order() {
    let core = connected();
    let plans = create_tables(&core).unwrap();
    assert_eq!(plans.len(), 2);
    assert_eq!(plans[0].model, "User");
    assert_eq!(
        plans[0].statements.table,
        r#"CREATE TABLE IF NOT EXISTS "user" ( "active" integer, "id" integer PRIMARY KEY AUTOINCREMENT )"#
    );
    assert_eq!(plans[1].model, "Note");
    assert_eq!(
        plans[1].statements.indexes,
        vec![r#"CREATE INDEX IF NOT EXISTS "idx_note_body" ON "note" ("body")"#.to_string()]
    );
}

#[test]
fn save_goes_through_the_models_schema() {
    let core = connected();
    let plan = save_record(&core, "User", r#"{"id": null, "active": true}"#, None).unwrap();
    assert_eq!(plan.statement.sql, r#"INSERT INTO "user" ("active") VALUES (?)"#);
    assert_eq!(plan.statement.binds, vec![SqlValue::Bool(true)]);
    assert_eq!(save_record(&core, "Ghost", "{}", None).err(), Some(OrmError::ModelNotFound));
    assert_eq!(save_record(&core, "User", "1", None).err(), Some(OrmError::InvalidRecordJson));
    assert_eq!(save_bulk_records(&core, "User", "[]"), Ok(None));
    let bulk = save_bulk_records(&core, "User", r#"[{"active": true}, {"active": false}]"#).unwrap().unwrap();
    assert_eq!(bulk.route, Route::Pool);
    assert_eq!(bulk.statement.sql, r#"INSERT INTO "user" ("active") VALUES (?), (?)"#);
}

#[test]
fn rows_decode_under_the_registered_schema() {
    let core = connected();
    let cell = RawCell { integer: Some(1), float: None, text: None, bytes: None, boolean: None };
    let row = vec![("active".to_string(), cell.clone()), ("id".to_string(), cell.clone())];
    assert_eq!(
        decode_model_row(&core, "User", &row),
        vec![("active".to_string(), RustValue::Bool(true)), ("id".to_string(), RustValue::BigInt(1))]
    );
    assert_eq!(
        decode_model_row(&core, "Ghost", &row),
        vec![("active".to_string(), RustValue::BigInt(1)), ("id".to_string(), RustValue::BigInt(1))]
    );
}

#[test]
fn registering_through_the_core_reports_invalid_schemas() {
    let mut core = Core::new();
    assert_eq!(register_model_schema(&mut core, "User", "nope"), Err(OrmError::InvalidSchema));
    assert_eq!(core.registry.len(), 0);
    assert_eq!(register_model_schema(&mut core, "User", USER), Ok(()));
    assert_eq!(core.registry.len(), 1);
    assert_eq!(core.engine, EngineState::Uninitialized);
}

#[test]
fn fetched_rows_reuse_the_live_instance_of_their_key() {
    let mut core = connected();
    assert_eq!(live_instance(&core, "User", Some("1")), None);
    register_instance(&mut core, "User", "1", 5);
    assert_eq!(live_instance(&core, "User", Some("1")), Some(5));
    assert_eq!(live_instance(&core, "User", Some("1")), Some(5));
    assert_eq!(live_instance(&core, "User", Some("2")), None);
    assert_eq!(live_instance(&core, "User", None), None);
    clear_registry(&mut core);
    assert_eq!(core.registry.len(), 0);
    assert_eq!(live_instance(&core, "User", Some("1")), Some(5));
}

#[test]
fn documents_can_be_put_under_a_name_directly() {
    let mut registry = SchemaRegistry::new();
    let one = ferro_core::schema::SchemaDocument { columns: vec![] };
    registry.insert("A", one.clone());
    registry.register("B", USER).unwrap();
    assert_eq!(registry.get("A"), Ok(&one));
    registry.insert("B", one.clone());
    assert_eq!(registry.get("B"), Ok(&one));
    assert_eq!(registry.len(), 2);
    assert_eq!(registry.name_at(1), "B");
    assert_eq!(registry.document_at(0), &one);
}

#[test]
fn a_transaction_can_begin_under_a_given_identifier() {
    let mut txs = TransactionRegistry::new();
    txs.begin_under("t-1", 4);
    txs.begin_under("t-2", 5);
    assert_eq!(txs.connection("t-1"), Ok(4));
    txs.begin_under("t-1", 6);
    assert_eq!(txs.connection("t-1"), Ok(6));
    assert_eq!(txs.finish("t-2"), Ok(5));
    assert_eq!(txs.connection("t-2"), Err(OrmError::TransactionNotFound));
}

#[test]
fn registry_refuses_documents_that_are_no_schema() {
    let mut registry = SchemaRegistry::new();
    registry.register("User", USER).unwrap();
    for text in ["{", "[]", "42", "null", "{}", r#"{"title": "User"}"#, r#"{"properties": 3}"#] {
        assert_eq!(registry.register("User", text), Err(OrmError::InvalidSchema), "{}", text);
        assert_eq!(registry.register("Other", text), Err(OrmError::InvalidSchema), "{}", text);
        assert_eq!(registry.len(), 1);
        assert_eq!(registry.get("User").unwrap().columns.len(), 2);
        assert_eq!(registry.get("Other").err(), Some(OrmError::ModelNotFound));
    }
    assert_eq!(registry.register("Empty", r#"{"properties": {}}"#), Ok(()));
    assert_eq!(registry.get("Empty").unwrap().columns.len(), 0);
}

#[test]
fn the_core_refuses_documents_that_are_no_schema() {
    let mut core = Core::new();
    register_model_schema(&mut core, "User", USER).unwrap();
    for text in ["{", "[]", "42", "{}", r#"{"properties": []}"#] {
        assert_eq!(register_model_schema(&mut core, "User", text), Err(OrmError::InvalidSchema));
        assert_eq!(core.registry.len(), 1);
        assert_eq!(core.registry.get("User").unwrap().columns.len(), 2);
    }
    assert_eq!(internal_create_tables(&core).len(), 1);
}
