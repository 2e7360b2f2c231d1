//! What each operation decides before and after its statement runs: the
//! connection to run it on, the statement itself, and what becomes of the
//! identity map.

use vstd::prelude::*;
use crate::compile::{
    compile_count, compile_delete, compile_delete_by_key, compile_select, compile_select_all,
    compile_select_by_key, compile_update, count_plan, deletes, key_group, select_all_shape,
    select_by_key_shape, select_plan, selects, update_plan, updates,
};
use crate::ddl::{compile_create, index_texts, table_plan, table_sql};
use crate::decode::{RawCell, RustValue, decode_row, row_decoded};
use crate::error::OrmError;
use crate::identity::without_model;
use crate::json::Json;
use crate::query::{QueryView, where_group};
use crate::save::{bulk_plan, compile_save, compile_save_bulk, inserts, key_name, key_of, save_plan};
use crate::schema::{Column, SchemaDocument, columns_read, properties_of, schema_of_text};
use crate::sql::{Group, InsertShape, SelectShape, UpdateShape};
use crate::state::{Core, EngineState, FetchOne, FetchPlan, ModelTables, Plan, Route, key_views, tx_view};
use crate::text::lowercased;
use crate::transaction::connection_of;
use crate::wire::{query_of_text, read_query, read_record, record_of_text};

verus! {

/// Whether `plans` are the tables of the registered models, one for each
/// model and in the registry's order.
pub open spec fn tables_planned(plans: Seq<ModelTables>, entries: Seq<(String, SchemaDocument)>) -> bool {
    &&& plans.len() == entries.len()
    &&& forall|i: int|
        0 <= i < entries.len() ==> (#[trigger] plans[i]).model@ == entries[i].0@
            && plans[i].statements.table@ == table_sql(
            table_plan(entries[i].0@, entries[i].1.columns@),
        ) && plans[i].statements.index_views() == index_texts(
            lowercased(entries[i].0@),
            entries[i].1.columns@,
        )
}

/// Registers a model under a name from the JSON text of its schema, in
/// place of any document that the name had; every later operation sees it.
/// A text that describes no schema (it is not JSON, or its document is no
/// JSON object with a `properties` object) is an invalid schema and changes
/// nothing.
pub fn register_model_schema(core: &mut Core, name: &str, schema: &str) -> (r: Result<(), OrmError>)
    ensures
        match r {
            Ok(_) => schema_of_text(schema@).is_some() && final(core).registry.document(
                name@,
            ).is_some() && columns_read(
                final(core).registry.document(name@).unwrap().columns@,
                properties_of(schema_of_text(schema@).unwrap()),
            ) && (forall|other: Seq<char>|
                other != name@
                    ==> final(core).registry.document(other) == old(core).registry.document(other)),
            Err(e) => e == OrmError::InvalidSchema
                && schema_of_text(schema@).is_none()
                && final(core).registry.entries() == old(core).registry.entries(),
        },
        final(core).engine == old(core).engine,
        final(core).identities == old(core).identities,
        final(core).transactions == old(core).transactions,
{
    core.registry.register(name, schema)
}

/// Removes every model from the schema registry.
pub fn clear_registry(core: &mut Core)
    ensures
        final(core).registry.entries().len() == 0,
        forall|name: Seq<char>| final(core).registry.document(name).is_none(),
        final(core).engine == old(core).engine,
        final(core).identities == old(core).identities,
        final(core).transactions == old(core).transactions,
{
    core.registry.clear();
}

/// Registers a connection on which `BEGIN` was issued as a new transaction
/// and returns its identifier. An engine without a pool begins none.
pub fn begin_transaction(core: &mut Core, connection: u64) -> (r: Result<String, OrmError>)
    ensures
        match r {
            Ok(id) => old(core).engine == EngineState::Connected
                && id@.len() == 36
                && final(core).transactions.open() == old(core).transactions.open().insert(id@, connection),
            Err(e) => e == OrmError::EngineNotInitialized && old(core).engine
                != EngineState::Connected && final(core).transactions == old(core).transactions,
        },
        final(core).engine == old(core).engine,
        final(core).registry == old(core).registry,
        final(core).identities == old(core).identities,
{
    match core.engine {
        EngineState::Uninitialized => Err(OrmError::EngineNotInitialized),
        EngineState::Connected => Ok(core.transactions.begin(connection)),
    }
}

/// Ends a transaction for commit: returns the connection on which to issue
/// `COMMIT`. The transaction is no longer under way, whatever becomes of
/// the statement. An identifier of no transaction under way is a
/// transaction not found.
pub fn commit_transaction(core: &mut Core, id: &str) -> (r: Result<u64, OrmError>)
    ensures
        match r {
            Ok(c) => connection_of(old(core).transactions.open(), id@) == Some(c)
                && final(core).transactions.open() == old(core).transactions.open().remove(id@),
            Err(e) => e == OrmError::TransactionNotFound
                && !old(core).transactions.open().contains_key(id@)
                && final(core).transactions.open() == old(core).transactions.open(),
        },
        final(core).engine == old(core).engine,
        final(core).registry == old(core).registry,
        final(core).identities == old(core).identities,
{
    core.transactions.finish(id)
}

/// Ends a transaction for rollback: returns the connection on which to
/// issue `ROLLBACK`. An identifier of no transaction under way is a
/// transaction not found.
pub fn rollback_transaction(core: &mut Core, id: &str) -> (r: Result<u64, OrmError>)
    ensures
        match r {
            Ok(c) => connection_of(old(core).transactions.open(), id@) == Some(c)
                && final(core).transactions.open() == old(core).transactions.open().remove(id@),
            Err(e) => e == OrmError::TransactionNotFound
                && !old(core).transactions.open().contains_key(id@)
                && final(core).transactions.open() == old(core).transactions.open(),
        },
        final(core).engine == old(core).engine,
        final(core).registry == old(core).registry,
        final(core).identities == old(core).identities,
{
    core.transactions.finish(id)
}

/// The statements that create the tables of all registered models, in the
/// registry's order.
pub fn internal_create_tables(core: &Core) -> (plans: Vec<ModelTables>)
    ensures
        tables_planned(plans@, core.registry.entries()),
{
    let mut plans: Vec<ModelTables> = Vec::new();
    let mut i: usize = 0;
    while i < core.registry.len()
        invariant
            i <= core.registry.entries().len(),
            plans@.len() == i,
            forall|k: int|
                0 <= k < i ==> (#[trigger] plans@[k]).model@ == core.registry.entries()[k].0@
                    && plans@[k].statements.table@ == table_sql(
                    table_plan(core.registry.entries()[k].0@, core.registry.entries()[k].1.columns@),
                ) && plans@[k].statements.index_views() == index_texts(
                    lowercased(core.registry.entries()[k].0@),
                    core.registry.entries()[k].1.columns@,
                ),
        decreases core.registry.entries().len() - i,
    {
        let name = core.registry.name_at(i);
        let statements = compile_create(name.as_str(), core.registry.document_at(i));
        plans.push(ModelTables { model: name.clone(), statements });
        i = i + 1;
    }
    plans
}

/// The statements that create the tables of all registered models; an
/// engine without a pool creates none.
pub fn create_tables(core: &Core) -> (r: Result<Vec<ModelTables>, OrmError>)
    ensures
        match r {
            Ok(plans) => core.engine == EngineState::Connected && tables_planned(
                plans@,
                core.registry.entries(),
            ),
            Err(e) => e == OrmError::EngineNotInitialized && core.engine != EngineState::Connected,
        },
{
    match core.engine {
        EngineState::Uninitialized => Err(OrmError::EngineNotInitialized),
        EngineState::Connected => Ok(internal_create_tables(core)),
    }
}

/// All records of a model: the statement that selects them, and the
/// model's key column.
pub fn fetch_all(core: &Core, model: &str, tx: Option<&str>) -> (r: Result<FetchPlan, OrmError>)
    ensures
        match r {
            Ok(plan) => core.model_refusal(model@, tx_view(tx)).is_none() && Ok::<Route, OrmError>(
                plan.route,
            ) == core.route_spec(tx_view(tx)) && selects(plan.statement, select_all_shape(model@))
                && key_views(plan.key_column) == key_name(
                core.registry.document(model@).unwrap().columns@,
            ),
            Err(e) => core.model_refusal(model@, tx_view(tx)) == Some(e),
        },
{
    let route = match core.route(tx) {
        Ok(route) => route,
        Err(e) => {
            return Err(e);
        },
    };
    let schema = match core.registry.get(model) {
        Ok(schema) => schema,
        Err(e) => {
            return Err(e);
        },
    };
    let key_column = match key_of(schema).0 {
        Some(name) => Some(name.clone()),
        None => None,
    };
    Ok(FetchPlan { route, statement: compile_select_all(model), key_column })
}

/// One record of a model by its key. The identity map is asked first, and
/// a handle that it has is the answer, whatever the engine's state.
/// Otherwise the statement that selects the record by its key column.
pub fn fetch_one(core: &Core, model: &str, pk: &str, tx: Option<&str>) -> (r: Result<
    FetchOne,
    OrmError,
>)
    ensures
        match r {
            Ok(FetchOne::Cached(handle)) => core.identities.handle(model@, pk@) == Some(handle),
            Ok(FetchOne::Query(plan)) => core.identities.handle(model@, pk@).is_none()
                && core.keyed_refusal(model@, tx_view(tx)).is_none() && Ok::<Route, OrmError>(
                plan.route,
            ) == core.route_spec(tx_view(tx)) && selects(
                plan.statement,
                select_by_key_shape(
                    model@,
                    key_name(core.registry.document(model@).unwrap().columns@).unwrap(),
                    pk@,
                ),
            ),
            Err(e) => core.identities.handle(model@, pk@).is_none() && core.keyed_refusal(
                model@,
                tx_view(tx),
            ) == Some(e),
        },
{
    match core.identities.get(model, pk) {
        Some(handle) => {
            return Ok(FetchOne::Cached(handle));
        },
        None => {},
    }
    let route = match core.route(tx) {
        Ok(route) => route,
        Err(e) => {
            return Err(e);
        },
    };
    let schema = match core.registry.get(model) {
        Ok(schema) => schema,
        Err(e) => {
            return Err(e);
        },
    };
    let column = match key_of(schema).0 {
        Some(name) => name,
        None => {
            return Err(OrmError::NoPrimaryKey);
        },
    };
    let statement = compile_select_by_key(model, column.as_str(), pk);
    Ok(FetchOne::Query(Plan { route, statement }))
}

/// The records of a model that a query selects: the statement, and the
/// model's key column. A text that describes no query is refused before
/// anything else.
pub fn fetch_filtered(core: &Core, model: &str, query_json: &str, tx: Option<&str>) -> (r: Result<
    FetchPlan,
    OrmError,
>)
    ensures
        match r {
            Ok(plan) => query_of_text(model@, query_json@).is_ok() && core.model_refusal(
                model@,
                tx_view(tx),
            ).is_none() && Ok::<Route, OrmError>(plan.route) == core.route_spec(tx_view(tx))
                && select_plan(query_of_text(model@, query_json@).unwrap()).is_ok() && selects(
                plan.statement,
                select_plan(query_of_text(model@, query_json@).unwrap()).unwrap(),
            ) && key_views(plan.key_column) == key_name(
                core.registry.document(model@).unwrap().columns@,
            ),
            Err(e) => match query_of_text(model@, query_json@) {
                Err(invalid) => e == invalid,
                Ok(q) => match core.model_refusal(model@, tx_view(tx)) {
                    Some(refusal) => e == refusal,
                    None => select_plan(q) == Err::<SelectShape, OrmError>(e),
                },
            },
        },
{
    let q = match read_query(model, query_json) {
        Ok(q) => q,
        Err(e) => {
            return Err(e);
        },
    };
    let route = match core.route(tx) {
        Ok(route) => route,
        Err(e) => {
            return Err(e);
        },
    };
    let schema = match core.registry.get(model) {
        Ok(schema) => schema,
        Err(e) => {
            return Err(e);
        },
    };
    let key_column = match key_of(schema).0 {
        Some(name) => Some(name.clone()),
        None => None,
    };
    match compile_select(&q) {
        Ok(statement) => Ok(FetchPlan { route, statement, key_column }),
        Err(e) => Err(e),
    }
}

/// The number of records that a query selects: the statement that counts
/// them. A text that describes no query is refused before anything else.
pub fn count_filtered(core: &Core, model: &str, query_json: &str, tx: Option<&str>) -> (r: Result<
    Plan,
    OrmError,
>)
    ensures
        match r {
            Ok(plan) => query_of_text(model@, query_json@).is_ok() && Ok::<Route, OrmError>(
                plan.route,
            ) == core.route_spec(tx_view(tx)) && count_plan(
                query_of_text(model@, query_json@).unwrap(),
            ).is_ok() && selects(
                plan.statement,
                count_plan(query_of_text(model@, query_json@).unwrap()).unwrap(),
            ),
            Err(e) => match query_of_text(model@, query_json@) {
                Err(invalid) => e == invalid,
                Ok(q) => match core.route_spec(tx_view(tx)) {
                    Err(refusal) => e == refusal,
                    Ok(_) => count_plan(q) == Err::<SelectShape, OrmError>(e),
                },
            },
        },
{
    let q = match read_query(model, query_json) {
        Ok(q) => q,
        Err(e) => {
            return Err(e);
        },
    };
    let route = match core.route(tx) {
        Ok(route) => route,
        Err(e) => {
            return Err(e);
        },
    };
    match compile_count(&q) {
        Ok(statement) => Ok(Plan { route, statement }),
        Err(e) => Err(e),
    }
}

/// What saving a record of a model comes to, given the model's columns
/// and the text of the record.
pub open spec fn save_outcome(model: Seq<char>, columns: Seq<Column>, data: Seq<char>) -> Result<
    InsertShape,
    OrmError,
> {
    match record_of_text(data) {
        Err(e) => Err(e),
        Ok(record) => save_plan(model, columns, record),
    }
}

/// What saving the records of a model comes to, given the model's columns
/// and the text of the records.
pub open spec fn bulk_outcome(model: Seq<char>, columns: Seq<Column>, data: Seq<char>) -> Result<
    Option<InsertShape>,
    OrmError,
> {
    match record_of_text(data) {
        Err(e) => Err(e),
        Ok(records) => bulk_plan(model, columns, records),
    }
}

/// Saves one record of a model from its JSON text: the statement that
/// inserts it, or updates it where its key exists. The text is read once
/// the connection and the model are found.
pub fn save_record(core: &Core, model: &str, data: &str, tx: Option<&str>) -> (r: Result<
    Plan,
    OrmError,
>)
    ensures
        match r {
            Ok(plan) => core.model_refusal(model@, tx_view(tx)).is_none() && Ok::<Route, OrmError>(
                plan.route,
            ) == core.route_spec(tx_view(tx)) && save_outcome(
                model@,
                core.registry.document(model@).unwrap().columns@,
                data@,
            ).is_ok() && inserts(
                plan.statement,
                save_outcome(model@, core.registry.document(model@).unwrap().columns@, data@).unwrap(),
            ),
            Err(e) => match core.model_refusal(model@, tx_view(tx)) {
                Some(refusal) => e == refusal,
                None => save_outcome(
                    model@,
                    core.registry.document(model@).unwrap().columns@,
                    data@,
                ) == Err::<InsertShape, OrmError>(e),
            },
        },
{
    let route = match core.route(tx) {
        Ok(route) => route,
        Err(e) => {
            return Err(e);
        },
    };
    let schema = match core.registry.get(model) {
        Ok(schema) => schema,
        Err(e) => {
            return Err(e);
        },
    };
    let record = match read_record(data) {
        Ok(record) => record,
        Err(e) => {
            return Err(e);
        },
    };
    match compile_save(model, schema, &record) {
        Ok(statement) => Ok(Plan { route, statement }),
        Err(e) => Err(e),
    }
}

/// Saves many records of a model from the JSON text of their array, in one
/// statement on the pool; no statement where there is no record.
pub fn save_bulk_records(core: &Core, model: &str, data_list_json: &str) -> (r: Result<
    Option<Plan>,
    OrmError,
>)
    ensures
        match r {
            Ok(Some(plan)) => core.model_refusal(model@, None).is_none() && plan.route
                == Route::Pool && bulk_outcome(
                model@,
                core.registry.document(model@).unwrap().columns@,
                data_list_json@,
            ).is_ok() && bulk_outcome(
                model@,
                core.registry.document(model@).unwrap().columns@,
                data_list_json@,
            ).unwrap().is_some() && inserts(
                plan.statement,
                bulk_outcome(
                    model@,
                    core.registry.document(model@).unwrap().columns@,
                    data_list_json@,
                ).unwrap().unwrap(),
            ),
            Ok(None) => core.model_refusal(model@, None).is_none() && bulk_outcome(
                model@,
                core.registry.document(model@).unwrap().columns@,
                data_list_json@,
            ) == Ok::<Option<InsertShape>, OrmError>(None),
            Err(e) => match core.model_refusal(model@, None) {
                Some(refusal) => e == refusal,
                None => bulk_outcome(
                    model@,
                    core.registry.document(model@).unwrap().columns@,
                    data_list_json@,
                ) == Err::<Option<InsertShape>, OrmError>(e),
            },
        },
{
    let route = match core.route(None) {
        Ok(route) => route,
        Err(e) => {
            return Err(e);
        },
    };
    let schema = match core.registry.get(model) {
        Ok(schema) => schema,
        Err(e) => {
            return Err(e);
        },
    };
    let records = match read_record(data_list_json) {
        Ok(records) => records,
        Err(e) => {
            return Err(e);
        },
    };
    match compile_save_bulk(model, schema, &records) {
        Ok(Some(statement)) => Ok(Some(Plan { route, statement })),
        Ok(None) => Ok(None),
        Err(e) => Err(e),
    }
}

/// Deletes one record of a model by its key: the statement that deletes
/// it.
pub fn delete_record(core: &Core, model: &str, pk: &str, tx: Option<&str>) -> (r: Result<
    Plan,
    OrmError,
>)
    ensures
        match r {
            Ok(plan) => core.keyed_refusal(model@, tx_view(tx)).is_none() && Ok::<Route, OrmError>(
                plan.route,
            ) == core.route_spec(tx_view(tx)) && deletes(
                plan.statement,
                lowercased(model@),
                key_group(key_name(core.registry.document(model@).unwrap().columns@).unwrap(), pk@),
            ),
            Err(e) => core.keyed_refusal(model@, tx_view(tx)) == Some(e),
        },
{
    let route = match core.route(tx) {
        Ok(route) => route,
        Err(e) => {
            return Err(e);
        },
    };
    let schema = match core.registry.get(model) {
        Ok(schema) => schema,
        Err(e) => {
            return Err(e);
        },
    };
    let column = match key_of(schema).0 {
        Some(name) => name,
        None => {
            return Err(OrmError::NoPrimaryKey);
        },
    };
    let statement = compile_delete_by_key(model, column.as_str(), pk);
    Ok(Plan { route, statement })
}

/// Deletes the records that a query selects: the statement that deletes
/// them. A text that describes no query is refused before anything else.
/// Once the statement has run with success, `finish_bulk_write` is owed.
pub fn delete_filtered(core: &Core, model: &str, query_json: &str, tx: Option<&str>) -> (r: Result<
    Plan,
    OrmError,
>)
    ensures
        match r {
            Ok(plan) => query_of_text(model@, query_json@).is_ok() && Ok::<Route, OrmError>(
                plan.route,
            ) == core.route_spec(tx_view(tx)) && where_group(
                query_of_text(model@, query_json@).unwrap().nodes,
            ).is_ok() && deletes(
                plan.statement,
                lowercased(model@),
                where_group(query_of_text(model@, query_json@).unwrap().nodes).unwrap(),
            ),
            Err(e) => match query_of_text(model@, query_json@) {
                Err(invalid) => e == invalid,
                Ok(q) => match core.route_spec(tx_view(tx)) {
                    Err(refusal) => e == refusal,
                    Ok(_) => where_group(q.nodes) == Err::<Group, OrmError>(e),
                },
            },
        },
{
    let q = match read_query(model, query_json) {
        Ok(q) => q,
        Err(e) => {
            return Err(e);
        },
    };
    let route = match core.route(tx) {
        Ok(route) => route,
        Err(e) => {
            return Err(e);
        },
    };
    match compile_delete(&q) {
        Ok(statement) => Ok(Plan { route, statement }),
        Err(e) => Err(e),
    }
}

/// What the texts of a query and of its assignments come to: the query
/// and the object of assignments. A text that describes no query is an
/// invalid query; assignments that are not the JSON text of an object are
/// an invalid record.
pub open spec fn update_inputs(model: Seq<char>, query_json: Seq<char>, update_json: Seq<char>) -> Result<
    (QueryView, Json),
    OrmError,
> {
    match query_of_text(model, query_json) {
        Err(e) => Err(e),
        Ok(q) => match record_of_text(update_json) {
            Err(e) => Err(e),
            Ok(assignments) => if assignments is Object {
                Ok((q, assignments))
            } else {
                Err(OrmError::InvalidRecordJson)
            },
        },
    }
}

/// Updates the records that a query selects with the assignments of a JSON
/// object: the statement that updates them. The two texts are read before
/// anything else. Once the statement has run with success,
/// `finish_bulk_write` is owed.
pub fn update_filtered(
    core: &Core,
    model: &str,
    query_json: &str,
    update_json: &str,
    tx: Option<&str>,
) -> (r: Result<Plan, OrmError>)
    ensures
        match r {
            Ok(plan) => update_inputs(model@, query_json@, update_json@).is_ok() && Ok::<
                Route,
                OrmError,
            >(plan.route) == core.route_spec(tx_view(tx)) && update_plan(
                update_inputs(model@, query_json@, update_json@).unwrap().0,
                update_inputs(model@, query_json@, update_json@).unwrap().1,
            ).is_ok() && updates(
                plan.statement,
                update_plan(
                    update_inputs(model@, query_json@, update_json@).unwrap().0,
                    update_inputs(model@, query_json@, update_json@).unwrap().1,
                ).unwrap(),
            ),
            Err(e) => match update_inputs(model@, query_json@, update_json@) {
                Err(invalid) => e == invalid,
                Ok(inputs) => match core.route_spec(tx_view(tx)) {
                    Err(refusal) => e == refusal,
                    Ok(_) => update_plan(inputs.0, inputs.1) == Err::<UpdateShape, OrmError>(e),
                },
            },
        },
{
    let q = match read_query(model, query_json) {
        Ok(q) => q,
        Err(e) => {
            return Err(e);
        },
    };
    let assignments = match read_record(update_json) {
        Ok(doc) => doc,
        Err(e) => {
            return Err(e);
        },
    };
    if assignments.as_object().is_none() {
        return Err(OrmError::InvalidRecordJson);
    }
    let route = match core.route(tx) {
        Ok(route) => route,
        Err(e) => {
            return Err(e);
        },
    };
    match compile_update(&q, &assignments) {
        Ok(statement) => Ok(Plan { route, statement }),
        Err(e) => Err(e),
    }
}

/// What is owed after a bulk delete or update of a model has run with
/// success: every handle of the model leaves the identity map, since any of
/// them may be stale.
pub fn finish_bulk_write(core: &mut Core, model: &str)
    ensures
        final(core).identities.entries() == without_model(old(core).identities.entries(), model@),
        final(core).engine == old(core).engine,
        final(core).registry == old(core).registry,
        final(core).transactions == old(core).transactions,
{
    core.identities.evict_all_for_model(model);
}

/// The live object of a fetched row: the handle that the identity map has
/// for the row's key. A row without a key, or whose key has no handle, has
/// none and is to be hydrated anew.
pub fn live_instance(core: &Core, model: &str, key: Option<&str>) -> (r: Option<u64>)
    ensures
        r == match key {
            Some(k) => core.identities.handle(model@, k@),
            None => None,
        },
{
    match key {
        Some(k) => core.identities.get(model, k),
        None => None,
    }
}

/// Registers the handle of a live object under its model and key.
pub fn register_instance(core: &mut Core, model: &str, pk: &str, handle: u64)
    ensures
        final(core).identities.entries() == old(core).identities.entries().insert(
            (model@, pk@),
            handle,
        ),
        final(core).engine == old(core).engine,
        final(core).registry == old(core).registry,
        final(core).transactions == old(core).transactions,
{
    core.identities.insert(model, pk, handle);
}

/// Removes the handle of a model and key.
pub fn evict_instance(core: &mut Core, model: &str, pk: &str)
    ensures
        final(core).identities.entries() == old(core).identities.entries().remove((model@, pk@)),
        final(core).engine == old(core).engine,
        final(core).registry == old(core).registry,
        final(core).transactions == old(core).transactions,
{
    core.identities.evict(model, pk);
}

/// Decodes a row of a model under the hints of the model's schema; a
/// model that is not registered gives no hints.
pub fn decode_model_row(core: &Core, model: &str, row: &Vec<(String, RawCell)>) -> (out: Vec<
    (String, RustValue),
>)
    ensures
        row_decoded(out@, core.registry.document(model@), row@),
{
    decode_row(core.registry.lookup(model), row)
}

} // verus!
