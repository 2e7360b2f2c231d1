//! The state that operations share: the schema registry, the engine, the
//! transactions under way and the identity map.

use vstd::prelude::*;
use crate::compile::Statement;
use crate::ddl::CreatePlan;
use crate::error::OrmError;
use crate::identity::IdentityMap;
use crate::registry::SchemaRegistry;
use crate::save::key_name;
use crate::transaction::{TransactionRegistry, connection_of};

verus! {

/// Whether the engine has a pool.
#[derive(Clone, Copy, Debug, PartialEq, Eq, Structural)]
pub enum EngineState {
    Uninitialized,
    Connected,
}

/// The connection that runs a statement: any connection of the pool, or
/// the one connection of a transaction.
#[derive(Clone, Copy, Debug, PartialEq, Eq, Structural)]
pub enum Route {
    Pool,
    Transaction(u64),
}

/// A statement and the connection to run it on.
#[derive(Clone, Debug, PartialEq, Eq)]
pub struct Plan {
    pub route: Route,
    pub statement: Statement,
}

/// A statement that fetches rows of a model, the connection to run it on,
/// and the model's key column, by which the rows are looked up in the
/// identity map.
#[derive(Clone, Debug, PartialEq, Eq)]
pub struct FetchPlan {
    pub route: Route,
    pub statement: Statement,
    pub key_column: Option<String>,
}

/// What fetching one record by its key comes to: the handle that the
/// identity map has for it, or a statement to run.
#[derive(Clone, Debug, PartialEq, Eq)]
pub enum FetchOne {
    Cached(u64),
    Query(Plan),
}

/// The statements that create the table of one model.
#[derive(Clone, Debug, PartialEq, Eq)]
pub struct ModelTables {
    pub model: String,
    pub statements: CreatePlan,
}

/// The process-wide state: the schema registry, the engine, the
/// transactions under way and the identity map.
pub struct Core {
    pub registry: SchemaRegistry,
    pub identities: IdentityMap,
    pub transactions: TransactionRegistry,
    pub engine: EngineState,
}

/// The connection for an operation: an engine without a pool refuses every
/// operation; an operation without a transaction runs on the pool; one with
/// a transaction runs on its connection, and is refused where the
/// transaction is not under way.
pub open spec fn route_of(engine: EngineState, open: Map<Seq<char>, u64>, tx: Option<Seq<char>>) -> Result<
    Route,
    OrmError,
> {
    if engine != EngineState::Connected {
        Err(OrmError::EngineNotInitialized)
    } else {
        match tx {
            None => Ok(Route::Pool),
            Some(id) => match connection_of(open, id) {
                Some(c) => Ok(Route::Transaction(c)),
                None => Err(OrmError::TransactionNotFound),
            },
        }
    }
}

/// The view of an optional transaction identifier.
pub open spec fn tx_view(tx: Option<&str>) -> Option<Seq<char>> {
    match tx {
        Some(id) => Some(id@),
        None => None,
    }
}

/// The view of an optional column name.
pub open spec fn key_views(name: Option<String>) -> Option<Seq<char>> {
    match name {
        Some(n) => Some(n@),
        None => None,
    }
}

/// On a connected engine, a statement with the identifier of a transaction
/// under way runs on that transaction's connection, a statement without an
/// identifier runs on the pool, and a statement with the identifier of a
/// transaction that has ended is refused.
pub proof fn lemma_route_follows_transaction(open: Map<Seq<char>, u64>, id: Seq<char>, connection: u64)
    ensures
        route_of(EngineState::Connected, open.insert(id, connection), Some(id)) == Ok::<
            Route,
            OrmError,
        >(Route::Transaction(connection)),
        route_of(EngineState::Connected, open, None) == Ok::<Route, OrmError>(Route::Pool),
        route_of(EngineState::Connected, open.remove(id), Some(id)) == Err::<Route, OrmError>(
            OrmError::TransactionNotFound,
        ),
        route_of(EngineState::Uninitialized, open, Some(id)) == Err::<Route, OrmError>(
            OrmError::EngineNotInitialized,
        ),
        route_of(EngineState::Uninitialized, open, None) == Err::<Route, OrmError>(
            OrmError::EngineNotInitialized,
        ),
{
}

impl Core {
    /// The connection for an operation in this state.
    pub open spec fn route_spec(&self, tx: Option<Seq<char>>) -> Result<Route, OrmError> {
        route_of(self.engine, self.transactions.open(), tx)
    }

    /// Why an operation on a model is refused, if it is: for want of a
    /// connection, else because the model is not registered.
    pub open spec fn model_refusal(&self, model: Seq<char>, tx: Option<Seq<char>>) -> Option<OrmError> {
        match self.route_spec(tx) {
            Err(e) => Some(e),
            Ok(_) => if self.registry.document(model).is_none() {
                Some(OrmError::ModelNotFound)
            } else {
                None
            },
        }
    }

    /// Why an operation on one record by its key is refused, if it is: as
    /// an operation on the model, else because the model has no key.
    pub open spec fn keyed_refusal(&self, model: Seq<char>, tx: Option<Seq<char>>) -> Option<OrmError> {
        match self.model_refusal(model, tx) {
            Some(e) => Some(e),
            None => if key_name(self.registry.document(model).unwrap().columns@).is_none() {
                Some(OrmError::NoPrimaryKey)
            } else {
                None
            },
        }
    }

    /// The state of a fresh process: no model, no pool, no transaction, no
    /// handle.
    pub fn new() -> (r: Core)
        ensures
            r.engine == EngineState::Uninitialized,
            r.registry.entries().len() == 0,
            r.identities.entries() =~= Map::empty(),
            r.transactions.open() =~= Map::empty(),
    {
        Core {
            registry: SchemaRegistry::new(),
            identities: IdentityMap::new(),
            transactions: TransactionRegistry::new(),
            engine: EngineState::Uninitialized,
        }
    }

    /// The connection for an operation.
    pub fn route(&self, tx: Option<&str>) -> (r: Result<Route, OrmError>)
        ensures
            r == self.route_spec(tx_view(tx)),
    {
        match self.engine {
            EngineState::Uninitialized => Err(OrmError::EngineNotInitialized),
            EngineState::Connected => match tx {
                None => Ok(Route::Pool),
                Some(id) => match self.transactions.connection(id) {
                    Ok(c) => Ok(Route::Transaction(c)),
                    Err(e) => Err(e),
                },
            },
        }
    }
}

} // verus!
