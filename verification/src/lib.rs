//! Object-relational mapping core: a registry of model schemas, a compiler
//! from schemas and query descriptions to parameterized SQL, a decoder from
//! raw row cells to typed domain values, and the state that operations share
//! (engine, transactions, identity map).

pub mod error;
pub mod text;
pub mod json;
pub mod value;
pub mod sql;
pub mod query;
pub mod wire;
pub mod compile;
pub mod schema;
pub mod ddl;
pub mod save;
pub mod decode;
pub mod registry;
pub mod identity;
pub mod transaction;
pub mod state;
pub mod connection;
pub mod operations;
