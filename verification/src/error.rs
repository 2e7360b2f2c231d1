//! The error taxonomy of the core.

use vstd::prelude::*;

verus! {

/// Why an operation of the core was refused.
#[derive(Clone, Copy, Debug, PartialEq, Eq, Structural)]
pub enum OrmError {
    /// A schema text that is not JSON, or whose document is no JSON object
    /// with a `properties` object.
    InvalidSchema,
    /// A query document that is not JSON of the query shape.
    InvalidQueryJson,
    /// A record, or a set of assignments, that is not a JSON object.
    InvalidRecordJson,
    /// `IN` applied to a value that is not an array.
    InvalidOperand,
    /// No schema is registered under the model's name.
    ModelNotFound,
    /// The model's schema flags no column as primary key.
    NoPrimaryKey,
    /// The engine has no pool yet.
    EngineNotInitialized,
    /// The transaction identifier names no transaction that is under way.
    TransactionNotFound,
}

impl OrmError {
    /// A short human-readable message for the error.
    pub fn message(&self) -> (text: String)
        ensures
            text@ == self.message_text(),
    {
        match self {
            OrmError::InvalidSchema => "Invalid JSON schema".to_owned(),
            OrmError::InvalidQueryJson => "Invalid query JSON".to_owned(),
            OrmError::InvalidRecordJson => "Record must be a JSON object".to_owned(),
            OrmError::InvalidOperand => "IN expects an array".to_owned(),
            OrmError::ModelNotFound => "Model not found".to_owned(),
            OrmError::NoPrimaryKey => "No primary key".to_owned(),
            OrmError::EngineNotInitialized => "Engine not initialized".to_owned(),
            OrmError::TransactionNotFound => "Transaction not found".to_owned(),
        }
    }

    /// The message of each error.
    pub open spec fn message_text(&self) -> Seq<char> {
        match self {
            OrmError::InvalidSchema => "Invalid JSON schema"@,
            OrmError::InvalidQueryJson => "Invalid query JSON"@,
            OrmError::InvalidRecordJson => "Record must be a JSON object"@,
            OrmError::InvalidOperand => "IN expects an array"@,
            OrmError::ModelNotFound => "Model not found"@,
            OrmError::NoPrimaryKey => "No primary key"@,
            OrmError::EngineNotInitialized => "Engine not initialized"@,
            OrmError::TransactionNotFound => "Transaction not found"@,
        }
    }
}

} // verus!
