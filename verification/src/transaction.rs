//! The transaction registry: the connection of each transaction that is
//! under way, by its identifier. A connection is a number that stands for
//! an exclusive connection held outside.

use vstd::prelude::*;
use crate::error::OrmError;

verus! {

/// The concurrent map that holds the connections.
pub type ConnectionStore = dashmap::DashMap<String, u64>;

/// What a connection store holds: the connection of each identifier.
pub uninterp spec fn open_transactions(m: ConnectionStore) -> Map<Seq<char>, u64>;

/// The connection of an identifier.
pub open spec fn connection_of(entries: Map<Seq<char>, u64>, id: Seq<char>) -> Option<u64> {
    if entries.contains_key(id) {
        Some(entries[id])
    } else {
        None
    }
}

/// `DashMap::new`: a map that holds nothing.
#[verifier::external_body]
fn connections_new() -> (m: ConnectionStore)
    ensures
        open_transactions(m) =~= Map::empty(),
{
    dashmap::DashMap::new()
}

/// `DashMap::get`: the connection under the identifier, none where the map
/// has no such identifier.
#[verifier::external_body]
fn connections_get(m: &ConnectionStore, id: &str) -> (r: Option<u64>)
    ensures
        r == connection_of(open_transactions(*m), id@),
{
    m.get(id).map(|e| *e.value())
}

/// `DashMap::insert`: the identifier holds the connection afterwards, the
/// other identifiers what they held.
#[verifier::external_body]
fn connections_insert(m: &mut ConnectionStore, id: String, connection: u64)
    ensures
        open_transactions(*final(m)) == open_transactions(*old(m)).insert(id@, connection),
{
    m.insert(id, connection);
}

/// `DashMap::remove`: returns the connection that the identifier held, and
/// the identifier is gone afterwards.
#[verifier::external_body]
fn connections_remove(m: &mut ConnectionStore, id: &str) -> (r: Option<u64>)
    ensures
        r == connection_of(open_transactions(*old(m)), id@),
        open_transactions(*final(m)) == open_transactions(*old(m)).remove(id@),
{
    m.remove(id).map(|entry| entry.1)
}

/// `Uuid::new_v4().to_string()`: a random identifier in hyphenated form,
/// which has 36 characters.
#[verifier::external_body]
fn fresh_identifier() -> (id: String)
    ensures
        id@.len() == 36,
{
    uuid::Uuid::new_v4().to_string()
}

/// The transactions that are under way.
pub struct TransactionRegistry {
    store: ConnectionStore,
}

impl TransactionRegistry {
    /// The connection of each transaction that is under way.
    pub closed spec fn open(&self) -> Map<Seq<char>, u64> {
        open_transactions(self.store)
    }

    /// A registry with no transaction.
    pub fn new() -> (r: TransactionRegistry)
        ensures
            r.open() =~= Map::empty(),
    {
        TransactionRegistry { store: connections_new() }
    }

    /// Registers a connection under an identifier: the transaction of
    /// that identifier is under way on the connection, every other
    /// transaction as it was.
    pub fn begin_under(&mut self, id: &str, connection: u64)
        ensures
            final(self).open() == old(self).open().insert(id@, connection),
    {
        connections_insert(&mut self.store, id.to_owned(), connection);
    }

    /// Registers a connection on which `BEGIN` was issued under a fresh
    /// identifier, and returns the identifier.
    pub fn begin(&mut self, connection: u64) -> (id: String)
        ensures
            id@.len() == 36,
            final(self).open() == old(self).open().insert(id@, connection),
    {
        let id = fresh_identifier();
        self.begin_under(id.as_str(), connection);
        id
    }

    /// The connection of a transaction that is under way; an identifier
    /// of none is a transaction not found.
    pub fn connection(&self, id: &str) -> (r: Result<u64, OrmError>)
        ensures
            match r {
                Ok(c) => connection_of(self.open(), id@) == Some(c),
                Err(e) => e == OrmError::TransactionNotFound && !self.open().contains_key(id@),
            },
    {
        match connections_get(&self.store, id) {
            Some(c) => Ok(c),
            None => Err(OrmError::TransactionNotFound),
        }
    }

    /// Ends a transaction, for commit or rollback: returns its connection
    /// and removes it. An identifier of no transaction under way is a
    /// transaction not found, and changes nothing.
    pub fn finish(&mut self, id: &str) -> (r: Result<u64, OrmError>)
        ensures
            match r {
                Ok(c) => connection_of(old(self).open(), id@) == Some(c)
                    && final(self).open() == old(self).open().remove(id@),
                Err(e) => e == OrmError::TransactionNotFound && !old(self).open().contains_key(id@)
                    && final(self).open() == old(self).open(),
            },
    {
        match connections_remove(&mut self.store, id) {
            Some(c) => Ok(c),
            None => {
                assert(old(self).open().remove(id@) =~= old(self).open());
                Err(OrmError::TransactionNotFound)
            },
        }
    }
}

/// A transaction that has ended is not under way: its identifier has no
/// connection, and every other transaction keeps its own.
pub proof fn lemma_finished_is_gone(entries: Map<Seq<char>, u64>, id: Seq<char>, other: Seq<char>)
    ensures
        connection_of(entries.remove(id), id).is_none(),
        other != id ==> connection_of(entries.remove(id), other) == connection_of(entries, other),
{
}

/// A transaction that has begun is under way on its connection, and every
/// other transaction keeps its own.
pub proof fn lemma_begun_is_open(
    entries: Map<Seq<char>, u64>,
    id: Seq<char>,
    connection: u64,
    other: Seq<char>,
)
    ensures
        connection_of(entries.insert(id, connection), id) == Some(connection),
        other != id ==> connection_of(entries.insert(id, connection), other) == connection_of(
            entries,
            other,
        ),
{
}

} // verus!
