//! The schema registry: the schema document of each registered model.

use vstd::prelude::*;
use crate::error::OrmError;
use crate::json::Json;
use crate::schema::{SchemaDocument, columns_read, properties_of, schema_of_text};
use crate::text::same_text;

verus! {

/// The registered models with their documents. No name occurs twice, and a
/// model keeps its place when it is registered again.
pub struct SchemaRegistry {
    entries: Vec<(String, SchemaDocument)>,
}

/// The place of the first entry with the given name.
pub open spec fn position_of(entries: Seq<(String, SchemaDocument)>, name: Seq<char>) -> Option<int>
    decreases entries.len(),
{
    if entries.len() == 0 {
        None
    } else if entries.last().0@ == name && position_of(entries.drop_last(), name).is_none() {
        Some(entries.len() - 1)
    } else {
        position_of(entries.drop_last(), name)
    }
}

/// `position_of` gives the least place with the name, and none exactly
/// where no entry has the name.
pub proof fn lemma_position_of(entries: Seq<(String, SchemaDocument)>, name: Seq<char>)
    ensures
        match position_of(entries, name) {
            Some(i) => 0 <= i < entries.len() && entries[i].0@ == name && forall|j: int|
                0 <= j < i ==> (#[trigger] entries[j]).0@ != name,
            None => forall|j: int| 0 <= j < entries.len() ==> (#[trigger] entries[j]).0@ != name,
        },
    decreases entries.len(),
{
    if entries.len() > 0 {
        lemma_position_of(entries.drop_last(), name);
        let rest = entries.drop_last();
        assert(forall|j: int| 0 <= j < rest.len() ==> rest[j] == entries[j]);
        match position_of(rest, name) {
            Some(i) => {
                assert(rest[i] == entries[i]);
            },
            None => {
                assert forall|j: int| 0 <= j < rest.len() implies (#[trigger] entries[j]).0@
                    != name by {
                    assert(rest[j].0@ != name);
                }
            },
        }
    }
}

/// A place with the name before which no entry has the name is the place
/// that `position_of` gives.
pub proof fn lemma_position_is(entries: Seq<(String, SchemaDocument)>, name: Seq<char>, i: int)
    requires
        0 <= i < entries.len(),
        entries[i].0@ == name,
        forall|j: int| 0 <= j < i ==> (#[trigger] entries[j]).0@ != name,
    ensures
        position_of(entries, name) == Some(i),
{
    lemma_position_of(entries, name);
    match position_of(entries, name) {
        Some(k) => {
            if k < i {
                assert(entries[k].0@ != name);
            }
            if i < k {
                assert(entries[i].0@ == name);
            }
        },
        None => {
            assert(entries[i].0@ != name);
        },
    }
}

/// Where no entry has the name, `position_of` gives none.
pub proof fn lemma_position_none(entries: Seq<(String, SchemaDocument)>, name: Seq<char>)
    requires
        forall|j: int| 0 <= j < entries.len() ==> (#[trigger] entries[j]).0@ != name,
    ensures
        position_of(entries, name).is_none(),
{
    lemma_position_of(entries, name);
    match position_of(entries, name) {
        Some(k) => {
            assert(entries[k].0@ != name);
        },
        None => {},
    }
}

/// The document registered under a name.
pub open spec fn document_of(entries: Seq<(String, SchemaDocument)>, name: Seq<char>) -> Option<
    SchemaDocument,
> {
    match position_of(entries, name) {
        Some(i) => Some(entries[i].1),
        None => None,
    }
}

impl SchemaRegistry {
    /// The entries, in the order in which the models were first registered.
    pub closed spec fn entries(&self) -> Seq<(String, SchemaDocument)> {
        self.entries@
    }

    /// The document registered under a name.
    pub open spec fn document(&self, name: Seq<char>) -> Option<SchemaDocument> {
        document_of(self.entries(), name)
    }

    /// A registry with no model.
    pub fn new() -> (r: SchemaRegistry)
        ensures
            r.entries().len() == 0,
            forall|name: Seq<char>| r.document(name).is_none(),
    {
        SchemaRegistry { entries: Vec::new() }
    }

    /// The number of registered models.
    pub fn len(&self) -> (n: usize)
        ensures
            n == self.entries().len(),
    {
        self.entries.len()
    }

    /// The name of the model at a place.
    pub fn name_at(&self, i: usize) -> (r: &String)
        requires
            i < self.entries().len(),
        ensures
            r@ == self.entries()[i as int].0@,
    {
        &self.entries[i].0
    }

    /// The document of the model at a place.
    pub fn document_at(&self, i: usize) -> (r: &SchemaDocument)
        requires
            i < self.entries().len(),
        ensures
            *r == self.entries()[i as int].1,
    {
        &self.entries[i].1
    }

    fn find(&self, name: &str) -> (r: Option<usize>)
        ensures
            match r {
                Some(i) => position_of(self.entries(), name@) == Some(i as int) && i
                    < self.entries().len(),
                None => position_of(self.entries(), name@).is_none(),
            },
    {
        let mut i: usize = 0;
        while i < self.entries.len()
            invariant
                i <= self.entries.len(),
                forall|j: int| 0 <= j < i ==> (#[trigger] self.entries@[j]).0@ != name@,
            decreases self.entries.len() - i,
        {
            if same_text(&self.entries[i].0, name) {
                proof {
                    lemma_position_is(self.entries@, name@, i as int);
                }
                return Some(i);
            }
            i = i + 1;
        }
        proof {
            lemma_position_none(self.entries@, name@);
        }
        None
    }

    /// Puts a document under a name, in place of any document that the
    /// name had; the documents of all other names stay as they were.
    pub fn insert(&mut self, name: &str, document: SchemaDocument)
        ensures
            final(self).document(name@) == Some(document),
            forall|other: Seq<char>|
                other != name@ ==> final(self).document(other) == old(self).document(other),
    {
        let ghost before = self.entries@;
        match self.find(name) {
            Some(i) => {
                self.entries.set(i, (name.to_owned(), document));
                proof {
                    let after = self.entries@;
                    lemma_position_of(before, name@);
                    assert forall|j: int| 0 <= j < i implies (#[trigger] after[j]).0@ != name@ by {
                        assert(after[j] == before[j]);
                    }
                    lemma_position_is(after, name@, i as int);
                    assert(document_of(after, name@) == Some(document));
                    assert forall|other: Seq<char>| other != name@ implies document_of(after, other)
                        == document_of(before, other) by {
                        lemma_same_elsewhere(before, after, i as int, other);
                    }
                }
            },
            None => {
                self.entries.push((name.to_owned(), document));
                proof {
                    let after = self.entries@;
                    assert(after.drop_last() =~= before);
                    assert(after.last().0@ == name@);
                    assert(position_of(after, name@) == Some(after.len() - 1));
                    assert forall|other: Seq<char>| other != name@ implies document_of(after, other)
                        == document_of(before, other) by {
                        lemma_position_of(before, other);
                        assert(position_of(after, other) == position_of(before, other));
                        match position_of(before, other) {
                            Some(k) => {
                                assert(after.drop_last()[k] == after[k]);
                            },
                            None => {},
                        }
                    }
                }
            },
        }
    }

    /// Registers a model under a name from the JSON text of its schema,
    /// in place of any document that the name had. A text that describes
    /// no schema (it is not JSON, or its document is no JSON object with a
    /// `properties` object) is an invalid schema and leaves the registry
    /// as it was, with any document that the name had.
    pub fn register(&mut self, name: &str, schema: &str) -> (r: Result<(), OrmError>)
        ensures
            match r {
                Ok(_) => schema_of_text(schema@).is_some() && final(self).document(name@).is_some()
                    && columns_read(
                    final(self).document(name@).unwrap().columns@,
                    properties_of(schema_of_text(schema@).unwrap()),
                ) && (forall|other: Seq<char>|
                    other != name@ ==> final(self).document(other) == old(self).document(other)),
                Err(e) => e == OrmError::InvalidSchema && schema_of_text(schema@).is_none()
                    && final(self).entries() == old(self).entries(),
            },
    {
        let parsed = match Json::parse(schema) {
            Some(doc) => doc,
            None => {
                return Err(OrmError::InvalidSchema);
            },
        };
        let document = match SchemaDocument::from_json(&parsed) {
            Ok(document) => document,
            Err(e) => {
                return Err(e);
            },
        };
        self.insert(name, document);
        Ok(())
    }

    /// The document registered under a name; a name that is not registered
    /// is a model not found.
    pub fn get(&self, name: &str) -> (r: Result<&SchemaDocument, OrmError>)
        ensures
            match r {
                Ok(doc) => self.document(name@) == Some(*doc),
                Err(e) => e == OrmError::ModelNotFound && self.document(name@).is_none(),
            },
    {
        match self.find(name) {
            Some(i) => Ok(&self.entries[i].1),
            None => Err(OrmError::ModelNotFound),
        }
    }

    /// The document registered under a name, if any.
    pub fn lookup(&self, name: &str) -> (r: Option<&SchemaDocument>)
        ensures
            match r {
                Some(doc) => self.document(name@) == Some(*doc),
                None => self.document(name@).is_none(),
            },
    {
        match self.find(name) {
            Some(i) => Some(&self.entries[i].1),
            None => None,
        }
    }

    /// Removes every model.
    pub fn clear(&mut self)
        ensures
            final(self).entries().len() == 0,
            forall|name: Seq<char>| final(self).document(name).is_none(),
    {
        self.entries = Vec::new();
    }
}

/// Replacing the entry at a place by one of the same name changes the
/// document of no other name.
pub proof fn lemma_same_elsewhere(
    before: Seq<(String, SchemaDocument)>,
    after: Seq<(String, SchemaDocument)>,
    i: int,
    other: Seq<char>,
)
    requires
        0 <= i < before.len(),
        after.len() == before.len(),
        forall|j: int| 0 <= j < before.len() && j != i ==> after[j] == before[j],
        after[i].0@ == before[i].0@,
        other != before[i].0@,
    ensures
        document_of(after, other) == document_of(before, other),
{
    lemma_position_of(before, other);
    match position_of(before, other) {
        Some(k) => {
            assert(k != i);
            assert forall|j: int| 0 <= j < k implies (#[trigger] after[j]).0@ != other by {
                if j != i {
                    assert(after[j] == before[j]);
                    assert(before[j].0@ != other);
                }
            }
            assert(after[k] == before[k]);
            lemma_position_is(after, other, k);
        },
        None => {
            assert forall|j: int| 0 <= j < after.len() implies (#[trigger] after[j]).0@ != other by {
                if j != i {
                    assert(after[j] == before[j]);
                    assert(before[j].0@ != other);
                }
            }
            lemma_position_none(after, other);
        },
    }
}

} // verus!
