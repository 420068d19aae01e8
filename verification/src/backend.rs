//! The backend interface: the contract every storage engine meets, the
//! dispatching engine enum, the statements the engine runs against the
//! embedded database, and the fixed names of the on-disk layout.

use vstd::prelude::*;
use vstd::string::StringExecFns;

verus! {

use crate::Id;
use crate::model::{
    Collection, Note, StoreModel, collection_views, create_collection_step, create_note_step,
    has_collection_id, has_collection_name, install_step, note_views, notes_in, store_wf,
};
use crate::store::{MemoryBackend, StoreError};

/// What a storage engine does to its store, stated over the store's
/// mathematical model.
pub trait BackendExt {
    /// The mathematical store this backend holds.
    spec fn model(&self) -> StoreModel;

    /// Inserts a collection row under the next sequential id. Fails with the
    /// constraint-violation error, and changes nothing, exactly when the name
    /// is already taken.
    fn create_collection(&mut self, name: &str) -> (r: Result<(), StoreError>)
        requires
            store_wf(old(self).model()),
            old(self).model().installed,
            name@.len() > 0,
            old(self).model().collections.len() < i32::MAX,
        ensures
            store_wf(final(self).model()),
            final(self).model() == create_collection_step(old(self).model(), name@),
            r is Ok <==> !has_collection_name(old(self).model(), name@),
            r is Err ==> r->Err_0 == StoreError::ConstraintViolation,
    ;

    /// Returns every collection, in insertion (primary-key) order; an empty
    /// store yields the empty list, not an error.
    fn list_collections(&self) -> (r: Result<Vec<Collection>, StoreError>)
        requires
            self.model().installed,
        ensures
            r is Ok,
            collection_views(r->Ok_0@) == self.model().collections,
    ;

    /// Inserts a note row under the given collection and the next sequential
    /// id. Fails with the constraint-violation error, and changes nothing,
    /// exactly when the store never assigned that collection id.
    fn create_note(&mut self, collection_id: &Id, note: String) -> (r: Result<(), StoreError>)
        requires
            store_wf(old(self).model()),
            old(self).model().installed,
            old(self).model().notes.len() < i32::MAX,
        ensures
            store_wf(final(self).model()),
            final(self).model() == create_note_step(
                old(self).model(),
                *collection_id as int,
                note@,
            ),
            r is Ok <==> has_collection_id(old(self).model(), *collection_id as int),
            r is Err ==> r->Err_0 == StoreError::ConstraintViolation,
    ;

    /// Returns the notes of the given collection, in insertion order. A
    /// collection with no notes, or an id the store never assigned, yields
    /// the empty list, not an error.
    fn list_notes(&self, collection_id: &Id) -> (r: Result<Vec<Note>, StoreError>)
        requires
            self.model().installed,
        ensures
            r is Ok,
            note_views(r->Ok_0@) == notes_in(self.model().notes, *collection_id as int),
    ;
}

/// The storage engines the library ships; operations dispatch on the variant.
pub enum Backend {
    Memory(MemoryBackend),
}

impl Backend {
    /// Creates the two tables. Against an already-initialized store this
    /// fails with the schema-conflict error and changes nothing.
    pub fn install(&mut self) -> (r: Result<(), StoreError>)
        ensures
            final(self).model() == (if old(self).model().installed {
                old(self).model()
            } else {
                install_step(old(self).model())
            }),
            r is Ok <==> !old(self).model().installed,
            r is Err ==> r->Err_0 == StoreError::SchemaConflict,
            store_wf(old(self).model()) ==> store_wf(final(self).model()),
    {
        match self {
            Backend::Memory(m) => m.install(),
        }
    }
}

impl BackendExt for Backend {
    open spec fn model(&self) -> StoreModel {
        match self {
            Backend::Memory(m) => m.model(),
        }
    }

    fn create_collection(&mut self, name: &str) -> (r: Result<(), StoreError>) {
        match self {
            Backend::Memory(m) => m.create_collection(name),
        }
    }

    fn list_collections(&self) -> (r: Result<Vec<Collection>, StoreError>) {
        match self {
            Backend::Memory(m) => m.list_collections(),
        }
    }

    fn create_note(&mut self, collection_id: &Id, note: String) -> (r: Result<(), StoreError>) {
        match self {
            Backend::Memory(m) => m.create_note(collection_id, note),
        }
    }

    fn list_notes(&self, collection_id: &Id) -> (r: Result<Vec<Note>, StoreError>) {
        match self {
            Backend::Memory(m) => m.list_notes(collection_id),
        }
    }
}

/// Name of the metadata directory under the user's home directory.
pub fn metadata_user_dir() -> (r: String)
    ensures
        r@ == ".note-app"@,
{
    String::from_str(".note-app")
}

/// File name of the embedded database inside the metadata directory.
pub fn metadata_edb_file() -> (r: String)
    ensures
        r@ == "note.db"@,
{
    String::from_str("note.db")
}

/// Full path of the embedded database file inside the given metadata
/// directory.
pub fn embedded_database_path(metadir: &str) -> (r: String)
    ensures
        r@ == metadir@ + "/note.db"@,
{
    String::from_str(metadir).concat("/note.db")
}

/// The statement that creates the collections table.
pub fn create_collections_table_sql() -> (r: String)
    ensures
        r@ == "CREATE TABLE collections (id INTEGER PRIMARY KEY, name TEXT NOT NULL UNIQUE)"@,
{
    String::from_str("CREATE TABLE collections (id INTEGER PRIMARY KEY, name TEXT NOT NULL UNIQUE)")
}

/// The statement that creates the notes table.
pub fn create_notes_table_sql() -> (r: String)
    ensures
        r@
            == "CREATE TABLE notes (id INTEGER PRIMARY KEY, body TEXT NOT NULL, collection_id INTEGER NOT NULL, FOREIGN KEY(collection_id) REFERENCES collections(id))"@,
{
    String::from_str(
        "CREATE TABLE notes (id INTEGER PRIMARY KEY, body TEXT NOT NULL, collection_id INTEGER NOT NULL, FOREIGN KEY(collection_id) REFERENCES collections(id))",
    )
}

/// The statement that inserts a collection row.
pub fn insert_collection_sql() -> (r: String)
    ensures
        r@ == "INSERT INTO collections (name) VALUES (?1)"@,
{
    String::from_str("INSERT INTO collections (name) VALUES (?1)")
}

/// The statement that lists every collection.
pub fn select_collections_sql() -> (r: String)
    ensures
        r@ == "SELECT id, name FROM collections"@,
{
    String::from_str("SELECT id, name FROM collections")
}

/// The statement that inserts a note row.
pub fn insert_note_sql() -> (r: String)
    ensures
        r@ == "INSERT INTO notes (body, collection_id) VALUES (?1, ?2)"@,
{
    String::from_str("INSERT INTO notes (body, collection_id) VALUES (?1, ?2)")
}

/// The statement that lists the notes of one collection.
pub fn select_notes_sql() -> (r: String)
    ensures
        r@ == "SELECT id, body, collection_id FROM notes WHERE collection_id = ?1"@,
{
    String::from_str("SELECT id, body, collection_id FROM notes WHERE collection_id = ?1")
}

} // verus!
