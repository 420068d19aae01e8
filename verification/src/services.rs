//! The domain-facing services and the application facade. The services hold
//! no state and no logic: each call delegates to the backend it is handed and
//! propagates the result unchanged, so each carries the backend's contract.

use vstd::prelude::*;
use vstd::string::StringExecFns;

verus! {

use crate::Id;
use crate::backend::{Backend, BackendExt};
use crate::model::{
    Collection, Note, collection_views, create_collection_step, create_note_step,
    has_collection_id, has_collection_name, install_step, note_views, notes_in, store_wf,
};
use crate::store::StoreError;

/// Domain-facing API for collection operations.
pub struct CollectionService {}

impl CollectionService {
    pub fn new() -> (s: CollectionService) {
        CollectionService {  }
    }

    /// Delegates to the backend, propagating any error unchanged.
    pub fn create_collection(&self, backend: &mut Backend, name: &str) -> (r: Result<
        (),
        StoreError,
    >)
        requires
            store_wf(old(backend).model()),
            old(backend).model().installed,
            name@.len() > 0,
            old(backend).model().collections.len() < i32::MAX,
        ensures
            store_wf(final(backend).model()),
            final(backend).model() == create_collection_step(old(backend).model(), name@),
            r is Ok <==> !has_collection_name(old(backend).model(), name@),
            r is Err ==> r->Err_0 == StoreError::ConstraintViolation,
    {
        backend.create_collection(name)
    }

    /// Delegates to the backend, propagating any error unchanged.
    pub fn list_collections(&self, backend: &Backend) -> (r: Result<Vec<Collection>, StoreError>)
        requires
            backend.model().installed,
        ensures
            r is Ok,
            collection_views(r->Ok_0@) == backend.model().collections,
    {
        backend.list_collections()
    }
}

/// Domain-facing API for note operations scoped by collection id.
pub struct NoteService {}

impl NoteService {
    pub fn new() -> (s: NoteService) {
        NoteService {  }
    }

    /// Delegates to the backend, propagating any error unchanged.
    pub fn create_note(&self, backend: &mut Backend, collection_id: &Id, body: &str) -> (r: Result<
        (),
        StoreError,
    >)
        requires
            store_wf(old(backend).model()),
            old(backend).model().installed,
            old(backend).model().notes.len() < i32::MAX,
        ensures
            store_wf(final(backend).model()),
            final(backend).model() == create_note_step(
                old(backend).model(),
                *collection_id as int,
                body@,
            ),
            r is Ok <==> has_collection_id(old(backend).model(), *collection_id as int),
            r is Err ==> r->Err_0 == StoreError::ConstraintViolation,
    {
        backend.create_note(collection_id, String::from_str(body))
    }

    /// Delegates to the backend, propagating any error unchanged.
    pub fn list_notes(&self, backend: &Backend, collection_id: &Id) -> (r: Result<
        Vec<Note>,
        StoreError,
    >)
        requires
            backend.model().installed,
        ensures
            r is Ok,
            note_views(r->Ok_0@) == notes_in(backend.model().notes, *collection_id as int),
    {
        backend.list_notes(collection_id)
    }
}

/// Single entry point: owns the storage engine and exposes both services and
/// schema initialization.
pub struct NoteApi {
    pub collections: CollectionService,
    pub notes: NoteService,
    pub backend: Backend,
}

impl NoteApi {
    pub fn new(backend: Backend) -> (r: Result<NoteApi, StoreError>)
        ensures
            r is Ok,
            r->Ok_0.backend == backend,
    {
        Ok(NoteApi { collections: CollectionService::new(), notes: NoteService::new(), backend })
    }

    /// Initializes the schema on the owned backend. Against an
    /// already-initialized store this fails with the schema-conflict error
    /// and changes nothing.
    pub fn install(&mut self) -> (r: Result<(), StoreError>)
        ensures
            final(self).backend.model() == (if old(self).backend.model().installed {
                old(self).backend.model()
            } else {
                install_step(old(self).backend.model())
            }),
            r is Ok <==> !old(self).backend.model().installed,
            r is Err ==> r->Err_0 == StoreError::SchemaConflict,
            store_wf(old(self).backend.model()) ==> store_wf(final(self).backend.model()),
    {
        self.backend.install()
    }
}

} // verus!
