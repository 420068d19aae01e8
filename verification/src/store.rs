//! The in-memory storage engine: two tables kept under the same constraints
//! the embedded database enforces.

use vstd::prelude::*;
use vstd::string::StringExecFns;

verus! {

use crate::Id;
use crate::backend::BackendExt;
use crate::laws::{lemma_notes_in_take_step, lemma_wf_with_collection, lemma_wf_with_note};
use crate::model::{
    Collection, Note, NoteRowModel, StoreModel, collection_views, create_collection_step,
    create_note_step, has_collection_id, has_collection_name, install_step, note_views, notes_in,
    store_empty, store_wf, with_collection, with_note,
};

/// What a store operation can fail with.
#[derive(Clone, Copy, Debug, PartialEq, Eq, Structural)]
pub enum StoreError {
    /// Schema creation was asked of an already-initialized store.
    SchemaConflict,
    /// A statement broke a table constraint: a duplicate collection name, or
    /// a note referencing a collection the store never assigned.
    ConstraintViolation,
}

impl StoreError {
    /// The message the store reports for this failure.
    pub fn message(&self) -> (m: String)
        ensures
            *self == StoreError::SchemaConflict ==> m@ == "table already exists"@,
            *self == StoreError::ConstraintViolation ==> m@ == "constraint violation"@,
    {
        match self {
            StoreError::SchemaConflict => String::from_str("table already exists"),
            StoreError::ConstraintViolation => String::from_str("constraint violation"),
        }
    }
}

/// A stored note row.
pub struct NoteRow {
    pub id: Id,
    pub body: String,
    pub collection_id: Id,
}

impl View for NoteRow {
    type V = NoteRowModel;

    open spec fn view(&self) -> NoteRowModel {
        NoteRowModel {
            id: self.id as int,
            body: self.body@,
            collection_id: self.collection_id as int,
        }
    }
}

/// The views of a sequence of stored note rows.
pub open spec fn note_row_views(ns: Seq<NoteRow>) -> Seq<NoteRowModel> {
    ns.map_values(|n: NoteRow| n@)
}

/// The in-memory storage engine: whether the schema was created, and the two
/// tables in insertion order.
pub struct MemoryBackend {
    installed: bool,
    collections: Vec<Collection>,
    notes: Vec<NoteRow>,
}

impl MemoryBackend {
    /// A fresh engine over an empty store.
    pub fn new() -> (r: MemoryBackend)
        ensures
            r.model() == store_empty(),
            store_wf(r.model()),
    {
        let r = MemoryBackend { installed: false, collections: Vec::new(), notes: Vec::new() };
        proof {
            assert(r.model().collections =~= store_empty().collections);
            assert(r.model().notes =~= store_empty().notes);
            assert(r.model() =~= store_empty());
        }
        r
    }

    /// Creates the two tables. Against an already-initialized store this
    /// fails with the schema-conflict error and changes nothing.
    pub fn install(&mut self) -> (r: Result<(), StoreError>)
        ensures
            final(self).model() == (if old(self).model().installed {
                old(self).model()
            } else {
                install_step(old(self).model())
            }),
            r is Ok <==> !old(self).model().installed,
            r is Err ==> r->Err_0 == StoreError::SchemaConflict,
            store_wf(old(self).model()) ==> store_wf(final(self).model()),
    {
        if self.installed {
            Err(StoreError::SchemaConflict)
        } else {
            self.installed = true;
            proof {
                assert(self.model() =~= install_step(old(self).model()));
                if store_wf(old(self).model()) {
                    lemma_wf_same_tables(old(self).model(), self.model());
                }
            }
            Ok(())
        }
    }
}

/// Well-formedness reads only the two tables, never the installed flag.
proof fn lemma_wf_same_tables(s1: StoreModel, s2: StoreModel)
    requires
        store_wf(s1),
        s1.collections == s2.collections,
        s1.notes == s2.notes,
    ensures
        store_wf(s2),
{
    assert forall|k: int| 0 <= k < s2.notes.len() implies has_collection_id(
        s2,
        (#[trigger] s2.notes[k]).collection_id,
    ) by {
        assert(has_collection_id(s1, s1.notes[k].collection_id));
        let i = choose|i: int|
            0 <= i < s1.collections.len() && (#[trigger] s1.collections[i]).id == s1.notes[
                k
            ].collection_id;
        assert(0 <= i < s2.collections.len() && s2.collections[i].id == s2.notes[k].collection_id);
    }
}

impl BackendExt for MemoryBackend {
    closed spec fn model(&self) -> StoreModel {
        StoreModel {
            installed: self.installed,
            collections: collection_views(self.collections@),
            notes: note_row_views(self.notes@),
        }
    }

    fn create_collection(&mut self, name: &str) -> (r: Result<(), StoreError>) {
        let name_string = String::from_str(name);
        let mut i: usize = 0;
        let mut found = false;
        while i < self.collections.len()
            invariant
                *self == *old(self),
                i <= self.collections@.len(),
                name_string@ == name@,
                found <==> exists|k: int|
                    0 <= k < i && (#[trigger] self.model().collections[k]).name == name@,
            decreases self.collections@.len() - i,
        {
            if self.collections[i].name == name_string {
                proof {
                    assert(self.model().collections[i as int].name == name@);
                }
                found = true;
            }
            i += 1;
        }
        if found {
            proof {
                assert(has_collection_name(old(self).model(), name@));
            }
            Err(StoreError::ConstraintViolation)
        } else {
            proof {
                assert(!has_collection_name(old(self).model(), name@));
            }
            let id: i32 = self.collections.len() as i32 + 1;
            self.collections.push(Collection { id, name: name_string });
            proof {
                assert(self.model().collections =~= with_collection(
                    old(self).model(),
                    name@,
                ).collections);
                assert(self.model() =~= create_collection_step(old(self).model(), name@));
                lemma_wf_with_collection(old(self).model(), name@);
            }
            Ok(())
        }
    }

    fn list_collections(&self) -> (r: Result<Vec<Collection>, StoreError>) {
        let mut out: Vec<Collection> = Vec::new();
        let mut i: usize = 0;
        while i < self.collections.len()
            invariant
                i <= self.collections@.len(),
                out@.len() == i as int,
                forall|k: int| 0 <= k < i as int ==> (#[trigger] out@[k])@
                    == self.model().collections[k],
            decreases self.collections@.len() - i,
        {
            let c = &self.collections[i];
            let copied = Collection { id: c.id, name: c.name.clone() };
            proof {
                assert(copied@ == self.collections@[i as int]@);
                assert(self.model().collections[i as int] == self.collections@[i as int]@);
            }
            out.push(copied);
            i += 1;
        }
        proof {
            assert forall|k: int| 0 <= k < out@.len() implies #[trigger] collection_views(out@)[k]
                == self.model().collections[k] by {
                assert(collection_views(out@)[k] == out@[k]@);
            }
            assert(collection_views(out@) =~= self.model().collections);
        }
        Ok(out)
    }

    fn create_note(&mut self, collection_id: &Id, note: String) -> (r: Result<(), StoreError>) {
        let cid: i32 = *collection_id;
        let mut i: usize = 0;
        let mut found = false;
        while i < self.collections.len()
            invariant
                *self == *old(self),
                i <= self.collections@.len(),
                cid == *collection_id,
                found <==> exists|k: int|
                    0 <= k < i && (#[trigger] self.model().collections[k]).id == cid as int,
            decreases self.collections@.len() - i,
        {
            if self.collections[i].id == cid {
                proof {
                    assert(self.model().collections[i as int].id == cid as int);
                }
                found = true;
            }
            i += 1;
        }
        if found {
            proof {
                assert(has_collection_id(old(self).model(), cid as int));
            }
            let id: i32 = self.notes.len() as i32 + 1;
            self.notes.push(NoteRow { id, body: note, collection_id: cid });
            proof {
                assert(self.model().notes =~= with_note(
                    old(self).model(),
                    cid as int,
                    note@,
                ).notes);
                assert(self.model() =~= create_note_step(old(self).model(), cid as int, note@));
                lemma_wf_with_note(old(self).model(), cid as int, note@);
            }
            Ok(())
        } else {
            proof {
                assert(!has_collection_id(old(self).model(), cid as int));
            }
            Err(StoreError::ConstraintViolation)
        }
    }

    fn list_notes(&self, collection_id: &Id) -> (r: Result<Vec<Note>, StoreError>) {
        let cid: i32 = *collection_id;
        let mut out: Vec<Note> = Vec::new();
        let mut i: usize = 0;
        while i < self.notes.len()
            invariant
                i <= self.notes@.len(),
                cid == *collection_id,
                note_views(out@) == notes_in(self.model().notes.take(i as int), cid as int),
            decreases self.notes@.len() - i,
        {
            let row = &self.notes[i];
            proof {
                assert(self.model().notes[i as int] == self.notes@[i as int]@);
            }
            if row.collection_id == cid {
                out.push(Note { id: row.id, body: row.body.clone() });
            }
            proof {
                lemma_notes_in_take_step(self.model().notes, cid as int, i as int);
                assert(note_views(out@) =~= notes_in(
                    self.model().notes.take(i as int + 1),
                    cid as int,
                ));
            }
            i += 1;
        }
        proof {
            assert(self.model().notes.take(self.notes@.len() as int) =~= self.model().notes);
        }
        Ok(out)
    }
}

} // verus!
