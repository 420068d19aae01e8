//! Domain records and the mathematical model of the store.
//!
//! The store holds two tables. `StoreModel` is their mathematical view:
//! whether the schema has been created, and the rows of each table in
//! insertion order. The `*_step` functions say exactly how each operation
//! changes that view; the executable engine and the services promise those
//! steps in their contracts.

use vstd::prelude::*;

verus! {

use crate::Id;

/// A named grouping of notes, as the store returns it.
#[derive(Debug)]
pub struct Collection {
    pub id: Id,
    pub name: String,
}

/// A text entry belonging to one collection, as listings return it.
#[derive(Debug)]
pub struct Note {
    pub id: Id,
    pub body: String,
}

/// Mathematical view of a collection row.
#[verifier::ext_equal]
pub ghost struct CollectionModel {
    pub id: int,
    pub name: Seq<char>,
}

/// Mathematical view of a note as listings return it.
#[verifier::ext_equal]
pub ghost struct NoteModel {
    pub id: int,
    pub body: Seq<char>,
}

/// Mathematical view of a stored note row, with its owning collection.
#[verifier::ext_equal]
pub ghost struct NoteRowModel {
    pub id: int,
    pub body: Seq<char>,
    pub collection_id: int,
}

/// Mathematical view of the whole store: whether the schema exists, and the
/// contents of the two tables in insertion order.
#[verifier::ext_equal]
pub ghost struct StoreModel {
    pub installed: bool,
    pub collections: Seq<CollectionModel>,
    pub notes: Seq<NoteRowModel>,
}

impl View for Collection {
    type V = CollectionModel;

    open spec fn view(&self) -> CollectionModel {
        CollectionModel { id: self.id as int, name: self.name@ }
    }
}

impl View for Note {
    type V = NoteModel;

    open spec fn view(&self) -> NoteModel {
        NoteModel { id: self.id as int, body: self.body@ }
    }
}

/// The views of a sequence of collection records.
pub open spec fn collection_views(cs: Seq<Collection>) -> Seq<CollectionModel> {
    cs.map_values(|c: Collection| c@)
}

/// The views of a sequence of note records.
pub open spec fn note_views(ns: Seq<Note>) -> Seq<NoteModel> {
    ns.map_values(|n: Note| n@)
}

/// The store before any operation: no schema, no rows.
pub open spec fn store_empty() -> StoreModel {
    StoreModel { installed: false, collections: Seq::empty(), notes: Seq::empty() }
}

/// Whether some collection bears the given name.
pub open spec fn has_collection_name(s: StoreModel, name: Seq<char>) -> bool {
    exists|i: int| 0 <= i < s.collections.len() && (#[trigger] s.collections[i]).name == name
}

/// Whether some collection bears the given id.
pub open spec fn has_collection_id(s: StoreModel, id: int) -> bool {
    exists|i: int| 0 <= i < s.collections.len() && (#[trigger] s.collections[i]).id == id
}

/// The store after a successful schema creation.
pub open spec fn install_step(s: StoreModel) -> StoreModel {
    StoreModel { installed: true, collections: s.collections, notes: s.notes }
}

/// The store after a successful collection insert: the fresh row gets the
/// next sequential id.
pub open spec fn with_collection(s: StoreModel, name: Seq<char>) -> StoreModel {
    StoreModel {
        installed: s.installed,
        collections: s.collections.push(
            CollectionModel { id: s.collections.len() as int + 1, name },
        ),
        notes: s.notes,
    }
}

/// What `createCollection` does to the store: a duplicate name leaves it
/// unchanged (the call fails), a fresh name appends a row.
pub open spec fn create_collection_step(s: StoreModel, name: Seq<char>) -> StoreModel {
    if has_collection_name(s, name) {
        s
    } else {
        with_collection(s, name)
    }
}

/// The store after a successful note insert: the fresh row gets the next
/// sequential id.
pub open spec fn with_note(s: StoreModel, collection_id: int, body: Seq<char>) -> StoreModel {
    StoreModel {
        installed: s.installed,
        collections: s.collections,
        notes: s.notes.push(
            NoteRowModel { id: s.notes.len() as int + 1, body, collection_id },
        ),
    }
}

/// What `createNote` does to the store: an unknown collection id leaves it
/// unchanged (the call fails), a known one appends a row.
pub open spec fn create_note_step(s: StoreModel, collection_id: int, body: Seq<char>) -> StoreModel {
    if has_collection_id(s, collection_id) {
        with_note(s, collection_id, body)
    } else {
        s
    }
}

/// The notes of one collection, in store order, projected to what listings
/// return.
pub open spec fn notes_in(notes: Seq<NoteRowModel>, collection_id: int) -> Seq<NoteModel>
    decreases notes.len(),
{
    if notes.len() == 0 {
        Seq::empty()
    } else {
        let prefix = notes_in(notes.drop_last(), collection_id);
        let last = notes.last();
        if last.collection_id == collection_id {
            prefix.push(NoteModel { id: last.id, body: last.body })
        } else {
            prefix
        }
    }
}

/// How many collections bear the given name.
pub open spec fn names_count(cs: Seq<CollectionModel>, name: Seq<char>) -> nat
    decreases cs.len(),
{
    if cs.len() == 0 {
        0
    } else if cs.last().name == name {
        names_count(cs.drop_last(), name) + 1
    } else {
        names_count(cs.drop_last(), name)
    }
}

/// Well-formed store: both tables carry sequential ids starting at 1 (so ids
/// are unique and insertion order is primary-key order), collection names are
/// non-empty and pairwise distinct, and every note references an existing
/// collection.
pub open spec fn store_wf(s: StoreModel) -> bool {
    &&& forall|i: int|
        0 <= i < s.collections.len() ==> (#[trigger] s.collections[i]).id == i + 1
    &&& forall|i: int|
        0 <= i < s.collections.len() ==> (#[trigger] s.collections[i]).name.len() > 0
    &&& forall|i: int, j: int|
        0 <= i < j < s.collections.len()
            ==> (#[trigger] s.collections[i]).name != (#[trigger] s.collections[j]).name
    &&& forall|i: int|
        0 <= i < s.notes.len() ==> (#[trigger] s.notes[i]).id == i + 1
    &&& forall|i: int|
        0 <= i < s.notes.len() ==> has_collection_id(s, (#[trigger] s.notes[i]).collection_id)
}

} // verus!
