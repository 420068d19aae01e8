//! Laws of the store model: what each operation preserves, and how creating
//! and listing relate.

use vstd::prelude::*;

verus! {

use crate::model::{
    CollectionModel, NoteModel, NoteRowModel, StoreModel, create_collection_step,
    create_note_step, has_collection_id, has_collection_name, names_count, notes_in,
    store_wf, with_collection, with_note,
};

/// A count of zero means no collection bears the name, and conversely.
pub proof fn lemma_names_count_zero(cs: Seq<CollectionModel>, name: Seq<char>)
    ensures
        (names_count(cs, name) == 0) <==> (forall|i: int|
            0 <= i < cs.len() ==> (#[trigger] cs[i]).name != name),
    decreases cs.len(),
{
    if cs.len() > 0 {
        lemma_names_count_zero(cs.drop_last(), name);
        assert(cs.last() == cs[cs.len() - 1]);
        assert(forall|i: int| 0 <= i < cs.len() - 1 ==> #[trigger] cs.drop_last()[i] == cs[i]);
        if forall|i: int| 0 <= i < cs.len() ==> (#[trigger] cs[i]).name != name {
            assert(forall|i: int|
                0 <= i < cs.drop_last().len() ==> (#[trigger] cs.drop_last()[i]).name != name);
            assert(names_count(cs, name) == 0);
        } else {
            let i = choose|i: int| 0 <= i < cs.len() && (#[trigger] cs[i]).name == name;
            if i < cs.len() - 1 {
                assert(cs.drop_last()[i].name == name);
                assert(names_count(cs.drop_last(), name) != 0);
            } else {
                assert(cs.last().name == name);
            }
            assert(names_count(cs, name) != 0);
        }
    }
}

/// Appending a row adds one to the count of its own name and nothing to any
/// other name.
pub proof fn lemma_names_count_push(cs: Seq<CollectionModel>, c: CollectionModel, name: Seq<char>)
    ensures
        names_count(cs.push(c), name) == names_count(cs, name) + (
        if c.name == name {
            1nat
        } else {
            0nat
        }),
{
    assert(cs.push(c).drop_last() =~= cs);
    assert(cs.push(c).last() == c);
}

/// Inserting a fresh, non-empty collection name keeps the store well-formed.
pub proof fn lemma_wf_with_collection(s: StoreModel, name: Seq<char>)
    requires
        store_wf(s),
        name.len() > 0,
        !has_collection_name(s, name),
    ensures
        store_wf(with_collection(s, name)),
{
    let s2 = with_collection(s, name);
    assert forall|i: int| 0 <= i < s2.collections.len() implies (#[trigger] s2.collections[i]).id
        == i + 1 by {
        if i < s.collections.len() {
            assert(s2.collections[i] == s.collections[i]);
        }
    }
    assert forall|i: int| 0 <= i < s2.collections.len() implies (
    #[trigger] s2.collections[i]).name.len() > 0 by {
        if i < s.collections.len() {
            assert(s2.collections[i] == s.collections[i]);
        }
    }
    assert forall|i: int, j: int| 0 <= i < j < s2.collections.len() implies (
    #[trigger] s2.collections[i]).name != (#[trigger] s2.collections[j]).name by {
        if j < s.collections.len() {
            assert(s2.collections[i] == s.collections[i]);
            assert(s2.collections[j] == s.collections[j]);
        } else {
            assert(s2.collections[i] == s.collections[i]);
            assert(s2.collections[j].name == name);
            if s.collections[i].name == name {
                assert(has_collection_name(s, name));
            }
        }
    }
    assert forall|k: int| 0 <= k < s2.notes.len() implies has_collection_id(
        s2,
        (#[trigger] s2.notes[k]).collection_id,
    ) by {
        assert(s2.notes[k] == s.notes[k]);
        assert(has_collection_id(s, s.notes[k].collection_id));
        let i = choose|i: int|
            0 <= i < s.collections.len() && (#[trigger] s.collections[i]).id == s.notes[
                k
            ].collection_id;
        assert(s2.collections[i] == s.collections[i]);
    }
}

/// Inserting a note under an existing collection keeps the store well-formed.
pub proof fn lemma_wf_with_note(s: StoreModel, collection_id: int, body: Seq<char>)
    requires
        store_wf(s),
        has_collection_id(s, collection_id),
    ensures
        store_wf(with_note(s, collection_id, body)),
{
    let s2 = with_note(s, collection_id, body);
    assert forall|i: int| 0 <= i < s2.notes.len() implies (#[trigger] s2.notes[i]).id == i
        + 1 by {
        if i < s.notes.len() {
            assert(s2.notes[i] == s.notes[i]);
        }
    }
    assert forall|k: int| 0 <= k < s2.notes.len() implies has_collection_id(
        s2,
        (#[trigger] s2.notes[k]).collection_id,
    ) by {
        let cid = if k < s.notes.len() {
            s.notes[k].collection_id
        } else {
            collection_id
        };
        if k < s.notes.len() {
            assert(s2.notes[k] == s.notes[k]);
            assert(has_collection_id(s, cid));
        } else {
            assert(s2.notes[k].collection_id == cid);
        }
        let i = choose|i: int|
            0 <= i < s.collections.len() && (#[trigger] s.collections[i]).id == cid;
        assert(0 <= i < s2.collections.len() && s2.collections[i].id == cid);
    }
}

/// The sequential id handed to the next collection is fresh: no existing
/// collection bears it.
pub proof fn lemma_next_collection_id_fresh(s: StoreModel)
    requires
        store_wf(s),
    ensures
        !has_collection_id(s, s.collections.len() as int + 1),
{
    if has_collection_id(s, s.collections.len() as int + 1) {
        let i = choose|i: int|
            0 <= i < s.collections.len() && (#[trigger] s.collections[i]).id == s.collections.len()
                as int + 1;
        assert(s.collections[i].id == i + 1);
    }
}

/// Creating a collection under a fresh, valid name leaves the store listing
/// exactly one collection with that name, appended last, under an id no
/// earlier collection bears.
pub proof fn lemma_create_collection_lists_one(s: StoreModel, name: Seq<char>)
    requires
        store_wf(s),
        name.len() > 0,
        !has_collection_name(s, name),
    ensures
        ({
            let s2 = create_collection_step(s, name);
            &&& store_wf(s2)
            &&& s2.collections.len() == s.collections.len() + 1
            &&& names_count(s2.collections, name) == 1
            &&& s2.collections.last().name == name
            &&& !has_collection_id(s, s2.collections.last().id)
        }),
{
    let s2 = create_collection_step(s, name);
    lemma_wf_with_collection(s, name);
    lemma_names_count_zero(s.collections, name);
    lemma_names_count_push(
        s.collections,
        CollectionModel { id: s.collections.len() as int + 1, name },
        name,
    );
    lemma_next_collection_id_fresh(s);
    assert(s2.collections.last() == CollectionModel {
        id: s.collections.len() as int + 1,
        name,
    });
}

/// Creating the same name twice: the second call finds the name taken (so it
/// fails), the store is unchanged by it, and still holds exactly one
/// collection with that name.
pub proof fn lemma_duplicate_collection_rejected(s: StoreModel, name: Seq<char>)
    requires
        store_wf(s),
        name.len() > 0,
        !has_collection_name(s, name),
    ensures
        ({
            let s2 = create_collection_step(s, name);
            &&& has_collection_name(s2, name)
            &&& create_collection_step(s2, name) == s2
            &&& names_count(create_collection_step(s2, name).collections, name) == 1
        }),
{
    let s2 = create_collection_step(s, name);
    lemma_create_collection_lists_one(s, name);
    assert(s2.collections[s2.collections.len() - 1].name == name);
}

/// Creating a note under an existing collection appends exactly that note,
/// under the next sequential id, to the listing of that collection.
pub proof fn lemma_create_note_listed(s: StoreModel, collection_id: int, body: Seq<char>)
    requires
        has_collection_id(s, collection_id),
    ensures
        ({
            let s2 = create_note_step(s, collection_id, body);
            &&& notes_in(s2.notes, collection_id) == notes_in(s.notes, collection_id).push(
                NoteModel { id: s.notes.len() as int + 1, body },
            )
            &&& notes_in(s2.notes, collection_id).last().body == body
        }),
{
    let s2 = create_note_step(s, collection_id, body);
    assert(s2.notes.drop_last() =~= s.notes);
    assert(s2.notes.last() == NoteRowModel {
        id: s.notes.len() as int + 1,
        body,
        collection_id,
    });
}

/// Creating a note under a collection id the store never assigned changes
/// nothing: the notes table is exactly what it was.
pub proof fn lemma_unknown_collection_rejected(s: StoreModel, collection_id: int, body: Seq<char>)
    requires
        !has_collection_id(s, collection_id),
    ensures
        create_note_step(s, collection_id, body) == s,
{
}

/// A collection under which no note was ever created lists no notes.
pub proof fn lemma_notes_in_empty_when_none(notes: Seq<NoteRowModel>, collection_id: int)
    requires
        forall|i: int| 0 <= i < notes.len() ==> (#[trigger] notes[i]).collection_id
            != collection_id,
    ensures
        notes_in(notes, collection_id) == Seq::<NoteModel>::empty(),
    decreases notes.len(),
{
    if notes.len() > 0 {
        assert(forall|i: int|
            0 <= i < notes.len() - 1 ==> #[trigger] notes.drop_last()[i] == notes[i]);
        lemma_notes_in_empty_when_none(notes.drop_last(), collection_id);
        assert(notes.last() == notes[notes.len() - 1]);
    }
}

/// One step of walking the notes table: taking one more row extends the
/// listing of a collection exactly when the row belongs to it.
pub proof fn lemma_notes_in_take_step(notes: Seq<NoteRowModel>, collection_id: int, i: int)
    requires
        0 <= i < notes.len(),
    ensures
        notes_in(notes.take(i + 1), collection_id) == (
        if notes[i].collection_id == collection_id {
            notes_in(notes.take(i), collection_id).push(
                NoteModel { id: notes[i].id, body: notes[i].body },
            )
        } else {
            notes_in(notes.take(i), collection_id)
        }),
{
    assert(notes.take(i + 1).drop_last() =~= notes.take(i));
    assert(notes.take(i + 1).last() == notes[i]);
}

} // verus!
