use note::backend::{Backend, BackendExt};
use note::store::{MemoryBackend, StoreError};

fn installed_backend() -> Backend {
    let mut b = Backend::Memory(MemoryBackend::new());
    b.install().unwrap();
    b
}

#[test]
fn install_succeeds_on_fresh_store() {
    let mut b = Backend::Memory(MemoryBackend::new());
    assert!(b.install().is_ok());
}

#[test]
fn install_twice_fails_with_schema_conflict() {
    let mut b = Backend::Memory(MemoryBackend::new());
    b.install().unwrap();
    assert_eq!(b.install(), Err(StoreError::SchemaConflict));
}

#[test]
fn list_collections_on_empty_store_is_empty() {
    let b = installed_backend();
    let cols = b.list_collections().unwrap();
    assert!(cols.is_empty());
}

#[test]
fn create_then_list_yields_one_collection_with_fresh_id() {
    let mut b = installed_backend();
    b.create_collection("personal").unwrap();
    let cols = b.list_collections().unwrap();
    assert_eq!(cols.len(), 1);
    assert_eq!(cols[0].id, 1);
    assert_eq!(cols[0].name, "personal");
}

#[test]
fn duplicate_collection_name_is_rejected_and_store_unchanged() {
    let mut b = installed_backend();
    b.create_collection("work").unwrap();
    assert_eq!(b.create_collection("work"), Err(StoreError::ConstraintViolation));
    let cols = b.list_collections().unwrap();
    assert_eq!(cols.len(), 1);
    assert_eq!(cols[0].name, "work");
}

#[test]
fn collections_get_sequential_ids_in_insertion_order() {
    let mut b = installed_backend();
    b.create_collection("a").unwrap();
    b.create_collection("b").unwrap();
    b.create_collection("c").unwrap();
    let cols = b.list_collections().unwrap();
    let ids: Vec<i32> = cols.iter().map(|c| c.id).collect();
    let names: Vec<&str> = cols.iter().map(|c| c.name.as_str()).collect();
    assert_eq!(ids, vec![1, 2, 3]);
    assert_eq!(names, vec!["a", "b", "c"]);
}

#[test]
fn created_note_appears_in_its_collection_listing() {
    let mut b = installed_backend();
    b.create_collection("personal").unwrap();
    b.create_note(&1, String::from("buy milk")).unwrap();
    let notes = b.list_notes(&1).unwrap();
    assert!(notes.iter().any(|n| n.body == "buy milk"));
}

#[test]
fn note_for_unknown_collection_is_rejected_and_notes_unchanged() {
    let mut b = installed_backend();
    b.create_collection("personal").unwrap();
    assert_eq!(
        b.create_note(&99, String::from("orphan")),
        Err(StoreError::ConstraintViolation)
    );
    assert!(b.list_notes(&1).unwrap().is_empty());
    assert!(b.list_notes(&99).unwrap().is_empty());
}

#[test]
fn collection_without_notes_lists_empty_not_error() {
    let mut b = installed_backend();
    b.create_collection("quiet").unwrap();
    let notes = b.list_notes(&1).unwrap();
    assert!(notes.is_empty());
}

#[test]
fn notes_are_scoped_to_their_collection_in_order() {
    let mut b = installed_backend();
    b.create_collection("home").unwrap();
    b.create_collection("office").unwrap();
    b.create_note(&1, String::from("water plants")).unwrap();
    b.create_note(&2, String::from("file report")).unwrap();
    b.create_note(&1, String::from("fix door")).unwrap();
    let home = b.list_notes(&1).unwrap();
    assert_eq!(home.len(), 2);
    assert_eq!(home[0].id, 1);
    assert_eq!(home[0].body, "water plants");
    assert_eq!(home[1].id, 3);
    assert_eq!(home[1].body, "fix door");
    let office = b.list_notes(&2).unwrap();
    assert_eq!(office.len(), 1);
    assert_eq!(office[0].id, 2);
    assert_eq!(office[0].body, "file report");
}

#[test]
fn store_error_messages() {
    assert_eq!(StoreError::SchemaConflict.message(), "table already exists");
    assert_eq!(StoreError::ConstraintViolation.message(), "constraint violation");
}
