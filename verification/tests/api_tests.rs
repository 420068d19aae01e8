use note::backend::Backend;
use note::services::{CollectionService, NoteApi, NoteService};
use note::store::{MemoryBackend, StoreError};

fn installed_api() -> NoteApi {
    let mut api = NoteApi::new(Backend::Memory(MemoryBackend::new())).unwrap();
    api.install().unwrap();
    api
}

#[test]
fn facade_install_initializes_schema_once() {
    let mut api = NoteApi::new(Backend::Memory(MemoryBackend::new())).unwrap();
    assert!(api.install().is_ok());
    assert_eq!(api.install(), Err(StoreError::SchemaConflict));
}

#[test]
fn services_delegate_to_the_shared_backend() {
    let mut api = installed_api();
    api.collections
        .create_collection(&mut api.backend, "personal")
        .unwrap();
    api.notes
        .create_note(&mut api.backend, &1, "buy milk")
        .unwrap();
    let cols = api.collections.list_collections(&api.backend).unwrap();
    assert_eq!(cols.len(), 1);
    let notes = api.notes.list_notes(&api.backend, &1).unwrap();
    assert_eq!(notes.len(), 1);
    assert_eq!(notes[0].body, "buy milk");
}

#[test]
fn full_scenario_install_create_list_and_reject_orphan() {
    let mut api = installed_api();
    api.collections
        .create_collection(&mut api.backend, "personal")
        .unwrap();

    let cols = api.collections.list_collections(&api.backend).unwrap();
    assert_eq!(cols.len(), 1);
    assert_eq!(cols[0].id, 1);
    assert_eq!(cols[0].name, "personal");

    api.notes
        .create_note(&mut api.backend, &1, "buy milk")
        .unwrap();
    let notes = api.notes.list_notes(&api.backend, &1).unwrap();
    assert_eq!(notes.len(), 1);
    assert_eq!(notes[0].id, 1);
    assert_eq!(notes[0].body, "buy milk");

    assert_eq!(
        api.notes.create_note(&mut api.backend, &99, "orphan"),
        Err(StoreError::ConstraintViolation)
    );
}

#[test]
fn service_constructors_build_stateless_services() {
    let _collections = CollectionService::new();
    let _notes = NoteService::new();
    let api = NoteApi::new(Backend::Memory(MemoryBackend::new())).unwrap();
    let cols = api.collections;
    let notes = api.notes;
    let _ = (cols, notes);
}
