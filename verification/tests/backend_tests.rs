use note::backend::{
    create_collections_table_sql, create_notes_table_sql, embedded_database_path,
    insert_collection_sql, insert_note_sql, metadata_edb_file, metadata_user_dir,
    select_collections_sql, select_notes_sql,
};

#[test]
fn database_path_joins_metadir_and_file_name() {
    assert_eq!(
        embedded_database_path("/home/user/.note-app"),
        "/home/user/.note-app/note.db"
    );
}

#[test]
fn metadata_names_are_fixed() {
    assert_eq!(metadata_user_dir(), ".note-app");
    assert_eq!(metadata_edb_file(), "note.db");
}

#[test]
fn schema_statements_create_the_two_tables() {
    assert_eq!(
        create_collections_table_sql(),
        "CREATE TABLE collections (id INTEGER PRIMARY KEY, name TEXT NOT NULL UNIQUE)"
    );
    assert_eq!(
        create_notes_table_sql(),
        "CREATE TABLE notes (id INTEGER PRIMARY KEY, body TEXT NOT NULL, collection_id INTEGER NOT NULL, FOREIGN KEY(collection_id) REFERENCES collections(id))"
    );
}

#[test]
fn row_statements_insert_and_select() {
    assert_eq!(insert_collection_sql(), "INSERT INTO collections (name) VALUES (?1)");
    assert_eq!(select_collections_sql(), "SELECT id, name FROM collections");
    assert_eq!(
        insert_note_sql(),
        "INSERT INTO notes (body, collection_id) VALUES (?1, ?2)"
    );
    assert_eq!(
        select_notes_sql(),
        "SELECT id, body, collection_id FROM notes WHERE collection_id = ?1"
    );
}
