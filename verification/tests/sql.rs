use pgnotes::sql;

#[test]
fn text_of_the_database_check() {
    assert_eq!(
        sql::database_exists(),
        "SELECT EXISTS (SELECT FROM pg_database WHERE datname = $1)"
    );
}

#[test]
fn text_of_the_table_check() {
    assert_eq!(
        sql::table_exists(),
        "SELECT EXISTS (SELECT * FROM information_schema.tables WHERE table_name = $1)"
    );
}

#[test]
fn text_of_the_column_query() {
    assert_eq!(
        sql::columns(),
        "SELECT column_name, data_type FROM information_schema.columns WHERE table_name = $1"
    );
}

#[test]
fn text_of_create_database() {
    assert_eq!(sql::create_database("notebook"), "CREATE DATABASE notebook");
}

#[test]
fn text_of_create_table() {
    assert_eq!(
        sql::create_table("notes"),
        "CREATE TABLE IF NOT EXISTS notes (id SERIAL PRIMARY KEY, title VARCHAR, details VARCHAR, time VARCHAR)"
    );
}

#[test]
fn text_of_drop_table() {
    assert_eq!(sql::drop_table("notes"), "DROP TABLE notes");
}

#[test]
fn text_of_insert_note() {
    assert_eq!(
        sql::insert_note("notes"),
        "INSERT INTO notes (title, details, time) VALUES ($1, $2, NOW())"
    );
}

#[test]
fn text_of_recent_notes() {
    assert_eq!(sql::recent_notes("notes", 10), "SELECT * FROM notes ORDER BY time DESC LIMIT 10");
    assert_eq!(sql::recent_notes("memos", 2), "SELECT * FROM memos ORDER BY time DESC LIMIT 2");
}

#[test]
fn recent_notes_hands_on_any_limit() {
    assert_eq!(sql::recent_notes("notes", 0), "SELECT * FROM notes ORDER BY time DESC LIMIT 0");
    assert_eq!(sql::recent_notes("notes", -5), "SELECT * FROM notes ORDER BY time DESC LIMIT -5");
    assert_eq!(
        sql::recent_notes("notes", i32::MAX),
        "SELECT * FROM notes ORDER BY time DESC LIMIT 2147483647"
    );
}

#[test]
fn the_statements_name_the_table_that_was_asked_for() {
    assert!(sql::create_table("journal").contains(" journal "));
    assert!(sql::insert_note("journal").starts_with("INSERT INTO journal "));
    assert!(sql::drop_table("journal").ends_with(" journal"));
}
