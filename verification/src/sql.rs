//! The text of every statement that is sent to the database.
//!
//! Names of databases and tables are written into the text as they are
//! given; values of a note travel as parameters, never as text.

use crate::text::{decimal, format_decimal};
use vstd::prelude::*;
use vstd::string::*;

verus! {

/// Asks whether a database of the name given as `$1` exists.
pub open spec fn database_exists_text() -> Seq<char> {
    "SELECT EXISTS (SELECT FROM pg_database WHERE datname = $1)"@
}

/// Asks whether a table of the name given as `$1` exists, in any schema.
pub open spec fn table_exists_text() -> Seq<char> {
    "SELECT EXISTS (SELECT * FROM information_schema.tables WHERE table_name = $1)"@
}

/// Asks for the name and the declared type of each column of the table
/// whose name is given as `$1`.
pub open spec fn columns_text() -> Seq<char> {
    "SELECT column_name, data_type FROM information_schema.columns WHERE table_name = $1"@
}

/// Creates the database `name`.
pub open spec fn create_database_text(name: Seq<char>) -> Seq<char> {
    "CREATE DATABASE "@ + name
}

/// Creates the notes table under the name `table`, unless a table of that
/// name is already there.
pub open spec fn create_table_text(table: Seq<char>) -> Seq<char> {
    "CREATE TABLE IF NOT EXISTS "@ + table
        + " (id SERIAL PRIMARY KEY, title VARCHAR, details VARCHAR, time VARCHAR)"@
}

/// Removes the table `table` with all its rows.
pub open spec fn drop_table_text(table: Seq<char>) -> Seq<char> {
    "DROP TABLE "@ + table
}

/// Appends one note to `table`: title `$1`, details `$2`, and the server's
/// current time.
pub open spec fn insert_note_text(table: Seq<char>) -> Seq<char> {
    "INSERT INTO "@ + table + " (title, details, time) VALUES ($1, $2, NOW())"@
}

/// Reads at most `limit` notes from `table`, latest first.
pub open spec fn recent_notes_text(table: Seq<char>, limit: int) -> Seq<char> {
    "SELECT * FROM "@ + table + " ORDER BY time DESC LIMIT "@ + decimal(limit)
}

pub fn database_exists() -> (sql: String)
    ensures
        sql@ == database_exists_text(),
{
    String::from_str("SELECT EXISTS (SELECT FROM pg_database WHERE datname = $1)")
}

pub fn table_exists() -> (sql: String)
    ensures
        sql@ == table_exists_text(),
{
    String::from_str(
        "SELECT EXISTS (SELECT * FROM information_schema.tables WHERE table_name = $1)",
    )
}

pub fn columns() -> (sql: String)
    ensures
        sql@ == columns_text(),
{
    String::from_str(
        "SELECT column_name, data_type FROM information_schema.columns WHERE table_name = $1",
    )
}

pub fn create_database(name: &str) -> (sql: String)
    ensures
        sql@ == create_database_text(name@),
{
    let mut sql = String::from_str("CREATE DATABASE ");
    sql.append(name);
    sql
}

pub fn create_table(table: &str) -> (sql: String)
    ensures
        sql@ == create_table_text(table@),
{
    let mut sql = String::from_str("CREATE TABLE IF NOT EXISTS ");
    sql.append(table);
    sql.append(" (id SERIAL PRIMARY KEY, title VARCHAR, details VARCHAR, time VARCHAR)");
    sql
}

pub fn drop_table(table: &str) -> (sql: String)
    ensures
        sql@ == drop_table_text(table@),
{
    let mut sql = String::from_str("DROP TABLE ");
    sql.append(table);
    sql
}

pub fn insert_note(table: &str) -> (sql: String)
    ensures
        sql@ == insert_note_text(table@),
{
    let mut sql = String::from_str("INSERT INTO ");
    sql.append(table);
    sql.append(" (title, details, time) VALUES ($1, $2, NOW())");
    sql
}

pub fn recent_notes(table: &str, limit: i32) -> (sql: String)
    ensures
        sql@ == recent_notes_text(table@, limit as int),
{
    let mut sql = String::from_str("SELECT * FROM ");
    sql.append(table);
    sql.append(" ORDER BY time DESC LIMIT ");
    let count = format_decimal(limit);
    sql.append(count.as_str());
    sql
}

} // verus!
