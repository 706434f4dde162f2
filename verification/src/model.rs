//! A model of the database, against which whole runs of the reconciliation
//! are followed from their first request to their end.
//!
//! The model is a server that carries out every request that can be carried
//! out. It knows one database and one table, and of the table its columns
//! and its rows. What is proved here is proved of the decisions in
//! [`crate::reconcile`], on the assumption that a real server answers as
//! the model does.

use crate::exchange::EventSpec;
use crate::note::NoteSpec;
use crate::reconcile::{action_of, advance, remaining, Action, Outcome, StateSpec};
use crate::schema::{conforms, is_note_column, valid_structure, ColumnSpec};
use vstd::prelude::*;

verus! {

/// A table: its columns as the catalog lists them, and its rows.
pub struct Table {
    pub columns: Seq<ColumnSpec>,
    pub rows: Seq<NoteSpec>,
}

/// What the server holds under the configured names.
pub enum Store {
    /// No database.
    Nothing,
    /// The database, with the table or without it.
    Database(Option<Table>),
}

/// The columns of a table that the creating statement has just made, as the
/// catalog lists them: the number, then the three text columns.
pub open spec fn created_columns() -> Seq<ColumnSpec> {
    seq![
        ColumnSpec { name: "id"@, data_type: "integer"@ },
        ColumnSpec { name: "title"@, data_type: "character varying"@ },
        ColumnSpec { name: "details"@, data_type: "character varying"@ },
        ColumnSpec { name: "time"@, data_type: "character varying"@ },
    ]
}

/// A table that the creating statement has just made: it has no rows.
pub open spec fn fresh_table() -> Table {
    Table { columns: created_columns(), rows: Seq::empty() }
}

/// The table, if the store has one.
pub open spec fn table_of(store: Store) -> Option<Table> {
    match store {
        Store::Nothing => None,
        Store::Database(table) => table,
    }
}

/// The structure of a store, without its rows: whether the database is
/// there, and the columns of the table if it is there.
pub open spec fn schema_of(store: Store) -> Option<Option<Seq<ColumnSpec>>> {
    match store {
        Store::Nothing => None,
        Store::Database(None) => Some(None),
        Store::Database(Some(table)) => Some(Some(table.columns)),
    }
}

/// What the model says when it cannot carry a request out.
pub open spec fn refusal() -> Seq<char> {
    "refused"@
}

/// The store after one step, and the answer to it. Creating the table
/// leaves a table that is there as it is; dropping removes it with its
/// rows. A step that needs what is not there is refused.
pub open spec fn respond(store: Store, action: Action) -> (Store, EventSpec) {
    match action {
        Action::ConnectServer => (store, EventSpec::Connected),
        Action::CheckDatabase => (store, EventSpec::Exists(store is Database)),
        Action::CreateDatabase => match store {
            Store::Nothing => (Store::Database(None), EventSpec::Executed),
            Store::Database(_) => (store, EventSpec::Failed(refusal())),
        },
        Action::ConnectDatabase => match store {
            Store::Nothing => (store, EventSpec::Failed(refusal())),
            Store::Database(_) => (store, EventSpec::Connected),
        },
        Action::CheckTable => (store, EventSpec::Exists(table_of(store) is Some)),
        Action::ReadColumns => match table_of(store) {
            Some(table) => (store, EventSpec::Columns(table.columns)),
            None => (store, EventSpec::Columns(Seq::empty())),
        },
        Action::DropTable => match store {
            Store::Database(Some(_)) => (Store::Database(None), EventSpec::Executed),
            _ => (store, EventSpec::Failed(refusal())),
        },
        Action::CreateTable => match store {
            Store::Nothing => (store, EventSpec::Failed(refusal())),
            Store::Database(None) => (Store::Database(Some(fresh_table())), EventSpec::Executed),
            Store::Database(Some(_)) => (store, EventSpec::Executed),
        },
    }
}

/// A run from `state` to its end against `store`: the state in which it
/// ends, and the store that it leaves.
pub open spec fn run(state: StateSpec, store: Store) -> (StateSpec, Store)
    decreases remaining(state),
{
    match action_of(state) {
        None => (state, store),
        Some(action) => {
            let (after, event) = respond(store, action);
            run(advance(state, event), after)
        },
    }
}

/// A whole run, from the start.
pub open spec fn reconcile(store: Store) -> (StateSpec, Store) {
    run(StateSpec::Start, store)
}

/// A whole run ends well and leaves the database with the table. A table
/// with a valid structure is left as it is, rows and all. In every other
/// case the run leaves a fresh table without rows: where there was no
/// table, and where the table had no columns or a column that does not
/// conform.
pub proof fn lemma_reconcile_result(store: Store)
    ensures
        reconcile(store).0 is Done,
        match table_of(store) {
            None => reconcile(store) == (
                StateSpec::Done(Outcome::Created),
                Store::Database(Some(fresh_table())),
            ),
            Some(table) => if valid_structure(table.columns) {
                reconcile(store) == (StateSpec::Done(Outcome::Unchanged), store)
            } else {
                reconcile(store) == (
                    StateSpec::Done(Outcome::Recreated),
                    Store::Database(Some(fresh_table())),
                )
            },
        },
{
    reveal_with_fuel(run, 9);
}

/// A table with a column that is not one of the three note columns, or is
/// not of the text type, is dropped and created anew: the run leaves the
/// columns of a fresh table and none of the rows.
pub proof fn lemma_nonconforming_table_is_recreated(store: Store, table: Table, at: int)
    requires
        table_of(store) == Some(table),
        0 <= at < table.columns.len(),
        !conforms(table.columns[at]),
    ensures
        reconcile(store) == (
            StateSpec::Done(Outcome::Recreated),
            Store::Database(Some(fresh_table())),
        ),
{
    lemma_reconcile_result(store);
}

/// Rows are lost in one case only: the table was there and its structure
/// was not valid. In every other case the run leaves each row in place.
pub proof fn lemma_rows_survive_unless_invalid(store: Store)
    ensures
        match table_of(store) {
            Some(table) if valid_structure(table.columns) => table_of(reconcile(store).1) == Some(
                table,
            ),
            Some(table) => table_of(reconcile(store).1) == Some(fresh_table()),
            None => table_of(reconcile(store).1) == Some(fresh_table()),
        },
{
    lemma_reconcile_result(store);
}

/// Validity knows the three text columns and nothing of the number: a
/// table as the creating statement makes it does not pass, so the next run
/// drops it with its rows and creates it anew.
pub proof fn lemma_fresh_table_is_recreated()
    ensures
        !valid_structure(created_columns()),
        reconcile(Store::Database(Some(fresh_table()))) == (
            StateSpec::Done(Outcome::Recreated),
            Store::Database(Some(fresh_table())),
        ),
{
    reveal_strlit("id");
    reveal_strlit("title");
    reveal_strlit("details");
    reveal_strlit("time");
    assert("id"@.len() == 2 && "title"@.len() == 5 && "details"@.len() == 7 && "time"@.len() == 4);
    assert(!is_note_column("id"@));
    assert(!conforms(created_columns()[0]));
    lemma_reconcile_result(Store::Database(Some(fresh_table())));
}

/// Running the reconciliation a second time, on what the first run left,
/// ends well again and leaves the same structure.
pub proof fn lemma_reconcile_twice(store: Store)
    ensures
        reconcile(reconcile(store).1).0 is Done,
        schema_of(reconcile(reconcile(store).1).1) == schema_of(reconcile(store).1),
{
    lemma_reconcile_result(store);
    lemma_reconcile_result(reconcile(store).1);
}

} // verus!
