use pgnotes::config::Config;
use pgnotes::exchange::{Channel, Event, Line, Request};
use pgnotes::reconcile::{Action, Failure, Outcome, Provision, State};
use pgnotes::report::reconcile_lines;
use pgnotes::schema::Column;

fn config() -> Config {
    Config::from_values(
        Some("postgres://localhost".to_string()),
        Some("notebook".to_string()),
        Some("notes".to_string()),
    )
    .unwrap()
}

fn column(name: &str, data_type: &str) -> Column {
    Column::new(name.to_string(), data_type.to_string())
}

fn text_columns() -> Vec<Column> {
    vec![
        column("title", "character varying"),
        column("details", "character varying"),
        column("time", "character varying"),
    ]
}

fn created_columns() -> Vec<Column> {
    let mut columns = vec![column("id", "integer")];
    columns.extend(text_columns());
    columns
}

fn failed(reason: &str) -> Event {
    Event::Failed(reason.to_string())
}

fn aborted(action: Action, reason: &str) -> State {
    State::Aborted(Failure { action, reason: reason.to_string() })
}

fn progress(text: &str) -> Line {
    Line { channel: Channel::Progress, text: text.to_string() }
}

fn error(text: &str) -> Line {
    Line { channel: Channel::Error, text: text.to_string() }
}

/// A stand-in for the server: it knows whether the database is there, and
/// of the table its columns and the number of its rows.
struct Server {
    database: bool,
    table: Option<(Vec<Column>, usize)>,
    connected_to_database: bool,
    log: Vec<String>,
}

impl Server {
    fn empty() -> Server {
        Server { database: false, table: None, connected_to_database: false, log: Vec::new() }
    }

    fn with_table(columns: Vec<Column>, rows: usize) -> Server {
        Server { database: true, table: Some((columns, rows)), ..Server::empty() }
    }

    fn perform(&mut self, request: Request) -> Event {
        match request {
            Request::Connect { url } => {
                self.log.push(format!("connect {}", url));
                if url == "postgres://localhost" {
                    self.connected_to_database = false;
                    Event::Connected
                } else if url == "postgres://localhost/notebook" && self.database {
                    self.connected_to_database = true;
                    Event::Connected
                } else {
                    failed("database does not exist")
                }
            }
            Request::Exists { sql, name } => {
                self.log.push(format!("exists {}", name));
                if sql == "SELECT EXISTS (SELECT FROM pg_database WHERE datname = $1)" {
                    Event::Exists(self.database && name == "notebook")
                } else if sql
                    == "SELECT EXISTS (SELECT * FROM information_schema.tables WHERE table_name = $1)"
                {
                    Event::Exists(self.table.is_some() && name == "notes")
                } else {
                    failed("syntax error")
                }
            }
            Request::Columns { sql, table } => {
                self.log.push(format!("columns {}", table));
                assert_eq!(
                    sql,
                    "SELECT column_name, data_type FROM information_schema.columns WHERE table_name = $1"
                );
                let found = match &self.table {
                    Some((columns, _)) if table == "notes" => columns
                        .iter()
                        .map(|c| Column::new(c.name.clone(), c.data_type.clone()))
                        .collect(),
                    _ => Vec::new(),
                };
                Event::Columns(found)
            }
            Request::Execute { sql } => {
                self.log.push(sql.clone());
                if sql == "CREATE DATABASE notebook" {
                    if self.database {
                        return failed("database \"notebook\" already exists");
                    }
                    self.database = true;
                    Event::Executed
                } else if sql == "DROP TABLE notes" {
                    if self.table.is_none() {
                        return failed("table \"notes\" does not exist");
                    }
                    self.table = None;
                    Event::Executed
                } else if sql
                    == "CREATE TABLE IF NOT EXISTS notes (id SERIAL PRIMARY KEY, title VARCHAR, details VARCHAR, time VARCHAR)"
                {
                    assert!(self.connected_to_database);
                    if self.table.is_none() {
                        self.table = Some((created_columns(), 0));
                    }
                    Event::Executed
                } else {
                    failed("syntax error")
                }
            }
            _ => failed("not a request of the reconciliation"),
        }
    }

    fn reconcile(&mut self) -> State {
        let config = config();
        let mut state = State::start();
        let mut requests = 0;
        while let Some(action) = state.action() {
            requests += 1;
            assert!(requests <= 8);
            let event = self.perform(action.request(&config));
            state = state.advance(event);
        }
        assert!(state.is_finished());
        state
    }
}

#[test]
fn a_run_starts_by_connecting_to_the_server() {
    let state = State::start();
    assert_eq!(state, State::Start);
    assert!(!state.is_finished());
    assert_eq!(state.action(), Some(Action::ConnectServer));
}

#[test]
fn each_state_asks_for_its_step() {
    assert_eq!(State::Connected.action(), Some(Action::CheckDatabase));
    assert_eq!(State::DatabaseMissing.action(), Some(Action::CreateDatabase));
    assert_eq!(State::DatabaseEnsured(Provision::Found).action(), Some(Action::ConnectDatabase));
    assert_eq!(State::DatabaseEnsured(Provision::Created).action(), Some(Action::ConnectDatabase));
    assert_eq!(State::Reconnected.action(), Some(Action::CheckTable));
    assert_eq!(State::TableMissing.action(), Some(Action::CreateTable));
    assert_eq!(State::TablePresent.action(), Some(Action::ReadColumns));
    assert_eq!(State::TableInvalid.action(), Some(Action::DropTable));
    assert_eq!(State::TableDropped.action(), Some(Action::CreateTable));
    assert_eq!(State::Done(Outcome::Created).action(), None);
    assert_eq!(aborted(Action::CheckTable, "x").action(), None);
}

#[test]
fn each_step_has_its_request() {
    let config = config();
    assert_eq!(
        Action::ConnectServer.request(&config),
        Request::Connect { url: "postgres://localhost".to_string() }
    );
    assert_eq!(
        Action::CheckDatabase.request(&config),
        Request::Exists {
            sql: "SELECT EXISTS (SELECT FROM pg_database WHERE datname = $1)".to_string(),
            name: "notebook".to_string(),
        }
    );
    assert_eq!(
        Action::CreateDatabase.request(&config),
        Request::Execute { sql: "CREATE DATABASE notebook".to_string() }
    );
    assert_eq!(
        Action::ConnectDatabase.request(&config),
        Request::Connect { url: "postgres://localhost/notebook".to_string() }
    );
    assert_eq!(
        Action::CheckTable.request(&config),
        Request::Exists {
            sql: "SELECT EXISTS (SELECT * FROM information_schema.tables WHERE table_name = $1)"
                .to_string(),
            name: "notes".to_string(),
        }
    );
    assert_eq!(
        Action::ReadColumns.request(&config),
        Request::Columns {
            sql: "SELECT column_name, data_type FROM information_schema.columns WHERE table_name = $1"
                .to_string(),
            table: "notes".to_string(),
        }
    );
    assert_eq!(
        Action::DropTable.request(&config),
        Request::Execute { sql: "DROP TABLE notes".to_string() }
    );
    assert_eq!(
        Action::CreateTable.request(&config),
        Request::Execute {
            sql: "CREATE TABLE IF NOT EXISTS notes (id SERIAL PRIMARY KEY, title VARCHAR, details VARCHAR, time VARCHAR)"
                .to_string(),
        }
    );
}

#[test]
fn an_existing_database_is_not_created() {
    assert_eq!(
        State::Connected.advance(Event::Exists(true)),
        State::DatabaseEnsured(Provision::Found)
    );
}

#[test]
fn a_missing_database_is_created() {
    assert_eq!(State::Connected.advance(Event::Exists(false)), State::DatabaseMissing);
    assert_eq!(
        State::DatabaseMissing.advance(Event::Executed),
        State::DatabaseEnsured(Provision::Created)
    );
}

#[test]
fn a_database_that_cannot_be_created_does_not_end_the_run() {
    let state = State::DatabaseMissing.advance(failed("permission denied"));
    assert_eq!(
        state,
        State::DatabaseEnsured(Provision::NotCreated("permission denied".to_string()))
    );
    assert_eq!(state.action(), Some(Action::ConnectDatabase));
    assert_eq!(
        reconcile_lines(&state, &config()),
        vec![
            error("Error creating database: permission denied"),
            progress("Connecting to database"),
        ]
    );
}

#[test]
fn a_missing_table_is_created() {
    assert_eq!(State::Reconnected.advance(Event::Exists(false)), State::TableMissing);
    assert_eq!(State::TableMissing.advance(Event::Executed), State::Done(Outcome::Created));
}

#[test]
fn a_valid_table_is_left_alone() {
    assert_eq!(State::Reconnected.advance(Event::Exists(true)), State::TablePresent);
    assert_eq!(
        State::TablePresent.advance(Event::Columns(text_columns())),
        State::Done(Outcome::Unchanged)
    );
}

#[test]
fn an_invalid_table_is_dropped_then_created() {
    let mut columns = text_columns();
    columns.push(column("author", "character varying"));
    let state = State::TablePresent.advance(Event::Columns(columns));
    assert_eq!(state, State::TableInvalid);
    assert_eq!(state.action(), Some(Action::DropTable));
    let state = state.advance(Event::Executed);
    assert_eq!(state, State::TableDropped);
    assert_eq!(state.action(), Some(Action::CreateTable));
    assert_eq!(state.advance(Event::Executed), State::Done(Outcome::Recreated));
}

#[test]
fn a_wrongly_typed_column_invalidates_the_table() {
    let columns = vec![column("title", "character varying"), column("time", "timestamp")];
    assert_eq!(State::TablePresent.advance(Event::Columns(columns)), State::TableInvalid);
}

#[test]
fn a_table_without_columns_is_invalid() {
    assert_eq!(State::TablePresent.advance(Event::Columns(Vec::new())), State::TableInvalid);
}

#[test]
fn every_failure_but_one_aborts_at_its_step() {
    assert_eq!(State::Start.advance(failed("e")), aborted(Action::ConnectServer, "e"));
    assert_eq!(State::Connected.advance(failed("e")), aborted(Action::CheckDatabase, "e"));
    assert_eq!(
        State::DatabaseEnsured(Provision::Found).advance(failed("e")),
        aborted(Action::ConnectDatabase, "e")
    );
    assert_eq!(State::Reconnected.advance(failed("e")), aborted(Action::CheckTable, "e"));
    assert_eq!(State::TableMissing.advance(failed("e")), aborted(Action::CreateTable, "e"));
    assert_eq!(State::TablePresent.advance(failed("e")), aborted(Action::ReadColumns, "e"));
    assert_eq!(State::TableInvalid.advance(failed("e")), aborted(Action::DropTable, "e"));
    assert_eq!(State::TableDropped.advance(failed("e")), aborted(Action::CreateTable, "e"));
}

#[test]
fn an_aborted_run_asks_for_nothing_more() {
    let state = State::TableInvalid.advance(failed("lock timeout"));
    assert!(state.is_finished());
    assert_eq!(state.action(), None);
    assert_eq!(state.advance(Event::Executed), aborted(Action::DropTable, "lock timeout"));
}

#[test]
fn a_finished_run_stays_finished() {
    assert_eq!(
        State::Done(Outcome::Unchanged).advance(Event::Connected),
        State::Done(Outcome::Unchanged)
    );
    assert_eq!(State::Done(Outcome::Created).advance(failed("e")), State::Done(Outcome::Created));
}

#[test]
fn an_answer_of_the_wrong_kind_aborts() {
    assert_eq!(
        State::Start.advance(Event::Exists(true)),
        aborted(Action::ConnectServer, "unexpected answer")
    );
    assert_eq!(
        State::Connected.advance(Event::Connected),
        aborted(Action::CheckDatabase, "unexpected answer")
    );
    assert_eq!(
        State::DatabaseMissing.advance(Event::Exists(false)),
        aborted(Action::CreateDatabase, "unexpected answer")
    );
    assert_eq!(
        State::TablePresent.advance(Event::Executed),
        aborted(Action::ReadColumns, "unexpected answer")
    );
    assert_eq!(
        State::TableDropped.advance(Event::Columns(text_columns())),
        aborted(Action::CreateTable, "unexpected answer")
    );
    assert_eq!(
        State::TableMissing.advance(Event::Notes(Vec::new())),
        aborted(Action::CreateTable, "unexpected answer")
    );
}

#[test]
fn a_run_on_an_empty_server_creates_database_and_table() {
    let mut server = Server::empty();
    assert_eq!(server.reconcile(), State::Done(Outcome::Created));
    assert!(server.database);
    assert_eq!(server.table, Some((created_columns(), 0)));
    assert_eq!(
        server.log,
        vec![
            "connect postgres://localhost",
            "exists notebook",
            "CREATE DATABASE notebook",
            "connect postgres://localhost/notebook",
            "exists notes",
            "CREATE TABLE IF NOT EXISTS notes (id SERIAL PRIMARY KEY, title VARCHAR, details VARCHAR, time VARCHAR)",
        ]
    );
}

#[test]
fn a_run_leaves_a_valid_table_and_its_rows() {
    let mut server = Server::with_table(text_columns(), 3);
    assert_eq!(server.reconcile(), State::Done(Outcome::Unchanged));
    assert_eq!(server.table, Some((text_columns(), 3)));
    assert_eq!(
        server.log,
        vec![
            "connect postgres://localhost",
            "exists notebook",
            "connect postgres://localhost/notebook",
            "exists notes",
            "columns notes",
        ]
    );
}

#[test]
fn a_run_repairs_a_table_with_an_extra_column() {
    let mut columns = text_columns();
    columns.push(column("author", "character varying"));
    let mut server = Server::with_table(columns, 5);
    assert_eq!(server.reconcile(), State::Done(Outcome::Recreated));
    assert_eq!(server.table, Some((created_columns(), 0)));
    assert_eq!(
        server.log[4..],
        [
            "columns notes",
            "DROP TABLE notes",
            "CREATE TABLE IF NOT EXISTS notes (id SERIAL PRIMARY KEY, title VARCHAR, details VARCHAR, time VARCHAR)",
        ]
    );
}

#[test]
fn a_run_repairs_a_table_with_a_wrongly_typed_column() {
    let columns = vec![
        column("title", "character varying"),
        column("details", "character varying"),
        column("time", "timestamp without time zone"),
    ];
    let mut server = Server::with_table(columns, 2);
    assert_eq!(server.reconcile(), State::Done(Outcome::Recreated));
    assert_eq!(server.table, Some((created_columns(), 0)));
}

#[test]
fn a_second_run_leaves_the_same_structure() {
    let mut server = Server::empty();
    assert_eq!(server.reconcile(), State::Done(Outcome::Created));
    let after_first = server.table.as_ref().map(|(columns, _)| columns.len());
    let state = server.reconcile();
    assert!(matches!(state, State::Done(_)));
    assert!(server.database);
    assert_eq!(server.table.as_ref().map(|(columns, _)| columns.len()), after_first);
    assert_eq!(server.table, Some((created_columns(), 0)));
}

#[test]
fn a_second_run_on_a_valid_table_changes_nothing() {
    let mut server = Server::with_table(text_columns(), 4);
    assert_eq!(server.reconcile(), State::Done(Outcome::Unchanged));
    assert_eq!(server.reconcile(), State::Done(Outcome::Unchanged));
    assert_eq!(server.table, Some((text_columns(), 4)));
}

#[test]
fn a_table_that_was_just_created_is_recreated_by_the_next_run() {
    let mut server = Server::empty();
    server.reconcile();
    server.table = Some((created_columns(), 6));
    assert_eq!(server.reconcile(), State::Done(Outcome::Recreated));
    assert_eq!(server.table, Some((created_columns(), 0)));
}

#[test]
fn a_run_goes_on_when_the_database_cannot_be_created() {
    let config = config();
    let mut state = State::start();
    state = state.advance(Event::Connected);
    state = state.advance(Event::Exists(false));
    assert_eq!(
        state.action().map(|a| a.request(&config)),
        Some(Request::Execute { sql: "CREATE DATABASE notebook".to_string() })
    );
    state = state.advance(failed("database \"notebook\" already exists"));
    assert_eq!(
        state.action().map(|a| a.request(&config)),
        Some(Request::Connect { url: "postgres://localhost/notebook".to_string() })
    );
    state = state.advance(Event::Connected);
    state = state.advance(Event::Exists(false));
    state = state.advance(Event::Executed);
    assert_eq!(state, State::Done(Outcome::Created));
}

#[test]
fn lines_of_a_run_that_creates_everything() {
    let config = config();
    assert_eq!(
        reconcile_lines(&State::Start, &config),
        vec![progress("Initializing"), progress("Connecting to Postgres")]
    );
    assert_eq!(
        reconcile_lines(&State::Connected, &config),
        vec![progress("Connected to Postgres"), progress("Checking Database Existence")]
    );
    assert_eq!(reconcile_lines(&State::DatabaseMissing, &config), Vec::<Line>::new());
    assert_eq!(
        reconcile_lines(&State::DatabaseEnsured(Provision::Created), &config),
        vec![progress("Database Created Successfully"), progress("Connecting to database")]
    );
    assert_eq!(
        reconcile_lines(&State::Reconnected, &config),
        vec![progress("Connected to database"), progress("Checking if table exist")]
    );
    assert_eq!(reconcile_lines(&State::TableMissing, &config), vec![progress("Creating Table")]);
    assert_eq!(
        reconcile_lines(&State::Done(Outcome::Created), &config),
        vec![progress("Table Created"), progress("Setup complete")]
    );
}

#[test]
fn lines_of_a_run_that_finds_everything() {
    let config = config();
    assert_eq!(
        reconcile_lines(&State::DatabaseEnsured(Provision::Found), &config),
        vec![progress("Database Already Exist"), progress("Connecting to database")]
    );
    assert_eq!(
        reconcile_lines(&State::TablePresent, &config),
        vec![progress("Table exists"), progress("Checking integrity of table")]
    );
    assert_eq!(
        reconcile_lines(&State::Done(Outcome::Unchanged), &config),
        vec![progress("Table structure is correct."), progress("Setup complete")]
    );
}

#[test]
fn lines_of_a_repair() {
    let config = config();
    assert_eq!(
        reconcile_lines(&State::TableInvalid, &config),
        vec![progress("Table structure incorrect. Fixing structure")]
    );
    assert_eq!(reconcile_lines(&State::TableDropped, &config), vec![progress("Creating Table")]);
    assert_eq!(
        reconcile_lines(&State::Done(Outcome::Recreated), &config),
        vec![progress("Table Created"), progress("Setup complete")]
    );
}

#[test]
fn lines_of_failures() {
    let config = config();
    let line = |action: Action| reconcile_lines(&aborted(action, "boom"), &config);
    assert_eq!(line(Action::ConnectServer), vec![error("Error connecting to the database: boom")]);
    assert_eq!(
        line(Action::ConnectDatabase),
        vec![error("Error connecting to the database: boom")]
    );
    assert_eq!(line(Action::CheckDatabase), vec![error("Error checking the database: boom")]);
    assert_eq!(line(Action::CreateDatabase), vec![error("Error creating database: boom")]);
    assert_eq!(line(Action::CheckTable), vec![error("Error checking the table: boom")]);
    assert_eq!(line(Action::ReadColumns), vec![error("Error reading the table's columns: boom")]);
    assert_eq!(line(Action::DropTable), vec![error("Error dropping 'notes' table: boom")]);
    assert_eq!(line(Action::CreateTable), vec![error("Error creating 'notes' table: boom")]);
}
