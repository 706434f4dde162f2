//! What is said at the terminal as the work goes on: a few lines for each
//! state that a run or an operation comes to.

use crate::config::{Config, ConfigSpec};
use crate::exchange::{error, lines_view, output, progress, Line, LineSpec};
use crate::note::{listing, listing_text};
use crate::reconcile::{Action, FailureSpec, Outcome, Provision, ProvisionSpec, State, StateSpec};
use crate::repository::{
    Fault, FaultSpec, Operation, OperationSpec, Session, SessionSpec, Step,
};
use crate::text::texts;
use vstd::prelude::*;
use vstd::string::*;

verus! {

/// What is said of a failed step of the reconciliation, before the reason.
pub open spec fn failure_heading(action: Action, table: Seq<char>) -> Seq<char> {
    match action {
        Action::ConnectServer => "Error connecting to the database: "@,
        Action::CheckDatabase => "Error checking the database: "@,
        Action::CreateDatabase => "Error creating database: "@,
        Action::ConnectDatabase => "Error connecting to the database: "@,
        Action::CheckTable => "Error checking the table: "@,
        Action::ReadColumns => "Error reading the table's columns: "@,
        Action::DropTable => "Error dropping '"@ + table + "' table: "@,
        Action::CreateTable => "Error creating '"@ + table + "' table: "@,
    }
}

/// The sentence that reports a failed step of the reconciliation.
pub open spec fn failure_text(failure: FailureSpec, config: ConfigSpec) -> Seq<char> {
    failure_heading(failure.action, config.table_name) + failure.reason
}

/// The lines for a state of the reconciliation. Progress tells what was
/// found and what is tried next; a failure is reported as an error, also
/// the one that does not end the run.
pub open spec fn state_lines(state: StateSpec, config: ConfigSpec) -> Seq<LineSpec> {
    match state {
        StateSpec::Start => seq![progress("Initializing"@), progress("Connecting to Postgres"@)],
        StateSpec::Connected => seq![
            progress("Connected to Postgres"@),
            progress("Checking Database Existence"@),
        ],
        StateSpec::DatabaseMissing => Seq::empty(),
        StateSpec::DatabaseEnsured(ProvisionSpec::Found) => seq![
            progress("Database Already Exist"@),
            progress("Connecting to database"@),
        ],
        StateSpec::DatabaseEnsured(ProvisionSpec::Created) => seq![
            progress("Database Created Successfully"@),
            progress("Connecting to database"@),
        ],
        StateSpec::DatabaseEnsured(ProvisionSpec::NotCreated(reason)) => seq![
            error(failure_heading(Action::CreateDatabase, config.table_name) + reason),
            progress("Connecting to database"@),
        ],
        StateSpec::Reconnected => seq![
            progress("Connected to database"@),
            progress("Checking if table exist"@),
        ],
        StateSpec::TableMissing => seq![progress("Creating Table"@)],
        StateSpec::TablePresent => seq![
            progress("Table exists"@),
            progress("Checking integrity of table"@),
        ],
        StateSpec::TableInvalid => seq![progress("Table structure incorrect. Fixing structure"@)],
        StateSpec::TableDropped => seq![progress("Creating Table"@)],
        StateSpec::Done(Outcome::Unchanged) => seq![
            progress("Table structure is correct."@),
            progress("Setup complete"@),
        ],
        StateSpec::Done(_) => seq![progress("Table Created"@), progress("Setup complete"@)],
        StateSpec::Aborted(failure) => seq![error(failure_text(failure, config))],
    }
}

/// What is said of a failed step of an operation, before the reason.
pub open spec fn fault_heading(step: Step) -> Seq<char> {
    match step {
        Step::Connect => "Error connecting to the database: "@,
        Step::Insert => "Error adding note: "@,
        Step::Select => "Error listing notes: "@,
    }
}

/// The sentence that reports a failed step of an operation.
pub open spec fn fault_text(fault: FaultSpec) -> Seq<char> {
    fault_heading(fault.step) + fault.reason
}

/// Each text as a line of ordinary output, in the same order.
pub open spec fn outputs(all: Seq<Seq<char>>) -> Seq<LineSpec> {
    Seq::new(all.len(), |i: int| output(all[i]))
}

/// The lines for a session of an operation. A listing is the one sentence
/// when there is no note; else the header and one line for each note.
pub open spec fn session_lines(session: SessionSpec, operation: OperationSpec) -> Seq<LineSpec> {
    match session {
        SessionSpec::Start => seq![progress("Connecting to Postgres"@)],
        SessionSpec::Connected => match operation {
            OperationSpec::Add(_) => seq![
                progress("Connected to Postgres"@),
                progress("Creating a note"@),
            ],
            OperationSpec::List { .. } => seq![
                progress("Connected to Postgres"@),
                output("Listing Notes"@),
            ],
        },
        SessionSpec::Added => seq![output("Note added successfully."@)],
        SessionSpec::Listed(notes) => outputs(listing_text(notes)),
        SessionSpec::Aborted(fault) => seq![error(fault_text(fault))],
    }
}

fn heading(action: Action, table: &str) -> (text: String)
    ensures
        text@ == failure_heading(action, table@),
{
    match action {
        Action::ConnectServer => String::from_str("Error connecting to the database: "),
        Action::CheckDatabase => String::from_str("Error checking the database: "),
        Action::CreateDatabase => String::from_str("Error creating database: "),
        Action::ConnectDatabase => String::from_str("Error connecting to the database: "),
        Action::CheckTable => String::from_str("Error checking the table: "),
        Action::ReadColumns => String::from_str("Error reading the table's columns: "),
        Action::DropTable => {
            let mut text = String::from_str("Error dropping '");
            text.append(table);
            text.append("' table: ");
            text
        },
        Action::CreateTable => {
            let mut text = String::from_str("Error creating '");
            text.append(table);
            text.append("' table: ");
            text
        },
    }
}

fn failed_step(action: Action, reason: &str, config: &Config) -> (line: Line)
    ensures
        line@ == error(failure_heading(action, config@.table_name) + reason@),
{
    let mut text = heading(action, config.table_name.as_str());
    text.append(reason);
    Line::error(text)
}

fn pair(first: Line, second: Line) -> (lines: Vec<Line>)
    ensures
        lines_view(lines@) == seq![first@, second@],
{
    let mut lines: Vec<Line> = Vec::new();
    lines.push(first);
    lines.push(second);
    assert(lines_view(lines@) =~= seq![first@, second@]);
    lines
}

fn none() -> (lines: Vec<Line>)
    ensures
        lines_view(lines@) == Seq::<LineSpec>::empty(),
{
    let lines: Vec<Line> = Vec::new();
    assert(lines_view(lines@) =~= Seq::<LineSpec>::empty());
    lines
}

fn single(only: Line) -> (lines: Vec<Line>)
    ensures
        lines_view(lines@) == seq![only@],
{
    let mut lines: Vec<Line> = Vec::new();
    lines.push(only);
    assert(lines_view(lines@) =~= seq![only@]);
    lines
}

/// The lines to show when a run of the reconciliation comes to `state`.
pub fn reconcile_lines(state: &State, config: &Config) -> (lines: Vec<Line>)
    ensures
        lines_view(lines@) == state_lines(state@, config@),
{
    match state {
        State::Start => pair(
            Line::progress("Initializing"),
            Line::progress("Connecting to Postgres"),
        ),
        State::Connected => pair(
            Line::progress("Connected to Postgres"),
            Line::progress("Checking Database Existence"),
        ),
        State::DatabaseMissing => none(),
        State::DatabaseEnsured(Provision::Found) => pair(
            Line::progress("Database Already Exist"),
            Line::progress("Connecting to database"),
        ),
        State::DatabaseEnsured(Provision::Created) => pair(
            Line::progress("Database Created Successfully"),
            Line::progress("Connecting to database"),
        ),
        State::DatabaseEnsured(Provision::NotCreated(reason)) => pair(
            failed_step(Action::CreateDatabase, reason.as_str(), config),
            Line::progress("Connecting to database"),
        ),
        State::Reconnected => pair(
            Line::progress("Connected to database"),
            Line::progress("Checking if table exist"),
        ),
        State::TableMissing => single(Line::progress("Creating Table")),
        State::TablePresent => pair(
            Line::progress("Table exists"),
            Line::progress("Checking integrity of table"),
        ),
        State::TableInvalid => single(
            Line::progress("Table structure incorrect. Fixing structure"),
        ),
        State::TableDropped => single(Line::progress("Creating Table")),
        State::Done(Outcome::Unchanged) => pair(
            Line::progress("Table structure is correct."),
            Line::progress("Setup complete"),
        ),
        State::Done(_) => pair(Line::progress("Table Created"), Line::progress("Setup complete")),
        State::Aborted(failure) => single(
            failed_step(failure.action, failure.reason.as_str(), config),
        ),
    }
}

fn fault_line(fault: &Fault) -> (line: Line)
    ensures
        line@ == error(fault_text(fault@)),
{
    let mut text = match fault.step {
        Step::Connect => String::from_str("Error connecting to the database: "),
        Step::Insert => String::from_str("Error adding note: "),
        Step::Select => String::from_str("Error listing notes: "),
    };
    text.append(fault.reason.as_str());
    Line::error(text)
}

fn as_outputs(all: Vec<String>) -> (lines: Vec<Line>)
    ensures
        lines_view(lines@) == outputs(texts(all@)),
{
    let mut lines: Vec<Line> = Vec::new();
    let mut at: usize = 0;
    while at < all.len()
        invariant
            at <= all.len(),
            lines@.len() == at,
            forall|i: int| 0 <= i < at ==> (#[trigger] lines@[i])@ == output(all@[i]@),
        decreases all.len() - at,
    {
        lines.push(Line::output(all[at].clone()));
        at = at + 1;
    }
    assert(lines_view(lines@) =~= outputs(texts(all@)));
    lines
}

/// The lines to show when an operation comes to `session`.
pub fn operation_lines(session: &Session, operation: &Operation) -> (lines: Vec<Line>)
    ensures
        lines_view(lines@) == session_lines(session@, operation@),
{
    match session {
        Session::Start => single(Line::progress("Connecting to Postgres")),
        Session::Connected => match operation {
            Operation::Add(_) => pair(
                Line::progress("Connected to Postgres"),
                Line::progress("Creating a note"),
            ),
            Operation::List { .. } => pair(
                Line::progress("Connected to Postgres"),
                Line::output(String::from_str("Listing Notes")),
            ),
        },
        Session::Added => single(Line::output(String::from_str("Note added successfully."))),
        Session::Listed(notes) => as_outputs(listing(notes)),
        Session::Aborted(fault) => single(fault_line(fault)),
    }
}

} // verus!
