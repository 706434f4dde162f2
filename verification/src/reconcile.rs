//! Bringing the database and the notes table into their known shape.
//!
//! The work is a sequence of requests in which each answer decides the next
//! request. This module holds the decisions: a [`State`] says what has been
//! established so far, [`State::action`] what is to be done next, and
//! [`State::advance`] what is established once the answer is there. The
//! caller performs the requests. A run ends in [`State::Done`] or in
//! [`State::Aborted`]; after either nothing more is asked for.

use crate::config::{server_url, target_url, Config, ConfigSpec};
use crate::exchange::{Event, EventSpec, Request, RequestSpec};
use crate::schema::{structure_valid, valid_structure};
use crate::sql;
use vstd::prelude::*;
use vstd::string::*;

verus! {

/// One step of the work.
#[derive(Clone, Copy, Debug, PartialEq, Eq, Structural)]
pub enum Action {
    /// Connect to the server, without naming a database.
    ConnectServer,
    /// Ask whether the database exists.
    CheckDatabase,
    /// Create the database.
    CreateDatabase,
    /// Connect again, to the database itself.
    ConnectDatabase,
    /// Ask whether the table exists.
    CheckTable,
    /// Read the table's columns.
    ReadColumns,
    /// Drop the table, with every note in it.
    DropTable,
    /// Create the table, unless it is there.
    CreateTable,
}

/// What became of the table in a run that ended well.
#[derive(Clone, Copy, Debug, PartialEq, Eq, Structural)]
pub enum Outcome {
    /// The table was there with a valid structure and was left alone.
    Unchanged,
    /// There was no table, and it was created.
    Created,
    /// The table was there with an invalid structure; it was dropped and
    /// created anew.
    Recreated,
}

/// How the run came to go on past the database.
#[derive(Debug, PartialEq, Eq)]
pub enum Provision {
    /// The database was there.
    Found,
    /// The database was missing and has been created.
    Created,
    /// The database was missing and could not be created. The run goes on
    /// all the same: another run may have created it in the meantime.
    NotCreated(String),
}

/// What a [`Provision`] says, as plain text.
pub enum ProvisionSpec {
    Found,
    Created,
    NotCreated(Seq<char>),
}

impl View for Provision {
    type V = ProvisionSpec;

    open spec fn view(&self) -> ProvisionSpec {
        match *self {
            Provision::Found => ProvisionSpec::Found,
            Provision::Created => ProvisionSpec::Created,
            Provision::NotCreated(reason) => ProvisionSpec::NotCreated(reason@),
        }
    }
}

/// The step at which a run was given up, and why.
#[derive(Debug, PartialEq, Eq)]
pub struct Failure {
    pub action: Action,
    pub reason: String,
}

/// What a [`Failure`] says, as plain text.
pub struct FailureSpec {
    pub action: Action,
    pub reason: Seq<char>,
}

impl View for Failure {
    type V = FailureSpec;

    open spec fn view(&self) -> FailureSpec {
        FailureSpec { action: self.action, reason: self.reason@ }
    }
}

/// What a run has established so far.
#[derive(Debug, PartialEq, Eq)]
pub enum State {
    /// Nothing yet.
    Start,
    /// The server is reached.
    Connected,
    /// The database has been looked for and is not there.
    DatabaseMissing,
    /// The database is there, or its creation has been tried.
    DatabaseEnsured(Provision),
    /// The database itself is reached.
    Reconnected,
    /// The table has been looked for and is not there.
    TableMissing,
    /// The table has been looked for and is there.
    TablePresent,
    /// The table is there and its structure is not valid.
    TableInvalid,
    /// The invalid table has been dropped.
    TableDropped,
    /// The table is in its known shape.
    Done(Outcome),
    /// The run was given up.
    Aborted(Failure),
}

/// What a [`State`] says, as plain values.
pub enum StateSpec {
    Start,
    Connected,
    DatabaseMissing,
    DatabaseEnsured(ProvisionSpec),
    Reconnected,
    TableMissing,
    TablePresent,
    TableInvalid,
    TableDropped,
    Done(Outcome),
    Aborted(FailureSpec),
}

impl View for State {
    type V = StateSpec;

    open spec fn view(&self) -> StateSpec {
        match *self {
            State::Start => StateSpec::Start,
            State::Connected => StateSpec::Connected,
            State::DatabaseMissing => StateSpec::DatabaseMissing,
            State::DatabaseEnsured(provision) => StateSpec::DatabaseEnsured(provision@),
            State::Reconnected => StateSpec::Reconnected,
            State::TableMissing => StateSpec::TableMissing,
            State::TablePresent => StateSpec::TablePresent,
            State::TableInvalid => StateSpec::TableInvalid,
            State::TableDropped => StateSpec::TableDropped,
            State::Done(outcome) => StateSpec::Done(outcome),
            State::Aborted(failure) => StateSpec::Aborted(failure@),
        }
    }
}

/// The step that a state asks for; none once the run has ended.
pub open spec fn action_of(state: StateSpec) -> Option<Action> {
    match state {
        StateSpec::Start => Some(Action::ConnectServer),
        StateSpec::Connected => Some(Action::CheckDatabase),
        StateSpec::DatabaseMissing => Some(Action::CreateDatabase),
        StateSpec::DatabaseEnsured(_) => Some(Action::ConnectDatabase),
        StateSpec::Reconnected => Some(Action::CheckTable),
        StateSpec::TableMissing => Some(Action::CreateTable),
        StateSpec::TablePresent => Some(Action::ReadColumns),
        StateSpec::TableInvalid => Some(Action::DropTable),
        StateSpec::TableDropped => Some(Action::CreateTable),
        StateSpec::Done(_) => None,
        StateSpec::Aborted(_) => None,
    }
}

/// Where an answer leads that lets the run go on. A failure lets it go on
/// in one place only: where the database could not be created.
pub open spec fn accepted(state: StateSpec, event: EventSpec) -> Option<StateSpec> {
    match (state, event) {
        (StateSpec::Start, EventSpec::Connected) => Some(StateSpec::Connected),
        (StateSpec::Connected, EventSpec::Exists(found)) => Some(
            if found {
                StateSpec::DatabaseEnsured(ProvisionSpec::Found)
            } else {
                StateSpec::DatabaseMissing
            },
        ),
        (StateSpec::DatabaseMissing, EventSpec::Executed) => Some(
            StateSpec::DatabaseEnsured(ProvisionSpec::Created),
        ),
        (StateSpec::DatabaseMissing, EventSpec::Failed(reason)) => Some(
            StateSpec::DatabaseEnsured(ProvisionSpec::NotCreated(reason)),
        ),
        (StateSpec::DatabaseEnsured(_), EventSpec::Connected) => Some(StateSpec::Reconnected),
        (StateSpec::Reconnected, EventSpec::Exists(found)) => Some(
            if found {
                StateSpec::TablePresent
            } else {
                StateSpec::TableMissing
            },
        ),
        (StateSpec::TableMissing, EventSpec::Executed) => Some(StateSpec::Done(Outcome::Created)),
        (StateSpec::TablePresent, EventSpec::Columns(columns)) => Some(
            if valid_structure(columns) {
                StateSpec::Done(Outcome::Unchanged)
            } else {
                StateSpec::TableInvalid
            },
        ),
        (StateSpec::TableInvalid, EventSpec::Executed) => Some(StateSpec::TableDropped),
        (StateSpec::TableDropped, EventSpec::Executed) => Some(
            StateSpec::Done(Outcome::Recreated),
        ),
        _ => None,
    }
}

/// What is said of an answer that is no answer to the request made.
pub open spec fn unexpected_text() -> Seq<char> {
    "unexpected answer"@
}

/// Why an answer ends the run: the failure's own text, or the remark that
/// the answer was not the kind asked for.
pub open spec fn reason_of(event: EventSpec) -> Seq<char> {
    match event {
        EventSpec::Failed(reason) => reason,
        _ => unexpected_text(),
    }
}

/// The state after `event` has answered the request of `state`. Where the
/// answer does not let the run go on, the run is given up at that step. A
/// run that has ended stays as it is.
pub open spec fn advance(state: StateSpec, event: EventSpec) -> StateSpec {
    match action_of(state) {
        None => state,
        Some(action) => match accepted(state, event) {
            Some(next) => next,
            None => StateSpec::Aborted(FailureSpec { action, reason: reason_of(event) }),
        },
    }
}

/// The request that carries out `action` under `config`.
pub open spec fn request_for(action: Action, config: ConfigSpec) -> RequestSpec {
    match action {
        Action::ConnectServer => RequestSpec::Connect { url: server_url(config) },
        Action::CheckDatabase => RequestSpec::Exists {
            sql: sql::database_exists_text(),
            name: config.database_name,
        },
        Action::CreateDatabase => RequestSpec::Execute {
            sql: sql::create_database_text(config.database_name),
        },
        Action::ConnectDatabase => RequestSpec::Connect { url: target_url(config) },
        Action::CheckTable => RequestSpec::Exists {
            sql: sql::table_exists_text(),
            name: config.table_name,
        },
        Action::ReadColumns => RequestSpec::Columns {
            sql: sql::columns_text(),
            table: config.table_name,
        },
        Action::DropTable => RequestSpec::Execute { sql: sql::drop_table_text(config.table_name) },
        Action::CreateTable => RequestSpec::Execute {
            sql: sql::create_table_text(config.table_name),
        },
    }
}

/// The most requests that a run in `state` can still make.
pub open spec fn remaining(state: StateSpec) -> nat {
    match state {
        StateSpec::Start => 8,
        StateSpec::Connected => 7,
        StateSpec::DatabaseMissing => 6,
        StateSpec::DatabaseEnsured(_) => 5,
        StateSpec::Reconnected => 4,
        StateSpec::TablePresent => 3,
        StateSpec::TableInvalid => 2,
        StateSpec::TableMissing => 1,
        StateSpec::TableDropped => 1,
        StateSpec::Done(_) => 0,
        StateSpec::Aborted(_) => 0,
    }
}

impl Action {
    /// The request that carries out this step.
    pub fn request(&self, config: &Config) -> (request: Request)
        ensures
            request@ == request_for(*self, config@),
    {
        match self {
            Action::ConnectServer => Request::Connect { url: config.server_url() },
            Action::CheckDatabase => Request::Exists {
                sql: sql::database_exists(),
                name: config.database_name.clone(),
            },
            Action::CreateDatabase => Request::Execute {
                sql: sql::create_database(config.database_name.as_str()),
            },
            Action::ConnectDatabase => Request::Connect { url: config.target_url() },
            Action::CheckTable => Request::Exists {
                sql: sql::table_exists(),
                name: config.table_name.clone(),
            },
            Action::ReadColumns => Request::Columns {
                sql: sql::columns(),
                table: config.table_name.clone(),
            },
            Action::DropTable => Request::Execute {
                sql: sql::drop_table(config.table_name.as_str()),
            },
            Action::CreateTable => Request::Execute {
                sql: sql::create_table(config.table_name.as_str()),
            },
        }
    }
}

fn give_up(action: Action, event: Event) -> (state: State)
    ensures
        state@ == StateSpec::Aborted(FailureSpec { action, reason: reason_of(event@) }),
{
    let reason = match event {
        Event::Failed(reason) => reason,
        _ => String::from_str("unexpected answer"),
    };
    State::Aborted(Failure { action, reason })
}

impl State {
    /// The state in which every run begins.
    pub fn start() -> (state: State)
        ensures
            state@ == StateSpec::Start,
    {
        State::Start
    }

    /// The step to carry out next; none once the run has ended.
    pub fn action(&self) -> (action: Option<Action>)
        ensures
            action == action_of(self@),
    {
        match self {
            State::Start => Some(Action::ConnectServer),
            State::Connected => Some(Action::CheckDatabase),
            State::DatabaseMissing => Some(Action::CreateDatabase),
            State::DatabaseEnsured(_) => Some(Action::ConnectDatabase),
            State::Reconnected => Some(Action::CheckTable),
            State::TableMissing => Some(Action::CreateTable),
            State::TablePresent => Some(Action::ReadColumns),
            State::TableInvalid => Some(Action::DropTable),
            State::TableDropped => Some(Action::CreateTable),
            State::Done(_) => None,
            State::Aborted(_) => None,
        }
    }

    /// Whether the run has ended, well or not.
    pub fn is_finished(&self) -> (finished: bool)
        ensures
            finished == (action_of(self@) is None),
            finished == (remaining(self@) == 0),
    {
        self.action().is_none()
    }

    /// Takes the answer to the request that this state asked for and gives
    /// the state that follows.
    pub fn advance(self, event: Event) -> (next: State)
        ensures
            next@ == advance(self@, event@),
    {
        match self {
            State::Start => match event {
                Event::Connected => State::Connected,
                other => give_up(Action::ConnectServer, other),
            },
            State::Connected => match event {
                Event::Exists(true) => State::DatabaseEnsured(Provision::Found),
                Event::Exists(false) => State::DatabaseMissing,
                other => give_up(Action::CheckDatabase, other),
            },
            State::DatabaseMissing => match event {
                Event::Executed => State::DatabaseEnsured(Provision::Created),
                Event::Failed(reason) => State::DatabaseEnsured(Provision::NotCreated(reason)),
                other => give_up(Action::CreateDatabase, other),
            },
            State::DatabaseEnsured(_) => match event {
                Event::Connected => State::Reconnected,
                other => give_up(Action::ConnectDatabase, other),
            },
            State::Reconnected => match event {
                Event::Exists(true) => State::TablePresent,
                Event::Exists(false) => State::TableMissing,
                other => give_up(Action::CheckTable, other),
            },
            State::TableMissing => match event {
                Event::Executed => State::Done(Outcome::Created),
                other => give_up(Action::CreateTable, other),
            },
            State::TablePresent => match event {
                Event::Columns(columns) => {
                    if structure_valid(&columns) {
                        State::Done(Outcome::Unchanged)
                    } else {
                        State::TableInvalid
                    }
                },
                other => give_up(Action::ReadColumns, other),
            },
            State::TableInvalid => match event {
                Event::Executed => State::TableDropped,
                other => give_up(Action::DropTable, other),
            },
            State::TableDropped => match event {
                Event::Executed => State::Done(Outcome::Recreated),
                other => give_up(Action::CreateTable, other),
            },
            State::Done(outcome) => State::Done(outcome),
            State::Aborted(failure) => State::Aborted(failure),
        }
    }
}

/// Every answer brings a run nearer to its end: a run makes eight requests
/// at most.
pub proof fn lemma_advance_nears_the_end(state: StateSpec, event: EventSpec)
    requires
        action_of(state) is Some,
    ensures
        remaining(advance(state, event)) < remaining(state) <= 8,
{
}

/// A run that has ended asks for nothing and is moved by no answer.
pub proof fn lemma_ended_run_stays(state: StateSpec, event: EventSpec)
    requires
        state is Done || state is Aborted,
    ensures
        action_of(state) is None,
        advance(state, event) == state,
{
}

/// A failure ends the run at the step that failed, with the failure's own
/// text, except where the database could not be created.
pub proof fn lemma_failure_aborts(state: StateSpec, reason: Seq<char>)
    requires
        action_of(state) is Some,
        !(state is DatabaseMissing),
    ensures
        advance(state, EventSpec::Failed(reason)) == StateSpec::Aborted(
            FailureSpec { action: action_of(state).unwrap(), reason },
        ),
{
}

/// The table is dropped only after its columns were read and found not to
/// be valid: the one step that leads to the drop is that answer.
pub proof fn lemma_drop_only_after_invalid_columns(state: StateSpec, event: EventSpec)
    requires
        action_of(advance(state, event)) == Some(Action::DropTable),
        action_of(state) != Some(Action::DropTable),
    ensures
        state is TablePresent,
        event matches EventSpec::Columns(columns) && !valid_structure(columns),
{
}

} // verus!
