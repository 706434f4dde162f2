//! Storing a note and reading the latest notes.
//!
//! Either operation is a connection followed by one statement. As in
//! [`crate::reconcile`], this module decides and the caller performs: a
//! [`Session`] says how far the operation has come, [`Session::request`]
//! what is to be done next, and [`Session::advance`] where the answer leads.

use crate::config::{target_url, Config, ConfigSpec};
use crate::exchange::{Event, EventSpec, Request, RequestSpec};
use crate::note::{notes_view, NewNote, NewNoteSpec, Note, NoteSpec};
use crate::sql;
use vstd::prelude::*;
use vstd::string::*;

verus! {

/// What is asked of the repository.
#[derive(Debug, PartialEq, Eq)]
pub enum Operation {
    /// Store one note.
    Add(NewNote),
    /// Read the latest notes, `limit` at most. The number is handed to the
    /// database as it is, whatever its sign.
    List { limit: i32 },
}

/// What a [`Operation`] says, as plain values.
pub enum OperationSpec {
    Add(NewNoteSpec),
    List { limit: int },
}

impl View for Operation {
    type V = OperationSpec;

    open spec fn view(&self) -> OperationSpec {
        match *self {
            Operation::Add(note) => OperationSpec::Add(note@),
            Operation::List { limit } => OperationSpec::List { limit: limit as int },
        }
    }
}

/// One step of an operation.
#[derive(Clone, Copy, Debug, PartialEq, Eq, Structural)]
pub enum Step {
    /// Connect to the notes database.
    Connect,
    /// Send the statement that stores the note.
    Insert,
    /// Send the query that reads the notes.
    Select,
}

/// The step at which an operation was given up, and why.
#[derive(Debug, PartialEq, Eq)]
pub struct Fault {
    pub step: Step,
    pub reason: String,
}

/// What a [`Fault`] says, as plain text.
pub struct FaultSpec {
    pub step: Step,
    pub reason: Seq<char>,
}

impl View for Fault {
    type V = FaultSpec;

    open spec fn view(&self) -> FaultSpec {
        FaultSpec { step: self.step, reason: self.reason@ }
    }
}

/// How far an operation has come.
#[derive(Debug, PartialEq, Eq)]
pub enum Session {
    /// Nothing has been done.
    Start,
    /// The database is reached.
    Connected,
    /// The note is stored.
    Added,
    /// The notes have been read; they stand in the order in which the
    /// database gave them.
    Listed(Vec<Note>),
    /// The operation was given up.
    Aborted(Fault),
}

/// What a [`Session`] says, as plain values.
pub enum SessionSpec {
    Start,
    Connected,
    Added,
    Listed(Seq<NoteSpec>),
    Aborted(FaultSpec),
}

impl View for Session {
    type V = SessionSpec;

    open spec fn view(&self) -> SessionSpec {
        match *self {
            Session::Start => SessionSpec::Start,
            Session::Connected => SessionSpec::Connected,
            Session::Added => SessionSpec::Added,
            Session::Listed(notes) => SessionSpec::Listed(notes_view(notes@)),
            Session::Aborted(fault) => SessionSpec::Aborted(fault@),
        }
    }
}

/// The statement of an operation: storing for one, reading for the other.
pub open spec fn statement_of(operation: OperationSpec) -> Step {
    match operation {
        OperationSpec::Add(_) => Step::Insert,
        OperationSpec::List { .. } => Step::Select,
    }
}

/// The step that a session asks for: the connection first, then the
/// operation's statement; none once the operation has ended.
pub open spec fn step_of(session: SessionSpec, operation: OperationSpec) -> Option<Step> {
    match session {
        SessionSpec::Start => Some(Step::Connect),
        SessionSpec::Connected => Some(statement_of(operation)),
        _ => None,
    }
}

/// The request of a session. A note's title and details travel as the
/// statement's two parameters, in that order.
pub open spec fn request_of(
    session: SessionSpec,
    operation: OperationSpec,
    config: ConfigSpec,
) -> Option<RequestSpec> {
    match session {
        SessionSpec::Start => Some(RequestSpec::Connect { url: target_url(config) }),
        SessionSpec::Connected => Some(
            match operation {
                OperationSpec::Add(note) => RequestSpec::Insert {
                    sql: sql::insert_note_text(config.table_name),
                    title: note.title,
                    details: note.details,
                },
                OperationSpec::List { limit } => RequestSpec::Select {
                    sql: sql::recent_notes_text(config.table_name, limit),
                },
            },
        ),
        _ => None,
    }
}

/// Where an answer leads that lets the operation go on.
pub open spec fn welcomed(
    session: SessionSpec,
    operation: OperationSpec,
    event: EventSpec,
) -> Option<SessionSpec> {
    match (session, operation, event) {
        (SessionSpec::Start, _, EventSpec::Connected) => Some(SessionSpec::Connected),
        (SessionSpec::Connected, OperationSpec::Add(_), EventSpec::Executed) => Some(
            SessionSpec::Added,
        ),
        (SessionSpec::Connected, OperationSpec::List { .. }, EventSpec::Notes(notes)) => Some(
            SessionSpec::Listed(notes),
        ),
        _ => None,
    }
}

/// Why an answer ends the operation: the failure's own text, or the remark
/// that the answer was not the kind asked for.
pub open spec fn fault_reason(event: EventSpec) -> Seq<char> {
    match event {
        EventSpec::Failed(reason) => reason,
        _ => "unexpected answer"@,
    }
}

/// The session after `event` has answered its request. Every failure ends
/// the operation at the step that failed. An operation that has ended stays
/// as it is.
pub open spec fn follow(
    session: SessionSpec,
    operation: OperationSpec,
    event: EventSpec,
) -> SessionSpec {
    match step_of(session, operation) {
        None => session,
        Some(step) => match welcomed(session, operation, event) {
            Some(next) => next,
            None => SessionSpec::Aborted(FaultSpec { step, reason: fault_reason(event) }),
        },
    }
}

fn give_up(step: Step, event: Event) -> (session: Session)
    ensures
        session@ == SessionSpec::Aborted(FaultSpec { step, reason: fault_reason(event@) }),
{
    let reason = match event {
        Event::Failed(reason) => reason,
        _ => String::from_str("unexpected answer"),
    };
    Session::Aborted(Fault { step, reason })
}

impl Operation {
    /// The statement that this operation sends once it is connected.
    pub fn statement(&self) -> (step: Step)
        ensures
            step == statement_of(self@),
    {
        match self {
            Operation::Add(_) => Step::Insert,
            Operation::List { .. } => Step::Select,
        }
    }
}

impl Session {
    /// The session in which every operation begins.
    pub fn start() -> (session: Session)
        ensures
            session@ == SessionSpec::Start,
    {
        Session::Start
    }

    /// Whether the operation has ended, well or not.
    pub fn is_finished(&self, operation: &Operation) -> (finished: bool)
        ensures
            finished == (step_of(self@, operation@) is None),
    {
        match self {
            Session::Start => false,
            Session::Connected => false,
            _ => true,
        }
    }

    /// The request to perform next; none once the operation has ended.
    pub fn request(&self, operation: &Operation, config: &Config) -> (request: Option<Request>)
        ensures
            match request {
                Some(request) => request_of(self@, operation@, config@) == Some(request@),
                None => request_of(self@, operation@, config@) is None,
            },
            request is Some <==> step_of(self@, operation@) is Some,
    {
        match self {
            Session::Start => Some(Request::Connect { url: config.target_url() }),
            Session::Connected => match operation {
                Operation::Add(note) => Some(
                    Request::Insert {
                        sql: sql::insert_note(config.table_name.as_str()),
                        title: note.title.clone(),
                        details: note.details.clone(),
                    },
                ),
                Operation::List { limit } => Some(
                    Request::Select { sql: sql::recent_notes(config.table_name.as_str(), *limit) },
                ),
            },
            _ => None,
        }
    }

    /// Takes the answer to the request that this session asked for and
    /// gives the session that follows.
    pub fn advance(self, operation: &Operation, event: Event) -> (next: Session)
        ensures
            next@ == follow(self@, operation@, event@),
    {
        match self {
            Session::Start => match event {
                Event::Connected => Session::Connected,
                other => give_up(Step::Connect, other),
            },
            Session::Connected => match operation {
                Operation::Add(_) => match event {
                    Event::Executed => Session::Added,
                    other => give_up(Step::Insert, other),
                },
                Operation::List { .. } => match event {
                    Event::Notes(notes) => Session::Listed(notes),
                    other => give_up(Step::Select, other),
                },
            },
            Session::Added => Session::Added,
            Session::Listed(notes) => Session::Listed(notes),
            Session::Aborted(fault) => Session::Aborted(fault),
        }
    }
}

/// An operation makes two requests at most, and none after a failure: what
/// follows a failure asks for nothing.
pub proof fn lemma_failure_ends_operation(
    session: SessionSpec,
    operation: OperationSpec,
    reason: Seq<char>,
)
    requires
        step_of(session, operation) is Some,
    ensures
        follow(session, operation, EventSpec::Failed(reason)) == SessionSpec::Aborted(
            FaultSpec { step: step_of(session, operation).unwrap(), reason },
        ),
        step_of(follow(session, operation, EventSpec::Failed(reason)), operation) is None,
{
}

/// An operation that runs against a database that answers as asked ends
/// after its second request: storing ends in `Added`, reading hands on the
/// notes as they came, in their order.
pub proof fn lemma_operation_completes(operation: OperationSpec, notes: Seq<NoteSpec>)
    ensures
        follow(SessionSpec::Start, operation, EventSpec::Connected) == SessionSpec::Connected,
        operation is Add ==> follow(SessionSpec::Connected, operation, EventSpec::Executed)
            == SessionSpec::Added,
        operation is List ==> follow(SessionSpec::Connected, operation, EventSpec::Notes(notes))
            == SessionSpec::Listed(notes),
{
}

} // verus!
