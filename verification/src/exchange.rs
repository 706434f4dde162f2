//! What passes between this library and whoever holds the connection:
//! requests to perform against the database, the events that answer them,
//! and the lines to show to the person at the terminal.

use crate::note::{notes_view, Note, NoteSpec};
use crate::schema::{columns_view, Column, ColumnSpec};
use vstd::prelude::*;

verus! {

/// One thing to do against the database.
#[derive(Debug, PartialEq, Eq)]
pub enum Request {
    /// Open a connection to `url`, once, in place of the one held so far.
    Connect { url: String },
    /// Run `sql` with `name` as its one parameter and read the flag in the
    /// single row that it returns.
    Exists { sql: String, name: String },
    /// Run `sql` with `table` as its one parameter and read each row as a
    /// column's name and declared type.
    Columns { sql: String, table: String },
    /// Run `sql`, which has no parameters and returns nothing.
    Execute { sql: String },
    /// Run `sql` with `title` and `details` as its two parameters.
    Insert { sql: String, title: String, details: String },
    /// Run `sql`, which has no parameters, and read each row as a note.
    Select { sql: String },
}

/// What a [`Request`] says, as plain text.
pub enum RequestSpec {
    Connect { url: Seq<char> },
    Exists { sql: Seq<char>, name: Seq<char> },
    Columns { sql: Seq<char>, table: Seq<char> },
    Execute { sql: Seq<char> },
    Insert { sql: Seq<char>, title: Seq<char>, details: Seq<char> },
    Select { sql: Seq<char> },
}

impl View for Request {
    type V = RequestSpec;

    open spec fn view(&self) -> RequestSpec {
        match *self {
            Request::Connect { url } => RequestSpec::Connect { url: url@ },
            Request::Exists { sql, name } => RequestSpec::Exists { sql: sql@, name: name@ },
            Request::Columns { sql, table } => RequestSpec::Columns { sql: sql@, table: table@ },
            Request::Execute { sql } => RequestSpec::Execute { sql: sql@ },
            Request::Insert { sql, title, details } => RequestSpec::Insert {
                sql: sql@,
                title: title@,
                details: details@,
            },
            Request::Select { sql } => RequestSpec::Select { sql: sql@ },
        }
    }
}

/// How a request ended.
#[derive(Debug, PartialEq, Eq)]
pub enum Event {
    /// The connection is open.
    Connected,
    /// The flag that was asked for.
    Exists(bool),
    /// The columns that were asked for, in the order in which the database
    /// gave them.
    Columns(Vec<Column>),
    /// The statement was carried out.
    Executed,
    /// The notes that were asked for, in the order in which the database
    /// gave them.
    Notes(Vec<Note>),
    /// The request failed; the text is the database's or the driver's own.
    Failed(String),
}

/// What an [`Event`] says, as plain values.
pub enum EventSpec {
    Connected,
    Exists(bool),
    Columns(Seq<ColumnSpec>),
    Executed,
    Notes(Seq<NoteSpec>),
    Failed(Seq<char>),
}

impl View for Event {
    type V = EventSpec;

    open spec fn view(&self) -> EventSpec {
        match *self {
            Event::Connected => EventSpec::Connected,
            Event::Exists(flag) => EventSpec::Exists(flag),
            Event::Columns(columns) => EventSpec::Columns(columns_view(columns@)),
            Event::Executed => EventSpec::Executed,
            Event::Notes(notes) => EventSpec::Notes(notes_view(notes@)),
            Event::Failed(reason) => EventSpec::Failed(reason@),
        }
    }
}

/// Where a line is shown.
#[derive(Clone, Copy, Debug, PartialEq, Eq, Structural)]
pub enum Channel {
    /// Standard output, and only when progress is reported.
    Progress,
    /// Standard output.
    Output,
    /// Standard error.
    Error,
}

/// One line for the person at the terminal.
#[derive(Debug, PartialEq, Eq)]
pub struct Line {
    pub channel: Channel,
    pub text: String,
}

/// What a [`Line`] says, as plain text.
pub struct LineSpec {
    pub channel: Channel,
    pub text: Seq<char>,
}

impl View for Line {
    type V = LineSpec;

    open spec fn view(&self) -> LineSpec {
        LineSpec { channel: self.channel, text: self.text@ }
    }
}

/// The lines that `lines` stand for, in the same order.
pub open spec fn lines_view(lines: Seq<Line>) -> Seq<LineSpec> {
    Seq::new(lines.len(), |i: int| lines[i]@)
}

/// A line of progress.
pub open spec fn progress(text: Seq<char>) -> LineSpec {
    LineSpec { channel: Channel::Progress, text }
}

/// A line of ordinary output.
pub open spec fn output(text: Seq<char>) -> LineSpec {
    LineSpec { channel: Channel::Output, text }
}

/// A line that reports an error.
pub open spec fn error(text: Seq<char>) -> LineSpec {
    LineSpec { channel: Channel::Error, text }
}

impl Line {
    pub fn progress(text: &str) -> (line: Line)
        ensures
            line@ == progress(text@),
    {
        Line { channel: Channel::Progress, text: String::from_str(text) }
    }

    pub fn output(text: String) -> (line: Line)
        ensures
            line@ == output(text@),
    {
        Line { channel: Channel::Output, text }
    }

    pub fn error(text: String) -> (line: Line)
        ensures
            line@ == error(text@),
    {
        Line { channel: Channel::Error, text }
    }
}

} // verus!
