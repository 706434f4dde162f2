//! From the flags of one invocation to the commands that it asks for.

use crate::note::{NewNote, NewNoteSpec};
use crate::repository::{Operation, OperationSpec};
use vstd::prelude::*;
use vstd::string::*;

verus! {

/// The number of notes that a listing shows when none is asked for.
pub const DEFAULT_LIMIT: i32 = 10;

/// The flags of one invocation.
#[derive(Debug, PartialEq, Eq)]
pub struct Options {
    /// Bring the database and the table into shape.
    pub init: bool,
    /// Store a note; needs `title` and `details`.
    pub add: bool,
    pub title: Option<String>,
    pub details: Option<String>,
    /// Show the latest notes.
    pub list: bool,
    /// How many notes a listing shows at most.
    pub limit: i32,
}

/// Why a flag cannot be followed.
#[derive(Clone, Copy, Debug, PartialEq, Eq, Structural)]
pub enum UsageError {
    /// A note was to be stored, and its title or its details are missing.
    MissingNoteFields,
}

/// One thing that an invocation asks for.
#[derive(Debug, PartialEq, Eq)]
pub enum Command {
    /// Bring the database and the table into shape.
    Init,
    /// Store a note, or show the latest ones.
    Perform(Operation),
    /// Report the error and do nothing else for this flag.
    Refuse(UsageError),
}

/// What a [`Command`] says, as plain values.
pub enum CommandSpec {
    Init,
    Perform(OperationSpec),
    Refuse(UsageError),
}

impl View for Command {
    type V = CommandSpec;

    open spec fn view(&self) -> CommandSpec {
        match *self {
            Command::Init => CommandSpec::Init,
            Command::Perform(operation) => CommandSpec::Perform(operation@),
            Command::Refuse(error) => CommandSpec::Refuse(error),
        }
    }
}

/// The commands that `commands` stand for, in the same order.
pub open spec fn commands_view(commands: Seq<Command>) -> Seq<CommandSpec> {
    Seq::new(commands.len(), |i: int| commands[i]@)
}

/// The note that is to be stored: there is one when both the title and the
/// details are given, and only then.
pub open spec fn note_of(title: Option<String>, details: Option<String>) -> Option<NewNoteSpec> {
    match (title, details) {
        (Some(title), Some(details)) => Some(NewNoteSpec { title: title@, details: details@ }),
        _ => None,
    }
}

/// What the flag for storing a note comes to.
pub open spec fn add_command(title: Option<String>, details: Option<String>) -> CommandSpec {
    match note_of(title, details) {
        Some(note) => CommandSpec::Perform(OperationSpec::Add(note)),
        None => CommandSpec::Refuse(UsageError::MissingNoteFields),
    }
}

/// The commands of an invocation: one for each flag that is set, always in
/// the order init, add, list, however the flags were written.
pub open spec fn commands_of(options: Options) -> Seq<CommandSpec> {
    let init = if options.init {
        seq![CommandSpec::Init]
    } else {
        Seq::empty()
    };
    let add = if options.add {
        seq![add_command(options.title, options.details)]
    } else {
        Seq::empty()
    };
    let list = if options.list {
        seq![CommandSpec::Perform(OperationSpec::List { limit: options.limit as int })]
    } else {
        Seq::empty()
    };
    init + add + list
}

/// What is said when a note is to be stored without its title or details.
pub open spec fn usage_text() -> Seq<char> {
    "Missing params. Make sure to pass in --title and --details when adding a new note"@
}

impl UsageError {
    /// A sentence for the person who started the program.
    pub fn message(&self) -> (text: String)
        ensures
            text@ == usage_text(),
    {
        String::from_str(
            "Missing params. Make sure to pass in --title and --details when adding a new note",
        )
    }
}

/// Makes the note that is to be stored, or refuses when the title or the
/// details are missing.
pub fn new_note(title: Option<String>, details: Option<String>) -> (made: Result<
    NewNote,
    UsageError,
>)
    ensures
        match made {
            Ok(note) => note_of(title, details) == Some(note@),
            Err(error) => note_of(title, details) is None && error
                == UsageError::MissingNoteFields,
        },
{
    match (title, details) {
        (Some(title), Some(details)) => Ok(NewNote { title, details }),
        _ => Err(UsageError::MissingNoteFields),
    }
}

/// Turns the flags into commands.
pub fn commands(options: Options) -> (all: Vec<Command>)
    ensures
        commands_view(all@) == commands_of(options),
{
    let Options { init, add, title, details, list, limit } = options;
    let mut all: Vec<Command> = Vec::new();
    if init {
        all.push(Command::Init);
    }
    if add {
        match new_note(title, details) {
            Ok(note) => all.push(Command::Perform(Operation::Add(note))),
            Err(error) => all.push(Command::Refuse(error)),
        }
    }
    if list {
        all.push(Command::Perform(Operation::List { limit }));
    }
    assert(commands_view(all@) =~= commands_of(options));
    all
}

/// The commands come in the order init, add, list: a command to store or
/// to refuse never stands before the init, and the listing stands last.
pub proof fn lemma_commands_in_order(options: Options, i: int, j: int)
    requires
        0 <= i < j < commands_of(options).len(),
    ensures
        !(commands_of(options)[j] is Init),
        commands_of(options)[i] matches CommandSpec::Perform(operation) ==> operation is Add,
{
}

/// Without its details, or without its title, a note is not stored: the
/// flag comes to a refusal, and no command stores anything.
pub proof fn lemma_incomplete_note_is_refused(options: Options, i: int)
    requires
        options.add,
        options.title is None || options.details is None,
        0 <= i < commands_of(options).len(),
    ensures
        !(commands_of(options)[i] matches CommandSpec::Perform(operation) && operation is Add),
        exists|k: int|
            0 <= k < commands_of(options).len() && commands_of(options)[k] == CommandSpec::Refuse(
                UsageError::MissingNoteFields,
            ),
{
    let k = if options.init {
        1int
    } else {
        0int
    };
    assert(commands_of(options)[k] == CommandSpec::Refuse(UsageError::MissingNoteFields));
}

} // verus!
