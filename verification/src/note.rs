//! Notes, and the table in which a listing shows them.

use crate::text::{decimal, format_decimal, pad_right, padded, texts};
use vstd::prelude::*;
use vstd::string::*;

verus! {

/// A note that is about to be stored: the database adds the time, and the
/// number under which it is kept.
#[derive(Debug, PartialEq, Eq)]
pub struct NewNote {
    pub title: String,
    pub details: String,
}

/// What a [`NewNote`] says, as plain text.
pub struct NewNoteSpec {
    pub title: Seq<char>,
    pub details: Seq<char>,
}

impl View for NewNote {
    type V = NewNoteSpec;

    open spec fn view(&self) -> NewNoteSpec {
        NewNoteSpec { title: self.title@, details: self.details@ }
    }
}

/// A stored note. The time is text, written by the database when the note
/// was stored.
#[derive(Debug, PartialEq, Eq)]
pub struct Note {
    pub id: i32,
    pub title: String,
    pub details: String,
    pub time: String,
}

/// What a [`Note`] says, as plain values.
pub struct NoteSpec {
    pub id: int,
    pub title: Seq<char>,
    pub details: Seq<char>,
    pub time: Seq<char>,
}

impl View for Note {
    type V = NoteSpec;

    open spec fn view(&self) -> NoteSpec {
        NoteSpec {
            id: self.id as int,
            title: self.title@,
            details: self.details@,
            time: self.time@,
        }
    }
}

/// The notes that `notes` stand for, in the same order.
pub open spec fn notes_view(notes: Seq<Note>) -> Seq<NoteSpec> {
    Seq::new(notes.len(), |i: int| notes[i]@)
}

/// One line of the table: four cells, each filled up to its column's width
/// (4, 20, 50 and 30 characters), with two spaces between neighbours. A cell
/// that is wider than its column pushes the rest of the line to the right.
pub open spec fn row_text(
    id: Seq<char>,
    title: Seq<char>,
    details: Seq<char>,
    time: Seq<char>,
) -> Seq<char> {
    padded(id, 4) + "  "@ + padded(title, 20) + "  "@ + padded(details, 50) + "  "@ + padded(
        time,
        30,
    )
}

/// The line above the notes.
pub open spec fn header_text() -> Seq<char> {
    row_text("ID"@, "Title"@, "Details"@, "Time"@)
}

/// The line that shows one note.
pub open spec fn note_text(note: NoteSpec) -> Seq<char> {
    row_text(decimal(note.id), note.title, note.details, note.time)
}

/// What is shown in place of a table when there is no note.
pub open spec fn no_notes_text() -> Seq<char> {
    "No notes found."@
}

/// The lines of a listing: the one sentence when there is no note; else the
/// header, then one line for each note, in the order given.
pub open spec fn listing_text(notes: Seq<NoteSpec>) -> Seq<Seq<char>> {
    if notes.len() == 0 {
        seq![no_notes_text()]
    } else {
        seq![header_text()] + Seq::new(notes.len(), |i: int| note_text(notes[i]))
    }
}

fn row(id: &str, title: &str, details: &str, time: &str) -> (line: String)
    ensures
        line@ == row_text(id@, title@, details@, time@),
{
    let mut line = pad_right(id, 4);
    line.append("  ");
    let cell = pad_right(title, 20);
    line.append(cell.as_str());
    line.append("  ");
    let cell = pad_right(details, 50);
    line.append(cell.as_str());
    line.append("  ");
    let cell = pad_right(time, 30);
    line.append(cell.as_str());
    line
}

impl NewNote {
    pub fn new(title: String, details: String) -> (note: NewNote)
        ensures
            note.title == title,
            note.details == details,
    {
        NewNote { title, details }
    }
}

impl Note {
    pub fn new(id: i32, title: String, details: String, time: String) -> (note: Note)
        ensures
            note.id == id,
            note.title == title,
            note.details == details,
            note.time == time,
    {
        Note { id, title, details, time }
    }

    /// The line that shows this note in a listing.
    pub fn line(&self) -> (line: String)
        ensures
            line@ == note_text(self@),
    {
        let id = format_decimal(self.id);
        row(id.as_str(), self.title.as_str(), self.details.as_str(), self.time.as_str())
    }
}

/// The line above the notes of a listing.
pub fn header() -> (line: String)
    ensures
        line@ == header_text(),
{
    row("ID", "Title", "Details", "Time")
}

/// Lays out a listing of `notes`, which are shown in the order given.
pub fn listing(notes: &Vec<Note>) -> (lines: Vec<String>)
    ensures
        texts(lines@) == listing_text(notes_view(notes@)),
{
    let mut lines: Vec<String> = Vec::new();
    if notes.len() == 0 {
        lines.push(String::from_str("No notes found."));
        assert(texts(lines@) =~= listing_text(notes_view(notes@)));
        return lines;
    }
    lines.push(header());
    let mut at: usize = 0;
    while at < notes.len()
        invariant
            at <= notes.len(),
            lines@.len() == at + 1,
            lines@[0]@ == header_text(),
            forall|i: int| 0 <= i < at ==> (#[trigger] lines@[i + 1])@ == note_text(notes@[i]@),
        decreases notes.len() - at,
    {
        lines.push(notes[at].line());
        at = at + 1;
    }
    proof {
        let want = listing_text(notes_view(notes@));
        assert(want.len() == notes.len() + 1);
        assert forall|k: int| 0 <= k < want.len() implies texts(lines@)[k] == want[k] by {
            if k > 0 {
                let i = k - 1;
                assert(lines@[i + 1]@ == note_text(notes@[i]@));
            }
        }
        assert(texts(lines@) =~= want);
    }
    lines
}

/// A listing without notes is the one sentence and nothing else; a listing
/// with notes starts with the header, which is another line than that
/// sentence, and has one more line for each note.
pub proof fn lemma_listing_shape(notes: Seq<NoteSpec>)
    ensures
        notes.len() == 0 ==> listing_text(notes) == seq![no_notes_text()],
        notes.len() > 0 ==> listing_text(notes).len() == notes.len() + 1,
        notes.len() > 0 ==> listing_text(notes)[0] == header_text(),
        forall|i: int|
            0 <= i < notes.len() ==> #[trigger] listing_text(notes)[i + 1] == note_text(notes[i]),
        header_text() != no_notes_text(),
{
    reveal_strlit("No notes found.");
    assert(header_text().len() >= 30);
}

} // verus!
