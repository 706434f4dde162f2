//! The shape that the notes table is expected to have, and the test that
//! holds an existing table against it.

use vstd::prelude::*;
use vstd::string::*;

verus! {

/// One column of an existing table, as the database's catalog describes it.
#[derive(Debug, PartialEq, Eq)]
pub struct Column {
    pub name: String,
    pub data_type: String,
}

/// What a [`Column`] says, as plain text.
pub struct ColumnSpec {
    pub name: Seq<char>,
    pub data_type: Seq<char>,
}

impl View for Column {
    type V = ColumnSpec;

    open spec fn view(&self) -> ColumnSpec {
        ColumnSpec { name: self.name@, data_type: self.data_type@ }
    }
}

/// The columns that `columns` stand for, in the same order.
pub open spec fn columns_view(columns: Seq<Column>) -> Seq<ColumnSpec> {
    Seq::new(columns.len(), |i: int| columns[i]@)
}

/// The catalog's name for the type of a text column.
pub open spec fn text_type() -> Seq<char> {
    "character varying"@
}

/// Whether `name` is one of the three columns that hold a note's text.
pub open spec fn is_note_column(name: Seq<char>) -> bool {
    name == "title"@ || name == "details"@ || name == "time"@
}

/// Whether a column is one that the notes table may have: one of the three
/// note columns, of the text type.
pub open spec fn conforms(column: ColumnSpec) -> bool {
    is_note_column(column.name) && column.data_type == text_type()
}

/// Whether `at` is the first column that does not conform.
pub open spec fn is_first_mismatch(columns: Seq<ColumnSpec>, at: int) -> bool {
    &&& 0 <= at < columns.len()
    &&& !conforms(columns[at])
    &&& forall|i: int| 0 <= i < at ==> conforms(#[trigger] columns[i])
}

/// Whether every column conforms.
pub open spec fn all_conform(columns: Seq<ColumnSpec>) -> bool {
    forall|i: int| 0 <= i < columns.len() ==> conforms(#[trigger] columns[i])
}

/// Whether a table with these columns is left as it is: it has at least one
/// column, and every column conforms. A table without columns is not valid.
pub open spec fn valid_structure(columns: Seq<ColumnSpec>) -> bool {
    columns.len() > 0 && all_conform(columns)
}

fn text_is(text: &String, expected: &str) -> (same: bool)
    ensures
        same == (text@ == expected@),
{
    let expected = String::from_str(expected);
    *text == expected
}

impl Column {
    pub fn new(name: String, data_type: String) -> (column: Column)
        ensures
            column.name == name,
            column.data_type == data_type,
    {
        Column { name, data_type }
    }

    /// Whether this column is one that the notes table may have.
    pub fn conforms(&self) -> (ok: bool)
        ensures
            ok == conforms(self@),
    {
        let named = text_is(&self.name, "title") || text_is(&self.name, "details") || text_is(
            &self.name,
            "time",
        );
        named && text_is(&self.data_type, "character varying")
    }
}

/// Finds the first column that does not conform. Columns are examined in
/// the order given, and none after the first mismatch is looked at.
pub fn first_mismatch(columns: &Vec<Column>) -> (found: Option<usize>)
    ensures
        match found {
            Some(at) => is_first_mismatch(columns_view(columns@), at as int),
            None => all_conform(columns_view(columns@)),
        },
{
    let mut at: usize = 0;
    while at < columns.len()
        invariant
            at <= columns.len(),
            forall|i: int| 0 <= i < at ==> conforms(#[trigger] columns_view(columns@)[i]),
        decreases columns.len() - at,
    {
        if !columns[at].conforms() {
            return Some(at);
        }
        at = at + 1;
    }
    None
}

/// Decides whether an existing table is kept.
pub fn structure_valid(columns: &Vec<Column>) -> (valid: bool)
    ensures
        valid == valid_structure(columns_view(columns@)),
{
    columns.len() > 0 && first_mismatch(columns).is_none()
}

/// A structure is not valid in two cases and no other: the table has no
/// columns, or one of its columns does not conform.
pub proof fn lemma_invalid_structure(columns: Seq<ColumnSpec>)
    ensures
        !valid_structure(columns) <==> columns.len() == 0 || exists|at: int|
            0 <= at < columns.len() && !conforms(#[trigger] columns[at]),
{
}

/// A table has one first mismatch at most, and none when every column
/// conforms.
pub proof fn lemma_first_mismatch_unique(columns: Seq<ColumnSpec>, a: int, b: int)
    requires
        is_first_mismatch(columns, a),
        is_first_mismatch(columns, b),
    ensures
        a == b,
        !all_conform(columns),
{
    if a < b {
        assert(conforms(columns[a]));
    } else if b < a {
        assert(conforms(columns[b]));
    }
}

} // verus!
