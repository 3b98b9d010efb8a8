//! Turning the rows of a CSV file into records keyed by column name.

use vstd::prelude::*;

use crate::cli::csv::TomlRoot;

verus! {

/// One cell of a record: the column's name and the row's value in it.
#[derive(Debug)]
pub struct Field {
    pub name: String,
    pub value: String,
}

impl View for Field {
    type V = (Seq<char>, Seq<char>);

    open spec fn view(&self) -> (Seq<char>, Seq<char>) {
        (self.name@, self.value@)
    }
}

/// One row of the file: a cell for each column, in the order of the header.
/// Where two columns share a name both cells are kept; a reader that wants
/// one value for each name takes the later one.
#[derive(Debug)]
pub struct Record {
    pub fields: Vec<Field>,
}

impl View for Record {
    type V = Seq<(Seq<char>, Seq<char>)>;

    open spec fn view(&self) -> Seq<(Seq<char>, Seq<char>)> {
        Seq::new(self.fields@.len(), |i: int| self.fields@[i]@)
    }
}

/// A row that could not be read.
#[derive(Debug, Clone, Copy, PartialEq, Eq, Structural)]
pub struct RowError {
    /// The line of the file the row stands on; the header is line 1.
    pub line: usize,
}

/// The value of a row in the column at `index`: empty where the row is too
/// short to have one.
pub open spec fn cell_at(row: Seq<String>, index: int) -> Seq<char> {
    if 0 <= index < row.len() {
        row[index]@
    } else {
        Seq::empty()
    }
}

/// The record of a row under a header.
pub open spec fn record_of(headers: Seq<String>, row: Seq<String>) -> Seq<(Seq<char>, Seq<char>)> {
    Seq::new(headers.len(), |i: int| (headers[i]@, cell_at(row, i)))
}

/// The index of the first row that could not be read, if there is one.
pub open spec fn first_unreadable(rows: Seq<Option<Vec<String>>>) -> Option<int>
    decreases rows.len(),
{
    if rows.len() == 0 {
        None
    } else if first_unreadable(rows.drop_last()) is Some {
        first_unreadable(rows.drop_last())
    } else if rows.last() is None {
        Some(rows.len() - 1)
    } else {
        None
    }
}

/// `first_unreadable` finds an unreadable row before which every row is
/// readable, or says that all rows are readable.
pub proof fn lemma_first_unreadable(rows: Seq<Option<Vec<String>>>)
    ensures
        match first_unreadable(rows) {
            Some(k) => 0 <= k < rows.len() && rows[k] is None && forall|i: int|
                0 <= i < k ==> (#[trigger] rows[i]) is Some,
            None => forall|i: int| 0 <= i < rows.len() ==> (#[trigger] rows[i]) is Some,
        },
    decreases rows.len(),
{
    if rows.len() > 0 {
        let front = rows.drop_last();
        lemma_first_unreadable(front);
        assert forall|i: int| 0 <= i < front.len() implies front[i] == rows[i] by {}
        match first_unreadable(front) {
            Some(k) => {
                assert(front[k] == rows[k]);
                assert forall|i: int| 0 <= i < k implies (#[trigger] rows[i]) is Some by {
                    assert(front[i] is Some);
                }
            },
            None => {
                assert forall|i: int| 0 <= i < rows.len() - 1 implies (#[trigger] rows[i])
                    is Some by {
                    assert(front[i] is Some);
                }
            },
        }
    }
}

/// The record of one row: for each column of the header the row's value in
/// it, or the empty string where the row has no such column.
pub fn record_from_row(headers: &Vec<String>, row: &Vec<String>) -> (record: Record)
    ensures
        record@ == record_of(headers@, row@),
{
    let mut fields: Vec<Field> = Vec::new();
    let mut col: usize = 0;
    while col < headers.len()
        invariant
            col <= headers@.len(),
            fields@.len() == col,
            forall|i: int|
                0 <= i < col ==> (#[trigger] fields@[i])@ == (headers@[i]@, cell_at(row@, i)),
        decreases headers@.len() - col,
    {
        let value = if col < row.len() {
            row[col].clone()
        } else {
            String::new()
        };
        fields.push(Field { name: headers[col].clone(), value });
        col += 1;
    }
    let record = Record { fields };
    assert(record@ =~= record_of(headers@, row@));
    record
}

/// The records of a file, from its header and its rows as they were read. A
/// row that could not be read is `None`.
///
/// All rows readable: a record for each, in order. Otherwise the error names
/// the line of the first unreadable row, counting the header as line 1.
pub fn read_csv_data(headers: &Vec<String>, rows: &Vec<Option<Vec<String>>>) -> (r: Result<
    Vec<Record>,
    RowError,
>)
    requires
        rows@.len() + 1 <= usize::MAX,
    ensures
        match r {
            Ok(records) => first_unreadable(rows@) is None && records@.len() == rows@.len()
                && forall|i: int|
                0 <= i < rows@.len() ==> rows@[i] is Some && (#[trigger] records@[i])@ == record_of(
                    headers@,
                    rows@[i]->Some_0@,
                ),
            Err(e) => first_unreadable(rows@) matches Some(k) && e.line == k + 2,
        },
{
    let mut record_list: Vec<Record> = Vec::new();
    let mut row_index: usize = 0;
    proof {
        lemma_first_unreadable(rows@);
    }
    while row_index < rows.len()
        invariant
            row_index <= rows@.len(),
            rows@.len() + 1 <= usize::MAX,
            record_list@.len() == row_index,
            forall|i: int| 0 <= i < row_index ==> (#[trigger] rows@[i]) is Some,
            forall|i: int|
                0 <= i < row_index ==> (#[trigger] record_list@[i])@ == record_of(
                    headers@,
                    rows@[i]->Some_0@,
                ),
            match first_unreadable(rows@) {
                Some(k) => 0 <= k < rows@.len() && rows@[k] is None && forall|i: int|
                    0 <= i < k ==> (#[trigger] rows@[i]) is Some,
                None => forall|i: int| 0 <= i < rows@.len() ==> (#[trigger] rows@[i]) is Some,
            },
        decreases rows@.len() - row_index,
    {
        match &rows[row_index] {
            Some(row) => {
                record_list.push(record_from_row(headers, row));
            },
            None => {
                return Err(RowError { line: row_index + 2 });
            },
        }
        row_index += 1;
    }
    Ok(record_list)
}

/// The TOML document of some records: all of them under `toml_key`.
pub fn process_toml(record_list: Vec<Record>, toml_key: String) -> (root: TomlRoot)
    ensures
        root.key == toml_key,
        root.records == record_list,
{
    TomlRoot { key: toml_key, records: record_list }
}

} // verus!
