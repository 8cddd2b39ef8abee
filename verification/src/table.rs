use vstd::prelude::*;

use crate::errors::ReadError;
use crate::json::json_as_array;
use crate::json::json_as_str;
use crate::json::json_get;
use crate::json::json_render;
use crate::json::json_text_ok;
use crate::json::parse_json;

verus! {

/// One cell of the remote table. Cells are loosely typed: a string cell
/// carries its text, any other value is kept only as its JSON rendering and
/// never matches an equality predicate.
#[derive(Debug, PartialEq)]
pub enum Cell {
    Text(String),
    Other(String),
}

/// The mathematical value of a `Cell`.
pub enum CellView {
    Text(Seq<char>),
    Other(Seq<char>),
}

impl View for Cell {
    type V = CellView;

    open spec fn view(&self) -> CellView {
        match self {
            Cell::Text(s) => CellView::Text(s@),
            Cell::Other(s) => CellView::Other(s@),
        }
    }
}

impl DeepView for Cell {
    type V = CellView;

    open spec fn deep_view(&self) -> CellView {
        self@
    }
}

/// A snapshot of the remote table: the header row and the data rows, in
/// table order. Rows have no stable identity; they are addressed only by
/// their position in this snapshot.
pub struct Table {
    pub header: Vec<Cell>,
    pub rows: Vec<Vec<Cell>>,
}

/// The mathematical value of a `Table`.
pub struct TableView {
    pub header: Seq<CellView>,
    pub rows: Seq<Seq<CellView>>,
}

impl View for Table {
    type V = TableView;

    open spec fn view(&self) -> TableView {
        TableView { header: self.header.deep_view(), rows: self.rows.deep_view() }
    }
}

/// Copies one cell; the copy has the same value.
pub fn clone_cell(c: &Cell) -> (r: Cell)
    ensures
        r@ == c@,
{
    match c {
        Cell::Text(s) => Cell::Text(s.clone()),
        Cell::Other(s) => Cell::Other(s.clone()),
    }
}

/// Copies one row; the copy has the same value.
pub fn clone_row(row: &Vec<Cell>) -> (r: Vec<Cell>)
    ensures
        r.deep_view() == row.deep_view(),
{
    let mut out: Vec<Cell> = Vec::new();
    let mut i: usize = 0;
    while i < row.len()
        invariant
            i <= row@.len(),
            out@.len() == i,
            forall|j: int| 0 <= j < i ==> out@[j]@ == row@[j]@,
        decreases row@.len() - i,
    {
        out.push(clone_cell(&row[i]));
        i += 1;
    }
    proof {
        assert(out.deep_view() =~= row.deep_view());
    }
    out
}

/// Splits what the read endpoint reported into header and data rows: an
/// absent or empty report is the empty table, otherwise the first row is
/// always the header and never a data row.
pub fn table_from_optional_values(raw: Option<Vec<Vec<Cell>>>) -> (t: Table)
    ensures
        raw is None ==> t@.header.len() == 0 && t@.rows.len() == 0,
        raw matches Some(all) ==> all.deep_view().len() == 0 ==> t@.header.len() == 0
            && t@.rows.len() == 0,
        raw matches Some(all) ==> all.deep_view().len() > 0 ==> t@.header == all.deep_view()[0]
            && t@.rows == all.deep_view().drop_first(),
{
    match raw {
        None => Table { header: Vec::new(), rows: Vec::new() },
        Some(mut all) => {
            if all.len() == 0 {
                Table { header: Vec::new(), rows: Vec::new() }
            } else {
                let ghost all0 = all.deep_view();
                let header = all.remove(0);
                proof {
                    assert(all.deep_view() =~= all0.drop_first());
                }
                Table { header, rows: all }
            }
        },
    }
}

/// Turns one reported row into cells: strings keep their text, everything
/// else is kept as its rendering.
fn row_from_values(cells: &Vec<serde_json::Value>) -> (row: Vec<Cell>)
    ensures
        row@.len() == cells@.len(),
{
    let mut out: Vec<Cell> = Vec::new();
    let mut i: usize = 0;
    while i < cells.len()
        invariant
            i <= cells@.len(),
            out@.len() == i,
        decreases cells@.len() - i,
    {
        let cell = match json_as_str(&cells[i]) {
            Some(s) => Cell::Text(s.to_owned()),
            None => Cell::Other(json_render(&cells[i])),
        };
        out.push(cell);
        i += 1;
    }
    out
}

/// Turns the reported rows into cell rows; a report entry that is not an
/// array becomes a row with no cells, which no predicate can match.
fn rows_from_values(values: &Vec<serde_json::Value>) -> (rows: Vec<Vec<Cell>>)
    ensures
        rows@.len() == values@.len(),
{
    let mut out: Vec<Vec<Cell>> = Vec::new();
    let mut i: usize = 0;
    while i < values.len()
        invariant
            i <= values@.len(),
            out@.len() == i,
        decreases values@.len() - i,
    {
        let row = match json_as_array(&values[i]) {
            Some(cells) => row_from_values(cells),
            None => Vec::new(),
        };
        out.push(row);
        i += 1;
    }
    out
}

/// Parses the read endpoint's response body into a table. A body that is
/// not JSON is a malformed response; a JSON body without a usable list of
/// rows is legitimately the empty table, not an error.
pub fn parse_table_response(body: &str) -> (r: Result<Table, ReadError>)
    ensures
        r is Ok <==> json_text_ok(body@),
        !json_text_ok(body@) ==> r == Err::<Table, ReadError>(ReadError::MalformedResponse),
{
    let doc = match parse_json(body) {
        Some(v) => v,
        None => {
            return Err(ReadError::MalformedResponse);
        },
    };
    match json_get(&doc, "values") {
        None => Ok(table_from_optional_values(None)),
        Some(values) => match json_as_array(values) {
            None => Ok(table_from_optional_values(None)),
            Some(arr) => {
                let rows = rows_from_values(arr);
                Ok(table_from_optional_values(Some(rows)))
            },
        },
    }
}

/// Decides the outcome of one table read: an unreachable endpoint is a
/// transport failure; a response body is parsed into the table.
pub fn fetch_table(body: Option<&str>) -> (r: Result<Table, ReadError>)
    ensures
        body is None ==> r == Err::<Table, ReadError>(ReadError::TransportFailure),
        body matches Some(b) ==> (r is Ok <==> json_text_ok(b@)),
        body matches Some(b) && !json_text_ok(b@) ==> r == Err::<Table, ReadError>(
            ReadError::MalformedResponse,
        ),
{
    match body {
        None => Err(ReadError::TransportFailure),
        Some(b) => parse_table_response(b),
    }
}

} // verus!
