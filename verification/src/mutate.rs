use vstd::prelude::*;

use crate::errors::WriteError;
use crate::textfmt::dec_digits;
use crate::textfmt::json_quoted;
use crate::textfmt::push_dec;
use crate::textfmt::push_json_string;
use crate::textfmt::push_str_chars;
use crate::textfmt::string_of_chars;

verus! {

/// A 0-based half-open row range, the form in which the remote batch-update
/// protocol addresses rows to delete.
#[derive(Clone, Copy, Debug, PartialEq, Eq, Structural)]
pub struct RowRange {
    pub start: u64,
    pub end: u64,
}

/// Translates a 1-based row index into the 0-based half-open range
/// `[row_index - 1, row_index)` that a deletion must name. A row index of
/// zero is a precondition violation, rejected before anything is sent.
pub fn delete_row_range(row_index: u64) -> (r: Result<RowRange, WriteError>)
    ensures
        row_index == 0 ==> r == Err::<RowRange, WriteError>(WriteError::InvalidIndex),
        row_index >= 1 ==> r == Ok::<RowRange, WriteError>(
            RowRange { start: (row_index - 1) as u64, end: row_index },
        ),
{
    if row_index == 0 {
        Err(WriteError::InvalidIndex)
    } else {
        Ok(RowRange { start: row_index - 1, end: row_index })
    }
}

/// The URL that reads the whole named range of a table.
pub open spec fn read_url_view(table_id: Seq<char>, range: Seq<char>) -> Seq<char> {
    "https://sheets.googleapis.com/v4/spreadsheets/"@ + table_id + "/values/"@ + range
}

/// Builds the read URL for a table and range.
pub fn read_url(table_id: &str, range: &str) -> (r: String)
    ensures
        r@ == read_url_view(table_id@, range@),
{
    let mut out: Vec<char> = Vec::new();
    push_str_chars(&mut out, "https://sheets.googleapis.com/v4/spreadsheets/");
    push_str_chars(&mut out, table_id);
    push_str_chars(&mut out, "/values/");
    push_str_chars(&mut out, range);
    proof {
        assert(out@ =~= read_url_view(table_id@, range@));
    }
    string_of_chars(out)
}

/// The URL that appends a row after the named range, with raw value input.
pub open spec fn append_url_view(table_id: Seq<char>, range: Seq<char>) -> Seq<char> {
    read_url_view(table_id, range) + ":append?valueInputOption=RAW"@
}

/// Builds the append URL for a table and range.
pub fn append_url(table_id: &str, range: &str) -> (r: String)
    ensures
        r@ == append_url_view(table_id@, range@),
{
    let mut out: Vec<char> = Vec::new();
    push_str_chars(&mut out, "https://sheets.googleapis.com/v4/spreadsheets/");
    push_str_chars(&mut out, table_id);
    push_str_chars(&mut out, "/values/");
    push_str_chars(&mut out, range);
    push_str_chars(&mut out, ":append?valueInputOption=RAW");
    proof {
        assert(out@ =~= append_url_view(table_id@, range@));
    }
    string_of_chars(out)
}

/// The range name that addresses every column of one absolute row of a
/// sheet; row numbering is 1-based and includes the header row.
pub open spec fn update_range_view(sheet: Seq<char>, row_index: u64) -> Seq<char> {
    sheet + "!A"@ + dec_digits(row_index as nat) + ":Z"@ + dec_digits(row_index as nat)
}

/// The URL that overwrites one absolute row, with raw value input.
pub open spec fn update_url_view(table_id: Seq<char>, sheet: Seq<char>, row_index: u64) -> Seq<
    char,
> {
    read_url_view(table_id, update_range_view(sheet, row_index)) + "?valueInputOption=RAW"@
}

/// Builds the update URL for one absolute row of a sheet. The index is a
/// snapshot-relative fact: any intervening insertion or deletion above it
/// leaves it pointing at a different row.
pub fn update_url(table_id: &str, sheet: &str, row_index: u64) -> (r: String)
    requires
        row_index >= 1,
    ensures
        r@ == update_url_view(table_id@, sheet@, row_index),
{
    let mut out: Vec<char> = Vec::new();
    push_str_chars(&mut out, "https://sheets.googleapis.com/v4/spreadsheets/");
    push_str_chars(&mut out, table_id);
    push_str_chars(&mut out, "/values/");
    push_str_chars(&mut out, sheet);
    push_str_chars(&mut out, "!A");
    push_dec(&mut out, row_index);
    push_str_chars(&mut out, ":Z");
    push_dec(&mut out, row_index);
    push_str_chars(&mut out, "?valueInputOption=RAW");
    proof {
        assert(out@ =~= update_url_view(table_id@, sheet@, row_index));
    }
    string_of_chars(out)
}

/// The URL of a table's batch-update endpoint, which carries deletions.
pub open spec fn batch_update_url_view(table_id: Seq<char>) -> Seq<char> {
    "https://sheets.googleapis.com/v4/spreadsheets/"@ + table_id + ":batchUpdate"@
}

/// Builds the batch-update URL for a table.
pub fn batch_update_url(table_id: &str) -> (r: String)
    ensures
        r@ == batch_update_url_view(table_id@),
{
    let mut out: Vec<char> = Vec::new();
    push_str_chars(&mut out, "https://sheets.googleapis.com/v4/spreadsheets/");
    push_str_chars(&mut out, table_id);
    push_str_chars(&mut out, ":batchUpdate");
    proof {
        assert(out@ =~= batch_update_url_view(table_id@));
    }
    string_of_chars(out)
}

/// The comma-separated JSON string literals of a row's values.
pub open spec fn string_cells_view(row: Seq<Seq<char>>) -> Seq<char>
    decreases row.len(),
{
    if row.len() == 0 {
        Seq::empty()
    } else if row.len() == 1 {
        json_quoted(row[0])
    } else {
        string_cells_view(row.drop_last()) + seq![','] + json_quoted(row.last())
    }
}

/// The JSON body that both append and update carry: the row as one nested
/// list of string values.
pub open spec fn values_body_view(row: Seq<Seq<char>>) -> Seq<char> {
    "{\"values\":[["@ + string_cells_view(row) + "]]}"@
}

/// Renders the append/update body for one row of values.
pub fn values_body(row: &Vec<String>) -> (r: String)
    ensures
        r@ == values_body_view(row.deep_view()),
{
    let mut out: Vec<char> = Vec::new();
    push_str_chars(&mut out, "{\"values\":[[");
    let mut i: usize = 0;
    while i < row.len()
        invariant
            i <= row@.len(),
            row.deep_view().len() == row@.len(),
            out@ == "{\"values\":[["@ + string_cells_view(row.deep_view().take(i as int)),
        decreases row@.len() - i,
    {
        if i > 0 {
            out.push(',');
        }
        push_json_string(&mut out, row[i].as_str());
        proof {
            let dv = row.deep_view();
            let t = dv.take(i as int + 1);
            assert(t.drop_last() =~= dv.take(i as int));
            assert(t.last() == dv[i as int]);
            assert(dv[i as int] == row@[i as int]@);
            assert(out@ =~= "{\"values\":[["@ + string_cells_view(t));
        }
        i += 1;
    }
    proof {
        assert(row.deep_view().take(row@.len() as int) =~= row.deep_view());
    }
    push_str_chars(&mut out, "]]}");
    proof {
        assert(out@ =~= values_body_view(row.deep_view()));
    }
    string_of_chars(out)
}

/// The JSON body of a deletion: one deleteDimension request over a row
/// range of the given sheet.
pub open spec fn delete_body_view(sheet_id: u64, range: RowRange) -> Seq<char> {
    "{\"requests\":[{\"deleteDimension\":{\"range\":{\"sheetId\":"@ + dec_digits(sheet_id as nat)
        + ",\"dimension\":\"ROWS\",\"startIndex\":"@ + dec_digits(range.start as nat)
        + ",\"endIndex\":"@ + dec_digits(range.end as nat) + "}}}]}"@
}

/// Renders the deletion body for a row range of a sheet.
pub fn delete_body(sheet_id: u64, range: RowRange) -> (r: String)
    ensures
        r@ == delete_body_view(sheet_id, range),
{
    let mut out: Vec<char> = Vec::new();
    push_str_chars(&mut out, "{\"requests\":[{\"deleteDimension\":{\"range\":{\"sheetId\":");
    push_dec(&mut out, sheet_id);
    push_str_chars(&mut out, ",\"dimension\":\"ROWS\",\"startIndex\":");
    push_dec(&mut out, range.start);
    push_str_chars(&mut out, ",\"endIndex\":");
    push_dec(&mut out, range.end);
    push_str_chars(&mut out, "}}}]}");
    proof {
        assert(out@ =~= delete_body_view(sheet_id, range));
    }
    string_of_chars(out)
}

/// How a mutation's HTTP outcome is classified: success statuses succeed; a
/// rejected credential is the authorization error, which calls for a fresh
/// token rather than a retry; every other rejection carries the service's
/// verdict.
pub open spec fn spec_write_status(status: u16, token_expired_body: bool) -> Result<
    (),
    WriteError,
> {
    if 200 <= status < 300 {
        Ok(())
    } else if status == 401 {
        Err(WriteError::Unauthorized)
    } else if status == 403 && token_expired_body {
        Err(WriteError::Unauthorized)
    } else {
        Err(WriteError::RejectedByService)
    }
}

/// Classifies the HTTP status of a mutation; `token_expired_body` says
/// whether the response body blamed an expired or invalid token.
pub fn classify_write_status(status: u16, token_expired_body: bool) -> (r: Result<(), WriteError>)
    ensures
        r == spec_write_status(status, token_expired_body),
{
    if 200 <= status && status < 300 {
        Ok(())
    } else if status == 401 {
        Err(WriteError::Unauthorized)
    } else if status == 403 && token_expired_body {
        Err(WriteError::Unauthorized)
    } else {
        Err(WriteError::RejectedByService)
    }
}

/// Decides a mutation's outcome: no response at all is a transport failure;
/// a response is classified by its status and body.
pub fn write_outcome(response: Option<(u16, bool)>) -> (r: Result<(), WriteError>)
    ensures
        response is None ==> r == Err::<(), WriteError>(WriteError::TransportFailure),
        response matches Some(p) ==> r == spec_write_status(p.0, p.1),
{
    match response {
        None => Err(WriteError::TransportFailure),
        Some((status, expired)) => classify_write_status(status, expired),
    }
}

} // verus!
