use vstd::prelude::*;

use crate::filter::FilterResult;
use crate::table::Cell;
use crate::table::CellView;
use crate::textfmt::dec_digits;
use crate::textfmt::json_quoted;
use crate::textfmt::push_dec;
use crate::textfmt::push_json_string;
use crate::textfmt::push_str_chars;
use crate::textfmt::string_of_chars;

verus! {

/// How one cell appears in the report: a string cell as a JSON string
/// literal, any other cell as the rendering it was read with.
pub open spec fn cell_json_view(c: CellView) -> Seq<char> {
    match c {
        CellView::Text(s) => json_quoted(s),
        CellView::Other(raw) => raw,
    }
}

/// The comma-separated cells of one row.
pub open spec fn cells_json_view(row: Seq<CellView>) -> Seq<char>
    decreases row.len(),
{
    if row.len() == 0 {
        Seq::empty()
    } else if row.len() == 1 {
        cell_json_view(row[0])
    } else {
        cells_json_view(row.drop_last()) + seq![','] + cell_json_view(row.last())
    }
}

/// One row as a JSON array.
pub open spec fn row_json_view(row: Seq<CellView>) -> Seq<char> {
    "["@ + cells_json_view(row) + "]"@
}

/// The comma-separated rows of the report.
pub open spec fn rows_json_view(rows: Seq<Seq<CellView>>) -> Seq<char>
    decreases rows.len(),
{
    if rows.len() == 0 {
        Seq::empty()
    } else if rows.len() == 1 {
        row_json_view(rows[0])
    } else {
        rows_json_view(rows.drop_last()) + seq![','] + row_json_view(rows.last())
    }
}

/// The whole report document: header, matched rows and count, the local
/// artifact written once after each successful read.
pub open spec fn report_view(
    header: Seq<CellView>,
    rows: Seq<Seq<CellView>>,
    count: nat,
) -> Seq<char> {
    "{\"header\":"@ + row_json_view(header) + ",\"filtered_data\":["@ + rows_json_view(rows)
        + "],\"count\":"@ + dec_digits(count) + "}"@
}

fn push_cell_json(out: &mut Vec<char>, c: &Cell)
    ensures
        final(out)@ == old(out)@ + cell_json_view(c@),
{
    match c {
        Cell::Text(s) => push_json_string(out, s.as_str()),
        Cell::Other(raw) => push_str_chars(out, raw.as_str()),
    }
}

fn push_row_json(out: &mut Vec<char>, row: &Vec<Cell>)
    ensures
        final(out)@ == old(out)@ + row_json_view(row.deep_view()),
{
    push_str_chars(out, "[");
    let mut i: usize = 0;
    while i < row.len()
        invariant
            i <= row@.len(),
            out@ == old(out)@ + "["@ + cells_json_view(row.deep_view().take(i as int)),
        decreases row@.len() - i,
    {
        if i > 0 {
            out.push(',');
        }
        push_cell_json(out, &row[i]);
        proof {
            let dv = row.deep_view();
            let t = dv.take(i as int + 1);
            assert(t.drop_last() =~= dv.take(i as int));
            assert(t.last() == dv[i as int]);
            assert(dv[i as int] == row@[i as int]@);
            assert(out@ =~= old(out)@ + "["@ + cells_json_view(t));
        }
        i += 1;
    }
    proof {
        assert(row.deep_view().take(row@.len() as int) =~= row.deep_view());
    }
    push_str_chars(out, "]");
    proof {
        assert(out@ =~= old(out)@ + row_json_view(row.deep_view()));
    }
}

/// Renders the report document for one filter outcome.
pub fn filter_result_json(fr: &FilterResult) -> (r: String)
    ensures
        r@ == report_view(fr.header.deep_view(), fr.matched_rows.deep_view(), fr.count as nat),
{
    let mut out: Vec<char> = Vec::new();
    push_str_chars(&mut out, "{\"header\":");
    push_row_json(&mut out, &fr.header);
    push_str_chars(&mut out, ",\"filtered_data\":[");
    let ghost mid = out@;
    let mut i: usize = 0;
    while i < fr.matched_rows.len()
        invariant
            i <= fr.matched_rows@.len(),
            out@ == mid + rows_json_view(fr.matched_rows.deep_view().take(i as int)),
        decreases fr.matched_rows@.len() - i,
    {
        if i > 0 {
            out.push(',');
        }
        push_row_json(&mut out, &fr.matched_rows[i]);
        proof {
            let dv = fr.matched_rows.deep_view();
            let t = dv.take(i as int + 1);
            assert(t.drop_last() =~= dv.take(i as int));
            assert(t.last() == dv[i as int]);
            assert(dv[i as int] == fr.matched_rows@[i as int].deep_view());
            assert(out@ =~= mid + rows_json_view(t));
        }
        i += 1;
    }
    proof {
        assert(fr.matched_rows.deep_view().take(fr.matched_rows@.len() as int)
            =~= fr.matched_rows.deep_view());
    }
    push_str_chars(&mut out, "],\"count\":");
    push_dec(&mut out, fr.count as u64);
    push_str_chars(&mut out, "}");
    proof {
        assert(out@ =~= report_view(
            fr.header.deep_view(),
            fr.matched_rows.deep_view(),
            fr.count as nat,
        ));
    }
    string_of_chars(out)
}

} // verus!
