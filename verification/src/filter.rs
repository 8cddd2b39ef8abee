use vstd::prelude::*;

use crate::table::Cell;
use crate::table::CellView;
use crate::table::Table;
use crate::table::clone_row;

verus! {

/// One equality condition: the cell at `column_index` must exist and hold
/// exactly `expected` as text, case-sensitively and with no coercion.
pub struct Predicate {
    pub column_index: usize,
    pub expected: String,
}

/// Whether one predicate holds of a row: the referenced cell exists, is a
/// string cell, and its text is exactly the expected value. A row shorter
/// than the referenced column never satisfies the predicate.
pub open spec fn pred_holds(row: Seq<CellView>, p: Predicate) -> bool {
    p.column_index < row.len() && (row[p.column_index as int] matches CellView::Text(s) && s
        == p.expected@)
}

/// Whether a row satisfies every predicate of the set.
pub open spec fn row_matches(row: Seq<CellView>, preds: Seq<Predicate>) -> bool {
    forall|i: int| 0 <= i < preds.len() ==> pred_holds(row, #[trigger] preds[i])
}

/// The rows that satisfy every predicate, in table order.
pub open spec fn matched_rows_of(rows: Seq<Seq<CellView>>, preds: Seq<Predicate>) -> Seq<
    Seq<CellView>,
> {
    rows.filter(|row: Seq<CellView>| row_matches(row, preds))
}

/// The outcome of one read: the header, the matching data rows in their
/// original order, and how many matched.
pub struct FilterResult {
    pub header: Vec<Cell>,
    pub matched_rows: Vec<Vec<Cell>>,
    pub count: usize,
}

/// Whether `row` satisfies every predicate of `preds`.
pub fn row_satisfies(row: &Vec<Cell>, preds: &Vec<Predicate>) -> (b: bool)
    ensures
        b == row_matches(row.deep_view(), preds@),
{
    let mut j: usize = 0;
    while j < preds.len()
        invariant
            j <= preds@.len(),
            forall|k: int| 0 <= k < j ==> pred_holds(row.deep_view(), #[trigger] preds@[k]),
        decreases preds@.len() - j,
    {
        let p = &preds[j];
        if p.column_index >= row.len() {
            proof {
                assert(!pred_holds(row.deep_view(), preds@[j as int]));
            }
            return false;
        }
        let ok = match &row[p.column_index] {
            Cell::Text(s) => *s == p.expected,
            Cell::Other(_) => false,
        };
        if !ok {
            proof {
                assert(!pred_holds(row.deep_view(), preds@[j as int]));
            }
            return false;
        }
        proof {
            assert(pred_holds(row.deep_view(), preds@[j as int]));
        }
        j += 1;
    }
    true
}

/// Selects the data rows that satisfy the whole predicate set. The table is
/// walked in order; matching rows are neither reordered nor deduplicated,
/// and the count is the number of matches. Total: an empty table simply
/// yields no matches.
pub fn filter(table: &Table, preds: &Vec<Predicate>) -> (r: FilterResult)
    ensures
        r.header.deep_view() == table@.header,
        r.matched_rows.deep_view() == matched_rows_of(table@.rows, preds@),
        r.count == r.matched_rows@.len(),
{
    let header = clone_row(&table.header);
    let mut matched: Vec<Vec<Cell>> = Vec::new();
    let mut i: usize = 0;
    proof {
        reveal(Seq::filter);
        assert(table@.rows.take(0) =~= Seq::<Seq<CellView>>::empty());
    }
    while i < table.rows.len()
        invariant
            i <= table.rows@.len(),
            matched.deep_view() == matched_rows_of(table@.rows.take(i as int), preds@),
        decreases table.rows@.len() - i,
    {
        let row = &table.rows[i];
        let ghost prev = matched.deep_view();
        if row_satisfies(row, preds) {
            matched.push(clone_row(row));
            proof {
                assert(matched.deep_view() =~= prev.push(table@.rows[i as int]));
            }
        }
        proof {
            reveal(Seq::filter);
            let rows = table@.rows;
            let t = rows.take(i as int + 1);
            assert(t.drop_last() =~= rows.take(i as int));
            assert(t.last() == rows[i as int]);
        }
        i += 1;
    }
    proof {
        assert(table@.rows.take(table.rows@.len() as int) =~= table@.rows);
    }
    let count = matched.len();
    FilterResult { header, matched_rows: matched, count }
}

/// Filter correctness: the selected rows are exactly the rows that satisfy
/// every predicate — each selected row satisfies the set, every satisfying
/// row is selected, and no rows are invented.
pub proof fn lemma_filter_characterization(rows: Seq<Seq<CellView>>, preds: Seq<Predicate>)
    ensures
        forall|j: int|
            0 <= j < matched_rows_of(rows, preds).len() ==> row_matches(
                #[trigger] matched_rows_of(rows, preds)[j],
                preds,
            ),
        forall|i: int|
            0 <= i < rows.len() && row_matches(rows[i], preds) ==> matched_rows_of(
                rows,
                preds,
            ).contains(#[trigger] rows[i]),
        matched_rows_of(rows, preds).len() <= rows.len(),
{
    broadcast use vstd::seq_lib::group_filter_ensures;

}

/// A row shorter than a referenced column never matches: an absent cell is
/// not an empty-string match, so one out-of-range predicate rules the row
/// out whatever the other predicates say.
pub proof fn lemma_short_row_never_matches(row: Seq<CellView>, preds: Seq<Predicate>, i: int)
    requires
        0 <= i < preds.len(),
        preds[i].column_index >= row.len(),
    ensures
        !row_matches(row, preds),
{
    assert(!pred_holds(row, preds[i]));
}

/// Order preservation: splitting the rows anywhere splits the selection the
/// same way — everything selected from the earlier rows precedes everything
/// selected from the later ones, so filtering never reorders.
pub proof fn lemma_filter_preserves_order(
    earlier: Seq<Seq<CellView>>,
    later: Seq<Seq<CellView>>,
    preds: Seq<Predicate>,
)
    ensures
        matched_rows_of(earlier + later, preds) == matched_rows_of(earlier, preds)
            + matched_rows_of(later, preds),
{
    broadcast use Seq::filter_distributes_over_add;

}

/// Every selected row occurs in the rows that were searched.
pub proof fn lemma_filter_subset(rows: Seq<Seq<CellView>>, preds: Seq<Predicate>)
    ensures
        forall|j: int|
            0 <= j < matched_rows_of(rows, preds).len() ==> rows.contains(
                #[trigger] matched_rows_of(rows, preds)[j],
            ),
    decreases rows.len(),
{
    reveal(Seq::filter);
    if rows.len() > 0 {
        lemma_filter_subset(rows.drop_last(), preds);
        let f = matched_rows_of(rows, preds);
        let fsub = matched_rows_of(rows.drop_last(), preds);
        assert forall|j: int| 0 <= j < f.len() implies rows.contains(f[j]) by {
            if j < fsub.len() {
                assert(f[j] == fsub[j]);
                assert(rows.drop_last().contains(fsub[j]));
                let k = choose|k: int|
                    0 <= k < rows.drop_last().len() && rows.drop_last()[k] == fsub[j];
                assert(rows[k] == f[j]);
            } else {
                assert(f[j] == rows.last());
                assert(rows[rows.len() - 1] == f[j]);
            }
        }
    }
}

/// Header exclusion: when a non-empty response is split into header and
/// data rows, every row the filter selects comes from a data row — a
/// position strictly after the header — never from the header row.
pub proof fn lemma_header_excluded(all: Seq<Seq<CellView>>, preds: Seq<Predicate>)
    requires
        all.len() > 0,
    ensures
        forall|j: int|
            0 <= j < matched_rows_of(all.drop_first(), preds).len() ==> all.drop_first().contains(
                #[trigger] matched_rows_of(all.drop_first(), preds)[j],
            ),
        all.drop_first() == all.subrange(1, all.len() as int),
{
    lemma_filter_subset(all.drop_first(), preds);
}

} // verus!
