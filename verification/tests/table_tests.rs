use sheetsync::Cell;
use sheetsync::Predicate;
use sheetsync::ReadError;
use sheetsync::Table;
use sheetsync::fetch_table;
use sheetsync::filter;
use sheetsync::filter_result_json;
use sheetsync::parse_table_response;
use sheetsync::row_satisfies;
use sheetsync::table_from_optional_values;

fn text(s: &str) -> Cell {
    Cell::Text(s.to_string())
}

fn text_row(cells: &[&str]) -> Vec<Cell> {
    cells.iter().map(|c| text(c)).collect()
}

fn pred(column_index: usize, expected: &str) -> Predicate {
    Predicate {
        column_index,
        expected: expected.to_string(),
    }
}

#[test]
fn filter_scenario_two_predicates() {
    let table = Table {
        header: text_row(&["Name", "Channel", "Refunded"]),
        rows: vec![
            text_row(&["A", "DEBENHAMS", "FALSE"]),
            text_row(&["B", "OTHER", "FALSE"]),
            text_row(&["C", "DEBENHAMS", "TRUE"]),
        ],
    };
    let preds = vec![pred(1, "DEBENHAMS"), pred(2, "FALSE")];
    let r = filter(&table, &preds);
    assert_eq!(r.count, 1);
    assert_eq!(r.matched_rows, vec![text_row(&["A", "DEBENHAMS", "FALSE"])]);
    assert_eq!(r.header, text_row(&["Name", "Channel", "Refunded"]));
}

#[test]
fn filter_keeps_order_and_duplicates() {
    let table = Table {
        header: text_row(&["H"]),
        rows: vec![
            text_row(&["x", "keep"]),
            text_row(&["y", "drop"]),
            text_row(&["x", "keep"]),
            text_row(&["z", "keep"]),
        ],
    };
    let preds = vec![pred(1, "keep")];
    let r = filter(&table, &preds);
    assert_eq!(r.count, 3);
    assert_eq!(r.matched_rows[0], text_row(&["x", "keep"]));
    assert_eq!(r.matched_rows[1], text_row(&["x", "keep"]));
    assert_eq!(r.matched_rows[2], text_row(&["z", "keep"]));
}

#[test]
fn short_rows_never_match() {
    let table = Table {
        header: text_row(&["A", "B", "C"]),
        rows: vec![text_row(&["only", "two"]), text_row(&[])],
    };
    let preds = vec![pred(2, "anything")];
    let r = filter(&table, &preds);
    assert_eq!(r.count, 0);
    assert!(r.matched_rows.is_empty());
}

#[test]
fn absent_cell_is_not_an_empty_string_match() {
    let short = text_row(&["a"]);
    let preds = vec![pred(1, "")];
    assert!(!row_satisfies(&short, &preds));
    let with_empty = text_row(&["a", ""]);
    assert!(row_satisfies(&with_empty, &preds));
}

#[test]
fn non_string_cells_never_match() {
    let row = vec![text("a"), Cell::Other("123".to_string())];
    let preds = vec![pred(1, "123")];
    assert!(!row_satisfies(&row, &preds));
}

#[test]
fn filtering_an_empty_table_yields_no_matches() {
    let table = Table {
        header: Vec::new(),
        rows: Vec::new(),
    };
    let preds = vec![pred(0, "x")];
    let r = filter(&table, &preds);
    assert_eq!(r.count, 0);
    assert!(r.matched_rows.is_empty());
    assert!(r.header.is_empty());
}

#[test]
fn response_rows_are_parsed_with_header_split_off() {
    let body = "{\"values\":[[\"Name\",\"Channel\",\"Refunded\"],[\"A\",\"DEBENHAMS\",\"FALSE\"],[\"B\",\"OTHER\",\"FALSE\"]]}";
    let t = parse_table_response(body).expect("well-formed body");
    assert_eq!(t.header, text_row(&["Name", "Channel", "Refunded"]));
    assert_eq!(t.rows.len(), 2);
    assert_eq!(t.rows[0], text_row(&["A", "DEBENHAMS", "FALSE"]));
    assert_eq!(t.rows[1], text_row(&["B", "OTHER", "FALSE"]));
}

#[test]
fn header_row_never_reaches_matched_rows() {
    let body = "{\"values\":[[\"Name\",\"Channel\"],[\"A\",\"x\"]]}";
    let t = parse_table_response(body).expect("well-formed body");
    let preds = vec![pred(0, "Name")];
    let r = filter(&t, &preds);
    assert_eq!(r.count, 0);
}

#[test]
fn response_without_values_is_the_empty_table() {
    let t = parse_table_response("{}").expect("no values is not an error");
    assert!(t.header.is_empty());
    assert!(t.rows.is_empty());
    let t2 = parse_table_response("{\"range\":\"A1:Z9\"}").expect("still no values");
    assert!(t2.header.is_empty());
    assert!(t2.rows.is_empty());
}

#[test]
fn response_with_empty_values_is_the_empty_table() {
    let t = parse_table_response("{\"values\":[]}").expect("empty list of rows");
    assert!(t.header.is_empty());
    assert!(t.rows.is_empty());
}

#[test]
fn malformed_body_is_a_read_error() {
    assert!(matches!(
        parse_table_response("{{{"),
        Err(ReadError::MalformedResponse)
    ));
    assert!(matches!(
        parse_table_response(""),
        Err(ReadError::MalformedResponse)
    ));
}

#[test]
fn non_string_cells_keep_their_rendering() {
    let body = "{\"values\":[[\"H\"],[1,true,\"x\",null]]}";
    let t = parse_table_response(body).expect("well-formed body");
    assert_eq!(t.rows.len(), 1);
    assert_eq!(
        t.rows[0],
        vec![
            Cell::Other("1".to_string()),
            Cell::Other("true".to_string()),
            text("x"),
            Cell::Other("null".to_string()),
        ]
    );
}

#[test]
fn fetch_without_response_is_transport_failure() {
    assert!(matches!(
        fetch_table(None),
        Err(ReadError::TransportFailure)
    ));
    let t = fetch_table(Some("{}")).expect("reachable and well-formed");
    assert!(t.rows.is_empty());
}

#[test]
fn optional_values_split_header_and_rows() {
    let t = table_from_optional_values(None);
    assert!(t.header.is_empty() && t.rows.is_empty());
    let t2 = table_from_optional_values(Some(vec![]));
    assert!(t2.header.is_empty() && t2.rows.is_empty());
    let t3 = table_from_optional_values(Some(vec![text_row(&["H"]), text_row(&["d"])]));
    assert_eq!(t3.header, text_row(&["H"]));
    assert_eq!(t3.rows, vec![text_row(&["d"])]);
}

#[test]
fn report_document_is_exact() {
    let table = Table {
        header: text_row(&["H"]),
        rows: vec![vec![text("A"), Cell::Other("1".to_string())]],
    };
    let preds = vec![pred(0, "A")];
    let r = filter(&table, &preds);
    assert_eq!(r.count, 1);
    assert_eq!(
        filter_result_json(&r),
        "{\"header\":[\"H\"],\"filtered_data\":[[\"A\",1]],\"count\":1}"
    );
}

#[test]
fn report_escapes_cell_text() {
    let table = Table {
        header: text_row(&["a\"b"]),
        rows: Vec::new(),
    };
    let preds = vec![pred(0, "never")];
    let r = filter(&table, &preds);
    assert_eq!(
        filter_result_json(&r),
        "{\"header\":[\"a\\\"b\"],\"filtered_data\":[],\"count\":0}"
    );
}
