use dbbridge::table::{collect_names, materialize, render_cell, TableData};

fn s(x: &str) -> String {
    x.to_string()
}

fn cell(x: &str) -> Option<Vec<u8>> {
    Some(x.as_bytes().to_vec())
}

#[test]
fn materialize_round_trip_fixture() {
    // Columns ["a","b"], rows [[1,"x"],[2,null]]: null becomes the empty string.
    let columns = vec![s("a"), s("b")];
    let batches = vec![vec![vec![cell("1"), cell("x")], vec![cell("2"), None]]];
    let t = materialize(columns, &batches);
    assert_eq!(t.columns, vec![s("a"), s("b")]);
    assert_eq!(t.rows, vec![vec![s("1"), s("x")], vec![s("2"), s("")]]);
}

#[test]
fn materialize_empty_result() {
    let t = materialize(vec![s("only")], &Vec::new());
    assert_eq!(t.columns, vec![s("only")]);
    assert!(t.rows.is_empty());
}

#[test]
fn materialize_pads_short_rows() {
    // A row with fewer cells than columns is padded, not dropped.
    let columns = vec![s("a"), s("b"), s("c")];
    let batches = vec![vec![vec![cell("1")]]];
    let t = materialize(columns, &batches);
    assert_eq!(t.rows, vec![vec![s("1"), s(""), s("")]]);
}

#[test]
fn materialize_truncates_long_rows() {
    // The column count is fixed for the whole result.
    let columns = vec![s("a")];
    let batches = vec![vec![vec![cell("1"), cell("extra")]]];
    let t = materialize(columns, &batches);
    assert_eq!(t.rows, vec![vec![s("1")]]);
}

#[test]
fn materialize_keeps_batch_order() {
    let columns = vec![s("a")];
    let batches = vec![
        vec![vec![cell("1")], vec![cell("2")]],
        vec![vec![cell("3")]],
    ];
    let t = materialize(columns, &batches);
    assert_eq!(t.rows, vec![vec![s("1")], vec![s("2")], vec![s("3")]]);
}

#[test]
fn render_cell_decodes_valid_text() {
    assert_eq!(render_cell(&cell("caf\u{e9}")), s("caf\u{e9}"));
}

#[test]
fn render_cell_absorbs_invalid_bytes() {
    // A buffer that is not valid UTF-8 degrades to the empty string instead
    // of failing the fetch.
    assert_eq!(render_cell(&Some(vec![0xff, 0xfe])), s(""));
    assert_eq!(render_cell(&None), s(""));
}

#[test]
fn push_row_appends_in_order() {
    let mut t = TableData::new(vec![s("a"), s("b")]);
    t.push_row(&vec![cell("x"), cell("y")]);
    t.push_row(&vec![None, cell("z")]);
    assert_eq!(t.rows, vec![vec![s("x"), s("y")], vec![s(""), s("z")]]);
}

#[test]
fn collect_names_skips_unreadable_entries() {
    // The listing policy skips a row whose first cell is absent or garbled.
    let batches = vec![
        vec![
            vec![cell("master")],
            vec![None],
            vec![Some(vec![0xff])],
            vec![],
        ],
        vec![vec![cell("tenant1"), cell("ignored")]],
    ];
    let names = collect_names(&batches);
    assert_eq!(names, vec![s("master"), s("tenant1")]);
}
