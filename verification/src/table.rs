//! Result materialization: turning the batches fetched from a bound SQL cursor
//! into a uniform tabular value of column names and stringified cells.
//!
//! A cell arrives as the optional byte buffer the driver produced for it. A
//! missing buffer (SQL NULL or an unreported cell) and a buffer that is not
//! valid text both materialize as the empty string: partial or garbled data
//! must not fail the whole fetch. Every materialized row has exactly one cell
//! per column.
use vstd::prelude::*;
use vstd::utf8::{decode_utf8, valid_utf8};

verus! {

/// Number of rows fetched from the cursor per batch.
pub const FETCH_BATCH_SIZE: usize = 32;

/// Upper bound, in bytes, on the text buffer bound to one cell.
pub const CELL_TEXT_CAP: usize = 4096;

/// Text that one fetched cell materializes to: the decoded characters when the
/// buffer is present and holds valid UTF-8, the empty string otherwise.
pub open spec fn cell_text(cell: Option<Seq<u8>>) -> Seq<char> {
    match cell {
        Option::Some(b) => if valid_utf8(b) {
            decode_utf8(b)
        } else {
            Seq::empty()
        },
        Option::None => Seq::empty(),
    }
}

/// Text of one materialized row of the given width: cell by cell, padded with
/// empty strings when the driver reported fewer cells than columns, and
/// truncated to the column count so the table stays rectangular.
pub open spec fn row_text(cells: Seq<Option<Seq<u8>>>, width: nat) -> Seq<Seq<char>> {
    Seq::new(
        width,
        |i: int|
            if i < cells.len() {
                cell_text(cells[i])
            } else {
                Seq::<char>::empty()
            },
    )
}

/// Rows materialized from a sequence of fetched batches, in fetch order.
pub open spec fn materialized_rows(
    batches: Seq<Seq<Seq<Option<Seq<u8>>>>>,
    width: nat,
) -> Seq<Seq<Seq<char>>>
    decreases batches.len(),
{
    if batches.len() == 0 {
        Seq::empty()
    } else {
        materialized_rows(batches.drop_last(), width) + batches.last().map_values(
            |cells: Seq<Option<Seq<u8>>>| row_text(cells, width),
        )
    }
}

/// Names read off the first column of a sequence of rows, in row order. A row
/// whose first cell is absent or not valid text contributes nothing: this is
/// the single-column listing policy, which skips unreadable entries instead of
/// padding them.
pub open spec fn name_cells(rows: Seq<Seq<Option<Seq<u8>>>>) -> Seq<Seq<char>>
    decreases rows.len(),
{
    if rows.len() == 0 {
        Seq::empty()
    } else {
        let rest = name_cells(rows.drop_last());
        let first_cell: Option<Seq<u8>> = if rows.last().len() > 0 {
            rows.last()[0]
        } else {
            Option::None
        };
        match first_cell {
            Option::Some(b) => if valid_utf8(b) {
                rest.push(decode_utf8(b))
            } else {
                rest
            },
            Option::None => rest,
        }
    }
}

/// Names read off the first column of a sequence of fetched batches.
pub open spec fn names_of_batches(batches: Seq<Seq<Seq<Option<Seq<u8>>>>>) -> Seq<Seq<char>>
    decreases batches.len(),
{
    if batches.len() == 0 {
        Seq::empty()
    } else {
        names_of_batches(batches.drop_last()) + name_cells(batches.last())
    }
}

/// A generic table value: ordered column names and rows of cells rendered as
/// text. No typed column value survives past materialization.
pub struct TableData {
    pub columns: Vec<String>,
    pub rows: Vec<Vec<String>>,
}

/// Relies on std::str::from_utf8: it returns Ok exactly when the bytes are
/// valid UTF-8, and then yields the characters that the bytes encode.
#[verifier::external_body]
fn utf8_to_string(bytes: &[u8]) -> (r: Option<String>)
    ensures
        r is Some <==> valid_utf8(bytes@),
        r matches Some(s) ==> s@ == decode_utf8(bytes@),
{
    match std::str::from_utf8(bytes) {
        Ok(s) => Some(s.to_string()),
        Err(_) => None,
    }
}

/// Renders one fetched cell: the decoded text when present and valid, the
/// empty string otherwise.
pub fn render_cell(cell: &Option<Vec<u8>>) -> (r: String)
    ensures
        r@ == cell_text(cell.deep_view()),
{
    match cell {
        Option::Some(b) => {
            match utf8_to_string(b.as_slice()) {
                Option::Some(s) => {
                    proof {
                        assert(b.deep_view() =~= b@);
                    }
                    s
                },
                Option::None => {
                    proof {
                        assert(b.deep_view() =~= b@);
                    }
                    String::new()
                },
            }
        },
        Option::None => String::new(),
    }
}

impl TableData {
    /// Every row has exactly one cell per column.
    pub open spec fn wf(self) -> bool {
        forall|i: int|
            0 <= i < self.rows@.len() ==> (#[trigger] self.rows@[i])@.len()
                == self.columns@.len()
    }

    /// Number of columns, fixed for the whole result.
    pub open spec fn width(self) -> nat {
        self.columns@.len()
    }

    /// The rows as sequences of character sequences.
    pub open spec fn rows_text(self) -> Seq<Seq<Seq<char>>> {
        self.rows.deep_view()
    }

    /// An empty table over the given columns.
    pub fn new(columns: Vec<String>) -> (t: TableData)
        ensures
            t.wf(),
            t.columns == columns,
            t.rows_text() == Seq::<Seq<Seq<char>>>::empty(),
    {
        let t = TableData { columns, rows: Vec::new() };
        proof {
            assert(t.rows.deep_view() =~= Seq::<Seq<Seq<char>>>::empty());
        }
        t
    }

    /// Appends one fetched row, padded or truncated to the column count.
    pub fn push_row(&mut self, cells: &Vec<Option<Vec<u8>>>)
        requires
            old(self).wf(),
        ensures
            final(self).wf(),
            final(self).columns == old(self).columns,
            final(self).rows_text() == old(self).rows_text().push(
                row_text(cells.deep_view(), old(self).width()),
            ),
    {
        let width = self.columns.len();
        let mut row: Vec<String> = Vec::new();
        let mut i: usize = 0;
        while i < width
            invariant
                i <= width,
                width == self.columns@.len(),
                row@.len() == i,
                forall|j: int|
                    0 <= j < i ==> (#[trigger] row@[j])@ == row_text(
                        cells.deep_view(),
                        width as nat,
                    )[j],
            decreases width - i,
        {
            if i < cells.len() {
                row.push(render_cell(&cells[i]));
            } else {
                row.push(String::new());
            }
            i += 1;
        }
        proof {
            assert(row.deep_view() =~= row_text(cells.deep_view(), width as nat));
        }
        let ghost old_rows = self.rows.deep_view();
        self.rows.push(row);
        proof {
            assert(self.rows.deep_view() =~= old_rows.push(
                row_text(cells.deep_view(), width as nat),
            ));
        }
    }

    /// Appends every row of one fetched batch, in order.
    pub fn push_batch(&mut self, batch: &Vec<Vec<Option<Vec<u8>>>>)
        requires
            old(self).wf(),
        ensures
            final(self).wf(),
            final(self).columns == old(self).columns,
            final(self).rows_text() == old(self).rows_text() + batch.deep_view().map_values(
                |cells: Seq<Option<Seq<u8>>>| row_text(cells, old(self).width()),
            ),
    {
        let ghost w = self.width();
        let ghost base = self.rows_text();
        let mut i: usize = 0;
        while i < batch.len()
            invariant
                i <= batch@.len(),
                self.wf(),
                self.columns == old(self).columns,
                w == self.width(),
                self.rows_text() == base + batch.deep_view().subrange(0, i as int).map_values(
                    |cells: Seq<Option<Seq<u8>>>| row_text(cells, w),
                ),
            decreases batch@.len() - i,
        {
            self.push_row(&batch[i]);
            proof {
                let f = |cells: Seq<Option<Seq<u8>>>| row_text(cells, w);
                let dv = batch.deep_view();
                assert(dv.subrange(0, i + 1).map_values(f) =~= dv.subrange(0, i as int).map_values(
                    f,
                ).push(f(dv[i as int])));
                assert(self.rows_text() =~= base + dv.subrange(0, i + 1).map_values(f));
            }
            i += 1;
        }
        proof {
            let f = |cells: Seq<Option<Seq<u8>>>| row_text(cells, w);
            let dv = batch.deep_view();
            assert(dv.subrange(0, dv.len() as int) =~= dv);
            assert(self.rows_text() =~= base + dv.map_values(f));
        }
    }
}

/// Materializes a whole result: the column names read off the cursor up front,
/// then every fetched batch in order.
pub fn materialize(columns: Vec<String>, batches: &Vec<Vec<Vec<Option<Vec<u8>>>>>) -> (t:
    TableData)
    ensures
        t.wf(),
        t.columns == columns,
        t.rows_text() == materialized_rows(batches.deep_view(), columns@.len()),
{
    let ghost w = columns@.len();
    let ghost cols = columns;
    let mut t = TableData::new(columns);
    let mut i: usize = 0;
    while i < batches.len()
        invariant
            i <= batches@.len(),
            t.wf(),
            t.width() == w,
            t.columns == cols,
            t.rows_text() == materialized_rows(batches.deep_view().subrange(0, i as int), w),
        decreases batches@.len() - i,
    {
        t.push_batch(&batches[i]);
        proof {
            let dv = batches.deep_view();
            let pre = dv.subrange(0, i as int);
            let cur = dv.subrange(0, i + 1);
            assert(cur.drop_last() =~= pre);
            assert(cur.last() == dv[i as int]);
            assert(t.rows_text() =~= materialized_rows(cur, w));
        }
        i += 1;
    }
    proof {
        assert(batches.deep_view().subrange(0, batches.deep_view().len() as int)
            =~= batches.deep_view());
    }
    t
}

/// Appends the readable first-column names of one fetched batch, in row order.
pub fn append_names(out: &mut Vec<String>, batch: &Vec<Vec<Option<Vec<u8>>>>)
    ensures
        final(out).deep_view() == old(out).deep_view() + name_cells(batch.deep_view()),
{
    let ghost base = out.deep_view();
    let mut i: usize = 0;
    while i < batch.len()
        invariant
            i <= batch@.len(),
            out.deep_view() == base + name_cells(batch.deep_view().subrange(0, i as int)),
        decreases batch@.len() - i,
    {
        let row = &batch[i];
        let ghost before = out.deep_view();
        if row.len() > 0 {
            match &row[0] {
                Option::Some(b) => {
                    match utf8_to_string(b.as_slice()) {
                        Option::Some(s) => {
                            proof {
                                assert(b.deep_view() =~= b@);
                            }
                            out.push(s);
                            proof {
                                assert(out.deep_view() =~= before.push(decode_utf8(b@)));
                            }
                        },
                        Option::None => {
                            proof {
                                assert(b.deep_view() =~= b@);
                            }
                        },
                    }
                },
                Option::None => {},
            }
        }
        proof {
            let dv = batch.deep_view();
            let cur = dv.subrange(0, i + 1);
            assert(cur.drop_last() =~= dv.subrange(0, i as int));
            assert(cur.last() == dv[i as int]);
            assert(dv[i as int] == row.deep_view());
            if row@.len() > 0 {
                assert(row.deep_view()[0] == row[0].deep_view());
            }
            assert(out.deep_view() =~= base + name_cells(cur));
        }
        i += 1;
    }
    proof {
        assert(batch.deep_view().subrange(0, batch.deep_view().len() as int)
            =~= batch.deep_view());
    }
}

/// Collects the readable first-column names of a whole fetched result, batch
/// by batch: the compute core of the database-listing query.
pub fn collect_names(batches: &Vec<Vec<Vec<Option<Vec<u8>>>>>) -> (names: Vec<String>)
    ensures
        names.deep_view() == names_of_batches(batches.deep_view()),
{
    let mut names: Vec<String> = Vec::new();
    proof {
        assert(names.deep_view() =~= Seq::<Seq<char>>::empty());
    }
    let mut i: usize = 0;
    while i < batches.len()
        invariant
            i <= batches@.len(),
            names.deep_view() == names_of_batches(batches.deep_view().subrange(0, i as int)),
        decreases batches@.len() - i,
    {
        append_names(&mut names, &batches[i]);
        proof {
            let dv = batches.deep_view();
            let cur = dv.subrange(0, i + 1);
            assert(cur.drop_last() =~= dv.subrange(0, i as int));
            assert(cur.last() == dv[i as int]);
        }
        i += 1;
    }
    proof {
        assert(batches.deep_view().subrange(0, batches.deep_view().len() as int)
            =~= batches.deep_view());
    }
    names
}

} // verus!
