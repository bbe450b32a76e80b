//! The in-memory table: a rectangular, row-major grid of cell texts together
//! with its dimensions and the header row's index.

use vstd::prelude::*;

verus! {

/// A rectangular table of cell texts. The dimension fields hold the
/// zero-based index of the last row and of the last column, so a well-formed
/// table has at least one row and one column.
pub struct Table {
    /// Row-major cell texts.
    pub cells: Vec<Vec<String>>,
    /// Zero-based index of the last row.
    pub row_index: usize,
    /// Zero-based index of the last column.
    pub column_index: usize,
    /// Zero-based index of the header row.
    pub header: usize,
}

impl Table {
    /// The table is rectangular and matches its declared dimensions: one row
    /// per index up to `row_index`, each holding exactly `column_index + 1`
    /// cells.
    pub open spec fn wf(self) -> bool {
        &&& self.cells@.len() == self.row_index + 1
        &&& forall|i: int|
            0 <= i <= self.row_index ==> (#[trigger] self.cells@[i])@.len() == self.column_index
                + 1
    }
}

/// Groups a flat, row-major sequence of cell texts into a table of the given
/// dimensions, converting the caller's 1-based header row number into the
/// zero-based header index.
pub fn build_table(texts: Vec<String>, rows: usize, cols: usize, header_row: usize) -> (t: Table)
    requires
        1 <= rows,
        1 <= cols,
        1 <= header_row,
        texts@.len() == rows * cols,
    ensures
        t.wf(),
        t.row_index == rows - 1,
        t.column_index == cols - 1,
        t.header == header_row - 1,
        forall|i: int, j: int|
            0 <= i < rows && 0 <= j < cols ==> #[trigger] t.cells@[i]@[j] == texts@[i * cols + j],
{
    let total = texts.len();
    let mut cells: Vec<Vec<String>> = Vec::new();
    let mut base: usize = 0;
    let mut i: usize = 0;
    while i < rows
        invariant
            i <= rows,
            base == i * cols,
            1 <= cols,
            total == texts@.len(),
            texts@.len() == rows * cols,
            cells@.len() == i,
            forall|p: int| 0 <= p < i ==> (#[trigger] cells@[p])@.len() == cols,
            forall|p: int, q: int|
                0 <= p < i && 0 <= q < cols ==> #[trigger] cells@[p]@[q] == texts@[p * cols + q],
        decreases rows - i,
    {
        proof {
            assert((i + 1) * cols <= rows * cols) by (nonlinear_arith)
                requires
                    i < rows,
                    1 <= cols,
            ;
            assert((i + 1) * cols == i * cols + cols) by (nonlinear_arith);
        }
        let mut row: Vec<String> = Vec::new();
        let mut j: usize = 0;
        while j < cols
            invariant
                j <= cols,
                total == texts@.len(),
                base + cols <= total,
                row@.len() == j,
                forall|q: int| 0 <= q < j ==> row@[q] == texts@[base + q],
            decreases cols - j,
        {
            row.push(texts[base + j].clone());
            j += 1;
        }
        cells.push(row);
        base = base + cols;
        i += 1;
    }
    Table {
        cells,
        row_index: rows - 1,
        column_index: cols - 1,
        header: header_row - 1,
    }
}

} // verus!
