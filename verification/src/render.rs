use vstd::prelude::*;
use crate::matrix::{lemma_cell_index, Matrix};

verus! {

/// The first `n` cells of row `i`, each followed by a space unless it is the
/// last of its row.
pub open spec fn row_text(cells: Seq<Seq<char>>, cols: nat, i: int, n: nat) -> Seq<char>
    decreases n,
{
    if n == 0 {
        Seq::empty()
    } else {
        let j = n - 1;
        row_text(cells, cols, i, j as nat) + cells[i * cols + j] + (if j + 1 < cols {
            seq![' ']
        } else {
            Seq::empty()
        })
    }
}

/// The first `n` rows, each in braces and followed by a comma unless it is
/// the last row.
pub open spec fn rows_text(cells: Seq<Seq<char>>, rows: nat, cols: nat, n: nat) -> Seq<char>
    decreases n,
{
    if n == 0 {
        Seq::empty()
    } else {
        let i = n - 1;
        rows_text(cells, rows, cols, i as nat) + seq!['{'] + row_text(cells, cols, i, cols)
            + seq!['}'] + (if i + 1 < rows {
            seq![',']
        } else {
            Seq::empty()
        })
    }
}

/// The text of a matrix whose cells have the texts `cells`, in row-major
/// order: `{{1 2 3},{4 5 6}}` for two rows of three.
pub open spec fn matrix_text(rows: nat, cols: nat, cells: Seq<Seq<char>>) -> Seq<char> {
    seq!['{'] + rows_text(cells, rows, cols, rows) + seq!['}']
}

/// The texts of a vector of strings.
pub open spec fn texts(cells: Seq<String>) -> Seq<Seq<char>> {
    Seq::new(cells.len(), |k: int| cells[k]@)
}

/// Calls `String::push_str`, which appends the slice to the end of the string.
#[verifier::external_body]
fn append(text: &mut String, piece: &str)
    ensures
        final(text)@ == old(text)@ + piece@,
{
    text.push_str(piece)
}

/// Formats a value with its `Debug` implementation. What the text is depends
/// on that implementation, so nothing is claimed about it.
#[verifier::external_body]
fn debug_text<T: core::fmt::Debug>(value: &T) -> (text: String) {
    format!("{:?}", value)
}

/// Lays out the texts of the cells of a `rows` by `cols` matrix.
pub fn layout(rows: usize, cols: usize, cells: &Vec<String>) -> (text: String)
    requires
        cells@.len() == (rows as int) * (cols as int),
    ensures
        text@ == matrix_text(rows as nat, cols as nat, texts(cells@)),
{
    proof {
        reveal_strlit("{");
        reveal_strlit("}");
        reveal_strlit(" ");
        reveal_strlit(",");
    }
    let len = cells.len();
    let ghost all = texts(cells@);
    let mut text = String::new();
    append(&mut text, "{");
    assert(text@ =~= seq!['{'] + rows_text(all, rows as nat, cols as nat, 0));
    let mut i: usize = 0;
    while i < rows
        invariant
            i <= rows,
            len == cells@.len(),
            cells@.len() == (rows as int) * (cols as int),
            all == texts(cells@),
            "{"@ == seq!['{'],
            "}"@ == seq!['}'],
            " "@ == seq![' '],
            ","@ == seq![','],
            text@ == seq!['{'] + rows_text(all, rows as nat, cols as nat, i as nat),
        decreases rows - i,
    {
        let ghost before = text@;
        append(&mut text, "{");
        assert(text@ =~= before + seq!['{'] + row_text(all, cols as nat, i as int, 0));
        let mut j: usize = 0;
        while j < cols
            invariant
                i < rows,
                j <= cols,
                len == cells@.len(),
                cells@.len() == (rows as int) * (cols as int),
                all == texts(cells@),
                " "@ == seq![' '],
                text@ == before + seq!['{'] + row_text(all, cols as nat, i as int, j as nat),
            decreases cols - j,
        {
            proof {
                lemma_cell_index(rows as int, cols as int, i as int, j as int);
            }
            append(&mut text, cells[i * cols + j].as_str());
            if j + 1 < cols {
                append(&mut text, " ");
            }
            j += 1;
            assert(text@ =~= before + seq!['{'] + row_text(all, cols as nat, i as int, j as nat));
        }
        append(&mut text, "}");
        if i + 1 < rows {
            append(&mut text, ",");
        }
        i += 1;
        assert(text@ =~= seq!['{'] + rows_text(all, rows as nat, cols as nat, i as nat));
    }
    append(&mut text, "}");
    text
}

impl<T: core::fmt::Debug> Matrix<T> {
    /// Renders the matrix as text: each row in braces with its cells separated
    /// by spaces, the rows separated by commas, all of it in braces. Each cell
    /// is formatted by its `Debug` implementation.
    pub fn to_string(&self) -> (text: String)
        requires
            self@.wf(),
        ensures
            exists|cells: Seq<Seq<char>>|
                cells.len() == self.data@.len() && text@ == #[trigger] matrix_text(
                    self.rows as nat,
                    self.cols as nat,
                    cells,
                ),
    {
        let len = self.data.len();
        let mut cells: Vec<String> = Vec::new();
        let mut k: usize = 0;
        while k < len
            invariant
                k <= len,
                len == self.data@.len(),
                cells@.len() == k,
            decreases len - k,
        {
            cells.push(debug_text(&self.data[k]));
            k += 1;
        }
        let text = layout(self.rows, self.cols, &cells);
        assert(texts(cells@).len() == self.data@.len());
        text
    }
}

} // verus!
