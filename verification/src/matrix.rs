use vstd::prelude::*;
use crate::scalar::Scalar;
use crate::vector::{dot, Vector};

verus! {

/// A dense matrix in row-major order: element `(i, j)` is `data[i * cols + j]`.
pub struct Matrix<T> {
    pub rows: usize,
    pub cols: usize,
    pub data: Vec<T>,
}

/// The mathematical content of a `Matrix`.
pub struct MatrixView<T> {
    pub rows: nat,
    pub cols: nat,
    pub data: Seq<T>,
}

impl<T> MatrixView<T> {
    /// The storage is rectangular: it holds exactly `rows * cols` elements.
    pub open spec fn wf(self) -> bool {
        self.data.len() == (self.rows as int) * (self.cols as int)
    }

    /// Element `(i, j)`.
    pub open spec fn at(self, i: int, j: int) -> T {
        self.data[i * self.cols + j]
    }

    /// Row `i`, left to right.
    pub open spec fn row(self, i: int) -> Seq<T> {
        Seq::new(self.cols, |k: int| self.at(i, k))
    }

    /// Column `j`, top to bottom.
    pub open spec fn column(self, j: int) -> Seq<T> {
        Seq::new(self.rows, |k: int| self.at(k, j))
    }
}

impl<T> View for Matrix<T> {
    type V = MatrixView<T>;

    open spec fn view(&self) -> MatrixView<T> {
        MatrixView { rows: self.rows as nat, cols: self.cols as nat, data: self.data@ }
    }
}

/// The value of cell `(i, j)` of the product of `a` and `b`.
pub open spec fn product_cell<T: Scalar>(a: MatrixView<T>, b: MatrixView<T>, i: int, j: int) -> T {
    dot(a.row(i), b.column(j))
}

/// The product of `a` and `b`: an `a.rows` by `b.cols` matrix whose cell
/// `(i, j)` is the dot product of row `i` of `a` and column `j` of `b`.
pub open spec fn product<T: Scalar>(a: MatrixView<T>, b: MatrixView<T>) -> MatrixView<T> {
    MatrixView {
        rows: a.rows,
        cols: b.cols,
        data: Seq::new(
            a.rows * b.cols,
            |k: int| product_cell(a, b, k / (b.cols as int), k % (b.cols as int)),
        ),
    }
}

/// `i * cols + j` stays inside a storage of `rows * cols` elements.
pub proof fn lemma_cell_index(rows: int, cols: int, i: int, j: int)
    requires
        0 <= i < rows,
        0 <= j < cols,
    ensures
        0 <= i * cols <= i * cols + j < rows * cols,
        (i * cols + j) / cols == i,
        (i * cols + j) % cols == j,
{
    assert(0 <= i * cols) by (nonlinear_arith)
        requires
            0 <= i,
            0 <= cols,
    ;
    assert(i * cols + cols <= rows * cols) by (nonlinear_arith)
        requires
            i + 1 <= rows,
            0 <= cols,
    ;
    vstd::arithmetic::div_mod::lemma_fundamental_div_mod_converse(i * cols + j, cols, i, j);
}

impl<T> Matrix<T> {
    /// Builds a matrix from its shape and its row-major storage.
    pub fn new(rows: usize, cols: usize, data: Vec<T>) -> (m: Self)
        requires
            data@.len() == (rows as int) * (cols as int),
        ensures
            m.rows == rows,
            m.cols == cols,
            m.data == data,
            m@.wf(),
    {
        Matrix { rows, cols, data }
    }

    /// Tells whether the storage holds exactly `rows * cols` elements.
    pub fn is_well_formed(&self) -> (ok: bool)
        ensures
            ok == self@.wf(),
    {
        let len = self.data.len();
        match self.rows.checked_mul(self.cols) {
            Some(n) => n == len,
            None => false,
        }
    }
}

impl<T: Copy> Matrix<T> {
    /// Copies row `i` out as a vector.
    pub fn row(&self, i: usize) -> (v: Vector<T>)
        requires
            self@.wf(),
            i < self.rows,
        ensures
            v@ == self@.row(i as int),
    {
        let len = self.data.len();
        let mut out: Vec<T> = Vec::new();
        let mut k: usize = 0;
        while k < self.cols
            invariant
                self@.wf(),
                len == self.data@.len(),
                i < self.rows,
                k <= self.cols,
                out@.len() == k,
                forall|c: int| 0 <= c < k ==> out@[c] == self@.at(i as int, c),
            decreases self.cols - k,
        {
            proof {
                lemma_cell_index(self.rows as int, self.cols as int, i as int, k as int);
            }
            out.push(self.data[i * self.cols + k]);
            k += 1;
        }
        assert(out@ =~= self@.row(i as int));
        Vector::new(out)
    }

    /// Gathers column `j` out as a vector, one element from each row.
    pub fn column(&self, j: usize) -> (v: Vector<T>)
        requires
            self@.wf(),
            j < self.cols,
        ensures
            v@ == self@.column(j as int),
    {
        let len = self.data.len();
        let mut out: Vec<T> = Vec::new();
        let mut k: usize = 0;
        while k < self.rows
            invariant
                self@.wf(),
                len == self.data@.len(),
                j < self.cols,
                k <= self.rows,
                out@.len() == k,
                forall|r: int| 0 <= r < k ==> out@[r] == self@.at(r, j as int),
            decreases self.rows - k,
        {
            proof {
                lemma_cell_index(self.rows as int, self.cols as int, k as int, j as int);
            }
            out.push(self.data[k * self.cols + j]);
            k += 1;
        }
        assert(out@ =~= self@.column(j as int));
        Vector::new(out)
    }
}

} // verus!
