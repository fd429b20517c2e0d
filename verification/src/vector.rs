use vstd::prelude::*;
use crate::error::MultiplyError;
use crate::scalar::Scalar;

verus! {

/// An ordered sequence of scalars whose length is fixed when it is built.
pub struct Vector<T> {
    data: Vec<T>,
}

impl<T> View for Vector<T> {
    type V = Seq<T>;

    closed spec fn view(&self) -> Seq<T> {
        self.data@
    }
}

impl<T> Vector<T> {
    pub fn new(data: Vec<T>) -> (v: Self)
        ensures
            v@ == data@,
    {
        Vector { data }
    }

    pub fn len(&self) -> (n: usize)
        ensures
            n == self@.len(),
    {
        self.data.len()
    }

    pub fn get(&self, k: usize) -> (x: &T)
        requires
            k < self@.len(),
        ensures
            *x == self@[k as int],
    {
        &self.data[k]
    }
}

/// The sum of the first `n` pairwise products of `row` and `col`, added in
/// ascending index order onto the scalar's zero.
pub open spec fn dot_prefix<T: Scalar>(row: Seq<T>, col: Seq<T>, n: nat) -> T
    decreases n,
{
    if n == 0 {
        T::zero_spec()
    } else {
        dot_prefix(row, col, (n - 1) as nat).plus_spec(
            row[n - 1].times_spec(col[n - 1]),
        )
    }
}

/// The dot product of two sequences of equal length.
pub open spec fn dot<T: Scalar>(row: Seq<T>, col: Seq<T>) -> T {
    dot_prefix(row, col, row.len())
}

/// What `dot_product` returns.
pub open spec fn dot_product_spec<T: Scalar>(row: Seq<T>, col: Seq<T>) -> Result<
    T,
    MultiplyError,
> {
    if row.len() == col.len() {
        Ok(dot(row, col))
    } else {
        Err(MultiplyError::DimensionMismatch)
    }
}

/// Multiplies two vectors element by element and sums the products in
/// ascending index order; vectors of different lengths are rejected.
pub fn dot_product<T: Scalar>(row: Vector<T>, col: Vector<T>) -> (r: Result<T, MultiplyError>)
    ensures
        r == dot_product_spec(row@, col@),
{
    if row.len() != col.len() {
        return Err(MultiplyError::DimensionMismatch);
    }
    let n = row.len();
    let mut sum = T::zero();
    let mut k: usize = 0;
    while k < n
        invariant
            k <= n,
            n == row@.len(),
            n == col@.len(),
            sum == dot_prefix(row@, col@, k as nat),
        decreases n - k,
    {
        sum = sum.plus(row.get(k).times(*col.get(k)));
        k += 1;
    }
    Ok(sum)
}

} // verus!
