//! Dense matrices backed by nalgebra's `DMatrix`.
//!
//! The entries live in nalgebra. The library's view of a matrix (`m@`) is
//! the expression that built it: the given entries, a constant matrix, or a
//! sum, difference, product, transpose, scaling or inverse of other such
//! expressions. Every operation records its expression and its shape.
use crate::scalar::Scalar;
use nalgebra::RealField;
use vstd::prelude::*;

verus! {

/// The expression that computes a matrix.
pub enum Expr<T> {
    /// The `rows x cols` matrix whose entries `values` lists row by row.
    Rows { rows: nat, cols: nat, values: Seq<T> },
    /// The `rows x cols` matrix whose entries all equal `value`.
    Filled { rows: nat, cols: nat, value: T },
    /// The `rows x cols` matrix of zeros.
    Zeros { rows: nat, cols: nat },
    /// The `n x n` identity matrix.
    Identity { n: nat },
    /// The sum of two matrices.
    Sum(Box<Expr<T>>, Box<Expr<T>>),
    /// The difference of two matrices.
    Difference(Box<Expr<T>>, Box<Expr<T>>),
    /// The product of two matrices.
    Product(Box<Expr<T>>, Box<Expr<T>>),
    /// The transpose of a matrix.
    Transpose(Box<Expr<T>>),
    /// A matrix with every entry multiplied by a scalar.
    Scaled(Box<Expr<T>>, T),
    /// The inverse of a square matrix that has one.
    Inverse(Box<Expr<T>>),
}

/// `a + b`.
pub open spec fn mat_add<T>(a: Expr<T>, b: Expr<T>) -> Expr<T> {
    Expr::Sum(Box::new(a), Box::new(b))
}

/// `a - b`.
pub open spec fn mat_sub<T>(a: Expr<T>, b: Expr<T>) -> Expr<T> {
    Expr::Difference(Box::new(a), Box::new(b))
}

/// `a * b`.
pub open spec fn mat_mul<T>(a: Expr<T>, b: Expr<T>) -> Expr<T> {
    Expr::Product(Box::new(a), Box::new(b))
}

/// The transpose `a'`.
pub open spec fn mat_tr<T>(a: Expr<T>) -> Expr<T> {
    Expr::Transpose(Box::new(a))
}

/// `a` with every entry multiplied by `s`.
pub open spec fn mat_scale<T>(a: Expr<T>, s: T) -> Expr<T> {
    Expr::Scaled(Box::new(a), s)
}

/// The inverse `a^-1`.
pub open spec fn mat_inv<T>(a: Expr<T>) -> Expr<T> {
    Expr::Inverse(Box::new(a))
}

/// The entry in row `i` and column `j` where the expression gives it
/// without arithmetic: given entries, a filled matrix, or a transpose of
/// one of these.
pub open spec fn known_entry<T>(e: Expr<T>, i: int, j: int) -> Option<T>
    decreases e,
{
    match e {
        Expr::Rows { rows, cols, values } => if 0 <= i < rows && 0 <= j < cols {
            Some(values[i * cols + j])
        } else {
            None
        },
        Expr::Filled { rows, cols, value } => if 0 <= i < rows && 0 <= j < cols {
            Some(value)
        } else {
            None
        },
        Expr::Transpose(a) => known_entry(*a, j, i),
        _ => None,
    }
}

/// The entries of a matrix, held by nalgebra.
#[derive(Debug)]
#[verifier::external_body]
#[verifier::reject_recursive_types(T)]
pub struct Dense<T> {
    m: nalgebra::DMatrix<T>,
}

/// A dense matrix of `rows() x cols()` entries; a vector is a matrix of one
/// column. Every constructor sets `rows` and `cols` to the shape of `data`
/// and `expr` to the expression whose value `data` holds.
#[verifier::reject_recursive_types(T)]
pub struct Mat<T> {
    rows: usize,
    cols: usize,
    data: Dense<T>,
    expr: Ghost<Expr<T>>,
}

impl<T> View for Mat<T> {
    type V = Expr<T>;

    closed spec fn view(&self) -> Expr<T> {
        self.expr@
    }
}

impl<T> Mat<T> {
    /// Number of rows.
    pub closed spec fn rows(&self) -> nat {
        self.rows as nat
    }

    /// Number of columns.
    pub closed spec fn cols(&self) -> nat {
        self.cols as nat
    }

    /// The matrix has `r` rows and `c` columns.
    pub open spec fn has_shape(&self, r: nat, c: nat) -> bool {
        self.rows() == r && self.cols() == c
    }

    /// Number of rows.
    pub fn nrows(&self) -> (r: usize)
        ensures
            r == self.rows(),
    {
        self.rows
    }

    /// Number of columns.
    pub fn ncols(&self) -> (r: usize)
        ensures
            r == self.cols(),
    {
        self.cols
    }
}

impl<T: RealField + Scalar> Mat<T> {
    /// Relies on nalgebra's `DMatrix::zeros`: `rows x cols` zeros.
    #[verifier::external_body]
    fn zeros_data(rows: usize, cols: usize) -> Dense<T>
        requires
            rows * cols <= usize::MAX,
    {
        Dense { m: nalgebra::DMatrix::zeros(rows, cols) }
    }

    /// Relies on nalgebra's `DMatrix::identity`: the `n x n` identity.
    #[verifier::external_body]
    fn identity_data(n: usize) -> Dense<T>
        requires
            n * n <= usize::MAX,
    {
        Dense { m: nalgebra::DMatrix::identity(n, n) }
    }

    /// Relies on nalgebra's `DMatrix::from_element`: `rows x cols` copies of
    /// `value`.
    #[verifier::external_body]
    fn filled_data(rows: usize, cols: usize, value: T) -> Dense<T>
        requires
            rows * cols <= usize::MAX,
    {
        Dense { m: nalgebra::DMatrix::from_element(rows, cols, value) }
    }

    /// Relies on nalgebra's `DMatrix::from_row_slice`, which panics unless the
    /// slice holds `rows * cols` values.
    #[verifier::external_body]
    fn row_slice_data(rows: usize, cols: usize, values: &[T]) -> Dense<T>
        requires
            values@.len() == rows * cols,
    {
        Dense { m: nalgebra::DMatrix::from_row_slice(rows, cols, values) }
    }

    /// Relies on nalgebra's indexing by `(row, column)`, which panics out of
    /// range and hands out the stored entry: the one that the row slice or
    /// the filling value put there, also after a transpose.
    #[verifier::external_body]
    fn entry(&self, i: usize, j: usize) -> (r: T)
        requires
            i < self.rows(),
            j < self.cols(),
        ensures
            known_entry(self@, i as int, j as int) matches Some(v) ==> r == v,
    {
        self.data.m[(i, j)]
    }

    /// Relies on `Clone` of nalgebra's `DMatrix`: an equal matrix.
    #[verifier::external_body]
    fn cloned_data(&self) -> (r: Dense<T>)
        ensures
            r == self.data,
    {
        Dense { m: self.data.m.clone() }
    }

    /// Relies on nalgebra's matrix product, which panics unless the inner
    /// dimensions agree.
    #[verifier::external_body]
    fn product_data(&self, o: &Mat<T>) -> Dense<T>
        requires
            self.cols() == o.rows(),
    {
        Dense { m: &self.data.m * &o.data.m }
    }

    /// Relies on nalgebra's matrix sum, which panics unless the shapes agree.
    #[verifier::external_body]
    fn sum_data(&self, o: &Mat<T>) -> Dense<T>
        requires
            o.has_shape(self.rows(), self.cols()),
    {
        Dense { m: &self.data.m + &o.data.m }
    }

    /// Relies on nalgebra's matrix difference, which panics unless the shapes
    /// agree.
    #[verifier::external_body]
    fn difference_data(&self, o: &Mat<T>) -> Dense<T>
        requires
            o.has_shape(self.rows(), self.cols()),
    {
        Dense { m: &self.data.m - &o.data.m }
    }

    /// Relies on nalgebra's `transpose`.
    #[verifier::external_body]
    fn transposed_data(&self) -> Dense<T> {
        Dense { m: self.data.m.transpose() }
    }

    /// Relies on nalgebra's product of a matrix by a scalar.
    #[verifier::external_body]
    fn scaled_data(&self, s: T) -> Dense<T> {
        Dense { m: &self.data.m * s }
    }

    /// Relies on nalgebra's `try_inverse`, which panics on a matrix that is
    /// not square and gives `None` when the matrix cannot be inverted.
    #[verifier::external_body]
    fn inverse_data(&self) -> Option<Dense<T>>
        requires
            self.rows() == self.cols(),
    {
        match self.data.m.clone().try_inverse() {
            Some(m) => Some(Dense { m }),
            None => None,
        }
    }

    /// The `rows x cols` matrix of zeros.
    pub fn zeros(rows: usize, cols: usize) -> (r: Mat<T>)
        requires
            rows * cols <= usize::MAX,
        ensures
            r.has_shape(rows as nat, cols as nat),
            r@ == (Expr::<T>::Zeros { rows: rows as nat, cols: cols as nat }),
    {
        Mat {
            rows,
            cols,
            data: Self::zeros_data(rows, cols),
            expr: Ghost(Expr::Zeros { rows: rows as nat, cols: cols as nat }),
        }
    }

    /// The `n x n` identity matrix.
    pub fn identity(n: usize) -> (r: Mat<T>)
        requires
            n * n <= usize::MAX,
        ensures
            r.has_shape(n as nat, n as nat),
            r@ == (Expr::<T>::Identity { n: n as nat }),
    {
        Mat { rows: n, cols: n, data: Self::identity_data(n), expr: Ghost(Expr::Identity { n: n as nat }) }
    }

    /// The `rows x cols` matrix whose entries all equal `value`.
    pub fn from_element(rows: usize, cols: usize, value: T) -> (r: Mat<T>)
        requires
            rows * cols <= usize::MAX,
        ensures
            r.has_shape(rows as nat, cols as nat),
            r@ == (Expr::Filled { rows: rows as nat, cols: cols as nat, value }),
    {
        Mat {
            rows,
            cols,
            data: Self::filled_data(rows, cols, value),
            expr: Ghost(Expr::Filled { rows: rows as nat, cols: cols as nat, value }),
        }
    }

    /// The `rows x cols` matrix whose entries `values` lists row by row.
    pub fn from_row_slice(rows: usize, cols: usize, values: &[T]) -> (r: Mat<T>)
        requires
            values@.len() == rows * cols,
        ensures
            r.has_shape(rows as nat, cols as nat),
            r@ == (Expr::Rows { rows: rows as nat, cols: cols as nat, values: values@ }),
    {
        Mat {
            rows,
            cols,
            data: Self::row_slice_data(rows, cols, values),
            expr: Ghost(Expr::Rows { rows: rows as nat, cols: cols as nat, values: values@ }),
        }
    }

    /// The entry in row `i` and column `j`.
    pub fn get(&self, i: usize, j: usize) -> (r: T)
        requires
            i < self.rows(),
            j < self.cols(),
        ensures
            known_entry(self@, i as int, j as int) matches Some(v) ==> r == v,
    {
        self.entry(i, j)
    }

    /// A copy of the matrix.
    pub fn duplicate(&self) -> (r: Mat<T>)
        ensures
            r == *self,
    {
        Mat { rows: self.rows, cols: self.cols, data: self.cloned_data(), expr: self.expr }
    }

    /// The product `self * o`.
    pub fn product(&self, o: &Mat<T>) -> (r: Mat<T>)
        requires
            self.cols() == o.rows(),
        ensures
            r.has_shape(self.rows(), o.cols()),
            r@ == mat_mul(self@, o@),
    {
        Mat {
            rows: self.rows,
            cols: o.cols,
            data: self.product_data(o),
            expr: Ghost(mat_mul(self@, o@)),
        }
    }

    /// The sum `self + o`.
    pub fn sum(&self, o: &Mat<T>) -> (r: Mat<T>)
        requires
            o.has_shape(self.rows(), self.cols()),
        ensures
            r.has_shape(self.rows(), self.cols()),
            r@ == mat_add(self@, o@),
    {
        Mat { rows: self.rows, cols: self.cols, data: self.sum_data(o), expr: Ghost(mat_add(self@, o@)) }
    }

    /// The difference `self - o`.
    pub fn difference(&self, o: &Mat<T>) -> (r: Mat<T>)
        requires
            o.has_shape(self.rows(), self.cols()),
        ensures
            r.has_shape(self.rows(), self.cols()),
            r@ == mat_sub(self@, o@),
    {
        Mat {
            rows: self.rows,
            cols: self.cols,
            data: self.difference_data(o),
            expr: Ghost(mat_sub(self@, o@)),
        }
    }

    /// The transpose.
    pub fn transposed(&self) -> (r: Mat<T>)
        ensures
            r.has_shape(self.cols(), self.rows()),
            r@ == mat_tr(self@),
    {
        Mat { rows: self.cols, cols: self.rows, data: self.transposed_data(), expr: Ghost(mat_tr(self@)) }
    }

    /// Every entry multiplied by `s`.
    pub fn scaled(&self, s: T) -> (r: Mat<T>)
        ensures
            r.has_shape(self.rows(), self.cols()),
            r@ == mat_scale(self@, s),
    {
        Mat {
            rows: self.rows,
            cols: self.cols,
            data: self.scaled_data(s),
            expr: Ghost(mat_scale(self@, s)),
        }
    }

    /// The inverse of a square matrix, or `None` where it has none.
    pub fn try_inverse(&self) -> (r: Option<Mat<T>>)
        requires
            self.rows() == self.cols(),
        ensures
            r matches Some(inv) ==> inv.has_shape(self.rows(), self.cols()) && inv@ == mat_inv(self@),
    {
        match self.inverse_data() {
            Some(data) => Some(Mat { rows: self.rows, cols: self.cols, data, expr: Ghost(mat_inv(self@)) }),
            None => None,
        }
    }
}

} // verus!
