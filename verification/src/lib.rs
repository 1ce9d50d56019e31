//! Statically shaped matrices with lazy operators.
//!
//! A `MatGen` is a leaf matrix that owns a flat row-major buffer. The
//! operators — `Product`, `Sum`, `Difference` and `Transpose` — build an
//! expression tree over matrix-like operands and perform no computation of
//! their own: an element is computed only when `get` is called on the tree,
//! and a whole result matrix is written only by an explicit `eval`.
//!
//! Shape compatibility is checked once, when a node is constructed; the
//! constructors return a [`MatError`] on conflicting dimensions, and no
//! element of a tree is ever computed before its shapes have been validated.

use vstd::prelude::*;

pub mod laws;
pub mod traits;

verus! {

use crate::traits::{LazyMatrix, UnsafeGet, Zero};

/// The errors raised when matrices of conflicting dimensions are combined
/// or a buffer does not match its declared shape.
#[derive(Clone, Copy, Debug, PartialEq, Eq, Structural)]
pub enum MatError {
    /// Two operands were combined whose extents do not agree.
    ShapeMismatch { left_rows: usize, left_cols: usize, right_rows: usize, right_cols: usize },
    /// A flat buffer's length is not the product of the declared extents.
    SizeMismatch { rows: usize, cols: usize, len: usize },
    /// A row of a grid does not have as many elements as the first row.
    RaggedRow { row: usize, expected: usize, found: usize },
}

/// Row-major offsets of in-range positions stay within the buffer.
pub proof fn lemma_row_major_index(r: int, c: int, nrows: int, ncols: int)
    requires
        0 <= r < nrows,
        0 <= c < ncols,
    ensures
        0 <= r * ncols + c < nrows * ncols,
{
    assert(0 <= r * ncols + c < nrows * ncols) by (nonlinear_arith)
        requires
            0 <= r < nrows,
            0 <= c < ncols,
    ;
}

/// Distinct in-range positions have distinct row-major offsets.
pub proof fn lemma_row_major_distinct(ncols: int, r1: int, c1: int, r2: int, c2: int)
    requires
        0 <= r1,
        0 <= r2,
        0 <= c1 < ncols,
        0 <= c2 < ncols,
        r1 != r2 || c1 != c2,
    ensures
        r1 * ncols + c1 != r2 * ncols + c2,
{
    assert(r1 * ncols + c1 != r2 * ncols + c2) by (nonlinear_arith)
        requires
            0 <= r1,
            0 <= r2,
            0 <= c1 < ncols,
            0 <= c2 < ncols,
            r1 != r2 || c1 != c2,
    ;
}

/// The product of the element at `(i, k)` of `l` and the element at `(k, j)`
/// of `r`: one term of the dot product behind a `Product` cell.
pub open spec fn prod_term<L: UnsafeGet, R: UnsafeGet>(
    l: &L,
    r: &R,
    i: int,
    j: int,
    k: int,
) -> int {
    l.cell(i, k) * r.cell(k, j)
}

/// The dot product of the first `k` elements of row `i` of `l` with the
/// first `k` elements of column `j` of `r`.
pub open spec fn dot<L: UnsafeGet, R: UnsafeGet>(l: &L, r: &R, i: int, j: int, k: int) -> int
    decreases k,
{
    if k <= 0 {
        0
    } else {
        dot(l, r, i, j, k - 1) + prod_term(l, r, i, j, k - 1)
    }
}

/// The product of two matrices: a lazy node whose element at `(r, c)` is the
/// dot product of row `r` of the left operand and column `c` of the right
/// operand. The fields are views for composition; mutating them directly
/// voids the shape validation done by [`Product::new`].
#[derive(Clone, Copy, Debug)]
pub struct Product<L, R> {
    /// Left operand, of shape `rows × shared`.
    pub l: L,
    /// Right operand, of shape `shared × cols`.
    pub r: R,
}

/// The sum of two matrices of one shape: a lazy node whose elements are the
/// elementwise sums of its operands' elements.
#[derive(Clone, Copy, Debug)]
pub struct Sum<L, R> {
    /// Left operand.
    pub l: L,
    /// Right operand, of the same shape.
    pub r: R,
}

/// The difference of two matrices of one shape: a lazy node whose elements
/// are the elementwise differences of its operands' elements.
#[derive(Clone, Copy, Debug)]
pub struct Difference<L, R> {
    /// Left operand (the minuend).
    pub l: L,
    /// Right operand (the subtrahend), of the same shape.
    pub r: R,
}

/// The transpose of a matrix: a lazy node with extents and access indices
/// swapped; the operand's data is not copied.
#[derive(Clone, Copy, Debug)]
pub struct Transpose<M> {
    /// The wrapped operand.
    pub m: M,
}

impl<L: LazyMatrix, R: LazyMatrix> UnsafeGet for Product<L, R> {
    open spec fn wf(&self) -> bool {
        &&& self.l.wf()
        &&& self.r.wf()
        &&& self.l.cols() == self.r.rows()
    }

    open spec fn rows(&self) -> nat {
        self.l.rows()
    }

    open spec fn cols(&self) -> nat {
        self.r.cols()
    }

    open spec fn cell(&self, r: int, c: int) -> int {
        dot(&self.l, &self.r, r, c, self.l.cols() as int)
    }

    open spec fn fits(&self) -> bool {
        &&& self.l.fits()
        &&& self.r.fits()
        &&& forall|i: int, j: int, k: int|
            0 <= i < self.l.rows() && 0 <= j < self.r.cols() && 0 <= k <= self.l.cols()
                ==> i64::MIN as int <= #[trigger] dot(&self.l, &self.r, i, j, k)
                <= i64::MAX as int
        &&& forall|i: int, j: int, k: int|
            0 <= i < self.l.rows() && 0 <= j < self.r.cols() && 0 <= k < self.l.cols()
                ==> i64::MIN as int <= #[trigger] prod_term(&self.l, &self.r, i, j, k)
                <= i64::MAX as int
    }

    fn unsafe_get(&self, r: usize, c: usize) -> (v: i64) {
        let mut sum = i64::zero();
        let n = self.l.ncols();
        let mut k: usize = 0;
        while k < n
            invariant
                n == self.l.cols(),
                k <= n,
                self.wf(),
                self.fits(),
                r < self.rows(),
                c < self.cols(),
                sum as int == dot(&self.l, &self.r, r as int, c as int, k as int),
            decreases n - k,
        {
            let a = self.l.unsafe_get(r, k);
            let b = self.r.unsafe_get(k, c);
            proof {
                assert((a as int) * (b as int) == prod_term(
                    &self.l,
                    &self.r,
                    r as int,
                    c as int,
                    k as int,
                ));
                assert(dot(&self.l, &self.r, r as int, c as int, k as int + 1) == dot(
                    &self.l,
                    &self.r,
                    r as int,
                    c as int,
                    k as int,
                ) + prod_term(&self.l, &self.r, r as int, c as int, k as int));
            }
            sum = sum + a * b;
            k += 1;
        }
        sum
    }
}

impl<L: LazyMatrix, R: LazyMatrix> LazyMatrix for Product<L, R> {
    fn nrows(&self) -> (n: usize) {
        self.l.nrows()
    }

    fn ncols(&self) -> (n: usize) {
        self.r.ncols()
    }
}

impl<L: LazyMatrix, R: LazyMatrix> Product<L, R> {
    /// Combines two operands into their lazy product. Fails, before any
    /// element is computed, when the left operand's column count is not the
    /// right operand's row count, reporting the conflicting dimensions.
    pub fn new(l: L, r: R) -> (p: Result<Product<L, R>, MatError>)
        requires
            l.wf(),
            r.wf(),
        ensures
            p is Ok <==> l.cols() == r.rows(),
            p matches Ok(q) ==> q == (Product { l, r }),
            p matches Err(e) ==> e == (MatError::ShapeMismatch {
                left_rows: l.rows() as usize,
                left_cols: l.cols() as usize,
                right_rows: r.rows() as usize,
                right_cols: r.cols() as usize,
            }),
    {
        if l.ncols() == r.nrows() {
            Ok(Product { l, r })
        } else {
            Err(MatError::ShapeMismatch {
                left_rows: l.nrows(),
                left_cols: l.ncols(),
                right_rows: r.nrows(),
                right_cols: r.ncols(),
            })
        }
    }
}

impl<L: LazyMatrix, R: LazyMatrix> UnsafeGet for Sum<L, R> {
    open spec fn wf(&self) -> bool {
        &&& self.l.wf()
        &&& self.r.wf()
        &&& self.l.rows() == self.r.rows()
        &&& self.l.cols() == self.r.cols()
    }

    open spec fn rows(&self) -> nat {
        self.l.rows()
    }

    open spec fn cols(&self) -> nat {
        self.l.cols()
    }

    open spec fn cell(&self, r: int, c: int) -> int {
        self.l.cell(r, c) + self.r.cell(r, c)
    }

    open spec fn fits(&self) -> bool {
        &&& self.l.fits()
        &&& self.r.fits()
        &&& forall|i: int, j: int|
            0 <= i < self.rows() && 0 <= j < self.cols() ==> i64::MIN as int
                <= #[trigger] self.cell(i, j) <= i64::MAX as int
    }

    fn unsafe_get(&self, r: usize, c: usize) -> (v: i64) {
        let a = self.l.unsafe_get(r, c);
        let b = self.r.unsafe_get(r, c);
        proof {
            assert(a as int + b as int == self.cell(r as int, c as int));
        }
        a + b
    }
}

impl<L: LazyMatrix, R: LazyMatrix> LazyMatrix for Sum<L, R> {
    fn nrows(&self) -> (n: usize) {
        self.l.nrows()
    }

    fn ncols(&self) -> (n: usize) {
        self.l.ncols()
    }
}

impl<L: LazyMatrix, R: LazyMatrix> Sum<L, R> {
    /// Combines two operands into their lazy sum. Fails, before any element
    /// is computed, when the operands' extents differ, reporting the
    /// conflicting dimensions.
    pub fn new(l: L, r: R) -> (p: Result<Sum<L, R>, MatError>)
        requires
            l.wf(),
            r.wf(),
        ensures
            p is Ok <==> l.rows() == r.rows() && l.cols() == r.cols(),
            p matches Ok(q) ==> q == (Sum { l, r }),
            p matches Err(e) ==> e == (MatError::ShapeMismatch {
                left_rows: l.rows() as usize,
                left_cols: l.cols() as usize,
                right_rows: r.rows() as usize,
                right_cols: r.cols() as usize,
            }),
    {
        if l.nrows() == r.nrows() && l.ncols() == r.ncols() {
            Ok(Sum { l, r })
        } else {
            Err(MatError::ShapeMismatch {
                left_rows: l.nrows(),
                left_cols: l.ncols(),
                right_rows: r.nrows(),
                right_cols: r.ncols(),
            })
        }
    }
}

impl<L: LazyMatrix, R: LazyMatrix> UnsafeGet for Difference<L, R> {
    open spec fn wf(&self) -> bool {
        &&& self.l.wf()
        &&& self.r.wf()
        &&& self.l.rows() == self.r.rows()
        &&& self.l.cols() == self.r.cols()
    }

    open spec fn rows(&self) -> nat {
        self.l.rows()
    }

    open spec fn cols(&self) -> nat {
        self.l.cols()
    }

    open spec fn cell(&self, r: int, c: int) -> int {
        self.l.cell(r, c) - self.r.cell(r, c)
    }

    open spec fn fits(&self) -> bool {
        &&& self.l.fits()
        &&& self.r.fits()
        &&& forall|i: int, j: int|
            0 <= i < self.rows() && 0 <= j < self.cols() ==> i64::MIN as int
                <= #[trigger] self.cell(i, j) <= i64::MAX as int
    }

    fn unsafe_get(&self, r: usize, c: usize) -> (v: i64) {
        let a = self.l.unsafe_get(r, c);
        let b = self.r.unsafe_get(r, c);
        proof {
            assert(a as int - b as int == self.cell(r as int, c as int));
        }
        a - b
    }
}

impl<L: LazyMatrix, R: LazyMatrix> LazyMatrix for Difference<L, R> {
    fn nrows(&self) -> (n: usize) {
        self.l.nrows()
    }

    fn ncols(&self) -> (n: usize) {
        self.l.ncols()
    }
}

impl<L: LazyMatrix, R: LazyMatrix> Difference<L, R> {
    /// Combines two operands into their lazy difference. Fails, before any
    /// element is computed, when the operands' extents differ, reporting the
    /// conflicting dimensions.
    pub fn new(l: L, r: R) -> (p: Result<Difference<L, R>, MatError>)
        requires
            l.wf(),
            r.wf(),
        ensures
            p is Ok <==> l.rows() == r.rows() && l.cols() == r.cols(),
            p matches Ok(q) ==> q == (Difference { l, r }),
            p matches Err(e) ==> e == (MatError::ShapeMismatch {
                left_rows: l.rows() as usize,
                left_cols: l.cols() as usize,
                right_rows: r.rows() as usize,
                right_cols: r.cols() as usize,
            }),
    {
        if l.nrows() == r.nrows() && l.ncols() == r.ncols() {
            Ok(Difference { l, r })
        } else {
            Err(MatError::ShapeMismatch {
                left_rows: l.nrows(),
                left_cols: l.ncols(),
                right_rows: r.nrows(),
                right_cols: r.ncols(),
            })
        }
    }
}

impl<M: UnsafeGet> UnsafeGet for Transpose<M> {
    open spec fn wf(&self) -> bool {
        self.m.wf()
    }

    open spec fn rows(&self) -> nat {
        self.m.cols()
    }

    open spec fn cols(&self) -> nat {
        self.m.rows()
    }

    open spec fn cell(&self, r: int, c: int) -> int {
        self.m.cell(c, r)
    }

    open spec fn fits(&self) -> bool {
        self.m.fits()
    }

    fn unsafe_get(&self, r: usize, c: usize) -> (v: i64) {
        self.m.unsafe_get(c, r)
    }
}

impl<M: LazyMatrix> LazyMatrix for Transpose<M> {
    fn nrows(&self) -> (n: usize) {
        self.m.ncols()
    }

    fn ncols(&self) -> (n: usize) {
        self.m.nrows()
    }
}

/// Materializes a tree into a fresh storage matrix: the eager counterpart of
/// further composition. The result owns its elements and serves as a leaf
/// for later expressions.
pub fn to_mat<M: LazyMatrix>(m: &M) -> (out: MatGen)
    requires
        m.wf(),
        m.fits(),
        m.rows() * m.cols() <= usize::MAX,
    ensures
        out.wf(),
        out.fits(),
        out.rows() == m.rows(),
        out.cols() == m.cols(),
        forall|i: int, j: int|
            0 <= i < m.rows() && 0 <= j < m.cols() ==> out.cell(i, j) == m.cell(i, j),
{
    let nr = m.nrows();
    let nc = m.ncols();
    let mut out = MatGen::zeros(nr, nc);
    m.eval(&mut out);
    out
}

/// Statically shaped (row major order) matrix: the leaf node that owns
/// element data. Invariant: the buffer holds exactly `rows × cols` elements
/// and is never resized.
#[derive(Clone, Debug)]
pub struct MatGen {
    nrows: usize,
    ncols: usize,
    data: Vec<i64>,
}

impl UnsafeGet for MatGen {
    closed spec fn wf(&self) -> bool {
        self.data@.len() == self.nrows * self.ncols
    }

    closed spec fn rows(&self) -> nat {
        self.nrows as nat
    }

    closed spec fn cols(&self) -> nat {
        self.ncols as nat
    }

    closed spec fn cell(&self, r: int, c: int) -> int {
        self.data@[r * self.ncols + c] as int
    }

    closed spec fn fits(&self) -> bool {
        true
    }

    fn unsafe_get(&self, r: usize, c: usize) -> (v: i64) {
        let len = self.data.len();
        proof {
            lemma_row_major_index(r as int, c as int, self.nrows as int, self.ncols as int);
        }
        self.data[r * self.ncols + c]
    }
}

impl LazyMatrix for MatGen {
    fn nrows(&self) -> (n: usize) {
        self.nrows
    }

    fn ncols(&self) -> (n: usize) {
        self.ncols
    }
}

impl MatGen {
    /// Writes `v` at row `r`, column `c`: the only mutation a `MatGen`
    /// supports. Every other element keeps its value.
    pub fn set(&mut self, r: usize, c: usize, v: i64)
        requires
            old(self).wf(),
            r < old(self).rows(),
            c < old(self).cols(),
        ensures
            final(self).wf(),
            final(self).fits(),
            final(self).rows() == old(self).rows(),
            final(self).cols() == old(self).cols(),
            final(self).cell(r as int, c as int) == v,
            forall|i: int, j: int|
                0 <= i < old(self).rows() && 0 <= j < old(self).cols() && (i != r || j != c)
                    ==> final(self).cell(i, j) == old(self).cell(i, j),
    {
        let len = self.data.len();
        proof {
            lemma_row_major_index(r as int, c as int, self.nrows as int, self.ncols as int);
        }
        let idx = r * self.ncols + c;
        self.data.set(idx, v);
        proof {
            assert forall|i: int, j: int|
                0 <= i < old(self).rows() && 0 <= j < old(self).cols() && (i != r || j != c)
                    implies self.cell(i, j) == old(self).cell(i, j) by {
                lemma_row_major_distinct(self.ncols as int, i, j, r as int, c as int);
                lemma_row_major_index(i, j, self.nrows as int, self.ncols as int);
            }
        }
    }

    /// A freshly default-constructed `rows × cols` matrix: every element is
    /// the element type's zero. The shape must describe a buffer that the
    /// machine can hold.
    pub fn zeros(nrows: usize, ncols: usize) -> (m: MatGen)
        requires
            nrows * ncols <= usize::MAX,
        ensures
            m.wf(),
            m.fits(),
            m.rows() == nrows,
            m.cols() == ncols,
            forall|i: int, j: int| 0 <= i < nrows && 0 <= j < ncols ==> m.cell(i, j) == 0,
    {
        let mut data: Vec<i64> = Vec::new();
        let mut k: usize = 0;
        proof {
            assert((nrows as int) * (ncols as int) >= 0) by (nonlinear_arith)
                requires
                    nrows >= 0,
                    ncols >= 0,
            ;
        }
        let total: usize = nrows * ncols;
        while k < total
            invariant
                k <= total,
                data@.len() == k,
                forall|t: int| 0 <= t < k ==> data@[t] == i64::zero_spec(),
            decreases total - k,
        {
            data.push(i64::zero());
            k += 1;
        }
        let m = MatGen { nrows, ncols, data };
        proof {
            assert forall|i: int, j: int|
                0 <= i < nrows && 0 <= j < ncols implies m.cell(i, j) == 0 by {
                lemma_row_major_index(i, j, nrows as int, ncols as int);
            }
        }
        m
    }

    /// Builds a matrix from a rectangular grid of rows, flattened in
    /// row-major order. Fails on the first row whose length differs from the
    /// first row's, reporting that row and both lengths.
    pub fn from_rows(grid: &Vec<Vec<i64>>) -> (m: Result<MatGen, MatError>)
        ensures
            m is Ok <==> (forall|i: int|
                0 <= i < grid@.len() ==> #[trigger] grid@[i]@.len() == grid@[0]@.len()),
            m matches Ok(mat) ==> {
                &&& mat.wf()
                &&& mat.fits()
                &&& mat.rows() == grid@.len()
                &&& mat.cols() == (if grid@.len() > 0 {
                    grid@[0]@.len()
                } else {
                    0
                })
                &&& forall|i: int, j: int|
                    0 <= i < mat.rows() && 0 <= j < mat.cols() ==> mat.cell(i, j) == grid@[i]@[j]
            },
            m matches Err(e) ==> {
                &&& e matches MatError::RaggedRow { row, expected, found }
                &&& 0 <= (row as int) < grid@.len()
                &&& expected == grid@[0]@.len()
                &&& found == grid@[row as int]@.len()
                &&& found != expected
                &&& forall|i: int| 0 <= i < row ==> #[trigger] grid@[i]@.len() == grid@[0]@.len()
            },
    {
        let nrows = grid.len();
        let ncols = if nrows > 0 {
            grid[0].len()
        } else {
            0
        };
        let mut i: usize = 0;
        while i < nrows
            invariant
                i <= nrows,
                nrows == grid@.len(),
                nrows > 0 ==> ncols == grid@[0]@.len(),
                nrows == 0 ==> ncols == 0,
                forall|t: int| 0 <= t < i ==> #[trigger] grid@[t]@.len() == ncols,
            decreases nrows - i,
        {
            let found = grid[i].len();
            if found != ncols {
                return Err(MatError::RaggedRow { row: i, expected: ncols, found });
            }
            i += 1;
        }
        let mut data: Vec<i64> = Vec::new();
        let mut r: usize = 0;
        while r < nrows
            invariant
                r <= nrows,
                nrows == grid@.len(),
                nrows > 0 ==> ncols == grid@[0]@.len(),
                nrows == 0 ==> ncols == 0,
                forall|t: int| 0 <= t < nrows ==> #[trigger] grid@[t]@.len() == ncols,
                data@.len() == r * ncols,
                forall|i2: int, j2: int|
                    0 <= i2 < r && 0 <= j2 < ncols ==> data@[i2 * ncols + j2] == grid@[i2]@[j2],
            decreases nrows - r,
        {
            let mut c: usize = 0;
            while c < ncols
                invariant
                    r < nrows,
                    c <= ncols,
                    nrows == grid@.len(),
                    forall|t: int| 0 <= t < nrows ==> #[trigger] grid@[t]@.len() == ncols,
                    data@.len() == r * ncols + c,
                    forall|i2: int, j2: int|
                        0 <= i2 < r && 0 <= j2 < ncols ==> data@[i2 * ncols + j2] == grid@[i2]@[j2],
                    forall|j2: int|
                        0 <= j2 < c ==> data@[(r as int) * ncols + j2] == grid@[r as int]@[j2],
                decreases ncols - c,
            {
                data.push(grid[r][c]);
                proof {
                    assert forall|i2: int, j2: int|
                        0 <= i2 < r && 0 <= j2 < ncols implies data@[i2 * ncols + j2]
                        == grid@[i2]@[j2] by {
                        lemma_row_major_index(i2, j2, r as int, ncols as int);
                    }
                }
                c += 1;
            }
            proof {
                assert((r as int + 1) * (ncols as int) == (r as int) * (ncols as int)
                    + ncols as int) by (nonlinear_arith);
            }
            r += 1;
        }
        let m = MatGen { nrows, ncols, data };
        proof {
            assert(data@.len() == nrows * ncols);
            assert forall|i2: int, j2: int|
                0 <= i2 < nrows && 0 <= j2 < ncols implies m.cell(i2, j2) == grid@[i2]@[j2] by {
                lemma_row_major_index(i2, j2, nrows as int, ncols as int);
            }
        }
        Ok(m)
    }

    /// Wraps a flat row-major buffer as a `rows × cols` matrix. Fails, and
    /// touches nothing, when the buffer's length is not `rows × cols`.
    pub fn new(nrows: usize, ncols: usize, data: Vec<i64>) -> (m: Result<MatGen, MatError>)
        ensures
            m is Ok <==> data@.len() == nrows * ncols,
            m matches Ok(mat) ==> {
                &&& mat.wf()
                &&& mat.fits()
                &&& mat.rows() == nrows
                &&& mat.cols() == ncols
                &&& forall|i: int, j: int|
                    0 <= i < nrows && 0 <= j < ncols ==> mat.cell(i, j) == data@[i * ncols + j]
            },
            m matches Err(e) ==> e == (MatError::SizeMismatch {
                rows: nrows,
                cols: ncols,
                len: data@.len() as usize,
            }),
    {
        let len = data.len();
        assert((nrows as u128) * (ncols as u128) <= u128::MAX) by (nonlinear_arith)
            requires
                nrows <= u64::MAX,
                ncols <= u64::MAX,
        ;
        if (len as u128) == (nrows as u128) * (ncols as u128) {
            Ok(MatGen { nrows, ncols, data })
        } else {
            Err(MatError::SizeMismatch { rows: nrows, cols: ncols, len })
        }
    }
}

} // verus!
