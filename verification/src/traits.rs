//! Capability traits shared by every matrix-like value.

use vstd::prelude::*;

verus! {

use crate::MatGen;

/// Unchecked element access.
///
/// A matrix-like value knows its row and column extents and can hand out the
/// element at an in-range position. The spec functions give the mathematical
/// model: `rows`/`cols` are the extents, `cell(r, c)` is the value at a
/// position, `wf` is the value's structural invariant (buffer length, operand
/// shape compatibility), and `fits` says that every cell of the value — and
/// every intermediate of its evaluation — stays within `i64`.
pub trait UnsafeGet: Sized {
    /// Structural invariant: buffers have the right length and operand
    /// shapes are compatible.
    spec fn wf(&self) -> bool;

    /// Row extent.
    spec fn rows(&self) -> nat;

    /// Column extent.
    spec fn cols(&self) -> nat;

    /// The mathematical value of the element at row `r`, column `c`.
    spec fn cell(&self, r: int, c: int) -> int;

    /// Every cell, and every intermediate of evaluating one, lies within
    /// the `i64` range.
    spec fn fits(&self) -> bool;

    /// Returns the element at row `r` and column `c` without bounds checks;
    /// the caller guarantees that the position is in range.
    fn unsafe_get(&self, r: usize, c: usize) -> (v: i64)
        requires
            self.wf(),
            self.fits(),
            r < self.rows(),
            c < self.cols(),
        ensures
            v as int == self.cell(r as int, c as int),
    ;
}

impl<M: UnsafeGet> UnsafeGet for &M {
    open spec fn wf(&self) -> bool {
        (**self).wf()
    }

    open spec fn rows(&self) -> nat {
        (**self).rows()
    }

    open spec fn cols(&self) -> nat {
        (**self).cols()
    }

    open spec fn cell(&self, r: int, c: int) -> int {
        (**self).cell(r, c)
    }

    open spec fn fits(&self) -> bool {
        (**self).fits()
    }

    fn unsafe_get(&self, r: usize, c: usize) -> (v: i64) {
        (**self).unsafe_get(r, c)
    }
}

/// A matrix-like value: safe element access, extent accessors and
/// materialization into a concrete `MatGen`, derived from [`UnsafeGet`].
pub trait LazyMatrix: UnsafeGet {
    /// Returns the number of rows of the matrix.
    fn nrows(&self) -> (n: usize)
        requires
            self.wf(),
        ensures
            n == self.rows(),
    ;

    /// Returns the number of columns of the matrix.
    fn ncols(&self) -> (n: usize)
        requires
            self.wf(),
        ensures
            n == self.cols(),
    ;

    /// Returns the size of the matrix as `(rows, columns)`.
    fn size(&self) -> (s: (usize, usize))
        requires
            self.wf(),
        ensures
            s.0 == self.rows(),
            s.1 == self.cols(),
    {
        (self.nrows(), self.ncols())
    }

    /// Returns the element at row `r` and column `c`. The position must be
    /// in range: an out-of-range access is a programming error, which this
    /// contract rules out up front.
    fn get(&self, r: usize, c: usize) -> (v: i64)
        requires
            self.wf(),
            self.fits(),
            r < self.rows(),
            c < self.cols(),
        ensures
            v as int == self.cell(r as int, c as int),
    {
        self.unsafe_get(r, c)
    }

    /// Returns the element at row `r` and column `c`, or `None` exactly when
    /// the position is out of range: the total counterpart of [`Self::get`]
    /// for positions that have not been validated.
    fn checked_get(&self, r: usize, c: usize) -> (v: Option<i64>)
        requires
            self.wf(),
            self.fits(),
        ensures
            v is Some <==> r < self.rows() && c < self.cols(),
            v matches Some(x) ==> x as int == self.cell(r as int, c as int),
    {
        if r < self.nrows() && c < self.ncols() {
            Some(self.get(r, c))
        } else {
            None
        }
    }

    /// Materializes the tree: writes every element of `self` into `target`,
    /// which must have the same shape, visiting the cells in row-major order
    /// through the checked `get` path.
    fn eval(&self, target: &mut MatGen)
        requires
            self.wf(),
            self.fits(),
            old(target).wf(),
            old(target).rows() == self.rows(),
            old(target).cols() == self.cols(),
        ensures
            final(target).wf(),
            final(target).fits(),
            final(target).rows() == self.rows(),
            final(target).cols() == self.cols(),
            forall|i: int, j: int|
                0 <= i < self.rows() && 0 <= j < self.cols() ==> final(target).cell(i, j)
                    == self.cell(i, j),
    {
        let nr = self.nrows();
        let nc = self.ncols();
        let mut r: usize = 0;
        while r < nr
            invariant
                nr == self.rows(),
                nc == self.cols(),
                r <= nr,
                self.wf(),
                self.fits(),
                target.wf(),
                target.rows() == self.rows(),
                target.cols() == self.cols(),
                forall|i: int, j: int|
                    0 <= i < r && 0 <= j < nc ==> target.cell(i, j) == self.cell(i, j),
            decreases nr - r,
        {
            let mut c: usize = 0;
            while c < nc
                invariant
                    nr == self.rows(),
                    nc == self.cols(),
                    r < nr,
                    c <= nc,
                    self.wf(),
                    self.fits(),
                    target.wf(),
                    target.rows() == self.rows(),
                    target.cols() == self.cols(),
                    forall|i: int, j: int|
                        0 <= i < r && 0 <= j < nc ==> target.cell(i, j) == self.cell(i, j),
                    forall|j: int| 0 <= j < c ==> target.cell(r as int, j) == self.cell(r as int, j),
                decreases nc - c,
            {
                let v = self.get(r, c);
                target.set(r, c, v);
                c += 1;
            }
            r += 1;
        }
    }

}
impl<M: LazyMatrix> LazyMatrix for &M {
    fn nrows(&self) -> (n: usize) {
        (**self).nrows()
    }

    fn ncols(&self) -> (n: usize) {
        (**self).ncols()
    }
}

/// The transpose operation, available on every matrix-like value.
pub trait Transpose: UnsafeGet {
    /// Wraps the matrix in a transposed view: extents and access indices
    /// swapped, no data copied.
    fn t(self) -> (t: crate::Transpose<Self>)
        ensures
            t == (crate::Transpose { m: self }),
    {
        crate::Transpose { m: self }
    }
}

impl<M: UnsafeGet> Transpose for M {

}

/// Unchecked materialization: writes every element of `self` into a target
/// whose shape the caller has already validated, through the unchecked
/// element path.
pub trait UnsafePut: UnsafeGet {
    /// Writes `self.cell(r, c)` into `target` at `(r, c)` for every position
    /// of the (caller-guaranteed matching) shape.
    fn unsafe_put(&self, target: &mut MatGen)
        requires
            self.wf(),
            self.fits(),
            old(target).wf(),
            old(target).rows() == self.rows(),
            old(target).cols() == self.cols(),
        ensures
            final(target).wf(),
            final(target).fits(),
            final(target).rows() == self.rows(),
            final(target).cols() == self.cols(),
            forall|i: int, j: int|
                0 <= i < self.rows() && 0 <= j < self.cols() ==> final(target).cell(i, j)
                    == self.cell(i, j),
    ;
}

impl<M: LazyMatrix> UnsafePut for M {
    fn unsafe_put(&self, target: &mut MatGen) {
        let nr = self.nrows();
        let nc = self.ncols();
        let mut r: usize = 0;
        while r < nr
            invariant
                nr == self.rows(),
                nc == self.cols(),
                r <= nr,
                self.wf(),
                self.fits(),
                target.wf(),
                target.rows() == self.rows(),
                target.cols() == self.cols(),
                forall|i: int, j: int|
                    0 <= i < r && 0 <= j < nc ==> target.cell(i, j) == self.cell(i, j),
            decreases nr - r,
        {
            let mut c: usize = 0;
            while c < nc
                invariant
                    nr == self.rows(),
                    nc == self.cols(),
                    r < nr,
                    c <= nc,
                    self.wf(),
                    self.fits(),
                    target.wf(),
                    target.rows() == self.rows(),
                    target.cols() == self.cols(),
                    forall|i: int, j: int|
                        0 <= i < r && 0 <= j < nc ==> target.cell(i, j) == self.cell(i, j),
                    forall|j: int| 0 <= j < c ==> target.cell(r as int, j) == self.cell(r as int, j),
                decreases nc - c,
            {
                let v = self.unsafe_get(r, c);
                target.set(r, c, v);
                c += 1;
            }
            r += 1;
        }
    }
}

/// Types that have a "zero" value.
pub trait Zero: Sized {
    /// The mathematical zero of the type.
    spec fn zero_spec() -> Self;

    /// Returns the value of this type that represents the number zero.
    fn zero() -> (z: Self)
        ensures
            z == Self::zero_spec(),
    ;
}

impl Zero for i8 {
    open spec fn zero_spec() -> i8 {
        0
    }

    fn zero() -> i8 {
        0
    }
}

impl Zero for i16 {
    open spec fn zero_spec() -> i16 {
        0
    }

    fn zero() -> i16 {
        0
    }
}

impl Zero for i32 {
    open spec fn zero_spec() -> i32 {
        0
    }

    fn zero() -> i32 {
        0
    }
}

impl Zero for i64 {
    open spec fn zero_spec() -> i64 {
        0
    }

    fn zero() -> i64 {
        0
    }
}

impl Zero for isize {
    open spec fn zero_spec() -> isize {
        0
    }

    fn zero() -> isize {
        0
    }
}

impl Zero for u8 {
    open spec fn zero_spec() -> u8 {
        0
    }

    fn zero() -> u8 {
        0
    }
}

impl Zero for u16 {
    open spec fn zero_spec() -> u16 {
        0
    }

    fn zero() -> u16 {
        0
    }
}

impl Zero for u32 {
    open spec fn zero_spec() -> u32 {
        0
    }

    fn zero() -> u32 {
        0
    }
}

impl Zero for u64 {
    open spec fn zero_spec() -> u64 {
        0
    }

    fn zero() -> u64 {
        0
    }
}

impl Zero for usize {
    open spec fn zero_spec() -> usize {
        0
    }

    fn zero() -> usize {
        0
    }
}

} // verus!
