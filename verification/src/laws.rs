//! The algebraic laws of the expression nodes, stated and proved for every
//! operand and every position.

use vstd::prelude::*;

verus! {

use crate::traits::{LazyMatrix, UnsafeGet};
use crate::{dot, Difference, Product, Sum, Transpose};

/// Transpose is involutive: wrapping a matrix in two transposes restores its
/// extents and every element, at every position.
pub proof fn lemma_transpose_involutive<M: UnsafeGet>(m: M, r: int, c: int)
    ensures
        (Transpose { m: (Transpose { m }) }).rows() == m.rows(),
        (Transpose { m: (Transpose { m }) }).cols() == m.cols(),
        (Transpose { m: (Transpose { m }) }).wf() == m.wf(),
        (Transpose { m: (Transpose { m }) }).cell(r, c) == m.cell(r, c),
{
}

/// The product of an `m × k` matrix and a `k × n` matrix is an `m × n`
/// matrix, and its element at `(i, j)` is the dot product of row `i` of the
/// left operand and column `j` of the right operand.
pub proof fn lemma_product_shape_and_dot<L: LazyMatrix, R: LazyMatrix>(l: L, r: R, i: int, j: int)
    ensures
        (Product { l, r }).rows() == l.rows(),
        (Product { l, r }).cols() == r.cols(),
        (Product { l, r }).cell(i, j) == dot(&l, &r, i, j, l.cols() as int),
{
}

/// The sum is elementwise, and commutative: swapping the operands changes no
/// element.
pub proof fn lemma_sum_elementwise_commutative<L: LazyMatrix, R: LazyMatrix>(
    l: L,
    r: R,
    i: int,
    j: int,
)
    ensures
        (Sum { l, r }).cell(i, j) == l.cell(i, j) + r.cell(i, j),
        (Sum { l, r }).cell(i, j) == (Sum { l: r, r: l }).cell(i, j),
{
}

/// The difference is elementwise, and antisymmetric: swapping the operands
/// negates every element.
pub proof fn lemma_difference_elementwise_antisymmetric<L: LazyMatrix, R: LazyMatrix>(
    l: L,
    r: R,
    i: int,
    j: int,
)
    ensures
        (Difference { l, r }).cell(i, j) == l.cell(i, j) - r.cell(i, j),
        (Difference { l, r }).cell(i, j) == -(Difference { l: r, r: l }).cell(i, j),
{
}

} // verus!
