use mat::traits::{LazyMatrix, Transpose};
use mat::{Difference, MatGen, Product, Sum};

fn grid(rows: &[&[i64]]) -> MatGen {
    let rows: Vec<Vec<i64>> = rows.iter().map(|r| r.to_vec()).collect();
    MatGen::from_rows(&rows).unwrap()
}

#[test]
fn macro_mat() {
    let a = grid(&[&[1, 2], &[3, 4], &[5, 6]]);

    assert_eq!(a.get(0, 0), 1);
    assert_eq!(a.get(0, 1), 2);
    assert_eq!(a.get(1, 0), 3);
    assert_eq!(a.get(1, 1), 4);
    assert_eq!(a.get(2, 0), 5);
    assert_eq!(a.get(2, 1), 6);
}

#[test]
fn macro_mult_mat() {
    // 2 by 3 matrix
    let a = grid(&[&[1, 2, 3], &[3, 4, 5]]);

    // 3 by 2 matrix
    let b = grid(&[&[1, 2], &[3, 4], &[5, 6]]);

    // build an expression tree
    let c = Product::new(a, b).unwrap();

    // evaluate the tree
    assert_eq!(c.get(0, 0), 22);
    assert_eq!(c.get(0, 1), 28);
    assert_eq!(c.get(1, 0), 40);
    assert_eq!(c.get(1, 1), 52);
}

#[test]
fn macro_mat_gen() {
    let a = grid(&[&[1, 2], &[3, 4], &[5, 6]]);

    assert_eq!(a.get(0, 0), 1);
    assert_eq!(a.get(0, 1), 2);
    assert_eq!(a.get(1, 0), 3);
    assert_eq!(a.get(1, 1), 4);
    assert_eq!(a.get(2, 0), 5);
    assert_eq!(a.get(2, 1), 6);
}

#[test]
fn macro_mult_mat_gen() {
    // 2 by 3 matrix
    let a = grid(&[&[1, 2, 3], &[3, 4, 5]]);

    // 3 by 2 matrix
    let b = grid(&[&[1, 2], &[3, 4], &[5, 6]]);

    // build an expression tree
    let c = Product::new(a, b).unwrap();

    // evaluate the tree
    assert_eq!(c.get(0, 0), 22);
    assert_eq!(c.get(0, 1), 28);
    assert_eq!(c.get(1, 0), 40);
    assert_eq!(c.get(1, 1), 52);
}

#[test]
fn macro_mat_gen_imm() {
    let a = grid(&[&[1, 2], &[3, 4], &[5, 6]]);

    assert_eq!(a.get(0, 0), 1);
    assert_eq!(a.get(0, 1), 2);
    assert_eq!(a.get(1, 0), 3);
    assert_eq!(a.get(1, 1), 4);
    assert_eq!(a.get(2, 0), 5);
    assert_eq!(a.get(2, 1), 6);
}

#[test]
fn macro_mult_mat_gen_imm() {
    // 2 by 3 matrix
    let a = grid(&[&[1, 2, 3], &[3, 4, 5]]);

    assert_eq!(a.nrows(), 2);
    assert_eq!(a.ncols(), 3);

    // 3 by 2 matrix
    let b = grid(&[&[1, 2], &[3, 4], &[5, 6]]);

    assert_eq!(b.nrows(), 3);
    assert_eq!(b.ncols(), 2);

    assert_eq!(a.ncols(), b.nrows());

    // multiplication
    let c = Product::new(a, b).unwrap();

    // evaluate the tree
    assert_eq!(c.get(0, 0), 22);
    assert_eq!(c.get(0, 1), 28);
    assert_eq!(c.get(1, 0), 40);
    assert_eq!(c.get(1, 1), 52);
}

#[test]
fn macro_add_mat_gen_imm() {
    let a = grid(&[&[1, 2], &[3, 4]]);

    assert_eq!(a.nrows(), 2);
    assert_eq!(a.ncols(), 2);

    let b = grid(&[&[1, 2], &[3, 4]]);

    assert_eq!(b.nrows(), 2);
    assert_eq!(b.ncols(), 2);

    assert_eq!(a.ncols(), b.nrows());

    // addition
    let c = Sum::new(a, b).unwrap();

    // evaluate the tree
    assert_eq!(c.get(0, 0), 2);
    assert_eq!(c.get(0, 1), 4);
    assert_eq!(c.get(1, 0), 6);
    assert_eq!(c.get(1, 1), 8);
}

#[test]
fn mat_add_assignment() {
    let a = grid(&[&[0, 0], &[0, 0]]);
    let b = grid(&[&[0, 0], &[0, 0]]);

    let mut c: MatGen = MatGen::zeros(2, 2);

    Sum::new(a, b).unwrap().eval(&mut c);
}

#[test]
fn mat_mul_assignment() {
    let a = grid(&[&[0, 0], &[0, 0]]);
    let b = grid(&[&[0, 0], &[0, 0]]);

    let mut c: MatGen = MatGen::zeros(2, 2);

    Product::new(a, b).unwrap().eval(&mut c);
}

#[test]
fn mat_tranpose() {
    let a = grid(&[&[1, 2], &[3, 4]]);

    let c = a.t();

    // evaluate the tree
    assert_eq!(c.get(0, 0), 1);
    assert_eq!(c.get(0, 1), 3);
    assert_eq!(c.get(1, 0), 2);
    assert_eq!(c.get(1, 1), 4);
}

#[test]
fn mat_sub() {
    let a = grid(&[&[1, 2], &[3, 4]]);
    let b = grid(&[&[4, 3], &[2, 1]]);

    let c = Difference::new(a, b).unwrap();

    // evaluate the tree
    assert_eq!(c.get(0, 0), -3);
    assert_eq!(c.get(0, 1), -1);
    assert_eq!(c.get(1, 0), 1);
    assert_eq!(c.get(1, 1), 3);
}
