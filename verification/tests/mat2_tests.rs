use naominagata::mat2::Mat2;
use naominagata::scalar::Scalar;
use naominagata::vec2::Vec2;

fn s(x: f64) -> Scalar {
    Scalar::from_bits(x.to_bits())
}

fn f(x: Scalar) -> f64 {
    f64::from_bits(x.to_bits())
}

fn mat(a: f64, b: f64, c: f64, d: f64) -> Mat2 {
    Mat2::new(s(a), s(b), s(c), s(d))
}

fn entries(m: &Mat2) -> [f64; 4] {
    [f(m.xx), f(m.xy), f(m.yx), f(m.yy)]
}

#[test]
fn new_fills_the_rows_in_order() {
    let m = mat(1.0, 2.0, 3.0, 4.0);
    assert_eq!((f(m.xx), f(m.xy), f(m.yx), f(m.yy)), (1.0, 2.0, 3.0, 4.0));
}

#[test]
fn identity_and_zero() {
    assert_eq!(entries(&Mat2::identity()), [1.0, 0.0, 0.0, 1.0]);
    assert_eq!(entries(&Mat2::zero()), [0.0, 0.0, 0.0, 0.0]);
}

#[test]
fn sum_adds_by_entry() {
    let m = mat(1.0, 2.0, 3.0, 4.0).add(&mat(0.5, -2.0, 10.0, 0.25));
    assert_eq!(entries(&m), [1.5, 0.0, 13.0, 4.25]);
}

#[test]
fn add_assign_adds_in_place() {
    let mut m = mat(1.0, 2.0, 3.0, 4.0);
    m += mat(1.0, 1.0, 1.0, 1.0);
    assert_eq!(entries(&m), [2.0, 3.0, 4.0, 5.0]);
}

#[test]
fn operators_do_what_the_methods_do() {
    let a = mat(1.0, 2.0, 3.0, 4.0);
    let b = mat(0.0, 1.0, -1.0, 2.0);
    assert_eq!(entries(&(a + b)), entries(&a.add(&b)));
    assert_eq!(entries(&(a + b)), [1.0, 3.0, 2.0, 6.0]);
    assert_eq!(entries(&(a * b)), entries(&a.mul(&b)));
    assert_eq!(entries(&(a * b)), [-2.0, 5.0, -4.0, 11.0]);
    assert_eq!(entries(&(a * s(3.0))), [3.0, 6.0, 9.0, 12.0]);
    assert_eq!(entries(&(s(3.0) * a)), [3.0, 6.0, 9.0, 12.0]);
}

#[test]
fn product_multiplies_rows_by_columns() {
    let a = mat(1.0, 2.0, 3.0, 4.0);
    let b = mat(0.0, 1.0, -1.0, 2.0);
    assert_eq!(entries(&a.mul(&b)), [-2.0, 5.0, -4.0, 11.0]);
    assert_eq!(entries(&b.mul(&a)), [3.0, 4.0, 5.0, 6.0]);
    assert_eq!(entries(&a.mul(&Mat2::identity())), entries(&a));
}

#[test]
fn scale_multiplies_every_entry() {
    assert_eq!(entries(&mat(1.0, -2.0, 3.0, 4.0).scale(s(0.5))), [0.5, -1.0, 1.5, 2.0]);
}

#[test]
fn determinant_and_trace() {
    let m = mat(1.0, 2.0, 3.0, 4.0);
    assert_eq!(f(m.det()), -2.0);
    assert_eq!(f(m.trace()), 5.0);
}

#[test]
fn inverse_undoes_the_matrix() {
    let m = mat(4.0, 7.0, 2.0, 6.0);
    let inv = m.inv();
    assert_eq!(entries(&inv), [6.0 / 10.0, -7.0 / 10.0, -2.0 / 10.0, 4.0 / 10.0]);
    let back = entries(&m.mul(&inv));
    assert!((back[0] - 1.0).abs() < 1e-12 && back[1].abs() < 1e-12);
    assert!(back[2].abs() < 1e-12 && (back[3] - 1.0).abs() < 1e-12);
}

#[test]
fn inverse_of_a_singular_matrix_is_not_finite() {
    let inv = mat(1.0, 2.0, 2.0, 4.0).inv();
    assert!(entries(&inv).iter().all(|x| !x.is_finite()));
}

#[test]
fn matrix_applies_to_a_vector_and_solves_for_one() {
    let m = mat(2.0, 0.0, 1.0, 4.0);
    let v = m.mul_vec(&Vec2::new(s(3.0), s(-1.0)));
    assert_eq!((f(v.x), f(v.y)), (6.0, -1.0));
    let x = m.solve(&v);
    assert_eq!((f(x.x), f(x.y)), (3.0, -1.0));
}

#[test]
fn transpose_swaps_the_off_diagonal() {
    let m = mat(1.0, 2.0, 3.0, 4.0);
    assert_eq!(entries(&m.transpose()), [1.0, 3.0, 2.0, 4.0]);
    assert_eq!(entries(&m.transpose().transpose()), entries(&m));
}

#[test]
fn frobenius_norm_is_the_root_of_the_squares() {
    assert_eq!(f(mat(1.0, 2.0, 2.0, 4.0).frobenius_norm()), 5.0);
}

#[test]
fn symmetry_compares_the_off_diagonal_as_numbers() {
    assert!(mat(1.0, 2.0, 2.0, 4.0).is_symmetric());
    assert!(!mat(1.0, 2.0, 2.5, 4.0).is_symmetric());
    assert!(mat(1.0, 0.0, -0.0, 4.0).is_symmetric());
    assert!(!mat(1.0, f64::NAN, f64::NAN, 4.0).is_symmetric());
}

#[test]
fn vector_operations() {
    let a = Vec2::new(s(3.0), s(4.0));
    let b = Vec2::new(s(-1.0), s(0.5));
    let sum = a.add(b);
    let difference = a.sub(b);
    let right = a.mul(s(2.0));
    let left = a.scale(s(2.0));
    let quotient = a.div(s(4.0));
    assert_eq!((f(sum.x), f(sum.y)), (2.0, 4.5));
    assert_eq!((f(difference.x), f(difference.y)), (4.0, 3.5));
    assert_eq!((f(right.x), f(right.y)), (6.0, 8.0));
    assert_eq!((f(left.x), f(left.y)), (6.0, 8.0));
    assert_eq!((f(quotient.x), f(quotient.y)), (0.75, 1.0));
    assert_eq!(f(a.dot(b)), -1.0);
    assert_eq!(f(a.length()), 5.0);
}

#[test]
fn matrices_are_equal_where_their_entries_are() {
    let m = mat(1.0, 2.0, 3.0, 4.0);
    assert!(m == mat(1.0, 2.0, 3.0, 4.0));
    assert!(m != mat(1.0, 2.0, 3.0, 4.5));
    assert!(m != mat(1.5, 2.0, 3.0, 4.0));
    assert!(m != mat(1.0, 2.0, -3.0, 4.0));
    assert!(m != m.transpose());
    assert!(m.transpose().transpose() == m);
    assert!(Mat2::identity() == mat(1.0, 0.0, 0.0, 1.0));
    assert!(Mat2::zero() == mat(0.0, -0.0, -0.0, 0.0));
    let nan = mat(1.0, f64::NAN, 3.0, 4.0);
    assert!(nan != nan);
    assert!(!(nan == mat(1.0, f64::NAN, 3.0, 4.0)));
}
