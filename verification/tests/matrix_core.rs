use raytracer::fuzzy_comparison::FuzzyPartialEq;
use raytracer::matrix::{Matrix2f, Matrix3f, Matrix4f};
use raytracer::point::Point;
use raytracer::scalar::Scalar;
use raytracer::three_part::ThreePart;
use raytracer::vector::Vector;

fn sc(x: f64) -> Scalar {
    Scalar::from_units((x * 1_000_000.0).round() as i64)
}

fn near(a: Scalar, e: f64) -> bool {
    (a.units() - (e * 1_000_000.0).round() as i64).abs() < 10
}

fn m4(d: [[f64; 4]; 4]) -> Matrix4f {
    Matrix4f::new_with_data(
        ThreePart(sc(d[0][0]), sc(d[0][1]), sc(d[0][2]), sc(d[0][3])),
        ThreePart(sc(d[1][0]), sc(d[1][1]), sc(d[1][2]), sc(d[1][3])),
        ThreePart(sc(d[2][0]), sc(d[2][1]), sc(d[2][2]), sc(d[2][3])),
        ThreePart(sc(d[3][0]), sc(d[3][1]), sc(d[3][2]), sc(d[3][3])),
    )
}

fn m3(d: [[f64; 3]; 3]) -> Matrix3f {
    Matrix3f::new_with_data(
        (sc(d[0][0]), sc(d[0][1]), sc(d[0][2])),
        (sc(d[1][0]), sc(d[1][1]), sc(d[1][2])),
        (sc(d[2][0]), sc(d[2][1]), sc(d[2][2])),
    )
}

fn m2(d: [[f64; 2]; 2]) -> Matrix2f {
    Matrix2f::new_with_data((sc(d[0][0]), sc(d[0][1])), (sc(d[1][0]), sc(d[1][1])))
}

fn assert_m2_near(a: Matrix2f, b: Matrix2f) {
    assert!(a.r0.0.fuzzy_eq(b.r0.0));
    assert!(a.r0.1.fuzzy_eq(b.r0.1));
    assert!(a.r1.0.fuzzy_eq(b.r1.0));
    assert!(a.r1.1.fuzzy_eq(b.r1.1));
}

fn assert_m3_near(a: Matrix3f, b: Matrix3f) {
    assert!(a.r0.0.fuzzy_eq(b.r0.0) && a.r0.1.fuzzy_eq(b.r0.1) && a.r0.2.fuzzy_eq(b.r0.2));
    assert!(a.r1.0.fuzzy_eq(b.r1.0) && a.r1.1.fuzzy_eq(b.r1.1) && a.r1.2.fuzzy_eq(b.r1.2));
    assert!(a.r2.0.fuzzy_eq(b.r2.0) && a.r2.1.fuzzy_eq(b.r2.1) && a.r2.2.fuzzy_eq(b.r2.2));
}

#[test]
fn create_a_matrix_and_check_empty_initialized() {
    let matrix = Matrix4f::new();
    for y in 0..4usize {
        for x in 0..4usize {
            assert_eq!(matrix.get_position(x, y).units(), 0);
        }
    }
}

#[test]
fn create_an_identity_matrix() {
    let matrix = Matrix4f::identity();
    for p in 0..4usize {
        assert!(near(matrix.get_position(p, p), 1.0));
    }
}

#[test]
fn create_a_matrix_with_data() {
    let matrix = m4([
        [1.0, 2.0, 3.0, 4.0],
        [5.0, 6.0, 7.0, 8.0],
        [9.0, 10.0, 11.0, 12.0],
        [13.0, 14.0, 15.0, 16.0],
    ]);
    for y in 0..4usize {
        for x in 0..4usize {
            assert!(near(matrix.get_position(x, y), ((x + 1) + (y * 4)) as f64));
        }
    }
}

#[test]
fn compare_two_matrices() {
    let matrix1 = m4([
        [1.0, 2.0, 3.0, 4.0],
        [5.0, 6.0, 7.0, 8.0],
        [9.0, 10.0, 11.0, 12.0],
        [13.0, 14.0, 15.0, 16.0],
    ]);
    let matrix2 = m4([
        [1.0, 2.0, 3.0, 4.0],
        [5.0, 6.0, 7.0, 8.0],
        [9.0, 10.0, 11.0, 12.0],
        [13.0, 14.0, 15.0, 16.0],
    ]);
    assert!(matrix1.fuzzy_eq(matrix2));
}

#[test]
fn compare_two_fuzzy_similar_matrices() {
    let matrix1 = m4([
        [1.0, 2.0, 3.0, 4.0],
        [5.0, 6.0, 7.000005, 8.0],
        [9.0, 10.000002, 11.0, 12.0],
        [13.0, 14.0, 15.0, 16.0],
    ]);
    let matrix2 = m4([
        [1.0, 2.0, 3.0, 4.0],
        [5.0, 6.0, 7.0, 8.0],
        [9.0, 10.0, 11.0, 12.0],
        [13.0, 14.0, 15.0, 16.0],
    ]);
    assert!(matrix1.fuzzy_eq(matrix2));
}

#[test]
fn compare_two_fuzzy_nonsimilar_matrices() {
    let matrix1 = m4([
        [1.0, 2.0, 3.0, 4.0],
        [5.0, 6.0, 7.00005, 8.0],
        [9.0, 10.000002, 11.0, 12.0],
        [13.0, 14.0, 15.0, 16.0],
    ]);
    let matrix2 = m4([
        [1.0, 2.0, 3.0, 4.0],
        [5.0, 6.0, 7.0, 8.0],
        [9.0, 10.0, 11.0, 12.0],
        [13.0, 14.0, 15.0, 16.0],
    ]);
    assert!(!matrix1.fuzzy_eq(matrix2));
}

#[test]
fn transpose_4x4_matrix() {
    let matrix = m4([
        [1.0, 2.0, 3.0, 4.0],
        [5.0, 6.0, 7.0, 8.0],
        [9.0, 10.0, 11.0, 12.0],
        [13.0, 14.0, 15.0, 16.0],
    ]);
    let transposed = matrix.transpose();
    for y in 0..4usize {
        for x in 0..4usize {
            assert_eq!(
                transposed.get_position(x, y).units(),
                matrix.get_position(y, x).units(),
            );
        }
    }
}

#[test]
fn multiply_two_4x4_matrices() {
    let matrix1 = m4([
        [1.0, 2.0, 3.0, 4.0],
        [5.0, 6.0, 7.0, 8.0],
        [9.0, 10.0, 11.0, 12.0],
        [13.0, 14.0, 15.0, 16.0],
    ]);
    let matrix2 = m4([
        [1.0, 2.0, 3.0, 4.0],
        [5.0, 6.0, 7.0, 8.0],
        [9.0, 10.0, 11.0, 12.0],
        [13.0, 14.0, 15.0, 16.0],
    ]);
    let result = matrix1.mul(matrix2);
    let expected = m4([
        [90.0, 100.0, 110.0, 120.0],
        [202.0, 228.0, 254.0, 280.0],
        [314.0, 356.0, 398.0, 440.0],
        [426.0, 484.0, 542.0, 600.0],
    ]);
    assert!(result.fuzzy_eq(expected));
}

#[test]
fn check_index_works() {
    let matrix = m4([
        [1.0, 2.0, 3.0, 4.0],
        [5.0, 6.0, 7.0, 8.0],
        [9.0, 10.0, 11.0, 12.0],
        [13.0, 14.0, 15.0, 16.0],
    ]);
    for y in 0..4usize {
        for x in 0..4usize {
            assert!(near(matrix.get_position(x, y), (y * 4 + x + 1) as f64));
        }
    }
}

#[test]
fn check_index_works_for_writing() {
    let mut matrix = Matrix4f::new();
    let mut value: f64 = 1.0;
    for y in 0..4usize {
        for x in 0..4usize {
            matrix.set_position(x, y, sc(value));
            value += 1.0;
        }
    }
    let expected = m4([
        [1.0, 2.0, 3.0, 4.0],
        [5.0, 6.0, 7.0, 8.0],
        [9.0, 10.0, 11.0, 12.0],
        [13.0, 14.0, 15.0, 16.0],
    ]);
    assert!(matrix.fuzzy_eq(expected));
}

#[test]
fn multiply_identity_and_matrix() {
    let identity = Matrix4f::identity();
    let matrix = m4([
        [1.0, 2.0, 3.0, 4.0],
        [5.0, 6.0, 7.0, 8.0],
        [9.0, 10.0, 11.0, 12.0],
        [13.0, 14.0, 15.0, 16.0],
    ]);
    let result = identity.mul(matrix);
    assert!(result.fuzzy_eq(matrix));
}

#[test]
fn multiply_matrix_and_point_directly() {
    let point = Point::new(sc(1.0), sc(2.0), sc(3.0));
    let matrix = m4([
        [0.0, 1.0, 0.0, 0.0],
        [0.0, 0.0, 1.0, 0.0],
        [1.0, 0.0, 0.0, 0.0],
        [0.0, 0.0, 0.0, 1.0],
    ]);
    let result = matrix.mul_point(point);
    assert!(result.fuzzy_eq(Point::new(sc(2.0), sc(3.0), sc(1.0))));
}

#[test]
fn multiply_matrix_and_point_indirectly() {
    let point = Point::new(sc(1.0), sc(2.0), sc(3.0));
    let matrix = m4([
        [0.0, 1.0, 0.0, 0.0],
        [0.0, 0.0, 1.0, 0.0],
        [1.0, 0.0, 0.0, 0.0],
        [0.0, 0.0, 0.0, 1.0],
    ]);
    let result = matrix.mul_point(point);
    assert!(result.fuzzy_eq(Point::new(sc(2.0), sc(3.0), sc(1.0))));
}

#[test]
fn try_translate_point_indirect() {
    let point = Point::new(sc(1.0), sc(2.0), sc(3.0));
    let matrix = m4([
        [1.0, 0.0, 0.0, 1.0],
        [0.0, 1.0, 0.0, 2.0],
        [0.0, 0.0, 1.0, 3.0],
        [0.0, 0.0, 0.0, 1.0],
    ]);
    let result = matrix.mul_point(point);
    assert!(result.fuzzy_eq(Point::new(sc(2.0), sc(4.0), sc(6.0))));
}

#[test]
fn try_translate_vector_indirect() {
    let vector = Vector::new(sc(1.0), sc(2.0), sc(3.0));
    let matrix = m4([
        [1.0, 0.0, 0.0, 1.0],
        [0.0, 1.0, 0.0, 2.0],
        [0.0, 0.0, 1.0, 3.0],
        [0.0, 0.0, 0.0, 1.0],
    ]);
    let result = matrix.mul_vector(vector);
    assert!(result.fuzzy_eq(Vector::new(sc(1.0), sc(2.0), sc(3.0))));
}

#[test]
fn determinant_of_2x2_matrix() {
    let matrix = m2([[1.0, 5.0], [-3.0, 2.0]]);
    assert!(near(matrix.determinant(), 17.0));
}

#[test]
fn get_2x2_submatrix_of_3x3() {
    let matrix = m3([[1.0, 5.0, 0.0], [-3.0, 2.0, 7.0], [0.0, 6.0, -3.0]]);
    let submatrix = matrix.submatrix(0, 2);
    assert_m2_near(submatrix, m2([[-3.0, 2.0], [0.0, 6.0]]));
}

#[test]
fn get_3x3_submatrix_of_4x4() {
    let matrix = m4([
        [1.0, 5.0, 0.0, 0.0],
        [-3.0, 2.0, 7.0, 0.0],
        [0.0, 6.0, -3.0, 0.0],
        [0.0, 0.0, 0.0, -2.0],
    ]);
    let submatrix = matrix.submatrix(0, 0);
    assert_m3_near(submatrix, m3([[2.0, 7.0, 0.0], [6.0, -3.0, 0.0], [0.0, 0.0, -2.0]]));
}

#[test]
fn calculate_minor_of_3x3() {
    let m = m3([[3.0, 5.0, 0.0], [2.0, -1.0, -7.0], [6.0, -1.0, 5.0]]);
    let sub = m.submatrix(1, 0);
    assert!(near(sub.determinant(), 25.0));
    assert!(near(m.minor(1, 0), 25.0));
}

#[test]
fn calculating_a_cofactor_of_a_3x3_matrix() {
    let m = m3([[3.0, 5.0, 0.0], [2.0, -1.0, -7.0], [6.0, -1.0, 5.0]]);
    assert!(near(m.minor(0, 0), -12.0));
    assert!(near(m.cofactor(0, 0), -12.0));
    assert!(near(m.minor(1, 0), 25.0));
    assert!(near(m.cofactor(1, 0), -25.0));
}

#[test]
fn calculate_the_minor_of_a_3x3_matrix() {
    let m = m3([[3.0, 5.0, 0.0], [2.0, -1.0, -7.0], [6.0, -1.0, 5.0]]);
    let sub = m.submatrix(1, 0);
    assert!(near(sub.determinant(), 25.0));
    assert!(near(m.minor(1, 0), 25.0));
}

#[test]
fn calculate_the_determinant_of_a_3x3_matrix() {
    let m = m3([[1.0, 2.0, 6.0], [-5.0, 8.0, -4.0], [2.0, 6.0, 4.0]]);
    assert!(near(m.cofactor(0, 0), 56.0));
    assert!(near(m.cofactor(0, 1), 12.0));
    assert!(near(m.cofactor(0, 2), -46.0));
    assert!(near(m.determinant(), -196.0));
}

#[test]
fn calculating_the_determinant_of_a_4x4_matrix() {
    let m = m4([
        [-2.0, -8.0, 3.0, 5.0],
        [-3.0, 1.0, 7.0, 3.0],
        [1.0, 2.0, -9.0, 6.0],
        [-6.0, 7.0, 7.0, -9.0],
    ]);
    assert!(near(m.cofactor(0, 0), 690.0));
    assert!(near(m.cofactor(0, 1), 447.0));
    assert!(near(m.cofactor(0, 2), 210.0));
    assert!(near(m.cofactor(0, 3), 51.0));
    assert!(near(m.determinant(), -4071.0));
}

#[test]
fn testing_an_invertible_matrix_for_invertibility() {
    let m = m4([
        [6.0, 4.0, 4.0, 4.0],
        [5.0, 5.0, 7.0, 6.0],
        [4.0, -9.0, 3.0, -7.0],
        [9.0, 1.0, 7.0, -6.0],
    ]);
    assert!(near(m.determinant(), -2120.0));
    assert!(m.is_invertible());
}

#[test]
fn testing_an_noninvertible_matrix_for_invertibility() {
    let m = m4([
        [-4.0, 2.0, -2.0, -3.0],
        [9.0, 6.0, 2.0, 6.0],
        [0.0, -5.0, 1.0, -5.0],
        [0.0, 0.0, 0.0, 0.0],
    ]);
    assert!(near(m.determinant(), 0.0));
    assert!(!m.is_invertible());
}

#[test]
fn inverse_matrix() {
    let m = m4([
        [-5.0, 2.0, 6.0, -8.0],
        [1.0, -5.0, 1.0, 8.0],
        [7.0, 7.0, -6.0, -7.0],
        [1.0, -3.0, 7.0, 4.0],
    ]);
    assert!(near(m.determinant(), 532.0));
    assert!(near(m.cofactor(2, 3), -160.0));
    assert!(near(m.cofactor(3, 2), 105.0));
    let actual = m.inverse().unwrap();
    assert!(near(actual.get_position(2, 3), -160.0 / 532.0));
    assert!(near(actual.get_position(3, 2), 105.0 / 532.0));
    let expected = m4([
        [0.21805, 0.45113, 0.24060, -0.04511],
        [-0.80827, -1.45677, -0.44361, 0.52068],
        [-0.07895, -0.22368, -0.05263, 0.19737],
        [-0.52256, -0.81391, -0.30075, 0.30639],
    ]);
    assert!(actual.fuzzy_eq(expected));
}

#[test]
fn matrix_times_inverted_matrix_should_be_identity() {
    let m = m4([
        [3.0, -9.0, 7.0, 3.0],
        [3.0, -8.0, 2.0, -9.0],
        [-4.0, 4.0, 4.0, 1.0],
        [-6.0, 5.0, -1.0, 1.0],
    ]);
    let inverse = m.inverse().unwrap();
    let identity = m.mul(inverse);
    // The product of a matrix with its truncated inverse reaches the
    // identity only to within the granularity the truncation left in the
    // inverse entries, amplified by the matrix entries.
    let expected = Matrix4f::identity();
    for y in 0..4usize {
        for x in 0..4usize {
            let diff = identity.get_position(x, y).sub(expected.get_position(x, y));
            assert!(diff.abs().units() < 100);
        }
    }
}
