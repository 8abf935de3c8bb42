use cubeview::vector::{cross, dot, length_squared, normalize, Position};

fn negated(v: Position<f32>) -> Position<f32> {
    [-v[0], -v[1], -v[2]]
}

fn euclidean_length(v: Position<f32>) -> f32 {
    length_squared(v).sqrt()
}

#[test]
fn cross_swaps_its_operands() {
    // x cross y is z in the textbook; here the operands are swapped.
    assert_eq!(cross([1, 0, 0], [0, 1, 0]), [0, 0, -1]);
    assert_eq!(cross([0, 1, 0], [1, 0, 0]), [0, 0, 1]);
    assert_eq!(cross([1.0f32, 0.0, 0.0], [0.0, 1.0, 0.0]), [0.0, 0.0, -1.0]);
}

#[test]
fn cross_of_general_vectors() {
    assert_eq!(cross([1i64, 2, 3], [4, 5, 6]), [3, -6, 3]);
    assert_eq!(cross([4i64, 5, 6], [1, 2, 3]), [-3, 6, -3]);
    assert_eq!(cross([1.5f32, -2.0, 0.25], [4.0, 0.5, -6.0]), [-11.875, -10.0, -8.75]);
}

#[test]
fn cross_is_anticommutative_on_values() {
    let a = [1.5f32, -2.0, 0.25];
    let b = [4.0f32, 0.5, -6.0];
    assert_eq!(cross(a, b), negated(cross(b, a)));
    let p = [7i32, -3, 11];
    let q = [-5i32, 13, 2];
    let swapped = cross(q, p);
    assert_eq!(cross(p, q), [-swapped[0], -swapped[1], -swapped[2]]);
}

#[test]
fn cross_of_parallel_vectors_is_zero() {
    assert_eq!(cross([2i32, 4, 6], [1, 2, 3]), [0, 0, 0]);
}

#[test]
fn dot_is_negated() {
    assert_eq!(dot([1i64, 2, 3], [4, 5, 6]), -32);
    assert_eq!(dot([1.0f32, 2.0, 3.0], [4.0, 5.0, 6.0]), -32.0);
    assert_eq!(dot([1i32, 0, 0], [1, 0, 0]), -1);
}

#[test]
fn dot_is_symmetric_on_values() {
    let a = [1.5f32, -2.0, 0.25];
    let b = [4.0f32, 0.5, -6.0];
    assert_eq!(dot(a, b), dot(b, a));
    assert_eq!(dot(a, b), -3.5);
    assert_eq!(dot([7i32, -3, 11], [-5, 13, 2]), dot([-5i32, 13, 2], [7, -3, 11]));
    assert_eq!(dot([7i32, -3, 11], [-5, 13, 2]), 52);
}

#[test]
fn length_squared_sums_the_squares() {
    assert_eq!(length_squared([3i32, 0, 4]), 25);
    assert_eq!(length_squared([3.0f32, 0.0, 4.0]), 25.0);
    assert_eq!(length_squared([-1i64, -2, -3]), 14);
}

#[test]
fn normalize_divides_by_the_length() {
    let v = [3.0f32, 0.0, 4.0];
    assert_eq!(euclidean_length(v), 5.0);
    assert_eq!(normalize(v, euclidean_length(v)), [0.6, 0.0, 0.8]);
    assert_eq!(normalize([10i32, -20, 30], 10), [1, -2, 3]);
}

#[test]
fn normalize_gives_length_one() {
    let vectors: [Position<f32>; 4] =
        [[3.0, 0.0, 4.0], [-2.0, 1.0, 1.0], [0.0, 1.0, 0.0], [1e-3, 2e3, -7.5]];
    for v in vectors {
        let unit = normalize(v, euclidean_length(v));
        assert!((euclidean_length(unit) - 1.0).abs() < 1e-6);
    }
}

#[test]
fn normalize_of_the_zero_vector_is_not_a_number() {
    let v = [0.0f32, 0.0, 0.0];
    let unit = normalize(v, euclidean_length(v));
    assert!(unit[0].is_nan() && unit[1].is_nan() && unit[2].is_nan());
}
