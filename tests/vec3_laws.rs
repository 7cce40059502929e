use lamar::vector::Vec3;

#[test]
fn new_sets_each_component() {
    let v = Vec3::new(1, -2, 3);
    assert_eq!(v.x, 1);
    assert_eq!(v.y, -2);
    assert_eq!(v.z, 3);
}

#[test]
fn dot_matches_formula_on_mixed_signs() {
    let a: Vec3<i64> = Vec3::new(-3, 7, 0);
    let b: Vec3<i64> = Vec3::new(4, -2, 9);
    assert_eq!(a.dot(&b), -3 * 4 + 7 * -2 + 0 * 9);
    assert_eq!(a.dot(&b), -26);
}

#[test]
fn dot_of_zero_vector_is_zero() {
    let a = Vec3::new(0, 0, 0);
    let b = Vec3::new(11, -12, 13);
    assert_eq!(a.dot(&b), 0);
}

#[test]
fn cross_matches_formula() {
    let a: Vec3<i64> = Vec3::new(2, -3, 4);
    let b: Vec3<i64> = Vec3::new(-5, 6, 7);
    let c = a.cross(&b);
    assert_eq!(c.x, a.y * b.z - a.z * b.y);
    assert_eq!(c.y, a.z * b.x - a.x * b.z);
    assert_eq!(c.z, a.x * b.y - a.y * b.x);
    assert_eq!(c, Vec3::new(-45, -34, -3));
}

#[test]
fn cross_of_unit_axes() {
    let x = Vec3::new(1, 0, 0);
    let y = Vec3::new(0, 1, 0);
    assert_eq!(x.cross(&y), Vec3::new(0, 0, 1));
    assert_eq!(y.cross(&x), Vec3::new(0, 0, -1));
}

#[test]
fn mul_operator_equals_cross() {
    let a = Vec3::new(-4, 9, 2);
    let b = Vec3::new(7, 1, -3);
    assert_eq!(a * b, a.cross(&b));
    assert_ne!(a * b, Vec3::new(a.x * b.x, a.y * b.y, a.z * b.z));
}

#[test]
fn cross_is_anticommutative() {
    let a = Vec3::new(5, 10, 15);
    let b = Vec3::new(3, 1, 7);
    let ab = a.cross(&b);
    let ba = b.cross(&a);
    assert_eq!(ab, Vec3::new(-ba.x, -ba.y, -ba.z));
}

#[test]
fn cross_with_itself_is_zero() {
    let a = Vec3::new(6, -1, 8);
    assert_eq!(a.cross(&a), Vec3::new(0, 0, 0));
}

#[test]
fn scalar_ops_apply_to_each_component() {
    let v = Vec3::new(-5, 0, 7);
    assert_eq!(v + 3, Vec3::new(-2, 3, 10));
    assert_eq!(v - 3, Vec3::new(-8, -3, 4));
    assert_eq!(v * -2, Vec3::new(10, 0, -14));
}

#[test]
fn scalar_division_truncates_toward_zero() {
    let v = Vec3::new(7, -7, 6);
    assert_eq!(v / 2, Vec3::new(3, -3, 3));
    assert_eq!(v / -2, Vec3::new(-3, 3, -3));
}

#[test]
fn unsigned_components() {
    let a: Vec3<u32> = Vec3::new(1, 2, 3);
    let b: Vec3<u32> = Vec3::new(4, 5, 6);
    assert_eq!(a.dot(&b), 32);
    assert_eq!(a + b, Vec3::new(5, 7, 9));
    assert_eq!(b / 2, Vec3::new(2, 2, 3));
}

#[test]
fn largest_values_in_range() {
    let a: Vec3<i32> = Vec3::new(i32::MAX - 1, 0, 0);
    assert_eq!(a + 1, Vec3::new(i32::MAX, 1, 1));
    let b: Vec3<i32> = Vec3::new(i32::MIN, 0, 0);
    assert_eq!(b - Vec3::new(0, 1, 1), Vec3::new(i32::MIN, -1, -1));
}

#[test]
fn float_components() {
    let a: Vec3<f64> = Vec3::new(1.5, 2.0, -0.5);
    let b: Vec3<f64> = Vec3::new(2.0, 0.5, 4.0);
    assert_eq!(a.dot(&b), 2.0);
    assert_eq!(a * 2.0, Vec3::new(3.0, 4.0, -1.0));
}

#[test]
fn equality_is_componentwise_and_exact() {
    let a = Vec3::new(1, 2, 3);
    assert_eq!(a, a);
    assert_eq!(Vec3::new(1, 2, 3), Vec3::new(1, 2, 3));
    assert_ne!(a, Vec3::new(9, 2, 3));
    assert_ne!(a, Vec3::new(1, 9, 3));
    assert_ne!(a, Vec3::new(1, 2, 9));
    assert_eq!(a == Vec3::new(1, 2, 4), Vec3::new(1, 2, 4) == a);
}
