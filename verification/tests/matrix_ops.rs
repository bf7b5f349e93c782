use klystron::matrix::{mat_mul, rigid_inverse, transform_point, Mat4, Vec3Fx, ENTRY_LIMIT, FP_ONE};

#[test]
fn identity_is_a_left_unit() {
    let ident = Mat4::identity();
    let t = Mat4::translation(3 * FP_ONE, -2 * FP_ONE, FP_ONE / 2);
    assert_eq!(mat_mul(&ident, &t), Some(t));
}

#[test]
fn translations_compose_by_adding_offsets() {
    let a = Mat4::translation(FP_ONE, 2 * FP_ONE, -3 * FP_ONE);
    let b = Mat4::translation(10 * FP_ONE, -4 * FP_ONE, FP_ONE);
    let expected = Mat4::translation(11 * FP_ONE, -2 * FP_ONE, -2 * FP_ONE);
    assert_eq!(mat_mul(&a, &b), Some(expected));
}

#[test]
fn rigid_inverse_of_translation_negates_it() {
    let t = Mat4::translation(5 * FP_ONE, -7 * FP_ONE, FP_ONE / 4);
    let expected = Mat4::translation(-5 * FP_ONE, 7 * FP_ONE, -(FP_ONE / 4));
    assert_eq!(rigid_inverse(&t), Some(expected));
}

#[test]
fn transform_point_applies_the_translation() {
    let t = Mat4::translation(FP_ONE, 2 * FP_ONE, 3 * FP_ONE);
    let p = Vec3Fx::new(10 * FP_ONE, 0, -FP_ONE);
    let q = transform_point(&t, p).unwrap();
    assert_eq!(q, Vec3Fx::new(11 * FP_ONE, 2 * FP_ONE, 2 * FP_ONE));
}

#[test]
fn products_round_toward_zero() {
    // One raw tick times one raw tick is far below one tick and rounds to
    // zero, from either sign.
    let mut a = Mat4::identity();
    a.m00 = 1;
    let mut b = Mat4::identity();
    b.m00 = 1;
    let p = mat_mul(&a, &b).unwrap();
    assert_eq!(p.m00, 0);
    a.m00 = -1;
    let p = mat_mul(&a, &b).unwrap();
    assert_eq!(p.m00, 0);
}

#[test]
fn out_of_range_products_are_reported() {
    let mut a = Mat4::identity();
    a.m00 = ENTRY_LIMIT;
    let mut b = Mat4::identity();
    b.m00 = ENTRY_LIMIT;
    assert_eq!(mat_mul(&a, &b), None);
}

#[test]
fn scalar_products_are_exact() {
    let mut a = Mat4::identity();
    a.m00 = 3 * FP_ONE;
    let mut b = Mat4::identity();
    b.m00 = 5 * FP_ONE;
    let p = mat_mul(&a, &b).unwrap();
    assert_eq!(p.m00, 15 * FP_ONE);
}
