use klystron::matrix::{mat_mul, rigid_inverse, Mat4, Vec3Fx, ENTRY_LIMIT, FP_ONE};
use klystron::portal::{portal_crossing, portal_view_logic, CrossingDir, PortalMotion};

#[test]
fn forward_crossing_is_detected() {
    // Portal half-extent 1.0: a trajectory from local (0, 0, -0.5) to
    // (0, 0, 0.5) is a forward crossing.
    let prev = Vec3Fx::new(0, 0, -FP_ONE / 2);
    let curr = Vec3Fx::new(0, 0, FP_ONE / 2);
    assert_eq!(portal_crossing(prev, curr, FP_ONE), Some(CrossingDir::Forward));
}

#[test]
fn backward_crossing_is_detected() {
    let prev = Vec3Fx::new(0, 0, FP_ONE / 2);
    let curr = Vec3Fx::new(0, 0, -FP_ONE / 2);
    assert_eq!(portal_crossing(prev, curr, FP_ONE), Some(CrossingDir::Backward));
}

#[test]
fn crossing_outside_the_footprint_is_not_detected() {
    // The same z flip at local (2, 2, _) lies outside the footprint.
    let prev = Vec3Fx::new(2 * FP_ONE, 2 * FP_ONE, -FP_ONE / 2);
    let curr = Vec3Fx::new(2 * FP_ONE, 2 * FP_ONE, FP_ONE / 2);
    assert_eq!(portal_crossing(prev, curr, FP_ONE), None);
}

#[test]
fn no_crossing_without_a_sign_flip() {
    let prev = Vec3Fx::new(0, 0, -FP_ONE);
    let curr = Vec3Fx::new(0, 0, -FP_ONE / 2);
    assert_eq!(portal_crossing(prev, curr, FP_ONE), None);
}

#[test]
fn crossing_portal_a_composes_b_after_inverse_a() {
    // End-to-end: the camera advances across the orange portal's plane;
    // afterwards the accumulated base transform equals
    // blue * inverse(orange).
    let orange = Mat4::translation(0, 0, 0);
    let blue = Mat4::translation(5 * FP_ONE, 0, 0);
    let start = Vec3Fx::new(0, 0, -FP_ONE / 2);
    let mut tracker = PortalMotion::new(start, FP_ONE);
    let (pos, base) = tracker
        .update(Vec3Fx::new(0, 0, FP_ONE / 2), &orange, &blue)
        .unwrap();
    assert_eq!(pos, Vec3Fx::new(0, 0, FP_ONE / 2));
    let expected = mat_mul(&blue, &rigid_inverse(&orange).unwrap()).unwrap();
    assert_eq!(base, expected);
    assert_eq!(base, Mat4::translation(5 * FP_ONE, 0, 0));
}

#[test]
fn frames_without_crossings_keep_the_base() {
    let orange = Mat4::translation(0, 0, 10 * FP_ONE);
    let blue = Mat4::translation(0, 0, -10 * FP_ONE);
    let mut tracker = PortalMotion::new(Vec3Fx::new(0, 0, 0), FP_ONE);
    let (_, base) = tracker.update(Vec3Fx::new(FP_ONE, 0, 0), &orange, &blue).unwrap();
    assert_eq!(base, Mat4::identity());
}

#[test]
fn overflowing_update_reports_and_changes_nothing() {
    let orange = Mat4::translation(ENTRY_LIMIT, 0, 0);
    let blue = Mat4::translation(0, 0, 0);
    let mut tracker = PortalMotion::new(Vec3Fx::new(-FP_ONE, 0, 0), FP_ONE);
    let r = tracker.update(Vec3Fx::new(-FP_ONE, 0, FP_ONE), &orange, &blue);
    assert_eq!(r, Err(klystron::EngineError::Overflow));
    // The tracker still works from its unchanged state.
    let sane = Mat4::translation(0, 0, 0);
    let (_, base) = tracker.update(Vec3Fx::new(-FP_ONE, 0, 0), &sane, &sane).unwrap();
    assert_eq!(base, Mat4::identity());
}

#[test]
fn portal_views_carry_the_eye_through_each_portal() {
    let eye = Mat4::identity();
    let blue = Mat4::translation(2 * FP_ONE, 0, 0);
    let orange = Mat4::translation(-3 * FP_ONE, 0, 0);
    let (blue_view, orange_view) = portal_view_logic(&eye, &blue, &orange).unwrap();
    // eye * blue * inverse(orange) and eye * orange * inverse(blue).
    assert_eq!(blue_view, Mat4::translation(5 * FP_ONE, 0, 0));
    assert_eq!(orange_view, Mat4::translation(-5 * FP_ONE, 0, 0));
}

#[test]
fn same_frame_double_crossing_applies_orange_then_blue() {
    // Both portals share one plane, so one step crosses both. The orange
    // portal's composition is folded in first and the blue portal's last;
    // with both portals at the same place the two cancel out.
    let shared = Mat4::translation(0, 0, 0);
    let mut tracker = PortalMotion::new(Vec3Fx::new(0, 0, -FP_ONE / 2), FP_ONE);
    let (_, base) = tracker
        .update(Vec3Fx::new(0, 0, FP_ONE / 2), &shared, &shared)
        .unwrap();
    assert_eq!(base, Mat4::identity());
}
