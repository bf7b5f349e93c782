//! Portal-crossing detection and the accumulated camera transform.
//!
//! Two linked portal surfaces form one pair. Each frame the tracker maps
//! the previous and current camera positions into each portal's local
//! space — through the inverse of the accumulated base transform, then the
//! inverse of the portal's own affine transform — and looks for a crossing:
//! the local z coordinate changing sign while both samples stay within the
//! portal's square footprint. A crossing composes the matching
//! portal-to-portal transform into the base, so the camera keeps seeing
//! the world from beyond the portal it walked through.
use vstd::prelude::*;

verus! {

use crate::EngineError;
use crate::matrix::{
    checked_mul, checked_rigid_inverse, checked_transform, lemma_identity_inverse,
    lemma_identity_mul, lemma_identity_transform, lemma_mul_spec_wf, mat_mul, mat_mul_spec,
    mul_fits, rigid_inverse, rigid_inverse_fits, rigid_inverse_spec, transform_fits,
    transform_point, transform_spec, Mat4, Vec3Fx,
};

/// Which way the camera passed through the portal plane.
#[derive(Copy, Clone, Debug, PartialEq, Eq, Structural)]
pub enum CrossingDir {
    /// Local z went from negative to non-negative
    Forward,
    /// Local z went from non-negative to negative
    Backward,
}

/// The point's local x and y lie within the portal's square footprint of
/// the given half-extent.
pub open spec fn within_footprint(p: Vec3Fx, half: int) -> bool {
    -half <= p.x <= half && -half <= p.y <= half
}

/// The crossing a movement from `prev` to `curr` (both in portal-local
/// space) makes: the local z sign must flip while both samples stay within
/// the footprint.
pub open spec fn crossing_spec(prev: Vec3Fx, curr: Vec3Fx, half: int) -> Option<CrossingDir> {
    if within_footprint(prev, half) && within_footprint(curr, half) {
        if prev.z < 0 && curr.z >= 0 {
            Some(CrossingDir::Forward)
        } else if prev.z >= 0 && curr.z < 0 {
            Some(CrossingDir::Backward)
        } else {
            None
        }
    } else {
        None
    }
}

/// Detect a portal crossing from two portal-local camera positions.
pub fn portal_crossing(prev: Vec3Fx, curr: Vec3Fx, half_extent: i64) -> (r: Option<CrossingDir>)
    requires
        0 <= half_extent,
    ensures
        r == crossing_spec(prev, curr, half_extent as int),
{
    let inside = -half_extent <= prev.x && prev.x <= half_extent && -half_extent <= prev.y
        && prev.y <= half_extent && -half_extent <= curr.x && curr.x <= half_extent
        && -half_extent <= curr.y && curr.y <= half_extent;
    if !inside {
        None
    } else if prev.z < 0 && curr.z >= 0 {
        Some(CrossingDir::Forward)
    } else if prev.z >= 0 && curr.z < 0 {
        Some(CrossingDir::Backward)
    } else {
        None
    }
}

/// A world point seen in a portal's local space: first undo the
/// accumulated base transform, then the portal's own transform.
pub open spec fn local_in_portal(base_inv: Mat4, portal_inv: Mat4, w: Vec3Fx) -> Option<Vec3Fx> {
    match checked_transform(base_inv, w) {
        Some(q) => checked_transform(portal_inv, q),
        None => None,
    }
}

/// The transform composed into the base when the camera passes portal `x`
/// whose partner is `y`: entering `x` exits at `y`, so forward goes by
/// `y * inverse(x)`; the backward passage mirrors it.
pub open spec fn crossing_composition(x: Mat4, y: Mat4, dir: CrossingDir) -> Option<Mat4> {
    match dir {
        CrossingDir::Forward => match checked_rigid_inverse(x) {
            Some(xi) => checked_mul(y, xi),
            None => None,
        },
        CrossingDir::Backward => match checked_rigid_inverse(y) {
            Some(yi) => checked_mul(x, yi),
            None => None,
        },
    }
}

/// The base transform after resolving one portal's crossing, if any.
pub open spec fn apply_crossing(base: Mat4, x: Mat4, y: Mat4, c: Option<CrossingDir>) -> Option<
    Mat4,
> {
    match c {
        None => Some(base),
        Some(dir) => match crossing_composition(x, y, dir) {
            Some(comp) => checked_mul(base, comp),
            None => None,
        },
    }
}

/// One whole tracker step: compute both portals' local views of the
/// previous and new camera positions, resolve at most one crossing per
/// portal (orange first, then blue, so a same-frame double crossing lets
/// the blue composition land last), and store the new position. Nothing
/// (overflow) if any fixed-point step leaves the representable range.
pub open spec fn motion_step(
    last: Vec3Fx,
    base: Mat4,
    half: int,
    new_pos: Vec3Fx,
    orange: Mat4,
    blue: Mat4,
) -> Option<(Vec3Fx, Mat4)> {
    match (checked_rigid_inverse(base), checked_rigid_inverse(orange), checked_rigid_inverse(
        blue,
    )) {
        (Some(base_inv), Some(o_inv), Some(b_inv)) => {
            match (local_in_portal(base_inv, o_inv, last), local_in_portal(base_inv, o_inv, new_pos),
                local_in_portal(base_inv, b_inv, last), local_in_portal(base_inv, b_inv, new_pos)) {
                (Some(po0), Some(po1), Some(pb0), Some(pb1)) => {
                    let co = crossing_spec(po0, po1, half);
                    let cb = crossing_spec(pb0, pb1, half);
                    match apply_crossing(base, orange, blue, co) {
                        Some(base1) => match apply_crossing(base1, blue, orange, cb) {
                            Some(base2) => Some((new_pos, base2)),
                            None => None,
                        },
                        None => None,
                    }
                }
                _ => None,
            }
        }
        _ => None,
    }
}

/// Tracks the accumulated "base transform" of the camera across portal
/// crossings, plus the camera position of the previous frame.
pub struct PortalMotion {
    pub(crate) last_position: Vec3Fx,
    pub(crate) current_view: Mat4,
    pub(crate) half_extent: i64,
}

impl PortalMotion {
    /// The camera position stored at the last update.
    pub open(crate) spec fn last_position_spec(self) -> Vec3Fx {
        self.last_position
    }

    /// The accumulated base transform.
    pub open(crate) spec fn base_spec(self) -> Mat4 {
        self.current_view
    }

    /// The portal footprint half-extent used for crossing detection.
    pub open(crate) spec fn half_spec(self) -> int {
        self.half_extent as int
    }

    pub open(crate) spec fn wf(self) -> bool {
        &&& self.last_position.wf()
        &&& self.current_view.wf()
        &&& 0 <= self.half_extent
    }

    /// A fresh tracker: identity base transform, footprints of the given
    /// half-extent.
    pub fn new(initial_position: Vec3Fx, half_extent: i64) -> (r: Self)
        requires
            initial_position.wf(),
            0 <= half_extent,
        ensures
            r.wf(),
            r.last_position_spec() == initial_position,
            r.base_spec() == Mat4::identity_spec(),
            r.half_spec() == half_extent,
    {
        PortalMotion {
            last_position: initial_position,
            current_view: Mat4::identity(),
            half_extent,
        }
    }

    /// Advance the tracker by one frame: detect crossings of either portal
    /// between the stored and the new camera position, fold the matching
    /// portal-to-portal transforms into the base, and remember the new
    /// position. Answers the stored position and the updated base. On
    /// overflow nothing changes and the error is reported.
    pub fn update(&mut self, new_position: Vec3Fx, orange: &Mat4, blue: &Mat4) -> (r: Result<
        (Vec3Fx, Mat4),
        EngineError,
    >)
        requires
            old(self).wf(),
            new_position.wf(),
            orange.wf(),
            blue.wf(),
        ensures
            final(self).wf(),
            final(self).half_spec() == old(self).half_spec(),
            r matches Ok(out) ==> {
                &&& motion_step(
                    old(self).last_position_spec(),
                    old(self).base_spec(),
                    old(self).half_spec(),
                    new_position,
                    *orange,
                    *blue,
                ) == Some(out)
                &&& final(self).last_position_spec() == out.0
                &&& final(self).base_spec() == out.1
            },
            r is Err <==> motion_step(
                old(self).last_position_spec(),
                old(self).base_spec(),
                old(self).half_spec(),
                new_position,
                *orange,
                *blue,
            ) is None,
            r is Err ==> r == Err::<(Vec3Fx, Mat4), EngineError>(EngineError::Overflow),
            r is Err ==> *final(self) == *old(self),
    {
        let base_inv = match rigid_inverse(&self.current_view) {
            Some(m) => m,
            None => { return Err(EngineError::Overflow) },
        };
        let o_inv = match rigid_inverse(orange) {
            Some(m) => m,
            None => { return Err(EngineError::Overflow) },
        };
        let b_inv = match rigid_inverse(blue) {
            Some(m) => m,
            None => { return Err(EngineError::Overflow) },
        };
        let po0 = match local_point(&base_inv, &o_inv, self.last_position) {
            Some(p) => p,
            None => { return Err(EngineError::Overflow) },
        };
        let po1 = match local_point(&base_inv, &o_inv, new_position) {
            Some(p) => p,
            None => { return Err(EngineError::Overflow) },
        };
        let pb0 = match local_point(&base_inv, &b_inv, self.last_position) {
            Some(p) => p,
            None => { return Err(EngineError::Overflow) },
        };
        let pb1 = match local_point(&base_inv, &b_inv, new_position) {
            Some(p) => p,
            None => { return Err(EngineError::Overflow) },
        };
        let co = portal_crossing(po0, po1, self.half_extent);
        let cb = portal_crossing(pb0, pb1, self.half_extent);
        let base1 = match apply_crossing_to(&self.current_view, orange, blue, co) {
            Some(m) => m,
            None => { return Err(EngineError::Overflow) },
        };
        let base2 = match apply_crossing_to(&base1, blue, orange, cb) {
            Some(m) => m,
            None => { return Err(EngineError::Overflow) },
        };
        self.last_position = new_position;
        self.current_view = base2;
        Ok((new_position, base2))
    }
}

/// A world point in a portal's local space, or nothing on overflow.
fn local_point(base_inv: &Mat4, portal_inv: &Mat4, w: Vec3Fx) -> (r: Option<Vec3Fx>)
    requires
        base_inv.wf(),
        portal_inv.wf(),
        w.wf(),
    ensures
        r == local_in_portal(*base_inv, *portal_inv, w),
        r matches Some(p) ==> p.wf(),
{
    match transform_point(base_inv, w) {
        Some(q) => transform_point(portal_inv, q),
        None => None,
    }
}

/// Fold one portal's crossing, if any, into the base transform.
fn apply_crossing_to(base: &Mat4, x: &Mat4, y: &Mat4, c: Option<CrossingDir>) -> (r: Option<Mat4>)
    requires
        base.wf(),
        x.wf(),
        y.wf(),
    ensures
        r == apply_crossing(*base, *x, *y, c),
        r matches Some(m) ==> m.wf(),
{
    match c {
        None => Some(*base),
        Some(dir) => {
            let comp = match dir {
                CrossingDir::Forward => {
                    match rigid_inverse(x) {
                        Some(xi) => mat_mul(y, &xi),
                        None => None,
                    }
                }
                CrossingDir::Backward => {
                    match rigid_inverse(y) {
                        Some(yi) => mat_mul(x, &yi),
                        None => None,
                    }
                }
            };
            match comp {
                Some(comp) => mat_mul(base, &comp),
                None => None,
            }
        }
    }
}

/// The per-portal camera transforms for the through-portal passes: looking
/// at the blue portal shows the view from the orange side and vice versa,
/// so each eye matrix is carried through its portal into the partner's
/// frame.
pub open spec fn portal_eye_through(eye: Mat4, this: Mat4, other: Mat4) -> Option<Mat4> {
    match checked_rigid_inverse(other) {
        Some(oi) => match checked_mul(eye, this) {
            Some(t) => checked_mul(t, oi),
            None => None,
        },
        None => None,
    }
}

/// Derive the two through-portal camera matrices from the eye transform
/// and the pair of portal transforms, blue first. Nothing on overflow.
pub fn portal_view_logic(eye: &Mat4, blue: &Mat4, orange: &Mat4) -> (r: Option<(Mat4, Mat4)>)
    requires
        eye.wf(),
        blue.wf(),
        orange.wf(),
    ensures
        r matches Some(pair) ==> {
            &&& Some(pair.0) == portal_eye_through(*eye, *blue, *orange)
            &&& Some(pair.1) == portal_eye_through(*eye, *orange, *blue)
            &&& pair.0.wf() && pair.1.wf()
        },
        r is None <==> portal_eye_through(*eye, *blue, *orange) is None || portal_eye_through(
            *eye,
            *orange,
            *blue,
        ) is None,
{
    let orange_inv = match rigid_inverse(orange) {
        Some(m) => m,
        None => { return None },
    };
    let blue_inv = match rigid_inverse(blue) {
        Some(m) => m,
        None => { return None },
    };
    let eye_blue = match mat_mul(eye, blue) {
        Some(m) => m,
        None => { return None },
    };
    let eye_orange = match mat_mul(eye, orange) {
        Some(m) => m,
        None => { return None },
    };
    let blue_view = match mat_mul(&eye_blue, &orange_inv) {
        Some(m) => m,
        None => { return None },
    };
    let orange_view = match mat_mul(&eye_orange, &blue_inv) {
        Some(m) => m,
        None => { return None },
    };
    Some((blue_view, orange_view))
}

/// A camera that starts with the identity base transform and crosses the
/// orange portal forward in one frame — while the blue portal sees no
/// crossing — ends the frame with the accumulated base transform equal to
/// the blue portal's transform composed with the inverse of the orange
/// one: `blue * inverse(orange)`.
pub proof fn lemma_first_forward_crossing(
    last: Vec3Fx,
    half: int,
    new_pos: Vec3Fx,
    orange: Mat4,
    blue: Mat4,
)
    requires
        last.wf(),
        new_pos.wf(),
        orange.wf(),
        blue.wf(),
        0 <= half,
        rigid_inverse_fits(orange),
        rigid_inverse_fits(blue),
        transform_fits(rigid_inverse_spec(orange), last),
        transform_fits(rigid_inverse_spec(orange), new_pos),
        transform_fits(rigid_inverse_spec(blue), last),
        transform_fits(rigid_inverse_spec(blue), new_pos),
        crossing_spec(
            transform_spec(rigid_inverse_spec(orange), last),
            transform_spec(rigid_inverse_spec(orange), new_pos),
            half,
        ) == Some(CrossingDir::Forward),
        crossing_spec(
            transform_spec(rigid_inverse_spec(blue), last),
            transform_spec(rigid_inverse_spec(blue), new_pos),
            half,
        ) is None,
        mul_fits(blue, rigid_inverse_spec(orange)),
    ensures
        motion_step(last, Mat4::identity_spec(), half, new_pos, orange, blue) == Some(
            (new_pos, mat_mul_spec(blue, rigid_inverse_spec(orange))),
        ),
{
    let ident = Mat4::identity_spec();
    lemma_identity_inverse();
    lemma_identity_transform(last);
    lemma_identity_transform(new_pos);
    let o_inv = rigid_inverse_spec(orange);
    let b_inv = rigid_inverse_spec(blue);
    assert(local_in_portal(ident, o_inv, last) == Some(transform_spec(o_inv, last)));
    assert(local_in_portal(ident, o_inv, new_pos) == Some(transform_spec(o_inv, new_pos)));
    assert(local_in_portal(ident, b_inv, last) == Some(transform_spec(b_inv, last)));
    assert(local_in_portal(ident, b_inv, new_pos) == Some(transform_spec(b_inv, new_pos)));
    let comp = mat_mul_spec(blue, o_inv);
    assert(crossing_composition(orange, blue, CrossingDir::Forward) == Some(comp));
    lemma_mul_spec_wf(blue, o_inv);
    lemma_identity_mul(comp);
    assert(apply_crossing(ident, orange, blue, Some(CrossingDir::Forward)) == Some(comp));
    assert(apply_crossing(comp, blue, orange, None::<CrossingDir>) == Some(comp));
}

} // verus!
