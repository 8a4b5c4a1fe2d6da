//! The world-space camera and the transform that carries camera-space
//! rays into world space.

use vstd::prelude::*;

use crate::fixed::Fx;
use crate::maths::Vec3;
use crate::ray::Ray;

verus! {

/// A pinhole camera pose: position, look direction, up vector and
/// field of view.
#[derive(Clone, Copy, Debug, PartialEq, Eq, Structural)]
pub struct Camera {
    pub position: Vec3,
    pub direction: Vec3,
    pub up: Vec3,
    pub fov: Fx,
}

/// A 3x3 matrix given by its columns applied to a vector:
/// `c0 * v.x + c1 * v.y + c2 * v.z`, with fixed-point rounding and
/// left-to-right addition.
pub open spec fn spec_columns_mul(c0: Vec3, c1: Vec3, c2: Vec3, v: Vec3) -> Vec3 {
    c0.spec_scale(v.x).spec_add(c1.spec_scale(v.y)).spec_add(c2.spec_scale(v.z))
}

fn columns_mul(c0: Vec3, c1: Vec3, c2: Vec3, v: Vec3) -> (r: Vec3)
    ensures
        r == spec_columns_mul(c0, c1, c2, v),
{
    c0.scale(v.x).add(c1.scale(v.y)).add(c2.scale(v.z))
}

impl Camera {
    /// The orthonormal-ish camera basis built from the pose: the
    /// normalized right vector, the normalized up vector, and the
    /// forward vector derived from them.
    pub open spec fn spec_basis(self) -> (Vec3, Vec3, Vec3) {
        let right = self.direction.spec_cross(self.up).spec_normalize();
        let up = self.up.spec_normalize();
        let forward = up.spec_cross(right);
        (right, up, forward)
    }

    /// The rotation with columns `right`, `up`, `-forward` applied to
    /// the ray direction; the origin is the camera position combined
    /// with the rotated ray origin, so a camera-space ray leaving the
    /// local origin leaves the camera's world position. The
    /// parametric interval is kept.
    pub open spec fn spec_ray_cam_to_world(self, ray: Ray) -> Ray {
        let (right, up, forward) = self.spec_basis();
        let dir = spec_columns_mul(right, up, forward.spec_neg(), ray.dir);
        let offset = spec_columns_mul(right, up, forward.spec_neg(), ray.pos);
        Ray { pos: self.position.spec_add(offset), dir, min: ray.min, max: ray.max }
    }

    pub fn ray_cam_to_world(&self, ray: &Ray) -> (r: Ray)
        ensures
            r == self.spec_ray_cam_to_world(*ray),
            ray.pos == Vec3::spec_zero() ==> r.pos == self.position,
    {
        let right = self.direction.cross(self.up);
        let right = right.normalize();
        let up = self.up.normalize();
        let forward = up.cross(right);

        let neg_forward = forward.neg();
        let dir = columns_mul(right, up, neg_forward, ray.dir);
        let offset = columns_mul(right, up, neg_forward, ray.pos);

        proof {
            if ray.pos == Vec3::spec_zero() {
                crate::fixed::lemma_fx_mul_zero(right.x.raw as int);
                crate::fixed::lemma_fx_mul_zero(right.y.raw as int);
                crate::fixed::lemma_fx_mul_zero(right.z.raw as int);
                crate::fixed::lemma_fx_mul_zero(up.x.raw as int);
                crate::fixed::lemma_fx_mul_zero(up.y.raw as int);
                crate::fixed::lemma_fx_mul_zero(up.z.raw as int);
                crate::fixed::lemma_fx_mul_zero(neg_forward.x.raw as int);
                crate::fixed::lemma_fx_mul_zero(neg_forward.y.raw as int);
                crate::fixed::lemma_fx_mul_zero(neg_forward.z.raw as int);
                assert(offset == Vec3::spec_zero());
            }
        }
        Ray { pos: self.position.add(offset), dir, min: ray.min, max: ray.max }
    }
}

} // verus!
