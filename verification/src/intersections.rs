//! Ray/primitive intersection tests and the nearest-hit aggregation
//! over a geometry collection.

use vstd::prelude::*;

use crate::fixed::{fx_add, fx_mul, fx_sqrt, fx_sub, sat64, Fx, FX_SCALE};
use crate::light_transport::PBRMaterial;
use crate::maths::{fxv, Vec3};
use crate::ray::Ray;

verus! {

/// Outcome of an intersection query: either a hit, carrying which
/// object was struck, where, the surface normal, the parametric
/// distance and the material; or a miss.
#[derive(Clone, Copy, Debug)]
pub enum IntersectionResult {
    Hit { idx: usize, point: Vec3, normal: Vec3, t: Fx, color: PBRMaterial },
    Miss,
}

/// The parametric distance of a hit (zero for a miss).
pub open spec fn hit_t(r: IntersectionResult) -> int {
    match r {
        IntersectionResult::Hit { t, .. } => t.raw as int,
        IntersectionResult::Miss => 0,
    }
}

/// A hit whose distance lies in the ray's valid interval.
pub open spec fn valid_hit(r: IntersectionResult, ray: Ray) -> bool {
    match r {
        IntersectionResult::Hit { t, .. } => ray.min.raw <= t.raw <= ray.max.raw,
        IntersectionResult::Miss => false,
    }
}

/// The same result with the owning collection's index put in.
pub open spec fn with_idx(r: IntersectionResult, i: usize) -> IntersectionResult {
    match r {
        IntersectionResult::Hit { idx, point, normal, t, color } => IntersectionResult::Hit {
            idx: i,
            point,
            normal,
            t,
            color,
        },
        IntersectionResult::Miss => IntersectionResult::Miss,
    }
}

/// Answers "does this ray hit me, and how" for a single shape or a
/// collection of shapes.
pub trait Intersect {
    /// The exact outcome this object assigns to a ray.
    spec fn spec_intersect(&self, ray: Ray) -> IntersectionResult;

    fn intersect(&self, ray: &Ray) -> (r: IntersectionResult)
        ensures
            r == self.spec_intersect(*ray),
    ;
}

/// A sphere: center position and radius.
#[derive(Clone, Copy, Debug, PartialEq, Eq, Structural)]
pub struct Sphere {
    pub radius: Fx,
    pub position: Vec3,
}

impl Sphere {
    /// Quadratic coefficient `a = D . D`.
    pub open spec fn spec_qa(self, ray: Ray) -> int {
        ray.dir.spec_dot(ray.dir)
    }

    /// Quadratic coefficient `b = 2 D . (O - C)`.
    pub open spec fn spec_qb(self, ray: Ray) -> int {
        fx_mul(2 * FX_SCALE as int, ray.dir.spec_dot(ray.pos.spec_sub(self.position)))
    }

    /// Quadratic coefficient `c = |O - C|^2 - R^2`.
    pub open spec fn spec_qc(self, ray: Ray) -> int {
        let oc = ray.pos.spec_sub(self.position);
        fx_sub(oc.spec_dot(oc), fx_mul(self.radius.raw as int, self.radius.raw as int))
    }

    /// Discriminant `b^2 - 4 a c`.
    pub open spec fn spec_delta(self, ray: Ray) -> int {
        fx_sub(
            fx_mul(self.spec_qb(ray), self.spec_qb(ray)),
            fx_mul(fx_mul(4 * FX_SCALE as int, self.spec_qa(ray)), self.spec_qc(ray)),
        )
    }

    /// The smaller of the two quadratic roots `(-b +- sqrt(delta)) / (2 a)`.
    pub open spec fn spec_t(self, ray: Ray) -> int {
        let nb = sat64(-self.spec_qb(ray));
        let sq = fx_sqrt(self.spec_delta(ray));
        let two_a = fx_mul(2 * FX_SCALE as int, self.spec_qa(ray));
        let t1 = crate::fixed::fx_div(fx_add(nb, sq), two_a);
        let t2 = crate::fixed::fx_div(fx_sub(nb, sq), two_a);
        if t1 <= t2 {
            t1
        } else {
            t2
        }
    }
}

impl Intersect for Sphere {
    /// A hit requires a non-degenerate direction (`a != 0`), a
    /// positive discriminant and a positive nearest root; the normal
    /// points from the hit point toward the center (the sign
    /// convention the shading formulas expect), and the material is
    /// the fixed demo color.
    open spec fn spec_intersect(&self, ray: Ray) -> IntersectionResult {
        let t = self.spec_t(ray);
        if self.spec_qa(ray) != 0 && self.spec_delta(ray) > 0 && t > 0 {
            let point = ray.spec_at(fxv(t));
            IntersectionResult::Hit {
                idx: 0,
                point,
                normal: point.spec_sub(self.position).spec_normalize().spec_neg(),
                t: fxv(t),
                color: PBRMaterial::spec_from_rgb(0xd3, 0x68, 0x7d),
            }
        } else {
            IntersectionResult::Miss
        }
    }

    fn intersect(&self, ray: &Ray) -> (r: IntersectionResult) {
        let two = Fx { raw: 2 * FX_SCALE };
        let four = Fx { raw: 4 * FX_SCALE };
        let a = ray.dir.scalar_mul(ray.dir);
        let oc = ray.pos.sub(self.position);
        let b = two.mul(ray.dir.scalar_mul(oc));
        let c = oc.scalar_mul(oc).sub(self.radius.mul(self.radius));
        let delta = b.mul(b).sub(four.mul(a).mul(c));

        let nb = b.neg();
        let sq = delta.sqrt();
        let two_a = two.mul(a);
        let t1 = nb.add(sq).div(two_a);
        let t2 = nb.sub(sq).div(two_a);
        let t = if t1.raw <= t2.raw {
            t1
        } else {
            t2
        };

        if a.raw != 0 && delta.raw > 0 && t.raw > 0 {
            let point = ray.at(t);
            IntersectionResult::Hit {
                idx: 0,
                point,
                normal: point.sub(self.position).normalize().neg(),
                t,
                color: PBRMaterial::from_rgb(0xd3, 0x68, 0x7d),
            }
        } else {
            IntersectionResult::Miss
        }
    }
}

/// A triangle: three vertices and the attached material.
#[derive(Clone, Copy, Debug)]
pub struct Triangle {
    pub vertices: [Vec3; 3],
    pub pbr_mat: PBRMaterial,
}

impl Triangle {
    pub open spec fn v(self, i: int) -> Vec3 {
        self.vertices[i]
    }

    /// The determinant `e1 . (D x e2)` of the Moeller-Trumbore
    /// system; zero means the ray is parallel to the triangle plane
    /// (a near-parallel threshold of `1e-10` lies below the
    /// fixed-point resolution, so the test degenerates to exact
    /// zero).
    pub open spec fn spec_det(self, ray: Ray) -> int {
        let e1 = self.v(1).spec_sub(self.v(0));
        let e2 = self.v(2).spec_sub(self.v(0));
        e1.spec_dot(ray.dir.spec_cross(e2))
    }
}

impl Intersect for Triangle {
    /// Moeller-Trumbore: barycentric coordinates from the scaled
    /// system; a miss when the ray is parallel, when any barycentric
    /// coordinate leaves `[0, 1]`, or when the distance is negative.
    /// Both faces are hit-testable (no back-face culling): the
    /// refraction path must be able to leave a transmissive object.
    open spec fn spec_intersect(&self, ray: Ray) -> IntersectionResult {
        let v0 = self.v(0);
        let e1 = self.v(1).spec_sub(v0);
        let e2 = self.v(2).spec_sub(v0);
        let n = e1.spec_cross(e2).spec_normalize();
        let q = ray.dir.spec_cross(e2);
        let a = self.spec_det(ray);
        if a == 0 {
            IntersectionResult::Miss
        } else {
            let s = ray.pos.spec_sub(v0).spec_div_scalar(fxv(a));
            let r = s.spec_cross(e1);
            let b0 = s.spec_dot(q);
            let b1 = r.spec_dot(ray.dir);
            let b2 = fx_sub(fx_sub(FX_SCALE as int, b0), b1);
            if b0 < 0 || b0 > FX_SCALE as int || b1 < 0 || b1 > FX_SCALE as int || b2 < 0 || b2
                > FX_SCALE as int {
                IntersectionResult::Miss
            } else {
                let t = e2.spec_dot(r);
                if t >= 0 {
                    IntersectionResult::Hit {
                        idx: 0,
                        point: ray.spec_at(fxv(t)),
                        normal: n,
                        t: fxv(t),
                        color: self.pbr_mat,
                    }
                } else {
                    IntersectionResult::Miss
                }
            }
        }
    }

    fn intersect(&self, ray: &Ray) -> (r: IntersectionResult) {
        let one = Fx { raw: FX_SCALE };
        let v0 = self.vertices[0];
        let v1 = self.vertices[1];
        let v2 = self.vertices[2];
        let e1 = v1.sub(v0);
        let e2 = v2.sub(v0);
        let n = e1.cross(e2).normalize();
        let q = ray.dir.cross(e2);
        let a = e1.scalar_mul(q);
        if a.raw == 0 {
            return IntersectionResult::Miss;
        }
        let s = ray.pos.sub(v0).div_scalar(a);
        let rv = s.cross(e1);
        let b0 = s.scalar_mul(q);
        let b1 = rv.scalar_mul(ray.dir);
        let b2 = one.sub(b0).sub(b1);
        if b0.raw < 0 || b0.raw > FX_SCALE || b1.raw < 0 || b1.raw > FX_SCALE || b2.raw < 0
            || b2.raw > FX_SCALE {
            return IntersectionResult::Miss;
        }
        let t = e2.scalar_mul(rv);
        if t.raw >= 0 {
            IntersectionResult::Hit { idx: 0, point: ray.at(t), normal: n, t, color: self.pbr_mat }
        } else {
            IntersectionResult::Miss
        }
    }
}

/// The globally nearest valid hit over a collection, by strict
/// comparison on the parametric distance; on equal distances the
/// earliest object wins, so the winner does not depend on evaluation
/// order beyond the source order of the collection.
pub open spec fn spec_nearest<T: Intersect>(objects: Seq<T>, ray: Ray) -> IntersectionResult
    decreases objects.len(),
{
    if objects.len() == 0 {
        IntersectionResult::Miss
    } else {
        let prev = spec_nearest(objects.drop_last(), ray);
        let cand = objects.last().spec_intersect(ray);
        if valid_hit(cand, ray) && (!(prev is Hit) || hit_t(cand) < hit_t(prev)) {
            with_idx(cand, (objects.len() - 1) as usize)
        } else {
            prev
        }
    }
}

/// Every result of the nearest-hit search is a valid in-range hit
/// (or a miss).
pub proof fn lemma_nearest_valid<T: Intersect>(objects: Seq<T>, ray: Ray)
    ensures
        spec_nearest(objects, ray) is Hit ==> valid_hit(spec_nearest(objects, ray), ray),
    decreases objects.len(),
{
    if objects.len() > 0 {
        lemma_nearest_valid(objects.drop_last(), ray);
    }
}

/// Intersect every object, keep the hits whose distance lies in the
/// ray's interval, and return the one with the smallest distance
/// (first such object on ties), tagged with its index.
pub fn nearest_hit<T: Intersect>(objects: &Vec<T>, ray: &Ray) -> (r: IntersectionResult)
    ensures
        r == spec_nearest(objects@, *ray),
{
    let mut best = IntersectionResult::Miss;
    let mut i: usize = 0;
    while i < objects.len()
        invariant
            i <= objects.len(),
            best == spec_nearest(objects@.take(i as int), *ray),
        decreases objects.len() - i,
    {
        let cand = objects[i].intersect(ray);
        let replace = match &cand {
            IntersectionResult::Hit { t, .. } => ray.min.raw <= t.raw && t.raw <= ray.max.raw && (
            match &best {
                IntersectionResult::Hit { t: bt, .. } => t.raw < bt.raw,
                IntersectionResult::Miss => true,
            }),
            IntersectionResult::Miss => false,
        };
        if replace {
            best = set_idx(cand, i);
        }
        proof {
            assert(objects@.take(i as int + 1).drop_last() =~= objects@.take(i as int));
            assert(objects@.take(i as int + 1).last() == objects@[i as int]);
        }
        i += 1;
    }
    proof {
        assert(objects@.take(objects@.len() as int) =~= objects@);
    }
    best
}

fn set_idx(r: IntersectionResult, i: usize) -> (o: IntersectionResult)
    ensures
        o == with_idx(r, i),
{
    match r {
        IntersectionResult::Hit { idx: _, point, normal, t, color } => IntersectionResult::Hit {
            idx: i,
            point,
            normal,
            t,
            color,
        },
        IntersectionResult::Miss => IntersectionResult::Miss,
    }
}

/// A closed choice of renderable primitive, so a heterogeneous scene
/// needs no indirection.
#[derive(Clone, Copy, Debug)]
pub enum Shape {
    Sphere(Sphere),
    Triangle(Triangle),
}

impl Intersect for Shape {
    open spec fn spec_intersect(&self, ray: Ray) -> IntersectionResult {
        match self {
            Shape::Sphere(s) => s.spec_intersect(ray),
            Shape::Triangle(t) => t.spec_intersect(ray),
        }
    }

    fn intersect(&self, ray: &Ray) -> (r: IntersectionResult) {
        match self {
            Shape::Sphere(s) => s.intersect(ray),
            Shape::Triangle(t) => t.intersect(ray),
        }
    }
}

/// A heterogeneous collection of primitives.
pub struct Geometry {
    pub objects: Vec<Shape>,
}

impl Intersect for Geometry {
    open spec fn spec_intersect(&self, ray: Ray) -> IntersectionResult {
        spec_nearest(self.objects@, ray)
    }

    fn intersect(&self, ray: &Ray) -> (r: IntersectionResult) {
        nearest_hit(&self.objects, ray)
    }
}

/// A homogeneous collection of triangles, the renderer's scene
/// geometry.
pub struct TriGeometry {
    pub objects: Vec<Triangle>,
}

impl Intersect for TriGeometry {
    open spec fn spec_intersect(&self, ray: Ray) -> IntersectionResult {
        spec_nearest(self.objects@, ray)
    }

    fn intersect(&self, ray: &Ray) -> (r: IntersectionResult) {
        nearest_hit(&self.objects, ray)
    }
}

} // verus!
