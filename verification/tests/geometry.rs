//! Intersection tests: sphere, triangle, and the nearest-hit
//! aggregate.

use raytracer::fixed::{Fx, FX_SCALE};
use raytracer::intersections::{
    Geometry, Intersect, IntersectionResult, Shape, Sphere, TriGeometry, Triangle,
};
use raytracer::light_transport::PBRMaterial;
use raytracer::maths::Vec3;
use raytracer::ray::Ray;

const S: i64 = FX_SCALE;

fn fx(raw: i64) -> Fx {
    Fx { raw }
}

fn v3(x: i64, y: i64, z: i64) -> Vec3 {
    Vec3 { x: fx(x), y: fx(y), z: fx(z) }
}

fn ray(pos: Vec3, dir: Vec3) -> Ray {
    Ray { pos, dir, min: fx(0), max: fx(i64::MAX) }
}

fn unit_sphere_scene() -> Sphere {
    // radius 0.3 at (0, 0, -2)
    Sphere { radius: fx(19661), position: v3(0, 0, -2 * S) }
}

#[test]
fn sphere_head_on_hit_distance() {
    let s = unit_sphere_scene();
    let r = ray(v3(0, 0, 0), v3(0, 0, -S));
    match s.intersect(&r) {
        IntersectionResult::Hit { t, normal, point, .. } => {
            // origin at distance 2, radius ~0.3: t == D - R ~ 1.7
            assert_eq!(t.raw, 111412);
            assert!(3 * S / 2 < t.raw && t.raw < 2 * S);
            // hit point on the near surface, normal parallel to the
            // ray direction (the inward-facing sign convention)
            assert_eq!((point.x.raw, point.y.raw, point.z.raw), (0, 0, -111412));
            assert_eq!((normal.x.raw, normal.y.raw, normal.z.raw), (0, 0, -S));
        }
        IntersectionResult::Miss => panic!("expected a hit"),
    }
}

#[test]
fn sphere_behind_ray_misses() {
    let s = unit_sphere_scene();
    let r = ray(v3(0, 0, 0), v3(0, 0, S));
    assert!(matches!(s.intersect(&r), IntersectionResult::Miss));
}

#[test]
fn sphere_degenerate_direction_misses() {
    let s = unit_sphere_scene();
    let r = ray(v3(0, 0, 0), v3(0, 0, 0));
    assert!(matches!(s.intersect(&r), IntersectionResult::Miss));
}

#[test]
fn sphere_offset_ray_misses() {
    let s = unit_sphere_scene();
    // aimed well to the side of the sphere
    let r = ray(v3(0, 0, 0), v3(S, S, -S));
    assert!(matches!(s.intersect(&r), IntersectionResult::Miss));
}

fn demo_triangle() -> Triangle {
    Triangle {
        vertices: [v3(-S, -S, -5 * S), v3(S, -S, -5 * S), v3(0, S, -5 * S)],
        pbr_mat: PBRMaterial::from_rgb(0xd3, 0x68, 0x7d),
    }
}

#[test]
fn triangle_centroid_ray_hits() {
    let t = demo_triangle();
    // centroid of the vertices: (0, -1/3, -5)
    let centroid = v3(0, -21845, -5 * S);
    let r = ray(v3(0, 0, 0), centroid);
    match t.intersect(&r) {
        IntersectionResult::Hit { t: dist, point, .. } => {
            // the direction has the centroid's own length, so the hit
            // parameter is about one
            assert!((dist.raw - S).abs() < 200, "t raw {}", dist.raw);
            assert!((point.y.raw - -21845).abs() < 200);
            assert!((point.z.raw - -5 * S).abs() < 200);
        }
        IntersectionResult::Miss => panic!("expected a hit"),
    }
}

#[test]
fn triangle_far_outside_ray_misses() {
    let t = demo_triangle();
    // far outside the triangle's plane footprint
    let r = ray(v3(0, 0, 0), v3(10 * S, 0, -5 * S));
    assert!(matches!(t.intersect(&r), IntersectionResult::Miss));
}

#[test]
fn triangle_hit_from_behind_also_hits() {
    // no back-face culling: the same triangle is hit from the other
    // side (the refraction path depends on leaving through back
    // faces)
    let t = demo_triangle();
    let r = ray(v3(0, -21845, -10 * S), v3(0, 0, S));
    assert!(matches!(t.intersect(&r), IntersectionResult::Hit { .. }));
}

#[test]
fn triangle_parallel_ray_misses() {
    let t = demo_triangle();
    // a ray inside a plane parallel to the triangle
    let r = ray(v3(0, 0, 0), v3(S, 0, 0));
    assert!(matches!(t.intersect(&r), IntersectionResult::Miss));
}

fn far_sphere() -> Sphere {
    Sphere { radius: fx(19661), position: v3(0, 0, -4 * S) }
}

#[test]
fn nearest_hit_picks_smaller_t_first_order() {
    let a = Shape::Sphere(unit_sphere_scene());
    let b = Shape::Sphere(far_sphere());
    let g = Geometry { objects: vec![a, b] };
    let r = ray(v3(0, 0, 0), v3(0, 0, -S));
    match g.intersect(&r) {
        IntersectionResult::Hit { idx, t, .. } => {
            assert_eq!(idx, 0);
            assert_eq!(t.raw, 111412);
        }
        IntersectionResult::Miss => panic!("expected a hit"),
    }
}

#[test]
fn nearest_hit_is_order_independent() {
    // the same scene with the collection order swapped returns the
    // same hit data; only the index follows the position
    let a = Shape::Sphere(unit_sphere_scene());
    let b = Shape::Sphere(far_sphere());
    let g = Geometry { objects: vec![b, a] };
    let r = ray(v3(0, 0, 0), v3(0, 0, -S));
    match g.intersect(&r) {
        IntersectionResult::Hit { idx, t, point, normal, .. } => {
            assert_eq!(idx, 1);
            assert_eq!(t.raw, 111412);
            assert_eq!((point.x.raw, point.y.raw, point.z.raw), (0, 0, -111412));
            assert_eq!((normal.x.raw, normal.y.raw, normal.z.raw), (0, 0, -S));
        }
        IntersectionResult::Miss => panic!("expected a hit"),
    }
}

#[test]
fn nearest_hit_respects_ray_interval() {
    let a = Shape::Sphere(unit_sphere_scene());
    let g = Geometry { objects: vec![a] };
    // hit parameter ~1.7 lies outside [0, 1]: the aggregate misses
    let r = Ray { pos: v3(0, 0, 0), dir: v3(0, 0, -S), min: fx(0), max: fx(S) };
    assert!(matches!(g.intersect(&r), IntersectionResult::Miss));
}

#[test]
fn tri_geometry_nearest_of_two_triangles() {
    let near = Triangle {
        vertices: [v3(-S, -S, -2 * S), v3(S, -S, -2 * S), v3(0, S, -2 * S)],
        pbr_mat: PBRMaterial::from_rgb(1, 2, 3),
    };
    let far = Triangle {
        vertices: [v3(-S, -S, -3 * S), v3(S, -S, -3 * S), v3(0, S, -3 * S)],
        pbr_mat: PBRMaterial::from_rgb(4, 5, 6),
    };
    let r = ray(v3(0, 0, 0), v3(0, 0, -S));
    let g1 = TriGeometry { objects: vec![near, far] };
    let g2 = TriGeometry { objects: vec![far, near] };
    match (g1.intersect(&r), g2.intersect(&r)) {
        (
            IntersectionResult::Hit { idx: i1, t: t1, .. },
            IntersectionResult::Hit { idx: i2, t: t2, .. },
        ) => {
            assert_eq!(t1.raw, t2.raw);
            assert_eq!(t1.raw, 2 * S);
            assert_eq!(i1, 0);
            assert_eq!(i2, 1);
        }
        _ => panic!("expected two hits"),
    }
}

#[test]
fn empty_geometry_always_misses() {
    let g = TriGeometry { objects: vec![] };
    let r = ray(v3(0, 0, 0), v3(0, 0, -S));
    assert!(matches!(g.intersect(&r), IntersectionResult::Miss));
}
