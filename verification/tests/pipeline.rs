//! Ray generation, the camera transform, scene building and the
//! end-to-end pixel pipeline.

use raytracer::camera::Camera;
use raytracer::fixed::{Fx, FX_SCALE};
use raytracer::intersections::{Geometry, Intersect, IntersectionResult, Shape, Sphere};
use raytracer::light_transport::PBRMaterial;
use raytracer::maths::{Vec2, Vec3};
use raytracer::model::{build_triangles, Transform};
use raytracer::ray::{tan_approx, CameraFovDirection, PinholePerspective, Ray, RayGenerator};
use raytracer::render::{generate_rays, render_pixel, trace_with, RenderConfig};
use raytracer::RenderError;

const S: i64 = FX_SCALE;

/// The field of view used throughout: a quarter turn, pi/4 radians.
const FOV_RAW: i64 = 51472;

fn fx(raw: i64) -> Fx {
    Fx { raw }
}

fn v3(x: i64, y: i64, z: i64) -> Vec3 {
    Vec3 { x: fx(x), y: fx(y), z: fx(z) }
}

fn v2(x: i64, y: i64) -> Vec2 {
    Vec2 { x: fx(x), y: fx(y) }
}

fn four_by_four() -> PinholePerspective {
    PinholePerspective {
        camera_fov: fx(FOV_RAW),
        fov_dir: CameraFovDirection::Horizontal,
        image_size: v2(4 * S, 4 * S),
    }
}

fn origin_camera() -> Camera {
    Camera {
        position: v3(0, 0, 0),
        direction: v3(0, 0, -S),
        up: v3(0, S, 0),
        fov: fx(FOV_RAW),
    }
}

#[test]
fn tan_approx_matches_float_tangent() {
    for (raw, angle) in [(25736i64, 0.39269908f64), (13107, 0.2), (0, 0.0), (-25736, -0.39269908)]
    {
        let got = tan_approx(fx(raw)).raw as f64 / S as f64;
        let expect = angle.tan();
        assert!((got - expect).abs() < 2e-3, "tan({}) got {} expected {}", angle, got, expect);
    }
}

#[test]
fn gen_ray_center_pixel_points_down_axis() {
    let p = four_by_four();
    // pixel (1,1) plus the single-sample half-pixel offsets lands on
    // the exact image center
    let r = p.gen_ray(v2(3 * S / 2, 3 * S / 2));
    assert_eq!((r.dir.x.raw, r.dir.y.raw, r.dir.z.raw), (0, 0, -S));
    assert_eq!((r.pos.x.raw, r.pos.y.raw, r.pos.z.raw), (0, 0, 0));
    assert_eq!(r.min.raw, 0);
    assert_eq!(r.max.raw, i64::MAX);
}

#[test]
fn gen_ray_is_left_right_symmetric() {
    let p = four_by_four();
    let left = p.gen_ray(v2(S / 2, 3 * S / 2));
    let right = p.gen_ray(v2(5 * S / 2, 3 * S / 2));
    assert_eq!(left.dir.x.raw, -right.dir.x.raw);
    assert_eq!(left.dir.y.raw, right.dir.y.raw);
    assert_eq!(left.dir.z.raw, right.dir.z.raw);
}

#[test]
fn gen_samples_is_deterministic() {
    let p = four_by_four();
    let a = p.gen_samples(v2(S, 2 * S), 4).expect("supported count");
    let b = p.gen_samples(v2(S, 2 * S), 4).expect("supported count");
    assert_eq!(a.len(), 4);
    assert_eq!(a, b);
}

#[test]
fn gen_samples_counts_and_error() {
    let p = four_by_four();
    for n in [1usize, 2, 4, 8, 16] {
        assert_eq!(p.gen_samples(v2(0, 0), n).expect("supported count").len(), n);
    }
    for n in [0usize, 3, 5, 7, 9, 32] {
        assert_eq!(p.gen_samples(v2(0, 0), n).unwrap_err(), RenderError::InvalidSampleCount);
    }
}

#[test]
fn gen_samples_applies_the_offset_pattern() {
    let p = four_by_four();
    let rays = p.gen_samples(v2(S, S), 2).expect("supported count");
    // the two-sample pattern offsets are (0.25, 0.25) and (0.75, 0.75)
    assert_eq!(rays[0], p.gen_ray(v2(S + S / 4, S + S / 4)));
    assert_eq!(rays[1], p.gen_ray(v2(S + 3 * S / 4, S + 3 * S / 4)));
}

#[test]
fn camera_at_origin_looking_down_z_is_identity() {
    let cam = origin_camera();
    let r = four_by_four().gen_ray(v2(3 * S / 2, 3 * S / 2));
    let w = cam.ray_cam_to_world(&r);
    assert_eq!(w, r);
}

#[test]
fn camera_translation_moves_ray_origin() {
    let mut cam = origin_camera();
    cam.position = v3(S, 2 * S, 3 * S);
    let r = four_by_four().gen_ray(v2(3 * S / 2, 3 * S / 2));
    let w = cam.ray_cam_to_world(&r);
    // the camera-space ray leaves the local origin, so the world ray
    // leaves the camera's position; the direction is kept (the
    // rotation is the identity here)
    assert_eq!((w.pos.x.raw, w.pos.y.raw, w.pos.z.raw), (S, 2 * S, 3 * S));
    assert_eq!((w.dir.x.raw, w.dir.y.raw, w.dir.z.raw), (0, 0, -S));
}

#[test]
fn camera_rotates_the_ray_origin_offset() {
    // a camera looking down the positive x axis: under the basis
    // convention (right = direction x up) its right vector is the
    // world +z axis, so a camera-space origin offset along +x lands
    // at position + (0, 0, 1)
    let cam = Camera {
        position: v3(10 * S, 0, 0),
        direction: v3(S, 0, 0),
        up: v3(0, S, 0),
        fov: fx(FOV_RAW),
    };
    let r = Ray {
        pos: v3(S, 0, 0),
        dir: v3(0, 0, -S),
        min: fx(0),
        max: fx(i64::MAX),
    };
    let w = cam.ray_cam_to_world(&r);
    assert_eq!((w.pos.x.raw, w.pos.y.raw, w.pos.z.raw), (10 * S, 0, S));
}

fn identity_transform() -> Transform {
    Transform {
        c0: v3(S, 0, 0),
        c1: v3(0, S, 0),
        c2: v3(0, 0, S),
        t: v3(0, 0, 0),
    }
}

#[test]
fn build_triangles_swaps_vertical_axis() {
    let vertices = vec![v3(0, S, 2 * S), v3(S, 0, 0), v3(0, 0, S)];
    let indices = vec![0u32, 1, 2];
    let mat = PBRMaterial::from_rgb(1, 2, 3);
    let ts = build_triangles(&vertices, &indices, &identity_transform(), mat).expect("well-formed");
    assert_eq!(ts.len(), 1);
    // y and z change places under the loader's axis convention
    assert_eq!(ts[0].vertices[0], v3(0, 2 * S, S));
    assert_eq!(ts[0].vertices[1], v3(S, 0, 0));
    assert_eq!(ts[0].vertices[2], v3(0, S, 0));
    assert_eq!(ts[0].pbr_mat, mat);
}

#[test]
fn build_triangles_applies_transform() {
    // a doubling transform with a translation
    let m = Transform {
        c0: v3(2 * S, 0, 0),
        c1: v3(0, 2 * S, 0),
        c2: v3(0, 0, 2 * S),
        t: v3(S, 0, 0),
    };
    let vertices = vec![v3(S, S, 0), v3(0, 0, 0), v3(S, 0, 0)];
    let indices = vec![0u32, 1, 2];
    let ts = build_triangles(&vertices, &indices, &m, PBRMaterial::from_rgb(0, 0, 0))
        .expect("well-formed");
    // (1,1,0) -> (3,2,0) -> swapped (3,0,2)
    assert_eq!(ts[0].vertices[0], v3(3 * S, 0, 2 * S));
}

#[test]
fn build_triangles_rejects_dangling_indices() {
    let vertices = vec![v3(0, 0, 0), v3(S, 0, 0), v3(0, S, 0)];
    let indices = vec![0u32, 1, 2, 0];
    let r = build_triangles(&vertices, &indices, &identity_transform(), PBRMaterial::from_rgb(0, 0, 0));
    assert_eq!(r.unwrap_err(), RenderError::DanglingIndices);
}

#[test]
fn build_triangles_rejects_out_of_bounds_index() {
    let vertices = vec![v3(0, 0, 0), v3(S, 0, 0), v3(0, S, 0)];
    let indices = vec![0u32, 1, 9];
    let r = build_triangles(&vertices, &indices, &identity_transform(), PBRMaterial::from_rgb(0, 0, 0));
    assert_eq!(r.unwrap_err(), RenderError::IndexOutOfBounds);
}

fn single_sphere_scene() -> Geometry {
    Geometry {
        objects: vec![Shape::Sphere(Sphere { radius: fx(19661), position: v3(0, 0, -2 * S) })],
    }
}

#[test]
fn end_to_end_center_pixel_hits_sphere() {
    // a 4x4 image, camera at the origin looking down the negative z
    // axis, a sphere of radius 0.3 at (0,0,-2): the ray through the
    // image center hits it at a distance between 1.5 and 2
    let geom = single_sphere_scene();
    let cam = origin_camera();
    let rays = generate_rays(v2(S, S), &four_by_four(), &cam, 1).expect("supported count");
    assert_eq!(rays.len(), 1);
    assert_eq!((rays[0].dir.x.raw, rays[0].dir.y.raw, rays[0].dir.z.raw), (0, 0, -S));
    match geom.intersect(&rays[0]) {
        IntersectionResult::Hit { t, .. } => {
            assert!(3 * S / 2 < t.raw && t.raw < 2 * S, "t raw {}", t.raw);
        }
        IntersectionResult::Miss => panic!("center ray should hit the sphere"),
    }
    // with no lights in the scene the shaded pixel is black
    let lights = vec![];
    let col = trace_with(rays, &geom, &lights);
    assert_eq!((col.r, col.g, col.b, col.a), (0, 0, 0, 0xFF));
}

#[test]
fn end_to_end_corner_pixels_get_background() {
    let geom = single_sphere_scene();
    let cam = origin_camera();
    let lights = vec![];
    for (px, py) in [(0i64, 0i64), (0, 3), (3, 0), (3, 3)] {
        let rays = generate_rays(v2(px * S, py * S), &four_by_four(), &cam, 1)
            .expect("supported count");
        assert!(
            matches!(geom.intersect(&rays[0]), IntersectionResult::Miss),
            "corner ray ({}, {}) should miss",
            px,
            py
        );
        let col = trace_with(rays, &geom, &lights);
        // the defined miss background: one byte per channel
        assert_eq!((col.r, col.g, col.b, col.a), (1, 1, 1, 0xFF));
    }
}

#[test]
fn render_pixel_agrees_with_the_manual_pipeline() {
    let geom = single_sphere_scene();
    let cfg = RenderConfig {
        width: 4,
        height: 4,
        camera: origin_camera(),
        samples: 1,
        lights: vec![],
    };
    // center pixel: hit shaded with no lights is black
    let center = render_pixel(&cfg, &geom, v2(S, S)).expect("valid configuration");
    assert_eq!((center.r, center.g, center.b, center.a), (0, 0, 0, 0xFF));
    // corner pixel: the miss background
    let corner = render_pixel(&cfg, &geom, v2(0, 0)).expect("valid configuration");
    assert_eq!((corner.r, corner.g, corner.b), (1, 1, 1));
}

#[test]
fn render_pixel_rejects_bad_configurations() {
    let geom = single_sphere_scene();
    let mut cfg = RenderConfig {
        width: 0,
        height: 4,
        camera: origin_camera(),
        samples: 3,
        lights: vec![],
    };
    // a zero dimension is reported before the sample count
    assert_eq!(
        render_pixel(&cfg, &geom, v2(0, 0)).unwrap_err(),
        RenderError::ZeroImageDimension
    );
    cfg.width = 4;
    assert_eq!(
        render_pixel(&cfg, &geom, v2(0, 0)).unwrap_err(),
        RenderError::InvalidSampleCount
    );
    cfg.samples = 1;
    assert!(render_pixel(&cfg, &geom, v2(0, 0)).is_ok());
}

#[test]
fn trace_averages_hit_and_miss_samples() {
    // one ray hits nothing, so every sample contributes the
    // background byte and the average is that byte again
    let geom = single_sphere_scene();
    let cam = origin_camera();
    let lights = vec![];
    let rays = generate_rays(v2(0, 0), &four_by_four(), &cam, 4).expect("supported count");
    assert_eq!(rays.len(), 4);
    let col = trace_with(rays, &geom, &lights);
    assert_eq!((col.r, col.g, col.b), (1, 1, 1));
}
